//! Vertices, as the UI layer writes them and as the device reads them.

use crate::float_bits::FloatBits;
use vstd::prelude::*;

verus! {

/// A vertex index. The UI layer is built with 16-bit indices.
pub type DrawIdx = u16;

/// A vertex of the UI layer: position, texture coordinates, and the colour
/// as its four bytes in memory, red first.
#[derive(Clone, Copy, Debug, PartialEq, Eq)]
pub struct DrawVert {
    pub pos: [FloatBits; 2],
    pub uv: [FloatBits; 2],
    pub col: [u8; 4],
}

/// A vertex in the device's fixed format: position in space, diffuse colour,
/// one set of texture coordinates. The colour is held as its four bytes in
/// memory, blue first.
#[derive(Clone, Copy, Debug, PartialEq, Eq)]
pub struct CustomVertex {
    pub pos: [FloatBits; 3],
    pub col: [u8; 4],
    pub uv: [FloatBits; 2],
}

/// The colour bytes in the device's order: the first and third channel change
/// places, the second and the fourth stay.
pub open spec fn device_color(col: [u8; 4]) -> [u8; 4] {
    [col[2], col[1], col[0], col[3]]
}

/// The colour bytes in the UI layer's order, from the device's order.
pub open spec fn source_color(col: [u8; 4]) -> [u8; 4] {
    [col[2], col[1], col[0], col[3]]
}

/// The device vertex for a vertex of the UI layer: the position lies in the
/// plane z = 0, the colour is reordered, the texture coordinates are kept.
pub open spec fn device_vertex(vertex: DrawVert) -> CustomVertex {
    CustomVertex {
        pos: [vertex.pos[0], vertex.pos[1], FloatBits(0)],
        col: device_color(vertex.col),
        uv: vertex.uv,
    }
}

/// Reorders colour bytes from the UI layer's order to the device's.
pub fn to_device_color(col: [u8; 4]) -> (out: [u8; 4])
    ensures
        out == device_color(col),
{
    [col[2], col[1], col[0], col[3]]
}

/// Reorders colour bytes from the device's order to the UI layer's.
pub fn to_source_color(col: [u8; 4]) -> (out: [u8; 4])
    ensures
        out == source_color(col),
{
    [col[2], col[1], col[0], col[3]]
}

impl CustomVertex {
    /// Converts a vertex of the UI layer to the device's format.
    pub fn from_draw_vert(vertex: &DrawVert) -> (out: CustomVertex)
        ensures
            out == device_vertex(*vertex),
    {
        CustomVertex {
            pos: [vertex.pos[0], vertex.pos[1], FloatBits::zero()],
            col: to_device_color(vertex.col),
            uv: vertex.uv,
        }
    }
}

/// Reordering the colour channels loses nothing: the inverse brings every
/// channel back, in both directions, and since the reordering only swaps two
/// channels, applying it twice does so too.
pub proof fn lemma_color_round_trip(col: [u8; 4])
    ensures
        source_color(device_color(col)) == col,
        device_color(source_color(col)) == col,
        device_color(device_color(col)) == col,
{
}

/// Each channel of the device colour is one fixed channel of the source.
pub proof fn lemma_color_is_permutation(col: [u8; 4])
    ensures
        device_color(col)[0] == col[2],
        device_color(col)[1] == col[1],
        device_color(col)[2] == col[0],
        device_color(col)[3] == col[3],
{
}

} // verus!
