//! What the renderer asks of the graphics device.
//!
//! The renderer never touches the device. It says what is to be done, as
//! values of the types below, and the host does it. A [`DeviceCall`] can fail,
//! and the host reports its status back. A [`DeviceOp`] is done and its status
//! is not looked at.

use crate::float_bits::FloatBits;
use crate::textures::TextureHandle;
use vstd::prelude::*;

verus! {

/// A device call whose status decides how the renderer goes on.
#[derive(Clone, Copy, Debug, PartialEq, Eq)]
pub enum DeviceCall {
    /// Create a dynamic, write-only vertex buffer of `len` vertices, and
    /// release the one held so far.
    CreateVertexBuffer { len: usize },
    /// Create a dynamic, write-only index buffer of `len` indices, and
    /// release the one held so far.
    CreateIndexBuffer { len: usize },
    /// Capture the device state in a state block.
    CaptureState,
    /// Lock `count` vertices of the vertex buffer for writing, discarding
    /// what it held.
    LockVertexBuffer { count: usize },
    /// Lock `count` indices of the index buffer for writing, discarding what
    /// it held.
    LockIndexBuffer { count: usize },
    /// Create the font atlas texture, of `width` by `height` 32-bit pixels.
    CreateFontTexture { width: u32, height: u32 },
    /// Lock the font atlas texture for writing.
    LockFontTexture,
}

/// How triangles are culled.
#[derive(Clone, Copy, Debug, PartialEq, Eq)]
pub enum CullMode {
    Disabled,
    Clockwise,
    CounterClockwise,
}

/// How source and destination are combined when blending.
#[derive(Clone, Copy, Debug, PartialEq, Eq)]
pub enum BlendOp {
    Add,
    Subtract,
    RevSubtract,
    Min,
    Max,
}

/// A blend factor.
#[derive(Clone, Copy, Debug, PartialEq, Eq)]
pub enum Blend {
    Zero,
    One,
    SrcColor,
    InvSrcColor,
    SrcAlpha,
    InvSrcAlpha,
    DestAlpha,
    InvDestAlpha,
    DestColor,
    InvDestColor,
}

/// How colours are interpolated over a triangle.
#[derive(Clone, Copy, Debug, PartialEq, Eq)]
pub enum ShadeMode {
    Flat,
    Gouraud,
}

/// A render state and the value to set it to.
#[derive(Clone, Copy, Debug, PartialEq, Eq)]
pub enum RenderState {
    CullMode(CullMode),
    Lighting(bool),
    ZEnable(bool),
    AlphaBlendEnable(bool),
    AlphaTestEnable(bool),
    BlendOp(BlendOp),
    SrcBlend(Blend),
    DestBlend(Blend),
    ScissorTestEnable(bool),
    ShadeMode(ShadeMode),
    FogEnable(bool),
}

/// What a texture stage does with its two arguments.
#[derive(Clone, Copy, Debug, PartialEq, Eq)]
pub enum TextureOp {
    Disable,
    SelectArg1,
    SelectArg2,
    Modulate,
}

/// An argument of a texture stage.
#[derive(Clone, Copy, Debug, PartialEq, Eq)]
pub enum TextureArg {
    Diffuse,
    Current,
    Texture,
}

/// A state of texture stage 0 and the value to set it to.
#[derive(Clone, Copy, Debug, PartialEq, Eq)]
pub enum TextureStageState {
    ColorOp(TextureOp),
    ColorArg1(TextureArg),
    ColorArg2(TextureArg),
    AlphaOp(TextureOp),
    AlphaArg1(TextureArg),
    AlphaArg2(TextureArg),
}

/// How a texture is sampled.
#[derive(Clone, Copy, Debug, PartialEq, Eq)]
pub enum TextureFilter {
    Point,
    Linear,
}

/// A state of sampler 0 and the value to set it to.
#[derive(Clone, Copy, Debug, PartialEq, Eq)]
pub enum SamplerState {
    MinFilter(TextureFilter),
    MagFilter(TextureFilter),
}

/// One of the device's transforms.
#[derive(Clone, Copy, Debug, PartialEq, Eq)]
pub enum Transform {
    World,
    View,
    Projection,
}

/// A matrix for a transform.
#[derive(Clone, Copy, Debug, PartialEq, Eq)]
pub enum Matrix {
    Identity,
    /// The orthographic projection that maps the rectangle from
    /// `display_pos` to `display_pos + display_size`, moved by half a pixel
    /// along both axes, onto the clip space from -1 to 1.
    Orthographic { display_pos: [FloatBits; 2], display_size: [FloatBits; 2] },
}

/// The texture to draw with.
#[derive(Clone, Copy, Debug, PartialEq, Eq)]
pub enum TextureBinding {
    /// The font atlas texture, which the renderer's host made at set-up.
    Font,
    /// A texture of the registry.
    Registered(TextureHandle),
}

/// A device operation whose status the renderer does not ask for.
#[derive(Clone, Copy, Debug, PartialEq, Eq)]
pub enum DeviceOp {
    /// Write the frame's vertices, in the device's format, into the locked
    /// vertex buffer.
    UploadVertices,
    /// Write the frame's indices into the locked index buffer.
    UploadIndices,
    UnlockVertexBuffer,
    UnlockIndexBuffer,
    /// Make the vertex buffer the source of stream 0.
    SetStreamSource,
    /// Make the index buffer the source of indices.
    SetIndices,
    /// Set the vertex format: position, diffuse colour, one set of texture
    /// coordinates.
    SetVertexFormat,
    /// Set the viewport to the whole framebuffer: `display_size` times
    /// `framebuffer_scale` pixels from the origin, depth from 0 to 1.
    SetViewport { display_size: [FloatBits; 2], framebuffer_scale: [FloatBits; 2] },
    /// Use no pixel shader.
    ClearPixelShader,
    /// Use no vertex shader.
    ClearVertexShader,
    SetRenderState(RenderState),
    SetTextureStageState(TextureStageState),
    SetSamplerState(SamplerState),
    SetTransform(Transform, Matrix),
    /// Bind the texture to stage 0.
    SetTexture(TextureBinding),
    /// Set the scissor rectangle to `clip_rect`, moved by `-display_pos`,
    /// scaled by `framebuffer_scale` and cut down to whole pixels.
    SetScissorRect {
        clip_rect: [FloatBits; 4],
        display_pos: [FloatBits; 2],
        framebuffer_scale: [FloatBits; 2],
    },
    /// Draw `primitive_count` triangles from the indices that start at
    /// `start_index`; the indices count from `base_vertex`, and reach
    /// `vertex_count` vertices.
    DrawIndexedPrimitive { base_vertex: i32, vertex_count: u32, start_index: u32, primitive_count: u32 },
    /// Call the callback of command `command` of draw list `list`.
    InvokeCallback { list: usize, command: usize },
    /// Apply the state block that was captured before the frame, and
    /// release it.
    RestoreState,
    /// Write the font atlas into the locked font texture, row by row.
    UploadFontTexture,
    UnlockFontTexture,
}

} // verus!
