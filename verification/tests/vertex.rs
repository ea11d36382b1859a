use imgui_dx9_renderer::float_bits::FloatBits;
use imgui_dx9_renderer::vertex::{to_device_color, to_source_color, CustomVertex, DrawVert};

fn bits(x: f32) -> FloatBits {
    FloatBits(x.to_bits())
}

#[test]
fn device_color_swaps_the_first_and_third_channel() {
    assert_eq!(to_device_color([1, 2, 3, 4]), [3, 2, 1, 4]);
    assert_eq!(to_device_color([0xff, 0x80, 0x00, 0x7f]), [0x00, 0x80, 0xff, 0x7f]);
}

#[test]
fn source_color_undoes_device_color() {
    for col in [[1u8, 2, 3, 4], [0, 0, 0, 0], [255, 254, 253, 252], [9, 9, 1, 0]] {
        assert_eq!(to_source_color(to_device_color(col)), col);
        assert_eq!(to_device_color(to_source_color(col)), col);
        assert_eq!(to_device_color(to_device_color(col)), col);
    }
}

#[test]
fn device_color_round_trips_on_every_pair_of_swapped_channels() {
    for r in 0..=255u8 {
        for b in [0u8, 1, 127, 128, 255] {
            let col = [r, 42, b, 7];
            assert_eq!(to_device_color(col), [b, 42, r, 7]);
            assert_eq!(to_source_color(to_device_color(col)), col);
        }
    }
}

#[test]
fn device_vertex_lies_in_the_plane_and_keeps_uv() {
    let vertex = DrawVert {
        pos: [bits(12.5), bits(-3.0)],
        uv: [bits(0.25), bits(0.75)],
        col: [10, 20, 30, 40],
    };
    let out = CustomVertex::from_draw_vert(&vertex);
    assert_eq!(
        out,
        CustomVertex {
            pos: [bits(12.5), bits(-3.0), bits(0.0)],
            col: [30, 20, 10, 40],
            uv: [bits(0.25), bits(0.75)],
        }
    );
    assert_eq!(f32::from_bits(out.pos[2].0), 0.0);
}

#[test]
fn device_vertex_keeps_the_bits_of_a_nan() {
    let nan = FloatBits(0x7fc0_1234);
    let vertex = DrawVert { pos: [nan, nan], uv: [nan, nan], col: [0, 0, 0, 0] };
    let out = CustomVertex::from_draw_vert(&vertex);
    assert_eq!(out.pos[0], nan);
    assert_eq!(out.pos[1], nan);
    assert_eq!(out.uv, [nan, nan]);
}
