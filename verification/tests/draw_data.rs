use imgui_dx9_renderer::draw_data::{DrawCommand, DrawList, FrameDrawData, MAX_COUNT};
use imgui_dx9_renderer::float_bits::FloatBits;
use imgui_dx9_renderer::vertex::DrawVert;

fn bits(x: f32) -> FloatBits {
    FloatBits(x.to_bits())
}

fn pair(x: f32, y: f32) -> [FloatBits; 2] {
    [bits(x), bits(y)]
}

fn vertex(x: f32) -> DrawVert {
    DrawVert { pos: pair(x, x), uv: pair(0.0, 1.0), col: [1, 2, 3, 4] }
}

fn elements(count: usize) -> DrawCommand {
    DrawCommand::Elements {
        count,
        clip_rect: [bits(0.0), bits(0.0), bits(1.0), bits(1.0)],
        texture_id: 0,
    }
}

fn list(vertices: usize, indices: usize, commands: Vec<DrawCommand>) -> DrawList {
    DrawList {
        vertices: (0..vertices).map(|i| vertex(i as f32)).collect(),
        indices: (0..indices).map(|i| i as u16).collect(),
        commands,
    }
}

fn frame(size: [FloatBits; 2], lists: Vec<DrawList>) -> Option<FrameDrawData> {
    FrameDrawData::new(pair(0.0, 0.0), size, pair(1.0, 1.0), lists)
}

#[test]
fn max_count_is_the_largest_signed_32_bit_number() {
    assert_eq!(MAX_COUNT, i32::MAX as usize);
}

#[test]
fn frame_keeps_what_it_was_made_of() {
    let lists = vec![list(4, 6, vec![elements(6)]), list(3, 3, vec![elements(3)])];
    let frame = FrameDrawData::new(pair(1.0, 2.0), pair(3.0, 4.0), pair(5.0, 6.0), lists.clone())
        .unwrap();
    assert_eq!(frame.display_pos(), pair(1.0, 2.0));
    assert_eq!(frame.display_size(), pair(3.0, 4.0));
    assert_eq!(frame.framebuffer_scale(), pair(5.0, 6.0));
    assert_eq!(frame.draw_lists(), &lists);
}

#[test]
fn totals_are_the_sums_over_the_lists() {
    let lists = vec![
        list(4, 6, vec![elements(6)]),
        list(0, 0, vec![]),
        list(10, 21, vec![elements(9), DrawCommand::ResetRenderState, elements(12)]),
    ];
    let frame = frame(pair(10.0, 10.0), lists).unwrap();
    assert_eq!(frame.total_vtx_count(), 14);
    assert_eq!(frame.total_idx_count(), 27);
}

#[test]
fn frame_without_lists_counts_nothing() {
    let frame = frame(pair(10.0, 10.0), vec![]).unwrap();
    assert_eq!(frame.total_vtx_count(), 0);
    assert_eq!(frame.total_idx_count(), 0);
    assert!(frame.draw_lists().is_empty());
}

#[test]
fn frame_with_as_many_elements_as_the_device_takes_exists() {
    assert!(frame(pair(1.0, 1.0), vec![list(0, 0, vec![elements(MAX_COUNT)])]).is_some());
    assert!(frame(
        pair(1.0, 1.0),
        vec![list(0, 0, vec![elements(MAX_COUNT - 5)]), list(0, 0, vec![elements(5)])]
    )
    .is_some());
}

#[test]
fn frame_with_more_elements_than_the_device_takes_does_not_exist() {
    assert!(frame(pair(1.0, 1.0), vec![list(0, 0, vec![elements(MAX_COUNT + 1)])]).is_none());
    assert!(frame(pair(1.0, 1.0), vec![list(0, 0, vec![elements(usize::MAX)])]).is_none());
    assert!(frame(
        pair(1.0, 1.0),
        vec![list(0, 0, vec![elements(MAX_COUNT), DrawCommand::RawCallback, elements(1)])]
    )
    .is_none());
    assert!(frame(
        pair(1.0, 1.0),
        vec![list(0, 0, vec![elements(MAX_COUNT - 5)]), list(0, 0, vec![elements(6)])]
    )
    .is_none());
    assert!(frame(
        pair(1.0, 1.0),
        vec![list(0, 0, vec![elements(usize::MAX), elements(usize::MAX)])]
    )
    .is_none());
}

#[test]
fn display_with_a_dimension_below_zero_is_collapsed() {
    assert!(frame(pair(-1.0, 100.0), vec![]).unwrap().is_collapsed());
    assert!(frame(pair(100.0, -1.0), vec![]).unwrap().is_collapsed());
    assert!(frame(pair(-0.001, -0.001), vec![]).unwrap().is_collapsed());
    assert!(frame(pair(f32::NEG_INFINITY, 1.0), vec![]).unwrap().is_collapsed());
}

#[test]
fn display_of_no_extent_is_not_collapsed() {
    assert!(!frame(pair(0.0, 0.0), vec![]).unwrap().is_collapsed());
    assert!(!frame(pair(-0.0, 100.0), vec![]).unwrap().is_collapsed());
    assert!(!frame(pair(100.0, 100.0), vec![]).unwrap().is_collapsed());
    assert!(!frame(pair(f32::NAN, 100.0), vec![]).unwrap().is_collapsed());
}
