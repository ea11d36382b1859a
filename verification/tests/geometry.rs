use imgui_dx9_renderer::draw_data::{DrawList, FrameDrawData};
use imgui_dx9_renderer::float_bits::FloatBits;
use imgui_dx9_renderer::vertex::{CustomVertex, DrawVert};

fn bits(x: f32) -> FloatBits {
    FloatBits(x.to_bits())
}

fn vertex(n: u8) -> DrawVert {
    DrawVert {
        pos: [bits(n as f32), bits(n as f32 + 0.5)],
        uv: [bits(0.125 * n as f32), bits(1.0)],
        col: [n, n + 1, n + 2, n + 3],
    }
}

fn device(n: u8) -> CustomVertex {
    CustomVertex {
        pos: [bits(n as f32), bits(n as f32 + 0.5), bits(0.0)],
        col: [n + 2, n + 1, n, n + 3],
        uv: [bits(0.125 * n as f32), bits(1.0)],
    }
}

fn frame(lists: Vec<DrawList>) -> FrameDrawData {
    let one = [bits(1.0), bits(1.0)];
    FrameDrawData::new([bits(0.0), bits(0.0)], one, one, lists).unwrap()
}

#[test]
fn vertices_are_converted_and_follow_list_after_list() {
    let frame = frame(vec![
        DrawList { vertices: vec![vertex(1), vertex(2)], indices: vec![], commands: vec![] },
        DrawList { vertices: vec![], indices: vec![], commands: vec![] },
        DrawList { vertices: vec![vertex(9), vertex(8), vertex(7)], indices: vec![], commands: vec![] },
    ]);
    assert_eq!(
        frame.device_vertices(),
        vec![device(1), device(2), device(9), device(8), device(7)]
    );
}

#[test]
fn indices_are_kept_and_follow_list_after_list() {
    let frame = frame(vec![
        DrawList { vertices: vec![], indices: vec![0, 1, 2, 2, 3, 0], commands: vec![] },
        DrawList { vertices: vec![], indices: vec![], commands: vec![] },
        DrawList { vertices: vec![], indices: vec![0, 65535, 7], commands: vec![] },
    ]);
    assert_eq!(frame.device_indices(), vec![0, 1, 2, 2, 3, 0, 0, 65535, 7]);
}

#[test]
fn geometry_is_as_long_as_the_frame_counts() {
    let frame = frame(vec![
        DrawList { vertices: vec![vertex(1); 5], indices: vec![3; 9], commands: vec![] },
        DrawList { vertices: vec![vertex(2); 7], indices: vec![4; 12], commands: vec![] },
    ]);
    assert_eq!(frame.device_vertices().len(), frame.total_vtx_count());
    assert_eq!(frame.device_indices().len(), frame.total_idx_count());
    assert_eq!(frame.total_vtx_count(), 12);
    assert_eq!(frame.total_idx_count(), 21);
}

#[test]
fn frame_without_lists_has_no_geometry() {
    let frame = frame(vec![]);
    assert_eq!(frame.device_vertices(), vec![]);
    assert_eq!(frame.device_indices(), Vec::<u16>::new());
}
