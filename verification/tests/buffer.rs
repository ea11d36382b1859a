use imgui_dx9_renderer::buffer::{
    BufferKind, GpuBuffer, INDEX_BUF_ADD_CAPACITY, VERTEX_BUF_ADD_CAPACITY,
};

#[test]
fn slack_is_5000_vertices_and_10000_indices() {
    assert_eq!(VERTEX_BUF_ADD_CAPACITY, 5000);
    assert_eq!(INDEX_BUF_ADD_CAPACITY, 10000);
    assert_eq!(BufferKind::Vertex.slack(), 5000);
    assert_eq!(BufferKind::Index.slack(), 10000);
}

#[test]
fn first_use_creates_a_buffer_even_for_nothing() {
    let buffer = GpuBuffer::new();
    assert_eq!(buffer.capacity(), 0);
    assert_eq!(buffer.ensure_capacity(BufferKind::Vertex, 0), Some(5000));
    assert_eq!(buffer.ensure_capacity(BufferKind::Index, 0), Some(10000));
}

#[test]
fn new_buffer_has_the_required_size_and_the_slack() {
    let buffer = GpuBuffer::new();
    assert_eq!(buffer.ensure_capacity(BufferKind::Vertex, 123), Some(5123));
    assert_eq!(buffer.ensure_capacity(BufferKind::Index, 123), Some(10123));
}

#[test]
fn buffer_is_kept_while_it_is_large_enough() {
    let mut buffer = GpuBuffer::new();
    buffer.replace(5123);
    assert_eq!(buffer.capacity(), 5123);
    assert_eq!(buffer.ensure_capacity(BufferKind::Vertex, 0), None);
    assert_eq!(buffer.ensure_capacity(BufferKind::Vertex, 5122), None);
    assert_eq!(buffer.ensure_capacity(BufferKind::Vertex, 5123), None);
    assert_eq!(buffer.ensure_capacity(BufferKind::Vertex, 5124), Some(10124));
}

#[test]
fn buffer_without_capacity_is_kept_for_an_empty_frame() {
    let mut buffer = GpuBuffer::new();
    buffer.replace(0);
    assert_eq!(buffer.ensure_capacity(BufferKind::Index, 0), None);
    assert_eq!(buffer.ensure_capacity(BufferKind::Index, 1), Some(10001));
}
