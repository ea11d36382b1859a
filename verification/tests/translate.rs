use imgui_dx9_renderer::device::{DeviceOp, TextureBinding};
use imgui_dx9_renderer::draw_data::{DrawCommand, DrawList, FrameDrawData};
use imgui_dx9_renderer::error::RenderError;
use imgui_dx9_renderer::float_bits::FloatBits;
use imgui_dx9_renderer::render_state::set_render_state;
use imgui_dx9_renderer::textures::{TextureRegistry, FONT_TEX_ID};
use imgui_dx9_renderer::translate::{draw_commands, resolve_texture};
use imgui_dx9_renderer::vertex::DrawVert;

fn bits(x: f32) -> FloatBits {
    FloatBits(x.to_bits())
}

fn pair(x: f32, y: f32) -> [FloatBits; 2] {
    [bits(x), bits(y)]
}

fn rect(l: f32, t: f32, r: f32, b: f32) -> [FloatBits; 4] {
    [bits(l), bits(t), bits(r), bits(b)]
}

fn elements(count: usize, texture_id: usize) -> DrawCommand {
    DrawCommand::Elements { count, clip_rect: rect(0.0, 0.0, 8.0, 8.0), texture_id }
}

fn list(vertices: usize, commands: Vec<DrawCommand>) -> DrawList {
    let vertex = DrawVert { pos: pair(0.0, 0.0), uv: pair(0.0, 0.0), col: [0; 4] };
    DrawList { vertices: vec![vertex; vertices], indices: vec![], commands }
}

fn frame(lists: Vec<DrawList>) -> FrameDrawData {
    FrameDrawData::new(pair(0.0, 0.0), pair(100.0, 100.0), pair(1.0, 1.0), lists).unwrap()
}

fn scissor(clip_rect: [FloatBits; 4]) -> DeviceOp {
    DeviceOp::SetScissorRect {
        clip_rect,
        display_pos: pair(0.0, 0.0),
        framebuffer_scale: pair(1.0, 1.0),
    }
}

fn draw(base_vertex: i32, vertex_count: u32, start_index: u32, primitive_count: u32) -> DeviceOp {
    DeviceOp::DrawIndexedPrimitive { base_vertex, vertex_count, start_index, primitive_count }
}

#[test]
fn font_id_resolves_to_the_font_texture() {
    let mut registry = TextureRegistry::new();
    registry.insert(55).unwrap();
    assert_eq!(resolve_texture(&registry, FONT_TEX_ID), Ok(TextureBinding::Font));
}

#[test]
fn registered_id_resolves_to_its_handle() {
    let mut registry = TextureRegistry::new();
    let id = registry.insert(55).unwrap();
    assert_eq!(resolve_texture(&registry, id), Ok(TextureBinding::Registered(55)));
}

#[test]
fn unknown_id_is_an_invalid_texture_reference() {
    let mut registry = TextureRegistry::new();
    let id = registry.insert(55).unwrap();
    assert_eq!(resolve_texture(&registry, id + 1), Err(RenderError::InvalidTextureReference));
    assert_eq!(resolve_texture(&registry, 55), Err(RenderError::InvalidTextureReference));
}

#[test]
fn scissor_takes_clip_rect_position_and_scale_from_the_frame() {
    let command = DrawCommand::Elements {
        count: 6,
        clip_rect: rect(10.0, 10.0, 50.0, 50.0),
        texture_id: FONT_TEX_ID,
    };
    let frame = FrameDrawData::new(
        pair(0.0, 0.0),
        pair(640.0, 480.0),
        pair(1.0, 1.0),
        vec![list(4, vec![command])],
    )
    .unwrap();
    let mut ops = Vec::new();
    assert_eq!(draw_commands(&mut ops, &frame, &TextureRegistry::new()), Ok(()));
    assert_eq!(
        ops,
        vec![
            DeviceOp::SetTexture(TextureBinding::Font),
            DeviceOp::SetScissorRect {
                clip_rect: rect(10.0, 10.0, 50.0, 50.0),
                display_pos: pair(0.0, 0.0),
                framebuffer_scale: pair(1.0, 1.0),
            },
            draw(0, 4, 0, 2),
        ]
    );
}

#[test]
fn scissor_keeps_position_and_scale_apart() {
    let command = DrawCommand::Elements {
        count: 3,
        clip_rect: rect(1.0, 2.0, 3.0, 4.0),
        texture_id: FONT_TEX_ID,
    };
    let frame = FrameDrawData::new(
        pair(5.0, 6.0),
        pair(7.0, 8.0),
        pair(2.0, 3.0),
        vec![list(3, vec![command])],
    )
    .unwrap();
    let mut ops = Vec::new();
    assert_eq!(draw_commands(&mut ops, &frame, &TextureRegistry::new()), Ok(()));
    assert_eq!(
        ops[1],
        DeviceOp::SetScissorRect {
            clip_rect: rect(1.0, 2.0, 3.0, 4.0),
            display_pos: pair(5.0, 6.0),
            framebuffer_scale: pair(2.0, 3.0),
        }
    );
}

#[test]
fn index_base_runs_on_over_commands_and_lists() {
    let frame = frame(vec![
        list(4, vec![elements(6, FONT_TEX_ID), elements(12, FONT_TEX_ID)]),
        list(10, vec![elements(3, FONT_TEX_ID), elements(9, FONT_TEX_ID)]),
    ]);
    let mut ops = Vec::new();
    assert_eq!(draw_commands(&mut ops, &frame, &TextureRegistry::new()), Ok(()));
    let draws: Vec<DeviceOp> = ops
        .iter()
        .copied()
        .filter(|op| matches!(op, DeviceOp::DrawIndexedPrimitive { .. }))
        .collect();
    assert_eq!(draws, vec![draw(0, 4, 0, 2), draw(0, 4, 6, 4), draw(4, 10, 18, 1), draw(4, 10, 21, 3)]);
}

#[test]
fn vertex_base_moves_on_by_the_vertices_of_each_list() {
    let frame = frame(vec![
        list(7, vec![]),
        list(5, vec![elements(3, FONT_TEX_ID)]),
        list(0, vec![elements(3, FONT_TEX_ID)]),
        list(2, vec![elements(3, FONT_TEX_ID)]),
    ]);
    let mut ops = Vec::new();
    assert_eq!(draw_commands(&mut ops, &frame, &TextureRegistry::new()), Ok(()));
    let draws: Vec<DeviceOp> = ops
        .iter()
        .copied()
        .filter(|op| matches!(op, DeviceOp::DrawIndexedPrimitive { .. }))
        .collect();
    assert_eq!(draws, vec![draw(7, 5, 0, 1), draw(12, 0, 3, 1), draw(12, 2, 6, 1)]);
}

#[test]
fn triangles_are_a_third_of_the_elements_rounded_down() {
    let frame = frame(vec![list(
        1,
        vec![
            elements(0, FONT_TEX_ID),
            elements(1, FONT_TEX_ID),
            elements(2, FONT_TEX_ID),
            elements(3, FONT_TEX_ID),
            elements(299, FONT_TEX_ID),
        ],
    )]);
    let mut ops = Vec::new();
    assert_eq!(draw_commands(&mut ops, &frame, &TextureRegistry::new()), Ok(()));
    let draws: Vec<DeviceOp> = ops
        .iter()
        .copied()
        .filter(|op| matches!(op, DeviceOp::DrawIndexedPrimitive { .. }))
        .collect();
    assert_eq!(
        draws,
        vec![draw(0, 1, 0, 0), draw(0, 1, 0, 0), draw(0, 1, 1, 0), draw(0, 1, 3, 1), draw(0, 1, 6, 99)]
    );
}

#[test]
fn every_elements_command_binds_its_texture() {
    let mut registry = TextureRegistry::new();
    let first = registry.insert(500).unwrap();
    let second = registry.insert(600).unwrap();
    let frame = frame(vec![list(
        3,
        vec![elements(3, first), elements(3, first), elements(3, FONT_TEX_ID), elements(3, second)],
    )]);
    let mut ops = Vec::new();
    assert_eq!(draw_commands(&mut ops, &frame, &registry), Ok(()));
    let clip = rect(0.0, 0.0, 8.0, 8.0);
    assert_eq!(
        ops,
        vec![
            DeviceOp::SetTexture(TextureBinding::Registered(500)),
            scissor(clip),
            draw(0, 3, 0, 1),
            DeviceOp::SetTexture(TextureBinding::Registered(500)),
            scissor(clip),
            draw(0, 3, 3, 1),
            DeviceOp::SetTexture(TextureBinding::Font),
            scissor(clip),
            draw(0, 3, 6, 1),
            DeviceOp::SetTexture(TextureBinding::Registered(600)),
            scissor(clip),
            draw(0, 3, 9, 1),
        ]
    );
}

#[test]
fn unknown_texture_stops_the_drawing_and_keeps_what_was_drawn() {
    let mut registry = TextureRegistry::new();
    let known = registry.insert(500).unwrap();
    let frame = frame(vec![
        list(3, vec![elements(3, known), DrawCommand::RawCallback]),
        list(3, vec![elements(6, known), elements(3, 77), elements(3, known)]),
        list(3, vec![elements(3, known)]),
    ]);
    let mut ops = vec![DeviceOp::SetVertexFormat];
    assert_eq!(
        draw_commands(&mut ops, &frame, &registry),
        Err(RenderError::InvalidTextureReference)
    );
    let clip = rect(0.0, 0.0, 8.0, 8.0);
    assert_eq!(
        ops,
        vec![
            DeviceOp::SetVertexFormat,
            DeviceOp::SetTexture(TextureBinding::Registered(500)),
            scissor(clip),
            draw(0, 3, 0, 1),
            DeviceOp::InvokeCallback { list: 0, command: 1 },
            DeviceOp::SetTexture(TextureBinding::Registered(500)),
            scissor(clip),
            draw(3, 3, 3, 2),
        ]
    );
}

#[test]
fn unknown_texture_in_the_first_command_draws_nothing() {
    let frame = frame(vec![list(3, vec![elements(3, 0), elements(3, FONT_TEX_ID)])]);
    let mut ops = Vec::new();
    assert_eq!(
        draw_commands(&mut ops, &frame, &TextureRegistry::new()),
        Err(RenderError::InvalidTextureReference)
    );
    assert_eq!(ops, vec![]);
}

#[test]
fn removed_texture_is_unknown() {
    let mut registry = TextureRegistry::new();
    let id = registry.insert(500).unwrap();
    registry.remove(id);
    let frame = frame(vec![list(3, vec![elements(3, id)])]);
    let mut ops = Vec::new();
    assert_eq!(
        draw_commands(&mut ops, &frame, &registry),
        Err(RenderError::InvalidTextureReference)
    );
}

#[test]
fn reset_sets_the_fixed_render_state_again() {
    let frame = frame(vec![list(
        3,
        vec![elements(3, FONT_TEX_ID), DrawCommand::ResetRenderState, elements(3, FONT_TEX_ID)],
    )]);
    let mut ops = Vec::new();
    assert_eq!(draw_commands(&mut ops, &frame, &TextureRegistry::new()), Ok(()));
    let mut fixed = Vec::new();
    set_render_state(&mut fixed, &frame);
    let clip = rect(0.0, 0.0, 8.0, 8.0);
    let mut expected = vec![DeviceOp::SetTexture(TextureBinding::Font), scissor(clip), draw(0, 3, 0, 1)];
    expected.extend(fixed);
    expected.extend(vec![DeviceOp::SetTexture(TextureBinding::Font), scissor(clip), draw(0, 3, 3, 1)]);
    assert_eq!(ops, expected);
}

#[test]
fn callback_is_named_by_list_and_command_and_draws_nothing() {
    let frame = frame(vec![
        list(3, vec![]),
        list(3, vec![elements(3, FONT_TEX_ID), DrawCommand::RawCallback, DrawCommand::RawCallback]),
    ]);
    let mut ops = Vec::new();
    assert_eq!(draw_commands(&mut ops, &frame, &TextureRegistry::new()), Ok(()));
    assert_eq!(
        ops[3..],
        [
            DeviceOp::InvokeCallback { list: 1, command: 1 },
            DeviceOp::InvokeCallback { list: 1, command: 2 },
        ]
    );
    assert_eq!(ops.len(), 5);
}

#[test]
fn frame_without_commands_draws_nothing() {
    let mut ops = Vec::new();
    assert_eq!(draw_commands(&mut ops, &frame(vec![]), &TextureRegistry::new()), Ok(()));
    assert_eq!(ops, vec![]);
    assert_eq!(
        draw_commands(&mut ops, &frame(vec![list(3, vec![]), list(4, vec![])]), &TextureRegistry::new()),
        Ok(())
    );
    assert_eq!(ops, vec![]);
}
