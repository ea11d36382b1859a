//! From the draw commands of a frame to device operations.
//!
//! The commands of all draw lists are gone through in order. The vertices of
//! all lists lie one after the other in the vertex buffer, so a command
//! counts its vertices from where its list begins. The index base runs on
//! from command to command, over all lists, by the number of indices drawn.

use crate::device::{DeviceOp, TextureBinding};
use crate::draw_data::{
    element_count, elements_before, elements_in, lemma_elements_in_monotonic,
    lemma_elements_monotonic, lemma_vertices_monotonic, list_views, vertices_before, DrawCommand,
    FrameDrawData, FrameView, MAX_COUNT,
};
use crate::error::RenderError;
use crate::render_state::{
    fixed_render_states, fixed_state, fixed_texture_states, fixed_transforms, fixed_viewport,
    set_render_state,
};
use crate::textures::{TextureId, TextureRegistry, FONT_TEX_ID};
use vstd::prelude::*;

verus! {

/// How far the translation of a frame has come.
pub struct Translation {
    /// The operations so far.
    pub ops: Seq<DeviceOp>,
    /// The index at which the next command's indices begin.
    pub index_base: nat,
    /// A command named a texture that is not known. Nothing follows.
    pub failed: bool,
}

/// The texture that an id stands for: the font atlas for its own id, else
/// the registry's entry, and nothing where the registry has none.
pub open spec fn resolve(textures: Map<usize, usize>, id: TextureId) -> Option<TextureBinding> {
    if id == FONT_TEX_ID {
        Some(TextureBinding::Font)
    } else if textures.contains_key(id) {
        Some(TextureBinding::Registered(textures[id]))
    } else {
        None
    }
}

/// The operations of one command, where its texture is known: command
/// `command` of list `list`, with its indices beginning at `index_base`.
pub open spec fn command_ops(
    frame: FrameView,
    textures: Map<usize, usize>,
    list: int,
    command: int,
    index_base: nat,
) -> Option<Seq<DeviceOp>> {
    match frame.lists[list].commands[command] {
        DrawCommand::Elements { count, clip_rect, texture_id } => match resolve(
            textures,
            texture_id,
        ) {
            Some(binding) => Some(
                seq![
                    DeviceOp::SetTexture(binding),
                    DeviceOp::SetScissorRect {
                        clip_rect,
                        display_pos: frame.display_pos,
                        framebuffer_scale: frame.framebuffer_scale,
                    },
                    DeviceOp::DrawIndexedPrimitive {
                        base_vertex: vertices_before(frame.lists, list) as i32,
                        vertex_count: frame.lists[list].vertices.len() as u32,
                        start_index: index_base as u32,
                        primitive_count: (count / 3) as u32,
                    },
                ],
            ),
            None => None,
        },
        DrawCommand::ResetRenderState => Some(fixed_state(frame)),
        DrawCommand::RawCallback => Some(
            seq![DeviceOp::InvokeCallback { list: list as usize, command: command as usize }],
        ),
    }
}

/// The translation after one more command. After a failure nothing changes.
pub open spec fn step(
    so_far: Translation,
    frame: FrameView,
    textures: Map<usize, usize>,
    list: int,
    command: int,
) -> Translation {
    if so_far.failed {
        so_far
    } else {
        match command_ops(frame, textures, list, command, so_far.index_base) {
            Some(ops) => Translation {
                ops: so_far.ops + ops,
                index_base: so_far.index_base + element_count(
                    frame.lists[list].commands[command],
                ),
                failed: false,
            },
            None => Translation { ops: so_far.ops, index_base: so_far.index_base, failed: true },
        }
    }
}

/// The translation after the first `n` commands of list `list`, from where
/// the list began.
pub open spec fn list_translation(
    start: Translation,
    frame: FrameView,
    textures: Map<usize, usize>,
    list: int,
    n: int,
) -> Translation
    decreases n,
{
    if n <= 0 {
        start
    } else {
        step(list_translation(start, frame, textures, list, n - 1), frame, textures, list, n - 1)
    }
}

/// The translation after the first `n` lists.
pub open spec fn frame_translation(frame: FrameView, textures: Map<usize, usize>, n: int) -> Translation
    decreases n,
{
    if n <= 0 {
        Translation { ops: Seq::empty(), index_base: 0, failed: false }
    } else {
        list_translation(
            frame_translation(frame, textures, n - 1),
            frame,
            textures,
            n - 1,
            frame.lists[n - 1].commands.len() as int,
        )
    }
}

/// The translation of the whole frame.
pub open spec fn translation(frame: FrameView, textures: Map<usize, usize>) -> Translation {
    frame_translation(frame, textures, frame.lists.len() as int)
}

/// What drawing the frame's commands comes to.
pub open spec fn outcome(translation: Translation) -> Result<(), RenderError> {
    if translation.failed {
        Err(RenderError::InvalidTextureReference)
    } else {
        Ok(())
    }
}

/// Command `command` of list `list` draws with a texture that is not known.
pub open spec fn unknown_texture(
    frame: FrameView,
    textures: Map<usize, usize>,
    list: int,
    command: int,
) -> bool {
    frame.lists[list].commands[command] matches DrawCommand::Elements { texture_id, .. }
        && resolve(textures, texture_id) is None
}

/// One of the first `n` commands of list `list` draws with an unknown texture.
pub open spec fn list_has_unknown(
    frame: FrameView,
    textures: Map<usize, usize>,
    list: int,
    n: int,
) -> bool {
    exists|command: int| 0 <= command < n && #[trigger] unknown_texture(frame, textures, list, command)
}

/// A command of one of the first `n` lists draws with an unknown texture.
pub open spec fn frame_has_unknown(frame: FrameView, textures: Map<usize, usize>, n: int) -> bool {
    exists|list: int|
        0 <= list < n && #[trigger] list_has_unknown(
            frame,
            textures,
            list,
            frame.lists[list].commands.len() as int,
        )
}

/// After a failure the translation of a list stays as it is.
pub proof fn lemma_list_failure_stays(
    start: Translation,
    frame: FrameView,
    textures: Map<usize, usize>,
    list: int,
    n: int,
    m: int,
)
    requires
        0 <= n <= m,
        list_translation(start, frame, textures, list, n).failed,
    ensures
        list_translation(start, frame, textures, list, m) == list_translation(
            start,
            frame,
            textures,
            list,
            n,
        ),
    decreases m - n,
{
    if n < m {
        lemma_list_failure_stays(start, frame, textures, list, n, m - 1);
    }
}

/// After a failure the translation of a frame stays as it is.
pub proof fn lemma_frame_failure_stays(
    frame: FrameView,
    textures: Map<usize, usize>,
    n: int,
    m: int,
)
    requires
        0 <= n <= m,
        frame_translation(frame, textures, n).failed,
    ensures
        frame_translation(frame, textures, m) == frame_translation(frame, textures, n),
    decreases m - n,
{
    if n < m {
        lemma_frame_failure_stays(frame, textures, n, m - 1);
        lemma_list_failure_stays(
            frame_translation(frame, textures, m - 1),
            frame,
            textures,
            m - 1,
            0,
            frame.lists[m - 1].commands.len() as int,
        );
    }
}

/// The translation of a list fails where it had failed before or one of the
/// list's commands draws with an unknown texture, and only there.
pub proof fn lemma_list_fails_on_unknown(
    start: Translation,
    frame: FrameView,
    textures: Map<usize, usize>,
    list: int,
    n: int,
)
    requires
        0 <= n,
    ensures
        list_translation(start, frame, textures, list, n).failed <==> start.failed
            || list_has_unknown(frame, textures, list, n),
    decreases n,
{
    if n > 0 {
        lemma_list_fails_on_unknown(start, frame, textures, list, n - 1);
        if list_has_unknown(frame, textures, list, n) {
            let command = choose|command: int|
                0 <= command < n && #[trigger] unknown_texture(frame, textures, list, command);
            if command < n - 1 {
                assert(list_has_unknown(frame, textures, list, n - 1));
            }
        }
        if unknown_texture(frame, textures, list, n - 1) {
            assert(list_has_unknown(frame, textures, list, n));
        }
        if list_has_unknown(frame, textures, list, n - 1) {
            let command = choose|command: int|
                0 <= command < n - 1 && #[trigger] unknown_texture(
                    frame,
                    textures,
                    list,
                    command,
                );
            assert(unknown_texture(frame, textures, list, command));
            assert(list_has_unknown(frame, textures, list, n));
        }
    }
}

/// The translation of a frame fails where one of its commands draws with an
/// unknown texture, and only there.
pub proof fn lemma_frame_fails_on_unknown(frame: FrameView, textures: Map<usize, usize>, n: int)
    requires
        0 <= n,
    ensures
        frame_translation(frame, textures, n).failed <==> frame_has_unknown(frame, textures, n),
    decreases n,
{
    if n > 0 {
        lemma_frame_fails_on_unknown(frame, textures, n - 1);
        let len = frame.lists[n - 1].commands.len() as int;
        lemma_list_fails_on_unknown(
            frame_translation(frame, textures, n - 1),
            frame,
            textures,
            n - 1,
            len,
        );
        if frame_has_unknown(frame, textures, n) {
            let list = choose|list: int|
                0 <= list < n && #[trigger] list_has_unknown(
                    frame,
                    textures,
                    list,
                    frame.lists[list].commands.len() as int,
                );
            if list < n - 1 {
                assert(frame_has_unknown(frame, textures, n - 1));
            }
        }
        if list_has_unknown(frame, textures, n - 1, len) {
            assert(frame_has_unknown(frame, textures, n));
        }
        if frame_has_unknown(frame, textures, n - 1) {
            let list = choose|list: int|
                0 <= list < n - 1 && #[trigger] list_has_unknown(
                    frame,
                    textures,
                    list,
                    frame.lists[list].commands.len() as int,
                );
            assert(list_has_unknown(frame, textures, list, frame.lists[list].commands.len() as int));
            assert(frame_has_unknown(frame, textures, n));
        }
    }
}

/// A frame with a command that draws with a texture id that is neither the
/// font atlas id nor registered cannot be drawn: the outcome is an invalid
/// texture reference. Every other frame is drawn.
pub proof fn lemma_unknown_texture_is_refused(
    frame: FrameView,
    textures: Map<usize, usize>,
)
    ensures
        frame_has_unknown(frame, textures, frame.lists.len() as int) ==> outcome(
            translation(frame, textures),
        ) == Err::<(), RenderError>(RenderError::InvalidTextureReference),
        !frame_has_unknown(frame, textures, frame.lists.len() as int) ==> outcome(
            translation(frame, textures),
        ) == Ok::<(), RenderError>(()),
{
    lemma_frame_fails_on_unknown(frame, textures, frame.lists.len() as int);
}

/// A draw reaches no vertex beyond the `vertices` that are uploaded, and
/// no element beyond the `elements` that the frame's commands count.
pub open spec fn draws_within(op: DeviceOp, vertices: nat, elements: nat) -> bool {
    op matches DeviceOp::DrawIndexedPrimitive {
        base_vertex,
        vertex_count,
        start_index,
        primitive_count,
    } ==> 0 <= base_vertex && base_vertex + vertex_count <= vertices && start_index + 3
        * primitive_count <= elements
}

/// All draws among the operations stay within the vertices and elements.
pub open spec fn all_draw_within(ops: Seq<DeviceOp>, vertices: nat, elements: nat) -> bool {
    forall|i: int| 0 <= i < ops.len() ==> draws_within(#[trigger] ops[i], vertices, elements)
}

/// The draws of the first `n` commands of a list stay within the frame, and
/// the index base has come no further than the commands count.
pub proof fn lemma_list_draws_within(
    start: Translation,
    frame: FrameView,
    textures: Map<usize, usize>,
    list: int,
    n: int,
)
    requires
        frame.drawable(),
        0 <= list < frame.lists.len(),
        0 <= n <= frame.lists[list].commands.len(),
        all_draw_within(start.ops, frame.total_vtx_count(), frame.total_elements()),
        start.index_base <= elements_before(frame.lists, list),
    ensures
        all_draw_within(
            list_translation(start, frame, textures, list, n).ops,
            frame.total_vtx_count(),
            frame.total_elements(),
        ),
        list_translation(start, frame, textures, list, n).index_base <= elements_before(
            frame.lists,
            list,
        ) + elements_in(frame.lists[list].commands, n),
    decreases n,
{
    if n > 0 {
        lemma_list_draws_within(start, frame, textures, list, n - 1);
        let so_far = list_translation(start, frame, textures, list, n - 1);
        let commands = frame.lists[list].commands;
        lemma_elements_in_monotonic(commands, n, commands.len() as int);
        lemma_elements_monotonic(frame.lists, list + 1, frame.lists.len() as int);
        lemma_vertices_monotonic(frame.lists, list + 1, frame.lists.len() as int);
        if !so_far.failed {
            match command_ops(frame, textures, list, n - 1, so_far.index_base) {
                Some(ops) => {
                    let after = so_far.ops + ops;
                    assert forall|i: int| 0 <= i < after.len() implies draws_within(
                        #[trigger] after[i],
                        frame.total_vtx_count(),
                        frame.total_elements(),
                    ) by {
                        if i < so_far.ops.len() {
                            assert(after[i] == so_far.ops[i]);
                        } else {
                            assert(after[i] == ops[i - so_far.ops.len()]);
                            match commands[n - 1] {
                                DrawCommand::Elements { count, .. } => {
                                    assert(3 * (count / 3) <= count);
                                },
                                DrawCommand::ResetRenderState => {
                                    assert(!(fixed_state(frame)[i - so_far.ops.len()]
                                        is DrawIndexedPrimitive)) by {
                                        lemma_fixed_state_draws_nothing(frame);
                                    }
                                },
                                DrawCommand::RawCallback => {},
                            }
                        }
                    }
                },
                None => {},
            }
        }
    }
}

/// None of the operations of the fixed render state draws.
pub proof fn lemma_fixed_state_draws_nothing(frame: FrameView)
    ensures
        forall|i: int|
            0 <= i < fixed_state(frame).len() ==> !(#[trigger] fixed_state(frame)[i]
                is DrawIndexedPrimitive),
{
    assert(fixed_state(frame).len() == 25);
    assert forall|i: int| 0 <= i < 25 implies !(#[trigger] fixed_state(frame)[i]
        is DrawIndexedPrimitive) by {
        if i < 3 {
            assert(fixed_state(frame)[i] == fixed_viewport(frame)[i]);
        } else if i < 14 {
            assert(fixed_state(frame)[i] == fixed_render_states()[i - 3]);
        } else if i < 22 {
            assert(fixed_state(frame)[i] == fixed_texture_states()[i - 14]);
        } else {
            assert(fixed_state(frame)[i] == fixed_transforms(frame)[i - 22]);
        }
    }
}

/// The draws of the first `n` lists stay within the frame, and the index
/// base has come no further than the commands count.
pub proof fn lemma_frame_draws_within(frame: FrameView, textures: Map<usize, usize>, n: int)
    requires
        frame.drawable(),
        0 <= n <= frame.lists.len(),
    ensures
        all_draw_within(
            frame_translation(frame, textures, n).ops,
            frame.total_vtx_count(),
            frame.total_elements(),
        ),
        frame_translation(frame, textures, n).index_base <= elements_before(frame.lists, n),
    decreases n,
{
    if n > 0 {
        lemma_frame_draws_within(frame, textures, n - 1);
        lemma_list_draws_within(
            frame_translation(frame, textures, n - 1),
            frame,
            textures,
            n - 1,
            frame.lists[n - 1].commands.len() as int,
        );
    }
}

/// Every draw of a frame takes its vertices from among those that the
/// frame uploads, and counts no more elements than the frame's commands
/// do: the numbers fit the device's parameters as they are.
pub proof fn lemma_draws_stay_within_the_frame(frame: FrameView, textures: Map<usize, usize>)
    requires
        frame.drawable(),
    ensures
        all_draw_within(
            translation(frame, textures).ops,
            frame.total_vtx_count(),
            frame.total_elements(),
        ),
{
    lemma_frame_draws_within(frame, textures, frame.lists.len() as int);
}

/// Finds the texture that an id stands for.
pub fn resolve_texture(textures: &TextureRegistry, id: TextureId) -> (binding: Result<
    TextureBinding,
    RenderError,
>)
    ensures
        resolve(textures@, id) is Some ==> binding == Ok::<TextureBinding, RenderError>(
            resolve(textures@, id)->0,
        ),
        resolve(textures@, id) is None ==> binding == Err::<TextureBinding, RenderError>(
            RenderError::InvalidTextureReference,
        ),
{
    if id == FONT_TEX_ID {
        Ok(TextureBinding::Font)
    } else {
        match textures.bind(id) {
            Ok(handle) => Ok(TextureBinding::Registered(handle)),
            Err(error) => Err(error),
        }
    }
}

/// Appends the operations that draw the frame's commands, in order, up to
/// the first command whose texture is not known. That command is an invalid
/// texture reference, and nothing of it or after it is appended.
pub fn draw_commands(
    ops: &mut Vec<DeviceOp>,
    frame: &FrameDrawData,
    textures: &TextureRegistry,
) -> (result: Result<(), RenderError>)
    ensures
        final(ops)@ == old(ops)@ + translation(frame@, textures@).ops,
        result == outcome(translation(frame@, textures@)),
{
    let ghost before = ops@;
    let ghost fv = frame@;
    let ghost tv = textures@;
    let lists = frame.draw_lists();
    let mut vertex_base: usize = 0;
    let mut index_base: usize = 0;
    let mut l: usize = 0;
    while l < lists.len()
        invariant
            l <= lists.len(),
            before == old(ops)@,
            fv == frame@,
            tv == textures@,
            fv.drawable(),
            list_views(lists@) == fv.lists,
            vertex_base == vertices_before(fv.lists, l as int),
            index_base == elements_before(fv.lists, l as int),
            index_base == frame_translation(fv, tv, l as int).index_base,
            !frame_translation(fv, tv, l as int).failed,
            ops@ == before + frame_translation(fv, tv, l as int).ops,
        decreases lists.len() - l,
    {
        let list = &lists[l];
        let ghost start = frame_translation(fv, tv, l as int);
        assert(fv.lists[l as int] == list@);
        proof {
            lemma_vertices_monotonic(fv.lists, l + 1, fv.lists.len() as int);
            lemma_elements_monotonic(fv.lists, l + 1, fv.lists.len() as int);
        }
        let mut c: usize = 0;
        while c < list.commands.len()
            invariant
                c <= list.commands.len(),
                l < lists.len(),
                before == old(ops)@,
                fv == frame@,
                tv == textures@,
                list_views(lists@) == fv.lists,
                fv.lists[l as int] == list@,
                start == frame_translation(fv, tv, l as int),
                vertex_base == vertices_before(fv.lists, l as int),
                vertex_base + list.vertices.len() <= MAX_COUNT,
                elements_before(fv.lists, l as int) + elements_in(
                    list.commands@,
                    list.commands@.len() as int,
                ) <= MAX_COUNT,
                index_base == elements_before(fv.lists, l as int) + elements_in(
                    list.commands@,
                    c as int,
                ),
                index_base == list_translation(start, fv, tv, l as int, c as int).index_base,
                !list_translation(start, fv, tv, l as int, c as int).failed,
                ops@ == before + list_translation(start, fv, tv, l as int, c as int).ops,
            decreases list.commands.len() - c,
        {
            let ghost so_far = list_translation(start, fv, tv, l as int, c as int);
            proof {
                lemma_elements_in_monotonic(list.commands@, c + 1, list.commands@.len() as int);
            }
            match list.commands[c] {
                DrawCommand::Elements { count, clip_rect, texture_id } => {
                    let binding = match resolve_texture(textures, texture_id) {
                        Ok(binding) => binding,
                        Err(error) => {
                            proof {
                                let failed = list_translation(start, fv, tv, l as int, c + 1);
                                assert(failed.failed && failed.ops == so_far.ops);
                                lemma_list_failure_stays(
                                    start,
                                    fv,
                                    tv,
                                    l as int,
                                    c + 1,
                                    list.commands@.len() as int,
                                );
                                assert(frame_translation(fv, tv, l + 1) == failed);
                                lemma_frame_failure_stays(
                                    fv,
                                    tv,
                                    l + 1,
                                    fv.lists.len() as int,
                                );
                                assert(translation(fv, tv) == failed);
                                assert(ops@ == before + failed.ops);
                            }
                            return Err(error);
                        },
                    };
                    ops.push(DeviceOp::SetTexture(binding));
                    ops.push(
                        DeviceOp::SetScissorRect {
                            clip_rect,
                            display_pos: frame.display_pos(),
                            framebuffer_scale: frame.framebuffer_scale(),
                        },
                    );
                    ops.push(
                        DeviceOp::DrawIndexedPrimitive {
                            base_vertex: vertex_base as i32,
                            vertex_count: list.vertices.len() as u32,
                            start_index: index_base as u32,
                            primitive_count: (count / 3) as u32,
                        },
                    );
                    assert(ops@ == before + so_far.ops + command_ops(
                        fv,
                        tv,
                        l as int,
                        c as int,
                        so_far.index_base,
                    )->0);
                    index_base = index_base + count;
                },
                DrawCommand::ResetRenderState => {
                    set_render_state(ops, frame);
                },
                DrawCommand::RawCallback => {
                    ops.push(DeviceOp::InvokeCallback { list: l, command: c });
                    assert(ops@ == before + so_far.ops + command_ops(
                        fv,
                        tv,
                        l as int,
                        c as int,
                        so_far.index_base,
                    )->0);
                },
            }
            c = c + 1;
            assert(ops@ == before + list_translation(start, fv, tv, l as int, c as int).ops);
        }
        vertex_base = vertex_base + list.vertices.len();
        l = l + 1;
    }
    Ok(())
}

} // verus!
