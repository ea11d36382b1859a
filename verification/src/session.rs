//! A frame from its first step to its last.
//!
//! The renderer decides step by step. Here the steps are put together: a
//! run is what happens when the host does what each step says and the
//! device answers its calls one way or the other. What is proved of runs
//! holds for every frame, every renderer and every way the device answers.

use crate::buffer::capacity_of;
use crate::device::{DeviceCall, DeviceOp};
use crate::device_model::{
    after_call, after_ops, drawing, lemma_after_no_ops, lemma_after_ops_concat,
    lemma_after_ops_push, lemma_fixed_state_is_plain, lemma_frame_translation_is_plain,
    lemma_plain_concat, lemma_plain_ops_keep_drawing, Device,
};
use crate::draw_data::FrameView;
use crate::error::RenderError;
use crate::render_state::fixed_state;
use crate::renderer::{
    frame_ops, spec_render, spec_resume, spec_resume_state, upload_ops, RendererView, Stage,
    StepView,
};
use crate::status::succeeded;
use crate::translate::{
    frame_has_unknown, lemma_unknown_texture_is_refused, outcome, translation,
};
use vstd::prelude::*;

verus! {

/// How a frame has ended.
pub struct Ended<S> {
    /// The renderer after the frame.
    pub renderer: RendererView,
    /// The device after the frame.
    pub device: Device<S>,
    /// The device calls that were made, in order.
    pub calls: Seq<DeviceCall>,
    /// The frame's result.
    pub result: Result<(), RenderError>,
}

/// A frame from one of its steps on, where the host does what each step
/// says and the device answers its calls with `statuses`, in order. `None`
/// where the statuses run out before the frame has ended.
pub open spec fn run_from<S>(
    renderer: RendererView,
    step: StepView,
    frame: FrameView,
    statuses: Seq<i32>,
    device: Device<S>,
    calls: Seq<DeviceCall>,
    effect: spec_fn(S, DeviceOp) -> S,
) -> Option<Ended<S>>
    decreases statuses.len(),
{
    match step {
        StepView::Finished(ops, result) => Some(
            Ended { renderer, device: after_ops(device, ops, frame, effect), calls, result },
        ),
        StepView::Call(call, stage) => if statuses.len() == 0 {
            None
        } else {
            run_from(
                spec_resume_state(renderer, stage, statuses[0]),
                spec_resume(renderer, stage, frame, statuses[0]),
                frame,
                statuses.drop_first(),
                after_call(device, call, statuses[0]),
                calls.push(call),
                effect,
            )
        },
    }
}

/// A whole frame.
pub open spec fn run<S>(
    renderer: RendererView,
    frame: FrameView,
    statuses: Seq<i32>,
    device: Device<S>,
    effect: spec_fn(S, DeviceOp) -> S,
) -> Option<Ended<S>> {
    run_from(renderer, spec_render(renderer, frame), frame, statuses, device, Seq::empty(), effect)
}

/// The renderer knows the device's buffers: what it takes their capacities
/// to be is what they are.
pub open spec fn agrees<S>(renderer: RendererView, device: Device<S>) -> bool {
    &&& device.vertex_buffer == renderer.vertex_capacity
    &&& device.index_buffer == renderer.index_capacity
}

/// The vertex buffer is held and takes what the frame needs.
pub open spec fn vertices_fit(renderer: RendererView, frame: FrameView) -> bool {
    &&& renderer.vertex_capacity is Some
    &&& capacity_of(renderer.vertex_capacity) >= frame.total_vtx_count()
}

/// The index buffer is held and takes what the frame needs.
pub open spec fn indices_fit(renderer: RendererView, frame: FrameView) -> bool {
    &&& renderer.index_capacity is Some
    &&& capacity_of(renderer.index_capacity) >= frame.total_idx_count()
}

/// Both buffers are held and take what the frame needs.
pub open spec fn buffers_suffice(renderer: RendererView, frame: FrameView) -> bool {
    vertices_fit(renderer, frame) && indices_fit(renderer, frame)
}

/// Operations create no buffer and release none.
pub proof fn lemma_ops_keep_buffers<S>(
    device: Device<S>,
    ops: Seq<DeviceOp>,
    frame: FrameView,
    effect: spec_fn(S, DeviceOp) -> S,
)
    ensures
        after_ops(device, ops, frame, effect).vertex_buffer == device.vertex_buffer,
        after_ops(device, ops, frame, effect).index_buffer == device.index_buffer,
    decreases ops.len(),
{
    if ops.len() > 0 {
        lemma_ops_keep_buffers(device, ops.drop_last(), frame, effect);
    }
}

/// Writing the geometry into buffers that are locked for as much as the
/// frame holds, and releasing them, leaves both buffers unlocked, and the
/// state block and the device's soundness as they were.
pub proof fn lemma_upload_ops_unlock<S>(
    device: Device<S>,
    frame: FrameView,
    effect: spec_fn(S, DeviceOp) -> S,
)
    requires
        device.snapshot is Some,
        device.vertex_locked,
        device.index_locked,
        frame.total_vtx_count() <= device.vertex_mapped,
        frame.total_idx_count() <= device.index_mapped,
        device.sound,
    ensures
        after_ops(device, upload_ops(), frame, effect).snapshot == device.snapshot,
        after_ops(device, upload_ops(), frame, effect).font_locked == device.font_locked,
        !after_ops(device, upload_ops(), frame, effect).vertex_locked,
        !after_ops(device, upload_ops(), frame, effect).index_locked,
        after_ops(device, upload_ops(), frame, effect).sound,
{
    let s0 = Seq::<DeviceOp>::empty();
    let s1 = s0.push(DeviceOp::UploadVertices);
    let s2 = s1.push(DeviceOp::UploadIndices);
    let s3 = s2.push(DeviceOp::UnlockVertexBuffer);
    let s4 = s3.push(DeviceOp::UnlockIndexBuffer);
    let s5 = s4.push(DeviceOp::SetStreamSource);
    let s6 = s5.push(DeviceOp::SetIndices);
    let s7 = s6.push(DeviceOp::SetVertexFormat);
    lemma_after_ops_push(device, s0, DeviceOp::UploadVertices, frame, effect);
    lemma_after_ops_push(device, s1, DeviceOp::UploadIndices, frame, effect);
    lemma_after_ops_push(device, s2, DeviceOp::UnlockVertexBuffer, frame, effect);
    lemma_after_ops_push(device, s3, DeviceOp::UnlockIndexBuffer, frame, effect);
    lemma_after_ops_push(device, s4, DeviceOp::SetStreamSource, frame, effect);
    lemma_after_ops_push(device, s5, DeviceOp::SetIndices, frame, effect);
    lemma_after_ops_push(device, s6, DeviceOp::SetVertexFormat, frame, effect);
    assert(s7 == upload_ops());
}

/// The operations of a frame, done on a device that has captured its state
/// and has both buffers locked for as much as the frame holds, leave the
/// device quiet and in the captured state.
pub proof fn lemma_frame_ops_restore<S>(
    device: Device<S>,
    origin: S,
    frame: FrameView,
    textures: Map<usize, usize>,
    effect: spec_fn(S, DeviceOp) -> S,
)
    requires
        device.snapshot == Some(origin),
        device.vertex_locked,
        device.index_locked,
        frame.total_vtx_count() <= device.vertex_mapped,
        frame.total_idx_count() <= device.index_mapped,
        !device.font_locked,
        device.sound,
    ensures
        after_ops(device, frame_ops(frame, textures), frame, effect).quiet(),
        after_ops(device, frame_ops(frame, textures), frame, effect).state == origin,
{
    let uploaded = after_ops(device, upload_ops(), frame, effect);
    lemma_upload_ops_unlock(device, frame, effect);
    let drawn_ops = fixed_state(frame) + translation(frame, textures).ops;
    lemma_fixed_state_is_plain(frame);
    lemma_frame_translation_is_plain(frame, textures, frame.lists.len() as int);
    lemma_plain_concat(fixed_state(frame), translation(frame, textures).ops);
    lemma_plain_ops_keep_drawing(uploaded, origin, drawn_ops, frame, effect);
    let drawn = after_ops(uploaded, drawn_ops, frame, effect);
    let last = seq![DeviceOp::RestoreState];
    assert(frame_ops(frame, textures) == upload_ops() + drawn_ops + last);
    lemma_after_ops_concat(device, upload_ops() + drawn_ops, last, frame, effect);
    lemma_after_ops_concat(device, upload_ops(), drawn_ops, frame, effect);
    lemma_after_ops_push(drawn, Seq::empty(), DeviceOp::RestoreState, frame, effect);
    assert(last == Seq::<DeviceOp>::empty().push(DeviceOp::RestoreState));
}

/// The device is where a step of a frame finds it, if the frame began on
/// a quiet device in the state `origin` whose buffers the renderer knew.
///
/// The renderer knows the buffers. Before the state is captured the device
/// is quiet; from then on the state `origin` is captured and what the
/// stage says is locked. A call is the one that its stage waits for; a
/// buffer that is asked for takes what the frame needs, and the buffers
/// before it do so already. The operations of a last step leave the device
/// quiet and in the state `origin`.
pub open spec fn in_step<S>(
    step: StepView,
    renderer: RendererView,
    frame: FrameView,
    device: Device<S>,
    origin: S,
    effect: spec_fn(S, DeviceOp) -> S,
) -> bool {
    &&& agrees(renderer, device)
    &&& match step {
        StepView::Finished(ops, _) => {
            &&& after_ops(device, ops, frame, effect).quiet()
            &&& after_ops(device, ops, frame, effect).state == origin
        },
        StepView::Call(call, stage) => match stage {
            Stage::CreatingVertexBuffer { len } => {
                &&& call == DeviceCall::CreateVertexBuffer { len }
                &&& len >= frame.total_vtx_count()
                &&& device.quiet()
                &&& device.state == origin
            },
            Stage::CreatingIndexBuffer { len } => {
                &&& call == DeviceCall::CreateIndexBuffer { len }
                &&& len >= frame.total_idx_count()
                &&& vertices_fit(renderer, frame)
                &&& device.quiet()
                &&& device.state == origin
            },
            Stage::CapturingState => {
                &&& call == DeviceCall::CaptureState
                &&& buffers_suffice(renderer, frame)
                &&& device.quiet()
                &&& device.state == origin
            },
            Stage::LockingVertexBuffer => {
                &&& call == DeviceCall::LockVertexBuffer {
                    count: frame.total_vtx_count() as usize,
                }
                &&& buffers_suffice(renderer, frame)
                &&& drawing(device, origin)
                &&& device.state == origin
            },
            Stage::LockingIndexBuffer => {
                &&& call == DeviceCall::LockIndexBuffer { count: frame.total_idx_count() as usize }
                &&& buffers_suffice(renderer, frame)
                &&& device.snapshot == Some(origin)
                &&& device.state == origin
                &&& device.vertex_locked
                &&& device.vertex_mapped == frame.total_vtx_count()
                &&& !device.index_locked
                &&& !device.font_locked
                &&& device.sound
            },
        },
    }
}

/// The first step of a frame finds the device as the frame does.
pub proof fn lemma_render_is_in_step<S>(
    renderer: RendererView,
    frame: FrameView,
    device: Device<S>,
    effect: spec_fn(S, DeviceOp) -> S,
)
    requires
        frame.drawable(),
        device.quiet(),
        agrees(renderer, device),
    ensures
        in_step(spec_render(renderer, frame), renderer, frame, device, device.state, effect),
{
    lemma_after_no_ops(device, frame, effect);
}

/// Resuming keeps the device where the steps find it.
pub proof fn lemma_resume_keeps_in_step<S>(
    renderer: RendererView,
    call: DeviceCall,
    stage: Stage,
    frame: FrameView,
    status: i32,
    device: Device<S>,
    origin: S,
    effect: spec_fn(S, DeviceOp) -> S,
)
    requires
        frame.drawable(),
        in_step(StepView::Call(call, stage), renderer, frame, device, origin, effect),
    ensures
        in_step(
            spec_resume(renderer, stage, frame, status),
            spec_resume_state(renderer, stage, status),
            frame,
            after_call(device, call, status),
            origin,
            effect,
        ),
{
    let after = after_call(device, call, status);
    if succeeded(status) {
        if stage is LockingIndexBuffer {
            lemma_frame_ops_restore(after, origin, frame, renderer.textures, effect);
        }
    } else {
        let none = Seq::<DeviceOp>::empty();
        match stage {
            Stage::LockingVertexBuffer => {
                lemma_after_ops_push(after, none, DeviceOp::RestoreState, frame, effect);
                assert(seq![DeviceOp::RestoreState] == none.push(DeviceOp::RestoreState));
            },
            Stage::LockingIndexBuffer => {
                let unlock = none.push(DeviceOp::UnlockVertexBuffer);
                lemma_after_ops_push(after, none, DeviceOp::UnlockVertexBuffer, frame, effect);
                lemma_after_ops_push(after, unlock, DeviceOp::RestoreState, frame, effect);
                assert(seq![DeviceOp::UnlockVertexBuffer, DeviceOp::RestoreState] == unlock.push(
                    DeviceOp::RestoreState,
                ));
            },
            _ => {
                lemma_after_no_ops(after, frame, effect);
            },
        }
    }
}

/// A frame that has ended from a step that found the device where the
/// steps find it has left the device quiet and in the state `origin`, and
/// the renderer knows the buffers.
pub proof fn lemma_run_from_restores<S>(
    renderer: RendererView,
    step: StepView,
    frame: FrameView,
    statuses: Seq<i32>,
    device: Device<S>,
    calls: Seq<DeviceCall>,
    origin: S,
    effect: spec_fn(S, DeviceOp) -> S,
)
    requires
        frame.drawable(),
        in_step(step, renderer, frame, device, origin, effect),
        run_from(renderer, step, frame, statuses, device, calls, effect) is Some,
    ensures
        run_from(renderer, step, frame, statuses, device, calls, effect)->0.device.quiet(),
        run_from(renderer, step, frame, statuses, device, calls, effect)->0.device.state
            == origin,
        agrees(
            run_from(renderer, step, frame, statuses, device, calls, effect)->0.renderer,
            run_from(renderer, step, frame, statuses, device, calls, effect)->0.device,
        ),
    decreases statuses.len(),
{
    match step {
        StepView::Finished(ops, result) => {
            lemma_ops_keep_buffers(device, ops, frame, effect);
        },
        StepView::Call(call, stage) => {
            lemma_resume_keeps_in_step(
                renderer,
                call,
                stage,
                frame,
                statuses[0],
                device,
                origin,
                effect,
            );
            lemma_run_from_restores(
                spec_resume_state(renderer, stage, statuses[0]),
                spec_resume(renderer, stage, frame, statuses[0]),
                frame,
                statuses.drop_first(),
                after_call(device, call, statuses[0]),
                calls.push(call),
                origin,
                effect,
            );
        },
    }
}

/// Whatever the device answers and whatever it makes of the operations: a
/// frame that has ended, with success or with an error, has left nothing
/// locked and no state block behind, and has left the render state as it
/// found it. It has locked no buffer beyond its capacity, has written into
/// none beyond what was locked, has drawn from no locked buffer, and has
/// changed no render state without a state block to restore it from. And
/// the renderer still knows the device's buffers.
pub proof fn lemma_frame_leaves_device_as_found<S>(
    renderer: RendererView,
    frame: FrameView,
    statuses: Seq<i32>,
    device: Device<S>,
    effect: spec_fn(S, DeviceOp) -> S,
)
    requires
        frame.drawable(),
        device.quiet(),
        agrees(renderer, device),
        run(renderer, frame, statuses, device, effect) is Some,
    ensures
        run(renderer, frame, statuses, device, effect)->0.device.quiet(),
        run(renderer, frame, statuses, device, effect)->0.device.state == device.state,
        agrees(
            run(renderer, frame, statuses, device, effect)->0.renderer,
            run(renderer, frame, statuses, device, effect)->0.device,
        ),
{
    lemma_render_is_in_step(renderer, frame, device, effect);
    lemma_run_from_restores(
        renderer,
        spec_render(renderer, frame),
        frame,
        statuses,
        device,
        Seq::empty(),
        device.state,
        effect,
    );
}

/// A frame whose display has a dimension below zero is over at once: no
/// device call is made, no operation is done, the renderer and the device
/// stay as they are, and the frame has succeeded.
pub proof fn lemma_collapsed_frame_is_skipped<S>(
    renderer: RendererView,
    frame: FrameView,
    statuses: Seq<i32>,
    device: Device<S>,
    effect: spec_fn(S, DeviceOp) -> S,
)
    requires
        frame.collapsed(),
    ensures
        spec_render(renderer, frame) == StepView::Finished(Seq::empty(), Ok(())),
        run(renderer, frame, statuses, device, effect) == Some(
            Ended { renderer, device, calls: Seq::empty(), result: Ok(()) },
        ),
{
    lemma_after_no_ops(device, frame, effect);
}

/// A buffer that a step asks for is at least as large as the one held.
pub open spec fn grows(step: StepView, renderer: RendererView) -> bool {
    match step {
        StepView::Call(_, Stage::CreatingVertexBuffer { len }) => len >= capacity_of(
            renderer.vertex_capacity,
        ),
        StepView::Call(_, Stage::CreatingIndexBuffer { len }) => len >= capacity_of(
            renderer.index_capacity,
        ),
        _ => true,
    }
}

/// From a step that asks for no smaller buffer than the one held, a frame
/// ends with buffers that are no smaller than before, and with the texture
/// registry as it was.
pub proof fn lemma_run_from_never_shrinks<S>(
    renderer: RendererView,
    step: StepView,
    frame: FrameView,
    statuses: Seq<i32>,
    device: Device<S>,
    calls: Seq<DeviceCall>,
    effect: spec_fn(S, DeviceOp) -> S,
)
    requires
        frame.drawable(),
        grows(step, renderer),
        run_from(renderer, step, frame, statuses, device, calls, effect) is Some,
    ensures
        ({
            let ended = run_from(renderer, step, frame, statuses, device, calls, effect)->0;
            &&& capacity_of(ended.renderer.vertex_capacity) >= capacity_of(
                renderer.vertex_capacity,
            )
            &&& capacity_of(ended.renderer.index_capacity) >= capacity_of(renderer.index_capacity)
            &&& ended.renderer.textures == renderer.textures
        }),
    decreases statuses.len(),
{
    match step {
        StepView::Finished(ops, result) => {},
        StepView::Call(call, stage) => {
            lemma_run_from_never_shrinks(
                spec_resume_state(renderer, stage, statuses[0]),
                spec_resume(renderer, stage, frame, statuses[0]),
                frame,
                statuses.drop_first(),
                after_call(device, call, statuses[0]),
                calls.push(call),
                effect,
            );
        },
    }
}

/// The capacity of the buffers never shrinks: after a frame, however it
/// has ended, each buffer takes at least what it took before.
pub proof fn lemma_capacity_never_shrinks<S>(
    renderer: RendererView,
    frame: FrameView,
    statuses: Seq<i32>,
    device: Device<S>,
    effect: spec_fn(S, DeviceOp) -> S,
)
    requires
        frame.drawable(),
        run(renderer, frame, statuses, device, effect) is Some,
    ensures
        capacity_of(run(renderer, frame, statuses, device, effect)->0.renderer.vertex_capacity)
            >= capacity_of(renderer.vertex_capacity),
        capacity_of(run(renderer, frame, statuses, device, effect)->0.renderer.index_capacity)
            >= capacity_of(renderer.index_capacity),
        run(renderer, frame, statuses, device, effect)->0.renderer.textures == renderer.textures,
{
    lemma_run_from_never_shrinks(
        renderer,
        spec_render(renderer, frame),
        frame,
        statuses,
        device,
        Seq::empty(),
        effect,
    );
}

/// None of the calls creates a buffer.
pub open spec fn no_buffer_created(calls: Seq<DeviceCall>) -> bool {
    forall|i: int|
        0 <= i < calls.len() ==> !(#[trigger] calls[i] is CreateVertexBuffer) && !(calls[i]
            is CreateIndexBuffer)
}

/// From a step that is past the buffers, no buffer is created any more and
/// the renderer stays as it is.
pub proof fn lemma_run_from_keeps_buffers<S>(
    renderer: RendererView,
    step: StepView,
    frame: FrameView,
    statuses: Seq<i32>,
    device: Device<S>,
    calls: Seq<DeviceCall>,
    effect: spec_fn(S, DeviceOp) -> S,
)
    requires
        no_buffer_created(calls),
        step matches StepView::Call(call, stage) ==> !(call is CreateVertexBuffer) && !(call
            is CreateIndexBuffer) && !(stage is CreatingVertexBuffer) && !(stage
            is CreatingIndexBuffer),
        run_from(renderer, step, frame, statuses, device, calls, effect) is Some,
    ensures
        no_buffer_created(
            run_from(renderer, step, frame, statuses, device, calls, effect)->0.calls,
        ),
        run_from(renderer, step, frame, statuses, device, calls, effect)->0.renderer == renderer,
    decreases statuses.len(),
{
    match step {
        StepView::Finished(ops, result) => {},
        StepView::Call(call, stage) => {
            lemma_run_from_keeps_buffers(
                spec_resume_state(renderer, stage, statuses[0]),
                spec_resume(renderer, stage, frame, statuses[0]),
                frame,
                statuses.drop_first(),
                after_call(device, call, statuses[0]),
                calls.push(call),
                effect,
            );
        },
    }
}

/// Buffers that take what a frame needs are kept: the frame creates no
/// buffer, and leaves the renderer as it is.
pub proof fn lemma_sufficient_buffers_are_kept<S>(
    renderer: RendererView,
    frame: FrameView,
    statuses: Seq<i32>,
    device: Device<S>,
    effect: spec_fn(S, DeviceOp) -> S,
)
    requires
        buffers_suffice(renderer, frame),
        run(renderer, frame, statuses, device, effect) is Some,
    ensures
        no_buffer_created(run(renderer, frame, statuses, device, effect)->0.calls),
        run(renderer, frame, statuses, device, effect)->0.renderer == renderer,
{
    lemma_run_from_keeps_buffers(
        renderer,
        spec_render(renderer, frame),
        frame,
        statuses,
        device,
        Seq::empty(),
        effect,
    );
}

/// The buffers take what the frame needs from the step on that the frame
/// has reached, if that step is past the buffer in question.
pub open spec fn fitted(step: StepView, renderer: RendererView, frame: FrameView) -> bool {
    match step {
        StepView::Finished(_, result) => result is Ok ==> buffers_suffice(renderer, frame),
        StepView::Call(_, stage) => match stage {
            Stage::CreatingVertexBuffer { .. } => true,
            Stage::CreatingIndexBuffer { len } => {
                &&& renderer.vertex_capacity is Some
                &&& capacity_of(renderer.vertex_capacity) >= frame.total_vtx_count()
                &&& len >= frame.total_idx_count()
            },
            _ => buffers_suffice(renderer, frame),
        },
    }
}

/// From a step at which the buffers are as large as the step says, a frame
/// that succeeds ends with buffers that take what it needs.
pub proof fn lemma_run_from_fits<S>(
    renderer: RendererView,
    step: StepView,
    frame: FrameView,
    statuses: Seq<i32>,
    device: Device<S>,
    calls: Seq<DeviceCall>,
    effect: spec_fn(S, DeviceOp) -> S,
)
    requires
        frame.drawable(),
        fitted(step, renderer, frame),
        step matches StepView::Call(_, Stage::CreatingVertexBuffer { len }) ==> len
            >= frame.total_vtx_count(),
        run_from(renderer, step, frame, statuses, device, calls, effect) is Some,
        run_from(renderer, step, frame, statuses, device, calls, effect)->0.result is Ok,
    ensures
        buffers_suffice(
            run_from(renderer, step, frame, statuses, device, calls, effect)->0.renderer,
            frame,
        ),
    decreases statuses.len(),
{
    match step {
        StepView::Finished(ops, result) => {},
        StepView::Call(call, stage) => {
            lemma_run_from_fits(
                spec_resume_state(renderer, stage, statuses[0]),
                spec_resume(renderer, stage, frame, statuses[0]),
                frame,
                statuses.drop_first(),
                after_call(device, call, statuses[0]),
                calls.push(call),
                effect,
            );
        },
    }
}

/// After a frame that was drawn, both buffers take what the frame needed.
/// With the law before, a later frame that needs no more creates no buffer.
pub proof fn lemma_drawn_frame_fits<S>(
    renderer: RendererView,
    frame: FrameView,
    statuses: Seq<i32>,
    device: Device<S>,
    effect: spec_fn(S, DeviceOp) -> S,
)
    requires
        frame.drawable(),
        !frame.collapsed(),
        run(renderer, frame, statuses, device, effect) is Some,
        run(renderer, frame, statuses, device, effect)->0.result is Ok,
    ensures
        buffers_suffice(run(renderer, frame, statuses, device, effect)->0.renderer, frame),
{
    lemma_run_from_fits(
        renderer,
        spec_render(renderer, frame),
        frame,
        statuses,
        device,
        Seq::empty(),
        effect,
    );
}

/// How many device calls a frame still makes from a step on, at most.
pub open spec fn calls_left(step: StepView) -> nat {
    match step {
        StepView::Finished(_, _) => 0,
        StepView::Call(_, stage) => match stage {
            Stage::CreatingVertexBuffer { .. } => 5,
            Stage::CreatingIndexBuffer { .. } => 4,
            Stage::CapturingState => 3,
            Stage::LockingVertexBuffer => 2,
            Stage::LockingIndexBuffer => 1,
        },
    }
}

/// Every status is that of success.
pub open spec fn all_succeed(statuses: Seq<i32>) -> bool {
    forall|i: int| 0 <= i < statuses.len() ==> succeeded(#[trigger] statuses[i])
}

/// From any step, a frame whose device calls all succeed ends, and ends as
/// its draw commands do; a last step is taken as it is.
pub proof fn lemma_run_from_succeeds<S>(
    renderer: RendererView,
    step: StepView,
    frame: FrameView,
    statuses: Seq<i32>,
    device: Device<S>,
    calls: Seq<DeviceCall>,
    effect: spec_fn(S, DeviceOp) -> S,
)
    requires
        all_succeed(statuses),
        statuses.len() >= calls_left(step),
        step matches StepView::Finished(_, result) ==> result == outcome(
            translation(frame, renderer.textures),
        ),
    ensures
        run_from(renderer, step, frame, statuses, device, calls, effect) is Some,
        run_from(renderer, step, frame, statuses, device, calls, effect)->0.result == outcome(
            translation(frame, renderer.textures),
        ),
    decreases statuses.len(),
{
    match step {
        StepView::Finished(ops, result) => {},
        StepView::Call(call, stage) => {
            assert(succeeded(statuses[0]));
            assert(all_succeed(statuses.drop_first())) by {
                assert forall|i: int| 0 <= i < statuses.drop_first().len() implies succeeded(
                    #[trigger] statuses.drop_first()[i],
                ) by {
                    assert(statuses.drop_first()[i] == statuses[i + 1]);
                }
            }
            lemma_run_from_succeeds(
                spec_resume_state(renderer, stage, statuses[0]),
                spec_resume(renderer, stage, frame, statuses[0]),
                frame,
                statuses.drop_first(),
                after_call(device, call, statuses[0]),
                calls.push(call),
                effect,
            );
        },
    }
}

/// On a device whose calls all succeed, a frame with a display of no
/// dimension below zero ends after five calls at most, and it succeeds
/// unless one of its draw commands draws with a texture id that is neither
/// the font atlas id nor registered: then, and only then, it ends as an
/// invalid texture reference.
pub proof fn lemma_frame_ends_as_its_commands<S>(
    renderer: RendererView,
    frame: FrameView,
    statuses: Seq<i32>,
    device: Device<S>,
    effect: spec_fn(S, DeviceOp) -> S,
)
    requires
        !frame.collapsed(),
        all_succeed(statuses),
        statuses.len() >= 5,
    ensures
        run(renderer, frame, statuses, device, effect) is Some,
        frame_has_unknown(frame, renderer.textures, frame.lists.len() as int) ==> run(
            renderer,
            frame,
            statuses,
            device,
            effect,
        )->0.result == Err::<(), RenderError>(RenderError::InvalidTextureReference),
        !frame_has_unknown(frame, renderer.textures, frame.lists.len() as int) ==> run(
            renderer,
            frame,
            statuses,
            device,
            effect,
        )->0.result == Ok::<(), RenderError>(()),
{
    lemma_run_from_succeeds(
        renderer,
        spec_render(renderer, frame),
        frame,
        statuses,
        device,
        Seq::empty(),
        effect,
    );
    lemma_unknown_texture_is_refused(frame, renderer.textures);
}

} // verus!
