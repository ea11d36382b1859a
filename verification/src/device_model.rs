//! A model of the device, to state what the renderer's steps add up to.
//!
//! The model holds what the renderer's calls and operations change on a
//! device: the render state, the captured state block, the two buffers
//! and what is locked. The render state is of any type, and what an
//! operation does to it is any function: what is proved over the model
//! holds whatever the device makes of an operation.

use crate::device::{DeviceCall, DeviceOp};
use crate::draw_data::FrameView;
use crate::render_state::{
    fixed_render_states, fixed_state, fixed_texture_states, fixed_transforms, fixed_viewport,
};
use crate::status::succeeded;
use crate::translate::{command_ops, frame_translation, list_translation, Translation};
use vstd::prelude::*;

verus! {

/// The device, as far as the renderer touches it.
pub struct Device<S> {
    /// The render state.
    pub state: S,
    /// The render state that was captured, while the state block is held.
    pub snapshot: Option<S>,
    /// The capacity of the vertex buffer, if there is one.
    pub vertex_buffer: Option<usize>,
    /// The capacity of the index buffer, if there is one.
    pub index_buffer: Option<usize>,
    pub vertex_locked: bool,
    pub index_locked: bool,
    /// How many vertices the last lock of the vertex buffer has mapped.
    pub vertex_mapped: usize,
    /// How many indices the last lock of the index buffer has mapped.
    pub index_mapped: usize,
    pub font_locked: bool,
    /// Nothing was asked of the device so far that it cannot do: no lock
    /// beyond a buffer's capacity, no write beyond what is mapped or into
    /// what is not locked, no unlock of what is not locked, no draw from a
    /// locked buffer; and its render state was not changed without a state
    /// block to restore it from.
    pub sound: bool,
}

impl<S> Device<S> {
    /// Nothing is locked, no state block is held, and nothing went wrong.
    pub open spec fn quiet(self) -> bool {
        &&& self.snapshot is None
        &&& !self.vertex_locked
        &&& !self.index_locked
        &&& !self.font_locked
        &&& self.sound
    }
}

/// A buffer of the capacity `held` can be locked for `count` elements.
pub open spec fn can_lock(held: Option<usize>, count: usize) -> bool {
    held is Some && count <= held->0
}

/// The device after a call that returned `status`. A call that failed has
/// changed nothing.
pub open spec fn after_call<S>(device: Device<S>, call: DeviceCall, status: i32) -> Device<S> {
    let done = succeeded(status);
    match call {
        DeviceCall::CreateVertexBuffer { len } => Device {
            vertex_buffer: if done {
                Some(len)
            } else {
                device.vertex_buffer
            },
            sound: device.sound && !device.vertex_locked,
            ..device
        },
        DeviceCall::CreateIndexBuffer { len } => Device {
            index_buffer: if done {
                Some(len)
            } else {
                device.index_buffer
            },
            sound: device.sound && !device.index_locked,
            ..device
        },
        DeviceCall::CaptureState => Device {
            snapshot: if done {
                Some(device.state)
            } else {
                device.snapshot
            },
            sound: device.sound && device.snapshot is None,
            ..device
        },
        DeviceCall::LockVertexBuffer { count } => Device {
            vertex_locked: device.vertex_locked || done,
            vertex_mapped: if done {
                count
            } else {
                device.vertex_mapped
            },
            sound: device.sound && !device.vertex_locked && can_lock(device.vertex_buffer, count),
            ..device
        },
        DeviceCall::LockIndexBuffer { count } => Device {
            index_locked: device.index_locked || done,
            index_mapped: if done {
                count
            } else {
                device.index_mapped
            },
            sound: device.sound && !device.index_locked && can_lock(device.index_buffer, count),
            ..device
        },
        DeviceCall::CreateFontTexture { .. } => Device {
            sound: device.sound && !device.font_locked,
            ..device
        },
        DeviceCall::LockFontTexture => Device {
            font_locked: device.font_locked || done,
            sound: device.sound && !device.font_locked,
            ..device
        },
    }
}

/// The device after an operation of a frame. `effect` is what the device
/// makes of an operation that changes its render state.
pub open spec fn after_op<S>(
    device: Device<S>,
    op: DeviceOp,
    frame: FrameView,
    effect: spec_fn(S, DeviceOp) -> S,
) -> Device<S> {
    match op {
        DeviceOp::UploadVertices => Device {
            sound: device.sound && device.vertex_locked && frame.total_vtx_count()
                <= device.vertex_mapped,
            ..device
        },
        DeviceOp::UploadIndices => Device {
            sound: device.sound && device.index_locked && frame.total_idx_count()
                <= device.index_mapped,
            ..device
        },
        DeviceOp::UnlockVertexBuffer => Device {
            vertex_locked: false,
            sound: device.sound && device.vertex_locked,
            ..device
        },
        DeviceOp::UnlockIndexBuffer => Device {
            index_locked: false,
            sound: device.sound && device.index_locked,
            ..device
        },
        DeviceOp::UploadFontTexture => Device {
            sound: device.sound && device.font_locked,
            ..device
        },
        DeviceOp::UnlockFontTexture => Device {
            font_locked: false,
            sound: device.sound && device.font_locked,
            ..device
        },
        DeviceOp::RestoreState => Device {
            state: if device.snapshot is Some {
                device.snapshot->0
            } else {
                device.state
            },
            snapshot: None,
            sound: device.sound && device.snapshot is Some,
            ..device
        },
        DeviceOp::DrawIndexedPrimitive { .. } => Device {
            state: effect(device.state, op),
            sound: device.sound && device.snapshot is Some && !device.vertex_locked
                && !device.index_locked,
            ..device
        },
        _ => Device {
            state: effect(device.state, op),
            sound: device.sound && device.snapshot is Some,
            ..device
        },
    }
}

/// The device after operations, done in order.
pub open spec fn after_ops<S>(
    device: Device<S>,
    ops: Seq<DeviceOp>,
    frame: FrameView,
    effect: spec_fn(S, DeviceOp) -> S,
) -> Device<S>
    decreases ops.len(),
{
    if ops.len() == 0 {
        device
    } else {
        after_op(after_ops(device, ops.drop_last(), frame, effect), ops.last(), frame, effect)
    }
}

/// An operation that only sets render state or draws: it locks and unlocks
/// nothing, writes into no buffer, and neither captures nor restores.
pub open spec fn plain(op: DeviceOp) -> bool {
    match op {
        DeviceOp::UploadVertices => false,
        DeviceOp::UploadIndices => false,
        DeviceOp::UnlockVertexBuffer => false,
        DeviceOp::UnlockIndexBuffer => false,
        DeviceOp::UploadFontTexture => false,
        DeviceOp::UnlockFontTexture => false,
        DeviceOp::RestoreState => false,
        _ => true,
    }
}

/// All operations are plain.
pub open spec fn all_plain(ops: Seq<DeviceOp>) -> bool {
    forall|i: int| 0 <= i < ops.len() ==> plain(#[trigger] ops[i])
}

/// The device while a frame is drawn: the state at `origin` is captured,
/// nothing is locked, and nothing went wrong.
pub open spec fn drawing<S>(device: Device<S>, origin: S) -> bool {
    &&& device.snapshot == Some(origin)
    &&& !device.vertex_locked
    &&& !device.index_locked
    &&& !device.font_locked
    &&& device.sound
}

/// No operations leave the device as it is.
pub proof fn lemma_after_no_ops<S>(
    device: Device<S>,
    frame: FrameView,
    effect: spec_fn(S, DeviceOp) -> S,
)
    ensures
        after_ops(device, Seq::empty(), frame, effect) == device,
{
}

/// One more operation is done on the device that the others have left.
pub proof fn lemma_after_ops_push<S>(
    device: Device<S>,
    ops: Seq<DeviceOp>,
    op: DeviceOp,
    frame: FrameView,
    effect: spec_fn(S, DeviceOp) -> S,
)
    ensures
        after_ops(device, ops.push(op), frame, effect) == after_op(
            after_ops(device, ops, frame, effect),
            op,
            frame,
            effect,
        ),
{
    assert(ops.push(op).drop_last() == ops);
}

/// Doing one sequence of operations and then another is doing both in a row.
pub proof fn lemma_after_ops_concat<S>(
    device: Device<S>,
    first: Seq<DeviceOp>,
    second: Seq<DeviceOp>,
    frame: FrameView,
    effect: spec_fn(S, DeviceOp) -> S,
)
    ensures
        after_ops(device, first + second, frame, effect) == after_ops(
            after_ops(device, first, frame, effect),
            second,
            frame,
            effect,
        ),
    decreases second.len(),
{
    if second.len() == 0 {
        assert(first + second == first);
    } else {
        assert((first + second).drop_last() == first + second.drop_last());
        lemma_after_ops_concat(device, first, second.drop_last(), frame, effect);
    }
}

/// Plain operations leave a device that is drawing a frame drawing it, and
/// its buffers as they are.
pub proof fn lemma_plain_ops_keep_drawing<S>(
    device: Device<S>,
    origin: S,
    ops: Seq<DeviceOp>,
    frame: FrameView,
    effect: spec_fn(S, DeviceOp) -> S,
)
    requires
        drawing(device, origin),
        all_plain(ops),
    ensures
        drawing(after_ops(device, ops, frame, effect), origin),
        after_ops(device, ops, frame, effect).vertex_buffer == device.vertex_buffer,
        after_ops(device, ops, frame, effect).index_buffer == device.index_buffer,
    decreases ops.len(),
{
    if ops.len() > 0 {
        assert(all_plain(ops.drop_last())) by {
            assert forall|i: int| 0 <= i < ops.drop_last().len() implies plain(
                #[trigger] ops.drop_last()[i],
            ) by {
                assert(ops.drop_last()[i] == ops[i]);
            }
        }
        lemma_plain_ops_keep_drawing(device, origin, ops.drop_last(), frame, effect);
        assert(plain(ops.last()));
    }
}

/// Two sequences of plain operations in a row are plain.
pub proof fn lemma_plain_concat(first: Seq<DeviceOp>, second: Seq<DeviceOp>)
    requires
        all_plain(first),
        all_plain(second),
    ensures
        all_plain(first + second),
{
    assert forall|i: int| 0 <= i < (first + second).len() implies plain(
        #[trigger] (first + second)[i],
    ) by {
        if i < first.len() {
            assert((first + second)[i] == first[i]);
        } else {
            assert((first + second)[i] == second[i - first.len()]);
        }
    }
}

/// The operations of the fixed render state are plain.
pub proof fn lemma_fixed_state_is_plain(frame: FrameView)
    ensures
        all_plain(fixed_state(frame)),
{
    assert(fixed_state(frame).len() == 25);
    assert forall|i: int| 0 <= i < 25 implies plain(#[trigger] fixed_state(frame)[i]) by {
        if i < 3 {
            assert(fixed_state(frame)[i] == fixed_viewport(frame)[i]);
        } else if i < 14 {
            assert(fixed_state(frame)[i] == fixed_render_states()[i - 3]);
        } else if i < 22 {
            assert(fixed_state(frame)[i] == fixed_texture_states()[i - 14]);
        } else {
            assert(fixed_state(frame)[i] == fixed_transforms(frame)[i - 22]);
        }
    }
}

/// The operations of the draw commands of a list are plain, if those before
/// them are.
pub proof fn lemma_list_translation_is_plain(
    start: Translation,
    frame: FrameView,
    textures: Map<usize, usize>,
    list: int,
    n: int,
)
    requires
        all_plain(start.ops),
    ensures
        all_plain(list_translation(start, frame, textures, list, n).ops),
    decreases n,
{
    if n > 0 {
        lemma_list_translation_is_plain(start, frame, textures, list, n - 1);
        let so_far = list_translation(start, frame, textures, list, n - 1);
        if !so_far.failed {
            match command_ops(frame, textures, list, n - 1, so_far.index_base) {
                Some(ops) => {
                    lemma_fixed_state_is_plain(frame);
                    assert(all_plain(ops));
                    lemma_plain_concat(so_far.ops, ops);
                },
                None => {},
            }
        }
    }
}

/// The operations of the draw commands of a frame are plain.
pub proof fn lemma_frame_translation_is_plain(
    frame: FrameView,
    textures: Map<usize, usize>,
    n: int,
)
    ensures
        all_plain(frame_translation(frame, textures, n).ops),
    decreases n,
{
    if n > 0 {
        lemma_frame_translation_is_plain(frame, textures, n - 1);
        lemma_list_translation_is_plain(
            frame_translation(frame, textures, n - 1),
            frame,
            textures,
            n - 1,
            frame.lists[n - 1].commands.len() as int,
        );
    }
}

} // verus!
