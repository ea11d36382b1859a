//! The renderer: one frame of draw data at a time, step by step.
//!
//! The renderer decides and the host acts. [`Renderer::render`] begins a
//! frame and says what the host is to do first. Whenever that is a device
//! call that can fail, the host makes the call and hands its status to
//! [`Renderer::resume`], which says what is next. The last step holds the
//! operations that draw the frame and the frame's result.
//!
//! A frame goes through these stages, and ends at the first that fails:
//! the vertex buffer and the index buffer are replaced where they are too
//! small; the device state is captured; both buffers are locked; then the
//! geometry is written, the buffers are unlocked and bound, the fixed render
//! state is set and the draw commands are drawn. Whatever happens after the
//! device state was captured, the last operation restores it.

use crate::buffer::{capacity_of, grown_capacity, needs_growth, BufferKind, GpuBuffer};
use crate::device::{DeviceCall, DeviceOp};
use crate::draw_data::{FrameDrawData, FrameView};
use crate::error::RenderError;
use crate::font::FontTexture;
use crate::render_state::{fixed_state, set_render_state};
use crate::status::{hresult, succeeded};
use crate::textures::{no_entries, TextureRegistry};
use crate::translate::{draw_commands, outcome, translation};
use vstd::prelude::*;

verus! {

/// The device call whose status a frame waits for.
#[derive(Clone, Copy, Debug, PartialEq, Eq)]
pub enum Stage {
    /// A vertex buffer of `len` vertices is being created.
    CreatingVertexBuffer { len: usize },
    /// An index buffer of `len` indices is being created.
    CreatingIndexBuffer { len: usize },
    /// The device state is being captured.
    CapturingState,
    /// The vertex buffer is being locked. The device state is captured.
    LockingVertexBuffer,
    /// The index buffer is being locked. The device state is captured and
    /// the vertex buffer is locked.
    LockingIndexBuffer,
}

/// A frame that waits for the status of a device call. There is no such
/// value but from a step that asks for the call.
#[derive(Debug, PartialEq, Eq)]
pub struct Pending {
    stage: Stage,
}

impl View for Pending {
    type V = Stage;

    closed spec fn view(&self) -> Stage {
        self.stage
    }
}

/// What the host does next for the frame.
#[derive(Debug, PartialEq, Eq)]
pub enum RenderStep {
    /// Make the device call, then resume with its status.
    Call(DeviceCall, Pending),
    /// Do the operations in order. The frame then has ended as given.
    Finished(Vec<DeviceOp>, Result<(), RenderError>),
}

/// A step as plain values.
pub enum StepView {
    Call(DeviceCall, Stage),
    Finished(Seq<DeviceOp>, Result<(), RenderError>),
}

impl View for RenderStep {
    type V = StepView;

    open spec fn view(&self) -> StepView {
        match self {
            RenderStep::Call(call, pending) => StepView::Call(*call, pending@),
            RenderStep::Finished(ops, result) => StepView::Finished(ops@, *result),
        }
    }
}

/// What a renderer holds.
pub struct RendererView {
    /// The capacity of the vertex buffer, if there is one.
    pub vertex_capacity: Option<usize>,
    /// The capacity of the index buffer, if there is one.
    pub index_capacity: Option<usize>,
    /// The entries of the texture registry.
    pub textures: Map<usize, usize>,
}

/// Renders frames of UI draw data on one device.
pub struct Renderer {
    font_texture: FontTexture,
    vertex_buffer: GpuBuffer,
    index_buffer: GpuBuffer,
    textures: TextureRegistry,
}

/// The operations that write the geometry, release the buffers and make
/// them the device's source of vertices and indices.
pub open spec fn upload_ops() -> Seq<DeviceOp> {
    seq![
        DeviceOp::UploadVertices,
        DeviceOp::UploadIndices,
        DeviceOp::UnlockVertexBuffer,
        DeviceOp::UnlockIndexBuffer,
        DeviceOp::SetStreamSource,
        DeviceOp::SetIndices,
        DeviceOp::SetVertexFormat,
    ]
}

/// The operations of a frame once both buffers are locked: upload, fixed
/// render state, the draw commands as far as they go, and the restoring of
/// the device state.
pub open spec fn frame_ops(frame: FrameView, textures: Map<usize, usize>) -> Seq<DeviceOp> {
    upload_ops() + fixed_state(frame) + translation(frame, textures).ops + seq![
        DeviceOp::RestoreState,
    ]
}

/// The step that asks for the device state to be captured.
pub open spec fn capture_step() -> StepView {
    StepView::Call(DeviceCall::CaptureState, Stage::CapturingState)
}

/// The step once the vertex buffer is large enough: a new index buffer where
/// the one held is too small, else the capture of the device state.
pub open spec fn index_buffer_step(renderer: RendererView, frame: FrameView) -> StepView {
    if needs_growth(renderer.index_capacity, frame.total_idx_count()) {
        let len = grown_capacity(BufferKind::Index, frame.total_idx_count()) as usize;
        StepView::Call(DeviceCall::CreateIndexBuffer { len }, Stage::CreatingIndexBuffer { len })
    } else {
        capture_step()
    }
}

/// The first step of a frame. A frame whose display has a dimension below
/// zero is done at once, without a single operation. Else a new vertex
/// buffer is asked for where the one held is too small.
pub open spec fn spec_render(renderer: RendererView, frame: FrameView) -> StepView {
    if frame.collapsed() {
        StepView::Finished(Seq::empty(), Ok(()))
    } else if needs_growth(renderer.vertex_capacity, frame.total_vtx_count()) {
        let len = grown_capacity(BufferKind::Vertex, frame.total_vtx_count()) as usize;
        StepView::Call(DeviceCall::CreateVertexBuffer { len }, Stage::CreatingVertexBuffer { len })
    } else {
        index_buffer_step(renderer, frame)
    }
}

/// The step after the call of a stage has failed with `status`: the frame
/// ends with the error of the stage, after what was locked is unlocked and
/// what was captured is restored.
pub open spec fn failure_step(stage: Stage, status: i32) -> StepView {
    match stage {
        Stage::CreatingVertexBuffer { .. } => StepView::Finished(
            Seq::empty(),
            Err(RenderError::BufferAllocationFailed(status)),
        ),
        Stage::CreatingIndexBuffer { .. } => StepView::Finished(
            Seq::empty(),
            Err(RenderError::BufferAllocationFailed(status)),
        ),
        Stage::CapturingState => StepView::Finished(
            Seq::empty(),
            Err(RenderError::StateSnapshotFailed(status)),
        ),
        Stage::LockingVertexBuffer => StepView::Finished(
            seq![DeviceOp::RestoreState],
            Err(RenderError::BufferLockFailed(status)),
        ),
        Stage::LockingIndexBuffer => StepView::Finished(
            seq![DeviceOp::UnlockVertexBuffer, DeviceOp::RestoreState],
            Err(RenderError::BufferLockFailed(status)),
        ),
    }
}

/// The renderer after the call of a stage has succeeded: a buffer that was
/// created takes the place of the one held.
pub open spec fn success_state(renderer: RendererView, stage: Stage) -> RendererView {
    match stage {
        Stage::CreatingVertexBuffer { len } => RendererView {
            vertex_capacity: Some(len),
            ..renderer
        },
        Stage::CreatingIndexBuffer { len } => RendererView { index_capacity: Some(len), ..renderer },
        _ => renderer,
    }
}

/// The step after the call of a stage has succeeded.
pub open spec fn success_step(renderer: RendererView, stage: Stage, frame: FrameView) -> StepView {
    match stage {
        Stage::CreatingVertexBuffer { .. } => index_buffer_step(
            success_state(renderer, stage),
            frame,
        ),
        Stage::CreatingIndexBuffer { .. } => capture_step(),
        Stage::CapturingState => StepView::Call(
            DeviceCall::LockVertexBuffer { count: frame.total_vtx_count() as usize },
            Stage::LockingVertexBuffer,
        ),
        Stage::LockingVertexBuffer => StepView::Call(
            DeviceCall::LockIndexBuffer { count: frame.total_idx_count() as usize },
            Stage::LockingIndexBuffer,
        ),
        Stage::LockingIndexBuffer => StepView::Finished(
            frame_ops(frame, renderer.textures),
            outcome(translation(frame, renderer.textures)),
        ),
    }
}

/// The renderer after the call of a stage has returned `status`.
pub open spec fn spec_resume_state(renderer: RendererView, stage: Stage, status: i32) -> RendererView {
    if succeeded(status) {
        success_state(renderer, stage)
    } else {
        renderer
    }
}

/// The step after the call of a stage has returned `status`.
pub open spec fn spec_resume(
    renderer: RendererView,
    stage: Stage,
    frame: FrameView,
    status: i32,
) -> StepView {
    if succeeded(status) {
        success_step(renderer, stage, frame)
    } else {
        failure_step(stage, status)
    }
}

impl View for Renderer {
    type V = RendererView;

    closed spec fn view(&self) -> RendererView {
        RendererView {
            vertex_capacity: self.vertex_buffer@,
            index_capacity: self.index_buffer@,
            textures: self.textures@,
        }
    }
}

impl Renderer {
    /// The texture registry of this renderer, as a value.
    pub closed spec fn registry(&self) -> TextureRegistry {
        self.textures
    }

    /// The font texture of this renderer, as a value.
    pub closed spec fn font(&self) -> FontTexture {
        self.font_texture
    }

    /// A renderer for the device on which the font texture was set up. It
    /// holds no buffers yet and its texture registry is empty.
    pub fn new(font_texture: FontTexture) -> (renderer: Renderer)
        ensures
            renderer.font() == font_texture,
            renderer@.vertex_capacity is None,
            renderer@.index_capacity is None,
            renderer@.textures == no_entries(),
            renderer.registry().wf(),
            renderer.registry().issued() == 0,
    {
        Renderer {
            font_texture,
            vertex_buffer: GpuBuffer::new(),
            index_buffer: GpuBuffer::new(),
            textures: TextureRegistry::new(),
        }
    }

    /// The font texture of this renderer.
    pub fn font_texture(&self) -> (font_texture: &FontTexture)
        ensures
            *font_texture == self.font(),
    {
        &self.font_texture
    }

    /// The texture registry of this renderer.
    pub fn textures(&self) -> (textures: &TextureRegistry)
        ensures
            *textures == self.registry(),
            textures@ == self@.textures,
    {
        &self.textures
    }

    /// The texture registry of this renderer, to register textures in.
    /// Nothing else of the renderer changes.
    pub fn textures_mut(&mut self) -> (textures: &mut TextureRegistry)
        ensures
            *textures == old(self).registry(),
            final(self).registry() == *final(textures),
            final(self).font() == old(self).font(),
            final(self)@ == (RendererView { textures: final(textures)@, ..old(self)@ }),
    {
        &mut self.textures
    }

    /// The elements that the vertex buffer takes.
    pub fn vertex_capacity(&self) -> (capacity: usize)
        ensures
            capacity == capacity_of(self@.vertex_capacity),
    {
        self.vertex_buffer.capacity()
    }

    /// The elements that the index buffer takes.
    pub fn index_capacity(&self) -> (capacity: usize)
        ensures
            capacity == capacity_of(self@.index_capacity),
    {
        self.index_buffer.capacity()
    }

    fn capture_state() -> (step: RenderStep)
        ensures
            step@ == capture_step(),
    {
        RenderStep::Call(DeviceCall::CaptureState, Pending { stage: Stage::CapturingState })
    }

    fn ensure_index_buffer(&self, frame: &FrameDrawData) -> (step: RenderStep)
        ensures
            step@ == index_buffer_step(self@, frame@),
    {
        match self.index_buffer.ensure_capacity(BufferKind::Index, frame.total_idx_count()) {
            Some(len) => RenderStep::Call(
                DeviceCall::CreateIndexBuffer { len },
                Pending { stage: Stage::CreatingIndexBuffer { len } },
            ),
            None => Self::capture_state(),
        }
    }

    /// Begins a frame and says what the host is to do first. The renderer
    /// itself does not change.
    pub fn render(&mut self, draw_data: &FrameDrawData) -> (step: RenderStep)
        ensures
            final(self)@ == old(self)@,
            final(self).registry() == old(self).registry(),
            final(self).font() == old(self).font(),
            step@ == spec_render(old(self)@, draw_data@),
    {
        if draw_data.is_collapsed() {
            return RenderStep::Finished(Vec::new(), Ok(()));
        }
        match self.vertex_buffer.ensure_capacity(BufferKind::Vertex, draw_data.total_vtx_count()) {
            Some(len) => RenderStep::Call(
                DeviceCall::CreateVertexBuffer { len },
                Pending { stage: Stage::CreatingVertexBuffer { len } },
            ),
            None => self.ensure_index_buffer(draw_data),
        }
    }

    /// The last step of a frame that has both buffers locked.
    fn draw(&self, frame: &FrameDrawData) -> (step: RenderStep)
        ensures
            step@ == StepView::Finished(
                frame_ops(frame@, self@.textures),
                outcome(translation(frame@, self@.textures)),
            ),
    {
        let mut ops: Vec<DeviceOp> = Vec::new();
        ops.push(DeviceOp::UploadVertices);
        ops.push(DeviceOp::UploadIndices);
        ops.push(DeviceOp::UnlockVertexBuffer);
        ops.push(DeviceOp::UnlockIndexBuffer);
        ops.push(DeviceOp::SetStreamSource);
        ops.push(DeviceOp::SetIndices);
        ops.push(DeviceOp::SetVertexFormat);
        assert(ops@ == upload_ops());
        set_render_state(&mut ops, frame);
        let result = draw_commands(&mut ops, frame, &self.textures);
        ops.push(DeviceOp::RestoreState);
        assert(ops@ == frame_ops(frame@, self@.textures));
        RenderStep::Finished(ops, result)
    }

    /// The last step of a frame after the call of its stage has failed.
    fn fail(stage: Stage, status: i32) -> (step: RenderStep)
        ensures
            step@ == failure_step(stage, status),
    {
        let mut ops: Vec<DeviceOp> = Vec::new();
        match stage {
            Stage::CreatingVertexBuffer { .. } => RenderStep::Finished(
                ops,
                Err(RenderError::BufferAllocationFailed(status)),
            ),
            Stage::CreatingIndexBuffer { .. } => RenderStep::Finished(
                ops,
                Err(RenderError::BufferAllocationFailed(status)),
            ),
            Stage::CapturingState => RenderStep::Finished(
                ops,
                Err(RenderError::StateSnapshotFailed(status)),
            ),
            Stage::LockingVertexBuffer => {
                ops.push(DeviceOp::RestoreState);
                assert(ops@ == seq![DeviceOp::RestoreState]);
                RenderStep::Finished(ops, Err(RenderError::BufferLockFailed(status)))
            },
            Stage::LockingIndexBuffer => {
                ops.push(DeviceOp::UnlockVertexBuffer);
                ops.push(DeviceOp::RestoreState);
                assert(ops@ == seq![DeviceOp::UnlockVertexBuffer, DeviceOp::RestoreState]);
                RenderStep::Finished(ops, Err(RenderError::BufferLockFailed(status)))
            },
        }
    }

    /// Goes on with a frame after the device call that it waited for has
    /// returned `status`, and says what the host is to do next. Of the
    /// renderer only the capacity of a buffer changes, where one was created.
    pub fn resume(&mut self, pending: Pending, draw_data: &FrameDrawData, status: i32) -> (step:
        RenderStep)
        ensures
            final(self)@ == spec_resume_state(old(self)@, pending@, status),
            final(self).registry() == old(self).registry(),
            final(self).font() == old(self).font(),
            step@ == spec_resume(old(self)@, pending@, draw_data@, status),
    {
        let stage = pending.stage;
        match hresult(status) {
            Err(code) => Self::fail(stage, code),
            Ok(()) => match stage {
                Stage::CreatingVertexBuffer { len } => {
                    self.vertex_buffer.replace(len);
                    self.ensure_index_buffer(draw_data)
                },
                Stage::CreatingIndexBuffer { len } => {
                    self.index_buffer.replace(len);
                    Self::capture_state()
                },
                Stage::CapturingState => RenderStep::Call(
                    DeviceCall::LockVertexBuffer { count: draw_data.total_vtx_count() },
                    Pending { stage: Stage::LockingVertexBuffer },
                ),
                Stage::LockingVertexBuffer => RenderStep::Call(
                    DeviceCall::LockIndexBuffer { count: draw_data.total_idx_count() },
                    Pending { stage: Stage::LockingIndexBuffer },
                ),
                Stage::LockingIndexBuffer => self.draw(draw_data),
            },
        }
    }
}

} // verus!
