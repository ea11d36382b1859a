//! What can go wrong while a frame is rendered or a renderer is set up.

use crate::status::DXGI_ERROR_INVALID_CALL;
use vstd::prelude::*;

verus! {

/// The ways in which rendering fails. A failure of the device carries the
/// status that the device returned.
#[derive(Clone, Copy, Debug, PartialEq, Eq)]
pub enum RenderError {
    /// The device refused to create a vertex or index buffer.
    BufferAllocationFailed(i32),
    /// Mapping a buffer for writing failed.
    BufferLockFailed(i32),
    /// Creating the font texture, or writing into it, failed.
    TextureCreationFailed(i32),
    /// A draw command names a texture id that the registry does not hold.
    InvalidTextureReference,
    /// The device state could not be captured before the frame.
    StateSnapshotFailed(i32),
}

impl RenderError {
    /// The device status that stands for this error: the device's own for its
    /// failures, `DXGI_ERROR_INVALID_CALL` for an unknown texture.
    pub open spec fn spec_code(self) -> i32 {
        match self {
            RenderError::BufferAllocationFailed(code) => code,
            RenderError::BufferLockFailed(code) => code,
            RenderError::TextureCreationFailed(code) => code,
            RenderError::InvalidTextureReference => DXGI_ERROR_INVALID_CALL,
            RenderError::StateSnapshotFailed(code) => code,
        }
    }

    /// The text that describes this kind of error.
    pub open spec fn spec_description(self) -> Seq<char> {
        match self {
            RenderError::BufferAllocationFailed(_) => "the device could not allocate a vertex or index buffer"@,
            RenderError::BufferLockFailed(_) => "a buffer could not be locked for writing"@,
            RenderError::TextureCreationFailed(_) => "a texture could not be created or filled"@,
            RenderError::InvalidTextureReference => "a draw command refers to an unknown texture id"@,
            RenderError::StateSnapshotFailed(_) => "the device state could not be captured"@,
        }
    }

    /// The device status that stands for this error.
    pub fn code(&self) -> (code: i32)
        ensures
            code == self.spec_code(),
    {
        match self {
            RenderError::BufferAllocationFailed(code) => *code,
            RenderError::BufferLockFailed(code) => *code,
            RenderError::TextureCreationFailed(code) => *code,
            RenderError::InvalidTextureReference => DXGI_ERROR_INVALID_CALL,
            RenderError::StateSnapshotFailed(code) => *code,
        }
    }

    /// A stable description of the kind of error, without the status.
    pub fn description(&self) -> (text: String)
        ensures
            text@ == self.spec_description(),
    {
        match self {
            RenderError::BufferAllocationFailed(_) => "the device could not allocate a vertex or index buffer".to_owned(),
            RenderError::BufferLockFailed(_) => "a buffer could not be locked for writing".to_owned(),
            RenderError::TextureCreationFailed(_) => "a texture could not be created or filled".to_owned(),
            RenderError::InvalidTextureReference => "a draw command refers to an unknown texture id".to_owned(),
            RenderError::StateSnapshotFailed(_) => "the device state could not be captured".to_owned(),
        }
    }
}

} // verus!
