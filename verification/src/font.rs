//! The font atlas texture.
//!
//! The UI layer rasterises its fonts into one image of 32-bit pixels. At
//! set-up that image is written into a device texture, which every draw
//! command with the font atlas id then draws with.

use crate::device::{DeviceCall, DeviceOp};
use crate::error::RenderError;
use crate::status::{hresult, succeeded, DXGI_ERROR_INVALID_CALL};
use crate::textures::{TextureId, FONT_TEX_ID};
use vstd::prelude::*;

verus! {

/// The font atlas as the UI layer hands it over: `width` by `height` pixels
/// of four bytes each, row after row without gaps.
#[derive(Clone, Debug, PartialEq, Eq)]
pub struct FontAtlasTexture {
    pub width: u32,
    pub height: u32,
    pub data: Vec<u8>,
}

/// One row to copy: `len` bytes from offset `src` of the atlas to offset
/// `dst` of the locked texture.
#[derive(Clone, Copy, Debug, PartialEq, Eq)]
pub struct RowCopy {
    pub src: usize,
    pub dst: usize,
    pub len: usize,
}

/// The atlas can be copied into a texture whose rows lie `pitch` bytes
/// apart: a row fits between two row starts, the atlas holds all rows, and
/// the texture's extent can be counted.
pub open spec fn layout_fits(width: u32, height: u32, data_len: nat, pitch: int) -> bool {
    &&& 4 * width <= pitch
    &&& 4 * width * height <= data_len
    &&& pitch * height <= usize::MAX
}

/// Row `y` of the copy.
pub open spec fn row_copy(width: u32, pitch: int, y: int) -> RowCopy {
    RowCopy { src: (4 * width * y) as usize, dst: (pitch * y) as usize, len: (4 * width) as usize }
}

/// All rows of the copy, from the top.
pub open spec fn row_copies(width: u32, height: u32, pitch: int) -> Seq<RowCopy> {
    Seq::new(height as nat, |y: int| row_copy(width, pitch, y))
}

impl FontAtlasTexture {
    /// The rows to copy into a locked texture whose rows lie `pitch` bytes
    /// apart, or `None` where the atlas does not fit such a texture.
    pub fn row_copies(&self, pitch: i32) -> (rows: Option<Vec<RowCopy>>)
        ensures
            rows is Some <==> layout_fits(self.width, self.height, self.data@.len(), pitch as int),
            rows is Some ==> rows->0@ == row_copies(self.width, self.height, pitch as int),
    {
        let width: u64 = self.width as u64;
        let height: u64 = self.height as u64;
        let row: u64 = 4 * width;
        if pitch < 0 || row > pitch as u64 {
            return None;
        }
        let pitch: u64 = pitch as u64;
        assert(row * height <= 0x4_0000_0000 * 0x1_0000_0000) by (nonlinear_arith)
            requires
                row <= 0x4_0000_0000,
                height <= 0x1_0000_0000,
        ;
        assert(pitch * height <= 0x8000_0000 * 0x1_0000_0000) by (nonlinear_arith)
            requires
                pitch <= 0x8000_0000,
                height <= 0x1_0000_0000,
        ;
        let needed: u128 = row as u128 * height as u128;
        let extent: u128 = pitch as u128 * height as u128;
        assert(needed <= extent) by (nonlinear_arith)
            requires
                needed == row * height,
                extent == pitch * height,
                row <= pitch,
        ;
        if needed > self.data.len() as u128 || extent > usize::MAX as u128 {
            return None;
        }
        let row: usize = row as usize;
        let pitch: usize = pitch as usize;
        let mut rows: Vec<RowCopy> = Vec::new();
        let mut y: usize = 0;
        let mut src: usize = 0;
        let mut dst: usize = 0;
        while y < self.height as usize
            invariant
                y <= self.height,
                row == 4 * self.width,
                row <= pitch,
                pitch * self.height <= usize::MAX,
                src == row * y,
                dst == pitch * y,
                rows@ == row_copies(self.width, y as u32, pitch as int),
            decreases self.height - y,
        {
            rows.push(RowCopy { src, dst, len: row });
            assert(rows@ == row_copies(self.width, (y + 1) as u32, pitch as int));
            assert(row * (y + 1) == row * y + row) by (nonlinear_arith);
            assert(pitch * (y + 1) == pitch * y + pitch) by (nonlinear_arith);
            assert(pitch * (y + 1) <= pitch * self.height) by (nonlinear_arith)
                requires
                    y + 1 <= self.height,
            ;
            assert(row * (y + 1) <= pitch * (y + 1)) by (nonlinear_arith)
                requires
                    row <= pitch,
            ;
            src = src + row;
            dst = dst + pitch;
            y = y + 1;
        }
        Some(rows)
    }
}

/// The font atlas texture on the device. There is no such value but from a
/// set-up that went through.
#[derive(Debug, PartialEq, Eq)]
pub struct FontTexture {
    width: u32,
    height: u32,
}

/// Where the set-up of the font texture stands.
#[derive(Clone, Copy, Debug, PartialEq, Eq)]
pub enum FontStage {
    /// The texture is being created.
    Creating,
    /// The texture is being locked.
    Locking,
}

/// A set-up of the font texture that waits for the status of a device call.
#[derive(Debug, PartialEq, Eq)]
pub struct FontPending {
    stage: FontStage,
}

impl View for FontPending {
    type V = FontStage;

    closed spec fn view(&self) -> FontStage {
        self.stage
    }
}

/// What the host does next for the font texture.
#[derive(Debug, PartialEq, Eq)]
pub enum FontStep {
    /// Make the device call, then resume with its status.
    Call(DeviceCall, FontPending),
    /// Do the operations in order. The set-up then has ended as given.
    Finished(Vec<DeviceOp>, Result<FontTexture, RenderError>),
}

/// A step of the set-up, as plain values: the call and the stage that waits
/// for it, or the operations and whether a font texture came of them.
pub enum FontStepView {
    Call(DeviceCall, FontStage),
    Finished(Seq<DeviceOp>, Result<(u32, u32), RenderError>),
}

impl View for FontStep {
    type V = FontStepView;

    open spec fn view(&self) -> FontStepView {
        match self {
            FontStep::Call(call, pending) => FontStepView::Call(*call, pending@),
            FontStep::Finished(ops, Ok(texture)) => FontStepView::Finished(
                ops@,
                Ok(texture.size()),
            ),
            FontStep::Finished(ops, Err(error)) => FontStepView::Finished(ops@, Err(*error)),
        }
    }
}

/// The first step of the set-up: the texture is created in the atlas's size.
pub open spec fn spec_create(width: u32, height: u32) -> FontStepView {
    FontStepView::Call(DeviceCall::CreateFontTexture { width, height }, FontStage::Creating)
}

/// The step after a device call has returned `status`, and for the lock the
/// distance `pitch` between the texture's rows.
///
/// A failure of either call is a failure to create the texture; nothing is
/// left to undo. A locked texture that the atlas does not fit is unlocked
/// again and refused as an invalid call. Else the atlas is written and the
/// texture unlocked.
pub open spec fn spec_resume(
    stage: FontStage,
    width: u32,
    height: u32,
    data_len: nat,
    status: i32,
    pitch: i32,
) -> FontStepView {
    if !succeeded(status) {
        FontStepView::Finished(Seq::empty(), Err(RenderError::TextureCreationFailed(status)))
    } else {
        match stage {
            FontStage::Creating => FontStepView::Call(
                DeviceCall::LockFontTexture,
                FontStage::Locking,
            ),
            FontStage::Locking => if layout_fits(width, height, data_len, pitch as int) {
                FontStepView::Finished(
                    seq![DeviceOp::UploadFontTexture, DeviceOp::UnlockFontTexture],
                    Ok((width, height)),
                )
            } else {
                FontStepView::Finished(
                    seq![DeviceOp::UnlockFontTexture],
                    Err(RenderError::TextureCreationFailed(DXGI_ERROR_INVALID_CALL)),
                )
            },
        }
    }
}

impl FontTexture {
    /// Width and height of the texture, in pixels.
    pub closed spec fn size(&self) -> (u32, u32) {
        (self.width, self.height)
    }

    /// The id by which draw commands name the font texture. The UI layer is
    /// to be told.
    pub fn id(&self) -> (id: TextureId)
        ensures
            id == FONT_TEX_ID,
    {
        FONT_TEX_ID
    }

    /// Begins the set-up of the font texture for an atlas.
    pub fn create(atlas: &FontAtlasTexture) -> (step: FontStep)
        ensures
            step@ == spec_create(atlas.width, atlas.height),
    {
        FontStep::Call(
            DeviceCall::CreateFontTexture { width: atlas.width, height: atlas.height },
            FontPending { stage: FontStage::Creating },
        )
    }

    /// Goes on with the set-up after the device call has returned `status`.
    /// After the lock, `pitch` is the distance in bytes between the rows of
    /// the locked texture; after the creation it is not looked at.
    pub fn resume(pending: FontPending, atlas: &FontAtlasTexture, status: i32, pitch: i32) -> (step:
        FontStep)
        ensures
            step@ == spec_resume(
                pending@,
                atlas.width,
                atlas.height,
                atlas.data@.len(),
                status,
                pitch,
            ),
    {
        match hresult(status) {
            Err(code) => FontStep::Finished(
                Vec::new(),
                Err(RenderError::TextureCreationFailed(code)),
            ),
            Ok(()) => match pending.stage {
                FontStage::Creating => FontStep::Call(
                    DeviceCall::LockFontTexture,
                    FontPending { stage: FontStage::Locking },
                ),
                FontStage::Locking => {
                    let mut ops: Vec<DeviceOp> = Vec::new();
                    match atlas.row_copies(pitch) {
                        Some(_) => {
                            ops.push(DeviceOp::UploadFontTexture);
                            ops.push(DeviceOp::UnlockFontTexture);
                            assert(ops@ == seq![
                                DeviceOp::UploadFontTexture,
                                DeviceOp::UnlockFontTexture,
                            ]);
                            FontStep::Finished(
                                ops,
                                Ok(FontTexture { width: atlas.width, height: atlas.height }),
                            )
                        },
                        None => {
                            ops.push(DeviceOp::UnlockFontTexture);
                            assert(ops@ == seq![DeviceOp::UnlockFontTexture]);
                            FontStep::Finished(
                                ops,
                                Err(RenderError::TextureCreationFailed(DXGI_ERROR_INVALID_CALL)),
                            )
                        },
                    }
                },
            },
        }
    }
}

/// Where the atlas fits the texture, every row of the copy is read from
/// within the atlas and written within the texture's `height` rows of
/// `pitch` bytes, and a row ends before the next begins.
pub proof fn lemma_rows_in_bounds(width: u32, height: u32, data_len: nat, pitch: int, y: int)
    requires
        layout_fits(width, height, data_len, pitch),
        0 <= y < height,
    ensures
        row_copy(width, pitch, y).src == 4 * width * y,
        row_copy(width, pitch, y).dst == pitch * y,
        row_copy(width, pitch, y).len == 4 * width,
        row_copy(width, pitch, y).src + row_copy(width, pitch, y).len <= data_len,
        row_copy(width, pitch, y).dst + row_copy(width, pitch, y).len <= pitch * height,
        row_copy(width, pitch, y).dst + row_copy(width, pitch, y).len <= pitch * (y + 1),
{
    let row = 4 * width;
    assert(row * y + row <= row * height) by (nonlinear_arith)
        requires
            0 <= y < height,
            row >= 0,
    ;
    assert(pitch * y + pitch <= pitch * height) by (nonlinear_arith)
        requires
            0 <= y < height,
            pitch >= 0,
    ;
    assert(0 <= pitch * y) by (nonlinear_arith)
        requires
            0 <= y,
            pitch >= 0,
    ;
    assert(0 <= row * y) by (nonlinear_arith)
        requires
            0 <= y,
            row >= 0,
    ;
    assert(pitch * (y + 1) == pitch * y + pitch) by (nonlinear_arith);
    assert(row * y <= pitch * y) by (nonlinear_arith)
        requires
            0 <= y,
            row <= pitch,
    ;
    assert(4 * width * y == row * y);
    assert(4 * width * height == row * height);
}

/// Whether the font texture is locked after operations, done in order on
/// a texture that was locked or not.
pub open spec fn locked_after(locked: bool, ops: Seq<DeviceOp>) -> bool
    decreases ops.len(),
{
    if ops.len() == 0 {
        locked
    } else if ops.last() is UnlockFontTexture {
        false
    } else {
        locked_after(locked, ops.drop_last())
    }
}

/// However the set-up ends, it does not leave the font texture locked; and
/// a font texture comes of it exactly where both calls succeed and the
/// atlas fits the locked texture.
pub proof fn lemma_font_texture_is_left_unlocked(
    stage: FontStage,
    width: u32,
    height: u32,
    data_len: nat,
    status: i32,
    pitch: i32,
)
    ensures
        spec_resume(stage, width, height, data_len, status, pitch) matches FontStepView::Finished(
            ops,
            _,
        ) ==> !locked_after(stage is Locking && succeeded(status), ops),
        spec_resume(stage, width, height, data_len, status, pitch) matches FontStepView::Finished(
            _,
            result,
        ) ==> (result is Ok <==> stage is Locking && succeeded(status) && layout_fits(
            width,
            height,
            data_len,
            pitch as int,
        )),
{
    if succeeded(status) && stage is Locking {
        if layout_fits(width, height, data_len, pitch as int) {
            let ops = seq![DeviceOp::UploadFontTexture, DeviceOp::UnlockFontTexture];
            assert(ops.last() is UnlockFontTexture);
        } else {
            let ops = seq![DeviceOp::UnlockFontTexture];
            assert(ops.last() is UnlockFontTexture);
        }
    }
}

} // verus!
