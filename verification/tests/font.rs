use imgui_dx9_renderer::device::{DeviceCall, DeviceOp};
use imgui_dx9_renderer::error::RenderError;
use imgui_dx9_renderer::font::{FontAtlasTexture, FontStep, FontTexture, RowCopy};
use imgui_dx9_renderer::status::DXGI_ERROR_INVALID_CALL;
use imgui_dx9_renderer::textures::FONT_TEX_ID;

fn atlas(width: u32, height: u32) -> FontAtlasTexture {
    let len = (width * height * 4) as usize;
    FontAtlasTexture { width, height, data: (0..len).map(|i| i as u8).collect() }
}

#[test]
fn rows_lie_pitch_apart_in_the_texture() {
    let rows = atlas(2, 3).row_copies(16).unwrap();
    assert_eq!(
        rows,
        vec![
            RowCopy { src: 0, dst: 0, len: 8 },
            RowCopy { src: 8, dst: 16, len: 8 },
            RowCopy { src: 16, dst: 32, len: 8 },
        ]
    );
}

#[test]
fn rows_without_padding_are_copied_as_they_lie() {
    let rows = atlas(4, 2).row_copies(16).unwrap();
    assert_eq!(
        rows,
        vec![RowCopy { src: 0, dst: 0, len: 16 }, RowCopy { src: 16, dst: 16, len: 16 }]
    );
}

#[test]
fn copying_the_rows_fills_the_texture_as_row_by_row_copying_does() {
    let atlas = atlas(3, 4);
    let pitch = 20usize;
    let rows = atlas.row_copies(pitch as i32).unwrap();
    let mut texture = vec![0xeeu8; pitch * 4];
    for row in &rows {
        texture[row.dst..row.dst + row.len].copy_from_slice(&atlas.data[row.src..row.src + row.len]);
    }
    for y in 0..4usize {
        for x in 0..12usize {
            assert_eq!(texture[pitch * y + x], atlas.data[12 * y + x]);
        }
        for x in 12..pitch {
            assert_eq!(texture[pitch * y + x], 0xee);
        }
    }
}

#[test]
fn atlas_without_rows_has_nothing_to_copy() {
    assert_eq!(atlas(5, 0).row_copies(20), Some(vec![]));
    assert_eq!(atlas(0, 0).row_copies(0), Some(vec![]));
}

#[test]
fn pitch_below_a_row_does_not_fit() {
    assert_eq!(atlas(2, 3).row_copies(7), None);
    assert_eq!(atlas(2, 3).row_copies(0), None);
    assert_eq!(atlas(2, 3).row_copies(-16), None);
    assert!(atlas(2, 3).row_copies(8).is_some());
}

#[test]
fn atlas_with_too_few_bytes_does_not_fit() {
    let mut short = atlas(2, 3);
    short.data.pop();
    assert_eq!(short.row_copies(16), None);
    let empty = FontAtlasTexture { width: 0xffff_ffff, height: 0xffff_ffff, data: vec![] };
    assert_eq!(empty.row_copies(i32::MAX), None);
}

#[test]
fn set_up_creates_locks_writes_and_unlocks() {
    let atlas = atlas(2, 3);
    let pending = match FontTexture::create(&atlas) {
        FontStep::Call(call, pending) => {
            assert_eq!(call, DeviceCall::CreateFontTexture { width: 2, height: 3 });
            pending
        },
        other => panic!("unexpected step {other:?}"),
    };
    let pending = match FontTexture::resume(pending, &atlas, 0, 0) {
        FontStep::Call(call, pending) => {
            assert_eq!(call, DeviceCall::LockFontTexture);
            pending
        },
        other => panic!("unexpected step {other:?}"),
    };
    match FontTexture::resume(pending, &atlas, 0, 16) {
        FontStep::Finished(ops, Ok(font)) => {
            assert_eq!(ops, vec![DeviceOp::UploadFontTexture, DeviceOp::UnlockFontTexture]);
            assert_eq!(font.id(), FONT_TEX_ID);
        },
        other => panic!("unexpected step {other:?}"),
    }
}

#[test]
fn failed_creation_is_a_texture_creation_failure() {
    let atlas = atlas(2, 3);
    let pending = match FontTexture::create(&atlas) {
        FontStep::Call(_, pending) => pending,
        other => panic!("unexpected step {other:?}"),
    };
    assert_eq!(
        FontTexture::resume(pending, &atlas, -2005530516, 0),
        FontStep::Finished(vec![], Err(RenderError::TextureCreationFailed(-2005530516)))
    );
}

#[test]
fn positive_status_is_a_failure_too() {
    let atlas = atlas(2, 3);
    let pending = match FontTexture::create(&atlas) {
        FontStep::Call(_, pending) => pending,
        other => panic!("unexpected step {other:?}"),
    };
    assert_eq!(
        FontTexture::resume(pending, &atlas, 1, 0),
        FontStep::Finished(vec![], Err(RenderError::TextureCreationFailed(1)))
    );
}

#[test]
fn failed_lock_is_a_texture_creation_failure_with_nothing_to_unlock() {
    let atlas = atlas(2, 3);
    let pending = match FontTexture::create(&atlas) {
        FontStep::Call(_, pending) => pending,
        other => panic!("unexpected step {other:?}"),
    };
    let pending = match FontTexture::resume(pending, &atlas, 0, 0) {
        FontStep::Call(_, pending) => pending,
        other => panic!("unexpected step {other:?}"),
    };
    assert_eq!(
        FontTexture::resume(pending, &atlas, -5, 16),
        FontStep::Finished(vec![], Err(RenderError::TextureCreationFailed(-5)))
    );
}

#[test]
fn locked_texture_that_the_atlas_does_not_fit_is_unlocked_and_refused() {
    let atlas = atlas(2, 3);
    let pending = match FontTexture::create(&atlas) {
        FontStep::Call(_, pending) => pending,
        other => panic!("unexpected step {other:?}"),
    };
    let pending = match FontTexture::resume(pending, &atlas, 0, 0) {
        FontStep::Call(_, pending) => pending,
        other => panic!("unexpected step {other:?}"),
    };
    assert_eq!(
        FontTexture::resume(pending, &atlas, 0, 4),
        FontStep::Finished(
            vec![DeviceOp::UnlockFontTexture],
            Err(RenderError::TextureCreationFailed(DXGI_ERROR_INVALID_CALL))
        )
    );
}
