use imgui_dx9_renderer::error::RenderError;
use imgui_dx9_renderer::textures::{TextureRegistry, FONT_TEX_ID};

#[test]
fn font_id_is_the_largest_id() {
    assert_eq!(FONT_TEX_ID, !0usize);
}

#[test]
fn new_registry_binds_nothing() {
    let registry = TextureRegistry::new();
    assert_eq!(registry.bind(0), Err(RenderError::InvalidTextureReference));
    assert_eq!(registry.bind(1), Err(RenderError::InvalidTextureReference));
    assert_eq!(registry.bind(FONT_TEX_ID), Err(RenderError::InvalidTextureReference));
}

#[test]
fn insert_hands_out_ids_from_zero() {
    let mut registry = TextureRegistry::new();
    assert_eq!(registry.insert(0xaaaa), Some(0));
    assert_eq!(registry.insert(0xbbbb), Some(1));
    assert_eq!(registry.insert(0xcccc), Some(2));
}

#[test]
fn bind_returns_the_handle_that_was_inserted() {
    let mut registry = TextureRegistry::new();
    let first = registry.insert(700).unwrap();
    let second = registry.insert(900).unwrap();
    assert_ne!(first, second);
    assert_eq!(registry.bind(first), Ok(700));
    assert_eq!(registry.bind(second), Ok(900));
    assert_eq!(registry.bind(second + 1), Err(RenderError::InvalidTextureReference));
}

#[test]
fn insert_never_hands_out_the_font_id() {
    let mut registry = TextureRegistry::new();
    for handle in 0..1000usize {
        let id = registry.insert(handle).unwrap();
        assert_ne!(id, FONT_TEX_ID);
        assert_eq!(id, handle);
    }
    assert_eq!(registry.bind(FONT_TEX_ID), Err(RenderError::InvalidTextureReference));
}

#[test]
fn handle_and_id_are_kept_apart() {
    let mut registry = TextureRegistry::new();
    let id = registry.insert(5).unwrap();
    assert_eq!(id, 0);
    assert_eq!(registry.bind(0), Ok(5));
    assert_eq!(registry.bind(5), Err(RenderError::InvalidTextureReference));
}

#[test]
fn remove_takes_the_entry_out_and_returns_its_handle() {
    let mut registry = TextureRegistry::new();
    let first = registry.insert(11).unwrap();
    let second = registry.insert(22).unwrap();
    assert_eq!(registry.remove(first), Some(11));
    assert_eq!(registry.bind(first), Err(RenderError::InvalidTextureReference));
    assert_eq!(registry.bind(second), Ok(22));
    assert_eq!(registry.remove(first), None);
    assert_eq!(registry.remove(77), None);
}

#[test]
fn removed_id_is_not_handed_out_again() {
    let mut registry = TextureRegistry::new();
    let first = registry.insert(11).unwrap();
    assert_eq!(registry.remove(first), Some(11));
    let next = registry.insert(33).unwrap();
    assert_eq!(next, first + 1);
    assert_eq!(registry.bind(first), Err(RenderError::InvalidTextureReference));
    assert_eq!(registry.bind(next), Ok(33));
}
