use imgui_dx9_renderer::status::{hresult, DXGI_ERROR_INVALID_CALL, S_OK};

#[test]
fn hresult_accepts_only_s_ok() {
    assert_eq!(hresult(S_OK), Ok(()));
    assert_eq!(hresult(1), Err(1));
    assert_eq!(hresult(-1), Err(-1));
    assert_eq!(hresult(DXGI_ERROR_INVALID_CALL), Err(DXGI_ERROR_INVALID_CALL));
}

#[test]
fn invalid_call_status_has_the_documented_bits() {
    assert_eq!(DXGI_ERROR_INVALID_CALL as u32, 0x887A_0001);
}
