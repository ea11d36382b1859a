//! Device status codes.

use vstd::prelude::*;

verus! {

/// The status with which a device call reports success.
pub const S_OK: i32 = 0;

/// The status reported for a draw command that names an unknown texture.
pub const DXGI_ERROR_INVALID_CALL: i32 = -2005270527;

/// A device call succeeded exactly when it returned [`S_OK`]; every other
/// status, positive ones included, is a failure.
pub open spec fn succeeded(code: i32) -> bool {
    code == S_OK
}

/// Turns a device status into a `Result` that carries the status on failure.
pub fn hresult(code: i32) -> (r: Result<(), i32>)
    ensures
        succeeded(code) ==> r == Ok::<(), i32>(()),
        !succeeded(code) ==> r == Err::<(), i32>(code),
{
    if code == S_OK {
        Ok(())
    } else {
        Err(code)
    }
}

} // verus!
