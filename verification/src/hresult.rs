//! Foreign status codes and the typed errors shown to library users.

use vstd::prelude::*;

verus! {

/// Success.
pub const S_OK: i32 = 0;

/// The called slot exists but the object does not implement it
/// (0x80004001 as a signed 32-bit value).
pub const E_NOTIMPL: i32 = -2147467263;

/// Unspecified failure (0x80004005 as a signed 32-bit value).
pub const E_FAIL: i32 = -2147467259;

/// The remote procedure call server is unavailable (0x800706BA as a
/// signed 32-bit value); raised when the shell process is gone.
pub const RPC_S_SERVER_UNAVAILABLE: i32 = -2147023174;

/// The object invoked has disconnected from its clients (0x80010108 as
/// a signed 32-bit value); raised when the shell dropped the object.
pub const RPC_E_DISCONNECTED: i32 = -2147417848;

/// A status code signals success exactly when it is non-negative.
pub open spec fn spec_succeeded(hr: i32) -> bool {
    hr >= 0
}

/// What a failed shell call means to a library user: the operation is
/// not supported on this Windows version, the shell connection is
/// currently down, or the shell rejected the call with some other code.
#[derive(Clone, Copy, Debug, PartialEq, Eq, Structural)]
pub enum ComError {
    NotSupportedOnVersion,
    ConnectionDown,
    Rejected { code: i32 },
}

/// Classifies a foreign status code.  Success passes through; a failure
/// is never silently swallowed: it maps to exactly one typed error.
pub fn check_hresult(hr: i32) -> (r: Result<(), ComError>)
    ensures
        r is Ok <==> spec_succeeded(hr),
        hr == E_NOTIMPL ==> r == Result::<(), ComError>::Err(ComError::NotSupportedOnVersion),
        hr == RPC_S_SERVER_UNAVAILABLE || hr == RPC_E_DISCONNECTED ==> r == Result::<
            (),
            ComError,
        >::Err(ComError::ConnectionDown),
        hr < 0 && hr != E_NOTIMPL && hr != RPC_S_SERVER_UNAVAILABLE && hr != RPC_E_DISCONNECTED
            ==> r == Result::<(), ComError>::Err(ComError::Rejected { code: hr }),
{
    if hr >= 0 {
        Ok(())
    } else if hr == E_NOTIMPL {
        Err(ComError::NotSupportedOnVersion)
    } else if hr == RPC_S_SERVER_UNAVAILABLE || hr == RPC_E_DISCONNECTED {
        Err(ComError::ConnectionDown)
    } else {
        Err(ComError::Rejected { code: hr })
    }
}

} // verus!
