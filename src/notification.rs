//! The user's answer to an incoming-file request, and the notification
//! surface of platforms that have no native one.

use vstd::prelude::*;

verus! {

/// An error reported by a native notification surface.
#[derive(Debug, Clone, Copy, PartialEq, Eq, Structural)]
pub enum WinToastError {
    NoError,
    UnknownError,
}

impl From<i32> for WinToastError {
    /// Every native error code reads as an unknown error.
    fn from(_code: i32) -> (r: Self) {
        WinToastError::UnknownError
    }
}

impl vstd::std_specs::convert::FromSpecImpl<i32> for WinToastError {
    open spec fn obeys_from_spec() -> bool {
        true
    }

    open spec fn from_spec(v: i32) -> WinToastError {
        WinToastError::UnknownError
    }
}

/// The user's answer to a request.
#[derive(Debug, Clone, Copy, PartialEq, Eq, Structural)]
pub enum UserResponse {
    Accept,
    Decline,
    Dismissed,
    Error(WinToastError),
}

/// Prepares the notification surface; there is nothing to prepare where no
/// native surface exists, which always succeeds.
pub fn init_system() -> (r: bool)
    ensures
        r,
{
    true
}

/// Registers a launcher shortcut; a no-op where no native surface exists.
pub fn setup_shortcut(_python_exe: &str, _script_path: &str) {
}

/// Shows an informational notification; a no-op where no native surface exists.
pub fn show_info(_title: &str, _msg: &str) {
}

} // verus!
