//! The failure emulator: how a fabricated failure is reported.
//!
//! A failing call reports in two parts: it leaves an error code in the
//! calling thread's error-status cell, and it returns the sentinel `-1`. The
//! cell is modelled as a plain value that the caller owns, so that both parts
//! show in a contract.

use vstd::prelude::*;

verus! {

/// The value that a failing operation returns.
pub const SENTINEL: i8 = -1;

/// The error that an injected failure reports.
#[derive(Clone, Copy, Debug, PartialEq, Eq, Structural)]
pub enum ErrorCode {
    /// The call was interrupted.
    Interrupted,
    /// No buffer space is available.
    NoBufferSpace,
}

/// The error-status cell of one thread: the code that the last injected
/// failure left in it, if any.
#[derive(Clone, Copy, Debug, PartialEq, Eq, Structural)]
pub struct ErrorStatus {
    pub last: Option<ErrorCode>,
}

impl ErrorStatus {
    /// A cell in which no injected failure has left a code.
    pub fn untouched() -> (status: ErrorStatus)
        ensures
            status.last.is_none(),
    {
        ErrorStatus { last: None }
    }
}

/// Reports a failure as a failing call would: leaves `errno` in the cell and
/// returns the sentinel.
pub fn return_errno(status: &mut ErrorStatus, errno: ErrorCode) -> (sentinel: i8)
    ensures
        final(status).last == Some(errno),
        sentinel == SENTINEL,
{
    status.last = Some(errno);
    SENTINEL
}

} // verus!
