//! The decision that every intercepted call goes through.
//!
//! A call that its operation's exclusion rule spares is passed through. So
//! is a call of an operation that the configuration does not name. For any
//! other call the sampler is asked once: where it fires, the failure is
//! fabricated and the genuine implementation is not to be called; where it
//! does not, the call is passed through.

use vstd::prelude::*;
use crate::chaos::{do_chaos, EntropyUnavailable};
use crate::config::{enabled, is_enabled, view_of};
use crate::failure::{return_errno, ErrorStatus, SENTINEL};
use crate::operation::Operation;

verus! {

/// What becomes of one intercepted call.
#[derive(Debug, PartialEq, Eq)]
pub enum Verdict<R> {
    /// The call fails without reaching the genuine implementation: it
    /// returns the value held here, and the error-status cell holds the
    /// operation's error code.
    Injected(R),
    /// The call goes to the genuine implementation with its arguments as
    /// they are, and returns what that returns.
    PassThrough,
}

impl<R: Copy> Clone for Verdict<R> {
    fn clone(&self) -> (copy: Self)
        ensures
            copy == *self,
    {
        *self
    }
}

impl<R: Copy> Copy for Verdict<R> {

}

/// Whether a call is open to injection at all: no exclusion rule spares it,
/// and the configuration names its operation.
pub open spec fn may_inject(op: Operation, excluded: bool, config: Option<Seq<char>>) -> bool {
    !excluded && enabled(op.spec_name(), config)
}

/// The verdict that follows from the sampler's answer on a call that is open
/// to injection.
pub open spec fn settled(trial: Result<bool, EntropyUnavailable>) -> Result<
    Verdict<i8>,
    EntropyUnavailable,
> {
    match trial {
        Ok(true) => Ok(Verdict::Injected(SENTINEL)),
        Ok(false) => Ok(Verdict::PassThrough),
        Err(e) => Err(e),
    }
}

/// The error-status cell after the sampler's answer on a call of `op`: it
/// holds the operation's error code where the sampler fired, and is as
/// `before` otherwise.
pub open spec fn status_after(
    op: Operation,
    trial: Result<bool, EntropyUnavailable>,
    before: ErrorStatus,
) -> ErrorStatus {
    match trial {
        Ok(true) => ErrorStatus { last: Some(op.spec_error_code()) },
        _ => before,
    }
}

/// Concludes a call of `op` that is open to injection from the sampler's
/// answer.
pub fn settle(
    op: Operation,
    trial: Result<bool, EntropyUnavailable>,
    status: &mut ErrorStatus,
) -> (verdict: Result<Verdict<i8>, EntropyUnavailable>)
    ensures
        verdict == settled(trial),
        *final(status) == status_after(op, trial, *old(status)),
{
    match trial {
        Ok(true) => Ok(Verdict::Injected(return_errno(status, op.error_code()))),
        Ok(false) => Ok(Verdict::PassThrough),
        Err(e) => Err(e),
    }
}

/// Decides one call of `op`. `excluded` says whether the operation's
/// exclusion rule spares the call, `config` is the configuration as it stands
/// at the time of the call, and `status` is the calling thread's error-status
/// cell.
///
/// The sampler is asked only for a call that is open to injection, so a
/// failing random source fails no other call.
pub fn intercept(
    op: Operation,
    excluded: bool,
    config: Option<&str>,
    status: &mut ErrorStatus,
) -> (verdict: Result<Verdict<i8>, EntropyUnavailable>)
    ensures
        !may_inject(op, excluded, view_of(config)) ==> verdict == Ok::<
            Verdict<i8>,
            EntropyUnavailable,
        >(Verdict::PassThrough),
        verdict matches Ok(Verdict::Injected(value)) ==> value == -1 && final(status).last == Some(
            op.spec_error_code(),
        ),
        !(verdict matches Ok(Verdict::Injected(_))) ==> *final(status) == *old(status),
{
    if excluded || !is_enabled(op.name(), config) {
        return Ok(Verdict::PassThrough);
    }
    let trial = do_chaos();
    settle(op, trial, status)
}

} // verus!
