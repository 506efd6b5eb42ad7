//! Fault-injection decisions for intercepted I/O operations.
//!
//! For each intercepted call the library decides whether the call fails with a
//! fabricated error or is handed to the genuine implementation. The decision
//! rests on the operation and the descriptor it is called on, on the
//! configuration string that lists the operations under test, and on one
//! random draw.
//!
//! The functions of this file are the entries, one for each operation. Each
//! takes what the decision reads of the call's arguments, the configuration as
//! it stands, and the calling thread's error-status cell. None of them touches
//! the genuine implementation: a call that is passed through is for the
//! caller to make, and a call that is failed returns the value held in the
//! verdict.

use vstd::prelude::*;

pub mod chaos;
pub mod config;
pub mod engine;
pub mod failure;
pub mod operation;

pub use crate::chaos::{do_chaos, EntropyUnavailable};
pub use crate::config::is_enabled;
pub use crate::engine::{intercept, Verdict};
pub use crate::failure::{return_errno, ErrorCode, ErrorStatus};
pub use crate::operation::Operation;

use crate::config::{enabled, view_of};

verus! {

/// A verdict with its value at the width of a C `int`.
fn as_int(decided: Result<Verdict<i8>, EntropyUnavailable>) -> (widened: Result<
    Verdict<i32>,
    EntropyUnavailable,
>)
    ensures
        widened == match decided {
            Ok(Verdict::Injected(value)) => Ok::<Verdict<i32>, EntropyUnavailable>(
                Verdict::Injected(value as i32),
            ),
            Ok(Verdict::PassThrough) => Ok(Verdict::PassThrough),
            Err(e) => Err(e),
        },
{
    match decided {
        Ok(Verdict::Injected(value)) => Ok(Verdict::Injected(i32::from(value))),
        Ok(Verdict::PassThrough) => Ok(Verdict::PassThrough),
        Err(e) => Err(e),
    }
}

/// A verdict with its value at the width of a C `ssize_t`.
fn as_ssize(decided: Result<Verdict<i8>, EntropyUnavailable>) -> (widened: Result<
    Verdict<isize>,
    EntropyUnavailable,
>)
    ensures
        widened == match decided {
            Ok(Verdict::Injected(value)) => Ok::<Verdict<isize>, EntropyUnavailable>(
                Verdict::Injected(value as isize),
            ),
            Ok(Verdict::PassThrough) => Ok(Verdict::PassThrough),
            Err(e) => Err(e),
        },
{
    match decided {
        Ok(Verdict::Injected(value)) => Ok(Verdict::Injected(isize::from(value))),
        Ok(Verdict::PassThrough) => Ok(Verdict::PassThrough),
        Err(e) => Err(e),
    }
}

/// Decides a call of `open(path, flags)`, which returns an `int`.
///
/// An injected failure reports that the call was interrupted.
pub fn open(config: Option<&str>, status: &mut ErrorStatus) -> (verdict: Result<
    Verdict<i32>,
    EntropyUnavailable,
>)
    ensures
        !enabled("open"@, view_of(config)) ==> verdict == Ok::<Verdict<i32>, EntropyUnavailable>(
            Verdict::PassThrough,
        ),
        verdict matches Ok(Verdict::Injected(value)) ==> value == -1 && final(status).last == Some(
            ErrorCode::Interrupted,
        ),
        !(verdict matches Ok(Verdict::Injected(_))) ==> *final(status) == *old(status),
{
    as_int(intercept(Operation::Open, false, config, status))
}

/// Decides a call of `read(fd, buf, nbytes)`, which returns an `ssize_t`.
///
/// Reads from the standard streams, descriptors up to 2, are never failed.
/// An injected failure reports that the call was interrupted.
pub fn read(fd: i32, config: Option<&str>, status: &mut ErrorStatus) -> (verdict: Result<
    Verdict<isize>,
    EntropyUnavailable,
>)
    ensures
        fd <= 2 || !enabled("read"@, view_of(config)) ==> verdict == Ok::<
            Verdict<isize>,
            EntropyUnavailable,
        >(Verdict::PassThrough),
        verdict matches Ok(Verdict::Injected(value)) ==> value == -1 && final(status).last == Some(
            ErrorCode::Interrupted,
        ),
        !(verdict matches Ok(Verdict::Injected(_))) ==> *final(status) == *old(status),
{
    as_ssize(intercept(Operation::Read, Operation::Read.spares(fd), config, status))
}

/// Decides a call of `write(fd, buf, nbytes)`, which returns an `ssize_t`.
///
/// Writes to the standard streams, descriptors up to 2, are never failed.
/// An injected failure reports that the call was interrupted.
pub fn write(fd: i32, config: Option<&str>, status: &mut ErrorStatus) -> (verdict: Result<
    Verdict<isize>,
    EntropyUnavailable,
>)
    ensures
        fd <= 2 || !enabled("write"@, view_of(config)) ==> verdict == Ok::<
            Verdict<isize>,
            EntropyUnavailable,
        >(Verdict::PassThrough),
        verdict matches Ok(Verdict::Injected(value)) ==> value == -1 && final(status).last == Some(
            ErrorCode::Interrupted,
        ),
        !(verdict matches Ok(Verdict::Injected(_))) ==> *final(status) == *old(status),
{
    as_ssize(intercept(Operation::Write, Operation::Write.spares(fd), config, status))
}

/// Decides a call of `socket(domain, type, protocol)`, which returns an
/// `int`.
///
/// An injected failure reports that no buffer space is available.
pub fn socket(config: Option<&str>, status: &mut ErrorStatus) -> (verdict: Result<
    Verdict<i32>,
    EntropyUnavailable,
>)
    ensures
        !enabled("socket"@, view_of(config)) ==> verdict == Ok::<Verdict<i32>, EntropyUnavailable>(
            Verdict::PassThrough,
        ),
        verdict matches Ok(Verdict::Injected(value)) ==> value == -1 && final(status).last == Some(
            ErrorCode::NoBufferSpace,
        ),
        !(verdict matches Ok(Verdict::Injected(_))) ==> *final(status) == *old(status),
{
    as_int(intercept(Operation::Socket, false, config, status))
}

/// Decides a call of `connect(socket, name, namelen)`, which returns an
/// `int`.
///
/// An injected failure reports that the call was interrupted.
pub fn connect(config: Option<&str>, status: &mut ErrorStatus) -> (verdict: Result<
    Verdict<i32>,
    EntropyUnavailable,
>)
    ensures
        !enabled("connect"@, view_of(config)) ==> verdict == Ok::<
            Verdict<i32>,
            EntropyUnavailable,
        >(Verdict::PassThrough),
        verdict matches Ok(Verdict::Injected(value)) ==> value == -1 && final(status).last == Some(
            ErrorCode::Interrupted,
        ),
        !(verdict matches Ok(Verdict::Injected(_))) ==> *final(status) == *old(status),
{
    as_int(intercept(Operation::Connect, false, config, status))
}

/// Decides a call of `sendto(socket, msg, len, flags, to, tolen)`, which
/// returns an `ssize_t`.
///
/// An injected failure reports that no buffer space is available.
pub fn sendto(config: Option<&str>, status: &mut ErrorStatus) -> (verdict: Result<
    Verdict<isize>,
    EntropyUnavailable,
>)
    ensures
        !enabled("sendto"@, view_of(config)) ==> verdict == Ok::<
            Verdict<isize>,
            EntropyUnavailable,
        >(Verdict::PassThrough),
        verdict matches Ok(Verdict::Injected(value)) ==> value == -1 && final(status).last == Some(
            ErrorCode::NoBufferSpace,
        ),
        !(verdict matches Ok(Verdict::Injected(_))) ==> *final(status) == *old(status),
{
    as_ssize(intercept(Operation::Sendto, false, config, status))
}

} // verus!
