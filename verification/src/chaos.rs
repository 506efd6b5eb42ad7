//! The sampler: one Bernoulli trial per call, firing on a tenth of the draws.
//!
//! A trial draws a 32-bit sample from the system's random source and fires
//! where the sample, taken as a fraction of the largest 32-bit value, lies
//! below one tenth. The comparison is made in whole numbers, so it is the
//! same on every machine.

use vstd::prelude::*;
use vstd::set_lib::{lemma_int_range, set_int_range};

verus! {

/// The largest sample on which the sampler fires.
pub const LAST_FIRING_SAMPLE: u32 = 429_496_729;

/// The value of four bytes read as a big-endian 32-bit number.
pub open spec fn big_endian(bytes: Seq<u8>) -> int
    recommends
        bytes.len() == 4,
{
    bytes[0] * 0x100_0000 + bytes[1] * 0x1_0000 + bytes[2] * 0x100 + bytes[3]
}

/// Whether the sampler fires on `sample`: `sample / u32::MAX < 1 / 10`, as
/// an inequality of fractions.
pub open spec fn fires(sample: int) -> bool {
    10 * sample < u32::MAX
}

/// The samples on which the sampler fires, among all 32-bit values.
pub open spec fn firing_samples() -> Set<int> {
    Set::new(|sample: int| 0 <= sample <= u32::MAX && fires(sample))
}

/// The sampler fires on the samples up to `LAST_FIRING_SAMPLE` and on no
/// other. They are 429,496,730 of the 4,294,967,296 values a sample can
/// take: ten times their number exceeds the number of all values by 4, so
/// the share of firing samples is a tenth to within one part in a billion.
pub proof fn lemma_firing_share()
    ensures
        forall|sample: int| fires(sample) <==> sample <= LAST_FIRING_SAMPLE,
        firing_samples().finite(),
        firing_samples().len() == LAST_FIRING_SAMPLE + 1,
        10 * firing_samples().len() == (u32::MAX + 1) + 4,
{
    lemma_int_range(0, LAST_FIRING_SAMPLE + 1);
    assert(firing_samples() =~= set_int_range(0, LAST_FIRING_SAMPLE + 1));
}

/// Reads four bytes as a big-endian 32-bit sample.
pub fn sample_from_bytes(bytes: [u8; 4]) -> (sample: u32)
    ensures
        sample == big_endian(bytes@),
{
    let b0: u32 = bytes[0] as u32;
    let b1: u32 = bytes[1] as u32;
    let b2: u32 = bytes[2] as u32;
    let b3: u32 = bytes[3] as u32;
    b0 * 0x100_0000 + b1 * 0x1_0000 + b2 * 0x100 + b3
}

/// Decides the trial for a given sample.
pub fn should_fail(sample: u32) -> (fail: bool)
    ensures
        fail == fires(sample as int),
{
    sample <= LAST_FIRING_SAMPLE
}

/// The system's random source could not supply the bytes of a sample.
#[derive(Clone, Copy, Debug, PartialEq, Eq)]
pub struct EntropyUnavailable;

/// `getrandom::Error`, the error of the random source. It is carried opaque
/// from the call to the place where `EntropyUnavailable` takes its place.
#[verifier::external_type_specification]
#[verifier::external_body]
pub struct ExRandomSourceError(getrandom::Error);

/// Calls `getrandom::getrandom` on the four bytes of `buf`, which fills them
/// from the system's random source or reports why it could not.
///
/// Nothing is claimed of the outcome: the bytes written are random, and
/// whether the call fails rests with the system. The call may block while
/// the system gathers entropy; it does not panic.
#[verifier::external_body]
fn fill_random(buf: &mut [u8; 4]) -> (filled: Result<(), getrandom::Error>) {
    getrandom::getrandom(buf)
}

/// The trial for what the random source returned: the trial on the sample
/// that the four bytes spell, or the failure of the source.
pub open spec fn trial_on(drawn: Result<[u8; 4], EntropyUnavailable>) -> Result<
    bool,
    EntropyUnavailable,
> {
    match drawn {
        Ok(bytes) => Ok(fires(big_endian(bytes@))),
        Err(e) => Err(e),
    }
}

/// Runs the trial on what the random source returned.
pub fn trial_of(drawn: Result<[u8; 4], EntropyUnavailable>) -> (trial: Result<
    bool,
    EntropyUnavailable,
>)
    ensures
        trial == trial_on(drawn),
{
    match drawn {
        Ok(bytes) => Ok(should_fail(sample_from_bytes(bytes))),
        Err(e) => Err(e),
    }
}

/// Draws four fresh random bytes and runs one trial on them.
///
/// Which of the three outcomes comes back rests with the random source
/// alone: `Ok(true)` on a firing sample, `Ok(false)` on any other, and the
/// error where the source fails. A failing source is never made up for by a
/// default answer.
pub fn do_chaos() -> (trial: Result<bool, EntropyUnavailable>) {
    let mut buf: [u8; 4] = [0u8; 4];
    let drawn = match fill_random(&mut buf) {
        Ok(()) => Ok(buf),
        Err(_) => Err(EntropyUnavailable),
    };
    trial_of(drawn)
}

} // verus!
