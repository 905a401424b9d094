//! Trusted wrappers around the `rand` crate. Each wrapper makes one call;
//! its contract states only what holds of every outcome, since the results
//! are random.

use vstd::prelude::*;
use crate::chars::is_alphanumeric_char;
use rand::Rng;

verus! {

/// Relies on rand's `Rng::gen_range` over `0..bound`: the result is uniform
/// in the range, and the call panics only when the range is empty.
#[verifier::external_body]
pub(crate) fn sample_below(bound: usize) -> (r: usize)
    requires
        bound >= 1,
    ensures
        r < bound,
{
    rand::thread_rng().gen_range(0..bound)
}

/// Relies on rand's `Alphanumeric` distribution: it samples a byte uniformly
/// from the ASCII letters and digits (`A`-`Z`, `a`-`z`, `0`-`9`).
#[verifier::external_body]
pub(crate) fn sample_alphanumeric() -> (c: char)
    ensures
        is_alphanumeric_char(c),
{
    rand::thread_rng().sample(rand::distributions::Alphanumeric) as char
}

/// Relies on rand's `Rng::fill` over a byte slice: it overwrites every byte
/// in place with random data and cannot resize the buffer.
#[verifier::external_body]
pub(crate) fn fill_random(bytes: &mut Vec<u8>)
    ensures
        final(bytes)@.len() == old(bytes)@.len(),
{
    rand::thread_rng().fill(bytes.as_mut_slice())
}

} // verus!
