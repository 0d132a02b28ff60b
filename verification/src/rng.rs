//! Trusted wrappers around the `rand` crate.  Every random draw of the
//! engine goes through one of these two items; the verified code states
//! only what holds of every possible outcome.

use rand::seq::SliceRandom;
use rand::Rng;
use vstd::prelude::*;

verus! {

/// Relies on `rand::Rng::gen_range` over `0..n`: it returns a value of that
/// range, chosen uniformly, and panics only when the range is empty (which
/// the precondition rules out).
#[verifier::external_body]
pub(crate) fn rand_index(n: usize) -> (r: usize)
    requires
        n > 0,
    ensures
        r < n,
{
    rand::thread_rng().gen_range(0..n)
}

/// Relies on `rand::seq::SliceRandom::shuffle`: a Fisher-Yates pass of
/// in-place swaps, so the new contents are a permutation of the old ones.
#[verifier::external_body]
pub(crate) fn shuffle_vec<T>(v: &mut Vec<T>)
    ensures
        final(v)@.len() == old(v)@.len(),
        final(v)@.to_multiset() == old(v)@.to_multiset(),
{
    v.shuffle(&mut rand::thread_rng());
}

/// A percentage roll: uniform in 0..100.
pub(crate) fn rand_percent() -> (r: u32)
    ensures
        r < 100,
{
    rand_index(100) as u32
}

} // verus!
