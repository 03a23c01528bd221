//! The only calls into the `rand` crate: drawing ranged values and shuffling
//! the effect bag. Nothing is promised about which value comes back, only
//! what holds of every outcome.
use vstd::prelude::*;
use rand::seq::SliceRandom;
use rand::Rng;

use crate::effects::Effect;

verus! {

/// Relies on rand's `SliceRandom::shuffle`: an in-place Fisher-Yates pass of
/// swaps, so the vector afterwards holds exactly the elements it held before,
/// in some order.
#[verifier::external_body]
pub(crate) fn shuffle_effects(v: &mut Vec<Effect>)
    ensures
        final(v)@.len() == old(v)@.len(),
        final(v)@.to_multiset() == old(v)@.to_multiset(),
{
    v.shuffle(&mut rand::thread_rng());
}

/// Relies on rand's `Rng::gen_range`: a value drawn from the given range,
/// which panics only when the range is empty — ruled out here by `lo <= hi`.
#[verifier::external_body]
pub(crate) fn rand_range(lo: u64, hi: u64) -> (r: u64)
    requires
        lo <= hi,
    ensures
        lo <= r <= hi,
{
    rand::thread_rng().gen_range(lo..=hi)
}

} // verus!
