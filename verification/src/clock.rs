//! The clock, and the time that a traversal adds up from its readings.

use vstd::prelude::*;
use std::time::Instant;

verus! {

/// `std::time::Instant`: a reading of the monotonic clock.
#[verifier::external_type_specification]
#[verifier::external_body]
pub struct ExInstant(Instant);

/// The sum of a sequence of time samples, in nanoseconds.
pub open spec fn total_of(samples: Seq<nat>) -> nat
    decreases samples.len(),
{
    if samples.len() == 0 {
        0
    } else {
        total_of(samples.drop_last()) + samples.last()
    }
}

/// A time in nanoseconds as a `u128` holds it: itself, or the greatest
/// `u128` where it is more.
pub open spec fn capped(nanos: nat) -> nat {
    if nanos > u128::MAX {
        u128::MAX as nat
    } else {
        nanos
    }
}

/// The time that stands in an accumulator seeded with `seed` once `samples`
/// have been added to it one after the other, each as `add_sample` adds it.
pub open spec fn accumulated(seed: nat, samples: Seq<nat>) -> nat
    decreases samples.len(),
{
    if samples.len() == 0 {
        seed
    } else {
        capped(accumulated(seed, samples.drop_last()) + samples.last())
    }
}

/// Calls `Instant::now`. Each call reads the clock, so nothing is stated of
/// the result.
#[verifier::external_body]
pub(crate) fn clock_now() -> Instant {
    Instant::now()
}

/// Calls `Instant::elapsed` and hands the duration on in nanoseconds. The
/// call reads the clock, so nothing is stated of the result.
#[verifier::external_body]
pub(crate) fn nanos_since(start: &Instant) -> u128 {
    start.elapsed().as_nanos()
}

/// Adds one sample to the time accumulated so far. The sum stays at the
/// greatest `u128` once it has reached it.
pub fn add_sample(elapsed: u128, sample: u128) -> (total: u128)
    ensures
        total == capped(elapsed as nat + sample as nat),
        total == accumulated(elapsed as nat, seq![sample as nat]),
        total >= elapsed,
        total >= sample,
{
    proof {
        let one = seq![sample as nat];
        assert(one.drop_last() == Seq::<nat>::empty());
        assert(accumulated(elapsed as nat, one.drop_last()) == elapsed);
    }
    elapsed.saturating_add(sample)
}

/// Samples added one after the other come to the seed plus their sum, as
/// far as a `u128` holds it, and never to less than the seed.
pub proof fn lemma_accumulated_is_seed_plus_sum(seed: nat, samples: Seq<nat>)
    requires
        seed <= u128::MAX,
    ensures
        accumulated(seed, samples) == capped(seed + total_of(samples)),
        seed <= accumulated(seed, samples) <= u128::MAX,
    decreases samples.len(),
{
    if samples.len() > 0 {
        lemma_accumulated_is_seed_plus_sum(seed, samples.drop_last());
    }
}

/// Handing an accumulator on is adding up in one go: what `back` gives on
/// top of what `front` gave on `seed` is what all the samples give on
/// `seed`.
pub proof fn lemma_accumulated_threads(seed: nat, front: Seq<nat>, back: Seq<nat>)
    ensures
        accumulated(accumulated(seed, front), back) == accumulated(seed, front + back),
    decreases back.len(),
{
    if back.len() == 0 {
        assert(front + back == front);
    } else {
        lemma_accumulated_threads(seed, front, back.drop_last());
        assert((front + back).drop_last() == front + back.drop_last());
    }
}

} // verus!
