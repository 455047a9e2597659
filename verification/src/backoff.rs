//! The retry schedule: each delay is twice the one before, up to a cap.

use crate::delay::{duration_nanos, from_parts, nanos_of, NANOS_PER_SEC};
use std::time::Duration;
use vstd::arithmetic::power2::{lemma2_to64, lemma_pow2_unfold, pow2};
use vstd::prelude::*;

verus! {

/// Twice `delay`, but no more than `max`.
pub open spec fn doubled_capped(delay: nat, max: nat) -> nat {
    if 2 * delay <= max {
        2 * delay
    } else {
        max
    }
}

/// The delay that follows `delay` in the retry schedule: doubled, and capped
/// at `max`. No length overflows on the way.
pub fn next_delay(delay: Duration, max: Duration) -> (next: Duration)
    ensures
        duration_nanos(next) == doubled_capped(duration_nanos(delay), duration_nanos(max)),
{
    let d: u128 = nanos_of(&delay);
    let m: u128 = nanos_of(&max);
    if d >= m || d >= m - d {
        return max;
    }
    let doubled: u128 = d + d;
    let secs: u128 = doubled / (NANOS_PER_SEC as u128);
    let rest: u128 = doubled % (NANOS_PER_SEC as u128);
    from_parts(secs as u64, rest as u32)
}

/// The delay slept after the failure numbered `k`, counted from zero, in a
/// schedule that starts at `initial` and is capped at `max`.
pub open spec fn backoff_delay(initial: nat, max: nat, k: nat) -> nat
    decreases k,
{
    if k == 0 {
        initial
    } else {
        doubled_capped(backoff_delay(initial, max, (k - 1) as nat), max)
    }
}

/// A schedule that starts within the cap stays within it.
pub proof fn lemma_backoff_within_cap(initial: nat, max: nat, k: nat)
    requires
        initial <= max,
    ensures
        backoff_delay(initial, max, k) <= max,
    decreases k,
{
    if k > 0 {
        lemma_backoff_within_cap(initial, max, (k - 1) as nat);
    }
}

/// A schedule that starts within the cap never shrinks: a later delay is at
/// least as long as an earlier one.
pub proof fn lemma_backoff_non_decreasing(initial: nat, max: nat, i: nat, j: nat)
    requires
        initial <= max,
        i <= j,
    ensures
        backoff_delay(initial, max, i) <= backoff_delay(initial, max, j),
    decreases j,
{
    if i < j {
        lemma_backoff_non_decreasing(initial, max, i, (j - 1) as nat);
        lemma_backoff_within_cap(initial, max, (j - 1) as nat);
    }
}

/// Below the cap a schedule with a positive start grows strictly.
pub proof fn lemma_backoff_grows_below_cap(initial: nat, max: nat, k: nat)
    requires
        0 < initial <= max,
        backoff_delay(initial, max, k) < max,
    ensures
        backoff_delay(initial, max, k) < backoff_delay(initial, max, k + 1),
{
    lemma_backoff_non_decreasing(initial, max, 0, k);
}

/// Once a schedule has reached the cap it stays there.
pub proof fn lemma_backoff_stays_capped(initial: nat, max: nat, i: nat, j: nat)
    requires
        initial <= max,
        i <= j,
        backoff_delay(initial, max, i) == max,
    ensures
        backoff_delay(initial, max, j) == max,
{
    lemma_backoff_non_decreasing(initial, max, i, j);
    lemma_backoff_within_cap(initial, max, j);
}

/// The schedule in closed form: the start doubled `k` times, or the cap where
/// that is less.
pub proof fn lemma_backoff_closed_form(initial: nat, max: nat, k: nat)
    requires
        initial <= max,
    ensures
        backoff_delay(initial, max, k) == if initial * pow2(k) <= max {
            initial * pow2(k)
        } else {
            max
        },
    decreases k,
{
    if k == 0 {
        lemma2_to64();
    } else {
        let j = (k - 1) as nat;
        lemma_backoff_closed_form(initial, max, j);
        lemma_pow2_unfold(k);
        assert(initial * pow2(k) == 2 * (initial * pow2(j))) by (nonlinear_arith)
            requires
                pow2(k) == 2 * pow2(j),
        ;
        assert(initial * pow2(j) <= initial * pow2(k)) by (nonlinear_arith)
            requires
                pow2(k) == 2 * pow2(j),
        ;
    }
}

} // verus!
