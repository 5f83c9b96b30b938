//! Linear release with a cliff, shared by the vesting contracts.

use vstd::prelude::*;

verus! {

/// Seconds from `start` to `t`, or zero when `t` is earlier.
pub open spec fn elapsed_since(start: u64, t: u64) -> int {
    if t >= start { t - start } else { 0 }
}

/// Of `total` tokens released linearly over `duration` seconds with a cliff
/// of `cliff` seconds, the amount released after `elapsed` seconds: nothing
/// before the cliff, everything from `duration` on, and the proportional
/// share, rounded down, in between.
pub open spec fn linear_release(total: int, cliff: int, duration: int, elapsed: int) -> int {
    if elapsed < cliff {
        0
    } else if elapsed >= duration {
        total
    } else {
        total * elapsed / duration
    }
}

/// Whether computing the release after `elapsed` seconds stays within `i128`.
pub open spec fn release_fits(total: int, cliff: int, duration: int, elapsed: int) -> bool {
    elapsed < cliff || elapsed >= duration || i128::MIN <= total * elapsed <= i128::MAX
}

/// Whether the terms of a schedule are acceptable: a positive amount, a
/// positive duration, and a cliff no longer than the duration.
pub open spec fn valid_terms(total: int, cliff: int, duration: int) -> bool {
    total > 0 && duration > 0 && cliff <= duration
}

/// Computes `linear_release` for a schedule with valid terms.
pub fn release_after(total: i128, cliff: u64, duration: u64, elapsed: u64) -> (r: i128)
    requires
        valid_terms(total as int, cliff as int, duration as int),
        release_fits(total as int, cliff as int, duration as int, elapsed as int),
    ensures
        r == linear_release(total as int, cliff as int, duration as int, elapsed as int),
{
    if elapsed < cliff {
        return 0;
    }
    if elapsed >= duration {
        return total;
    }
    proof {
        assert(total * elapsed >= 0) by (nonlinear_arith)
            requires total > 0;
    }
    (total * elapsed as i128) / duration as i128
}

/// Whether computing the release after `elapsed` seconds stays within
/// `i128`, as `release_fits` states.
pub fn release_computable(total: i128, cliff: u64, duration: u64, elapsed: u64) -> (r: bool)
    ensures
        r == release_fits(total as int, cliff as int, duration as int, elapsed as int),
{
    if elapsed < cliff || elapsed >= duration {
        return true;
    }
    total.checked_mul(elapsed as i128).is_some()
}

/// Whether the terms of a schedule are acceptable, as `valid_terms` states.
pub fn terms_valid(total: i128, cliff: u64, duration: u64) -> (r: bool)
    ensures
        r == valid_terms(total as int, cliff as int, duration as int),
{
    total > 0 && duration > 0 && cliff <= duration
}

/// The release never exceeds the total and is never negative.
pub proof fn lemma_release_bounded(total: int, cliff: int, duration: int, elapsed: int)
    requires
        valid_terms(total, cliff, duration),
        elapsed >= 0,
    ensures
        0 <= linear_release(total, cliff, duration, elapsed) <= total,
{
    if cliff <= elapsed < duration {
        assert(total * elapsed / duration <= total) by (nonlinear_arith)
            requires total > 0, 0 <= elapsed < duration;
        assert(total * elapsed / duration >= 0) by (nonlinear_arith)
            requires total > 0, 0 <= elapsed, duration > 0;
    }
}

/// The release never decreases as time passes.
pub proof fn lemma_release_monotone(total: int, cliff: int, duration: int, e1: int, e2: int)
    requires
        valid_terms(total, cliff, duration),
        0 <= e1 <= e2,
    ensures
        linear_release(total, cliff, duration, e1) <= linear_release(total, cliff, duration, e2),
{
    lemma_release_bounded(total, cliff, duration, e1);
    lemma_release_bounded(total, cliff, duration, e2);
    if cliff <= e1 && e2 < duration {
        assert(total * e1 / duration <= total * e2 / duration) by (nonlinear_arith)
            requires total > 0, 0 <= e1 <= e2, duration > 0;
    }
}

/// Once the duration has passed everything is released.
pub proof fn lemma_release_complete(total: int, cliff: int, duration: int, elapsed: int)
    requires
        valid_terms(total, cliff, duration),
        elapsed >= duration,
    ensures
        linear_release(total, cliff, duration, elapsed) == total,
{
}

/// The release is the proportional share rounded down: nothing before the
/// cliff, the whole total from the end of the duration on, and in between
/// the largest amount `a` with `a * duration <= total * elapsed`.
pub proof fn law_release_is_rounded_share(total: int, cliff: int, duration: int, elapsed: int)
    requires
        valid_terms(total, cliff, duration),
        elapsed >= 0,
    ensures
        elapsed < cliff ==> linear_release(total, cliff, duration, elapsed) == 0,
        elapsed >= duration ==> linear_release(total, cliff, duration, elapsed) == total,
        cliff <= elapsed < duration ==> {
            let a = linear_release(total, cliff, duration, elapsed);
            &&& a * duration <= total * elapsed
            &&& total * elapsed < (a + 1) * duration
        },
{
    if cliff <= elapsed < duration {
        let a = total * elapsed / duration;
        assert(a * duration <= total * elapsed && total * elapsed < (a + 1) * duration) by (nonlinear_arith)
            requires a == total * elapsed / duration, duration > 0;
    }
}

} // verus!
