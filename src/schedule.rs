//! The linear schedule: how much of an allocation has unlocked at a time.
use vstd::arithmetic::div_mod::{lemma_div_is_ordered, lemma_div_multiples_vanish};
use vstd::arithmetic::mul::lemma_mul_inequality;
use vstd::prelude::*;

verus! {

/// The amount of `total` unlocked at time `t` by a schedule that starts at
/// `start` and runs for `duration`: nothing before the start, everything from
/// the end on, and in between the share `elapsed / duration`, rounded down.
pub open spec fn vested(total: int, start: int, duration: int, t: int) -> int {
    if t < start {
        0
    } else if t >= start + duration {
        total
    } else {
        total * (t - start) / duration
    }
}

/// Inside the window the prorated share lies between zero and the total.
pub proof fn lemma_share_bounded(total: int, elapsed: int, duration: int)
    requires
        0 <= total,
        0 <= elapsed <= duration,
        0 < duration,
    ensures
        0 <= total * elapsed / duration <= total,
{
    lemma_mul_inequality(elapsed, duration, total);
    assert(total * elapsed <= total * duration) by (nonlinear_arith)
        requires
            elapsed <= duration,
            0 <= total,
    ;
    assert(0 <= total * elapsed) by (nonlinear_arith)
        requires
            0 <= elapsed,
            0 <= total,
    ;
    lemma_div_is_ordered(total * elapsed, total * duration, duration);
    lemma_div_multiples_vanish(total, duration);
    assert(total * duration == duration * total) by (nonlinear_arith);
    lemma_div_is_ordered(0, total * elapsed, duration);
}

/// What has vested is never negative and never more than the total.
pub proof fn lemma_vested_within(total: int, start: int, duration: int, t: int)
    requires
        0 <= total,
        0 <= duration,
    ensures
        0 <= vested(total, start, duration, t) <= total,
{
    if start <= t < start + duration {
        lemma_share_bounded(total, t - start, duration);
    }
}

/// The prorated share grows with the elapsed time.
pub proof fn lemma_share_monotone(total: int, e1: int, e2: int, duration: int)
    requires
        0 <= total,
        0 <= e1 <= e2,
        0 < duration,
    ensures
        total * e1 / duration <= total * e2 / duration,
{
    assert(total * e1 <= total * e2) by (nonlinear_arith)
        requires
            e1 <= e2,
            0 <= total,
    ;
    lemma_div_is_ordered(total * e1, total * e2, duration);
}

/// For a fixed time, what has vested grows with the allocation.
pub proof fn lemma_vested_monotone_in_total(
    total1: int,
    total2: int,
    start: int,
    duration: int,
    t: int,
)
    requires
        0 <= total1 <= total2,
        0 <= duration,
    ensures
        vested(total1, start, duration, t) <= vested(total2, start, duration, t),
{
    if start <= t < start + duration {
        let e = t - start;
        assert(total1 * e <= total2 * e) by (nonlinear_arith)
            requires
                total1 <= total2,
                0 <= e,
        ;
        lemma_div_is_ordered(total1 * e, total2 * e, duration);
    }
}

} // verus!
