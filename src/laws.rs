//! What holds of the schedule and of release across all inputs.
use crate::ledger::VestingContract;
use crate::schedule::{lemma_share_monotone, lemma_vested_monotone_in_total, lemma_vested_within};
use vstd::prelude::*;

verus! {

/// Before the start time nothing has vested, whatever the allocation.
pub proof fn lemma_nothing_before_start(c: VestingContract, total_allocation: u128, at_time: u64)
    requires
        c.wf(),
        (at_time as int) < c@.start_time,
    ensures
        c@.vested(total_allocation as int, at_time as int) == 0,
{
}

/// From the end time on the whole allocation has vested.
pub proof fn lemma_everything_after_end(c: VestingContract, total_allocation: u128, at_time: u64)
    requires
        c.wf(),
        at_time >= c@.start_time + c@.duration_time,
    ensures
        c@.vested(total_allocation as int, at_time as int) == total_allocation,
{
}

/// For a fixed allocation, what has vested never decreases as time goes on.
pub proof fn lemma_vesting_monotone(
    c: VestingContract,
    total_allocation: u128,
    at_time1: u64,
    at_time2: u64,
)
    requires
        c.wf(),
        at_time1 <= at_time2,
    ensures
        c@.vested(total_allocation as int, at_time1 as int) <= c@.vested(
            total_allocation as int,
            at_time2 as int,
        ),
{
    let m = c@;
    let total = total_allocation as int;
    let (t1, t2) = (at_time1 as int, at_time2 as int);
    lemma_vested_within(total, m.start_time, m.duration_time, t1);
    lemma_vested_within(total, m.start_time, m.duration_time, t2);
    if m.start_time <= t1 && t2 < m.end_time() {
        lemma_share_monotone(total, t1 - m.start_time, t2 - m.start_time, m.duration_time);
    }
}

/// At any fixed time, a larger allocation has vested at least as much as a
/// smaller one.
pub proof fn lemma_vesting_monotone_in_allocation(
    c: VestingContract,
    total1: u128,
    total2: u128,
    at_time: u64,
)
    requires
        c.wf(),
        total1 <= total2,
    ensures
        c@.vested(total1 as int, at_time as int) <= c@.vested(total2 as int, at_time as int),
{
    lemma_vested_monotone_in_total(
        total1 as int,
        total2 as int,
        c@.start_time,
        c@.duration_time,
        at_time as int,
    );
}

/// Once `release` has booked what was releasable at a time and a balance,
/// nothing is releasable at that same time on that balance less any part of
/// it paid out since (in particular less the amount just transferred, with
/// no deposit in between), and `release` may be called there again: by its
/// contract that second call fails with `ZeroReleasbleBalance` and leaves
/// the ledger unchanged.
pub proof fn lemma_release_leaves_nothing(
    c: VestingContract,
    contract_balance: u128,
    now: u64,
    paid_out: u128,
)
    requires
        c.wf(),
        c@.schedule_fits(contract_balance as int, now as int),
        c@.releasable(contract_balance as int, now as int) > 0,
        paid_out <= contract_balance,
    ensures
        ({
            let after = c@.after_release(contract_balance as int, now as int);
            let left = contract_balance - paid_out;
            &&& after.wf()
            &&& after.schedule_fits(left, now as int)
            &&& after.releasable(left, now as int) == 0
        }),
{
    let (b, t) = (contract_balance as int, now as int);
    let left = b - paid_out;
    lemma_vested_within(b, c@.start_time, c@.duration_time, t);
    lemma_vested_monotone_in_total(left, b, c@.start_time, c@.duration_time, t);
    if c@.start_time <= t < c@.end_time() {
        let e = t - c@.start_time;
        assert(left * e <= b * e) by (nonlinear_arith)
            requires
                0 <= left <= b,
                0 <= e,
        ;
    }
}

} // verus!
