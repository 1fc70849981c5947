use vesting::{Error, Released, VestingContract};

const BEN: [u8; 32] = [7u8; 32];
const OWNER: [u8; 32] = [9u8; 32];
const START: u64 = 1_000;

fn ledger(duration_sec: u64) -> VestingContract {
    VestingContract::new_at(BEN, duration_sec, OWNER, START).unwrap()
}

#[test]
fn constructor_records_state() {
    let c = ledger(200);
    assert_eq!(c.benificiary(), BEN);
    assert_eq!(c.owner(), OWNER);
    assert_eq!(c.start_time(), START);
    assert_eq!(c.duration_time(), 200_000);
    assert_eq!(c.end_time(), START + 200_000);
    assert_eq!(c.released_balance(), 0);
}

#[test]
fn null_beneficiary_is_rejected() {
    assert_eq!(
        VestingContract::new_at([0u8; 32], 200, OWNER, START),
        Err(Error::InvalidBenificiary)
    );
    assert_eq!(VestingContract::new([0u8; 32], 200, OWNER), Err(Error::InvalidBenificiary));
}

#[test]
fn beneficiary_with_one_nonzero_byte_is_accepted() {
    let mut b = [0u8; 32];
    b[31] = 1;
    assert!(VestingContract::new_at(b, 200, OWNER, START).is_ok());
}

#[test]
fn constructor_reads_the_clock() {
    let c = VestingContract::new(BEN, 200, OWNER).unwrap();
    assert_eq!(c.duration_time(), 200_000);
    assert_eq!(c.released_balance(), 0);
}

#[test]
fn end_time_overflow_is_rejected() {
    assert_eq!(
        VestingContract::new_at(BEN, 10, OWNER, u64::MAX - 9_999),
        Err(Error::ArithmeticOverflow)
    );
    assert!(VestingContract::new_at(BEN, 10, OWNER, u64::MAX - 10_000).is_ok());
}

#[test]
fn zero_duration_is_accepted_and_vests_at_start() {
    let c = ledger(0);
    assert_eq!(c.end_time(), START);
    assert_eq!(c.vesting_schedule(1000, START - 1), 0);
    assert_eq!(c.vesting_schedule(1000, START), 1000);
}

#[test]
fn schedule_at_half_time() {
    let c = ledger(200);
    assert_eq!(c.vesting_schedule(1000, START + 100_000), 500);
    assert_eq!(c.vesting_schedule(1000, START), 0);
    assert_eq!(c.vesting_schedule(1000, START + 200_000), 1000);
    assert_eq!(c.vesting_schedule(1000, START + 900_000), 1000);
}

#[test]
fn schedule_before_start_is_zero() {
    let c = ledger(200);
    assert_eq!(c.vesting_schedule(1000, 0), 0);
    assert_eq!(c.vesting_schedule(u128::MAX, START - 1), 0);
}

#[test]
fn schedule_rounds_down() {
    let c = ledger(3);
    // 10 * 1000 / 3000 = 3.33..
    assert_eq!(c.vesting_schedule(10, START + 1_000), 3);
    // 10 * 2999 / 3000 = 9.99..
    assert_eq!(c.vesting_schedule(10, START + 2_999), 9);
}

#[test]
fn schedule_is_monotone_in_time() {
    let c = ledger(200);
    let mut last = 0u128;
    let mut t = 0u64;
    while t <= START + 250_000 {
        let v = c.vesting_schedule(12_345, t);
        assert!(v >= last);
        last = v;
        t += 997;
    }
    assert_eq!(last, 12_345);
}

#[test]
fn schedule_with_the_largest_allocation() {
    let c = ledger(200);
    // The largest allocation whose product with the elapsed time still fits.
    let largest = u128::MAX / 100_000;
    assert_eq!(c.vesting_schedule(largest, START + 100_000), largest / 2);
    assert_eq!(c.vesting_schedule(u128::MAX, START + 200_000), u128::MAX);
    assert_eq!(c.vesting_schedule(u128::MAX, START - 1), 0);
}

#[test]
fn time_remaining_counts_down_to_zero() {
    let c = ledger(200);
    assert_eq!(c.time_remaining(0), START + 200_000);
    assert_eq!(c.time_remaining(START + 150_000), 50_000);
    assert_eq!(c.time_remaining(START + 200_000), 0);
    assert_eq!(c.time_remaining(u64::MAX), 0);
}

#[test]
fn vested_and_releasable_amounts() {
    let c = ledger(200);
    assert_eq!(c.vested_amount(1000, START + 50_000), 250);
    assert_eq!(c.releasable_balance(1000, START + 50_000), 250);
}

#[test]
fn release_then_release_again() {
    let mut c = ledger(200);
    let ev = c.release(1000, START + 100_000).unwrap();
    assert_eq!(ev, Released { value: 500, to: BEN });
    assert_eq!(c.released_balance(), 500);
    // The transfer has lowered the held balance to 500.
    let before = c;
    assert_eq!(c.release(500, START + 100_000), Err(Error::ZeroReleasbleBalance));
    assert_eq!(c, before);
    assert_eq!(c.released_balance(), 500);
    // At the old balance there is nothing left either.
    assert_eq!(c.release(1000, START + 100_000), Err(Error::ZeroReleasbleBalance));
    assert_eq!(c, before);
}

#[test]
fn release_resumes_as_time_passes_on_the_lowered_balance() {
    let mut c = ledger(200);
    c.release(1000, START + 100_000).unwrap();
    // Balance 500 after the transfer: 500 has vested only at the end.
    assert_eq!(c.release(500, START + 199_999), Err(Error::ZeroReleasbleBalance));
    assert_eq!(c.release(500, START + 200_000), Err(Error::ZeroReleasbleBalance));
    // A deposit raises the allocation.
    let ev = c.release(800, START + 200_000).unwrap();
    assert_eq!(ev.value, 300);
    assert_eq!(c.released_balance(), 800);
}

#[test]
fn release_with_nothing_vested_changes_nothing() {
    let mut c = ledger(200);
    let before = c;
    assert_eq!(c.release(1000, START), Err(Error::ZeroReleasbleBalance));
    assert_eq!(c, before);
    assert_eq!(c.release(0, START + 300_000), Err(Error::ZeroReleasbleBalance));
    assert_eq!(c, before);
}

#[test]
fn release_adds_the_releasable_amount() {
    let mut c = ledger(200);
    c.release(1000, START + 50_000).unwrap();
    assert_eq!(c.released_balance(), 250);
    let releasable = c.releasable_balance(1000, START + 150_000);
    assert_eq!(releasable, 500);
    let ev = c.release(1000, START + 150_000).unwrap();
    assert_eq!(ev.value, 500);
    assert_eq!(c.released_balance(), 750);
    let ev = c.release(1000, START + 400_000).unwrap();
    assert_eq!(ev.value, 250);
    assert_eq!(c.released_balance(), 1000);
}

#[test]
fn failed_transfer_rolls_back() {
    let mut c = ledger(200);
    let before = c;
    let ev = c.release(1000, START + 100_000).unwrap();
    assert_eq!(c.settle_release(before, ev, false), Err(Error::TransferFailed));
    assert_eq!(c, before);
    assert_eq!(c.released_balance(), 0);
}

#[test]
fn completed_transfer_keeps_the_booking() {
    let mut c = ledger(200);
    let before = c;
    let ev = c.release(1000, START + 100_000).unwrap();
    assert_eq!(c.settle_release(before, ev, true), Ok(ev));
    assert_eq!(c.released_balance(), 500);
}

#[test]
fn clock_reads_do_not_go_backwards() {
    let c = ledger(200);
    let t1 = c.time_now();
    let t2 = c.time_now();
    assert!(t2 >= t1);
}

#[test]
fn ledger_from_stored_parts() {
    let c = VestingContract::from_parts(START, 200_000, 300, BEN, OWNER).unwrap();
    assert_eq!(c.released_balance(), 300);
    assert_eq!(c.end_time(), START + 200_000);
    assert_eq!(c.releasable_balance(1000, START + 100_000), 200);
    assert!(VestingContract::from_parts(START, 200_000, 0, [0u8; 32], OWNER).is_none());
    assert!(VestingContract::from_parts(u64::MAX, 1, 0, BEN, OWNER).is_none());
}

#[test]
fn larger_allocation_vests_at_least_as_much() {
    let c = ledger(200);
    let t = START + 70_000;
    assert_eq!(c.vesting_schedule(1000, t), 350);
    assert_eq!(c.vesting_schedule(1001, t), 350);
    assert_eq!(c.vesting_schedule(2000, t), 700);
}
