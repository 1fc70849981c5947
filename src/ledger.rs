//! The vesting ledger: its state, its queries and the release transition.
use crate::schedule::{lemma_vested_within, vested};
use vstd::prelude::*;

verus! {

/// A 32-byte account identity.
pub type AccountId = [u8; 32];

/// The all-zero identity, which can never be a beneficiary.
pub open spec fn is_null(a: AccountId) -> bool {
    forall|i: int| 0 <= i < 32 ==> a@[i] == 0
}

/// Timestamps are kept in milliseconds; durations are given in seconds.
pub const MILLIS_PER_SECOND: u64 = 1000;

/// What can go wrong in a call on the ledger.
#[derive(Debug, Clone, Copy, PartialEq, Eq, Structural)]
pub enum Error {
    /// The beneficiary given at construction is the all-zero identity.
    InvalidBenificiary,
    /// Nothing has vested beyond what was already released.
    ZeroReleasbleBalance,
    /// The vesting window does not fit in the timestamp range.
    ArithmeticOverflow,
    /// The custody did not carry out the transfer to the beneficiary.
    TransferFailed,
}

/// The notification of one successful release.
#[derive(Debug, Clone, Copy, PartialEq, Eq)]
pub struct Released {
    pub value: u128,
    pub to: AccountId,
}

/// The ledger's state as mathematics.
pub struct LedgerModel {
    pub start_time: int,
    pub duration_time: int,
    pub released: int,
    pub beneficiary: AccountId,
    pub owner: AccountId,
}

impl LedgerModel {
    /// The vesting window ends inside the timestamp range, and the
    /// beneficiary is a real identity.
    pub open spec fn wf(self) -> bool {
        &&& 0 <= self.start_time
        &&& 0 <= self.duration_time
        &&& self.start_time + self.duration_time <= u64::MAX
        &&& 0 <= self.released <= u128::MAX
        &&& !is_null(self.beneficiary)
    }

    pub open spec fn end_time(self) -> int {
        self.start_time + self.duration_time
    }

    pub open spec fn time_remaining(self, now: int) -> int {
        if now < self.end_time() {
            self.end_time() - now
        } else {
            0
        }
    }

    /// How much of `total` has unlocked at `t` under this schedule.
    pub open spec fn vested(self, total: int, t: int) -> int {
        vested(total, self.start_time, self.duration_time, t)
    }

    /// Whether prorating `total` at `t` stays inside the balance range:
    /// inside the vesting window the product of the allocation and the
    /// elapsed time must fit in a `u128`.
    pub open spec fn schedule_fits(self, total: int, t: int) -> bool {
        self.start_time <= t < self.end_time() ==> total * (t - self.start_time) <= u128::MAX
    }

    /// What has vested and not been released yet; nothing where the released
    /// total already covers what has vested (as after a transfer has lowered
    /// the held balance that serves as the allocation).
    pub open spec fn releasable(self, total: int, t: int) -> int {
        if self.vested(total, t) > self.released {
            self.vested(total, t) - self.released
        } else {
            0
        }
    }

    /// The ledger after everything vested at `t` has been released.
    pub open spec fn after_release(self, total: int, t: int) -> LedgerModel {
        LedgerModel { released: self.vested(total, t), ..self }
    }
}

/// A linear vesting schedule for one beneficiary, with the running total of
/// what has been paid out.
#[derive(Debug, Clone, Copy, PartialEq, Eq)]
pub struct VestingContract {
    released_balance: u128,
    duration_time: u64,
    start_time: u64,
    benificiary: AccountId,
    owner: AccountId,
}

impl View for VestingContract {
    type V = LedgerModel;

    closed spec fn view(&self) -> LedgerModel {
        LedgerModel {
            start_time: self.start_time as int,
            duration_time: self.duration_time as int,
            released: self.released_balance as int,
            beneficiary: self.benificiary,
            owner: self.owner,
        }
    }
}

/// Whether every byte of `a` is zero.
fn is_null_account(a: &AccountId) -> (r: bool)
    ensures
        r == is_null(*a),
{
    let mut i: usize = 0;
    while i < 32
        invariant
            0 <= i <= 32,
            forall|j: int| 0 <= j < i ==> a@[j] == 0,
        decreases 32 - i,
    {
        if a[i] != 0 {
            return false;
        }
        i = i + 1;
    }
    true
}

/// Relies on ink::env::block_timestamp, which reads the host's clock in
/// milliseconds; nothing is known of the value.
#[verifier::external_body]
fn block_timestamp() -> (r: u64) {
    ink::env::block_timestamp::<ink::env::DefaultEnvironment>()
}

impl VestingContract {
    /// The state a constructor establishes and every operation keeps.
    pub open spec fn wf(&self) -> bool {
        self@.wf()
    }

    /// The current block timestamp, in milliseconds.
    pub fn time_now(&self) -> (r: u64) {
        block_timestamp()
    }

    /// A ledger that starts at `now`, runs for `duration_time_in_sec`
    /// seconds and pays out to `benificiary`; `caller` is recorded as its
    /// owner.
    pub fn new_at(
        benificiary: AccountId,
        duration_time_in_sec: u64,
        caller: AccountId,
        now: u64,
    ) -> (r: Result<Self, Error>)
        requires
            duration_time_in_sec * 1000 <= u64::MAX,
        ensures
            is_null(benificiary) ==> r == Err::<Self, Error>(Error::InvalidBenificiary),
            !is_null(benificiary) && now + duration_time_in_sec * 1000 > u64::MAX ==> r == Err::<
                Self,
                Error,
            >(Error::ArithmeticOverflow),
            !is_null(benificiary) && now + duration_time_in_sec * 1000 <= u64::MAX ==> r is Ok,
            r matches Ok(c) ==> c.wf() && c@ == (LedgerModel {
                start_time: now as int,
                duration_time: duration_time_in_sec * 1000,
                released: 0,
                beneficiary: benificiary,
                owner: caller,
            }),
    {
        if is_null_account(&benificiary) {
            return Err(Error::InvalidBenificiary);
        }
        let duration_time = duration_time_in_sec * MILLIS_PER_SECOND;
        if now.checked_add(duration_time).is_none() {
            return Err(Error::ArithmeticOverflow);
        }
        Ok(VestingContract {
            released_balance: 0,
            duration_time,
            start_time: now,
            benificiary,
            owner: caller,
        })
    }

    /// A ledger that starts at the current block timestamp; see `new_at`.
    /// It fails with `ArithmeticOverflow` only where the window would end
    /// past the timestamp range, which depends on the clock.
    pub fn new(benificiary: AccountId, duration_time_in_sec: u64, caller: AccountId) -> (r: Result<
        Self,
        Error,
    >)
        requires
            duration_time_in_sec * 1000 <= u64::MAX,
        ensures
            is_null(benificiary) ==> r == Err::<Self, Error>(Error::InvalidBenificiary),
            !is_null(benificiary) ==> r != Err::<Self, Error>(Error::InvalidBenificiary),
            !is_null(benificiary) && duration_time_in_sec == 0 ==> r is Ok,
            r matches Ok(c) ==> c.wf() && c@.duration_time == duration_time_in_sec * 1000
                && c@.released == 0 && c@.beneficiary == benificiary && c@.owner == caller,
            r matches Err(e) ==> e == Error::InvalidBenificiary || e == Error::ArithmeticOverflow,
    {
        let now = block_timestamp();
        Self::new_at(benificiary, duration_time_in_sec, caller, now)
    }

    /// The ledger with the given state, if that state is well formed.
    pub fn from_parts(
        start_time: u64,
        duration_time: u64,
        released_balance: u128,
        benificiary: AccountId,
        owner: AccountId,
    ) -> (r: Option<Self>)
        ensures
            (r is Some) <==> start_time + duration_time <= u64::MAX && !is_null(benificiary),
            r matches Some(c) ==> c@ == (LedgerModel {
                start_time: start_time as int,
                duration_time: duration_time as int,
                released: released_balance as int,
                beneficiary: benificiary,
                owner,
            }),
    {
        if is_null_account(&benificiary) || start_time.checked_add(duration_time).is_none() {
            None
        } else {
            Some(VestingContract { released_balance, duration_time, start_time, benificiary, owner })
        }
    }

    pub fn benificiary(&self) -> (r: AccountId)
        ensures
            r == self@.beneficiary,
    {
        self.benificiary
    }

    pub fn owner(&self) -> (r: AccountId)
        ensures
            r == self@.owner,
    {
        self.owner
    }

    /// When vesting starts, in milliseconds.
    pub fn start_time(&self) -> (r: u64)
        ensures
            r == self@.start_time,
    {
        self.start_time
    }

    /// How long vesting runs, in milliseconds.
    pub fn duration_time(&self) -> (r: u64)
        ensures
            r == self@.duration_time,
    {
        self.duration_time
    }

    /// What has been paid out so far.
    pub fn released_balance(&self) -> (r: u128)
        ensures
            r == self@.released,
    {
        self.released_balance
    }
    /// When vesting ends: `start_time + duration_time`.
    pub fn end_time(&self) -> (r: u64)
        requires
            self.wf(),
        ensures
            r == self@.end_time(),
    {
        self.start_time + self.duration_time
    }

    /// The time left until vesting ends at `now`, zero once it has ended.
    pub fn time_remaining(&self, now: u64) -> (r: u64)
        requires
            self.wf(),
        ensures
            r == self@.time_remaining(now as int),
    {
        let end = self.end_time();
        if now < end {
            end - now
        } else {
            0
        }
    }

    /// How much of `total_allocation` has unlocked at `current_time`.
    /// Inside the vesting window the allocation times the elapsed time must
    /// fit in a `u128`.
    pub fn vesting_schedule(&self, total_allocation: u128, current_time: u64) -> (r: u128)
        requires
            self.wf(),
            self@.schedule_fits(total_allocation as int, current_time as int),
        ensures
            r == self@.vested(total_allocation as int, current_time as int),
    {
        if current_time < self.start_time {
            0
        } else if current_time >= self.end_time() {
            total_allocation
        } else {
            let elapsed = (current_time - self.start_time) as u128;
            total_allocation * elapsed / (self.duration_time as u128)
        }
    }

    /// What has unlocked at `now`, the held balance `contract_balance` being
    /// the allocation.
    ///
    /// The allocation is whatever the custody holds at the time of the call,
    /// not a sum fixed at construction: a deposit made after the start vests
    /// as if it had been there from the start.
    pub fn vested_amount(&self, contract_balance: u128, now: u64) -> (r: u128)
        requires
            self.wf(),
            self@.schedule_fits(contract_balance as int, now as int),
        ensures
            r == self@.vested(contract_balance as int, now as int),
    {
        self.vesting_schedule(contract_balance, now)
    }

    /// What has unlocked at `now` and has not been paid out yet. A released
    /// total beyond what has vested is a broken ledger, excluded here.
    pub fn releasable_balance(&self, contract_balance: u128, now: u64) -> (r: u128)
        requires
            self.wf(),
            self@.schedule_fits(contract_balance as int, now as int),
            self@.released <= self@.vested(contract_balance as int, now as int),
        ensures
            r == self@.releasable(contract_balance as int, now as int),
            r == self@.vested(contract_balance as int, now as int) - self@.released,
    {
        self.vested_amount(contract_balance, now) - self.released_balance
    }

    /// Books everything releasable at `now` as paid out to the beneficiary
    /// and returns the transfer to make. With nothing releasable, which
    /// includes a released total that already covers what has vested on the
    /// current balance, the ledger stays as it was.
    pub fn release(&mut self, contract_balance: u128, now: u64) -> (r: Result<Released, Error>)
        requires
            old(self).wf(),
            old(self)@.schedule_fits(contract_balance as int, now as int),
        ensures
            final(self).wf(),
            (r is Err) <==> old(self)@.releasable(contract_balance as int, now as int) == 0,
            r matches Err(e) ==> e == Error::ZeroReleasbleBalance && *final(self) == *old(self),
            r matches Ok(ev) ==> {
                &&& ev.value == old(self)@.releasable(contract_balance as int, now as int)
                &&& ev.to == old(self)@.beneficiary
                &&& final(self)@ == old(self)@.after_release(contract_balance as int, now as int)
                &&& final(self)@.released == old(self)@.released + ev.value
            },
    {
        let vested_now = self.vested_amount(contract_balance, now);
        if vested_now <= self.released_balance {
            return Err(Error::ZeroReleasbleBalance);
        }
        let releasable = vested_now - self.released_balance;
        self.released_balance = vested_now;
        Ok(Released { value: releasable, to: self.benificiary })
    }

    /// Settles a release once the custody has answered the transfer of `ev`:
    /// a completed transfer keeps the booking; a failed one restores the
    /// ledger as it stood `before` the release and reports the failure.
    pub fn settle_release(&mut self, before: VestingContract, ev: Released, transferred: bool) -> (r:
        Result<Released, Error>)
        ensures
            transferred ==> r == Ok::<Released, Error>(ev) && *final(self) == *old(self),
            !transferred ==> r == Err::<Released, Error>(Error::TransferFailed) && *final(self)
                == before,
    {
        if transferred {
            Ok(ev)
        } else {
            *self = before;
            Err(Error::TransferFailed)
        }
    }
}

} // verus!
