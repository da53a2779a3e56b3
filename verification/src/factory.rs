//! Many independent vesting schedules in one contract, addressed by
//! sequential ids.
use vstd::prelude::*;
use crate::effects::{Outcome, Party, Payment, pay_out, payout, split_payments, split_payouts};
use crate::schedule::{elapsed_since, elapsed_seconds, linear_vested, product_fits, vested_amount, vesting_fits};
use crate::constants::error_codes;

verus! {

/// Storage keys of the factory contract.
#[derive(Clone, Copy, Debug, PartialEq, Eq, Structural)]
pub enum DataKey {
    /// Per-schedule configuration, keyed by schedule id.
    Schedule(u64),
    /// Amount paid out so far, keyed by schedule id.
    Claimed(u64),
    /// Number of schedules created.
    ScheduleCount,
    /// Vested amount recorded at cancellation, keyed by schedule id.
    VestedAtCancel(u64),
}

/// Errors of the factory contract.
#[derive(Clone, Copy, Debug, PartialEq, Eq, Structural)]
pub enum FactoryError {
    ScheduleNotFound,
    CliffNotReached,
    NothingToClaim,
    Cancelled,
    InvalidConfig,
}

/// The error code each factory error has on the ledger.
pub open spec fn factory_error_code(e: FactoryError) -> u32 {
    match e {
        FactoryError::ScheduleNotFound => 1,
        FactoryError::CliffNotReached => 3,
        FactoryError::NothingToClaim => 4,
        FactoryError::Cancelled => 5,
        FactoryError::InvalidConfig => 6,
    }
}

impl FactoryError {
    /// The error's code on the ledger.
    pub fn code(&self) -> (c: u32)
        ensures
            c == factory_error_code(*self),
    {
        match self {
            FactoryError::ScheduleNotFound => error_codes::factory::SCHEDULE_NOT_FOUND,
            FactoryError::CliffNotReached => error_codes::factory::CLIFF_NOT_REACHED,
            FactoryError::NothingToClaim => error_codes::factory::NOTHING_TO_CLAIM,
            FactoryError::Cancelled => error_codes::factory::CANCELLED,
            FactoryError::InvalidConfig => error_codes::factory::INVALID_CONFIG,
        }
    }
}

/// Configuration of one schedule. Accounts are held by their string keys.
#[derive(Clone, Debug, PartialEq, Eq)]
pub struct ScheduleConfig {
    pub token: String,
    pub beneficiary: String,
    pub admin: String,
    pub total_amount: i128,
    pub start_time: u64,
    pub cliff_seconds: u64,
    pub duration_seconds: u64,
    pub cancelled: bool,
}

/// Status snapshot of one schedule.
#[derive(Clone, Copy, Debug, PartialEq, Eq, Structural)]
pub struct VestingStatus {
    pub schedule_id: u64,
    pub total_amount: i128,
    pub claimed: i128,
    pub vested: i128,
    pub claimable: i128,
    pub cliff_reached: bool,
    pub fully_vested: bool,
    pub cancelled: bool,
}

/// Parameters accepted by `create_schedule`.
pub open spec fn valid_schedule(total_amount: int, cliff_seconds: int, duration_seconds: int) -> bool {
    total_amount > 0 && duration_seconds > 0 && cliff_seconds <= duration_seconds
}

impl ScheduleConfig {
    /// Tokens vested at `now`.
    pub open spec fn vested_at(self, now: u64) -> int {
        linear_vested(
            self.total_amount as int,
            elapsed_since(self.start_time, now),
            self.cliff_seconds as int,
            self.duration_seconds as int,
        )
    }

    /// Computing `vested_at(now)` stays within `i128` (cancelled schedules do
    /// not compute it).
    pub open spec fn fits_at(self, now: u64) -> bool {
        self.cancelled || product_fits(
            self.total_amount as int,
            elapsed_since(self.start_time, now),
            self.cliff_seconds as int,
            self.duration_seconds as int,
        )
    }
}

/// Tokens vested under `config` at `now`.
pub fn compute_vested(config: &ScheduleConfig, now: u64) -> (v: i128)
    requires
        product_fits(
            config.total_amount as int,
            elapsed_since(config.start_time, now),
            config.cliff_seconds as int,
            config.duration_seconds as int,
        ),
    ensures
        v == config.vested_at(now),
        config.total_amount >= 0 ==> 0 <= v <= config.total_amount,
{
    let elapsed = elapsed_seconds(config.start_time, now);
    vested_amount(config.total_amount, elapsed, config.cliff_seconds, config.duration_seconds)
}

/// One schedule with its bookkeeping: the amount paid out and the vested
/// amount recorded at cancellation.
#[derive(Clone, Debug, PartialEq, Eq)]
pub struct ScheduleRecord {
    pub config: ScheduleConfig,
    pub claimed: i128,
    pub vested_at_cancel: Option<i128>,
}

/// `x` when positive, else 0.
pub open spec fn positive_part(x: int) -> int {
    if x > 0 { x } else { 0 }
}

impl ScheduleRecord {
    /// The invariant every stored schedule keeps.
    pub open spec fn wf(self) -> bool {
        &&& valid_schedule(
            self.config.total_amount as int,
            self.config.cliff_seconds as int,
            self.config.duration_seconds as int,
        )
        &&& 0 <= self.claimed <= self.config.total_amount
        &&& (self.vested_at_cancel matches Some(v) ==> 0 <= v <= self.config.total_amount)
    }

    pub open spec fn fits(self, now: u64) -> bool {
        self.config.fits_at(now)
    }

    /// The record `create_schedule` stores, when the parameters are valid.
    pub open spec fn created(
        token: String,
        beneficiary: String,
        admin: String,
        total_amount: i128,
        cliff_seconds: u64,
        duration_seconds: u64,
        now: u64,
    ) -> Result<ScheduleRecord, FactoryError> {
        if valid_schedule(total_amount as int, cliff_seconds as int, duration_seconds as int) {
            Ok(
                ScheduleRecord {
                    config: ScheduleConfig {
                        token,
                        beneficiary,
                        admin,
                        total_amount,
                        start_time: now,
                        cliff_seconds,
                        duration_seconds,
                        cancelled: false,
                    },
                    claimed: 0,
                    vested_at_cancel: None,
                },
            )
        } else {
            Err(FactoryError::InvalidConfig)
        }
    }

    /// Record and result of `claim` at `now`.
    pub open spec fn claim_next(self, now: u64) -> (ScheduleRecord, Result<i128, FactoryError>) {
        let c = self.config;
        if c.cancelled {
            (self, Err(FactoryError::Cancelled))
        } else if elapsed_since(c.start_time, now) < c.cliff_seconds {
            (self, Err(FactoryError::CliffNotReached))
        } else if positive_part(c.vested_at(now) - self.claimed) == 0 {
            (self, Err(FactoryError::NothingToClaim))
        } else {
            let claimable = positive_part(c.vested_at(now) - self.claimed);
            (ScheduleRecord { claimed: (self.claimed + claimable) as i128, ..self }, Ok(claimable as i128))
        }
    }

    /// Record and result of `cancel` at `now`: the vested and unpaid amount
    /// goes to the beneficiary, the unvested amount to the admin.
    pub open spec fn cancel_next(self, now: u64) -> (ScheduleRecord, Result<(), FactoryError>) {
        let c = self.config;
        if c.cancelled {
            (self, Err(FactoryError::Cancelled))
        } else {
            let vested = c.vested_at(now);
            (
                ScheduleRecord {
                    config: ScheduleConfig { cancelled: true, ..c },
                    claimed: (self.claimed + positive_part(vested - self.claimed)) as i128,
                    vested_at_cancel: Some(vested as i128),
                },
                Ok(()),
            )
        }
    }

    /// The transfers of a cancellation at `now`.
    pub open spec fn cancel_payouts(self, now: u64) -> Seq<Payment> {
        let c = self.config;
        let vested = c.vested_at(now);
        split_payouts(
            c.beneficiary,
            positive_part(vested - self.claimed),
            c.admin,
            positive_part(c.total_amount - vested),
        )
    }

    /// What `get_status` reports for this schedule, as schedule `id`, at `now`.
    pub open spec fn status_at(self, id: u64, now: u64) -> VestingStatus {
        let c = self.config;
        let vested: int = if c.cancelled {
            match self.vested_at_cancel {
                Some(v) => v as int,
                None => 0,
            }
        } else {
            c.vested_at(now)
        };
        let cliff_reached = elapsed_since(c.start_time, now) >= c.cliff_seconds;
        VestingStatus {
            schedule_id: id,
            total_amount: c.total_amount,
            claimed: self.claimed,
            vested: vested as i128,
            claimable: (if !c.cancelled && cliff_reached { positive_part(vested - self.claimed) } else { 0 }) as i128,
            cliff_reached,
            fully_vested: vested >= c.total_amount,
            cancelled: c.cancelled,
        }
    }

    /// Whether the stored record satisfies the invariant.
    pub fn well_formed(&self) -> (b: bool)
        ensures
            b == self.wf(),
    {
        let c = &self.config;
        c.total_amount > 0 && c.duration_seconds > 0 && c.cliff_seconds <= c.duration_seconds && 0 <= self.claimed
            && self.claimed <= c.total_amount && match self.vested_at_cancel {
            Some(v) => 0 <= v && v <= c.total_amount,
            None => true,
        }
    }

    /// Whether the vested amount at `now` can be computed without overflow.
    pub fn fits_at(&self, now: u64) -> (b: bool)
        requires
            self.wf(),
        ensures
            b == self.fits(now),
    {
        if self.config.cancelled {
            return true;
        }
        let elapsed = elapsed_seconds(self.config.start_time, now);
        vesting_fits(self.config.total_amount, elapsed, self.config.cliff_seconds, self.config.duration_seconds)
    }

    /// Validate the parameters and build a new schedule starting at `now`.
    /// The admin authorizes first and, on success, deposits `total_amount`.
    pub fn create(
        token: String,
        beneficiary: String,
        admin: String,
        total_amount: i128,
        cliff_seconds: u64,
        duration_seconds: u64,
        now: u64,
    ) -> (out: Outcome<ScheduleRecord, FactoryError>)
        ensures
            out.result == ScheduleRecord::created(
                token, beneficiary, admin, total_amount, cliff_seconds, duration_seconds, now),
            out.result matches Ok(r) ==> r.wf(),
            out.signers@ == seq![admin],
            out.payments@ == (if out.result is Ok {
                seq![Payment { from: Party::Account(admin), to: Party::Contract, amount: total_amount }]
            } else {
                Seq::<Payment>::empty()
            }),
    {
        let signers = vec![admin.clone()];
        if total_amount <= 0 || duration_seconds == 0 || cliff_seconds > duration_seconds {
            return Outcome { result: Err(FactoryError::InvalidConfig), signers, payments: Vec::new() };
        }
        let deposit = Payment { from: Party::Account(admin.clone()), to: Party::Contract, amount: total_amount };
        let record = ScheduleRecord {
            config: ScheduleConfig {
                token,
                beneficiary,
                admin,
                total_amount,
                start_time: now,
                cliff_seconds,
                duration_seconds,
                cancelled: false,
            },
            claimed: 0,
            vested_at_cancel: None,
        };
        Outcome { result: Ok(record), signers, payments: vec![deposit] }
    }

    /// Pay the beneficiary what has vested at `now` and is unpaid.
    pub fn claim(&mut self, now: u64) -> (out: Outcome<i128, FactoryError>)
        requires
            old(self).wf(),
            old(self).fits(now),
        ensures
            final(self).wf(),
            (*final(self), out.result) == old(self).claim_next(now),
            out.signers@ == seq![old(self).config.beneficiary],
            out.payments@ == (match out.result {
                Ok(a) => seq![payout(old(self).config.beneficiary, a as int)],
                Err(_) => Seq::<Payment>::empty(),
            }),
    {
        let beneficiary = self.config.beneficiary.clone();
        if self.config.cancelled {
            return Outcome { result: Err(FactoryError::Cancelled), signers: vec![beneficiary], payments: Vec::new() };
        }
        let vested = compute_vested(&self.config, now);
        let elapsed = elapsed_seconds(self.config.start_time, now);
        if elapsed < self.config.cliff_seconds {
            return Outcome { result: Err(FactoryError::CliffNotReached), signers: vec![beneficiary], payments: Vec::new() };
        }
        let owed = vested - self.claimed;
        let claimable = if owed > 0 { owed } else { 0 };
        if claimable == 0 {
            return Outcome { result: Err(FactoryError::NothingToClaim), signers: vec![beneficiary], payments: Vec::new() };
        }
        self.claimed = self.claimed + claimable;
        let signer = beneficiary.clone();
        Outcome { result: Ok(claimable), signers: vec![signer], payments: vec![pay_out(beneficiary, claimable)] }
    }

    /// Cancel the schedule at `now`, paying out both sides.
    pub fn cancel(&mut self, now: u64) -> (out: Outcome<(), FactoryError>)
        requires
            old(self).wf(),
            old(self).fits(now),
        ensures
            final(self).wf(),
            (*final(self), out.result) == old(self).cancel_next(now),
            out.signers@ == seq![old(self).config.admin],
            out.payments@ == (if out.result is Ok { old(self).cancel_payouts(now) } else { Seq::<Payment>::empty() }),
    {
        let admin = self.config.admin.clone();
        if self.config.cancelled {
            return Outcome { result: Err(FactoryError::Cancelled), signers: vec![admin], payments: Vec::new() };
        }
        let vested = compute_vested(&self.config, now);
        let owed = vested - self.claimed;
        let to_beneficiary = if owed > 0 { owed } else { 0 };
        let unvested = self.config.total_amount - vested;
        let to_admin = if unvested > 0 { unvested } else { 0 };
        self.config.cancelled = true;
        self.claimed = self.claimed + to_beneficiary;
        self.vested_at_cancel = Some(vested);
        let payments = split_payments(self.config.beneficiary.clone(), to_beneficiary, admin.clone(), to_admin);
        Outcome { result: Ok(()), signers: vec![admin], payments }
    }

    /// Snapshot of this schedule, reported as schedule `id`, at `now`.
    pub fn status(&self, id: u64, now: u64) -> (s: VestingStatus)
        requires
            self.wf(),
            self.fits(now),
        ensures
            s == self.status_at(id, now),
    {
        let c = &self.config;
        let elapsed = elapsed_seconds(c.start_time, now);
        let cliff_reached = elapsed >= c.cliff_seconds;
        let vested = if c.cancelled {
            match self.vested_at_cancel {
                Some(v) => v,
                None => 0,
            }
        } else {
            compute_vested(c, now)
        };
        let owed = vested - self.claimed;
        let claimable = if !c.cancelled && cliff_reached && owed > 0 { owed } else { 0 };
        VestingStatus {
            schedule_id: id,
            total_amount: c.total_amount,
            claimed: self.claimed,
            vested,
            claimable,
            cliff_reached,
            fully_vested: vested >= c.total_amount,
            cancelled: c.cancelled,
        }
    }
}

/// Copies a schedule record field by field.
pub fn copy_record(r: &ScheduleRecord) -> (c: ScheduleRecord)
    ensures
        c == *r,
{
    ScheduleRecord {
        config: ScheduleConfig {
            token: r.config.token.clone(),
            beneficiary: r.config.beneficiary.clone(),
            admin: r.config.admin.clone(),
            total_amount: r.config.total_amount,
            start_time: r.config.start_time,
            cliff_seconds: r.config.cliff_seconds,
            duration_seconds: r.config.duration_seconds,
            cancelled: r.config.cancelled,
        },
        claimed: r.claimed,
        vested_at_cancel: r.vested_at_cancel,
    }
}

/// Schedules and result of `create_schedule`: a valid schedule is appended,
/// so its id is the number of schedules before it.
pub open spec fn create_in(
    schedules: Seq<ScheduleRecord>,
    token: String,
    beneficiary: String,
    admin: String,
    total_amount: i128,
    cliff_seconds: u64,
    duration_seconds: u64,
    now: u64,
) -> (Seq<ScheduleRecord>, Result<u64, FactoryError>) {
    match ScheduleRecord::created(token, beneficiary, admin, total_amount, cliff_seconds, duration_seconds, now) {
        Ok(r) => (schedules.push(r), Ok(schedules.len() as u64)),
        Err(e) => (schedules, Err(e)),
    }
}

/// Schedules and result of `claim` on schedule `id`.
pub open spec fn claim_in(schedules: Seq<ScheduleRecord>, id: u64, now: u64) -> (Seq<ScheduleRecord>, Result<i128, FactoryError>) {
    if id < schedules.len() {
        let (r, res) = schedules[id as int].claim_next(now);
        (schedules.update(id as int, r), res)
    } else {
        (schedules, Err(FactoryError::ScheduleNotFound))
    }
}

/// Schedules and result of `cancel` on schedule `id`.
pub open spec fn cancel_in(schedules: Seq<ScheduleRecord>, id: u64, now: u64) -> (Seq<ScheduleRecord>, Result<(), FactoryError>) {
    if id < schedules.len() {
        let (r, res) = schedules[id as int].cancel_next(now);
        (schedules.update(id as int, r), res)
    } else {
        (schedules, Err(FactoryError::ScheduleNotFound))
    }
}

/// What `get_status` returns for schedule `id` at `now`.
pub open spec fn status_in(schedules: Seq<ScheduleRecord>, id: u64, now: u64) -> Result<VestingStatus, FactoryError> {
    if id < schedules.len() {
        Ok(schedules[id as int].status_at(id, now))
    } else {
        Err(FactoryError::ScheduleNotFound)
    }
}

/// Every schedule keeps its invariant.
pub open spec fn all_wf(schedules: Seq<ScheduleRecord>) -> bool {
    forall|i: int| 0 <= i < schedules.len() ==> (#[trigger] schedules[i]).wf()
}

/// The factory's state: schedule `i` is the `i`-th created, so the schedule
/// count is the length.
#[derive(Clone, Debug, PartialEq, Eq)]
pub struct ForgeVestingFactory {
    pub schedules: Vec<ScheduleRecord>,
}

impl ForgeVestingFactory {
    /// Every stored schedule keeps its invariant.
    pub open spec fn wf(self) -> bool {
        all_wf(self.schedules@)
    }

    /// Whether `id` names a created schedule.
    pub open spec fn has(self, id: u64) -> bool {
        id < self.schedules@.len()
    }

    /// The vested amount of schedule `id` at `now` can be computed without overflow.
    pub open spec fn fits(self, id: u64, now: u64) -> bool {
        self.has(id) ==> self.schedules@[id as int].fits(now)
    }

    pub fn new() -> (f: ForgeVestingFactory)
        ensures
            f.schedules@.len() == 0,
            f.wf(),
    {
        ForgeVestingFactory { schedules: Vec::new() }
    }

    /// Create a schedule starting at `now` and return its id, the number of
    /// schedules created before it. The admin authorizes first and deposits
    /// `total_amount` into the contract.
    pub fn create_schedule(
        &mut self,
        token: String,
        beneficiary: String,
        admin: String,
        total_amount: i128,
        cliff_seconds: u64,
        duration_seconds: u64,
        now: u64,
    ) -> (out: Outcome<u64, FactoryError>)
        requires
            old(self).wf(),
            old(self).schedules@.len() < u64::MAX,
        ensures
            final(self).wf(),
            (final(self).schedules@, out.result) == create_in(
                old(self).schedules@, token, beneficiary, admin, total_amount, cliff_seconds, duration_seconds, now),
            out.signers@ == seq![admin],
            out.payments@ == (if out.result is Ok {
                seq![Payment { from: Party::Account(admin), to: Party::Contract, amount: total_amount }]
            } else {
                Seq::<Payment>::empty()
            }),
    {
        let created = ScheduleRecord::create(token, beneficiary, admin, total_amount, cliff_seconds, duration_seconds, now);
        let Outcome { result, signers, payments } = created;
        match result {
            Ok(record) => {
                let id = self.schedules.len() as u64;
                self.schedules.push(record);
                Outcome { result: Ok(id), signers, payments }
            },
            Err(e) => Outcome { result: Err(e), signers, payments },
        }
    }

    /// Claim from schedule `id` at `now`; only that schedule changes.
    pub fn claim(&mut self, schedule_id: u64, now: u64) -> (out: Outcome<i128, FactoryError>)
        requires
            old(self).wf(),
            old(self).fits(schedule_id, now),
        ensures
            final(self).wf(),
            (final(self).schedules@, out.result) == claim_in(old(self).schedules@, schedule_id, now),
            out.signers@ == (if old(self).has(schedule_id) {
                seq![old(self).schedules@[schedule_id as int].config.beneficiary]
            } else {
                Seq::<String>::empty()
            }),
            out.payments@ == (match out.result {
                Ok(a) => seq![payout(old(self).schedules@[schedule_id as int].config.beneficiary, a as int)],
                Err(_) => Seq::<Payment>::empty(),
            }),
    {
        if schedule_id >= self.schedules.len() as u64 {
            return Outcome { result: Err(FactoryError::ScheduleNotFound), signers: Vec::new(), payments: Vec::new() };
        }
        let i = schedule_id as usize;
        let mut record = copy_record(&self.schedules[i]);
        let out = record.claim(now);
        self.schedules.set(i, record);
        out
    }

    /// Cancel schedule `id` at `now`; only that schedule changes.
    pub fn cancel(&mut self, schedule_id: u64, now: u64) -> (out: Outcome<(), FactoryError>)
        requires
            old(self).wf(),
            old(self).fits(schedule_id, now),
        ensures
            final(self).wf(),
            (final(self).schedules@, out.result) == cancel_in(old(self).schedules@, schedule_id, now),
            out.signers@ == (if old(self).has(schedule_id) {
                seq![old(self).schedules@[schedule_id as int].config.admin]
            } else {
                Seq::<String>::empty()
            }),
            out.payments@ == (if out.result is Ok {
                old(self).schedules@[schedule_id as int].cancel_payouts(now)
            } else {
                Seq::<Payment>::empty()
            }),
    {
        if schedule_id >= self.schedules.len() as u64 {
            return Outcome { result: Err(FactoryError::ScheduleNotFound), signers: Vec::new(), payments: Vec::new() };
        }
        let i = schedule_id as usize;
        let mut record = copy_record(&self.schedules[i]);
        let out = record.cancel(now);
        self.schedules.set(i, record);
        out
    }

    /// Status of schedule `id` at `now`; changes nothing.
    pub fn get_status(&self, schedule_id: u64, now: u64) -> (r: Result<VestingStatus, FactoryError>)
        requires
            self.wf(),
            self.fits(schedule_id, now),
        ensures
            r == status_in(self.schedules@, schedule_id, now),
    {
        if schedule_id >= self.schedules.len() as u64 {
            return Err(FactoryError::ScheduleNotFound);
        }
        Ok(self.schedules[schedule_id as usize].status(schedule_id, now))
    }

    /// Number of schedules ever created; ids run from 0 to this count minus one.
    pub fn get_schedule_count(&self) -> (n: u64)
        ensures
            n == self.schedules@.len(),
    {
        self.schedules.len() as u64
    }
}

} // verus!
