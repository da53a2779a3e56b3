//! Single-schedule token vesting: a cliff, then linear release, with pause,
//! cancellation and role changes.
use vstd::prelude::*;
use crate::effects::{Outcome, Payment, pay_out, payout, split_payments, split_payouts};
use crate::schedule::{elapsed_since, elapsed_seconds, linear_vested, product_fits, vested_amount, vesting_fits};
use crate::constants::error_codes;
use crate::errors::CommonError;

verus! {

/// Storage keys of the vesting contract.
#[derive(Clone, Copy, Debug, PartialEq, Eq, Structural)]
pub enum DataKey {
    Config,
    Claimed,
    VestedAtCancel,
}

/// Errors of the vesting contract.
#[derive(Clone, Copy, Debug, PartialEq, Eq, Structural)]
pub enum VestingError {
    AlreadyInitialized,
    NotInitialized,
    Unauthorized,
    InvalidConfig,
    CliffNotReached,
    NothingToClaim,
    Cancelled,
    SameAdmin,
    SameBeneficiary,
    BeneficiaryAsAdmin,
    Paused,
    NotPaused,
    VestingComplete,
}

/// The error code each vesting error has on the ledger.
pub open spec fn vesting_error_code(e: VestingError) -> u32 {
    match e {
        VestingError::AlreadyInitialized => 1,
        VestingError::NotInitialized => 2,
        VestingError::Unauthorized => 3,
        VestingError::InvalidConfig => 7,
        VestingError::CliffNotReached => 4,
        VestingError::NothingToClaim => 5,
        VestingError::Cancelled => 6,
        VestingError::SameAdmin => 8,
        VestingError::Paused => 9,
        VestingError::NotPaused => 10,
        VestingError::SameBeneficiary => 11,
        VestingError::BeneficiaryAsAdmin => 12,
        VestingError::VestingComplete => 13,
    }
}

impl VestingError {
    /// The error's code on the ledger.
    pub fn code(&self) -> (c: u32)
        ensures
            c == vesting_error_code(*self),
    {
        match self {
            VestingError::AlreadyInitialized => CommonError::AlreadyInitialized.code(),
            VestingError::NotInitialized => CommonError::NotInitialized.code(),
            VestingError::Unauthorized => CommonError::Unauthorized.code(),
            VestingError::InvalidConfig => error_codes::vesting::INVALID_CONFIG,
            VestingError::CliffNotReached => error_codes::vesting::CLIFF_NOT_REACHED,
            VestingError::NothingToClaim => error_codes::vesting::NOTHING_TO_CLAIM,
            VestingError::Cancelled => error_codes::vesting::CANCELLED,
            VestingError::SameAdmin => error_codes::vesting::SAME_ADMIN,
            VestingError::Paused => error_codes::vesting::PAUSED,
            VestingError::NotPaused => error_codes::vesting::NOT_PAUSED,
            VestingError::SameBeneficiary => error_codes::vesting::SAME_BENEFICIARY,
            VestingError::BeneficiaryAsAdmin => error_codes::vesting::BENEFICIARY_AS_ADMIN,
            VestingError::VestingComplete => error_codes::vesting::VESTING_COMPLETE,
        }
    }
}

/// The stored vesting configuration. Accounts are held by their string keys.
#[derive(Clone, Debug, PartialEq, Eq)]
pub struct VestingConfig {
    pub token: String,
    pub beneficiary: String,
    pub admin: String,
    pub total_amount: i128,
    pub start_time: u64,
    pub cliff_seconds: u64,
    pub duration_seconds: u64,
    pub cancelled: bool,
    pub paused: bool,
    pub paused_at: Option<u64>,
}

/// Snapshot returned by `get_status`.
#[derive(Clone, Copy, Debug, PartialEq, Eq, Structural)]
pub struct VestingStatus {
    pub total_amount: i128,
    pub claimed: i128,
    pub vested: i128,
    pub claimable: i128,
    pub cliff_reached: bool,
    pub fully_vested: bool,
    pub paused: bool,
}

/// The schedule parameters without the admin and the cancellation state.
#[derive(Clone, Debug, PartialEq, Eq)]
pub struct VestingSchedule {
    pub token: String,
    pub beneficiary: String,
    pub total_amount: i128,
    pub cliff_seconds: u64,
    pub duration_seconds: u64,
    pub start_time: u64,
}

/// Parameters accepted by `initialize`: a positive amount, a positive
/// duration and a cliff no longer than the duration.
pub open spec fn valid_parameters(total_amount: int, cliff_seconds: int, duration_seconds: int) -> bool {
    total_amount > 0 && duration_seconds > 0 && cliff_seconds <= duration_seconds
}

impl VestingConfig {
    pub open spec fn valid(self) -> bool {
        valid_parameters(self.total_amount as int, self.cliff_seconds as int, self.duration_seconds as int)
    }

    /// The instant at which vesting is measured: the pause instant while paused.
    pub open spec fn effective_now(self, now: u64) -> u64 {
        if self.paused {
            match self.paused_at {
                Some(p) => p,
                None => now,
            }
        } else {
            now
        }
    }

    /// Seconds of vesting counted at `now`.
    pub open spec fn vesting_elapsed(self, now: u64) -> int {
        elapsed_since(self.start_time, self.effective_now(now))
    }

    /// Tokens vested at `now`; a cancelled configuration vests nothing further.
    pub open spec fn vested_at(self, now: u64) -> int {
        if self.cancelled {
            0
        } else {
            linear_vested(
                self.total_amount as int,
                self.vesting_elapsed(now),
                self.cliff_seconds as int,
                self.duration_seconds as int,
            )
        }
    }

    /// Computing `vested_at(now)` stays within `i128`.
    pub open spec fn fits_at(self, now: u64) -> bool {
        self.cancelled || product_fits(
            self.total_amount as int,
            self.vesting_elapsed(now),
            self.cliff_seconds as int,
            self.duration_seconds as int,
        )
    }
}

/// Copies a configuration field by field.
pub fn copy_config(c: &VestingConfig) -> (r: VestingConfig)
    ensures
        r == *c,
{
    VestingConfig {
        token: c.token.clone(),
        beneficiary: c.beneficiary.clone(),
        admin: c.admin.clone(),
        total_amount: c.total_amount,
        start_time: c.start_time,
        cliff_seconds: c.cliff_seconds,
        duration_seconds: c.duration_seconds,
        cancelled: c.cancelled,
        paused: c.paused,
        paused_at: c.paused_at,
    }
}

/// Tokens vested under `config` at `now` (linear after the cliff, frozen at
/// the pause instant while paused, nothing once cancelled).
pub fn compute_vested(config: &VestingConfig, now: u64) -> (v: i128)
    requires
        config.fits_at(now),
    ensures
        v == config.vested_at(now),
        config.total_amount >= 0 && !config.cancelled ==> 0 <= v <= config.total_amount,
{
    if config.cancelled {
        return 0;
    }
    let effective_now = if config.paused {
        match config.paused_at {
            Some(p) => p,
            None => now,
        }
    } else {
        now
    };
    let elapsed = elapsed_seconds(config.start_time, effective_now);
    vested_amount(config.total_amount, elapsed, config.cliff_seconds, config.duration_seconds)
}

/// The state of one vesting contract: its configuration (absent before
/// `initialize`), the amount already paid to the beneficiary, and the vested
/// amount recorded at cancellation.
#[derive(Clone, Debug, PartialEq, Eq)]
pub struct ForgeVesting {
    pub config: Option<VestingConfig>,
    pub claimed: i128,
    pub vested_at_cancel: Option<i128>,
}

impl ForgeVesting {
    /// The invariant every reachable state keeps.
    pub open spec fn wf(self) -> bool {
        match self.config {
            None => self.claimed == 0 && self.vested_at_cancel is None,
            Some(c) => {
                &&& c.valid()
                &&& 0 <= self.claimed <= c.total_amount
                &&& (self.vested_at_cancel matches Some(v) ==> 0 <= v <= c.total_amount)
            },
        }
    }

    /// The vested amount at `now` can be computed without overflow.
    pub open spec fn fits(self, now: u64) -> bool {
        self.config matches Some(c) ==> c.fits_at(now)
    }

    /// `claim` at `now` computes the vested amount without overflow: it is
    /// computed only for a live, unpaused schedule past its cliff.
    pub open spec fn claim_fits(self, now: u64) -> bool {
        match self.config {
            Some(c) => !c.cancelled && !c.paused && elapsed_since(c.start_time, now) >= c.cliff_seconds
                ==> c.fits_at(now),
            None => true,
        }
    }

    /// `cancel` at `now` computes the vested amount without overflow: it is
    /// computed only for a live schedule whose duration has not elapsed.
    pub open spec fn cancel_fits(self, now: u64) -> bool {
        match self.config {
            Some(c) => !c.cancelled && elapsed_since(c.start_time, now) < c.duration_seconds ==> c.fits_at(now),
            None => true,
        }
    }

    /// `cancel_and_claim` at `now` computes the vested amount without
    /// overflow: it is computed only for a live, unpaused schedule.
    pub open spec fn cancel_and_claim_fits(self, now: u64) -> bool {
        match self.config {
            Some(c) => !c.cancelled && !c.paused ==> c.fits_at(now),
            None => true,
        }
    }

    /// The vested amount `get_status` reports: the amount recorded at
    /// cancellation once cancelled, otherwise the amount vested at `now`.
    pub open spec fn reported_vested(self, c: VestingConfig, now: u64) -> int {
        if c.cancelled {
            match self.vested_at_cancel {
                Some(v) => v as int,
                None => 0,
            }
        } else {
            c.vested_at(now)
        }
    }

    /// What `get_status` returns at `now`.
    pub open spec fn status_at(self, now: u64) -> Result<VestingStatus, VestingError> {
        match self.config {
            None => Err(VestingError::NotInitialized),
            Some(c) => {
                let vested = self.reported_vested(c, now);
                let owed = vested - self.claimed;
                Ok(VestingStatus {
                    total_amount: c.total_amount,
                    claimed: self.claimed,
                    vested: vested as i128,
                    claimable: (if owed > 0 { owed } else { 0 }) as i128,
                    cliff_reached: elapsed_since(c.start_time, now) >= c.cliff_seconds,
                    fully_vested: vested >= c.total_amount,
                    paused: c.paused,
                })
            },
        }
    }

    /// State and result of `initialize`.
    pub open spec fn initialize_next(
        self,
        token: String,
        beneficiary: String,
        admin: String,
        total_amount: i128,
        cliff_seconds: u64,
        duration_seconds: u64,
        now: u64,
    ) -> (ForgeVesting, Result<(), VestingError>) {
        if self.config is Some {
            (self, Err(VestingError::AlreadyInitialized))
        } else if !valid_parameters(total_amount as int, cliff_seconds as int, duration_seconds as int) {
            (self, Err(VestingError::InvalidConfig))
        } else if admin@ == beneficiary@ {
            (self, Err(VestingError::BeneficiaryAsAdmin))
        } else {
            (
                ForgeVesting {
                    config: Some(
                        VestingConfig {
                            token,
                            beneficiary,
                            admin,
                            total_amount,
                            start_time: now,
                            cliff_seconds,
                            duration_seconds,
                            cancelled: false,
                            paused: false,
                            paused_at: None,
                        },
                    ),
                    claimed: 0,
                    ..self
                },
                Ok(()),
            )
        }
    }

    /// State and result of `claim`.
    pub open spec fn claim_next(self, now: u64) -> (ForgeVesting, Result<i128, VestingError>) {
        match self.config {
            None => (self, Err(VestingError::NotInitialized)),
            Some(c) => {
                if c.cancelled {
                    (self, Err(VestingError::Cancelled))
                } else if c.paused {
                    (self, Err(VestingError::Paused))
                } else if elapsed_since(c.start_time, now) < c.cliff_seconds {
                    (self, Err(VestingError::CliffNotReached))
                } else if c.vested_at(now) - self.claimed <= 0 {
                    (self, Err(VestingError::NothingToClaim))
                } else {
                    (
                        ForgeVesting { claimed: c.vested_at(now) as i128, ..self },
                        Ok((c.vested_at(now) - self.claimed) as i128),
                    )
                }
            },
        }
    }

    /// Accounts `claim` asks to authorize: the beneficiary, once the schedule
    /// is known to be neither cancelled nor paused.
    pub open spec fn claim_signers(self) -> Seq<String> {
        match self.config {
            Some(c) => if !c.cancelled && !c.paused { seq![c.beneficiary] } else { seq![] },
            None => seq![],
        }
    }

    /// State and result of `cancel`: the vested amount goes to the beneficiary
    /// (less what was already paid), the rest back to the admin.
    pub open spec fn cancel_next(self, now: u64) -> (ForgeVesting, Result<(i128, i128), VestingError>) {
        match self.config {
            None => (self, Err(VestingError::NotInitialized)),
            Some(c) => {
                if c.cancelled {
                    (self, Err(VestingError::Cancelled))
                } else if elapsed_since(c.start_time, now) >= c.duration_seconds {
                    (self, Err(VestingError::VestingComplete))
                } else {
                    let vested = c.vested_at(now);
                    (
                        ForgeVesting {
                            config: Some(VestingConfig { cancelled: true, ..c }),
                            claimed: vested as i128,
                            vested_at_cancel: Some(vested as i128),
                        },
                        Ok(((vested - self.claimed) as i128, (c.total_amount - vested) as i128)),
                    )
                }
            },
        }
    }

    /// State and result of `cancel_and_claim`.
    pub open spec fn cancel_and_claim_next(self, now: u64) -> (ForgeVesting, Result<(i128, i128), VestingError>) {
        match self.config {
            None => (self, Err(VestingError::NotInitialized)),
            Some(c) => {
                if c.cancelled {
                    (self, Err(VestingError::Cancelled))
                } else if c.paused {
                    (self, Err(VestingError::Paused))
                } else {
                    let vested = c.vested_at(now);
                    (
                        ForgeVesting {
                            config: Some(VestingConfig { cancelled: true, ..c }),
                            claimed: vested as i128,
                            vested_at_cancel: Some(vested as i128),
                        },
                        Ok(((vested - self.claimed) as i128, (c.total_amount - vested) as i128)),
                    )
                }
            },
        }
    }

    /// Accounts `cancel_and_claim` asks to authorize.
    pub open spec fn cancel_and_claim_signers(self) -> Seq<String> {
        match self.config {
            Some(c) => if !c.cancelled && !c.paused { seq![c.admin, c.beneficiary] } else { seq![] },
            None => seq![],
        }
    }

    /// The admin, when the contract is set up: who must authorize the
    /// admin-only calls.
    pub open spec fn admin_signers(self) -> Seq<String> {
        match self.config {
            Some(c) => seq![c.admin],
            None => seq![],
        }
    }

    /// The beneficiary, when the contract is set up.
    pub open spec fn beneficiary_signers(self) -> Seq<String> {
        match self.config {
            Some(c) => seq![c.beneficiary],
            None => seq![],
        }
    }

    /// The transfers a successful split carries out.
    pub open spec fn split_effects(self, r: Result<(i128, i128), VestingError>) -> Seq<Payment> {
        match r {
            Ok((b, a)) => split_payouts(
                self.config->Some_0.beneficiary,
                b as int,
                self.config->Some_0.admin,
                a as int,
            ),
            Err(_) => Seq::<Payment>::empty(),
        }
    }

    /// State and result of `transfer_admin`.
    pub open spec fn transfer_admin_next(self, new_admin: String) -> (ForgeVesting, Result<(), VestingError>) {
        match self.config {
            None => (self, Err(VestingError::NotInitialized)),
            Some(c) => {
                if c.admin@ == new_admin@ {
                    (self, Err(VestingError::SameAdmin))
                } else if c.beneficiary@ == new_admin@ {
                    (self, Err(VestingError::BeneficiaryAsAdmin))
                } else {
                    (ForgeVesting { config: Some(VestingConfig { admin: new_admin, ..c }), ..self }, Ok(()))
                }
            },
        }
    }

    /// State and result of `change_beneficiary`.
    pub open spec fn change_beneficiary_next(self, new_beneficiary: String) -> (ForgeVesting, Result<(), VestingError>) {
        match self.config {
            None => (self, Err(VestingError::NotInitialized)),
            Some(c) => {
                if c.cancelled {
                    (self, Err(VestingError::Cancelled))
                } else if c.beneficiary@ == new_beneficiary@ {
                    (self, Err(VestingError::SameBeneficiary))
                } else {
                    (
                        ForgeVesting {
                            config: Some(VestingConfig { beneficiary: new_beneficiary, ..c }),
                            ..self
                        },
                        Ok(()),
                    )
                }
            },
        }
    }

    /// State and result of `pause`: vesting is frozen at `now`.
    pub open spec fn pause_next(self, now: u64) -> (ForgeVesting, Result<(), VestingError>) {
        match self.config {
            None => (self, Err(VestingError::NotInitialized)),
            Some(c) => {
                if c.cancelled {
                    (self, Err(VestingError::Cancelled))
                } else if c.paused {
                    (self, Err(VestingError::Paused))
                } else {
                    (
                        ForgeVesting {
                            config: Some(VestingConfig { paused: true, paused_at: Some(now), ..c }),
                            ..self
                        },
                        Ok(()),
                    )
                }
            },
        }
    }

    /// State and result of `unpause`: the start moves forward by the time
    /// spent paused.
    pub open spec fn unpause_next(self, now: u64) -> (ForgeVesting, Result<(), VestingError>) {
        match self.config {
            None => (self, Err(VestingError::NotInitialized)),
            Some(c) => {
                if c.cancelled {
                    (self, Err(VestingError::Cancelled))
                } else if !c.paused {
                    (self, Err(VestingError::NotPaused))
                } else {
                    let paused_at = match c.paused_at {
                        Some(p) => p,
                        None => now,
                    };
                    let delta = now.saturating_sub(paused_at);
                    (
                        ForgeVesting {
                            config: Some(
                                VestingConfig {
                                    start_time: c.start_time.saturating_add(delta),
                                    paused: false,
                                    paused_at: None,
                                    ..c
                                },
                            ),
                            ..self
                        },
                        Ok(()),
                    )
                }
            },
        }
    }

    pub fn new() -> (s: ForgeVesting)
        ensures
            s.config is None,
            s.wf(),
    {
        ForgeVesting { config: None, claimed: 0, vested_at_cancel: None }
    }

    /// Whether the stored state satisfies the invariant.
    pub fn well_formed(&self) -> (b: bool)
        ensures
            b == self.wf(),
    {
        match &self.config {
            None => self.claimed == 0 && self.vested_at_cancel.is_none(),
            Some(c) => {
                c.total_amount > 0 && c.duration_seconds > 0 && c.cliff_seconds <= c.duration_seconds
                    && 0 <= self.claimed && self.claimed <= c.total_amount
                    && match self.vested_at_cancel {
                    Some(v) => 0 <= v && v <= c.total_amount,
                    None => true,
                }
            },
        }
    }

    /// Whether the vested amount at `now` can be computed without overflow.
    pub fn fits_at(&self, now: u64) -> (b: bool)
        requires
            self.wf(),
        ensures
            b == self.fits(now),
    {
        match &self.config {
            None => true,
            Some(c) => {
                if c.cancelled {
                    return true;
                }
                let effective_now = if c.paused {
                    match c.paused_at {
                        Some(p) => p,
                        None => now,
                    }
                } else {
                    now
                };
                let elapsed = elapsed_seconds(c.start_time, effective_now);
                vesting_fits(c.total_amount, elapsed, c.cliff_seconds, c.duration_seconds)
            },
        }
    }

    /// Whether `claim` at `now` may be called (see `claim_fits`).
    pub fn claim_fits_at(&self, now: u64) -> (b: bool)
        requires
            self.wf(),
        ensures
            b == self.claim_fits(now),
    {
        match &self.config {
            Some(c) => {
                if c.cancelled || c.paused || elapsed_seconds(c.start_time, now) < c.cliff_seconds {
                    true
                } else {
                    self.fits_at(now)
                }
            },
            None => true,
        }
    }

    /// Whether `cancel` at `now` may be called (see `cancel_fits`).
    pub fn cancel_fits_at(&self, now: u64) -> (b: bool)
        requires
            self.wf(),
        ensures
            b == self.cancel_fits(now),
    {
        match &self.config {
            Some(c) => {
                if c.cancelled || elapsed_seconds(c.start_time, now) >= c.duration_seconds {
                    true
                } else {
                    self.fits_at(now)
                }
            },
            None => true,
        }
    }

    /// Whether `cancel_and_claim` at `now` may be called (see
    /// `cancel_and_claim_fits`).
    pub fn cancel_and_claim_fits_at(&self, now: u64) -> (b: bool)
        requires
            self.wf(),
        ensures
            b == self.cancel_and_claim_fits(now),
    {
        match &self.config {
            Some(c) => {
                if c.cancelled || c.paused {
                    true
                } else {
                    self.fits_at(now)
                }
            },
            None => true,
        }
    }

    /// Set up the schedule, starting at `now`. Fails when already set up, when
    /// the parameters are invalid, or when admin and beneficiary coincide;
    /// the admin must authorize the setup.
    pub fn initialize(
        &mut self,
        token: String,
        beneficiary: String,
        admin: String,
        total_amount: i128,
        cliff_seconds: u64,
        duration_seconds: u64,
        now: u64,
    ) -> (out: Outcome<(), VestingError>)
        requires
            old(self).wf(),
        ensures
            final(self).wf(),
            (*final(self), out.result) == old(self).initialize_next(
                token, beneficiary, admin, total_amount, cliff_seconds, duration_seconds, now),
            out.signers@ == (if out.result is Ok { seq![admin] } else { Seq::<String>::empty() }),
            out.payments@ == Seq::<Payment>::empty(),
    {
        if self.config.is_some() {
            return Outcome { result: Err(VestingError::AlreadyInitialized), signers: Vec::new(), payments: Vec::new() };
        }
        if total_amount <= 0 || duration_seconds == 0 || cliff_seconds > duration_seconds {
            return Outcome { result: Err(VestingError::InvalidConfig), signers: Vec::new(), payments: Vec::new() };
        }
        if admin == beneficiary {
            return Outcome { result: Err(VestingError::BeneficiaryAsAdmin), signers: Vec::new(), payments: Vec::new() };
        }
        let signer = admin.clone();
        self.config = Some(VestingConfig {
            token,
            beneficiary,
            admin,
            total_amount,
            start_time: now,
            cliff_seconds,
            duration_seconds,
            cancelled: false,
            paused: false,
            paused_at: None,
        });
        self.claimed = 0;
        Outcome { result: Ok(()), signers: vec![signer], payments: Vec::new() }
    }

    /// Pay the beneficiary everything vested at `now` and not yet paid.
    pub fn claim(&mut self, now: u64) -> (out: Outcome<i128, VestingError>)
        requires
            old(self).wf(),
            old(self).claim_fits(now),
        ensures
            final(self).wf(),
            (*final(self), out.result) == old(self).claim_next(now),
            out.signers@ == old(self).claim_signers(),
            out.payments@ == (match out.result {
                Ok(a) => seq![payout(old(self).config->Some_0.beneficiary, a as int)],
                Err(_) => Seq::<Payment>::empty(),
            }),
    {
        let (beneficiary, vested) = match &self.config {
            None => {
                return Outcome { result: Err(VestingError::NotInitialized), signers: Vec::new(), payments: Vec::new() };
            },
            Some(c) => {
                if c.cancelled {
                    return Outcome { result: Err(VestingError::Cancelled), signers: Vec::new(), payments: Vec::new() };
                }
                if c.paused {
                    return Outcome { result: Err(VestingError::Paused), signers: Vec::new(), payments: Vec::new() };
                }
                let elapsed = elapsed_seconds(c.start_time, now);
                if elapsed < c.cliff_seconds {
                    return Outcome {
                        result: Err(VestingError::CliffNotReached),
                        signers: vec![c.beneficiary.clone()],
                        payments: Vec::new(),
                    };
                }
                (c.beneficiary.clone(), compute_vested(c, now))
            },
        };
        let claimable = vested - self.claimed;
        if claimable <= 0 {
            return Outcome { result: Err(VestingError::NothingToClaim), signers: vec![beneficiary], payments: Vec::new() };
        }
        self.claimed = self.claimed + claimable;
        let signer = beneficiary.clone();
        Outcome { result: Ok(claimable), signers: vec![signer], payments: vec![pay_out(beneficiary, claimable)] }
    }

    /// Snapshot of the schedule at `now`; changes nothing.
    pub fn get_status(&self, now: u64) -> (r: Result<VestingStatus, VestingError>)
        requires
            self.wf(),
            self.fits(now),
        ensures
            r == self.status_at(now),
    {
        match &self.config {
            None => Err(VestingError::NotInitialized),
            Some(c) => {
                let elapsed = elapsed_seconds(c.start_time, now);
                let cliff_reached = elapsed >= c.cliff_seconds;
                let vested = if c.cancelled {
                    match self.vested_at_cancel {
                        Some(v) => v,
                        None => 0,
                    }
                } else {
                    compute_vested(c, now)
                };
                let owed = vested - self.claimed;
                let claimable = if owed > 0 { owed } else { 0 };
                Ok(VestingStatus {
                    total_amount: c.total_amount,
                    claimed: self.claimed,
                    vested,
                    claimable,
                    cliff_reached,
                    fully_vested: vested >= c.total_amount,
                    paused: c.paused,
                })
            },
        }
    }
    /// Cancel the schedule at `now`: the beneficiary receives what has vested
    /// and is unpaid, the admin what has not vested. Returns the two amounts
    /// (beneficiary's, admin's). Fails once the full duration has elapsed.
    pub fn cancel(&mut self, now: u64) -> (out: Outcome<(i128, i128), VestingError>)
        requires
            old(self).wf(),
            old(self).cancel_fits(now),
        ensures
            final(self).wf(),
            (*final(self), out.result) == old(self).cancel_next(now),
            out.signers@ == old(self).admin_signers(),
            out.payments@ == old(self).split_effects(out.result),
    {
        let (vested, total, beneficiary, admin) = match &self.config {
            None => {
                return Outcome { result: Err(VestingError::NotInitialized), signers: Vec::new(), payments: Vec::new() };
            },
            Some(c) => {
                if c.cancelled {
                    return Outcome { result: Err(VestingError::Cancelled), signers: vec![c.admin.clone()], payments: Vec::new() };
                }
                let elapsed = elapsed_seconds(c.start_time, now);
                if elapsed >= c.duration_seconds {
                    return Outcome {
                        result: Err(VestingError::VestingComplete),
                        signers: vec![c.admin.clone()],
                        payments: Vec::new(),
                    };
                }
                (compute_vested(c, now), c.total_amount, c.beneficiary.clone(), c.admin.clone())
            },
        };
        let to_beneficiary = vested - self.claimed;
        let to_admin = total - vested;
        match &mut self.config {
            Some(c) => {
                c.cancelled = true;
            },
            None => {},
        }
        self.vested_at_cancel = Some(vested);
        self.claimed = vested;
        let signer = admin.clone();
        Outcome {
            result: Ok((to_beneficiary, to_admin)),
            signers: vec![signer],
            payments: split_payments(beneficiary, to_beneficiary, admin, to_admin),
        }
    }

    /// Cancel and pay out in one step, with both the admin and the beneficiary
    /// authorizing. Returns (beneficiary's amount, admin's amount).
    pub fn cancel_and_claim(&mut self, now: u64) -> (out: Outcome<(i128, i128), VestingError>)
        requires
            old(self).wf(),
            old(self).cancel_and_claim_fits(now),
        ensures
            final(self).wf(),
            (*final(self), out.result) == old(self).cancel_and_claim_next(now),
            out.signers@ == old(self).cancel_and_claim_signers(),
            out.payments@ == old(self).split_effects(out.result),
    {
        let (vested, total, beneficiary, admin) = match &self.config {
            None => {
                return Outcome { result: Err(VestingError::NotInitialized), signers: Vec::new(), payments: Vec::new() };
            },
            Some(c) => {
                if c.cancelled {
                    return Outcome { result: Err(VestingError::Cancelled), signers: Vec::new(), payments: Vec::new() };
                }
                if c.paused {
                    return Outcome { result: Err(VestingError::Paused), signers: Vec::new(), payments: Vec::new() };
                }
                (compute_vested(c, now), c.total_amount, c.beneficiary.clone(), c.admin.clone())
            },
        };
        let to_beneficiary = vested - self.claimed;
        let to_admin = total - vested;
        match &mut self.config {
            Some(c) => {
                c.cancelled = true;
            },
            None => {},
        }
        self.vested_at_cancel = Some(vested);
        self.claimed = self.claimed + to_beneficiary;
        let signers = vec![admin.clone(), beneficiary.clone()];
        Outcome {
            result: Ok((to_beneficiary, to_admin)),
            signers,
            payments: split_payments(beneficiary, to_beneficiary, admin, to_admin),
        }
    }

    /// Hand the admin role to `new_admin`, who must differ from both the
    /// current admin and the beneficiary.
    pub fn transfer_admin(&mut self, new_admin: String) -> (out: Outcome<(), VestingError>)
        requires
            old(self).wf(),
        ensures
            final(self).wf(),
            (*final(self), out.result) == old(self).transfer_admin_next(new_admin),
            out.signers@ == old(self).admin_signers(),
            out.payments@ == Seq::<Payment>::empty(),
    {
        let signer = match &self.config {
            None => {
                return Outcome { result: Err(VestingError::NotInitialized), signers: Vec::new(), payments: Vec::new() };
            },
            Some(c) => {
                if c.admin == new_admin {
                    return Outcome { result: Err(VestingError::SameAdmin), signers: vec![c.admin.clone()], payments: Vec::new() };
                }
                if c.beneficiary == new_admin {
                    return Outcome {
                        result: Err(VestingError::BeneficiaryAsAdmin),
                        signers: vec![c.admin.clone()],
                        payments: Vec::new(),
                    };
                }
                c.admin.clone()
            },
        };
        match &mut self.config {
            Some(c) => {
                c.admin = new_admin;
            },
            None => {},
        }
        Outcome { result: Ok(()), signers: vec![signer], payments: Vec::new() }
    }

    /// Hand the beneficiary role to `new_beneficiary`; refused once cancelled
    /// or when nothing would change.
    pub fn change_beneficiary(&mut self, new_beneficiary: String) -> (out: Outcome<(), VestingError>)
        requires
            old(self).wf(),
        ensures
            final(self).wf(),
            (*final(self), out.result) == old(self).change_beneficiary_next(new_beneficiary),
            out.signers@ == old(self).beneficiary_signers(),
            out.payments@ == Seq::<Payment>::empty(),
    {
        let signer = match &self.config {
            None => {
                return Outcome { result: Err(VestingError::NotInitialized), signers: Vec::new(), payments: Vec::new() };
            },
            Some(c) => {
                if c.cancelled {
                    return Outcome {
                        result: Err(VestingError::Cancelled),
                        signers: vec![c.beneficiary.clone()],
                        payments: Vec::new(),
                    };
                }
                if c.beneficiary == new_beneficiary {
                    return Outcome {
                        result: Err(VestingError::SameBeneficiary),
                        signers: vec![c.beneficiary.clone()],
                        payments: Vec::new(),
                    };
                }
                c.beneficiary.clone()
            },
        };
        match &mut self.config {
            Some(c) => {
                c.beneficiary = new_beneficiary;
            },
            None => {},
        }
        Outcome { result: Ok(()), signers: vec![signer], payments: Vec::new() }
    }

    /// Freeze vesting at `now` until `unpause`.
    pub fn pause(&mut self, now: u64) -> (out: Outcome<(), VestingError>)
        requires
            old(self).wf(),
        ensures
            final(self).wf(),
            (*final(self), out.result) == old(self).pause_next(now),
            out.signers@ == old(self).admin_signers(),
            out.payments@ == Seq::<Payment>::empty(),
    {
        let signer = match &self.config {
            None => {
                return Outcome { result: Err(VestingError::NotInitialized), signers: Vec::new(), payments: Vec::new() };
            },
            Some(c) => {
                if c.cancelled {
                    return Outcome { result: Err(VestingError::Cancelled), signers: vec![c.admin.clone()], payments: Vec::new() };
                }
                if c.paused {
                    return Outcome { result: Err(VestingError::Paused), signers: vec![c.admin.clone()], payments: Vec::new() };
                }
                c.admin.clone()
            },
        };
        match &mut self.config {
            Some(c) => {
                c.paused = true;
                c.paused_at = Some(now);
            },
            None => {},
        }
        Outcome { result: Ok(()), signers: vec![signer], payments: Vec::new() }
    }

    /// Resume vesting at `now`, moving the start forward by the paused time so
    /// that the remaining schedule is kept whole.
    pub fn unpause(&mut self, now: u64) -> (out: Outcome<(), VestingError>)
        requires
            old(self).wf(),
        ensures
            final(self).wf(),
            (*final(self), out.result) == old(self).unpause_next(now),
            out.signers@ == old(self).admin_signers(),
            out.payments@ == Seq::<Payment>::empty(),
    {
        let signer = match &self.config {
            None => {
                return Outcome { result: Err(VestingError::NotInitialized), signers: Vec::new(), payments: Vec::new() };
            },
            Some(c) => {
                if c.cancelled {
                    return Outcome { result: Err(VestingError::Cancelled), signers: vec![c.admin.clone()], payments: Vec::new() };
                }
                if !c.paused {
                    return Outcome { result: Err(VestingError::NotPaused), signers: vec![c.admin.clone()], payments: Vec::new() };
                }
                c.admin.clone()
            },
        };
        match &mut self.config {
            Some(c) => {
                let paused_at = match c.paused_at {
                    Some(p) => p,
                    None => now,
                };
                let delta = now.saturating_sub(paused_at);
                c.start_time = c.start_time.saturating_add(delta);
                c.paused = false;
                c.paused_at = None;
            },
            None => {},
        }
        Outcome { result: Ok(()), signers: vec![signer], payments: Vec::new() }
    }

    /// The stored configuration.
    pub fn get_config(&self) -> (r: Result<VestingConfig, VestingError>)
        ensures
            r == (match self.config {
                Some(c) => Ok(c),
                None => Err(VestingError::NotInitialized),
            }),
    {
        match &self.config {
            Some(c) => Ok(copy_config(c)),
            None => Err(VestingError::NotInitialized),
        }
    }

    /// The schedule parameters: token, beneficiary, amount and timing.
    pub fn get_vesting_schedule(&self) -> (r: Result<VestingSchedule, VestingError>)
        ensures
            r == (match self.config {
                Some(c) => Ok(
                    VestingSchedule {
                        token: c.token,
                        beneficiary: c.beneficiary,
                        total_amount: c.total_amount,
                        cliff_seconds: c.cliff_seconds,
                        duration_seconds: c.duration_seconds,
                        start_time: c.start_time,
                    },
                ),
                None => Err(VestingError::NotInitialized),
            }),
    {
        match &self.config {
            Some(c) => Ok(VestingSchedule {
                token: c.token.clone(),
                beneficiary: c.beneficiary.clone(),
                total_amount: c.total_amount,
                cliff_seconds: c.cliff_seconds,
                duration_seconds: c.duration_seconds,
                start_time: c.start_time,
            }),
            None => Err(VestingError::NotInitialized),
        }
    }
}

} // verus!
