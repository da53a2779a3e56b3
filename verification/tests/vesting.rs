use std::collections::HashMap;

use stellarforge::constants;
use stellarforge::effects::{Party, Payment};
use stellarforge::vesting::{compute_vested, ForgeVesting, VestingConfig, VestingError, VestingStatus};

const TOKEN: &str = "CTOKEN";
const BENEFICIARY: &str = "GBENEFICIARY";
const ADMIN: &str = "GADMIN";
const CONTRACT: &str = "CVESTING";

/// A vesting contract together with the ledger time and token balances.
struct Chain {
    state: ForgeVesting,
    now: u64,
    balances: HashMap<String, i128>,
}

fn holder(p: &Party) -> String {
    match p {
        Party::Contract => CONTRACT.to_string(),
        Party::Account(a) => a.clone(),
    }
}

impl Chain {
    fn setup() -> Chain {
        Chain { state: ForgeVesting::new(), now: 0, balances: HashMap::new() }
    }

    fn setup_with_token() -> Chain {
        let mut c = Chain::setup();
        c.balances.insert(CONTRACT.to_string(), 1_000_000);
        c
    }

    fn settle(&mut self, payments: &[Payment]) {
        for p in payments {
            *self.balances.entry(holder(&p.from)).or_insert(0) -= p.amount;
            *self.balances.entry(holder(&p.to)).or_insert(0) += p.amount;
        }
    }

    fn balance(&self, who: &str) -> i128 {
        *self.balances.get(who).unwrap_or(&0)
    }

    fn init_as(&mut self, beneficiary: &str, admin: &str, total: i128, cliff: u64, duration: u64) -> Result<(), VestingError> {
        let o = self.state.initialize(
            TOKEN.to_string(),
            beneficiary.to_string(),
            admin.to_string(),
            total,
            cliff,
            duration,
            self.now,
        );
        o.result
    }

    fn init(&mut self, total: i128, cliff: u64, duration: u64) -> Result<(), VestingError> {
        self.init_as(BENEFICIARY, ADMIN, total, cliff, duration)
    }

    fn claim(&mut self) -> Result<i128, VestingError> {
        let o = self.state.claim(self.now);
        self.settle(&o.payments);
        o.result
    }

    fn cancel(&mut self) -> Result<(i128, i128), VestingError> {
        let o = self.state.cancel(self.now);
        self.settle(&o.payments);
        o.result
    }

    fn cancel_and_claim(&mut self) -> Result<(i128, i128), VestingError> {
        let o = self.state.cancel_and_claim(self.now);
        self.settle(&o.payments);
        o.result
    }

    fn status(&self) -> Result<VestingStatus, VestingError> {
        self.state.get_status(self.now)
    }
}

#[test]
fn test_initialize_success() {
    let mut c = Chain::setup();
    assert!(c.init(1_000_000, 100, 1000).is_ok());
}

#[test]
fn test_cancel_after_full_vesting_fails() {
    let mut c = Chain::setup();
    c.init(1_000_000, 100, 1000).unwrap();
    c.now += 1001;
    assert_eq!(c.cancel(), Err(VestingError::VestingComplete));
}

#[test]
fn test_claim_after_failed_cancel_succeeds() {
    let mut c = Chain::setup_with_token();
    c.init(1_000_000, 100, 1000).unwrap();
    c.now += 1000;
    assert_eq!(c.cancel(), Err(VestingError::VestingComplete));
    let claim_result = c.claim();
    assert!(claim_result.is_ok());
    assert_eq!(claim_result, Ok(1_000_000));
}

#[test]
fn test_compute_vested_dust_verification() {
    let mut c = Chain::setup_with_token();
    c.init(1000, 0, 3).unwrap();
    let start_ts = c.now;
    c.now = start_ts + 1;
    let v1 = c.claim().unwrap();
    assert_eq!(v1, 333);
    c.now = start_ts + 2;
    let v2 = c.claim().unwrap();
    assert_eq!(v2, 333);
    c.now = start_ts + 3;
    let v3 = c.claim().unwrap();
    assert_eq!(v3, 334);
    assert_eq!(v1 + v2 + v3, 1000);
}

#[test]
fn test_double_initialize_fails() {
    let mut c = Chain::setup();
    c.init(1_000_000, 100, 1000).unwrap();
    let result = c.init_as("GNEWBENEFICIARY", "GNEWADMIN", 9_999_999, 500, 5000);
    assert_eq!(result, Err(VestingError::AlreadyInitialized));
    let config = c.state.get_config().unwrap();
    assert_eq!(config.token, TOKEN);
    assert_eq!(config.beneficiary, BENEFICIARY);
    assert_eq!(config.admin, ADMIN);
    assert_eq!(config.total_amount, 1_000_000);
    assert_eq!(config.cliff_seconds, 100);
    assert_eq!(config.duration_seconds, 1000);
    assert!(!config.cancelled);
}

#[test]
fn test_claim_before_cliff_fails() {
    let mut c = Chain::setup();
    c.init(1_000_000, 500, 1000).unwrap();
    c.now += 100;
    assert_eq!(c.claim(), Err(VestingError::CliffNotReached));
}

#[test]
fn test_get_status_before_cliff() {
    let mut c = Chain::setup();
    c.init(1_000_000, 500, 1000).unwrap();
    let status = c.status().unwrap();
    assert!(!status.cliff_reached);
    assert_eq!(status.claimable, 0);
    assert_eq!(status.claimed, 0);
}

#[test]
fn test_get_vesting_schedule_returns_init_params() {
    let mut c = Chain::setup();
    assert_eq!(c.init(1_000_000, 2000, 1000), Err(VestingError::InvalidConfig));
}

#[test]
fn test_cancel_by_admin() {
    let mut c = Chain::setup_with_token();
    c.init(2_500_000, 200, 5000).unwrap();
    let schedule = c.state.get_vesting_schedule().unwrap();
    assert_eq!(schedule.token, TOKEN);
    assert_eq!(schedule.beneficiary, BENEFICIARY);
    assert_eq!(schedule.total_amount, 2_500_000);
    assert_eq!(schedule.cliff_seconds, 200);
    assert_eq!(schedule.duration_seconds, 5000);
    assert_eq!(schedule.start_time, c.now);
}

#[test]
fn test_get_vesting_schedule_matches_init_params() {
    let mut c = Chain::setup();
    let total = 10_000_000_i128;
    let cliff = 86400_u64;
    let duration = 31536000_u64;
    c.init(total, cliff, duration).unwrap();
    let schedule = c.state.get_vesting_schedule().unwrap();
    assert_eq!(schedule.total_amount, total);
    assert_eq!(schedule.cliff_seconds, cliff);
    assert_eq!(schedule.duration_seconds, duration);
}

#[test]
fn test_double_cancel_fails() {
    let mut c = Chain::setup_with_token();
    c.init(1_000_000, 100, 1000).unwrap();
    c.cancel().unwrap();
    assert_eq!(c.cancel(), Err(VestingError::Cancelled));
}

#[test]
fn test_get_vesting_schedule_fails_when_not_initialized() {
    let c = Chain::setup();
    assert_eq!(c.state.get_vesting_schedule(), Err(VestingError::NotInitialized));
}

#[test]
fn lib_test_invalid_config_rejected() {
    let mut c = Chain::setup();
    assert_eq!(c.init(1_000_000, 2000, 1000), Err(VestingError::InvalidConfig));
}

#[test]
fn test_initialize_total_amount_zero_returns_invalid_config() {
    let mut c = Chain::setup();
    assert_eq!(c.init(0, 100, 1000), Err(VestingError::InvalidConfig));
    assert_eq!(c.state.get_config(), Err(VestingError::NotInitialized));
}

#[test]
fn test_initialize_total_amount_negative_returns_invalid_config() {
    let mut c = Chain::setup();
    assert_eq!(c.init(-1, 100, 1000), Err(VestingError::InvalidConfig));
    assert_eq!(c.state.get_config(), Err(VestingError::NotInitialized));
}

#[test]
fn test_initialize_duration_zero_returns_invalid_config() {
    let mut c = Chain::setup();
    assert_eq!(c.init(1_000_000, 100, 0), Err(VestingError::InvalidConfig));
    assert_eq!(c.state.get_config(), Err(VestingError::NotInitialized));
}

#[test]
fn test_valid_initialize_succeeds_after_invalid_attempts() {
    let mut c = Chain::setup();
    assert_eq!(c.init(0, 100, 1000), Err(VestingError::InvalidConfig));
    assert_eq!(c.state.get_config(), Err(VestingError::NotInitialized));
    assert_eq!(c.init(-1, 100, 1000), Err(VestingError::InvalidConfig));
    assert_eq!(c.state.get_config(), Err(VestingError::NotInitialized));
    assert_eq!(c.init(1_000_000, 100, 0), Err(VestingError::InvalidConfig));
    assert_eq!(c.state.get_config(), Err(VestingError::NotInitialized));
    assert_eq!(c.init(1_000_000, 2000, 1000), Err(VestingError::InvalidConfig));
    assert_eq!(c.state.get_config(), Err(VestingError::NotInitialized));
    assert!(c.init(1_000_000, 100, 1000).is_ok());
    let config = c.state.get_config().unwrap();
    assert_eq!(config.token, TOKEN);
    assert_eq!(config.beneficiary, BENEFICIARY);
    assert_eq!(config.admin, ADMIN);
    assert_eq!(config.total_amount, 1_000_000);
    assert_eq!(config.cliff_seconds, 100);
    assert_eq!(config.duration_seconds, 1000);
    assert!(!config.cancelled);
    assert!(!config.paused);
}

#[test]
fn test_initialize_invalid_amount_and_duration_rejected_without_storing_config() {
    let mut c = Chain::setup();
    assert_eq!(c.init(0, 100, 1000), Err(VestingError::InvalidConfig));
    assert_eq!(c.state.get_vesting_schedule(), Err(VestingError::NotInitialized));
    assert_eq!(c.init(-1, 100, 1000), Err(VestingError::InvalidConfig));
    assert_eq!(c.state.get_vesting_schedule(), Err(VestingError::NotInitialized));
    assert_eq!(c.init(1_000_000, 0, 0), Err(VestingError::InvalidConfig));
    assert_eq!(c.state.get_vesting_schedule(), Err(VestingError::NotInitialized));
    assert!(c.init(1_000_000, 100, 1000).is_ok());
    let schedule = c.state.get_vesting_schedule().unwrap();
    assert_eq!(schedule.total_amount, 1_000_000);
    assert_eq!(schedule.cliff_seconds, 100);
    assert_eq!(schedule.duration_seconds, 1000);
}

#[test]
fn lib_test_cancel_by_admin() {
    let mut c = Chain::setup_with_token();
    c.init(1_000_000, 100, 1000).unwrap();
    assert!(c.cancel().is_ok());
}

#[test]
fn lib_test_double_cancel_fails() {
    let mut c = Chain::setup_with_token();
    c.init(1_000_000, 100, 1000).unwrap();
    c.cancel().unwrap();
    assert_eq!(c.cancel(), Err(VestingError::Cancelled));
}

#[test]
fn test_fully_vested_after_duration() {
    let mut c = Chain::setup();
    c.init(1_000_000, 100, 1000).unwrap();
    c.now += 2000;
    let status = c.status().unwrap();
    assert!(status.fully_vested);
    assert_eq!(status.vested, 1_000_000);
}

#[test]
fn test_get_status_after_partial_claim_then_time_advance() {
    let mut c = Chain::setup_with_token();
    c.now = 0;
    c.init(10_000, 0, 1000).unwrap();
    c.now = 200;
    let s = c.status().unwrap();
    assert_eq!(s.vested, 2_000);
    assert_eq!(s.claimed, 0);
    assert_eq!(s.claimable, 2_000);
    c.claim().unwrap();
    let s = c.status().unwrap();
    assert_eq!(s.vested, 2_000);
    assert_eq!(s.claimed, 2_000);
    assert_eq!(s.claimable, 0);
    c.now = 500;
    let s = c.status().unwrap();
    assert_eq!(s.vested, 5_000);
    assert_eq!(s.claimed, 2_000);
    assert_eq!(s.claimable, 3_000);
    c.claim().unwrap();
    let s = c.status().unwrap();
    assert_eq!(s.claimed, 5_000);
    assert_eq!(s.claimable, 0);
}

#[test]
fn test_cancel_before_cliff_beneficiary_gets_zero_admin_gets_all() {
    let mut c = Chain::setup_with_token();
    c.init(1_000_000, 500, 1000).unwrap();
    c.now += 100;
    c.cancel().unwrap();
    assert_eq!(c.balance(BENEFICIARY), 0);
    assert_eq!(c.balance(ADMIN), 1_000_000);
}

#[test]
fn test_cancel_after_cliff_splits_tokens_correctly() {
    let mut c = Chain::setup_with_token();
    c.init(1_000_000, 100, 1000).unwrap();
    c.now += 400;
    c.claim().unwrap();
    c.cancel().unwrap();
    assert_eq!(c.balance(BENEFICIARY), 400_000);
    assert_eq!(c.balance(ADMIN), 600_000);
}

#[test]
fn test_cancel_without_claim_sends_vested_to_beneficiary() {
    let mut c = Chain::setup_with_token();
    c.init(1_000_000, 100, 1000).unwrap();
    c.now += 400;
    c.cancel().unwrap();
    assert_eq!(c.balance(BENEFICIARY), 400_000);
    assert_eq!(c.balance(ADMIN), 600_000);
}

#[test]
fn test_transfer_admin_success() {
    let mut c = Chain::setup();
    c.init(1_000_000, 100, 1000).unwrap();
    let out = c.state.transfer_admin("GNEWADMIN".to_string());
    assert!(out.result.is_ok());
    assert_eq!(c.state.get_config().unwrap().admin, "GNEWADMIN");
}

#[test]
fn test_transfer_admin_same_admin_fails() {
    let mut c = Chain::setup();
    c.init(1_000_000, 100, 1000).unwrap();
    let out = c.state.transfer_admin(ADMIN.to_string());
    assert_eq!(out.result, Err(VestingError::SameAdmin));
}

#[test]
fn test_transfer_admin_allows_new_admin_to_cancel_old_admin_cannot() {
    let mut c = Chain::setup_with_token();
    c.init(1_000_000, 100, 1000).unwrap();
    assert!(c.state.transfer_admin("GADMINB".to_string()).result.is_ok());
    // cancel now demands the new admin's authorization, not the old one's
    let before = c.state.clone();
    let out = c.state.cancel(c.now);
    assert_eq!(out.signers, vec!["GADMINB".to_string()]);
    assert!(!out.signers.contains(&ADMIN.to_string()));
    c.state = before;
    c.cancel().unwrap();
    assert_eq!(c.balance(BENEFICIARY), 0);
    assert_eq!(c.balance("GADMINB"), 1_000_000);
}

#[test]
fn test_transfer_admin_then_cancel_before_cliff_unvested_goes_to_new_admin() {
    let mut c = Chain::setup_with_token();
    c.now = 0;
    c.init(1_000_000, 500, 1000).unwrap();
    c.state.transfer_admin("GADMINB".to_string());
    c.now = 100;
    c.cancel().unwrap();
    assert_eq!(c.balance(BENEFICIARY), 0);
    assert_eq!(c.balance(ADMIN), 0);
    assert_eq!(c.balance("GADMINB"), 1_000_000);
}

#[test]
fn test_transfer_admin_by_non_admin_fails() {
    let mut c = Chain::setup();
    c.init(1_000_000, 100, 1000).unwrap();
    let out = c.state.transfer_admin("GOUTSIDER".to_string());
    // only the current admin can authorize the transfer
    assert_eq!(out.signers, vec![ADMIN.to_string()]);
}

#[test]
fn test_zero_cliff_initialize_succeeds() {
    let mut c = Chain::setup();
    assert!(c.init(1_000_000, 0, 1000).is_ok());
}

#[test]
fn test_zero_cliff_claim_succeeds_immediately() {
    let mut c = Chain::setup_with_token();
    c.init(1_000_000, 0, 1000).unwrap();
    c.now += 100;
    assert!(c.claim().is_ok());
}

#[test]
fn test_zero_cliff_correct_vested_amount_at_halfway() {
    let mut c = Chain::setup_with_token();
    c.init(1_000_000, 0, 1000).unwrap();
    c.now += 500;
    let status = c.status().unwrap();
    assert!(status.cliff_reached);
    assert_eq!(status.vested, 500_000);
    assert_eq!(status.claimable, 500_000);
}

#[test]
fn test_zero_cliff_claim_immediately_after_initialize() {
    let mut c = Chain::setup_with_token();
    c.init(1_000_000, 0, 1000).unwrap();
    assert_eq!(c.claim(), Err(VestingError::NothingToClaim));
}

#[test]
fn test_zero_cliff_vesting_starts_immediately() {
    let mut c = Chain::setup_with_token();
    c.init(1_000_000, 0, 1000).unwrap();
    c.now += 1;
    let status = c.status().unwrap();
    assert!(status.cliff_reached);
    assert_eq!(status.vested, 1_000);
    assert_eq!(status.claimable, 1_000);
}

#[test]
fn test_transfer_admin_to_beneficiary_fails() {
    let mut c = Chain::setup();
    c.init(1_000_000, 100, 1000).unwrap();
    assert_eq!(c.state.transfer_admin(BENEFICIARY.to_string()).result, Err(VestingError::BeneficiaryAsAdmin));
}

#[test]
fn test_initialize_with_admin_as_beneficiary_fails() {
    let mut c = Chain::setup();
    assert_eq!(c.init_as("GSAME", "GSAME", 1_000_000, 100, 1000), Err(VestingError::BeneficiaryAsAdmin));
}

#[test]
fn test_change_beneficiary_success() {
    let mut c = Chain::setup();
    c.init(1_000_000, 100, 1000).unwrap();
    let out = c.state.change_beneficiary("GNEWBENEFICIARY".to_string());
    assert!(out.result.is_ok());
    assert_eq!(out.signers, vec![BENEFICIARY.to_string()]);
    assert_eq!(c.state.get_config().unwrap().beneficiary, "GNEWBENEFICIARY");
}

#[test]
fn test_change_beneficiary_to_same_beneficiary_fails() {
    let mut c = Chain::setup();
    c.init(1_000_000, 100, 1000).unwrap();
    assert_eq!(c.state.change_beneficiary(BENEFICIARY.to_string()).result, Err(VestingError::SameBeneficiary));
}

#[test]
fn test_change_beneficiary_preserves_claimed_amount() {
    let mut c = Chain::setup_with_token();
    c.init(1_000_000, 100, 1000).unwrap();
    c.now += 500;
    let claimed_amount = c.claim().unwrap();
    c.state.change_beneficiary("GNEWBENEFICIARY".to_string()).result.unwrap();
    assert_eq!(c.status().unwrap().claimed, claimed_amount);
    c.now += 500;
    let before = c.balance("GNEWBENEFICIARY");
    c.claim().unwrap();
    assert!(c.balance("GNEWBENEFICIARY") > before);
}

#[test]
fn test_change_beneficiary_not_initialized_fails() {
    let mut c = Chain::setup();
    assert_eq!(c.state.change_beneficiary("GNEW".to_string()).result, Err(VestingError::NotInitialized));
}

#[test]
fn test_change_beneficiary_cancelled_fails() {
    let mut c = Chain::setup_with_token();
    c.init(1_000_000, 100, 1000).unwrap();
    c.cancel().unwrap();
    assert_eq!(c.state.change_beneficiary("GNEW".to_string()).result, Err(VestingError::Cancelled));
}

#[test]
fn test_fully_vested_claim_remaining_tokens() {
    const TOTAL: i128 = constants::test::MEDIUM_AMOUNT;
    const CLIFF: u64 = constants::test::NO_CLIFF;
    const DURATION: u64 = constants::test::LONG_DURATION;
    let mut c = Chain::setup();
    c.balances.insert(CONTRACT.to_string(), TOTAL);
    c.now = 0;
    c.init(TOTAL, CLIFF, DURATION).unwrap();
    c.now = DURATION / 2;
    let partial = c.claim().unwrap();
    assert!(partial > 0);
    c.now = DURATION + 1;
    let status = c.status().unwrap();
    assert!(status.fully_vested);
    assert_eq!(status.claimable, TOTAL - partial);
    let before = c.balance(BENEFICIARY);
    let remaining = c.claim().unwrap();
    assert_eq!(remaining, TOTAL - partial);
    assert_eq!(c.balance(BENEFICIARY), before + remaining);
    assert_eq!(c.claim(), Err(VestingError::NothingToClaim));
}

#[test]
fn test_cliff_equals_duration_initialize_succeeds() {
    let mut c = Chain::setup_with_token();
    assert!(c.init(1_000_000, 500, 500).is_ok());
}

#[test]
fn test_cliff_equals_duration_before_cliff_claimable_is_zero() {
    let mut c = Chain::setup_with_token();
    c.init(1_000_000, 500, 500).unwrap();
    c.now += 499;
    let status = c.status().unwrap();
    assert!(!status.cliff_reached);
    assert_eq!(status.claimable, 0);
    assert_eq!(status.vested, 0);
    assert_eq!(c.claim(), Err(VestingError::CliffNotReached));
}

#[test]
fn test_cliff_equals_duration_at_cliff_all_tokens_vested() {
    let mut c = Chain::setup_with_token();
    c.init(1_000_000, 500, 500).unwrap();
    c.now += 500;
    let status = c.status().unwrap();
    assert!(status.cliff_reached);
    assert!(status.fully_vested);
    assert_eq!(status.vested, 1_000_000);
    assert_eq!(status.claimable, 1_000_000);
}

#[test]
fn test_cliff_equals_duration_claim_transfers_full_amount_in_one_call() {
    let mut c = Chain::setup_with_token();
    c.init(1_000_000, 500, 500).unwrap();
    c.now += 500;
    assert_eq!(c.claim(), Ok(1_000_000));
    assert_eq!(c.balance(BENEFICIARY), 1_000_000);
    assert_eq!(c.claim(), Err(VestingError::NothingToClaim));
}

#[test]
fn test_invariant_claimed_never_exceeds_vested() {
    let mut c = Chain::setup_with_token();
    let total_amount = 1_000_000_i128;
    let cliff_seconds = 100_u64;
    c.init(total_amount, cliff_seconds, 1000).unwrap();
    let mut cumulative_claimed = 0_i128;
    for &timestamp in &[50_u64, 100, 300, 550, 800, 1000, 1500] {
        c.now = timestamp;
        let status = c.status().unwrap();
        assert!(status.claimed <= status.vested);
        assert!(status.vested <= status.total_amount);
        assert!(status.claimed <= status.total_amount);
        if timestamp >= cliff_seconds && status.claimable > 0 {
            let claimed_now = c.claim().unwrap();
            cumulative_claimed += claimed_now;
            assert!(claimed_now > 0);
            assert!(claimed_now <= status.claimable);
            let after = c.status().unwrap();
            assert!(after.claimed <= after.vested);
            assert!(after.vested <= after.total_amount);
            assert_eq!(cumulative_claimed, after.claimed);
        }
    }
    assert_eq!(c.status().unwrap().claimed, total_amount);
    assert_eq!(cumulative_claimed, total_amount);
}

#[test]
fn test_pause_already_paused_returns_paused_not_unauthorized() {
    let mut c = Chain::setup();
    c.init(1_000_000, 0, 1000).unwrap();
    assert!(c.state.pause(c.now).result.is_ok());
    assert_eq!(c.state.pause(c.now).result, Err(VestingError::Paused));
    assert!(c.state.unpause(c.now).result.is_ok());
    assert_eq!(c.state.unpause(c.now).result, Err(VestingError::NotPaused));
}

#[test]
fn test_pause_freezes_vested_amount_and_blocks_claim() {
    let mut c = Chain::setup_with_token();
    c.init(1_000_000, 0, 1000).unwrap();
    c.now = 500;
    c.state.pause(c.now).result.unwrap();
    let status = c.status().unwrap();
    assert!(status.paused);
    assert_eq!(status.vested, 500_000);
    assert_eq!(c.claim(), Err(VestingError::Paused));
}

#[test]
fn test_vested_amount_does_not_increase_while_paused() {
    let mut c = Chain::setup_with_token();
    c.init(1_000_000, 0, 1000).unwrap();
    c.now = 500;
    c.state.pause(c.now).result.unwrap();
    let at_pause = c.status().unwrap().vested;
    c.now += 30 * 24 * 3600;
    assert_eq!(at_pause, c.status().unwrap().vested);
}

#[test]
fn test_unpause_shifts_timeline_correctly() {
    let mut c = Chain::setup_with_token();
    c.init(1_000_000, 0, 1000).unwrap();
    let original_start = c.state.get_config().unwrap().start_time;
    c.now = 500;
    c.state.pause(c.now).result.unwrap();
    c.now = 700;
    c.state.unpause(c.now).result.unwrap();
    let config = c.state.get_config().unwrap();
    assert!(!config.paused);
    assert_eq!(config.paused_at, None);
    assert_eq!(config.start_time, original_start + 200);
    assert_eq!(config.start_time + config.duration_seconds, original_start + 200 + 1000);
}

#[test]
fn test_unpause_paused_time_excluded_from_vested_amounts() {
    let mut c = Chain::setup_with_token();
    c.now = 0;
    c.init(10_000, 0, 1000).unwrap();
    c.now = 200;
    c.state.pause(c.now).result.unwrap();
    assert_eq!(c.status().unwrap().vested, 2_000);
    c.now = 400;
    c.state.unpause(c.now).result.unwrap();
    assert_eq!(c.state.get_config().unwrap().start_time, 200);
    c.now = 600;
    let status = c.status().unwrap();
    assert_eq!(status.vested, 4_000);
    assert!(!status.fully_vested);
    assert_eq!(c.claim(), Ok(4_000));
    c.now = 1200;
    let status = c.status().unwrap();
    assert!(status.fully_vested);
    assert_eq!(status.vested, 10_000);
}

#[test]
fn test_non_admin_cannot_pause_or_unpause() {
    let mut c = Chain::setup();
    c.init(1_000_000, 0, 1000).unwrap();
    let out = c.state.pause(c.now);
    assert_eq!(out.signers, vec![ADMIN.to_string()]);
    let out = c.state.unpause(c.now);
    assert_eq!(out.signers, vec![ADMIN.to_string()]);
}

#[test]
fn test_sequential_claims_accumulate_correctly() {
    const TOTAL: i128 = constants::test::LARGE_AMOUNT;
    const DURATION: u64 = constants::test::MEDIUM_DURATION;
    let mut c = Chain::setup_with_token();
    c.init(TOTAL, 0, DURATION).unwrap();
    let mut sum = 0;
    for t in [250_u64, 500, 750, 1000] {
        c.now = t;
        let got = c.claim().unwrap();
        assert_eq!(got, 250_000);
        sum += got;
    }
    assert_eq!(sum, TOTAL);
    let status = c.status().unwrap();
    assert_eq!(status.claimed, TOTAL);
    assert!(status.fully_vested);
    assert_eq!(c.claim(), Err(VestingError::NothingToClaim));
}

#[test]
fn test_claim_one_second_before_cliff_fails() {
    let mut c = Chain::setup_with_token();
    c.init(1_000_000, 500, 1000).unwrap();
    c.now = 499;
    assert_eq!(c.claim(), Err(VestingError::CliffNotReached));
}

#[test]
fn test_claim_exactly_at_cliff_succeeds() {
    let mut c = Chain::setup_with_token();
    c.init(1_000_000, 500, 1000).unwrap();
    c.now = 500;
    assert_eq!(c.claim(), Ok(500_000));
}

#[test]
fn test_claim_correct_amount_at_multiple_time_points() {
    const TOTAL: i128 = constants::test::LARGE_AMOUNT;
    let mut c = Chain::setup_with_token();
    c.init(TOTAL, constants::test::MEDIUM_CLIFF, constants::test::MEDIUM_DURATION).unwrap();
    c.now = 250;
    assert_eq!(c.claim(), Err(VestingError::CliffNotReached));
    c.now = 500;
    assert_eq!(c.claim(), Ok(500_000));
    c.now = 750;
    assert_eq!(c.claim(), Ok(250_000));
    c.now = 1000;
    assert_eq!(c.claim(), Ok(250_000));
    assert_eq!(c.status().unwrap().claimed, TOTAL);
}

#[test]
fn test_event_data_of_cancel_split() {
    let mut c = Chain::setup_with_token();
    c.init(1_000_000, 0, 1000).unwrap();
    c.now = 400;
    let out = c.state.cancel(c.now);
    // (to_beneficiary, to_admin), as the cancellation event reports them
    assert_eq!(out.result, Ok((400_000, 600_000)));
    assert_eq!(out.signers, vec![ADMIN.to_string()]);
    assert_eq!(out.payments.len(), 2);
    assert_eq!(out.payments[0].to, Party::Account(BENEFICIARY.to_string()));
    assert_eq!(out.payments[0].amount, 400_000);
    assert_eq!(out.payments[1].to, Party::Account(ADMIN.to_string()));
    assert_eq!(out.payments[1].amount, 600_000);
}

#[test]
fn test_cancel_and_claim_before_cliff_beneficiary_gets_zero() {
    let mut c = Chain::setup_with_token();
    c.init(1_000_000, 500, 1000).unwrap();
    c.now += 100;
    assert_eq!(c.cancel_and_claim(), Ok((0, 1_000_000)));
    assert_eq!(c.balance(BENEFICIARY), 0);
    assert_eq!(c.balance(ADMIN), 1_000_000);
}

#[test]
fn test_cancel_and_claim_after_cliff_splits_correctly() {
    let mut c = Chain::setup_with_token();
    c.init(1_000_000, 100, 1000).unwrap();
    c.now += 400;
    assert_eq!(c.cancel_and_claim(), Ok((400_000, 600_000)));
    assert_eq!(c.balance(BENEFICIARY), 400_000);
    assert_eq!(c.balance(ADMIN), 600_000);
}

#[test]
fn test_cancel_and_claim_fully_vested_admin_gets_zero() {
    let mut c = Chain::setup_with_token();
    c.init(1_000_000, 0, 1000).unwrap();
    c.now += 1000;
    let out = c.state.cancel_and_claim(c.now);
    assert_eq!(out.signers, vec![ADMIN.to_string(), BENEFICIARY.to_string()]);
    assert_eq!(out.result, Ok((1_000_000, 0)));
    c.settle(&out.payments);
    assert_eq!(c.balance(BENEFICIARY), 1_000_000);
    assert_eq!(c.balance(ADMIN), 0);
}

#[test]
fn test_vesting_status_vested_reflects_cancel_time_not_zero() {
    let mut c = Chain::setup_with_token();
    c.init(1_000_000, 0, 1000).unwrap();
    c.now += 400;
    c.cancel().unwrap();
    c.now += 600;
    let status = c.status().unwrap();
    assert_eq!(status.vested, 400_000, "vested should reflect amount at cancel time");
    assert_eq!(status.claimable, 0, "claimable should be 0 after cancel pays out");
}

#[test]
fn test_claimable_at_exactly_cliff_is_correct() {
    let mut c = Chain::setup_with_token();
    c.init(constants::test::MEDIUM_AMOUNT, constants::test::SHORT_CLIFF, constants::test::MEDIUM_DURATION).unwrap();
    c.now = 100;
    assert_eq!(c.status().unwrap().claimable, 1_000);
    assert_eq!(c.claim(), Ok(1_000));
}

#[test]
fn test_claimable_at_cliff_plus_one_is_correct() {
    let mut c = Chain::setup_with_token();
    c.init(constants::test::MEDIUM_AMOUNT, constants::test::SHORT_CLIFF, constants::test::MEDIUM_DURATION).unwrap();
    c.now = 101;
    assert_eq!(c.status().unwrap().claimable, 1_010);
    assert_eq!(c.claim(), Ok(1_010));
}

#[test]
fn test_claimable_at_duration_minus_one_is_correct() {
    let mut c = Chain::setup_with_token();
    c.init(constants::test::MEDIUM_AMOUNT, constants::test::SHORT_CLIFF, constants::test::MEDIUM_DURATION).unwrap();
    c.now = 999;
    assert_eq!(c.status().unwrap().claimable, 9_990);
    assert_eq!(c.claim(), Ok(9_990));
}

#[test]
fn test_claimable_at_full_duration_is_total_amount() {
    let mut c = Chain::setup_with_token();
    c.init(constants::test::MEDIUM_AMOUNT, constants::test::SHORT_CLIFF, constants::test::MEDIUM_DURATION).unwrap();
    c.now = 1000;
    assert_eq!(c.status().unwrap().claimable, constants::test::MEDIUM_AMOUNT);
    assert_eq!(c.claim(), Ok(constants::test::MEDIUM_AMOUNT));
}

#[test]
fn test_sequential_claim_duration_minus_one_then_duration_sums_to_total() {
    let mut c = Chain::setup_with_token();
    c.init(constants::test::MEDIUM_AMOUNT, constants::test::SHORT_CLIFF, constants::test::MEDIUM_DURATION).unwrap();
    c.now = 999;
    let first = c.claim().unwrap();
    assert_eq!(first, 9_990);
    c.now = 1000;
    let second = c.claim().unwrap();
    assert_eq!(second, 10);
    assert_eq!(first + second, constants::test::MEDIUM_AMOUNT);
}

#[test]
fn test_unpause_when_not_paused_returns_not_paused() {
    let mut c = Chain::setup();
    c.init(1_000_000, 100, 1000).unwrap();
    assert_eq!(c.state.unpause(c.now).result, Err(VestingError::NotPaused));
}

#[test]
fn test_cancel_and_claim_while_paused_returns_paused() {
    let mut c = Chain::setup();
    c.init(1_000_000, 100, 1000).unwrap();
    c.state.pause(c.now).result.unwrap();
    assert_eq!(c.cancel_and_claim(), Err(VestingError::Paused));
}

#[test]
fn test_pause_when_already_paused_returns_paused() {
    let mut c = Chain::setup();
    c.init(1_000_000, 100, 1000).unwrap();
    c.state.pause(c.now).result.unwrap();
    assert_eq!(c.state.pause(c.now).result, Err(VestingError::Paused));
}

#[test]
fn uninitialized_contract_reports_not_initialized() {
    let mut c = Chain::setup();
    assert_eq!(c.claim(), Err(VestingError::NotInitialized));
    assert_eq!(c.cancel(), Err(VestingError::NotInitialized));
    assert_eq!(c.status(), Err(VestingError::NotInitialized));
    assert_eq!(c.state.pause(0).result, Err(VestingError::NotInitialized));
    assert_eq!(c.state.unpause(0).result, Err(VestingError::NotInitialized));
    assert_eq!(c.state.transfer_admin("G".to_string()).result, Err(VestingError::NotInitialized));
    assert!(c.state.claim(0).signers.is_empty());
}

#[test]
fn failed_calls_leave_state_unchanged() {
    let mut c = Chain::setup_with_token();
    c.init(1_000_000, 500, 1000).unwrap();
    c.now = 100;
    let before = c.state.clone();
    assert_eq!(c.claim(), Err(VestingError::CliffNotReached));
    assert_eq!(c.state, before);
    assert_eq!(c.balance(BENEFICIARY), 0);
}

#[test]
fn initialize_asks_admin_authorization_and_well_formed() {
    let mut c = Chain::setup();
    let out = c.state.initialize(TOKEN.to_string(), BENEFICIARY.to_string(), ADMIN.to_string(), 5, 0, 10, 7);
    assert_eq!(out.signers, vec![ADMIN.to_string()]);
    assert!(out.payments.is_empty());
    assert!(c.state.well_formed());
    assert_eq!(c.state.get_config().unwrap().start_time, 7);
}

#[test]
fn paused_schedule_refuses_claims_without_computing_vesting() {
    let mut s = ForgeVesting::new();
    s.initialize(TOKEN.to_string(), BENEFICIARY.to_string(), ADMIN.to_string(), i128::MAX, 0, u64::MAX, 0)
        .result
        .unwrap();
    assert_eq!(s.pause(10).result, Ok(()));
    assert!(!s.fits_at(10));
    assert!(s.claim_fits_at(10));
    assert!(s.cancel_and_claim_fits_at(10));
    assert!(!s.cancel_fits_at(10));
    assert_eq!(s.claim(10).result, Err(VestingError::Paused));
    assert_eq!(s.cancel_and_claim(10).result, Err(VestingError::Paused));
}

#[test]
fn cancel_after_duration_refused_without_computing_vesting() {
    let mut s = ForgeVesting::new();
    s.initialize(TOKEN.to_string(), BENEFICIARY.to_string(), ADMIN.to_string(), i128::MAX, 0, 100, 0)
        .result
        .unwrap();
    assert_eq!(s.pause(50).result, Ok(()));
    assert!(!s.fits_at(200));
    assert!(s.cancel_fits_at(200));
    assert_eq!(s.cancel(200).result, Err(VestingError::VestingComplete));
}

#[test]
fn claim_before_cliff_needs_no_computation() {
    let mut s = ForgeVesting::new();
    s.initialize(TOKEN.to_string(), BENEFICIARY.to_string(), ADMIN.to_string(), i128::MAX, 100, 1000, 0)
        .result
        .unwrap();
    assert!(s.claim_fits_at(50));
    assert_eq!(s.claim(50).result, Err(VestingError::CliffNotReached));
    assert!(!s.claim_fits_at(500));
}

#[test]
fn compute_vested_on_any_configuration() {
    let mut c = VestingConfig {
        token: TOKEN.to_string(),
        beneficiary: BENEFICIARY.to_string(),
        admin: ADMIN.to_string(),
        total_amount: -1000,
        start_time: 0,
        cliff_seconds: 0,
        duration_seconds: 3,
        cancelled: false,
        paused: false,
        paused_at: None,
    };
    // -1000 * 1 / 3 rounds toward zero.
    assert_eq!(compute_vested(&c, 1), -333);
    c.duration_seconds = 0;
    assert_eq!(compute_vested(&c, 1), -1000);
    c.total_amount = 1000;
    c.cliff_seconds = 10;
    c.duration_seconds = 5;
    assert_eq!(compute_vested(&c, 7), 0);
    assert_eq!(compute_vested(&c, 10), 1000);
}
