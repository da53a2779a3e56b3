use std::collections::HashMap;

use stellarforge::constants;
use stellarforge::effects::{Party, Payment};
use stellarforge::factory::{FactoryError, ForgeVestingFactory, VestingStatus};

const TOKEN: &str = "CTOKEN";
const CONTRACT: &str = "CFACTORY";

/// A factory contract together with the ledger time and token balances.
struct Chain {
    factory: ForgeVestingFactory,
    now: u64,
    balances: HashMap<String, i128>,
}

fn holder(p: &Party) -> String {
    match p {
        Party::Contract => CONTRACT.to_string(),
        Party::Account(a) => a.clone(),
    }
}

impl Chain {
    fn new() -> Chain {
        Chain { factory: ForgeVestingFactory::new(), now: 0, balances: HashMap::new() }
    }

    /// Mints `amount` tokens to `admin`.
    fn setup_token(&mut self, admin: &str, amount: i128) {
        *self.balances.entry(admin.to_string()).or_insert(0) += amount;
    }

    fn settle(&mut self, payments: &[Payment]) {
        for p in payments {
            let from = holder(&p.from);
            assert!(self.balance(&from) >= p.amount, "insufficient balance");
            *self.balances.entry(from).or_insert(0) -= p.amount;
            *self.balances.entry(holder(&p.to)).or_insert(0) += p.amount;
        }
    }

    fn balance(&self, who: &str) -> i128 {
        *self.balances.get(who).unwrap_or(&0)
    }

    fn create(&mut self, beneficiary: &str, admin: &str, total: i128, cliff: u64, duration: u64) -> Result<u64, FactoryError> {
        let o = self.factory.create_schedule(
            TOKEN.to_string(),
            beneficiary.to_string(),
            admin.to_string(),
            total,
            cliff,
            duration,
            self.now,
        );
        self.settle(&o.payments);
        o.result
    }

    fn claim(&mut self, id: u64) -> Result<i128, FactoryError> {
        let o = self.factory.claim(id, self.now);
        self.settle(&o.payments);
        o.result
    }

    fn cancel(&mut self, id: u64) -> Result<(), FactoryError> {
        let o = self.factory.cancel(id, self.now);
        self.settle(&o.payments);
        o.result
    }

    fn status(&self, id: u64) -> Result<VestingStatus, FactoryError> {
        self.factory.get_status(id, self.now)
    }
}

const SMALL: i128 = constants::test::SMALL_AMOUNT;

#[test]
fn test_create_schedule_success() {
    let mut c = Chain::new();
    c.setup_token("GADMIN", SMALL);
    let id = c.create("GBEN", "GADMIN", SMALL, constants::test::SHORT_CLIFF, constants::test::MEDIUM_DURATION).unwrap();
    assert_eq!(id, 0);
    assert_eq!(c.factory.get_schedule_count(), 1);
}

#[test]
fn test_create_multiple_schedules_sequential_ids() {
    let mut c = Chain::new();
    c.setup_token("GADMIN", 3_000);
    for expected_id in 0u64..3 {
        let b = format!("GBEN{}", expected_id);
        let id = c.create(&b, "GADMIN", 1_000, 0, 1_000).unwrap();
        assert_eq!(id, expected_id);
    }
    assert_eq!(c.factory.get_schedule_count(), 3);
}

#[test]
fn test_claim_after_cliff() {
    let mut c = Chain::new();
    c.setup_token("GADMIN", SMALL);
    let id = c.create("GBEN", "GADMIN", SMALL, constants::test::SHORT_CLIFF, constants::test::MEDIUM_DURATION).unwrap();
    c.now = constants::test::SHORT_DURATION / 2;
    assert_eq!(c.claim(id), Err(FactoryError::CliffNotReached));
    c.now = constants::test::MEDIUM_CLIFF;
    let claimed = c.claim(id).unwrap();
    assert_eq!(claimed, SMALL / 2);
    let status = c.status(id).unwrap();
    assert_eq!(status.claimed, SMALL / 2);
    assert_eq!(status.claimable, 0);
}

#[test]
fn test_claim_nothing_to_claim_after_full_claim() {
    let mut c = Chain::new();
    c.setup_token("GADMIN", SMALL);
    let id = c.create("GBEN", "GADMIN", SMALL, constants::test::NO_CLIFF, constants::test::MEDIUM_DURATION).unwrap();
    c.now = constants::test::MEDIUM_CLIFF;
    c.claim(id).unwrap();
    assert_eq!(c.claim(id), Err(FactoryError::NothingToClaim));
}

#[test]
fn test_cancel_splits_tokens_correctly() {
    let mut c = Chain::new();
    c.setup_token("GADMIN", 1_000);
    let id = c.create("GBEN", "GADMIN", 1_000, 0, 1_000).unwrap();
    c.now = 300;
    c.cancel(id).unwrap();
    assert_eq!(c.balance("GBEN"), 300);
    assert_eq!(c.balance("GADMIN"), 700);
}

#[test]
fn test_cancel_already_cancelled_fails() {
    let mut c = Chain::new();
    c.setup_token("GADMIN", 1_000);
    let id = c.create("GBEN", "GADMIN", 1_000, 0, 1_000).unwrap();
    c.cancel(id).unwrap();
    assert_eq!(c.cancel(id), Err(FactoryError::Cancelled));
}

#[test]
fn test_get_status_not_found() {
    let c = Chain::new();
    assert_eq!(c.status(999), Err(FactoryError::ScheduleNotFound));
}

#[test]
fn test_multiple_concurrent_schedules_independent() {
    let mut c = Chain::new();
    c.setup_token("GADMIN", constants::test::MEDIUM_AMOUNT);
    let id1 = c.create("GB1", "GADMIN", SMALL, constants::test::NO_CLIFF, constants::test::MEDIUM_DURATION).unwrap();
    let id2 = c.create("GB2", "GADMIN", SMALL, constants::test::NO_CLIFF, constants::test::SHORT_DURATION).unwrap();
    c.now = constants::test::MEDIUM_CLIFF;
    let s1 = c.status(id1).unwrap();
    let s2 = c.status(id2).unwrap();
    assert_eq!(s1.vested, SMALL / 2);
    assert!(!s1.fully_vested);
    assert_eq!(s2.vested, SMALL);
    assert!(s2.fully_vested);
    c.claim(id2).unwrap();
    assert_eq!(c.status(id1).unwrap().claimed, 0);
}

#[test]
fn test_fully_vested_claim_returns_total() {
    let mut c = Chain::new();
    c.setup_token("GADMIN", 1_000);
    let id = c.create("GBEN", "GADMIN", 1_000, 0, 1_000).unwrap();
    c.now = 1_000;
    assert_eq!(c.claim(id), Ok(1_000));
    assert_eq!(c.balance("GBEN"), 1_000);
    let status = c.status(id).unwrap();
    assert!(status.fully_vested);
    assert_eq!(status.claimable, 0);
}

#[test]
fn test_invalid_config_rejected() {
    let mut c = Chain::new();
    c.setup_token("GADMIN", 1_000);
    assert_eq!(c.create("GB", "GADMIN", 0, 0, 1_000), Err(FactoryError::InvalidConfig));
    assert_eq!(c.create("GB", "GADMIN", 1_000, 0, 0), Err(FactoryError::InvalidConfig));
    assert_eq!(
        c.create("GB", "GADMIN", SMALL, constants::test::MEDIUM_CLIFF, constants::test::SHORT_DURATION),
        Err(FactoryError::InvalidConfig)
    );
}

#[test]
fn test_get_status_vested_reflects_cancel_time_not_zero() {
    let mut c = Chain::new();
    c.setup_token("GADMIN", 1_000);
    let id = c.create("GBEN", "GADMIN", 1_000, 0, 1_000).unwrap();
    c.now = 400;
    c.cancel(id).unwrap();
    c.now = 900;
    let status = c.status(id).unwrap();
    assert_eq!(status.vested, 400, "vested should reflect amount at cancel time");
    assert_eq!(status.claimable, 0, "claimable should be 0 after cancel pays out");
    assert!(status.cancelled);
}

#[test]
fn test_claim_at_quarter_intervals() {
    let mut c = Chain::new();
    c.setup_token("GADMIN", 1_000);
    let id = c.create("GBEN", "GADMIN", 1_000, 0, 1_000).unwrap();
    for (t, total) in [(250_u64, 250_i128), (500, 500), (750, 750), (1_000, 1_000)] {
        c.now = t;
        assert_eq!(c.claim(id), Ok(250));
        assert_eq!(c.balance("GBEN"), total);
    }
}

#[test]
fn test_multiple_schedules_same_beneficiary_independent() {
    let mut c = Chain::new();
    c.setup_token("GADMINA", 3_000);
    // fund admin_b from admin_a
    c.settle(&[Payment {
        from: Party::Account("GADMINA".to_string()),
        to: Party::Account("GADMINB".to_string()),
        amount: SMALL,
    }]);
    let schedule_a = c.create("GBEN", "GADMINA", SMALL, constants::test::NO_CLIFF, constants::test::MEDIUM_DURATION).unwrap();
    let schedule_b = c.create("GBEN", "GADMINB", SMALL / 2, constants::test::NO_CLIFF, constants::test::MEDIUM_DURATION).unwrap();
    assert_eq!(c.factory.get_schedule_count(), 2);
    c.now = constants::test::MEDIUM_CLIFF;
    assert_eq!(c.claim(schedule_a), Ok(SMALL / 2));
    let status_a = c.status(schedule_a).unwrap();
    assert_eq!(status_a.claimed, SMALL / 2);
    assert_eq!(status_a.claimable, 0);
    let status_b = c.status(schedule_b).unwrap();
    assert_eq!(status_b.claimed, 0);
    assert_eq!(status_b.claimable, SMALL / 4);
    c.cancel(schedule_b).unwrap();
    assert!(c.status(schedule_b).unwrap().cancelled);
    let status_a = c.status(schedule_a).unwrap();
    assert!(!status_a.cancelled);
    assert_eq!(status_a.claimed, SMALL / 2);
    c.now = constants::test::MEDIUM_DURATION;
    assert_eq!(c.claim(schedule_a), Ok(SMALL / 2));
    let status_a = c.status(schedule_a).unwrap();
    assert_eq!(status_a.claimed, SMALL);
    assert!(status_a.fully_vested);
    assert_eq!(c.factory.get_schedule_count(), 2);
}

#[test]
fn test_claim_before_cliff_reverts() {
    let mut c = Chain::new();
    c.setup_token("GADMIN", 1_000);
    let id = c.create("GBEN", "GADMIN", 1_000, 500, 1_000).unwrap();
    c.now = 499;
    assert_eq!(c.claim(id), Err(FactoryError::CliffNotReached));
}

#[test]
fn test_cancel_at_halfway_splits_correctly() {
    let mut c = Chain::new();
    c.setup_token("GADMIN", 1_000);
    let id = c.create("GBEN", "GADMIN", 1_000, 0, 1_000).unwrap();
    c.now = 500;
    c.cancel(id).unwrap();
    assert_eq!(c.balance("GBEN"), 500);
    assert_eq!(c.balance("GADMIN"), 500);
    assert!(c.status(id).unwrap().cancelled);
}

#[test]
fn test_cancel_already_cancelled_reverts() {
    let mut c = Chain::new();
    c.setup_token("GADMIN", 1_000);
    let id = c.create("GBEN", "GADMIN", 1_000, 0, 1_000).unwrap();
    c.now = 500;
    c.cancel(id).unwrap();
    assert_eq!(c.cancel(id), Err(FactoryError::Cancelled));
}

#[test]
fn test_schedule_ids_are_sequential_and_never_collide() {
    const N: u64 = 10;
    let mut c = Chain::new();
    c.setup_token("GADMIN", 1_000 * N as i128);
    let mut ids = Vec::new();
    for k in 0..N {
        ids.push(c.create(&format!("GB{}", k), "GADMIN", 1_000, 0, 1_000).unwrap());
    }
    for (i, &id) in ids.iter().enumerate() {
        assert_eq!(id, i as u64);
    }
    assert_eq!(c.factory.get_schedule_count(), N);
    for id in 0..N {
        assert!(c.status(id).is_ok());
    }
}

#[test]
fn test_get_status_after_partial_claim() {
    let mut c = Chain::new();
    c.setup_token("GADMIN", 1_000);
    let id = c.create("GBEN", "GADMIN", 1_000, 0, 1_000).unwrap();
    c.now = 300;
    c.claim(id).unwrap();
    c.now = 600;
    let status = c.status(id).unwrap();
    assert_eq!(status.claimed, 300);
    assert_eq!(status.vested, 600);
    assert_eq!(status.claimable, 300);
    assert!(!status.fully_vested);
    assert!(!status.cancelled);
}

#[test]
fn test_two_concurrent_schedules_no_interference() {
    let mut c = Chain::new();
    c.setup_token("GADMIN", 2_000);
    let id1 = c.create("GB1", "GADMIN", 1_000, 0, 1_000).unwrap();
    let id2 = c.create("GB2", "GADMIN", 1_000, 0, 500).unwrap();
    c.now = 500;
    c.claim(id2).unwrap();
    assert_eq!(c.balance("GB2"), 1_000);
    let s1 = c.status(id1).unwrap();
    assert_eq!(s1.claimed, 0);
    assert_eq!(s1.claimable, 500);
    c.claim(id1).unwrap();
    assert_eq!(c.balance("GB1"), 500);
}

#[test]
fn test_get_schedule_count_increments() {
    let mut c = Chain::new();
    c.setup_token("GADMIN", 3_000);
    assert_eq!(c.factory.get_schedule_count(), 0);
    for expected in 1u64..=3 {
        c.create(&format!("GB{}", expected), "GADMIN", 1_000, 0, 1_000).unwrap();
        assert_eq!(c.factory.get_schedule_count(), expected);
    }
}

#[test]
fn test_non_beneficiary_cannot_claim() {
    let mut c = Chain::new();
    c.setup_token("GADMIN", 1_000);
    let id = c.create("GBEN", "GADMIN", 1_000, 0, 1_000).unwrap();
    c.now = 500;
    let out = c.factory.claim(id, c.now);
    // the claim stands only with the beneficiary's authorization
    assert_eq!(out.signers, vec!["GBEN".to_string()]);
    assert!(!out.signers.is_empty(), "non-beneficiary must not be able to claim");
}

#[test]
fn test_cancel_idempotent_no_double_pay() {
    let mut c = Chain::new();
    c.setup_token("GADMIN", 1_000);
    let id = c.create("GBEN", "GADMIN", 1_000, 0, 1_000).unwrap();
    c.now = 400;
    c.cancel(id).unwrap();
    assert_eq!(c.balance("GBEN"), 400);
    assert_eq!(c.balance("GADMIN"), 600);
    assert_eq!(c.cancel(id), Err(FactoryError::Cancelled));
    assert_eq!(c.balance("GBEN"), 400);
    assert_eq!(c.balance("GADMIN"), 600);
}

#[test]
fn create_schedule_pulls_the_deposit_from_admin() {
    let mut c = Chain::new();
    let out = c.factory.create_schedule(TOKEN.to_string(), "GB".to_string(), "GADMIN".to_string(), 700, 0, 10, 5);
    assert_eq!(out.result, Ok(0));
    assert_eq!(out.signers, vec!["GADMIN".to_string()]);
    assert_eq!(
        out.payments,
        vec![Payment { from: Party::Account("GADMIN".to_string()), to: Party::Contract, amount: 700 }]
    );
    // an invalid schedule still demands the admin's authorization first, and moves nothing
    let bad = c.factory.create_schedule(TOKEN.to_string(), "GB".to_string(), "GADMIN".to_string(), 0, 0, 10, 5);
    assert_eq!(bad.result, Err(FactoryError::InvalidConfig));
    assert_eq!(bad.signers, vec!["GADMIN".to_string()]);
    assert!(bad.payments.is_empty());
    assert_eq!(c.factory.get_schedule_count(), 1);
}

#[test]
fn unknown_schedule_is_not_found_everywhere() {
    let mut c = Chain::new();
    assert_eq!(c.claim(3), Err(FactoryError::ScheduleNotFound));
    assert_eq!(c.cancel(3), Err(FactoryError::ScheduleNotFound));
    assert!(c.factory.claim(3, 0).signers.is_empty());
}

#[test]
fn cancel_before_cliff_returns_everything_to_admin() {
    let mut c = Chain::new();
    c.setup_token("GADMIN", 1_000);
    let id = c.create("GBEN", "GADMIN", 1_000, 500, 1_000).unwrap();
    c.now = 100;
    let out = c.factory.cancel(id, c.now);
    assert_eq!(out.signers, vec!["GADMIN".to_string()]);
    assert_eq!(out.payments.len(), 1);
    c.settle(&out.payments);
    assert_eq!(c.balance("GADMIN"), 1_000);
    let status = c.status(id).unwrap();
    assert_eq!(status.vested, 0);
    assert!(!status.cliff_reached);
    assert_eq!(status.schedule_id, id);
}

#[test]
fn schedule_count_counts_successful_creations_only() {
    let mut c = Chain::new();
    c.setup_token("GADMIN", 10_000);
    let mut created = 0u64;
    for (total, cliff, duration) in [(100, 0, 10), (0, 0, 10), (100, 5, 1), (200, 1, 20), (100, 0, 0)] {
        if c.create("GBEN", "GADMIN", total, cliff, duration).is_ok() {
            created += 1;
        }
        c.now += 5;
        let _ = c.claim(0);
        let _ = c.cancel(7);
    }
    assert_eq!(created, 2);
    assert_eq!(c.factory.get_schedule_count(), created);
    for id in 0..4 {
        assert_eq!(c.status(id).is_ok(), id < created);
    }
}
