//! Properties of the vesting factory that span calls or schedules.
use vstd::prelude::*;
use crate::schedule::{elapsed_since, lemma_vested_bounded, lemma_vested_monotone};
use crate::effects::{lemma_split_total, payments_total, split_payouts};
use crate::factory::{
    FactoryError, ScheduleRecord, all_wf, cancel_in, claim_in, create_in, positive_part, status_in,
};

verus! {

/// Schedule ids are handed out in sequence and never reused: two successful
/// creations get the ids `n` and `n + 1`, where `n` schedules existed before,
/// and the schedules created before keep their places.
pub proof fn law_ids_sequential(
    s: Seq<ScheduleRecord>,
    token: String,
    beneficiary: String,
    admin: String,
    total_amount: i128,
    cliff_seconds: u64,
    duration_seconds: u64,
    now: u64,
    token2: String,
    beneficiary2: String,
    admin2: String,
    total_amount2: i128,
    cliff_seconds2: u64,
    duration_seconds2: u64,
    now2: u64,
)
    requires
        s.len() + 2 <= u64::MAX,
        create_in(s, token, beneficiary, admin, total_amount, cliff_seconds, duration_seconds, now).1 is Ok,
        create_in(
            create_in(s, token, beneficiary, admin, total_amount, cliff_seconds, duration_seconds, now).0,
            token2, beneficiary2, admin2, total_amount2, cliff_seconds2, duration_seconds2, now2,
        ).1 is Ok,
    ensures
        ({
            let (s1, r1) = create_in(s, token, beneficiary, admin, total_amount, cliff_seconds, duration_seconds, now);
            let (s2, r2) = create_in(s1, token2, beneficiary2, admin2, total_amount2, cliff_seconds2, duration_seconds2, now2);
            &&& r1 == Ok::<u64, FactoryError>(s.len() as u64)
            &&& r2 == Ok::<u64, FactoryError>((s.len() + 1) as u64)
            &&& s2.len() == s.len() + 2
            &&& forall|i: int| 0 <= i < s.len() ==> s2[i] == s[i]
        }),
{
}

/// A claim or cancellation on one schedule leaves every other schedule as it
/// was, and so does creating a schedule.
pub proof fn law_schedules_independent(s: Seq<ScheduleRecord>, id: u64, other: int, now: u64)
    requires
        0 <= other < s.len(),
        other != id,
    ensures
        claim_in(s, id, now).0[other] == s[other],
        cancel_in(s, id, now).0[other] == s[other],
        claim_in(s, id, now).0.len() == s.len(),
        cancel_in(s, id, now).0.len() == s.len(),
{
}

/// Unknown ids are reported as not found and change nothing.
pub proof fn law_unknown_schedule(s: Seq<ScheduleRecord>, id: u64, now: u64)
    requires
        id >= s.len(),
    ensures
        claim_in(s, id, now) == (s, Err::<i128, FactoryError>(FactoryError::ScheduleNotFound)),
        cancel_in(s, id, now) == (s, Err::<(), FactoryError>(FactoryError::ScheduleNotFound)),
        status_in(s, id, now) == Err::<crate::factory::VestingStatus, FactoryError>(FactoryError::ScheduleNotFound),
{
}

/// A successful claim pays exactly what the status reported as claimable at
/// that instant, and leaves nothing claimable then.
pub proof fn law_claim_pays_claimable(r: ScheduleRecord, id: u64, now: u64)
    requires
        r.wf(),
        r.claim_next(now).1 is Ok,
    ensures
        r.claim_next(now).1 == Ok::<i128, FactoryError>(r.status_at(id, now).claimable),
        r.claim_next(now).0.status_at(id, now).claimable == 0,
        r.claim_next(now).0.status_at(id, now).claimed == r.claim_next(now).0.status_at(id, now).vested,
{
    let c = r.config;
    lemma_vested_bounded(c.total_amount as int, elapsed_since(c.start_time, now), c.cliff_seconds as int, c.duration_seconds as int);
}

/// Once the whole duration has elapsed a claim pays the complete remainder,
/// so that the schedule's total has been paid.
pub proof fn law_claim_after_end_completes(r: ScheduleRecord, now: u64)
    requires
        r.wf(),
        !r.config.cancelled,
        elapsed_since(r.config.start_time, now) >= r.config.duration_seconds,
        r.claimed < r.config.total_amount,
    ensures
        r.claim_next(now).1 == Ok::<i128, FactoryError>((r.config.total_amount - r.claimed) as i128),
        r.claim_next(now).0.claimed == r.config.total_amount,
{
}

/// After a claim at `t`, the amount claimed never exceeds the amount vested
/// at any later time, which never exceeds the total.
pub proof fn law_claimed_within_vested(r: ScheduleRecord, id: u64, t: u64, later: u64)
    requires
        r.wf(),
        r.claim_next(t).1 is Ok,
        t <= later,
    ensures
        r.claim_next(t).0.status_at(id, later).claimed <= r.claim_next(t).0.status_at(id, later).vested
            <= r.config.total_amount,
{
    let c = r.config;
    lemma_vested_monotone(
        c.total_amount as int,
        elapsed_since(c.start_time, t),
        elapsed_since(c.start_time, later),
        c.cliff_seconds as int,
        c.duration_seconds as int,
    );
    lemma_vested_bounded(c.total_amount as int, elapsed_since(c.start_time, t), c.cliff_seconds as int, c.duration_seconds as int);
    lemma_vested_bounded(c.total_amount as int, elapsed_since(c.start_time, later), c.cliff_seconds as int, c.duration_seconds as int);
}

/// A claim or cancellation that fails leaves the schedule as it was.
pub proof fn law_failures_change_nothing(r: ScheduleRecord, now: u64)
    ensures
        r.claim_next(now).1 is Err ==> r.claim_next(now).0 == r,
        r.cancel_next(now).1 is Err ==> r.cancel_next(now).0 == r,
{
}

/// Cancelling pays out everything still held: when nothing beyond the vested
/// amount has been paid, the beneficiary's and the admin's transfers add up
/// to the total less what was paid before.
pub proof fn law_cancel_conserves(r: ScheduleRecord, now: u64)
    requires
        r.wf(),
        !r.config.cancelled,
        r.claimed <= r.config.vested_at(now),
    ensures
        positive_part(r.config.vested_at(now) - r.claimed) + positive_part(r.config.total_amount - r.config.vested_at(now))
            + r.claimed == r.config.total_amount,
{
    let c = r.config;
    lemma_vested_bounded(c.total_amount as int, elapsed_since(c.start_time, now), c.cliff_seconds as int, c.duration_seconds as int);
}

/// After a cancellation the schedule refuses a second cancellation and
/// claims, with no change and no transfer, and its status keeps the vested
/// amount of cancel time with nothing claimable.
pub proof fn law_cancel_is_final(r: ScheduleRecord, id: u64, now: u64, later: u64)
    requires
        r.wf(),
        r.cancel_next(now).1 is Ok,
    ensures
        r.cancel_next(now).0.cancel_next(later) == (r.cancel_next(now).0, Err::<(), FactoryError>(FactoryError::Cancelled)),
        r.cancel_next(now).0.claim_next(later) == (r.cancel_next(now).0, Err::<i128, FactoryError>(FactoryError::Cancelled)),
        r.cancel_next(now).0.status_at(id, later).vested == r.config.vested_at(now),
        r.cancel_next(now).0.status_at(id, later).claimable == 0,
        r.cancel_next(now).0.status_at(id, later).cancelled,
{
    let c = r.config;
    lemma_vested_bounded(c.total_amount as int, elapsed_since(c.start_time, now), c.cliff_seconds as int, c.duration_seconds as int);
}

/// Every reachable collection of schedules keeps the invariant.
pub proof fn law_invariant_kept(
    s: Seq<ScheduleRecord>,
    id: u64,
    now: u64,
    token: String,
    beneficiary: String,
    admin: String,
    total_amount: i128,
    cliff_seconds: u64,
    duration_seconds: u64,
)
    requires
        all_wf(s),
    ensures
        all_wf(create_in(s, token, beneficiary, admin, total_amount, cliff_seconds, duration_seconds, now).0),
        all_wf(claim_in(s, id, now).0),
        all_wf(cancel_in(s, id, now).0),
{
    if id < s.len() {
        let r = s[id as int];
        let c = r.config;
        lemma_vested_bounded(c.total_amount as int, elapsed_since(c.start_time, now), c.cliff_seconds as int, c.duration_seconds as int);
        let s1 = claim_in(s, id, now).0;
        assert forall|i: int| 0 <= i < s1.len() implies (#[trigger] s1[i]).wf() by {
            if i != id {
                assert(s1[i] == s[i]);
            }
        }
        let s2 = cancel_in(s, id, now).0;
        assert forall|i: int| 0 <= i < s2.len() implies (#[trigger] s2[i]).wf() by {
            if i != id {
                assert(s2[i] == s[i]);
            }
        }
    }
    let s3 = create_in(s, token, beneficiary, admin, total_amount, cliff_seconds, duration_seconds, now).0;
    assert forall|i: int| 0 <= i < s3.len() implies (#[trigger] s3[i]).wf() by {
        if i < s.len() {
            assert(s3[i] == s[i]);
        }
    }
}


/// A call of the factory, with its arguments and time.
pub enum FactoryCall {
    Create {
        token: String,
        beneficiary: String,
        admin: String,
        total_amount: i128,
        cliff_seconds: u64,
        duration_seconds: u64,
        now: u64,
    },
    Claim { schedule_id: u64, now: u64 },
    Cancel { schedule_id: u64, now: u64 },
}

/// The schedules after `call`, and whether it was a successful creation.
pub open spec fn factory_apply(s: Seq<ScheduleRecord>, call: FactoryCall) -> (Seq<ScheduleRecord>, bool) {
    match call {
        FactoryCall::Create { token, beneficiary, admin, total_amount, cliff_seconds, duration_seconds, now } => {
            let (s2, r) = create_in(s, token, beneficiary, admin, total_amount, cliff_seconds, duration_seconds, now);
            (s2, r is Ok)
        },
        FactoryCall::Claim { schedule_id, now } => (claim_in(s, schedule_id, now).0, false),
        FactoryCall::Cancel { schedule_id, now } => (cancel_in(s, schedule_id, now).0, false),
    }
}

/// The schedules after the calls in order, and the number of successful
/// creations among them.
pub open spec fn factory_run(s: Seq<ScheduleRecord>, calls: Seq<FactoryCall>) -> (Seq<ScheduleRecord>, nat)
    decreases calls.len(),
{
    if calls.len() == 0 {
        (s, 0)
    } else {
        let (s1, n) = factory_run(s, calls.drop_last());
        let (s2, created) = factory_apply(s1, calls.last());
        (s2, if created { n + 1 } else { n })
    }
}

/// From a fresh deployment, whatever creations, claims and cancellations are
/// made, the schedule count is the number of successful creations, and the
/// status of a schedule is found exactly for the ids below that count.
pub proof fn law_count_is_creations(calls: Seq<FactoryCall>, id: u64, now: u64)
    ensures
        factory_run(Seq::<ScheduleRecord>::empty(), calls).0.len() == factory_run(
            Seq::<ScheduleRecord>::empty(),
            calls,
        ).1,
        status_in(factory_run(Seq::<ScheduleRecord>::empty(), calls).0, id, now) is Ok <==> id < factory_run(
            Seq::<ScheduleRecord>::empty(),
            calls,
        ).1,
    decreases calls.len(),
{
    if calls.len() > 0 {
        law_count_is_creations(calls.drop_last(), id, now);
    }
}


/// A cancellation pays out everything the schedule still holds: the
/// beneficiary gets what has vested and is unpaid, the admin the unvested
/// part `total - vested`, whatever was claimed before, and the transfers add
/// up to `total - claimed`, so nothing stays in the contract.
pub proof fn law_cancel_pays_out_everything(r: ScheduleRecord, now: u64)
    requires
        r.wf(),
        !r.config.cancelled,
        r.claimed <= r.config.vested_at(now),
    ensures
        r.cancel_next(now).1 is Ok,
        r.cancel_payouts(now) == split_payouts(
            r.config.beneficiary,
            r.config.vested_at(now) - r.claimed,
            r.config.admin,
            r.config.total_amount - r.config.vested_at(now),
        ),
        payments_total(r.cancel_payouts(now)) == r.config.total_amount - r.claimed,
        r.cancel_next(now).0.claimed == r.config.vested_at(now),
{
    let c = r.config;
    lemma_vested_bounded(
        c.total_amount as int,
        elapsed_since(c.start_time, now),
        c.cliff_seconds as int,
        c.duration_seconds as int,
    );
    lemma_split_total(c.beneficiary, c.vested_at(now) - r.claimed, c.admin, c.total_amount - c.vested_at(now));
}

/// A claim before a cancellation changes only how the beneficiary's part is
/// paid: the admin's transfer is the same as without the claim, and the claim
/// together with the later cancellation pays out exactly what the
/// cancellation alone would have.
pub proof fn law_cancel_after_claim(r: ScheduleRecord, t1: u64, t2: u64)
    requires
        r.wf(),
        !r.config.cancelled,
        r.claimed <= r.config.vested_at(t1),
        t1 <= t2,
        r.claim_next(t1).1 is Ok,
    ensures
        r.claim_next(t1).0.cancel_payouts(t2) == split_payouts(
            r.config.beneficiary,
            r.config.vested_at(t2) - r.claim_next(t1).0.claimed,
            r.config.admin,
            r.config.total_amount - r.config.vested_at(t2),
        ),
        r.claim_next(t1).1->Ok_0 + payments_total(r.claim_next(t1).0.cancel_payouts(t2)) == payments_total(
            r.cancel_payouts(t2),
        ),
{
    let c = r.config;
    lemma_vested_monotone(
        c.total_amount as int,
        elapsed_since(c.start_time, t1),
        elapsed_since(c.start_time, t2),
        c.cliff_seconds as int,
        c.duration_seconds as int,
    );
    lemma_vested_bounded(
        c.total_amount as int,
        elapsed_since(c.start_time, t1),
        c.cliff_seconds as int,
        c.duration_seconds as int,
    );
    let r1 = r.claim_next(t1).0;
    assert(r1.wf());
    law_cancel_pays_out_everything(r1, t2);
    law_cancel_pays_out_everything(r, t2);
}

/// The status reports `fully_vested` exactly when the vested amount it
/// reports has reached the total, cancelled schedules included.
pub proof fn law_fully_vested_means_all_vested(r: ScheduleRecord, id: u64, now: u64)
    requires
        r.wf(),
    ensures
        r.status_at(id, now).fully_vested == (r.status_at(id, now).vested >= r.status_at(id, now).total_amount),
{
    let c = r.config;
    lemma_vested_bounded(
        c.total_amount as int,
        elapsed_since(c.start_time, now),
        c.cliff_seconds as int,
        c.duration_seconds as int,
    );
}

} // verus!
