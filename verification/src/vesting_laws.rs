//! Properties of the vesting contract that span calls.
use vstd::prelude::*;
use crate::schedule::{elapsed_since, lemma_vested_bounded, lemma_vested_monotone};
use crate::vesting::{ForgeVesting, VestingConfig, VestingError};

verus! {

/// A successful claim pays exactly what `get_status` reported as claimable
/// at that instant, and afterwards nothing is claimable at that instant:
/// the amount claimed then equals the amount vested.
pub proof fn law_claim_pays_claimable(s: ForgeVesting, now: u64)
    requires
        s.wf(),
        s.claim_next(now).1 is Ok,
    ensures
        s.status_at(now) matches Ok(before) && s.claim_next(now).1 == Ok::<i128, VestingError>(before.claimable),
        s.claim_next(now).0.status_at(now) matches Ok(after) && after.claimable == 0 && after.claimed == after.vested,
{
    let c = s.config->Some_0;
    lemma_vested_bounded(
        c.total_amount as int,
        c.vesting_elapsed(now),
        c.cliff_seconds as int,
        c.duration_seconds as int,
    );
}

/// Two successful claims together pay what has vested at the later one,
/// less what had been paid before the first: no token is lost or paid twice.
pub proof fn law_two_claims_sum(s: ForgeVesting, t1: u64, t2: u64)
    requires
        s.wf(),
        s.claim_next(t1).1 is Ok,
        s.claim_next(t1).0.claim_next(t2).1 is Ok,
    ensures
        s.claim_next(t1).1->Ok_0 + s.claim_next(t1).0.claim_next(t2).1->Ok_0 == s.config->Some_0.vested_at(t2)
            - s.claimed,
{
    let c = s.config->Some_0;
    lemma_vested_bounded(c.total_amount as int, c.vesting_elapsed(t1), c.cliff_seconds as int, c.duration_seconds as int);
    lemma_vested_bounded(c.total_amount as int, c.vesting_elapsed(t2), c.cliff_seconds as int, c.duration_seconds as int);
}

/// Once the full duration has elapsed (and the schedule is neither paused nor
/// cancelled), a claim pays the whole remainder, after which everything has
/// been paid and every later claim is refused.
pub proof fn law_claim_after_end_completes(s: ForgeVesting, now: u64, later: u64)
    requires
        s.wf(),
        s.config matches Some(c) && !c.cancelled && !c.paused && elapsed_since(c.start_time, now)
            >= c.duration_seconds && s.claimed < c.total_amount,
    ensures
        s.claim_next(now).1 == Ok::<i128, VestingError>((s.config->Some_0.total_amount - s.claimed) as i128),
        s.claim_next(now).0.claimed == s.config->Some_0.total_amount,
        s.claim_next(now).0.claim_next(later).1 is Err,
{
    let c = s.config->Some_0;
    lemma_vested_bounded(c.total_amount as int, c.vesting_elapsed(later), c.cliff_seconds as int, c.duration_seconds as int);
}

/// After a claim at `t`, the amount claimed never exceeds the amount vested
/// at any later time, which in turn never exceeds the total.
pub proof fn law_claimed_within_vested(s: ForgeVesting, t: u64, later: u64)
    requires
        s.wf(),
        s.claim_next(t).1 is Ok,
        t <= later,
    ensures
        s.claim_next(t).0.status_at(later) matches Ok(st) && st.claimed <= st.vested <= st.total_amount,
{
    let c = s.config->Some_0;
    law_vesting_monotone(c, t, later);
    lemma_vested_bounded(c.total_amount as int, c.vesting_elapsed(t), c.cliff_seconds as int, c.duration_seconds as int);
}

/// Vesting never decreases while time moves forward on an active schedule.
pub proof fn law_vesting_monotone(c: VestingConfig, t1: u64, t2: u64)
    requires
        c.valid(),
        !c.paused,
        t1 <= t2,
    ensures
        c.vested_at(t1) <= c.vested_at(t2),
        0 <= c.vested_at(t2) <= c.total_amount,
{
    lemma_vested_monotone(
        c.total_amount as int,
        elapsed_since(c.start_time, t1),
        elapsed_since(c.start_time, t2),
        c.cliff_seconds as int,
        c.duration_seconds as int,
    );
    lemma_vested_bounded(c.total_amount as int, c.vesting_elapsed(t2), c.cliff_seconds as int, c.duration_seconds as int);
}

/// Nothing vests before the cliff and everything has vested once the
/// duration has elapsed.
pub proof fn law_cliff_and_end(c: VestingConfig, now: u64)
    requires
        c.valid(),
        !c.cancelled,
    ensures
        c.vesting_elapsed(now) < c.cliff_seconds ==> c.vested_at(now) == 0,
        c.vesting_elapsed(now) >= c.duration_seconds ==> c.vested_at(now) == c.total_amount,
{
}

/// Cancelling splits the tokens still held: the beneficiary's share and the
/// admin's share add up to the total less what was already paid.
pub proof fn law_cancel_conserves(s: ForgeVesting, now: u64)
    requires
        s.wf(),
    ensures
        s.cancel_next(now).1 matches Ok((b, a)) ==> b + a + s.claimed == s.config->Some_0.total_amount,
        s.cancel_and_claim_next(now).1 matches Ok((b, a)) ==> b + a + s.claimed == s.config->Some_0.total_amount,
        s.cancel_next(now).1 matches Ok((b, a)) ==> a >= 0,
{
    if s.config is Some {
        let c = s.config->Some_0;
        lemma_vested_bounded(c.total_amount as int, c.vesting_elapsed(now), c.cliff_seconds as int, c.duration_seconds as int);
    }
}

/// After a cancellation the reported vested amount stays at its value at
/// cancel time, whatever the time, and nothing is left to claim.
pub proof fn law_cancel_freezes_status(s: ForgeVesting, now: u64, later: u64)
    requires
        s.wf(),
        s.cancel_next(now).1 is Ok,
    ensures
        s.cancel_next(now).0.status_at(later) matches Ok(st) && st.vested == s.config->Some_0.vested_at(now)
            && st.claimable == 0,
{
    let c = s.config->Some_0;
    lemma_vested_bounded(c.total_amount as int, c.vesting_elapsed(now), c.cliff_seconds as int, c.duration_seconds as int);
}

/// A cancelled schedule refuses further cancellation, claims and
/// beneficiary changes, and these leave it unchanged: nothing is paid twice.
pub proof fn law_cancelled_is_final(s: ForgeVesting, now: u64, later: u64, who: String)
    requires
        s.wf(),
        s.cancel_next(now).1 is Ok,
    ensures
        s.cancel_next(now).0.cancel_next(later) == (s.cancel_next(now).0, Err::<(i128, i128), VestingError>(VestingError::Cancelled)),
        s.cancel_next(now).0.cancel_and_claim_next(later) == (s.cancel_next(now).0, Err::<(i128, i128), VestingError>(VestingError::Cancelled)),
        s.cancel_next(now).0.claim_next(later) == (s.cancel_next(now).0, Err::<i128, VestingError>(VestingError::Cancelled)),
        s.cancel_next(now).0.change_beneficiary_next(who) == (s.cancel_next(now).0, Err::<(), VestingError>(VestingError::Cancelled)),
{
}

/// While paused, the reported vested amount is frozen at its value at the
/// pause instant, and claims are refused.
pub proof fn law_pause_freezes_vesting(s: ForgeVesting, p: u64, t1: u64, t2: u64)
    requires
        s.wf(),
        s.pause_next(p).1 is Ok,
    ensures
        s.pause_next(p).0.status_at(t1) matches Ok(st1) && st1.vested == s.config->Some_0.vested_at(p),
        s.pause_next(p).0.status_at(t1)->Ok_0.vested == s.pause_next(p).0.status_at(t2)->Ok_0.vested,
        s.pause_next(p).0.claim_next(t2).1 == Err::<i128, VestingError>(VestingError::Paused),
{
    let c = s.config->Some_0;
    lemma_vested_bounded(c.total_amount as int, c.vesting_elapsed(p), c.cliff_seconds as int, c.duration_seconds as int);
}

/// Pausing at `p` and resuming at `u` excludes the paused time: afterwards the
/// schedule vests at `t` what it would have vested at `t - (u - p)` without
/// the pause.
pub proof fn law_pause_time_excluded(s: ForgeVesting, p: u64, u: u64, t: u64)
    requires
        s.wf(),
        s.pause_next(p).1 is Ok,
        s.config->Some_0.start_time <= p <= u <= t,
        s.config->Some_0.start_time + (u - p) <= u64::MAX,
    ensures
        s.pause_next(p).0.unpause_next(u).1 is Ok,
        s.pause_next(p).0.unpause_next(u).0.config->Some_0.start_time == s.config->Some_0.start_time + (u - p),
        s.pause_next(p).0.unpause_next(u).0.config->Some_0.vested_at(t) == s.config->Some_0.vested_at(
            (t - (u - p)) as u64,
        ),
{
}

/// The admin-only calls answer to whoever holds the admin role: after a
/// transfer it is the new admin, not the old one, whose authorization they
/// demand; the beneficiary is unchanged.
pub proof fn law_transfer_admin_hands_over(s: ForgeVesting, new_admin: String)
    requires
        s.wf(),
        s.transfer_admin_next(new_admin).1 is Ok,
    ensures
        s.transfer_admin_next(new_admin).0.admin_signers() == seq![new_admin],
        s.transfer_admin_next(new_admin).0.beneficiary_signers() == s.beneficiary_signers(),
        s.transfer_admin_next(new_admin).0.claimed == s.claimed,
{
}

/// A changed beneficiary keeps the amount already claimed and is who claims
/// from then on.
pub proof fn law_change_beneficiary_keeps_claimed(s: ForgeVesting, who: String)
    requires
        s.wf(),
        s.change_beneficiary_next(who).1 is Ok,
    ensures
        s.change_beneficiary_next(who).0.claimed == s.claimed,
        s.change_beneficiary_next(who).0.config->Some_0.beneficiary == who,
        s.change_beneficiary_next(who).0.config->Some_0.total_amount == s.config->Some_0.total_amount,
{
}

/// A call that fails leaves the state as it was.
pub proof fn law_failures_change_nothing(
    s: ForgeVesting,
    now: u64,
    who: String,
    token: String,
    beneficiary: String,
    admin: String,
    total_amount: i128,
    cliff_seconds: u64,
    duration_seconds: u64,
)
    ensures
        s.initialize_next(token, beneficiary, admin, total_amount, cliff_seconds, duration_seconds, now).1 is Err
            ==> s.initialize_next(token, beneficiary, admin, total_amount, cliff_seconds, duration_seconds, now).0 == s,
        s.claim_next(now).1 is Err ==> s.claim_next(now).0 == s,
        s.cancel_next(now).1 is Err ==> s.cancel_next(now).0 == s,
        s.cancel_and_claim_next(now).1 is Err ==> s.cancel_and_claim_next(now).0 == s,
        s.transfer_admin_next(who).1 is Err ==> s.transfer_admin_next(who).0 == s,
        s.change_beneficiary_next(who).1 is Err ==> s.change_beneficiary_next(who).0 == s,
        s.pause_next(now).1 is Err ==> s.pause_next(now).0 == s,
        s.unpause_next(now).1 is Err ==> s.unpause_next(now).0 == s,
{
}


/// What every state reached by calls made up to time `t` keeps: the
/// invariant; a start (and a pause instant) no later than `t`; a live
/// schedule has paid out no more than has vested at `t`; a cancelled one has
/// paid out exactly the amount recorded at cancellation.
pub open spec fn consistent_at(s: ForgeVesting, t: u64) -> bool {
    &&& s.wf()
    &&& match s.config {
        None => true,
        Some(c) => {
            &&& c.start_time <= t
            &&& c.paused ==> match c.paused_at {
                Some(p) => c.start_time <= p <= t,
                None => false,
            }
            &&& c.cancelled ==> s.vested_at_cancel == Some(s.claimed)
            &&& !c.cancelled ==> s.claimed <= c.vested_at(t)
        },
    }
}

/// A call of the vesting contract, as its arguments besides the time.
pub enum VestingCall {
    Initialize {
        token: String,
        beneficiary: String,
        admin: String,
        total_amount: i128,
        cliff_seconds: u64,
        duration_seconds: u64,
    },
    Claim,
    Cancel,
    CancelAndClaim,
    TransferAdmin(String),
    ChangeBeneficiary(String),
    Pause,
    Unpause,
}

/// The state after `call` at `now`, whether it succeeds or fails.
pub open spec fn apply(s: ForgeVesting, call: VestingCall, now: u64) -> ForgeVesting {
    match call {
        VestingCall::Initialize { token, beneficiary, admin, total_amount, cliff_seconds, duration_seconds } => s.initialize_next(
            token,
            beneficiary,
            admin,
            total_amount,
            cliff_seconds,
            duration_seconds,
            now,
        ).0,
        VestingCall::Claim => s.claim_next(now).0,
        VestingCall::Cancel => s.cancel_next(now).0,
        VestingCall::CancelAndClaim => s.cancel_and_claim_next(now).0,
        VestingCall::TransferAdmin(a) => s.transfer_admin_next(a).0,
        VestingCall::ChangeBeneficiary(b) => s.change_beneficiary_next(b).0,
        VestingCall::Pause => s.pause_next(now).0,
        VestingCall::Unpause => s.unpause_next(now).0,
    }
}

/// The state after the calls, each made at its time, in order.
pub open spec fn run(s: ForgeVesting, calls: Seq<(VestingCall, u64)>) -> ForgeVesting
    decreases calls.len(),
{
    if calls.len() == 0 {
        s
    } else {
        apply(run(s, calls.drop_last()), calls.last().0, calls.last().1)
    }
}

/// The calls are made at times that never go backwards, none before `t`.
pub open spec fn times_from(calls: Seq<(VestingCall, u64)>, t: u64) -> bool {
    &&& forall|i: int| 0 <= i < calls.len() ==> t <= (#[trigger] calls[i]).1
    &&& forall|i: int, j: int| 0 <= i <= j < calls.len() ==> (#[trigger] calls[i]).1 <= (#[trigger] calls[j]).1
}

/// A contract that has not been set up.
pub open spec fn fresh() -> ForgeVesting {
    ForgeVesting { config: None, claimed: 0, vested_at_cancel: None }
}

/// Consistency at `t` carries over to every later time.
pub proof fn lemma_consistent_later(s: ForgeVesting, t: u64, later: u64)
    requires
        consistent_at(s, t),
        t <= later,
    ensures
        consistent_at(s, later),
{
    if s.config is Some {
        let c = s.config->Some_0;
        if !c.cancelled && !c.paused {
            law_vesting_monotone(c, t, later);
        }
    }
}

/// Every call at a time no earlier than `t` keeps consistency, now at the
/// call's time.
pub proof fn lemma_call_keeps_consistent(s: ForgeVesting, t: u64, call: VestingCall, now: u64)
    requires
        consistent_at(s, t),
        t <= now,
    ensures
        consistent_at(apply(s, call, now), now),
{
    lemma_consistent_later(s, t, now);
    if s.config is Some {
        let c = s.config->Some_0;
        lemma_vested_bounded(c.total_amount as int, c.vesting_elapsed(now), c.cliff_seconds as int, c.duration_seconds as int);
        match call {
            VestingCall::Pause => {
                if s.pause_next(now).1 is Ok {
                    let c2 = s.pause_next(now).0.config->Some_0;
                    assert(c2.vested_at(now) == c.vested_at(now));
                }
            },
            VestingCall::Unpause => {
                if s.unpause_next(now).1 is Ok {
                    let c2 = s.unpause_next(now).0.config->Some_0;
                    let p = c.paused_at->Some_0;
                    assert(c2.start_time == c.start_time + (now - p));
                    assert(c2.vested_at(now) == c.vested_at(now));
                }
            },
            VestingCall::TransferAdmin(a) => {
                if s.transfer_admin_next(a).1 is Ok {
                    assert(s.transfer_admin_next(a).0.config->Some_0.vested_at(now) == c.vested_at(now));
                }
            },
            VestingCall::ChangeBeneficiary(b) => {
                if s.change_beneficiary_next(b).1 is Ok {
                    assert(s.change_beneficiary_next(b).0.config->Some_0.vested_at(now) == c.vested_at(now));
                }
            },
            _ => {},
        }
    } else {
        match call {
            VestingCall::Initialize { token, beneficiary, admin, total_amount, cliff_seconds, duration_seconds } => {
                let r = s.initialize_next(token, beneficiary, admin, total_amount, cliff_seconds, duration_seconds, now);
                if r.1 is Ok {
                    let c2 = r.0.config->Some_0;
                    lemma_vested_bounded(
                        c2.total_amount as int,
                        c2.vesting_elapsed(now),
                        c2.cliff_seconds as int,
                        c2.duration_seconds as int,
                    );
                }
            },
            _ => {},
        }
    }
}

/// The calls, each at a time no earlier than `t` and the times never going
/// backwards, keep consistency up to the time of the last call.
pub proof fn lemma_run_consistent(s: ForgeVesting, t: u64, calls: Seq<(VestingCall, u64)>)
    requires
        consistent_at(s, t),
        times_from(calls, t),
    ensures
        consistent_at(run(s, calls), if calls.len() == 0 { t } else { calls.last().1 }),
    decreases calls.len(),
{
    if calls.len() > 0 {
        let init = calls.drop_last();
        assert(times_from(init, t)) by {
            assert forall|i: int| 0 <= i < init.len() implies t <= (#[trigger] init[i]).1 by {
                assert(init[i] == calls[i]);
            }
            assert forall|i: int, j: int| 0 <= i <= j < init.len() implies (#[trigger] init[i]).1 <= (
            #[trigger] init[j]).1 by {
                assert(init[i] == calls[i] && init[j] == calls[j]);
            }
        }
        lemma_run_consistent(s, t, init);
        let last_t = calls.last().1;
        let mid_t = if init.len() == 0 { t } else { init.last().1 };
        assert(mid_t <= last_t) by {
            if init.len() > 0 {
                assert(init.last() == calls[init.len() - 1]);
                assert(calls[init.len() - 1].1 <= calls[calls.len() - 1].1);
            } else {
                assert(t <= calls[calls.len() - 1].1);
            }
        }
        lemma_call_keeps_consistent(run(s, init), mid_t, calls.last().0, last_t);
    }
}

/// In every state reached from a fresh contract by any calls made at times
/// that never go backwards, the status at any later time reports
/// `0 <= claimed <= vested <= total` and a claimable amount of exactly
/// `vested - claimed`.
pub proof fn law_reachable_claimed_within_vested(calls: Seq<(VestingCall, u64)>, t0: u64, now: u64)
    requires
        times_from(calls, t0),
        calls.len() > 0 ==> calls.last().1 <= now,
        t0 <= now,
    ensures
        run(fresh(), calls).status_at(now) matches Ok(st) ==> {
            &&& 0 <= st.claimed <= st.vested <= st.total_amount
            &&& st.claimable == st.vested - st.claimed
        },
{
    lemma_run_consistent(fresh(), t0, calls);
    let t = if calls.len() == 0 { t0 } else { calls.last().1 };
    lemma_consistent_status_bounded(run(fresh(), calls), t, now);
}

/// A consistent state reports `0 <= claimed <= vested <= total` at every
/// later time, with a claimable amount of exactly `vested - claimed`.
pub proof fn lemma_consistent_status_bounded(s: ForgeVesting, t: u64, now: u64)
    requires
        consistent_at(s, t),
        t <= now,
    ensures
        s.status_at(now) matches Ok(st) ==> {
            &&& 0 <= st.claimed <= st.vested <= st.total_amount
            &&& st.claimable == st.vested - st.claimed
        },
{
    lemma_consistent_later(s, t, now);
    if s.config is Some {
        let c = s.config->Some_0;
        lemma_vested_bounded(c.total_amount as int, c.vesting_elapsed(now), c.cliff_seconds as int, c.duration_seconds as int);
    }
}


/// Cancelling (alone or with the claim) splits exactly: the beneficiary gets
/// `vested - claimed`, which is what the status reports as claimable, and
/// the admin gets the unvested part `total - vested`, neither negative and
/// the admin's share not depending on earlier claims.
pub proof fn law_cancel_split_exact(s: ForgeVesting, t: u64, now: u64)
    requires
        consistent_at(s, t),
        t <= now,
    ensures
        s.cancel_and_claim_next(now).1 matches Ok((b, a)) ==> {
            let c = s.config->Some_0;
            &&& b == c.vested_at(now) - s.claimed
            &&& a == c.total_amount - c.vested_at(now)
            &&& b >= 0 && a >= 0
            &&& s.status_at(now) matches Ok(st) && st.claimable == b
        },
        s.cancel_next(now).1 matches Ok((b, a)) ==> {
            let c = s.config->Some_0;
            &&& b == c.vested_at(now) - s.claimed
            &&& a == c.total_amount - c.vested_at(now)
            &&& b >= 0 && a >= 0
            &&& s.status_at(now) matches Ok(st) && st.claimable == b
        },
{
    lemma_consistent_later(s, t, now);
    if s.config is Some {
        let c = s.config->Some_0;
        lemma_vested_bounded(c.total_amount as int, c.vesting_elapsed(now), c.cliff_seconds as int, c.duration_seconds as int);
    }
}

/// A claim before a cancellation does not change the admin's share, and the
/// claim together with the cancellation pays the beneficiary exactly what the
/// cancellation alone would have.
pub proof fn law_cancel_after_claim(s: ForgeVesting, t: u64, t1: u64, t2: u64)
    requires
        consistent_at(s, t),
        t <= t1 <= t2,
        s.claim_next(t1).1 is Ok,
    ensures
        s.claim_next(t1).0.cancel_and_claim_next(t2).1 matches Ok((b1, a1)) ==> s.cancel_and_claim_next(t2).1 matches Ok(
            (b0, a0),
        ) && a1 == a0 && s.claim_next(t1).1->Ok_0 + b1 == b0,
        s.claim_next(t1).0.cancel_next(t2).1 matches Ok((b1, a1)) ==> s.cancel_next(t2).1 matches Ok((b0, a0)) && a1
            == a0 && s.claim_next(t1).1->Ok_0 + b1 == b0,
{
    let c = s.config->Some_0;
    lemma_consistent_later(s, t, t1);
    lemma_vested_bounded(c.total_amount as int, c.vesting_elapsed(t1), c.cliff_seconds as int, c.duration_seconds as int);
    lemma_vested_bounded(c.total_amount as int, c.vesting_elapsed(t2), c.cliff_seconds as int, c.duration_seconds as int);
}

/// The status reports `fully_vested` exactly when the vested amount it
/// reports has reached the total, in every state, cancelled and paused ones
/// included.
pub proof fn law_fully_vested_means_all_vested(s: ForgeVesting, now: u64)
    requires
        s.wf(),
    ensures
        s.status_at(now) matches Ok(st) ==> st.fully_vested == (st.vested >= st.total_amount),
{
    if s.config is Some {
        let c = s.config->Some_0;
        lemma_vested_bounded(c.total_amount as int, c.vesting_elapsed(now), c.cliff_seconds as int, c.duration_seconds as int);
    }
}

} // verus!
