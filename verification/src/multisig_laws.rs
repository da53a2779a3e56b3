//! Properties of the multisig treasury that span calls or proposals.
use vstd::prelude::*;
use crate::multisig::{
    MultisigConfig, MultisigError, Proposal, approved, cancelled, dedup, distinct_texts, executed, execute_checks_balance,
    has_text,
    initialized, lemma_dedup_distinct, lemma_dedup_members, lemma_distinct_within, live_check, owner_check,
    proposed, rejected, remaining_possible,
};
use crate::treasury::{MultisigContract, ballot_wf, lemma_pending_covers, pending_amount, pending_total};

verus! {

/// Setting up the treasury removes repeated owners: the stored owners are
/// distinct, are exactly the addresses given, and are at least as many as the
/// threshold.
pub proof fn law_owners_deduplicated(owners: Seq<String>, threshold: u32, timelock_delay: u64)
    ensures
        initialized(None, owners, threshold, timelock_delay) matches Ok((o, t, _)) ==> {
            &&& distinct_texts(o)
            &&& 1 <= t <= o.len()
            &&& forall|a: Seq<char>| #[trigger] has_text(o, a) == has_text(owners, a)
        },
{
    lemma_dedup_distinct(owners);
    assert forall|a: Seq<char>| #[trigger] has_text(dedup(owners), a) == has_text(owners, a) by {
        lemma_dedup_members(owners, a);
    }
}

/// Only owners act: once the treasury is set up, an address that is not an
/// owner is refused every proposal, vote, execution and cancellation with
/// `Unauthorized`, and before set-up every one of them is refused with
/// `NotInitialized`.
pub proof fn law_only_owners_act(
    config: Option<MultisigConfig>,
    who: String,
    to: String,
    token: String,
    amount: i128,
    is_native: bool,
    proposal: Option<Proposal>,
    voted: bool,
    committed: i128,
    balance: i128,
    now: u64,
)
    requires
        owner_check(config, who@) is Err,
    ensures
        ({
            let e = if config is None { MultisigError::NotInitialized } else { MultisigError::Unauthorized };
            &&& proposed(config, who, to, token, amount, is_native, committed, now) == Err::<(Proposal, i128), MultisigError>(e)
            &&& approved(config, who@, proposal, voted, committed, now) == Err::<(Proposal, i128), MultisigError>(e)
            &&& rejected(config, who@, proposal, voted) == Err::<Proposal, MultisigError>(e)
            &&& executed(config, who@, proposal, committed, balance, now) == Err::<(Proposal, i128), MultisigError>(e)
            &&& cancelled(config, who@, proposal, committed) == Err::<(Proposal, i128), MultisigError>(e)
        }),
{
}

/// An executed or cancelled proposal is final: an owner's approval,
/// rejection, execution or cancellation of it is refused with
/// `AlreadyExecuted` or `AlreadyCancelled`.
pub proof fn law_finished_is_final(
    config: Option<MultisigConfig>,
    owner: Seq<char>,
    p: Proposal,
    voted: bool,
    committed: i128,
    balance: i128,
    now: u64,
)
    requires
        owner_check(config, owner) is Ok,
        p.executed || p.cancelled,
    ensures
        ({
            let e = if p.executed { MultisigError::AlreadyExecuted } else { MultisigError::AlreadyCancelled };
            &&& approved(config, owner, Some(p), voted, committed, now) == Err::<(Proposal, i128), MultisigError>(e)
            &&& rejected(config, owner, Some(p), voted) == Err::<Proposal, MultisigError>(e)
            &&& executed(config, owner, Some(p), committed, balance, now) == Err::<(Proposal, i128), MultisigError>(e)
            &&& cancelled(config, owner, Some(p), committed) == Err::<(Proposal, i128), MultisigError>(e)
        }),
{
}

/// Each owner votes once on a proposal: after an owner has approved or
/// rejected a live proposal, that owner's next approval or rejection of it is
/// refused with `AlreadyVoted`.
pub proof fn law_vote_once(m: MultisigContract, proposal_id: u64, owner: Seq<char>, committed: i128, now: u64)
    requires
        m.has_voted(proposal_id, owner),
        owner_check(m.config, owner) is Ok,
        live_check(m.proposal_at(proposal_id)) is Ok,
    ensures
        approved(m.config, owner, m.proposal_at(proposal_id), m.has_voted(proposal_id, owner), committed, now)
            == Err::<(Proposal, i128), MultisigError>(MultisigError::AlreadyVoted),
        rejected(m.config, owner, m.proposal_at(proposal_id), m.has_voted(proposal_id, owner)) == Err::<
            Proposal,
            MultisigError,
        >(MultisigError::AlreadyVoted),
{
}

/// The votes of a stored proposal are counted exactly: its approvals and
/// rejections are the numbers of distinct owners that approved and rejected
/// it, no owner did both, and so there are never more votes than owners. Its
/// timelock has started exactly when its approvals reach the threshold.
pub proof fn law_votes_counted(m: MultisigContract, proposal_id: u64)
    requires
        m.wf(),
        proposal_id < m.ballots@.len(),
    ensures
        ({
            let b = m.ballots@[proposal_id as int];
            let c = m.config->Some_0;
            &&& b.proposal.approval_count == b.approvers@.len()
            &&& b.proposal.rejection_count == b.rejecters@.len()
            &&& distinct_texts(b.approvers@)
            &&& distinct_texts(b.rejecters@)
            &&& forall|i: int| 0 <= i < b.approvers@.len() ==> !has_text(b.rejecters@, (#[trigger] b.approvers@[i])@)
            &&& b.proposal.approval_count <= c.owners@.len()
            &&& b.proposal.rejection_count <= c.owners@.len()
            &&& (b.proposal.approved_at is Some <==> b.proposal.approval_count >= c.threshold)
        }),
{
    let b = m.ballots@[proposal_id as int];
    let c = m.config->Some_0;
    assert(ballot_wf(b, c));
    lemma_distinct_within(b.approvers@, c.owners@);
    lemma_distinct_within(b.rejecters@, c.owners@);
}

/// A proposal's timelock starts once: approving, rejecting, executing or
/// cancelling a proposal whose threshold was already reached keeps its
/// approval time, and an approval commits no further tokens for it.
pub proof fn law_approval_time_fixed(
    config: Option<MultisigConfig>,
    owner: Seq<char>,
    p: Proposal,
    voted: bool,
    committed: i128,
    balance: i128,
    now: u64,
)
    requires
        p.approved_at is Some,
    ensures
        approved(config, owner, Some(p), voted, committed, now) matches Ok((q, c)) ==> q.approved_at == p.approved_at
            && c == committed,
        rejected(config, owner, Some(p), voted) matches Ok(q) ==> q.approved_at == p.approved_at,
        executed(config, owner, Some(p), committed, balance, now) matches Ok((q, _)) ==> q.approved_at
            == p.approved_at,
        cancelled(config, owner, Some(p), committed) matches Ok((q, _)) ==> q.approved_at == p.approved_at,
{
}

/// An execution succeeds only for a proposal that reached its threshold,
/// only once its timelock has passed, and only while the treasury's balance
/// of the token covers everything committed of it.
pub proof fn law_execute_after_timelock(
    config: Option<MultisigConfig>,
    executor: Seq<char>,
    proposal: Option<Proposal>,
    committed: i128,
    balance: i128,
    now: u64,
)
    ensures
        executed(config, executor, proposal, committed, balance, now) is Ok ==> {
            &&& proposal matches Some(p)
            &&& p.approved_at matches Some(at)
            &&& now >= at + config->Some_0.timelock_delay
            &&& balance >= committed
        },
{
}

/// The proposer may always cancel a live proposal; another owner only once
/// the owners that have not voted could no longer bring it to the threshold.
pub proof fn law_who_may_cancel(config: Option<MultisigConfig>, owner: Seq<char>, p: Proposal, committed: i128)
    requires
        owner_check(config, owner) is Ok,
        live_check(Some(p)) is Ok,
    ensures
        cancelled(config, owner, Some(p), committed) is Ok <==> (p.proposer@ == owner || remaining_possible(
            config->Some_0,
            p,
        ) < config->Some_0.threshold),
{
}

/// Every approved proposal that is neither executed nor cancelled is covered
/// by its token's committed amount, which is the sum of all such amounts.
pub proof fn law_committed_covers_pending(m: MultisigContract, proposal_id: u64, t: Seq<char>)
    requires
        m.wf(),
        proposal_id < m.ballots@.len(),
    ensures
        m.committed(t) == pending_total(m.ballots@, t),
        m.committed(t) >= pending_amount(m.ballots@[proposal_id as int].proposal, t),
{
    let c = m.config->Some_0;
    assert forall|j: int| 0 <= j < m.ballots@.len() implies (#[trigger] m.ballots@[j]).proposal.amount > 0 by {
        assert(ballot_wf(m.ballots@[j], c));
    }
    lemma_pending_covers(m.ballots@, proposal_id as int, t);
}


/// The treasury's balance decides an execution only once the executor, the
/// proposal and its timelock have passed their checks: before that, every
/// balance gives the same result.
pub proof fn law_balance_read_last(
    config: Option<MultisigConfig>,
    executor: Seq<char>,
    proposal: Option<Proposal>,
    committed: i128,
    balance1: i128,
    balance2: i128,
    now: u64,
)
    requires
        !execute_checks_balance(config, executor, proposal, now),
    ensures
        executed(config, executor, proposal, committed, balance1, now) == executed(
            config,
            executor,
            proposal,
            committed,
            balance2,
            now,
        ),
{
}


/// The timelock starts when the threshold is reached: an approval that
/// brings a proposal to its threshold at `now` records `now` as the
/// proposal's approval time (one below the threshold records none), so no
/// execution of it succeeds before `now + timelock_delay`. A proposal that
/// its proposer's approval already carries starts it at its proposal time.
pub proof fn law_timelock_starts_at_threshold(
    config: Option<MultisigConfig>,
    owner: Seq<char>,
    p: Proposal,
    voted: bool,
    committed: i128,
    now: u64,
    proposer: String,
    to: String,
    token: String,
    amount: i128,
    is_native: bool,
    executor: Seq<char>,
    committed_later: i128,
    balance: i128,
    t: u64,
)
    requires
        p.approved_at is None,
    ensures
        approved(config, owner, Some(p), voted, committed, now) matches Ok((q, _)) ==> {
            &&& (q.approved_at is Some <==> q.approval_count >= config->Some_0.threshold)
            &&& q.approved_at is Some ==> q.approved_at == Some(now)
            &&& executed(config, executor, Some(q), committed_later, balance, t) is Ok ==> t >= now
                + config->Some_0.timelock_delay
        },
        proposed(config, proposer, to, token, amount, is_native, committed, now) matches Ok((q, _)) ==> {
            &&& q.approved_at is Some ==> q.approved_at == Some(now)
            &&& executed(config, executor, Some(q), committed_later, balance, t) is Ok ==> t >= now
                + config->Some_0.timelock_delay
        },
{
}

} // verus!
