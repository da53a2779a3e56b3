//! The whole state of a multisig treasury: its configuration, every proposal
//! with the owners that voted on it, and the amounts committed per token.
use vstd::prelude::*;
use crate::effects::{Outcome, Payment, payout};
use crate::multisig::{
    Commitment, MultisigConfig, MultisigError, Proposal, distinct_texts, lemma_distinct_within, lemma_has_text_push,
    lemma_push_distinct, approve_commits, approve_step, approved, cancel_step,
    cancelled, commit_room, commitment_set, committed_amount, committed_of, contains_text, copy_proposal,
    execute_checks_timelock, execute_step, executed, has_text, initialize_config, initialized, owner_check,
    propose_commits, propose_step, proposed, reject_step, rejected, set_committed, check_owner,
};

verus! {

/// A proposal together with the owners that approved and rejected it.
#[derive(Debug)]
pub struct Ballot {
    pub proposal: Proposal,
    pub approvers: Vec<String>,
    pub rejecters: Vec<String>,
}

/// Whether the owner with text `who` approved or rejected the proposal.
pub open spec fn voted(b: Ballot, who: Seq<char>) -> bool {
    has_text(b.approvers@, who) || has_text(b.rejecters@, who)
}

/// What `p` holds back of the token with text `t`: its amount while it is
/// approved and neither executed nor cancelled, nothing otherwise.
pub open spec fn pending_amount(p: Proposal, t: Seq<char>) -> int {
    if p.approved_at is Some && !p.executed && !p.cancelled && p.token@ == t {
        p.amount as int
    } else {
        0
    }
}

/// The sum of `pending_amount` over all proposals of `b`.
pub open spec fn pending_total(b: Seq<Ballot>, t: Seq<char>) -> int
    decreases b.len(),
{
    if b.len() == 0 {
        0
    } else {
        pending_total(b.drop_last(), t) + pending_amount(b.last().proposal, t)
    }
}

proof fn lemma_pending_push(b: Seq<Ballot>, x: Ballot, t: Seq<char>)
    ensures
        pending_total(b.push(x), t) == pending_total(b, t) + pending_amount(x.proposal, t),
{
    assert(b.push(x).drop_last() =~= b);
}

proof fn lemma_pending_update(b: Seq<Ballot>, i: int, x: Ballot, t: Seq<char>)
    requires
        0 <= i < b.len(),
    ensures
        pending_total(b.update(i, x), t) == pending_total(b, t) - pending_amount(b[i].proposal, t)
            + pending_amount(x.proposal, t),
    decreases b.len(),
{
    let u = b.update(i, x);
    if i == b.len() - 1 {
        assert(u.drop_last() =~= b.drop_last());
    } else {
        assert(u.drop_last() =~= b.drop_last().update(i, x));
        lemma_pending_update(b.drop_last(), i, x, t);
    }
}

pub proof fn lemma_pending_covers(b: Seq<Ballot>, i: int, t: Seq<char>)
    requires
        0 <= i < b.len(),
        forall|j: int| 0 <= j < b.len() ==> (#[trigger] b[j]).proposal.amount > 0,
    ensures
        pending_total(b, t) >= pending_amount(b[i].proposal, t),
    decreases b.len(),
{
    lemma_pending_nonneg(b.drop_last(), t);
    if i < b.len() - 1 {
        lemma_pending_covers(b.drop_last(), i, t);
    }
}

pub proof fn lemma_pending_nonneg(b: Seq<Ballot>, t: Seq<char>)
    requires
        forall|j: int| 0 <= j < b.len() ==> (#[trigger] b[j]).proposal.amount > 0,
    ensures
        pending_total(b, t) >= 0,
    decreases b.len(),
{
    if b.len() > 0 {
        lemma_pending_nonneg(b.drop_last(), t);
    }
}

/// What every stored proposal keeps: a positive amount; a start of its
/// timelock exactly when its approvals reach the threshold; and votes of
/// distinct owners, each owner approving or rejecting at most once, counted
/// by its approval and rejection counts.
pub open spec fn ballot_wf(b: Ballot, c: MultisigConfig) -> bool {
    &&& b.proposal.amount > 0
    &&& (b.proposal.approved_at is Some <==> b.proposal.approval_count >= c.threshold)
    &&& b.proposal.approval_count == b.approvers@.len()
    &&& b.proposal.rejection_count == b.rejecters@.len()
    &&& distinct_texts(b.approvers@)
    &&& distinct_texts(b.rejecters@)
    &&& forall|i: int|
        0 <= i < b.approvers@.len() ==> has_text(c.owners@, (#[trigger] b.approvers@[i])@) && !has_text(
            b.rejecters@,
            b.approvers@[i]@,
        )
    &&& forall|i: int| 0 <= i < b.rejecters@.len() ==> has_text(c.owners@, (#[trigger] b.rejecters@[i])@)
}

/// Adding the vote of an owner that has not voted to the votes `v` keeps
/// them distinct owners, and they were fewer than `u32::MAX`.
proof fn lemma_vote_room(v: Seq<String>, owner: String, owners: Seq<String>)
    requires
        distinct_texts(v),
        forall|i: int| 0 <= i < v.len() ==> has_text(owners, (#[trigger] v[i])@),
        has_text(owners, owner@),
        !has_text(v, owner@),
        owners.len() <= u32::MAX,
    ensures
        v.len() < u32::MAX,
        distinct_texts(v.push(owner)),
        forall|i: int| 0 <= i < v.len() + 1 ==> has_text(owners, (#[trigger] v.push(owner)[i])@),
{
    lemma_push_distinct(v, owner);
    let w = v.push(owner);
    assert forall|i: int| 0 <= i < v.len() + 1 implies has_text(owners, (#[trigger] w[i])@) by {
        if i < v.len() {
            assert(w[i] == v[i]);
        }
    }
    lemma_distinct_within(w, owners);
}

/// `b` is `a` with only the proposal at `i` replaced.
pub open spec fn ballots_updated(a: Seq<Ballot>, b: Seq<Ballot>, i: int) -> bool {
    &&& 0 <= i < a.len()
    &&& b.len() == a.len()
    &&& forall|j: int| 0 <= j < a.len() && j != i ==> b[j] == a[j]
}

/// Copies a list of texts.
pub fn copy_texts(v: &Vec<String>) -> (r: Vec<String>)
    ensures
        r@ == v@,
{
    let mut r: Vec<String> = Vec::new();
    let mut i: usize = 0;
    while i < v.len()
        invariant
            i <= v@.len(),
            r@ == v@.take(i as int),
        decreases v.len() - i,
    {
        r.push(v[i].clone());
        assert(r@ =~= v@.take(i + 1));
        i = i + 1;
    }
    assert(v@.take(v@.len() as int) =~= v@);
    r
}

/// The multisig treasury: owners propose transfers, vote on them, and
/// execute approved ones once their timelock has passed.
#[derive(Debug)]
pub struct MultisigContract {
    /// The owners, threshold and timelock, once set up.
    pub config: Option<MultisigConfig>,
    /// The proposals, the one with id `i` at index `i`.
    pub ballots: Vec<Ballot>,
    /// The committed amount of each token that has one.
    pub commitments: Vec<Commitment>,
}

impl MultisigContract {
    /// The invariant: a valid configuration (nothing stored before it), every
    /// proposal well formed, and each token's committed amount equal to the
    /// sum of the amounts of its approved, pending proposals.
    pub open spec fn wf(self) -> bool {
        &&& match self.config {
            Some(c) => c.wf() && forall|i: int|
                0 <= i < self.ballots@.len() ==> ballot_wf(#[trigger] self.ballots@[i], c),
            None => self.ballots@.len() == 0 && self.commitments@.len() == 0,
        }
        &&& forall|t: Seq<char>|
            #![trigger committed_of(self.commitments@, t)]
            committed_of(self.commitments@, t) == pending_total(self.ballots@, t)
    }

    /// The committed amount of the token with text `t`.
    pub open spec fn committed(self, t: Seq<char>) -> int {
        committed_of(self.commitments@, t)
    }

    /// The proposal with id `id`, if there is one.
    pub open spec fn proposal_at(self, id: u64) -> Option<Proposal> {
        if id < self.ballots@.len() {
            Some(self.ballots@[id as int].proposal)
        } else {
            None
        }
    }

    /// Whether the owner with text `who` voted on the proposal with id `id`.
    pub open spec fn has_voted(self, id: u64, who: Seq<char>) -> bool {
        id < self.ballots@.len() && voted(self.ballots@[id as int], who)
    }

    /// A treasury that is not set up yet.
    pub fn new() -> (m: MultisigContract)
        ensures
            m.wf(),
            m.config is None,
            m.ballots@.len() == 0,
    {
        let m = MultisigContract { config: None, ballots: Vec::new(), commitments: Vec::new() };
        proof {
            assert forall|t: Seq<char>| #![trigger committed_of(m.commitments@, t)]
                committed_of(m.commitments@, t) == pending_total(m.ballots@, t) by {}
        }
        m
    }

    /// Set up the treasury with `owners` (repetitions count once), the
    /// number of approvals a proposal needs, and the timelock in seconds.
    pub fn initialize(&mut self, owners: Vec<String>, threshold: u32, timelock_delay: u64) -> (r: Result<(), MultisigError>)
        requires
            old(self).wf(),
            owners@.len() <= u32::MAX,
        ensures
            final(self).wf(),
            match initialized(old(self).config, owners@, threshold, timelock_delay) {
                Ok((o, t, d)) => {
                    &&& r is Ok
                    &&& final(self).config matches Some(c) && c.owners@ == o && c.threshold == t && c.timelock_delay == d
                    &&& final(self).ballots@ == old(self).ballots@
                    &&& final(self).commitments@ == old(self).commitments@
                },
                Err(e) => r == Err::<(), MultisigError>(e) && *final(self) == *old(self),
            },
    {
        match initialize_config(&self.config, &owners, threshold, timelock_delay) {
            Err(e) => Err(e),
            Ok(c) => {
                self.config = Some(c);
                Ok(())
            },
        }
    }

    /// The proposal with id `id`, if there is one.
    fn proposal_opt(&self, id: u64) -> (r: Option<Proposal>)
        ensures
            r == self.proposal_at(id),
    {
        if id < self.ballots.len() as u64 {
            Some(copy_proposal(&self.ballots[id as usize].proposal))
        } else {
            None
        }
    }

    /// Whether `who` voted on the proposal with id `id`.
    fn voted_on(&self, id: u64, who: &String) -> (r: bool)
        ensures
            r == self.has_voted(id, who@),
    {
        if id < self.ballots.len() as u64 {
            let b = &self.ballots[id as usize];
            contains_text(&b.approvers, who) || contains_text(&b.rejecters, who)
        } else {
            false
        }
    }

    fn add_proposal(&mut self, proposer: String, to: String, token: String, amount: i128, is_native: bool, now: u64) -> (out:
        Outcome<u64, MultisigError>)
        requires
            old(self).wf(),
            old(self).ballots@.len() < u64::MAX,
            propose_commits(old(self).config, proposer@, amount) ==> commit_room(old(self).committed(token@), amount as int),
        ensures
            final(self).wf(),
            out.signers@ == seq![proposer],
            out.payments@ == Seq::<Payment>::empty(),
            match proposed(old(self).config, proposer, to, token, amount, is_native, old(self).committed(token@) as i128, now) {
                Ok((p, c)) => {
                    &&& out.result == Ok::<u64, MultisigError>(old(self).ballots@.len() as u64)
                    &&& final(self).config == old(self).config
                    &&& final(self).ballots@.len() == old(self).ballots@.len() + 1
                    &&& final(self).ballots@.last().proposal == p
                    &&& final(self).ballots@.last().approvers@ == seq![proposer]
                    &&& final(self).has_voted(old(self).ballots@.len() as u64, proposer@)
                    &&& final(self).ballots@.last().rejecters@.len() == 0
                    &&& forall|i: int| 0 <= i < old(self).ballots@.len() ==> final(self).ballots@[i] == old(self).ballots@[i]
                    &&& commitment_set(old(self).commitments@, final(self).commitments@, token@, c as int)
                },
                Err(e) => out.result == Err::<u64, MultisigError>(e) && *final(self) == *old(self),
            },
    {
        let committed = committed_amount(&self.commitments, &token);
        let step = propose_step(&self.config, proposer.clone(), to, token.clone(), amount, is_native, committed, now);
        let Outcome { result, signers, payments } = step;
        match result {
            Err(e) => Outcome { result: Err(e), signers, payments },
            Ok((p, c)) => {
                let ghost before = *self;
                let id = self.ballots.len() as u64;
                set_committed(&mut self.commitments, &token, c);
                let ballot = Ballot { proposal: p, approvers: vec![proposer], rejecters: Vec::new() };
                self.ballots.push(ballot);
                proof {
                    let x = self.ballots@.last();
                    assert(self.ballots@ == before.ballots@.push(x));
                    assert forall|t: Seq<char>| #![trigger committed_of(self.commitments@, t)]
                        committed_of(self.commitments@, t) == pending_total(self.ballots@, t) by {
                        lemma_pending_push(before.ballots@, x, t);
                    }
                    let thr = self.config->Some_0;
                    assert forall|i: int| 0 <= i < self.ballots@.len() implies ballot_wf(#[trigger] self.ballots@[i], thr) by {
                        if i < before.ballots@.len() {
                            assert(self.ballots@[i] == before.ballots@[i]);
                        }
                    }
                }
                Outcome { result: Ok(id), signers, payments }
            },
        }
    }

    /// Propose sending `amount` of `token` to `to`; the proposer's approval
    /// counts at once. Returns the new proposal's id.
    pub fn propose(&mut self, proposer: String, to: String, token: String, amount: i128, now: u64) -> (out: Outcome<
        u64,
        MultisigError,
    >)
        requires
            old(self).wf(),
            old(self).ballots@.len() < u64::MAX,
            propose_commits(old(self).config, proposer@, amount) ==> commit_room(old(self).committed(token@), amount as int),
        ensures
            final(self).wf(),
            out.signers@ == seq![proposer],
            out.payments@ == Seq::<Payment>::empty(),
            match proposed(old(self).config, proposer, to, token, amount, false, old(self).committed(token@) as i128, now) {
                Ok((p, c)) => {
                    &&& out.result == Ok::<u64, MultisigError>(old(self).ballots@.len() as u64)
                    &&& final(self).config == old(self).config
                    &&& final(self).ballots@.len() == old(self).ballots@.len() + 1
                    &&& final(self).ballots@.last().proposal == p
                    &&& final(self).ballots@.last().approvers@ == seq![proposer]
                    &&& final(self).has_voted(old(self).ballots@.len() as u64, proposer@)
                    &&& final(self).ballots@.last().rejecters@.len() == 0
                    &&& forall|i: int| 0 <= i < old(self).ballots@.len() ==> final(self).ballots@[i] == old(self).ballots@[i]
                    &&& commitment_set(old(self).commitments@, final(self).commitments@, token@, c as int)
                },
                Err(e) => out.result == Err::<u64, MultisigError>(e) && *final(self) == *old(self),
            },
    {
        self.add_proposal(proposer, to, token, amount, false, now)
    }

    /// Propose sending `amount` of the native asset (through its asset
    /// contract `xlm_token`) to `to`; otherwise as `propose`.
    pub fn propose_xlm(&mut self, proposer: String, to: String, xlm_token: String, amount: i128, now: u64) -> (out:
        Outcome<u64, MultisigError>)
        requires
            old(self).wf(),
            old(self).ballots@.len() < u64::MAX,
            propose_commits(old(self).config, proposer@, amount) ==> commit_room(old(self).committed(xlm_token@), amount as int),
        ensures
            final(self).wf(),
            out.signers@ == seq![proposer],
            out.payments@ == Seq::<Payment>::empty(),
            match proposed(old(self).config, proposer, to, xlm_token, amount, true, old(self).committed(xlm_token@) as i128, now) {
                Ok((p, c)) => {
                    &&& out.result == Ok::<u64, MultisigError>(old(self).ballots@.len() as u64)
                    &&& final(self).config == old(self).config
                    &&& final(self).ballots@.len() == old(self).ballots@.len() + 1
                    &&& final(self).ballots@.last().proposal == p
                    &&& final(self).ballots@.last().approvers@ == seq![proposer]
                    &&& final(self).has_voted(old(self).ballots@.len() as u64, proposer@)
                    &&& final(self).ballots@.last().rejecters@.len() == 0
                    &&& forall|i: int| 0 <= i < old(self).ballots@.len() ==> final(self).ballots@[i] == old(self).ballots@[i]
                    &&& commitment_set(old(self).commitments@, final(self).commitments@, xlm_token@, c as int)
                },
                Err(e) => out.result == Err::<u64, MultisigError>(e) && *final(self) == *old(self),
            },
    {
        self.add_proposal(proposer, to, xlm_token, amount, true, now)
    }

    /// Record `owner`'s approval of the proposal with id `proposal_id`;
    /// reaching the threshold starts its timelock and commits its amount.
    pub fn approve(&mut self, owner: String, proposal_id: u64, now: u64) -> (out: Outcome<(), MultisigError>)
        requires
            old(self).wf(),
            approve_commits(
                old(self).config,
                owner@,
                old(self).proposal_at(proposal_id),
                old(self).has_voted(proposal_id, owner@),
            ) ==> commit_room(
                old(self).committed(old(self).proposal_at(proposal_id)->Some_0.token@),
                old(self).proposal_at(proposal_id)->Some_0.amount as int,
            ),
        ensures
            final(self).wf(),
            out.signers@ == seq![owner],
            out.payments@ == Seq::<Payment>::empty(),
            match approved(
                old(self).config,
                owner@,
                old(self).proposal_at(proposal_id),
                old(self).has_voted(proposal_id, owner@),
                old(self).committed(old(self).proposal_at(proposal_id)->Some_0.token@) as i128,
                now,
            ) {
                Ok((p, c)) => {
                    &&& out.result == Ok::<(), MultisigError>(())
                    &&& final(self).config == old(self).config
                    &&& ballots_updated(old(self).ballots@, final(self).ballots@, proposal_id as int)
                    &&& final(self).ballots@[proposal_id as int].proposal == p
                    &&& final(self).ballots@[proposal_id as int].approvers@ == old(self).ballots@[proposal_id as int].approvers@.push(owner)
                    &&& final(self).has_voted(proposal_id, owner@)
                    &&& final(self).ballots@[proposal_id as int].rejecters@ == old(self).ballots@[proposal_id as int].rejecters@
                    &&& commitment_set(old(self).commitments@, final(self).commitments@, p.token@, c as int)
                },
                Err(e) => out.result == Err::<(), MultisigError>(e) && *final(self) == *old(self),
            },
    {
        let proposal = self.proposal_opt(proposal_id);
        let has_voted = self.voted_on(proposal_id, &owner);
        let committed = match &proposal {
            Some(p) => committed_amount(&self.commitments, &p.token),
            None => 0,
        };
        let step = approve_step(&self.config, &owner, &proposal, has_voted, committed, now);
        let Outcome { result, signers, payments } = step;
        match result {
            Err(e) => Outcome { result: Err(e), signers, payments },
            Ok((p, c)) => {
                let ghost before = *self;
                proof {
                    assert(proposal is Some);
                    assert(proposal_id < self.ballots.len());
                }
                let idx = proposal_id as usize;
                let mut approvers = copy_texts(&self.ballots[idx].approvers);
                approvers.push(owner.clone());
                let rejecters = copy_texts(&self.ballots[idx].rejecters);
                set_committed(&mut self.commitments, &p.token, c);
                self.ballots.set(idx, Ballot { proposal: p, approvers, rejecters });
                proof {
                    let x = self.ballots@[idx as int];
                    assert(self.ballots@ == before.ballots@.update(idx as int, x));
                    assert(before == *old(self));
                    assert(x.proposal == p);
                    assert(proposal == before.proposal_at(proposal_id));
                    assert(idx as int == proposal_id as int);
                    assert forall|t: Seq<char>| #![trigger committed_of(self.commitments@, t)]
                        committed_of(self.commitments@, t) == pending_total(self.ballots@, t) by {
                        lemma_pending_update(before.ballots@, idx as int, x, t);
                        assert(committed_of(before.commitments@, t) == pending_total(before.ballots@, t));
                    }
                    let thr = self.config->Some_0;
                    assert forall|i: int| 0 <= i < self.ballots@.len() implies ballot_wf(#[trigger] self.ballots@[i], thr) by {
                        if i != idx {
                            assert(self.ballots@[i] == before.ballots@[i]);
                        } else {
                            let ob = before.ballots@[i];
                            let nb = self.ballots@[i];
                            assert(ballot_wf(ob, thr));
                            assert(!voted(ob, owner@));
                            lemma_vote_room(ob.approvers@, owner, thr.owners@);
                            assert(nb.approvers@ == ob.approvers@.push(owner));
                            assert forall|k: int| 0 <= k < nb.approvers@.len() implies has_text(
                                thr.owners@,
                                (#[trigger] nb.approvers@[k])@,
                            ) && !has_text(nb.rejecters@, nb.approvers@[k]@) by {
                                if k < ob.approvers@.len() {
                                    assert(nb.approvers@[k] == ob.approvers@[k]);
                                }
                            }
                        }
                    }
                }
                proof {
                    lemma_has_text_push(before.ballots@[idx as int].approvers@, owner, owner@);
                }
                Outcome { result: Ok(()), signers, payments }
            },
        }
    }

    /// Record `owner`'s rejection of the proposal with id `proposal_id`.
    pub fn reject(&mut self, owner: String, proposal_id: u64) -> (out: Outcome<(), MultisigError>)
        requires
            old(self).wf(),
        ensures
            final(self).wf(),
            out.signers@ == seq![owner],
            out.payments@ == Seq::<Payment>::empty(),
            match rejected(old(self).config, owner@, old(self).proposal_at(proposal_id), old(self).has_voted(proposal_id, owner@)) {
                Ok(p) => {
                    &&& out.result == Ok::<(), MultisigError>(())
                    &&& final(self).config == old(self).config
                    &&& ballots_updated(old(self).ballots@, final(self).ballots@, proposal_id as int)
                    &&& final(self).ballots@[proposal_id as int].proposal == p
                    &&& final(self).ballots@[proposal_id as int].approvers@ == old(self).ballots@[proposal_id as int].approvers@
                    &&& final(self).ballots@[proposal_id as int].rejecters@ == old(self).ballots@[proposal_id as int].rejecters@.push(owner)
                    &&& final(self).has_voted(proposal_id, owner@)
                    &&& final(self).commitments@ == old(self).commitments@
                },
                Err(e) => out.result == Err::<(), MultisigError>(e) && *final(self) == *old(self),
            },
    {
        let proposal = self.proposal_opt(proposal_id);
        let has_voted = self.voted_on(proposal_id, &owner);
        let step = reject_step(&self.config, &owner, &proposal, has_voted);
        let Outcome { result, signers, payments } = step;
        match result {
            Err(e) => Outcome { result: Err(e), signers, payments },
            Ok(p) => {
                let ghost before = *self;
                proof {
                    assert(proposal is Some);
                    assert(proposal_id < self.ballots.len());
                }
                let idx = proposal_id as usize;
                let approvers = copy_texts(&self.ballots[idx].approvers);
                let mut rejecters = copy_texts(&self.ballots[idx].rejecters);
                rejecters.push(owner.clone());
                self.ballots.set(idx, Ballot { proposal: p, approvers, rejecters });
                proof {
                    let x = self.ballots@[idx as int];
                    assert(self.ballots@ == before.ballots@.update(idx as int, x));
                    assert(before == *old(self));
                    assert(x.proposal == p);
                    assert(proposal == before.proposal_at(proposal_id));
                    assert(idx as int == proposal_id as int);
                    assert forall|t: Seq<char>| #![trigger committed_of(self.commitments@, t)]
                        committed_of(self.commitments@, t) == pending_total(self.ballots@, t) by {
                        lemma_pending_update(before.ballots@, idx as int, x, t);
                        assert(committed_of(before.commitments@, t) == pending_total(before.ballots@, t));
                    }
                    let thr = self.config->Some_0;
                    assert forall|i: int| 0 <= i < self.ballots@.len() implies ballot_wf(#[trigger] self.ballots@[i], thr) by {
                        if i != idx {
                            assert(self.ballots@[i] == before.ballots@[i]);
                        } else {
                            let ob = before.ballots@[i];
                            let nb = self.ballots@[i];
                            assert(ballot_wf(ob, thr));
                            assert(!voted(ob, owner@));
                            lemma_vote_room(ob.rejecters@, owner, thr.owners@);
                            assert(nb.rejecters@ == ob.rejecters@.push(owner));
                            assert forall|k: int| 0 <= k < nb.approvers@.len() implies has_text(
                                thr.owners@,
                                (#[trigger] nb.approvers@[k])@,
                            ) && !has_text(nb.rejecters@, nb.approvers@[k]@) by {
                                assert(nb.approvers@[k] == ob.approvers@[k]);
                                lemma_has_text_push(ob.rejecters@, owner, ob.approvers@[k]@);
                            }
                        }
                    }
                }
                proof {
                    lemma_has_text_push(before.ballots@[idx as int].rejecters@, owner, owner@);
                }
                Outcome { result: Ok(()), signers, payments }
            },
        }
    }

    /// Execute the proposal with id `proposal_id` at `now`, the treasury
    /// holding `balance` of its token: pay its amount to its recipient and
    /// release it from the token's committed amount.
    pub fn execute(&mut self, executor: String, proposal_id: u64, balance: i128, now: u64) -> (out: Outcome<(), MultisigError>)
        requires
            old(self).wf(),
            execute_checks_timelock(old(self).config, executor@, old(self).proposal_at(proposal_id))
                ==> old(self).proposal_at(proposal_id)->Some_0.approved_at->Some_0 + old(self).config->Some_0.timelock_delay
                <= u64::MAX,
        ensures
            final(self).wf(),
            out.signers@ == seq![executor],
            match executed(
                old(self).config,
                executor@,
                old(self).proposal_at(proposal_id),
                old(self).committed(old(self).proposal_at(proposal_id)->Some_0.token@) as i128,
                balance,
                now,
            ) {
                Ok((p, c)) => {
                    &&& out.result == Ok::<(), MultisigError>(())
                    &&& out.payments@ == seq![payout(p.to, p.amount as int)]
                    &&& final(self).config == old(self).config
                    &&& ballots_updated(old(self).ballots@, final(self).ballots@, proposal_id as int)
                    &&& final(self).ballots@[proposal_id as int].proposal == p
                    &&& final(self).ballots@[proposal_id as int].approvers@ == old(self).ballots@[proposal_id as int].approvers@
                    &&& final(self).ballots@[proposal_id as int].rejecters@ == old(self).ballots@[proposal_id as int].rejecters@
                    &&& commitment_set(old(self).commitments@, final(self).commitments@, p.token@, c as int)
                    &&& c == old(self).committed(p.token@) - p.amount
                    &&& balance - p.amount >= c
                },
                Err(e) => {
                    &&& out.result == Err::<(), MultisigError>(e)
                    &&& out.payments@ == Seq::<Payment>::empty()
                    &&& *final(self) == *old(self)
                },
            },
    {
        let proposal = self.proposal_opt(proposal_id);
        let committed = match &proposal {
            Some(p) => committed_amount(&self.commitments, &p.token),
            None => 0,
        };
        let step = execute_step(&self.config, &executor, &proposal, committed, balance, now);
        let Outcome { result, signers, payments } = step;
        match result {
            Err(e) => Outcome { result: Err(e), signers, payments },
            Ok((p, c)) => {
                let ghost before = *self;
                proof {
                    assert(proposal is Some);
                    assert(proposal_id < self.ballots.len());
                }
                let idx = proposal_id as usize;
                let approvers = copy_texts(&self.ballots[idx].approvers);
                let rejecters = copy_texts(&self.ballots[idx].rejecters);
                proof {
                    assert(proposal == before.proposal_at(proposal_id));
                    assert(idx as int == proposal_id as int);
                    let old_p = before.ballots@[idx as int].proposal;
                    lemma_pending_covers(before.ballots@, idx as int, old_p.token@);
                    assert(committed_of(before.commitments@, old_p.token@) == pending_total(before.ballots@, old_p.token@));
                }
                set_committed(&mut self.commitments, &p.token, c);
                self.ballots.set(idx, Ballot { proposal: p, approvers, rejecters });
                proof {
                    let x = self.ballots@[idx as int];
                    assert(self.ballots@ == before.ballots@.update(idx as int, x));
                    assert forall|t: Seq<char>| #![trigger committed_of(self.commitments@, t)]
                        committed_of(self.commitments@, t) == pending_total(self.ballots@, t) by {
                        lemma_pending_update(before.ballots@, idx as int, x, t);
                        assert(committed_of(before.commitments@, t) == pending_total(before.ballots@, t));
                    }
                    let thr = self.config->Some_0;
                    assert forall|i: int| 0 <= i < self.ballots@.len() implies ballot_wf(#[trigger] self.ballots@[i], thr) by {
                        if i != idx {
                            assert(self.ballots@[i] == before.ballots@[i]);
                        } else {
                            assert(ballot_wf(before.ballots@[i], thr));
                        }
                    }
                }
                Outcome { result: Ok(()), signers, payments }
            },
        }
    }

    /// Cancel the proposal with id `proposal_id` on behalf of `owner`,
    /// releasing its amount when it had been approved.
    pub fn cancel(&mut self, owner: String, proposal_id: u64) -> (out: Outcome<(), MultisigError>)
        requires
            old(self).wf(),
        ensures
            final(self).wf(),
            out.signers@ == seq![owner],
            out.payments@ == Seq::<Payment>::empty(),
            match cancelled(
                old(self).config,
                owner@,
                old(self).proposal_at(proposal_id),
                old(self).committed(old(self).proposal_at(proposal_id)->Some_0.token@) as i128,
            ) {
                Ok((p, c)) => {
                    &&& out.result == Ok::<(), MultisigError>(())
                    &&& final(self).config == old(self).config
                    &&& ballots_updated(old(self).ballots@, final(self).ballots@, proposal_id as int)
                    &&& final(self).ballots@[proposal_id as int].proposal == p
                    &&& final(self).ballots@[proposal_id as int].approvers@ == old(self).ballots@[proposal_id as int].approvers@
                    &&& final(self).ballots@[proposal_id as int].rejecters@ == old(self).ballots@[proposal_id as int].rejecters@
                    &&& commitment_set(old(self).commitments@, final(self).commitments@, p.token@, c as int)
                    &&& c == old(self).committed(p.token@) - pending_amount(old(self).ballots@[proposal_id as int].proposal, p.token@)
                },
                Err(e) => out.result == Err::<(), MultisigError>(e) && *final(self) == *old(self),
            },
    {
        let proposal = self.proposal_opt(proposal_id);
        let committed = match &proposal {
            Some(p) => committed_amount(&self.commitments, &p.token),
            None => 0,
        };
        let step = cancel_step(&self.config, &owner, &proposal, committed);
        let Outcome { result, signers, payments } = step;
        match result {
            Err(e) => Outcome { result: Err(e), signers, payments },
            Ok((p, c)) => {
                let ghost before = *self;
                proof {
                    assert(proposal is Some);
                    assert(proposal_id < self.ballots.len());
                }
                let idx = proposal_id as usize;
                let approvers = copy_texts(&self.ballots[idx].approvers);
                let rejecters = copy_texts(&self.ballots[idx].rejecters);
                proof {
                    assert(proposal == before.proposal_at(proposal_id));
                    assert(idx as int == proposal_id as int);
                    let old_p = before.ballots@[idx as int].proposal;
                    lemma_pending_covers(before.ballots@, idx as int, old_p.token@);
                    assert(committed_of(before.commitments@, old_p.token@) == pending_total(before.ballots@, old_p.token@));
                }
                set_committed(&mut self.commitments, &p.token, c);
                self.ballots.set(idx, Ballot { proposal: p, approvers, rejecters });
                proof {
                    let x = self.ballots@[idx as int];
                    assert(self.ballots@ == before.ballots@.update(idx as int, x));
                    assert forall|t: Seq<char>| #![trigger committed_of(self.commitments@, t)]
                        committed_of(self.commitments@, t) == pending_total(self.ballots@, t) by {
                        lemma_pending_update(before.ballots@, idx as int, x, t);
                        assert(committed_of(before.commitments@, t) == pending_total(before.ballots@, t));
                    }
                    let thr = self.config->Some_0;
                    assert forall|i: int| 0 <= i < self.ballots@.len() implies ballot_wf(#[trigger] self.ballots@[i], thr) by {
                        if i != idx {
                            assert(self.ballots@[i] == before.ballots@[i]);
                        } else {
                            assert(ballot_wf(before.ballots@[i], thr));
                        }
                    }
                }
                Outcome { result: Ok(()), signers, payments }
            },
        }
    }

    /// The proposal with id `proposal_id`.
    pub fn get_proposal(&self, proposal_id: u64) -> (r: Result<Proposal, MultisigError>)
        ensures
            r == match self.proposal_at(proposal_id) {
                Some(p) => Ok::<Proposal, MultisigError>(p),
                None => Err(MultisigError::ProposalNotFound),
            },
    {
        match self.proposal_opt(proposal_id) {
            Some(p) => Ok(p),
            None => Err(MultisigError::ProposalNotFound),
        }
    }

    /// The owners; none before the treasury is set up.
    pub fn get_owners(&self) -> (r: Vec<String>)
        ensures
            r@ == match self.config {
                Some(c) => c.owners@,
                None => Seq::<String>::empty(),
            },
    {
        match &self.config {
            Some(c) => copy_texts(&c.owners),
            None => Vec::new(),
        }
    }

    /// The owners (same as `get_owners`).
    pub fn get_owner_list(&self) -> (r: Vec<String>)
        ensures
            r@ == match self.config {
                Some(c) => c.owners@,
                None => Seq::<String>::empty(),
            },
    {
        self.get_owners()
    }

    /// The number of approvals a proposal needs; zero before set-up.
    pub fn get_threshold(&self) -> (r: u32)
        ensures
            r == match self.config {
                Some(c) => c.threshold,
                None => 0,
            },
    {
        match &self.config {
            Some(c) => c.threshold,
            None => 0,
        }
    }

    /// The timelock in seconds; zero before set-up.
    pub fn get_timelock_delay(&self) -> (r: u64)
        ensures
            r == match self.config {
                Some(c) => c.timelock_delay,
                None => 0,
            },
    {
        match &self.config {
            Some(c) => c.timelock_delay,
            None => 0,
        }
    }

    /// Whether `address` is one of the owners.
    pub fn is_owner(&self, address: String) -> (r: bool)
        ensures
            r == (owner_check(self.config, address@) is Ok),
    {
        check_owner(&self.config, &address).is_ok()
    }

    /// The approvals of the proposal with id `proposal_id`; zero when there
    /// is no such proposal.
    pub fn get_approval_count(&self, proposal_id: u64) -> (r: u32)
        ensures
            r == match self.proposal_at(proposal_id) {
                Some(p) => p.approval_count,
                None => 0,
            },
    {
        match self.proposal_opt(proposal_id) {
            Some(p) => p.approval_count,
            None => 0,
        }
    }

    /// The committed amount of `token`: the sum of the amounts of its
    /// approved proposals that are neither executed nor cancelled.
    pub fn get_committed_amount(&self, token: String) -> (r: i128)
        requires
            self.wf(),
        ensures
            r == self.committed(token@),
            r == pending_total(self.ballots@, token@),
    {
        committed_amount(&self.commitments, &token)
    }
}

} // verus!
