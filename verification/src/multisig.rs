//! An N-of-M multisig treasury: owners propose transfers, vote on them, and
//! execute approved ones after a timelock.
use vstd::prelude::*;
use crate::effects::{Outcome, Payment, pay_out, payout};

verus! {

/// Storage keys of the multisig contract.
#[derive(Clone, Debug, PartialEq, Eq)]
pub enum DataKey {
    Owners,
    Threshold,
    TimelockDelay,
    Proposal(u64),
    NextProposalId,
    /// Whether an address is an owner.
    IsOwner(String),
    /// Whether an address has approved a proposal.
    HasApproved(u64, String),
    /// Whether an address has rejected a proposal.
    HasRejected(u64, String),
    /// Tokens committed to approved, not yet executed proposals, per token.
    CommittedAmount(String),
}

/// A proposed transfer out of the treasury.
#[derive(Clone, Debug, PartialEq, Eq)]
pub struct Proposal {
    pub proposer: String,
    pub to: String,
    pub token: String,
    pub amount: i128,
    pub approval_count: u32,
    pub rejection_count: u32,
    /// When the approval threshold was reached.
    pub approved_at: Option<u64>,
    pub executed: bool,
    pub cancelled: bool,
    /// A transfer of the native asset (through its asset contract).
    pub is_native: bool,
}

/// Errors of the multisig contract.
#[derive(Clone, Copy, Debug, PartialEq, Eq, Structural)]
pub enum MultisigError {
    Common,
    Unauthorized,
    NotInitialized,
    AlreadyInitialized,
    ProposalNotFound,
    AlreadyExecuted,
    AlreadyCancelled,
    AlreadyVoted,
    InsufficientApprovals,
    TimelockNotElapsed,
    InvalidThreshold,
    InvalidAmount,
    InsufficientFunds,
    AlreadyApproved,
    CannotCancel,
}

impl MultisigError {
    /// The error's code on the ledger: 1 to 15 in declaration order.
    pub fn code(&self) -> (c: u32)
        ensures
            1 <= c <= 15,
            c == (match *self {
                MultisigError::Common => 1u32,
                MultisigError::Unauthorized => 2u32,
                MultisigError::NotInitialized => 3u32,
                MultisigError::AlreadyInitialized => 4u32,
                MultisigError::ProposalNotFound => 5u32,
                MultisigError::AlreadyExecuted => 6u32,
                MultisigError::AlreadyCancelled => 7u32,
                MultisigError::AlreadyVoted => 8u32,
                MultisigError::InsufficientApprovals => 9u32,
                MultisigError::TimelockNotElapsed => 10u32,
                MultisigError::InvalidThreshold => 11u32,
                MultisigError::InvalidAmount => 12u32,
                MultisigError::InsufficientFunds => 13u32,
                MultisigError::AlreadyApproved => 14u32,
                MultisigError::CannotCancel => 15u32,
            }),
    {
        match self {
            MultisigError::Common => 1,
            MultisigError::Unauthorized => 2,
            MultisigError::NotInitialized => 3,
            MultisigError::AlreadyInitialized => 4,
            MultisigError::ProposalNotFound => 5,
            MultisigError::AlreadyExecuted => 6,
            MultisigError::AlreadyCancelled => 7,
            MultisigError::AlreadyVoted => 8,
            MultisigError::InsufficientApprovals => 9,
            MultisigError::TimelockNotElapsed => 10,
            MultisigError::InvalidThreshold => 11,
            MultisigError::InvalidAmount => 12,
            MultisigError::InsufficientFunds => 13,
            MultisigError::AlreadyApproved => 14,
            MultisigError::CannotCancel => 15,
        }
    }
}

/// Whether one of `s` has the text `a`.
pub open spec fn has_text(s: Seq<String>, a: Seq<char>) -> bool {
    exists|i: int| 0 <= i < s.len() && (#[trigger] s[i])@ == a
}

/// `s` with every repeated text dropped, first occurrences kept in order.
pub open spec fn dedup(s: Seq<String>) -> Seq<String>
    decreases s.len(),
{
    if s.len() == 0 {
        Seq::<String>::empty()
    } else {
        let d = dedup(s.drop_last());
        if has_text(d, s.last()@) {
            d
        } else {
            d.push(s.last())
        }
    }
}

/// No text occurs twice in `s`.
pub open spec fn distinct_texts(s: Seq<String>) -> bool {
    forall|i: int, j: int| 0 <= i < s.len() && 0 <= j < s.len() && i != j ==> (#[trigger] s[i])@ != (#[trigger] s[j])@
}

/// Whether one of `v` has the text `a`.
pub fn contains_text(v: &Vec<String>, a: &String) -> (r: bool)
    ensures
        r == has_text(v@, a@),
{
    let mut i: usize = 0;
    while i < v.len()
        invariant
            i <= v@.len(),
            forall|k: int| 0 <= k < i ==> (#[trigger] v@[k])@ != a@,
        decreases v.len() - i,
    {
        if v[i] == *a {
            return true;
        }
        i = i + 1;
    }
    false
}

/// `owners` without repetitions, in order of first occurrence.
pub fn dedup_owners(owners: &Vec<String>) -> (r: Vec<String>)
    ensures
        r@ == dedup(owners@),
{
    let mut unique: Vec<String> = Vec::new();
    let mut i: usize = 0;
    while i < owners.len()
        invariant
            i <= owners@.len(),
            unique@ == dedup(owners@.take(i as int)),
        decreases owners.len() - i,
    {
        assert(owners@.take(i + 1).drop_last() =~= owners@.take(i as int));
        let owner = owners[i].clone();
        if !contains_text(&unique, &owner) {
            unique.push(owner);
        }
        i = i + 1;
    }
    assert(owners@.take(owners@.len() as int) =~= owners@);
    unique
}

/// The owners, the number of approvals a proposal needs, and the delay
/// between reaching it and execution.
#[derive(Clone, Debug, PartialEq, Eq)]
pub struct MultisigConfig {
    pub owners: Vec<String>,
    pub threshold: u32,
    pub timelock_delay: u64,
}

impl MultisigConfig {
    /// The invariant: distinct owners, and a threshold between one and their
    /// number.
    pub open spec fn wf(self) -> bool {
        &&& 1 <= self.threshold <= self.owners@.len()
        &&& self.owners@.len() <= u32::MAX
        &&& distinct_texts(self.owners@)
    }
}

/// Result of `initialize`: the owners without repetitions, provided the
/// threshold is between one and their number.
pub open spec fn initialized(
    current: Option<MultisigConfig>,
    owners: Seq<String>,
    threshold: u32,
    timelock_delay: u64,
) -> Result<(Seq<String>, u32, u64), MultisigError> {
    if current is Some {
        Err(MultisigError::AlreadyInitialized)
    } else if threshold == 0 || threshold > dedup(owners).len() {
        Err(MultisigError::InvalidThreshold)
    } else {
        Ok((dedup(owners), threshold, timelock_delay))
    }
}

/// Set up the treasury. Repeated owners count once.
pub fn initialize_config(current: &Option<MultisigConfig>, owners: &Vec<String>, threshold: u32, timelock_delay: u64) -> (r: Result<
    MultisigConfig,
    MultisigError,
>)
    requires
        owners@.len() <= u32::MAX,
    ensures
        match initialized(*current, owners@, threshold, timelock_delay) {
            Ok((o, t, d)) => r matches Ok(c) && c.owners@ == o && c.threshold == t && c.timelock_delay == d && c.wf(),
            Err(e) => r == Err::<MultisigConfig, MultisigError>(e),
        },
{
    if current.is_some() {
        return Err(MultisigError::AlreadyInitialized);
    }
    let unique = dedup_owners(owners);
    proof {
        lemma_dedup_len(owners@);
        lemma_dedup_distinct(owners@);
    }
    if threshold == 0 || threshold as usize > unique.len() {
        return Err(MultisigError::InvalidThreshold);
    }
    Ok(MultisigConfig { owners: unique, threshold, timelock_delay })
}

/// A text occurs in `s` pushed with `x` exactly when it occurs in `s` or is `x`'s.
pub proof fn lemma_has_text_push(s: Seq<String>, x: String, a: Seq<char>)
    ensures
        has_text(s.push(x), a) <==> (has_text(s, a) || x@ == a),
{
    let t = s.push(x);
    if has_text(t, a) {
        let i = choose|i: int| 0 <= i < t.len() && (#[trigger] t[i])@ == a;
        if i < s.len() {
            assert(s[i] == t[i]);
        }
    }
    if has_text(s, a) {
        let i = choose|i: int| 0 <= i < s.len() && (#[trigger] s[i])@ == a;
        assert(t[i] == s[i]);
    }
    if x@ == a {
        assert(t[s.len() as int] == x);
    }
}

/// Removing repetitions keeps every text that occurs.
pub proof fn lemma_dedup_members(s: Seq<String>, a: Seq<char>)
    ensures
        has_text(dedup(s), a) <==> has_text(s, a),
    decreases s.len(),
{
    if s.len() > 0 {
        let init = s.drop_last();
        lemma_dedup_members(init, a);
        lemma_has_text_push(dedup(init), s.last(), a);
        assert(s == init.push(s.last()));
        lemma_has_text_push(init, s.last(), a);
        lemma_dedup_members(init, s.last()@);
    }
}

/// Pushing a text that does not occur yet keeps the texts distinct.
pub proof fn lemma_push_distinct(s: Seq<String>, x: String)
    requires
        distinct_texts(s),
        !has_text(s, x@),
    ensures
        distinct_texts(s.push(x)),
{
    let e = s.push(x);
    assert forall|i: int, j: int| 0 <= i < e.len() && 0 <= j < e.len() && i != j implies (#[trigger] e[i])@
        != (#[trigger] e[j])@ by {
        if i < s.len() && j < s.len() {
            assert(e[i] == s[i] && e[j] == s[j]);
        } else if i < s.len() {
            assert(e[i] == s[i]);
        } else {
            assert(e[j] == s[j]);
        }
    }
}

/// Distinct texts that all occur in `owners` are at most as many as `owners`.
pub proof fn lemma_distinct_within(v: Seq<String>, owners: Seq<String>)
    requires
        distinct_texts(v),
        forall|i: int| 0 <= i < v.len() ==> has_text(owners, (#[trigger] v[i])@),
    ensures
        v.len() <= owners.len(),
    decreases v.len(),
{
    if v.len() > 0 {
        let last = v.len() - 1;
        assert(has_text(owners, v[last]@));
        let k = choose|k: int| 0 <= k < owners.len() && (#[trigger] owners[k])@ == v[last]@;
        let rest = owners.remove(k);
        let init = v.drop_last();
        assert forall|i: int| 0 <= i < init.len() implies has_text(rest, (#[trigger] init[i])@) by {
            assert(init[i] == v[i]);
            assert(has_text(owners, v[i]@));
            let j = choose|j: int| 0 <= j < owners.len() && (#[trigger] owners[j])@ == v[i]@;
            assert(v[i]@ != v[last]@);
            if j < k {
                assert(rest[j] == owners[j]);
            } else {
                assert(rest[j - 1] == owners[j]);
            }
        }
        assert forall|i: int, j: int| 0 <= i < init.len() && 0 <= j < init.len() && i != j implies (#[trigger] init[i])@
            != (#[trigger] init[j])@ by {
            assert(init[i] == v[i] && init[j] == v[j]);
        }
        lemma_distinct_within(init, rest);
    }
}

/// After removing repetitions no text occurs twice.
pub proof fn lemma_dedup_distinct(s: Seq<String>)
    ensures
        distinct_texts(dedup(s)),
    decreases s.len(),
{
    if s.len() > 0 {
        lemma_dedup_distinct(s.drop_last());
        if !has_text(dedup(s.drop_last()), s.last()@) {
            lemma_push_distinct(dedup(s.drop_last()), s.last());
        }
    }
}

/// Removing repetitions never makes a list longer.
pub proof fn lemma_dedup_len(s: Seq<String>)
    ensures
        dedup(s).len() <= s.len(),
    decreases s.len(),
{
    if s.len() > 0 {
        lemma_dedup_len(s.drop_last());
    }
}

/// Whether `who` may act: the treasury is set up and `who` is an owner.
pub open spec fn owner_check(config: Option<MultisigConfig>, who: Seq<char>) -> Result<(), MultisigError> {
    match config {
        None => Err(MultisigError::NotInitialized),
        Some(c) => if has_text(c.owners@, who) { Ok(()) } else { Err(MultisigError::Unauthorized) },
    }
}

/// Checks that `who` may act (see `owner_check`).
pub fn check_owner(config: &Option<MultisigConfig>, who: &String) -> (r: Result<(), MultisigError>)
    ensures
        r == owner_check(*config, who@),
{
    match config {
        None => Err(MultisigError::NotInitialized),
        Some(c) => if contains_text(&c.owners, who) { Ok(()) } else { Err(MultisigError::Unauthorized) },
    }
}

/// `committed + amount` fits in an `i128`.
pub open spec fn commit_room(committed: int, amount: int) -> bool {
    i128::MIN <= committed + amount <= i128::MAX
}

/// `x - y` clamped to the range of `i128` (`i128::saturating_sub`).
pub open spec fn sat_sub(x: int, y: int) -> int {
    if x - y > i128::MAX {
        i128::MAX as int
    } else if x - y < i128::MIN {
        i128::MIN as int
    } else {
        x - y
    }
}

/// `x - y` clamped to the range of `i128`.
pub fn saturating_minus(x: i128, y: i128) -> (r: i128)
    ensures
        r == sat_sub(x as int, y as int),
{
    match x.checked_sub(y) {
        Some(v) => v,
        None => if y > 0 { i128::MIN } else { i128::MAX },
    }
}

/// Result of `propose`: a new proposal already approved by its proposer, and
/// the token's committed amount afterwards (raised by `amount` when one
/// approval suffices).
pub open spec fn proposed(
    config: Option<MultisigConfig>,
    proposer: String,
    to: String,
    token: String,
    amount: i128,
    is_native: bool,
    committed: i128,
    now: u64,
) -> Result<(Proposal, i128), MultisigError> {
    match owner_check(config, proposer@) {
        Err(e) => Err(e),
        Ok(_) => if amount <= 0 {
            Err(MultisigError::InvalidAmount)
        } else {
            let approved = config->Some_0.threshold <= 1;
            Ok((
                Proposal {
                    proposer,
                    to,
                    token,
                    amount,
                    approval_count: 1,
                    rejection_count: 0,
                    approved_at: if approved { Some(now) } else { None },
                    executed: false,
                    cancelled: false,
                    is_native,
                },
                if approved { (committed + amount) as i128 } else { committed },
            ))
        },
    }
}

/// Whether `propose` would commit `amount` of the token.
pub open spec fn propose_commits(config: Option<MultisigConfig>, proposer: Seq<char>, amount: i128) -> bool {
    owner_check(config, proposer) is Ok && amount > 0 && config->Some_0.threshold <= 1
}

/// Create a proposal to send `amount` of `token` to `to`; the proposer's
/// approval is counted at once. `committed` is the token's committed amount.
pub fn propose_step(
    config: &Option<MultisigConfig>,
    proposer: String,
    to: String,
    token: String,
    amount: i128,
    is_native: bool,
    committed: i128,
    now: u64,
) -> (out: Outcome<(Proposal, i128), MultisigError>)
    requires
        propose_commits(*config, proposer@, amount) ==> commit_room(committed as int, amount as int),
    ensures
        out.result == proposed(*config, proposer, to, token, amount, is_native, committed, now),
        out.signers@ == seq![proposer],
        out.payments@ == Seq::<Payment>::empty(),
{
    let signers = vec![proposer.clone()];
    match check_owner(config, &proposer) {
        Err(e) => {
            return Outcome { result: Err(e), signers, payments: Vec::new() };
        },
        Ok(_) => {},
    }
    if amount <= 0 {
        return Outcome { result: Err(MultisigError::InvalidAmount), signers, payments: Vec::new() };
    }
    let threshold = match config {
        Some(c) => c.threshold,
        None => 0,
    };
    let approved = threshold <= 1;
    let proposal = Proposal {
        proposer,
        to,
        token,
        amount,
        approval_count: 1,
        rejection_count: 0,
        approved_at: if approved { Some(now) } else { None },
        executed: false,
        cancelled: false,
        is_native,
    };
    let new_committed = if approved { committed + amount } else { committed };
    Outcome { result: Ok((proposal, new_committed)), signers, payments: Vec::new() }
}

/// The checks every vote and execution makes of the proposal, after the
/// owner check: it exists, and is neither executed nor cancelled.
pub open spec fn live_check(proposal: Option<Proposal>) -> Result<Proposal, MultisigError> {
    match proposal {
        None => Err(MultisigError::ProposalNotFound),
        Some(p) => if p.executed {
            Err(MultisigError::AlreadyExecuted)
        } else if p.cancelled {
            Err(MultisigError::AlreadyCancelled)
        } else {
            Ok(p)
        },
    }
}

fn check_live(proposal: &Option<Proposal>) -> (r: Result<Proposal, MultisigError>)
    ensures
        r == live_check(*proposal),
{
    match proposal {
        None => Err(MultisigError::ProposalNotFound),
        Some(p) => if p.executed {
            Err(MultisigError::AlreadyExecuted)
        } else if p.cancelled {
            Err(MultisigError::AlreadyCancelled)
        } else {
            Ok(copy_proposal(p))
        },
    }
}

/// Copies a proposal field by field.
pub fn copy_proposal(p: &Proposal) -> (r: Proposal)
    ensures
        r == *p,
{
    Proposal {
        proposer: p.proposer.clone(),
        to: p.to.clone(),
        token: p.token.clone(),
        amount: p.amount,
        approval_count: p.approval_count,
        rejection_count: p.rejection_count,
        approved_at: p.approved_at,
        executed: p.executed,
        cancelled: p.cancelled,
        is_native: p.is_native,
    }
}

/// Whether an approval of `p` reaches the threshold for the first time.
pub open spec fn approval_reaches(config: MultisigConfig, p: Proposal) -> bool {
    p.approval_count.saturating_add(1) >= config.threshold && p.approved_at is None
}

/// Result of `approve`: the proposal with one more approval (reaching the
/// threshold starts its timelock and commits its amount), and the token's
/// committed amount afterwards.
pub open spec fn approved(
    config: Option<MultisigConfig>,
    owner: Seq<char>,
    proposal: Option<Proposal>,
    voted: bool,
    committed: i128,
    now: u64,
) -> Result<(Proposal, i128), MultisigError> {
    match owner_check(config, owner) {
        Err(e) => Err(e),
        Ok(_) => match live_check(proposal) {
            Err(e) => Err(e),
            Ok(p) => if voted {
                Err(MultisigError::AlreadyVoted)
            } else {
                let reaches = approval_reaches(config->Some_0, p);
                Ok((
                    Proposal {
                        approval_count: p.approval_count.saturating_add(1),
                        approved_at: if reaches { Some(now) } else { p.approved_at },
                        ..p
                    },
                    if reaches { (committed + p.amount) as i128 } else { committed },
                ))
            },
        },
    }
}

/// Whether `approve` would commit the proposal's amount.
pub open spec fn approve_commits(config: Option<MultisigConfig>, owner: Seq<char>, proposal: Option<Proposal>, voted: bool) -> bool {
    &&& owner_check(config, owner) is Ok
    &&& live_check(proposal) is Ok
    &&& !voted
    &&& approval_reaches(config->Some_0, proposal->Some_0)
}

/// Record `owner`'s approval of `proposal`; `voted` tells whether the owner
/// already approved or rejected it, `committed` is the committed amount of
/// its token.
pub fn approve_step(
    config: &Option<MultisigConfig>,
    owner: &String,
    proposal: &Option<Proposal>,
    voted: bool,
    committed: i128,
    now: u64,
) -> (out: Outcome<(Proposal, i128), MultisigError>)
    requires
        approve_commits(*config, owner@, *proposal, voted) ==> commit_room(committed as int, proposal->Some_0.amount as int),
    ensures
        out.result == approved(*config, owner@, *proposal, voted, committed, now),
        out.signers@ == seq![*owner],
        out.payments@ == Seq::<Payment>::empty(),
{
    let signers = vec![owner.clone()];
    match check_owner(config, owner) {
        Err(e) => {
            return Outcome { result: Err(e), signers, payments: Vec::new() };
        },
        Ok(_) => {},
    }
    let p = match check_live(proposal) {
        Err(e) => {
            return Outcome { result: Err(e), signers, payments: Vec::new() };
        },
        Ok(p) => p,
    };
    if voted {
        return Outcome { result: Err(MultisigError::AlreadyVoted), signers, payments: Vec::new() };
    }
    let threshold = match config {
        Some(c) => c.threshold,
        None => 0,
    };
    let count = p.approval_count.saturating_add(1);
    let reaches = count >= threshold && p.approved_at.is_none();
    proof {
        if reaches {
            assert(p == proposal->Some_0);
            assert(threshold == config->Some_0.threshold);
            assert(approve_commits(*config, owner@, *proposal, voted));
        }
    }
    let new_committed = if reaches { committed + p.amount } else { committed };
    let approved_at = if reaches { Some(now) } else { p.approved_at };
    let updated = Proposal { approval_count: count, approved_at, ..p };
    Outcome { result: Ok((updated, new_committed)), signers, payments: Vec::new() }
}

/// Result of `reject`: the proposal with one more rejection.
pub open spec fn rejected(
    config: Option<MultisigConfig>,
    owner: Seq<char>,
    proposal: Option<Proposal>,
    voted: bool,
) -> Result<Proposal, MultisigError> {
    match owner_check(config, owner) {
        Err(e) => Err(e),
        Ok(_) => match live_check(proposal) {
            Err(e) => Err(e),
            Ok(p) => if voted {
                Err(MultisigError::AlreadyVoted)
            } else {
                Ok(Proposal { rejection_count: p.rejection_count.saturating_add(1), ..p })
            },
        },
    }
}

/// Record `owner`'s rejection of `proposal`.
pub fn reject_step(config: &Option<MultisigConfig>, owner: &String, proposal: &Option<Proposal>, voted: bool) -> (out:
    Outcome<Proposal, MultisigError>)
    ensures
        out.result == rejected(*config, owner@, *proposal, voted),
        out.signers@ == seq![*owner],
        out.payments@ == Seq::<Payment>::empty(),
{
    let signers = vec![owner.clone()];
    match check_owner(config, owner) {
        Err(e) => {
            return Outcome { result: Err(e), signers, payments: Vec::new() };
        },
        Ok(_) => {},
    }
    let p = match check_live(proposal) {
        Err(e) => {
            return Outcome { result: Err(e), signers, payments: Vec::new() };
        },
        Ok(p) => p,
    };
    if voted {
        return Outcome { result: Err(MultisigError::AlreadyVoted), signers, payments: Vec::new() };
    }
    let count = p.rejection_count.saturating_add(1);
    Outcome { result: Ok(Proposal { rejection_count: count, ..p }), signers, payments: Vec::new() }
}

/// Result of `execute` at `now`, the treasury holding `balance` of the
/// token: the proposal marked executed and its amount released from the
/// token's committed amount. Refused before the threshold, during the
/// timelock, and when the balance does not cover everything committed.
pub open spec fn executed(
    config: Option<MultisigConfig>,
    executor: Seq<char>,
    proposal: Option<Proposal>,
    committed: i128,
    balance: i128,
    now: u64,
) -> Result<(Proposal, i128), MultisigError> {
    match owner_check(config, executor) {
        Err(e) => Err(e),
        Ok(_) => match live_check(proposal) {
            Err(e) => Err(e),
            Ok(p) => match p.approved_at {
                None => Err(MultisigError::InsufficientApprovals),
                Some(at) => if now < at + config->Some_0.timelock_delay {
                    Err(MultisigError::TimelockNotElapsed)
                } else if balance < committed {
                    Err(MultisigError::InsufficientFunds)
                } else {
                    Ok((Proposal { executed: true, ..p }, sat_sub(committed as int, p.amount as int) as i128))
                },
            },
        },
    }
}

/// Whether `execute` reaches its timelock check.
pub open spec fn execute_checks_timelock(config: Option<MultisigConfig>, executor: Seq<char>, proposal: Option<Proposal>) -> bool {
    &&& owner_check(config, executor) is Ok
    &&& live_check(proposal) is Ok
    &&& proposal->Some_0.approved_at is Some
}

/// Whether `execute` gets as far as comparing the treasury's balance with
/// the committed amount: the executor is an owner, the proposal is live and
/// approved, and its timelock has passed.
pub open spec fn execute_checks_balance(config: Option<MultisigConfig>, executor: Seq<char>, proposal: Option<Proposal>, now: u64) -> bool {
    &&& execute_checks_timelock(config, executor, proposal)
    &&& now >= proposal->Some_0.approved_at->Some_0 + config->Some_0.timelock_delay
}

/// Whether `execute` at `now` needs the treasury's balance of the token
/// (see `execute_checks_balance`).
pub fn execute_needs_balance(config: &Option<MultisigConfig>, executor: &String, proposal: &Option<Proposal>, now: u64) -> (b:
    bool)
    requires
        execute_checks_timelock(*config, executor@, *proposal) ==> proposal->Some_0.approved_at->Some_0
            + config->Some_0.timelock_delay <= u64::MAX,
    ensures
        b == execute_checks_balance(*config, executor@, *proposal, now),
{
    if check_owner(config, executor).is_err() {
        return false;
    }
    match check_live(proposal) {
        Err(_) => false,
        Ok(p) => match (p.approved_at, config) {
            (Some(at), Some(c)) => now >= at + c.timelock_delay,
            _ => false,
        },
    }
}

/// Execute `proposal` at `now`: pay its amount to its recipient.
pub fn execute_step(
    config: &Option<MultisigConfig>,
    executor: &String,
    proposal: &Option<Proposal>,
    committed: i128,
    balance: i128,
    now: u64,
) -> (out: Outcome<(Proposal, i128), MultisigError>)
    requires
        execute_checks_timelock(*config, executor@, *proposal) ==> proposal->Some_0.approved_at->Some_0
            + config->Some_0.timelock_delay <= u64::MAX,
    ensures
        out.result == executed(*config, executor@, *proposal, committed, balance, now),
        out.signers@ == seq![*executor],
        out.payments@ == (match out.result {
            Ok((p, _)) => seq![payout(p.to, p.amount as int)],
            Err(_) => Seq::<Payment>::empty(),
        }),
{
    let signers = vec![executor.clone()];
    match check_owner(config, executor) {
        Err(e) => {
            return Outcome { result: Err(e), signers, payments: Vec::new() };
        },
        Ok(_) => {},
    }
    let p = match check_live(proposal) {
        Err(e) => {
            return Outcome { result: Err(e), signers, payments: Vec::new() };
        },
        Ok(p) => p,
    };
    let at = match p.approved_at {
        None => {
            return Outcome { result: Err(MultisigError::InsufficientApprovals), signers, payments: Vec::new() };
        },
        Some(at) => at,
    };
    let delay = match config {
        Some(c) => c.timelock_delay,
        None => 0,
    };
    if now < at + delay {
        return Outcome { result: Err(MultisigError::TimelockNotElapsed), signers, payments: Vec::new() };
    }
    if balance < committed {
        return Outcome { result: Err(MultisigError::InsufficientFunds), signers, payments: Vec::new() };
    }
    let released = saturating_minus(committed, p.amount);
    let payment = pay_out(p.to.clone(), p.amount);
    let done = Proposal { executed: true, ..p };
    Outcome { result: Ok((done, released)), signers, payments: vec![payment] }
}

/// What a cancellation leaves of the token's committed amount: the
/// proposal's amount is released when it had reached the threshold.
pub open spec fn released(p: Proposal, committed: i128) -> i128 {
    if p.approved_at is Some { sat_sub(committed as int, p.amount as int) as i128 } else { committed }
}

/// Approvals a proposal could still gather: owners that have voted neither way.
pub open spec fn remaining_possible(config: MultisigConfig, p: Proposal) -> u32 {
    (config.owners@.len() as u32).saturating_sub(p.rejection_count).saturating_sub(p.approval_count)
}

/// Result of `cancel` by `owner`: the proposer may always cancel; another
/// owner only when the proposal can no longer reach the threshold.
pub open spec fn cancelled(
    config: Option<MultisigConfig>,
    owner: Seq<char>,
    proposal: Option<Proposal>,
    committed: i128,
) -> Result<(Proposal, i128), MultisigError> {
    match owner_check(config, owner) {
        Err(e) => Err(e),
        Ok(_) => match live_check(proposal) {
            Err(e) => Err(e),
            Ok(p) => if p.proposer@ == owner || remaining_possible(config->Some_0, p) < config->Some_0.threshold {
                Ok((Proposal { cancelled: true, ..p }, released(p, committed)))
            } else {
                Err(MultisigError::CannotCancel)
            },
        },
    }
}

/// Cancel `proposal` on behalf of `owner`.
pub fn cancel_step(config: &Option<MultisigConfig>, owner: &String, proposal: &Option<Proposal>, committed: i128) -> (out:
    Outcome<(Proposal, i128), MultisigError>)
    requires
        config matches Some(c) ==> c.wf(),
    ensures
        out.result == cancelled(*config, owner@, *proposal, committed),
        out.signers@ == seq![*owner],
        out.payments@ == Seq::<Payment>::empty(),
{
    let signers = vec![owner.clone()];
    match check_owner(config, owner) {
        Err(e) => {
            return Outcome { result: Err(e), signers, payments: Vec::new() };
        },
        Ok(_) => {},
    }
    let p = match check_live(proposal) {
        Err(e) => {
            return Outcome { result: Err(e), signers, payments: Vec::new() };
        },
        Ok(p) => p,
    };
    let (threshold, total_owners) = match config {
        Some(c) => (c.threshold, c.owners.len() as u32),
        None => (0, 0),
    };
    let remaining = total_owners.saturating_sub(p.rejection_count).saturating_sub(p.approval_count);
    if p.proposer == *owner || remaining < threshold {
        let left = if p.approved_at.is_some() { saturating_minus(committed, p.amount) } else { committed };
        return Outcome { result: Ok((Proposal { cancelled: true, ..p }, left)), signers, payments: Vec::new() };
    }
    Outcome { result: Err(MultisigError::CannotCancel), signers, payments: Vec::new() }
}

/// Tokens committed for one token.
#[derive(Clone, Debug, PartialEq, Eq)]
pub struct Commitment {
    pub token: String,
    pub amount: i128,
}

/// The committed amount of the token with text `t`: the first entry for it,
/// or zero when there is none.
pub open spec fn committed_of(c: Seq<Commitment>, t: Seq<char>) -> int
    decreases c.len(),
{
    if c.len() == 0 {
        0
    } else if c[0].token@ == t {
        c[0].amount as int
    } else {
        committed_of(c.drop_first(), t)
    }
}

proof fn lemma_committed_skip(c: Seq<Commitment>, k: int, t: Seq<char>)
    requires
        0 <= k <= c.len(),
        forall|j: int| 0 <= j < k ==> (#[trigger] c[j]).token@ != t,
    ensures
        committed_of(c, t) == committed_of(c.subrange(k, c.len() as int), t),
    decreases k,
{
    if k > 0 {
        let d = c.drop_first();
        assert forall|j: int| 0 <= j < k - 1 implies (#[trigger] d[j]).token@ != t by {
            assert(d[j] == c[j + 1]);
        }
        lemma_committed_skip(d, k - 1, t);
        assert(d.subrange(k - 1, d.len() as int) =~= c.subrange(k, c.len() as int));
    } else {
        assert(c.subrange(0, c.len() as int) =~= c);
    }
}

proof fn lemma_committed_set(c: Seq<Commitment>, i: int, x: Commitment, t: Seq<char>)
    requires
        0 <= i < c.len(),
        x.token@ == c[i].token@,
        forall|j: int| 0 <= j < i ==> (#[trigger] c[j]).token@ != c[i].token@,
    ensures
        committed_of(c.update(i, x), t) == if t == x.token@ { x.amount as int } else { committed_of(c, t) },
    decreases i,
{
    let u = c.update(i, x);
    if i == 0 {
        assert(u.drop_first() =~= c.drop_first());
    } else {
        assert(u[0] == c[0]);
        assert(u.drop_first() =~= c.drop_first().update(i - 1, x));
        let d = c.drop_first();
        assert forall|j: int| 0 <= j < i - 1 implies (#[trigger] d[j]).token@ != d[i - 1].token@ by {
            assert(d[j] == c[j + 1]);
        }
        lemma_committed_set(d, i - 1, x, t);
        if t == x.token@ {
            assert(c[0].token@ != t);
        }
    }
}

proof fn lemma_committed_push(c: Seq<Commitment>, x: Commitment, t: Seq<char>)
    requires
        forall|j: int| 0 <= j < c.len() ==> (#[trigger] c[j]).token@ != x.token@,
    ensures
        committed_of(c.push(x), t) == if t == x.token@ { x.amount as int } else { committed_of(c, t) },
    decreases c.len(),
{
    assert(c.push(x)[0] == if c.len() == 0 { x } else { c[0] });
    if c.len() == 0 {
        assert(c.push(x).drop_first() =~= c);
        assert(committed_of(c, t) == 0);
    } else {
        assert(c.push(x).drop_first() =~= c.drop_first().push(x));
        let d = c.drop_first();
        assert forall|j: int| 0 <= j < d.len() implies (#[trigger] d[j]).token@ != x.token@ by {
            assert(d[j] == c[j + 1]);
        }
        lemma_committed_push(d, x, t);
        if t == x.token@ {
            assert(c[0].token@ != t);
        }
    }
}

/// The committed amount of `token`.
pub fn committed_amount(c: &Vec<Commitment>, token: &String) -> (r: i128)
    ensures
        r == committed_of(c@, token@),
{
    let mut i: usize = 0;
    while i < c.len()
        invariant
            i <= c@.len(),
            forall|j: int| 0 <= j < i ==> (#[trigger] c@[j]).token@ != token@,
        decreases c.len() - i,
    {
        if c[i].token == *token {
            proof {
                lemma_committed_skip(c@, i as int, token@);
            }
            return c[i].amount;
        }
        i = i + 1;
    }
    proof {
        lemma_committed_skip(c@, i as int, token@);
    }
    0
}

/// `after` holds `amount` for the token with text `token` and, for every
/// other token, what `before` holds.
pub open spec fn commitment_set(before: Seq<Commitment>, after: Seq<Commitment>, token: Seq<char>, amount: int) -> bool {
    forall|t: Seq<char>|
        #![trigger committed_of(after, t)]
        committed_of(after, t) == if t == token { amount } else { committed_of(before, t) }
}

/// Sets the committed amount of `token` to `amount`, leaving other tokens alone.
pub fn set_committed(c: &mut Vec<Commitment>, token: &String, amount: i128)
    ensures
        commitment_set(old(c)@, final(c)@, token@, amount as int),
{
    let mut i: usize = 0;
    while i < c.len()
        invariant
            i <= c@.len(),
            c@ == old(c)@,
            forall|j: int| 0 <= j < i ==> (#[trigger] c@[j]).token@ != token@,
        decreases c.len() - i,
    {
        if c[i].token == *token {
            let ghost before = c@;
            c.set(i, Commitment { token: token.clone(), amount });
            proof {
                let x = c@[i as int];
                assert forall|t: Seq<char>| #![trigger committed_of(c@, t)]
                    committed_of(c@, t) == if t == token@ { amount as int } else { committed_of(before, t) } by {
                    lemma_committed_set(before, i as int, x, t);
                }
            }
            return;
        }
        i = i + 1;
    }
    let ghost before = c@;
    c.push(Commitment { token: token.clone(), amount });
    proof {
        let x = c@.last();
        assert(c@ == before.push(x));
        assert forall|t: Seq<char>| #![trigger committed_of(c@, t)]
            committed_of(c@, t) == if t == token@ { amount as int } else { committed_of(before, t) } by {
            lemma_committed_push(before, x, t);
        }
    }
}

} // verus!
