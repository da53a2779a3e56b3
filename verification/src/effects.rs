//! What a contract call asks its host to do once the decision is taken.
use vstd::prelude::*;

verus! {

/// Holder of tokens in a transfer: the contract itself or an account.
#[derive(Clone, Debug, PartialEq, Eq)]
pub enum Party {
    Contract,
    Account(String),
}

/// A token transfer of `amount` from `from` to `to`.
#[derive(Clone, Debug, PartialEq, Eq)]
pub struct Payment {
    pub from: Party,
    pub to: Party,
    pub amount: i128,
}

/// Result of one contract call together with its effects on the host:
/// `signers` are the accounts whose authorization the call demanded before
/// reaching `result` (in that order), and `payments` are the transfers to carry
/// out, in order, when `result` is `Ok`.
#[derive(Debug, PartialEq, Eq)]
pub struct Outcome<T, E> {
    pub result: Result<T, E>,
    pub signers: Vec<String>,
    pub payments: Vec<Payment>,
}

/// A transfer out of the contract to `account`.
pub open spec fn payout(account: String, amount: int) -> Payment {
    Payment { from: Party::Contract, to: Party::Account(account), amount: amount as i128 }
}

/// The transfers out of the contract for a split: the beneficiary's share,
/// then the admin's share, each only when it is positive.
pub open spec fn split_payouts(beneficiary: String, to_beneficiary: int, admin: String, to_admin: int) -> Seq<Payment> {
    let first: Seq<Payment> = if to_beneficiary > 0 { seq![payout(beneficiary, to_beneficiary)] } else { seq![] };
    if to_admin > 0 { first.push(payout(admin, to_admin)) } else { first }
}

/// The sum of the amounts of `payments`.
pub open spec fn payments_total(payments: Seq<Payment>) -> int
    decreases payments.len(),
{
    if payments.len() == 0 {
        0
    } else {
        payments_total(payments.drop_last()) + payments.last().amount
    }
}

/// The transfers of a split add up to the two shares.
pub proof fn lemma_split_total(beneficiary: String, to_beneficiary: int, admin: String, to_admin: int)
    requires
        0 <= to_beneficiary <= i128::MAX,
        0 <= to_admin <= i128::MAX,
    ensures
        payments_total(split_payouts(beneficiary, to_beneficiary, admin, to_admin)) == to_beneficiary + to_admin,
{
    let first: Seq<Payment> = if to_beneficiary > 0 { seq![payout(beneficiary, to_beneficiary)] } else { seq![] };
    assert(payments_total(first) == to_beneficiary) by {
        assert(payments_total(Seq::<Payment>::empty()) == 0);
        if to_beneficiary > 0 {
            assert(first.drop_last() =~= Seq::<Payment>::empty());
            assert(first.last() == payout(beneficiary, to_beneficiary));
        }
    }
    if to_admin > 0 {
        let all = first.push(payout(admin, to_admin));
        assert(all.drop_last() =~= first);
        assert(all.last() == payout(admin, to_admin));
    }
}

/// A transfer out of the contract to `account`.
pub fn pay_out(account: String, amount: i128) -> (p: Payment)
    ensures
        p == payout(account, amount as int),
{
    Payment { from: Party::Contract, to: Party::Account(account), amount }
}

/// Builds the transfers of a split (see `split_payouts`).
pub fn split_payments(beneficiary: String, to_beneficiary: i128, admin: String, to_admin: i128) -> (v: Vec<Payment>)
    ensures
        v@ == split_payouts(beneficiary, to_beneficiary as int, admin, to_admin as int),
{
    let mut v: Vec<Payment> = Vec::new();
    if to_beneficiary > 0 {
        v.push(pay_out(beneficiary, to_beneficiary));
    }
    if to_admin > 0 {
        v.push(pay_out(admin, to_admin));
    }
    v
}

} // verus!
