//! Linear vesting with a cliff: the arithmetic shared by both contracts.
use vstd::prelude::*;
use vstd::arithmetic::div_mod::{lemma_div_is_ordered, lemma_div_multiples_vanish, lemma_div_pos_is_pos};
use vstd::arithmetic::mul::{lemma_mul_inequality, lemma_mul_nonnegative, lemma_mul_is_commutative};

verus! {

/// Seconds elapsed from `start` to `now`, zero when `now` is earlier (`saturating_sub`).
pub open spec fn elapsed_since(start: u64, now: u64) -> int {
    if now >= start { now - start } else { 0 }
}

/// `a / d` rounded toward zero, as integer division on `i128` computes it.
pub open spec fn trunc_div(a: int, d: int) -> int {
    if a >= 0 {
        a / d
    } else {
        -((-a) / d)
    }
}

/// Amount vested after `elapsed` seconds: nothing before the cliff, everything
/// once the duration has passed, and `total * elapsed / duration` (rounded
/// toward zero) in between.
pub open spec fn linear_vested(total: int, elapsed: int, cliff: int, duration: int) -> int {
    if elapsed < cliff {
        0
    } else if elapsed >= duration {
        total
    } else {
        trunc_div(total * elapsed, duration)
    }
}

/// The product `total * elapsed` that the linear phase computes fits in an `i128`.
pub open spec fn product_fits(total: int, elapsed: int, cliff: int, duration: int) -> bool {
    (cliff <= elapsed && elapsed < duration) ==> i128::MIN <= total * elapsed <= i128::MAX
}

/// `total * e / d` lies between 0 and `total` when `0 <= e <= d`.
pub proof fn lemma_share_bounded(total: int, e: int, d: int)
    requires
        total >= 0,
        0 <= e <= d,
        d > 0,
    ensures
        0 <= total * e / d <= total,
{
    lemma_mul_nonnegative(total, e);
    lemma_div_pos_is_pos(total * e, d);
    lemma_mul_inequality(e, d, total);
    lemma_mul_is_commutative(e, total);
    lemma_mul_is_commutative(d, total);
    lemma_div_is_ordered(total * e, total * d, d);
    lemma_div_multiples_vanish(total, d);
    lemma_mul_is_commutative(d, total);
}

/// The vested amount stays within `0..=total`.
pub proof fn lemma_vested_bounded(total: int, elapsed: int, cliff: int, duration: int)
    requires
        total >= 0,
        elapsed >= 0,
        duration > 0,
    ensures
        0 <= linear_vested(total, elapsed, cliff, duration) <= total,
{
    if elapsed >= cliff && elapsed < duration {
        lemma_mul_nonnegative(total, elapsed);
        lemma_share_bounded(total, elapsed, duration);
    }
}

/// Vesting never goes backwards: more elapsed time never vests less.
pub proof fn lemma_vested_monotone(total: int, e1: int, e2: int, cliff: int, duration: int)
    requires
        total >= 0,
        0 <= e1 <= e2,
        0 <= cliff <= duration,
        duration > 0,
    ensures
        linear_vested(total, e1, cliff, duration) <= linear_vested(total, e2, cliff, duration),
{
    lemma_vested_bounded(total, e1, cliff, duration);
    lemma_vested_bounded(total, e2, cliff, duration);
    if e1 >= cliff && e2 < duration {
        lemma_mul_nonnegative(total, e1);
        lemma_mul_nonnegative(total, e2);
        lemma_mul_inequality(e1, e2, total);
        lemma_mul_is_commutative(e1, total);
        lemma_mul_is_commutative(e2, total);
        lemma_div_is_ordered(total * e1, total * e2, duration);
    }
}

/// Computes `linear_vested` for the given schedule parameters.
pub fn vested_amount(total: i128, elapsed: u64, cliff: u64, duration: u64) -> (v: i128)
    requires
        product_fits(total as int, elapsed as int, cliff as int, duration as int),
    ensures
        v == linear_vested(total as int, elapsed as int, cliff as int, duration as int),
        total >= 0 ==> 0 <= v <= total,
{
    if elapsed < cliff {
        return 0;
    }
    if elapsed >= duration {
        return total;
    }
    proof {
        if total >= 0 {
            lemma_mul_nonnegative(total as int, elapsed as int);
            lemma_share_bounded(total as int, elapsed as int, duration as int);
        }
    }
    (total * (elapsed as i128)) / (duration as i128)
}

/// Whether `product_fits` holds, so that `vested_amount` may be called.
pub fn vesting_fits(total: i128, elapsed: u64, cliff: u64, duration: u64) -> (b: bool)
    ensures
        b == product_fits(total as int, elapsed as int, cliff as int, duration as int),
{
    if cliff <= elapsed && elapsed < duration {
        total.checked_mul(elapsed as i128).is_some()
    } else {
        true
    }
}

/// `now.saturating_sub(start)`.
pub fn elapsed_seconds(start: u64, now: u64) -> (e: u64)
    ensures
        e == elapsed_since(start, now),
{
    now.saturating_sub(start)
}

} // verus!
