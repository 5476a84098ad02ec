//! Conversion between vault token amounts and shares.
//!
//! Both directions round down.  Granting shares for a deposit rounds the
//! share count down, which favours the existing holders; paying tokens out
//! for shares rounds the amount down, which favours the remaining pool.
//! Rounding therefore never creates value: see
//! [`lemma_conversion_round_trip_never_gains`].

use vstd::arithmetic::div_mod::{
    lemma_div_is_ordered, lemma_div_multiples_vanish, lemma_fundamental_div_mod,
    lemma_mod_division_less_than_divisor,
};
use vstd::prelude::*;

use crate::errors::ErrorCode;

verus! {

/// `10^k`, the divisor family used by the rebase algorithm.
pub open spec fn pow10(k: nat) -> nat
    decreases k,
{
    if k == 0 {
        1
    } else {
        10 * pow10((k - 1) as nat)
    }
}

/// Shares granted for depositing `amount` into a pool whose claims total
/// `total_shares` against a backing of `balance` tokens: `amount` itself when
/// the pool has no claims yet (1:1 seeding), otherwise the deposit's
/// proportional slice of the share supply, rounded down.
pub open spec fn spec_shares_for_amount(amount: int, total_shares: int, balance: int) -> int {
    if total_shares == 0 {
        amount
    } else {
        amount * total_shares / balance
    }
}

/// Tokens paid out for burning `shares` of a pool whose claims total
/// `total_shares` against a backing of `balance` tokens: the shares'
/// proportional slice of the backing, rounded down, and `0` when no claims
/// are outstanding.
pub open spec fn spec_amount_for_shares(shares: int, total_shares: int, balance: int) -> int {
    if total_shares == 0 {
        0
    } else {
        shares * balance / total_shares
    }
}

/// Converts a deposit of `amount` tokens into the number of shares it buys.
///
/// Fails only on arithmetic faults: a zero balance backing a nonzero share
/// supply (the share price would be a division by zero), or a product too
/// large for 128 bits.
pub fn shares_for_amount(amount: u64, total_shares: u128, balance: u64) -> (r: Result<
    u128,
    ErrorCode,
>)
    ensures
        r is Ok <==> (total_shares == 0 || (balance != 0 && amount * total_shares <= u128::MAX)),
        r is Ok ==> r->Ok_0 == spec_shares_for_amount(
            amount as int,
            total_shares as int,
            balance as int,
        ),
        r is Err ==> r->Err_0 == ErrorCode::MathError,
{
    if total_shares == 0 {
        return Ok(amount as u128);
    }
    if balance == 0 {
        return Err(ErrorCode::MathError);
    }
    match (amount as u128).checked_mul(total_shares) {
        Some(product) => Ok(product / (balance as u128)),
        None => Err(ErrorCode::MathError),
    }
}

/// Converts `shares` back into the token amount they are worth.
///
/// Fails only on arithmetic faults: a product too large for 128 bits, or a
/// quotient that does not fit the 64-bit token type (possible only when
/// `shares` exceeds `total_shares`).
pub fn amount_for_shares(shares: u128, total_shares: u128, balance: u64) -> (r: Result<
    u64,
    ErrorCode,
>)
    ensures
        r is Ok <==> (total_shares == 0 || (shares * balance <= u128::MAX
            && spec_amount_for_shares(shares as int, total_shares as int, balance as int)
            <= u64::MAX)),
        r is Ok ==> r->Ok_0 == spec_amount_for_shares(
            shares as int,
            total_shares as int,
            balance as int,
        ),
        r is Err ==> r->Err_0 == ErrorCode::MathError,
{
    if total_shares == 0 {
        return Ok(0);
    }
    match shares.checked_mul(balance as u128) {
        Some(product) => {
            let quotient = product / total_shares;
            if quotient > u64::MAX as u128 {
                Err(ErrorCode::MathError)
            } else {
                Ok(quotient as u64)
            }
        },
        None => Err(ErrorCode::MathError),
    }
}

/// Rounding never creates value: granting shares for a deposit and
/// immediately paying those shares back out, against the same share supply
/// and the same backing balance, returns at most the deposited amount.
pub proof fn lemma_conversion_round_trip_never_gains(amount: u64, total_shares: u128, balance: u64)
    requires
        total_shares == 0 || balance > 0,
    ensures
        spec_amount_for_shares(
            spec_shares_for_amount(amount as int, total_shares as int, balance as int),
            total_shares as int,
            balance as int,
        ) <= amount,
{
    let a = amount as int;
    let t = total_shares as int;
    let b = balance as int;
    if t != 0 {
        let s = a * t / b;
        // s * b <= (a * t / b) * b <= a * t
        lemma_fundamental_div_mod(a * t, b);
        lemma_mod_division_less_than_divisor(a * t, b);
        assert(b * (a * t / b) <= a * t);
        assert(s * b == b * s) by (nonlinear_arith);
        // hence s * b / t <= a * t / t == a
        lemma_div_is_ordered(s * b, a * t, t);
        lemma_div_multiples_vanish(a, t);
        assert(t * a == a * t) by (nonlinear_arith);
    }
}

/// `10^k` as a machine integer.  Fails exactly when `10^k` does not fit in
/// 128 bits.
pub fn pow10_checked(k: u32) -> (r: Result<u128, ErrorCode>)
    ensures
        r is Ok <==> pow10(k as nat) <= u128::MAX,
        r is Ok ==> r->Ok_0 == pow10(k as nat),
        r is Err ==> r->Err_0 == ErrorCode::MathError,
{
    let mut i: u32 = 0;
    let mut d: u128 = 1;
    while i < k
        invariant
            i <= k,
            d == pow10(i as nat),
        decreases k - i,
    {
        match d.checked_mul(10) {
            Some(next) => {
                d = next;
                i = i + 1;
                assert(d == pow10(i as nat));
            },
            None => {
                proof {
                    assert(pow10((i + 1) as nat) == 10 * pow10(i as nat));
                    lemma_pow10_mono((i + 1) as nat, k as nat);
                }
                return Err(ErrorCode::MathError);
            },
        }
    }
    Ok(d)
}

/// Powers of ten are at least one.
pub proof fn lemma_pow10_pos(k: nat)
    ensures
        pow10(k) >= 1,
    decreases k,
{
    if k > 0 {
        lemma_pow10_pos((k - 1) as nat);
    }
}

/// Powers of ten grow with the exponent.
pub proof fn lemma_pow10_mono(a: nat, b: nat)
    requires
        a <= b,
    ensures
        pow10(a) <= pow10(b),
    decreases b,
{
    if a < b {
        lemma_pow10_mono(a, (b - 1) as nat);
        lemma_pow10_pos((b - 1) as nat);
    }
}

} // verus!
