//! The rebase algorithm.
//!
//! When the pool's backing balance falls below its outstanding share count,
//! the share "price" drops under one indivisible token unit and integer
//! truncation would start erasing small holders.  The pool is then rebased:
//! every share quantity is divided by the smallest power of ten that brings
//! the share count back within the balance, and the pool's `share_base`
//! counter grows by the exponent.  The divisions round down; the lost
//! remainders accrue to no one.  Stake records normalize themselves against
//! the pool's base on access, dividing their own mantissas by the base
//! difference.

use vstd::arithmetic::div_mod::{
    lemma_div_basics, lemma_div_denominator, lemma_div_is_ordered, lemma_fundamental_div_mod,
    lemma_mod_division_less_than_divisor,
};
use vstd::prelude::*;

use crate::errors::ErrorCode;
use crate::pool::{FundPool, StakeRecord};
use crate::shares::{lemma_pow10_mono, lemma_pow10_pos, pow10, pow10_checked};

verus! {

/// The smallest exponent `k` with `total / 10^k <= balance`: dividing once
/// by ten while the count still exceeds the balance, and counting the
/// divisions.
pub open spec fn rebase_expo_from(total: nat, balance: nat) -> nat
    decreases total,
{
    if total <= balance {
        0
    } else {
        1 + rebase_expo_from(total / 10, balance)
    }
}

/// The exponent a rebase of a pool with `total_shares` claims against
/// `balance` backing tokens uses.
pub open spec fn rebase_expo(total_shares: u128, balance: u64) -> nat {
    rebase_expo_from(total_shares as nat, balance as nat)
}

/// The power-of-ten divisor belonging to [`rebase_expo`].
pub open spec fn rebase_divisor(total_shares: u128, balance: u64) -> nat {
    pow10(rebase_expo(total_shares, balance))
}

/// A rebase runs only when there is a backing balance and the share count
/// exceeds it.
pub open spec fn pool_rebase_triggers(pool: FundPool, balance: u64) -> bool {
    balance != 0 && (balance as u128) < pool.total_shares
}

/// [`rebase_expo_from`] picks the divisor spec'd: ten to it brings the
/// count within the balance, ten to anything smaller does not, and a count
/// above the balance forces at least one division.
pub proof fn lemma_rebase_expo_minimal(total: nat, balance: nat)
    ensures
        total as int / pow10(rebase_expo_from(total, balance)) as int <= balance,
        total > balance ==> rebase_expo_from(total, balance) >= 1,
        rebase_expo_from(total, balance) >= 1 ==> total as int / pow10(
            (rebase_expo_from(total, balance) - 1) as nat,
        ) as int > balance,
    decreases total,
{
    let k = rebase_expo_from(total, balance);
    lemma_pow10_pos(k);
    if total <= balance {
        lemma_div_basics(total as int);
    } else {
        lemma_rebase_expo_minimal(total / 10, balance);
        let k1 = rebase_expo_from(total / 10, balance);
        lemma_pow10_pos(k1);
        // total / 10^(k1+1) == (total / 10) / 10^k1
        lemma_div_denominator(total as int, 10, pow10(k1) as int);
        assert(pow10(k1 + 1) == 10 * pow10(k1));
        if k1 >= 1 {
            lemma_pow10_pos((k1 - 1) as nat);
            lemma_div_denominator(total as int, 10, pow10((k1 - 1) as nat) as int);
            assert(pow10(k1) == 10 * pow10((k1 - 1) as nat));
        } else {
            lemma_div_basics(total as int);
        }
    }
}

/// The pool [`apply_rebase_to_insurance_fund`] leaves behind: share counts
/// divided by the rebase divisor and the base counter raised, when a rebase
/// triggers; and a pool whose share count is zero re-seeded 1:1 from a
/// nonzero balance.  Fails only when the base counter would overflow.
pub open spec fn spec_pool_after_rebase(pool: FundPool, balance: u64) -> Result<
    FundPool,
    ErrorCode,
> {
    let scaled = if pool_rebase_triggers(pool, balance) {
        let k = rebase_expo(pool.total_shares, balance);
        let d = rebase_divisor(pool.total_shares, balance) as int;
        if pool.share_base + k > u128::MAX {
            Err(ErrorCode::MathError)
        } else {
            Ok(
                FundPool {
                    total_shares: (pool.total_shares as int / d) as u128,
                    depositor_shares: (pool.depositor_shares as int / d) as u128,
                    share_base: (pool.share_base + k) as u128,
                    ..pool
                },
            )
        }
    } else {
        Ok(pool)
    };
    match scaled {
        Err(e) => Err(e),
        Ok(p) => if balance != 0 && p.total_shares == 0 {
            Ok(FundPool { total_shares: balance as u128, ..p })
        } else {
            Ok(p)
        },
    }
}

/// The record [`apply_rebase_to_insurance_fund_stake`] leaves behind: a
/// record already at the pool's base is untouched; one behind it has its
/// share and pending-share mantissas divided by ten to the base difference.
/// A record *ahead* of the pool's base is an invariant violation.
pub open spec fn spec_stake_after_rebase(stake: StakeRecord, share_base: u128) -> Result<
    StakeRecord,
    ErrorCode,
> {
    if stake.if_base == share_base {
        Ok(stake)
    } else if stake.if_base > share_base {
        Err(ErrorCode::InvalidState)
    } else {
        let k = share_base - stake.if_base;
        if k > u32::MAX {
            Err(ErrorCode::MathError)
        } else if pow10(k as nat) > u128::MAX {
            Err(ErrorCode::MathError)
        } else {
            let d = pow10(k as nat) as int;
            Ok(
                StakeRecord {
                    shares: (stake.shares as int / d) as u128,
                    pending_withdraw_shares: (stake.pending_withdraw_shares as int / d) as u128,
                    if_base: share_base,
                    ..stake
                },
            )
        }
    }
}

/// Rebases the pool against the vault balance it is backed by: when the
/// balance is nonzero and smaller than the share count, both share counts
/// are divided by the smallest power of ten that brings the total within
/// the balance, and the base counter grows by its exponent.  A pool whose
/// share count is zero is re-seeded 1:1 from a nonzero balance.  Idempotent
/// once applied, and a prerequisite of every pool-mutating operation.  On
/// any failure the pool is unchanged.
pub fn apply_rebase_to_insurance_fund(insurance_vault_amount: u64, pool: &mut FundPool) -> (r:
    Result<(), ErrorCode>)
    ensures
        match spec_pool_after_rebase(*old(pool), insurance_vault_amount) {
            Ok(p) => r is Ok && *final(pool) == p,
            Err(e) => r is Err && r->Err_0 == e && *final(pool) == *old(pool),
        },
        final(pool).share_base >= old(pool).share_base,
        old(pool).wf() ==> final(pool).wf(),
        // a triggered rebase always brings the share count within the
        // balance and strictly raises the base
        (r is Ok && pool_rebase_triggers(*old(pool), insurance_vault_amount)) ==> ({
            &&& final(pool).total_shares <= insurance_vault_amount
            &&& final(pool).share_base > old(pool).share_base
        }),
{
    if insurance_vault_amount != 0 && (insurance_vault_amount as u128) < pool.total_shares {
        let mut scaled_total = pool.total_shares;
        let mut scaled_dep = pool.depositor_shares;
        let mut expo: u32 = 0;
        proof {
            lemma_pow10_pos(0);
            lemma_div_basics(pool.total_shares as int);
            lemma_div_basics(pool.depositor_shares as int);
        }
        while scaled_total > insurance_vault_amount as u128
            invariant
                scaled_total == pool.total_shares as int / pow10(expo as nat) as int,
                scaled_dep == pool.depositor_shares as int / pow10(expo as nat) as int,
                rebase_expo(pool.total_shares, insurance_vault_amount) == expo + rebase_expo_from(
                    scaled_total as nat,
                    insurance_vault_amount as nat,
                ),
                expo <= 39,
            decreases scaled_total,
        {
            proof {
                let de = pow10(expo as nat) as int;
                lemma_pow10_pos(expo as nat);
                // the quotient is still at least one, so ten to the current
                // exponent is at most the share count, bounding the exponent
                lemma_fundamental_div_mod(pool.total_shares as int, de);
                lemma_mod_division_less_than_divisor(pool.total_shares as int, de);
                assert(de * scaled_total >= de * 1) by (nonlinear_arith)
                    requires
                        de >= 1,
                        scaled_total >= 1,
                ;
                assert(de <= pool.total_shares);
                assert(pow10((expo + 1) as nat) == 10 * pow10(expo as nat));
                if expo >= 39 {
                    lemma_pow10_mono(39, expo as nat);
                    reveal_with_fuel(pow10, 41);
                    assert(pow10(39) > u128::MAX);
                    assert(false);
                }
                // dividing each quotient by ten lands on the next power
                lemma_div_denominator(pool.total_shares as int, de, 10);
                lemma_div_denominator(pool.depositor_shares as int, de, 10);
                assert(de * 10 == 10 * de) by (nonlinear_arith);
            }
            scaled_total = scaled_total / 10;
            scaled_dep = scaled_dep / 10;
            expo = expo + 1;
        }
        match pool.share_base.checked_add(expo as u128) {
            Some(new_base) => {
                proof {
                    if pool.depositor_shares <= pool.total_shares {
                        lemma_pow10_pos(expo as nat);
                        lemma_div_is_ordered(
                            pool.depositor_shares as int,
                            pool.total_shares as int,
                            pow10(expo as nat) as int,
                        );
                    }
                }
                pool.total_shares = scaled_total;
                pool.depositor_shares = scaled_dep;
                pool.share_base = new_base;
            },
            None => {
                return Err(ErrorCode::MathError);
            },
        }
    }
    if insurance_vault_amount != 0 && pool.total_shares == 0 {
        pool.total_shares = insurance_vault_amount as u128;
    }
    Ok(())
}

/// Normalizes a stake record against the pool's current share base, dividing
/// its share and pending-share mantissas by ten to the base difference.  A
/// record ahead of the pool's base is refused as an invariant violation.  On
/// any failure the record is unchanged.
pub fn apply_rebase_to_insurance_fund_stake(stake: &mut StakeRecord, pool: &FundPool) -> (r:
    Result<(), ErrorCode>)
    ensures
        match spec_stake_after_rebase(*old(stake), pool.share_base) {
            Ok(s) => r is Ok && *final(stake) == s,
            Err(e) => r is Err && r->Err_0 == e && *final(stake) == *old(stake),
        },
        final(stake).if_base == pool.share_base || *final(stake) == *old(stake),
        old(stake).wf() ==> final(stake).wf(),
{
    if stake.if_base == pool.share_base {
        return Ok(());
    }
    if stake.if_base > pool.share_base {
        return Err(ErrorCode::InvalidState);
    }
    let diff = pool.share_base - stake.if_base;
    if diff > u32::MAX as u128 {
        return Err(ErrorCode::MathError);
    }
    let divisor = match pow10_checked(diff as u32) {
        Ok(d) => d,
        Err(e) => {
            return Err(e);
        },
    };
    proof {
        lemma_pow10_pos(diff as nat);
        if stake.pending_withdraw_shares <= stake.shares {
            lemma_div_is_ordered(
                stake.pending_withdraw_shares as int,
                stake.shares as int,
                divisor as int,
            );
        }
    }
    stake.shares = stake.shares / divisor;
    stake.pending_withdraw_shares = stake.pending_withdraw_shares / divisor;
    stake.if_base = pool.share_base;
    Ok(())
}

/// A triggered rebase divides `total_shares` and `depositor_shares` by the
/// same power-of-ten divisor `10^k`, `k >= 1` minimal with the divided
/// total within the balance, raises the base by exactly `k`, and loses at
/// most the division remainder of each count: fewer than one part in the
/// divisor.  A total the division exhausts is re-seeded 1:1 from the
/// balance.  The depositor cohort still fits inside the total afterwards.
pub proof fn lemma_rebase_same_divisor(pool: FundPool, balance: u64)
    requires
        pool.wf(),
        pool_rebase_triggers(pool, balance),
        spec_pool_after_rebase(pool, balance) is Ok,
    ensures
        ({
            let p = spec_pool_after_rebase(pool, balance)->Ok_0;
            let k = rebase_expo(pool.total_shares, balance);
            let d = rebase_divisor(pool.total_shares, balance) as int;
            let t = pool.total_shares as int;
            let u = pool.depositor_shares as int;
            &&& k >= 1
            &&& p.share_base == pool.share_base + k
            &&& p.depositor_shares == u / d
            &&& t / d <= balance
            &&& t / pow10((k - 1) as nat) as int > balance
            &&& t / d >= 1 ==> p.total_shares == t / d
            &&& t / d == 0 ==> p.total_shares == balance
            &&& d * (u / d) <= u < d * (u / d) + d
            &&& d * (t / d) <= t < d * (t / d) + d
            &&& u / d <= t / d
            &&& p.wf()
        }),
{
    let t = pool.total_shares as int;
    let u = pool.depositor_shares as int;
    let k = rebase_expo(pool.total_shares, balance);
    let d = rebase_divisor(pool.total_shares, balance) as int;
    lemma_pow10_pos(k);
    lemma_rebase_expo_minimal(pool.total_shares as nat, balance as nat);
    lemma_div_is_ordered(u, t, d);
    lemma_fundamental_div_mod(t, d);
    lemma_mod_division_less_than_divisor(t, d);
    lemma_fundamental_div_mod(u, d);
    lemma_mod_division_less_than_divisor(u, d);
}

/// One rebase is enough: applying the rebase to its own result, against the
/// same balance, gives that result back unchanged.  A triggered rebase
/// leaves the share count within the balance (or re-seeds it to the
/// balance), so the trigger cannot fire again.
pub proof fn lemma_rebase_idempotent(pool: FundPool, balance: u64)
    requires
        spec_pool_after_rebase(pool, balance) is Ok,
    ensures
        spec_pool_after_rebase(spec_pool_after_rebase(pool, balance)->Ok_0, balance)
            == spec_pool_after_rebase(pool, balance),
{
    if pool_rebase_triggers(pool, balance) {
        lemma_pow10_pos(rebase_expo(pool.total_shares, balance));
        lemma_rebase_expo_minimal(pool.total_shares as nat, balance as nat);
    }
}

} // verus!
