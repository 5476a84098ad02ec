//! Periodic settlement of trading-fee revenue into the fund.
//!
//! A capped slice of the accrued revenue-pool balance is moved into the
//! insurance vault.  Shares are minted only for the protocol cohort's cut of
//! the slice and added to `total_shares` alone; the depositor cohort's cut
//! arrives as the balance increase itself, which the already outstanding
//! `depositor_shares` are a claim on.

use vstd::prelude::*;

use crate::errors::ErrorCode;
use crate::events::RevenueSettlementEvent;
use crate::pool::FundPool;
use crate::shares::{shares_for_amount, spec_shares_for_amount};

verus! {

/// Seconds in a year, for the annualized growth ceiling.
pub const SECONDS_PER_YEAR: i64 = 31_536_000;

/// Fastest the fund may grow from revenue, per year, in basis points of its
/// current balance.
pub const MAX_REVENUE_SETTLE_APR_BPS: u64 = 1_000;

/// Basis points denominator.
pub const BPS_DENOMINATOR: u64 = 10_000;

/// Everything [`settle_revenue_to_insurance_fund`] does, as a function of
/// its inputs: the amount moved into the fund, the pool left behind and the
/// event reported, or the error refused with.
pub open spec fn spec_settle_revenue(
    spot_market_vault_amount: u64,
    depositors_claim: u64,
    revenue_pool_token_amount: u128,
    balance: u64,
    pool: FundPool,
    now: i64,
) -> Result<(u64, FundPool, RevenueSettlementEvent), ErrorCode> {
    if pool.revenue_settle_period <= 0 {
        Err(ErrorCode::InvalidState)
    } else if pool.depositor_revenue_share_bps > pool.total_revenue_share_bps {
        Err(ErrorCode::InvalidState)
    } else {
        // under high utilization the depositors' own withdrawable claims
        // take priority: when they exceed the accrued revenue, only half of
        // the revenue may move
        let unclamped = if (depositors_claim as int) > revenue_pool_token_amount {
            revenue_pool_token_amount as int / 2
        } else {
            revenue_pool_token_amount as int
        };
        if pool.depositor_shares > 0 && balance * MAX_REVENUE_SETTLE_APR_BPS > u64::MAX {
            Err(ErrorCode::MathError)
        } else if pool.depositor_shares > 0 && SECONDS_PER_YEAR / pool.revenue_settle_period
            == 0 {
            Err(ErrorCode::MathError)
        } else {
            let apr_ceiling = balance * MAX_REVENUE_SETTLE_APR_BPS / (BPS_DENOMINATOR as int) / (
            SECONDS_PER_YEAR / pool.revenue_settle_period);
            let transferable = if pool.depositor_shares > 0 && apr_ceiling < unclamped {
                apr_ceiling
            } else {
                unclamped
            };
            if transferable > u64::MAX {
                Err(ErrorCode::MathError)
            } else if transferable == 0 {
                Err(ErrorCode::InvalidState)
            } else if transferable > i64::MAX {
                Err(ErrorCode::MathError)
            } else if transferable * (pool.total_revenue_share_bps
                - pool.depositor_revenue_share_bps) > u64::MAX {
                Err(ErrorCode::MathError)
            } else if pool.total_revenue_share_bps == 0 {
                Err(ErrorCode::MathError)
            } else {
                let protocol_amount = transferable * (pool.total_revenue_share_bps
                    - pool.depositor_revenue_share_bps) / (pool.total_revenue_share_bps as int);
                if pool.total_shares != 0 && (balance == 0 || protocol_amount * pool.total_shares
                    > u128::MAX) {
                    Err(ErrorCode::MathError)
                } else {
                    let n = spec_shares_for_amount(
                        protocol_amount,
                        pool.total_shares as int,
                        balance as int,
                    );
                    if pool.total_shares + n > u128::MAX {
                        Err(ErrorCode::MathError)
                    } else {
                        let p2 = FundPool {
                            total_shares: (pool.total_shares + n) as u128,
                            last_revenue_settle_ts: now,
                            ..pool
                        };
                        let ev = RevenueSettlementEvent {
                            ts: now,
                            pool_id: pool.pool_id,
                            amount: transferable as i64,
                            depositor_revenue_share_bps: pool.depositor_revenue_share_bps,
                            total_revenue_share_bps: pool.total_revenue_share_bps,
                            vault_balance_before: spot_market_vault_amount,
                            insurance_balance_before: balance,
                            total_shares_before: pool.total_shares,
                            total_shares_after: p2.total_shares,
                        };
                        Ok((transferable as u64, p2, ev))
                    }
                }
            }
        }
    }
}

/// Settles accrued trading-fee revenue into the insurance fund and returns
/// the amount the caller must move from the revenue pool into the insurance
/// vault.
///
/// The caller supplies the collaborator-computed scalars: the validated
/// depositor claims on the asset vault and the revenue pool's token amount,
/// both with interest already accrued.  The transferable amount is the
/// revenue pool balance, cut to half when the depositor claims exceed it,
/// and — while external depositors hold shares — cut further to an
/// annualized-rate ceiling of the fund's current size.  Refused when the
/// pool's settle period or revenue split is misconfigured, or when nothing
/// is left to move.  Shares for the protocol cohort's cut are minted against
/// the current totals and added to `total_shares` only, diluting the
/// depositor cohort in the protocol's favour.
pub fn settle_revenue_to_insurance_fund(
    spot_market_vault_amount: u64,
    depositors_claim: u64,
    revenue_pool_token_amount: u128,
    insurance_vault_amount: u64,
    pool: &mut FundPool,
    now: i64,
) -> (r: Result<(u64, RevenueSettlementEvent), ErrorCode>)
    ensures
        match spec_settle_revenue(
            spot_market_vault_amount,
            depositors_claim,
            revenue_pool_token_amount,
            insurance_vault_amount,
            *old(pool),
            now,
        ) {
            Ok((amount, p2, ev)) => r is Ok && r->Ok_0 == (amount, ev) && *final(pool) == p2,
            Err(e) => r is Err && r->Err_0 == e && *final(pool) == *old(pool),
        },
        old(pool).wf() ==> final(pool).wf(),
        final(pool).share_base == old(pool).share_base,
        final(pool).depositor_shares == old(pool).depositor_shares,
        final(pool).total_shares >= old(pool).total_shares,
{
    if pool.revenue_settle_period <= 0 {
        return Err(ErrorCode::InvalidState);
    }
    if pool.depositor_revenue_share_bps > pool.total_revenue_share_bps {
        return Err(ErrorCode::InvalidState);
    }
    let mut token_amount: u128 = revenue_pool_token_amount;
    if (depositors_claim as u128) > token_amount {
        token_amount = token_amount / 2;
    }
    if pool.depositor_shares > 0 {
        let scaled = match insurance_vault_amount.checked_mul(MAX_REVENUE_SETTLE_APR_BPS) {
            Some(v) => v,
            None => {
                return Err(ErrorCode::MathError);
            },
        };
        let settles_per_year = SECONDS_PER_YEAR / pool.revenue_settle_period;
        if settles_per_year == 0 {
            return Err(ErrorCode::MathError);
        }
        let apr_ceiling = scaled / BPS_DENOMINATOR / (settles_per_year as u64);
        if (apr_ceiling as u128) < token_amount {
            token_amount = apr_ceiling as u128;
        }
    }
    if token_amount > u64::MAX as u128 {
        return Err(ErrorCode::MathError);
    }
    let transferable = token_amount as u64;
    if transferable == 0 {
        return Err(ErrorCode::InvalidState);
    }
    if transferable > i64::MAX as u64 {
        return Err(ErrorCode::MathError);
    }
    let protocol_bps = pool.total_revenue_share_bps - pool.depositor_revenue_share_bps;
    let protocol_scaled = match transferable.checked_mul(protocol_bps) {
        Some(v) => v,
        None => {
            return Err(ErrorCode::MathError);
        },
    };
    if pool.total_revenue_share_bps == 0 {
        return Err(ErrorCode::MathError);
    }
    let protocol_amount = protocol_scaled / pool.total_revenue_share_bps;
    let n_shares = match shares_for_amount(
        protocol_amount,
        pool.total_shares,
        insurance_vault_amount,
    ) {
        Ok(n) => n,
        Err(e) => {
            return Err(e);
        },
    };
    let new_total_shares = match pool.total_shares.checked_add(n_shares) {
        Some(v) => v,
        None => {
            return Err(ErrorCode::MathError);
        },
    };
    let ev = RevenueSettlementEvent {
        ts: now,
        pool_id: pool.pool_id,
        amount: transferable as i64,
        depositor_revenue_share_bps: pool.depositor_revenue_share_bps,
        total_revenue_share_bps: pool.total_revenue_share_bps,
        vault_balance_before: spot_market_vault_amount,
        insurance_balance_before: insurance_vault_amount,
        total_shares_before: pool.total_shares,
        total_shares_after: new_total_shares,
    };
    pool.total_shares = new_total_shares;
    pool.last_revenue_settle_ts = now;
    Ok((transferable, ev))
}

} // verus!
