//! Draws from the fund to cover a trading market's realized pnl deficit.
//!
//! A draw moves tokens from the insurance vault into the market's pnl
//! buffer; it mints and burns no shares, so every outstanding claim is
//! diluted alike.  Four independent caps bound the draw, and a market may
//! only be covered once its own pnl pool is fully drained.

use vstd::prelude::*;

use crate::errors::ErrorCode;
use crate::events::DeficitResolutionEvent;
use crate::pool::{FundPool, MarketDeficitState};

verus! {

/// Everything [`resolve_perp_pnl_deficit`] does, as a function of its
/// inputs: the draw, the market state left behind and the event reported,
/// or the error refused with.
pub open spec fn spec_resolve_deficit(
    bank_vault_amount: u64,
    balance: u64,
    pnl_pool_token_amount: u128,
    net_unsettled_pnl: i128,
    pool: FundPool,
    market: MarketDeficitState,
    now: i64,
) -> Result<(u64, MarketDeficitState, DeficitResolutionEvent), ErrorCode> {
    if market.total_fee_minus_distributions >= 0 {
        Err(ErrorCode::InvalidState)
    } else if pnl_pool_token_amount != 0 {
        Err(ErrorCode::InvalidState)
    } else if market.unrealized_max_imbalance > 0 && net_unsettled_pnl
        - market.unrealized_max_imbalance < i128::MIN {
        Err(ErrorCode::MathError)
    } else {
        let excess_imbalance = if market.unrealized_max_imbalance > 0 {
            net_unsettled_pnl - market.unrealized_max_imbalance
        } else {
            0
        };
        if excess_imbalance <= 0 {
            Err(ErrorCode::InvalidState)
        } else if market.revenue_withdrawn_this_period > market.max_revenue_withdraw_per_period {
            Err(ErrorCode::MathError)
        } else {
            let period_allowance = market.max_revenue_withdraw_per_period
                - market.revenue_withdrawn_this_period;
            if period_allowance <= 0 {
                Err(ErrorCode::InvalidState)
            } else if market.lifetime_insurance_drawn > market.lifetime_insurance_cap {
                Err(ErrorCode::MathError)
            } else {
                let lifetime_allowance = market.lifetime_insurance_cap
                    - market.lifetime_insurance_drawn;
                if lifetime_allowance <= 0 {
                    Err(ErrorCode::InvalidState)
                } else {
                    let available = if balance == 0 {
                        0
                    } else {
                        balance - 1
                    };
                    let draw = min4(
                        excess_imbalance,
                        period_allowance as int,
                        lifetime_allowance as int,
                        available,
                    );
                    if draw <= 0 {
                        Err(ErrorCode::InvalidState)
                    } else if draw > i64::MAX {
                        Err(ErrorCode::MathError)
                    } else {
                        let m2 = MarketDeficitState {
                            total_fee_minus_distributions: (market.total_fee_minus_distributions
                                + draw) as i128,
                            revenue_withdrawn_this_period: (market.revenue_withdrawn_this_period
                                + draw) as u64,
                            lifetime_insurance_drawn: (market.lifetime_insurance_drawn
                                + draw) as u64,
                            last_revenue_withdraw_ts: now,
                            ..market
                        };
                        let ev = DeficitResolutionEvent {
                            ts: now,
                            pool_id: pool.pool_id,
                            market_id: market.market_id,
                            amount: (-draw) as i64,
                            depositor_revenue_share_bps: pool.depositor_revenue_share_bps,
                            total_revenue_share_bps: pool.total_revenue_share_bps,
                            vault_balance_before: bank_vault_amount,
                            insurance_balance_before: balance,
                            total_shares_before: pool.total_shares,
                            total_shares_after: pool.total_shares,
                        };
                        Ok((draw as u64, m2, ev))
                    }
                }
            }
        }
    }
}

/// The smallest of four quantities.
pub open spec fn min4(a: int, b: int, c: int, d: int) -> int {
    let x = if a < b {
        a
    } else {
        b
    };
    let y = if x < c {
        x
    } else {
        c
    };
    if y < d {
        y
    } else {
        d
    }
}

/// Draws from the insurance fund to cover the market's pnl deficit and
/// returns the amount the caller must move from the insurance vault into
/// the market's pnl buffer.
///
/// The caller supplies the collaborator-computed scalars: the market's pnl
/// pool token amount (which must already be fully drained) and the net
/// unsettled pnl signal from the pricing component, both with interest
/// already accrued.  Refused unless the market's fee-minus-distribution
/// total is negative, the imbalance exceeds the configured tolerance, and
/// each cap leaves room.  The draw is the smallest of the excess imbalance,
/// the remaining per-period allowance, the remaining lifetime allowance and
/// the vault balance less one token; it is added to the market's running
/// totals and the pool's share counts stay untouched.
pub fn resolve_perp_pnl_deficit(
    bank_vault_amount: u64,
    insurance_vault_amount: u64,
    pnl_pool_token_amount: u128,
    net_unsettled_pnl: i128,
    pool: &FundPool,
    market: &mut MarketDeficitState,
    now: i64,
) -> (r: Result<(u64, DeficitResolutionEvent), ErrorCode>)
    ensures
        match spec_resolve_deficit(
            bank_vault_amount,
            insurance_vault_amount,
            pnl_pool_token_amount,
            net_unsettled_pnl,
            *pool,
            *old(market),
            now,
        ) {
            Ok((draw, m2, ev)) => r is Ok && r->Ok_0 == (draw, ev) && *final(market) == m2,
            Err(e) => r is Err && r->Err_0 == e && *final(market) == *old(market),
        },
        r is Ok ==> final(market).wf(),
        r is Ok ==> 0 < r->Ok_0.0 < insurance_vault_amount,
{
    if market.total_fee_minus_distributions >= 0 {
        return Err(ErrorCode::InvalidState);
    }
    if pnl_pool_token_amount != 0 {
        return Err(ErrorCode::InvalidState);
    }
    let excess_imbalance: i128 = if market.unrealized_max_imbalance > 0 {
        match net_unsettled_pnl.checked_sub(market.unrealized_max_imbalance as i128) {
            Some(v) => v,
            None => {
                return Err(ErrorCode::MathError);
            },
        }
    } else {
        0
    };
    if excess_imbalance <= 0 {
        return Err(ErrorCode::InvalidState);
    }
    let period_allowance = match market.max_revenue_withdraw_per_period.checked_sub(
        market.revenue_withdrawn_this_period,
    ) {
        Some(v) => v,
        None => {
            return Err(ErrorCode::MathError);
        },
    };
    if period_allowance == 0 {
        return Err(ErrorCode::InvalidState);
    }
    let lifetime_allowance = match market.lifetime_insurance_cap.checked_sub(
        market.lifetime_insurance_drawn,
    ) {
        Some(v) => v,
        None => {
            return Err(ErrorCode::MathError);
        },
    };
    if lifetime_allowance == 0 {
        return Err(ErrorCode::InvalidState);
    }
    let available: u64 = if insurance_vault_amount == 0 {
        0
    } else {
        insurance_vault_amount - 1
    };
    let mut draw: i128 = excess_imbalance;
    if (period_allowance as i128) < draw {
        draw = period_allowance as i128;
    }
    if (lifetime_allowance as i128) < draw {
        draw = lifetime_allowance as i128;
    }
    if (available as i128) < draw {
        draw = available as i128;
    }
    if draw <= 0 {
        return Err(ErrorCode::InvalidState);
    }
    if draw > i64::MAX as i128 {
        return Err(ErrorCode::MathError);
    }
    let draw_u64 = draw as u64;
    let ev = DeficitResolutionEvent {
        ts: now,
        pool_id: pool.pool_id,
        market_id: market.market_id,
        amount: -(draw as i64),
        depositor_revenue_share_bps: pool.depositor_revenue_share_bps,
        total_revenue_share_bps: pool.total_revenue_share_bps,
        vault_balance_before: bank_vault_amount,
        insurance_balance_before: insurance_vault_amount,
        total_shares_before: pool.total_shares,
        total_shares_after: pool.total_shares,
    };
    market.total_fee_minus_distributions = market.total_fee_minus_distributions + (draw as i128);
    market.revenue_withdrawn_this_period = market.revenue_withdrawn_this_period + draw_u64;
    market.lifetime_insurance_drawn = market.lifetime_insurance_drawn + draw_u64;
    market.last_revenue_withdraw_ts = now;
    Ok((draw_u64, ev))
}

} // verus!
