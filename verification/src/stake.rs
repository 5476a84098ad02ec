//! The per-depositor stake lifecycle.
//!
//! A record is idle while `pending_withdraw_shares == 0`.  A withdrawal
//! request freezes a share count and the token value those shares are worth
//! at request time; after the pool's escrow period the request can be
//! settled, paying the smaller of the frozen value and the value the shares
//! have at settlement time.  The fund therefore keeps gains that accrue
//! during the escrow window, while the depositor carries losses.  Every
//! operation first rebases the pool and normalizes the record, and commits
//! either all of its effects or none.

use vstd::prelude::*;

use crate::errors::ErrorCode;
use crate::events::{StakeAction, StakeEvent};
use crate::ledger::{
    apply_rebase_to_insurance_fund, apply_rebase_to_insurance_fund_stake, spec_pool_after_rebase,
    spec_stake_after_rebase,
};
use crate::pool::{FundPool, StakeRecord};
use crate::shares::{
    amount_for_shares, shares_for_amount, spec_amount_for_shares, spec_shares_for_amount,
};

verus! {

/// Everything [`add_insurance_fund_stake`] does, as a function of its
/// inputs: the record and pool it leaves behind and the event it reports,
/// or the error it refuses with.
pub open spec fn spec_add_stake(
    amount: u64,
    balance: u64,
    stake: StakeRecord,
    pool: FundPool,
    now: i64,
) -> Result<(StakeRecord, FundPool, StakeEvent), ErrorCode> {
    if balance == 0 && pool.total_shares != 0 {
        Err(ErrorCode::InvalidState)
    } else {
        match spec_pool_after_rebase(pool, balance) {
            Err(e) => Err(e),
            Ok(p1) => match spec_stake_after_rebase(stake, p1.share_base) {
                Err(e) => Err(e),
                Ok(s1) => {
                    if p1.total_shares != 0 && (balance == 0 || amount * p1.total_shares
                        > u128::MAX) {
                        Err(ErrorCode::MathError)
                    } else {
                        let n = spec_shares_for_amount(
                            amount as int,
                            p1.total_shares as int,
                            balance as int,
                        );
                        if amount > i64::MAX {
                            Err(ErrorCode::MathError)
                        } else if s1.shares != 0 && s1.cost_basis + amount > i64::MAX {
                            Err(ErrorCode::MathError)
                        } else if s1.shares + n > u128::MAX {
                            Err(ErrorCode::MathError)
                        } else if p1.total_shares + n > u128::MAX {
                            Err(ErrorCode::MathError)
                        } else if p1.depositor_shares + n > u128::MAX {
                            Err(ErrorCode::MathError)
                        } else {
                            let s2 = StakeRecord {
                                shares: (s1.shares + n) as u128,
                                cost_basis: if s1.shares == 0 {
                                    amount as i64
                                } else {
                                    (s1.cost_basis + amount) as i64
                                },
                                ..s1
                            };
                            let p2 = FundPool {
                                total_shares: (p1.total_shares + n) as u128,
                                depositor_shares: (p1.depositor_shares + n) as u128,
                                ..p1
                            };
                            let ev = StakeEvent {
                                ts: now,
                                actor: stake.owner_id,
                                action: StakeAction::Stake,
                                amount,
                                pool_id: pool.pool_id,
                                vault_balance_before: balance,
                                record_shares_before: s1.shares,
                                record_shares_after: s2.shares,
                                depositor_shares_before: p1.depositor_shares,
                                depositor_shares_after: p2.depositor_shares,
                                total_shares_before: p1.total_shares,
                                total_shares_after: p2.total_shares,
                            };
                            Ok((s2, p2, ev))
                        }
                    }
                },
            },
        }
    }
}

/// Deposits `amount` tokens into the fund for shares.
///
/// Refused up front when the vault is empty while claims are outstanding:
/// joining such a fund would hand the newcomer's capital to the holders of
/// the worthless claims.  Otherwise the pool is rebased, the record
/// normalized, the deposit converted at the post-rebase share price
/// (rounding the share grant down, in the existing holders' favour), and the
/// grant credited to the record and to both pool share counts.  The cost
/// basis restarts at `amount` when the record held no shares.
pub fn add_insurance_fund_stake(
    amount: u64,
    insurance_vault_amount: u64,
    insurance_fund_stake: &mut StakeRecord,
    pool: &mut FundPool,
    now: i64,
) -> (r: Result<StakeEvent, ErrorCode>)
    ensures
        match spec_add_stake(
            amount,
            insurance_vault_amount,
            *old(insurance_fund_stake),
            *old(pool),
            now,
        ) {
            Ok((s2, p2, ev)) => r is Ok && r->Ok_0 == ev && *final(insurance_fund_stake) == s2
                && *final(pool) == p2,
            Err(e) => r is Err && r->Err_0 == e && *final(insurance_fund_stake) == *old(
                insurance_fund_stake,
            ) && *final(pool) == *old(pool),
        },
        old(pool).wf() ==> final(pool).wf(),
        old(insurance_fund_stake).wf() ==> final(insurance_fund_stake).wf(),
        final(pool).share_base >= old(pool).share_base,
        r is Ok ==> final(insurance_fund_stake).if_base == final(pool).share_base,
{
    if insurance_vault_amount == 0 && pool.total_shares != 0 {
        return Err(ErrorCode::InvalidState);
    }
    let mut p1 = *pool;
    let mut s1 = *insurance_fund_stake;
    match apply_rebase_to_insurance_fund(insurance_vault_amount, &mut p1) {
        Ok(()) => (),
        Err(e) => {
            return Err(e);
        },
    }
    match apply_rebase_to_insurance_fund_stake(&mut s1, &p1) {
        Ok(()) => (),
        Err(e) => {
            return Err(e);
        },
    }
    let n_shares = match shares_for_amount(amount, p1.total_shares, insurance_vault_amount) {
        Ok(n) => n,
        Err(e) => {
            return Err(e);
        },
    };
    if amount > i64::MAX as u64 {
        return Err(ErrorCode::MathError);
    }
    let new_cost_basis = if s1.shares == 0 {
        amount as i64
    } else {
        match s1.cost_basis.checked_add(amount as i64) {
            Some(c) => c,
            None => {
                return Err(ErrorCode::MathError);
            },
        }
    };
    let new_record_shares = match s1.shares.checked_add(n_shares) {
        Some(v) => v,
        None => {
            return Err(ErrorCode::MathError);
        },
    };
    let new_total_shares = match p1.total_shares.checked_add(n_shares) {
        Some(v) => v,
        None => {
            return Err(ErrorCode::MathError);
        },
    };
    let new_depositor_shares = match p1.depositor_shares.checked_add(n_shares) {
        Some(v) => v,
        None => {
            return Err(ErrorCode::MathError);
        },
    };
    let ev = StakeEvent {
        ts: now,
        actor: s1.owner_id,
        action: StakeAction::Stake,
        amount,
        pool_id: pool.pool_id,
        vault_balance_before: insurance_vault_amount,
        record_shares_before: s1.shares,
        record_shares_after: new_record_shares,
        depositor_shares_before: p1.depositor_shares,
        depositor_shares_after: new_depositor_shares,
        total_shares_before: p1.total_shares,
        total_shares_after: new_total_shares,
    };
    s1.shares = new_record_shares;
    s1.cost_basis = new_cost_basis;
    p1.total_shares = new_total_shares;
    p1.depositor_shares = new_depositor_shares;
    *insurance_fund_stake = s1;
    *pool = p1;
    Ok(ev)
}

/// Everything [`request_remove_insurance_fund_stake`] does, as a function of
/// its inputs.  The requested share count is denominated in the record's own
/// (possibly stale) base, so it is written into the record first and
/// normalized along with it.
pub open spec fn spec_request_remove_stake(
    n_shares: u128,
    balance: u64,
    stake: StakeRecord,
    pool: FundPool,
    now: i64,
) -> Result<(StakeRecord, FundPool, StakeEvent), ErrorCode> {
    match spec_pool_after_rebase(pool, balance) {
        Err(e) => Err(e),
        Ok(p1) => match spec_stake_after_rebase(
            StakeRecord { pending_withdraw_shares: n_shares, ..stake },
            p1.share_base,
        ) {
            Err(e) => Err(e),
            Ok(s1) => {
                if s1.pending_withdraw_shares > s1.shares {
                    Err(ErrorCode::InvalidState)
                } else if p1.total_shares != 0 && (s1.pending_withdraw_shares * balance
                    > u128::MAX || spec_amount_for_shares(
                    s1.pending_withdraw_shares as int,
                    p1.total_shares as int,
                    balance as int,
                ) > u64::MAX) {
                    Err(ErrorCode::MathError)
                } else {
                    let worth = spec_amount_for_shares(
                        s1.pending_withdraw_shares as int,
                        p1.total_shares as int,
                        balance as int,
                    );
                    let cap = if balance == 0 {
                        0
                    } else {
                        balance - 1
                    };
                    let value = if worth > cap {
                        cap
                    } else {
                        worth
                    };
                    let s2 = StakeRecord {
                        pending_withdraw_value: value as u64,
                        pending_withdraw_request_ts: now,
                        ..s1
                    };
                    let ev = StakeEvent {
                        ts: now,
                        actor: stake.owner_id,
                        action: StakeAction::UnstakeRequest,
                        amount: value as u64,
                        pool_id: pool.pool_id,
                        vault_balance_before: balance,
                        record_shares_before: s1.shares,
                        record_shares_after: s1.shares,
                        depositor_shares_before: p1.depositor_shares,
                        depositor_shares_after: p1.depositor_shares,
                        total_shares_before: p1.total_shares,
                        total_shares_after: p1.total_shares,
                    };
                    Ok((s2, p1, ev))
                }
            },
        },
    }
}

/// Requests the withdrawal of `n_shares` from the record.
///
/// Legal from any state: a new request overwrites a pending one rather than
/// adding to it.  `n_shares` is read in the record's own share base and
/// normalized together with the record.  Refused when the normalized request
/// exceeds the record's normalized shares.  On success the request freezes
/// `pending_withdraw_value`: what the shares are worth at the current share
/// price, capped strictly below the vault balance, so no single withdrawal
/// can drain the fund to zero.  Settlement later pays at most this value.
pub fn request_remove_insurance_fund_stake(
    n_shares: u128,
    insurance_vault_amount: u64,
    insurance_fund_stake: &mut StakeRecord,
    pool: &mut FundPool,
    now: i64,
) -> (r: Result<StakeEvent, ErrorCode>)
    ensures
        match spec_request_remove_stake(
            n_shares,
            insurance_vault_amount,
            *old(insurance_fund_stake),
            *old(pool),
            now,
        ) {
            Ok((s2, p2, ev)) => r is Ok && r->Ok_0 == ev && *final(insurance_fund_stake) == s2
                && *final(pool) == p2,
            Err(e) => r is Err && r->Err_0 == e && *final(insurance_fund_stake) == *old(
                insurance_fund_stake,
            ) && *final(pool) == *old(pool),
        },
        old(pool).wf() ==> final(pool).wf(),
        r is Ok ==> final(insurance_fund_stake).wf(),
        final(pool).share_base >= old(pool).share_base,
        r is Ok ==> final(insurance_fund_stake).if_base == final(pool).share_base,
        // no single withdrawal can drain the fund: the frozen value stays
        // strictly below the vault balance
        r is Ok && insurance_vault_amount > 0
            ==> final(insurance_fund_stake).pending_withdraw_value < insurance_vault_amount,
        r is Ok && insurance_vault_amount == 0
            ==> final(insurance_fund_stake).pending_withdraw_value == 0,
{
    let mut p1 = *pool;
    let mut s1 = *insurance_fund_stake;
    s1.pending_withdraw_shares = n_shares;
    match apply_rebase_to_insurance_fund(insurance_vault_amount, &mut p1) {
        Ok(()) => (),
        Err(e) => {
            return Err(e);
        },
    }
    match apply_rebase_to_insurance_fund_stake(&mut s1, &p1) {
        Ok(()) => (),
        Err(e) => {
            return Err(e);
        },
    }
    if s1.pending_withdraw_shares > s1.shares {
        return Err(ErrorCode::InvalidState);
    }
    let worth = match amount_for_shares(
        s1.pending_withdraw_shares,
        p1.total_shares,
        insurance_vault_amount,
    ) {
        Ok(v) => v,
        Err(e) => {
            return Err(e);
        },
    };
    let cap = if insurance_vault_amount == 0 {
        0
    } else {
        insurance_vault_amount - 1
    };
    let value = if worth > cap {
        cap
    } else {
        worth
    };
    let ev = StakeEvent {
        ts: now,
        actor: s1.owner_id,
        action: StakeAction::UnstakeRequest,
        amount: value,
        pool_id: pool.pool_id,
        vault_balance_before: insurance_vault_amount,
        record_shares_before: s1.shares,
        record_shares_after: s1.shares,
        depositor_shares_before: p1.depositor_shares,
        depositor_shares_after: p1.depositor_shares,
        total_shares_before: p1.total_shares,
        total_shares_after: p1.total_shares,
    };
    s1.pending_withdraw_value = value;
    s1.pending_withdraw_request_ts = now;
    *insurance_fund_stake = s1;
    *pool = p1;
    Ok(ev)
}

/// Everything [`calculate_if_shares_lost`] returns, as a function of a
/// normalized record and the pool.  It compares the recorded pending shares
/// against their rebase-adjusted equivalent: when the normalized pending
/// shares are worth more today than the value frozen at request time, the
/// surplus shares — those the frozen value no longer pays for — are "lost",
/// re-derived by asking what share grant the frozen value would buy from
/// the pool with the request taken out.  Cancelling consults this only
/// after a rebase has drifted the record: see
/// [`cancel_request_remove_insurance_fund_stake`].
pub open spec fn spec_shares_lost(stake: StakeRecord, pool: FundPool, balance: u64) -> Result<
    int,
    ErrorCode,
> {
    let n = stake.pending_withdraw_shares;
    if pool.total_shares != 0 && (n * balance > u128::MAX || spec_amount_for_shares(
        n as int,
        pool.total_shares as int,
        balance as int,
    ) > u64::MAX) {
        Err(ErrorCode::MathError)
    } else {
        let worth = spec_amount_for_shares(n as int, pool.total_shares as int, balance as int);
        if worth > stake.pending_withdraw_value {
            if n > pool.total_shares {
                Err(ErrorCode::MathError)
            } else if stake.pending_withdraw_value > balance {
                Err(ErrorCode::MathError)
            } else {
                let rest_shares = pool.total_shares - n;
                let rest_balance = balance - stake.pending_withdraw_value;
                if rest_shares != 0 && (rest_balance == 0 || stake.pending_withdraw_value
                    * rest_shares > u128::MAX) {
                    Err(ErrorCode::MathError)
                } else {
                    let new_n = spec_shares_for_amount(
                        stake.pending_withdraw_value as int,
                        rest_shares,
                        rest_balance,
                    );
                    if new_n > n {
                        Err(ErrorCode::InvalidState)
                    } else {
                        Ok(n - new_n)
                    }
                }
            }
        } else {
            Ok(0)
        }
    }
}

/// Shares of a pending withdrawal request that its frozen token value no
/// longer accounts for: the rebase-truncated remainder a cancellation
/// forfeits.  Zero while the shares are worth no more than the frozen
/// value.
pub fn calculate_if_shares_lost(
    insurance_fund_stake: &StakeRecord,
    pool: &FundPool,
    insurance_vault_amount: u64,
) -> (r: Result<u128, ErrorCode>)
    ensures
        match spec_shares_lost(*insurance_fund_stake, *pool, insurance_vault_amount) {
            Ok(lost) => r is Ok && r->Ok_0 == lost && lost
                <= insurance_fund_stake.pending_withdraw_shares,
            Err(e) => r is Err && r->Err_0 == e,
        },
{
    let n = insurance_fund_stake.pending_withdraw_shares;
    let worth = match amount_for_shares(n, pool.total_shares, insurance_vault_amount) {
        Ok(v) => v,
        Err(e) => {
            return Err(e);
        },
    };
    if worth > insurance_fund_stake.pending_withdraw_value {
        if n > pool.total_shares {
            return Err(ErrorCode::MathError);
        }
        if insurance_fund_stake.pending_withdraw_value > insurance_vault_amount {
            return Err(ErrorCode::MathError);
        }
        let rest_shares = pool.total_shares - n;
        let rest_balance = insurance_vault_amount - insurance_fund_stake.pending_withdraw_value;
        let new_n = match shares_for_amount(
            insurance_fund_stake.pending_withdraw_value,
            rest_shares,
            rest_balance,
        ) {
            Ok(v) => v,
            Err(e) => {
                return Err(e);
            },
        };
        if new_n > n {
            return Err(ErrorCode::InvalidState);
        }
        Ok(n - new_n)
    } else {
        Ok(0)
    }
}

/// Everything [`cancel_request_remove_insurance_fund_stake`] does, as a
/// function of its inputs.  Shares are forfeited only when a rebase has
/// drifted the record since the request was made: without one, nothing is
/// lost and nothing burns.
pub open spec fn spec_cancel_request_remove_stake(
    balance: u64,
    stake: StakeRecord,
    pool: FundPool,
    now: i64,
) -> Result<(StakeRecord, FundPool, StakeEvent), ErrorCode> {
    match spec_pool_after_rebase(pool, balance) {
        Err(e) => Err(e),
        Ok(p1) => match spec_stake_after_rebase(stake, p1.share_base) {
            Err(e) => Err(e),
            Ok(s1) => {
                if s1.pending_withdraw_shares == 0 {
                    Err(ErrorCode::InvalidState)
                } else {
                    match if stake.if_base == p1.share_base {
                        Ok::<int, ErrorCode>(0)
                    } else {
                        spec_shares_lost(s1, p1, balance)
                    } {
                        Err(e) => Err(e),
                        Ok(lost) => {
                            if lost > s1.shares || lost > p1.total_shares || lost
                                > p1.depositor_shares {
                                Err(ErrorCode::MathError)
                            } else {
                                let s2 = StakeRecord {
                                    shares: (s1.shares - lost) as u128,
                                    pending_withdraw_shares: 0u128,
                                    pending_withdraw_value: 0u64,
                                    pending_withdraw_request_ts: now,
                                    ..s1
                                };
                                let p2 = FundPool {
                                    total_shares: (p1.total_shares - lost) as u128,
                                    depositor_shares: (p1.depositor_shares - lost) as u128,
                                    ..p1
                                };
                                let ev = StakeEvent {
                                    ts: now,
                                    actor: stake.owner_id,
                                    action: StakeAction::UnstakeCancelRequest,
                                    amount: 0u64,
                                    pool_id: pool.pool_id,
                                    vault_balance_before: balance,
                                    record_shares_before: s1.shares,
                                    record_shares_after: s2.shares,
                                    depositor_shares_before: p1.depositor_shares,
                                    depositor_shares_after: p2.depositor_shares,
                                    total_shares_before: p1.total_shares,
                                    total_shares_after: p2.total_shares,
                                };
                                Ok((s2, p2, ev))
                            }
                        },
                    }
                }
            },
        },
    }
}

/// Cancels the pending withdrawal request.
///
/// Refused when no request is pending.  When no rebase has drifted the
/// record since the request was made, cancelling restores the idle state
/// untouched: the pending fields are cleared, the timestamp stamped, and no
/// share moves.  After a rebase, the request's rebase-truncated remainder —
/// the part of the frozen share count that the frozen value no longer pays
/// for — is burned from the record and from both pool share counts rather
/// than silently restored.
pub fn cancel_request_remove_insurance_fund_stake(
    insurance_vault_amount: u64,
    insurance_fund_stake: &mut StakeRecord,
    pool: &mut FundPool,
    now: i64,
) -> (r: Result<StakeEvent, ErrorCode>)
    ensures
        match spec_cancel_request_remove_stake(
            insurance_vault_amount,
            *old(insurance_fund_stake),
            *old(pool),
            now,
        ) {
            Ok((s2, p2, ev)) => r is Ok && r->Ok_0 == ev && *final(insurance_fund_stake) == s2
                && *final(pool) == p2,
            Err(e) => r is Err && r->Err_0 == e && *final(insurance_fund_stake) == *old(
                insurance_fund_stake,
            ) && *final(pool) == *old(pool),
        },
        old(pool).wf() ==> final(pool).wf(),
        old(insurance_fund_stake).wf() ==> final(insurance_fund_stake).wf(),
        final(pool).share_base >= old(pool).share_base,
        r is Ok ==> final(insurance_fund_stake).if_base == final(pool).share_base,
        // without rebase drift a cancellation burns nothing
        (r is Ok && final(pool).share_base == old(pool).share_base && old(
            insurance_fund_stake,
        ).if_base == old(pool).share_base && old(pool).total_shares != 0) ==> ({
            &&& final(insurance_fund_stake).shares == old(insurance_fund_stake).shares
            &&& final(pool).total_shares == old(pool).total_shares
            &&& final(pool).depositor_shares == old(pool).depositor_shares
        }),
{
    let mut p1 = *pool;
    let mut s1 = *insurance_fund_stake;
    match apply_rebase_to_insurance_fund(insurance_vault_amount, &mut p1) {
        Ok(()) => (),
        Err(e) => {
            return Err(e);
        },
    }
    let drifted = s1.if_base != p1.share_base;
    match apply_rebase_to_insurance_fund_stake(&mut s1, &p1) {
        Ok(()) => (),
        Err(e) => {
            return Err(e);
        },
    }
    if s1.pending_withdraw_shares == 0 {
        return Err(ErrorCode::InvalidState);
    }
    let shares_lost = if drifted {
        match calculate_if_shares_lost(&s1, &p1, insurance_vault_amount) {
            Ok(v) => v,
            Err(e) => {
                return Err(e);
            },
        }
    } else {
        0
    };
    if shares_lost > s1.shares || shares_lost > p1.total_shares || shares_lost
        > p1.depositor_shares {
        return Err(ErrorCode::MathError);
    }
    let ev = StakeEvent {
        ts: now,
        actor: s1.owner_id,
        action: StakeAction::UnstakeCancelRequest,
        amount: 0,
        pool_id: pool.pool_id,
        vault_balance_before: insurance_vault_amount,
        record_shares_before: s1.shares,
        record_shares_after: s1.shares - shares_lost,
        depositor_shares_before: p1.depositor_shares,
        depositor_shares_after: p1.depositor_shares - shares_lost,
        total_shares_before: p1.total_shares,
        total_shares_after: p1.total_shares - shares_lost,
    };
    s1.shares = s1.shares - shares_lost;
    s1.pending_withdraw_shares = 0;
    s1.pending_withdraw_value = 0;
    s1.pending_withdraw_request_ts = now;
    p1.total_shares = p1.total_shares - shares_lost;
    p1.depositor_shares = p1.depositor_shares - shares_lost;
    *insurance_fund_stake = s1;
    *pool = p1;
    Ok(ev)
}

/// Everything [`remove_insurance_fund_stake`] does, as a function of its
/// inputs: the withdrawn amount, the record and pool left behind and the
/// event reported, or the error refused with.
pub open spec fn spec_remove_stake(balance: u64, stake: StakeRecord, pool: FundPool, now: i64)
    -> Result<(u64, StakeRecord, FundPool, StakeEvent), ErrorCode> {
    if now - stake.pending_withdraw_request_ts > i64::MAX || now - stake.pending_withdraw_request_ts
        < i64::MIN {
        Err(ErrorCode::MathError)
    } else if now - stake.pending_withdraw_request_ts < pool.withdraw_escrow_period {
        Err(ErrorCode::EscrowNotElapsed)
    } else {
        match spec_pool_after_rebase(pool, balance) {
            Err(e) => Err(e),
            Ok(p1) => match spec_stake_after_rebase(stake, p1.share_base) {
                Err(e) => Err(e),
                Ok(s1) => {
                    let n = s1.pending_withdraw_shares;
                    if n == 0 {
                        Err(ErrorCode::InvalidState)
                    } else if s1.shares < n {
                        Err(ErrorCode::InsufficientShares)
                    } else if p1.total_shares != 0 && (n * balance > u128::MAX
                        || spec_amount_for_shares(
                        n as int,
                        p1.total_shares as int,
                        balance as int,
                    ) > u64::MAX) {
                        Err(ErrorCode::MathError)
                    } else {
                        let worth = spec_amount_for_shares(
                            n as int,
                            p1.total_shares as int,
                            balance as int,
                        );
                        let withdraw = if worth < s1.pending_withdraw_value {
                            worth
                        } else {
                            s1.pending_withdraw_value as int
                        };
                        if s1.cost_basis - withdraw < i64::MIN {
                            Err(ErrorCode::MathError)
                        } else if n > p1.total_shares || n > p1.depositor_shares {
                            Err(ErrorCode::MathError)
                        } else {
                            let s2 = StakeRecord {
                                shares: (s1.shares - n) as u128,
                                cost_basis: (s1.cost_basis - withdraw) as i64,
                                pending_withdraw_shares: 0u128,
                                pending_withdraw_value: 0u64,
                                pending_withdraw_request_ts: now,
                                ..s1
                            };
                            let p2 = FundPool {
                                total_shares: (p1.total_shares - n) as u128,
                                depositor_shares: (p1.depositor_shares - n) as u128,
                                ..p1
                            };
                            let ev = StakeEvent {
                                ts: now,
                                actor: stake.owner_id,
                                action: StakeAction::Unstake,
                                amount: withdraw as u64,
                                pool_id: pool.pool_id,
                                vault_balance_before: balance,
                                record_shares_before: s1.shares,
                                record_shares_after: s2.shares,
                                depositor_shares_before: p1.depositor_shares,
                                depositor_shares_after: p2.depositor_shares,
                                total_shares_before: p1.total_shares,
                                total_shares_after: p2.total_shares,
                            };
                            Ok((withdraw as u64, s2, p2, ev))
                        }
                    }
                },
            },
        }
    }
}

/// Settles the pending withdrawal request and returns the amount paid out.
///
/// Refused with [`ErrorCode::EscrowNotElapsed`] strictly before
/// `request_ts + escrow_period`; exactly at the boundary the escrow gate
/// passes.  The payout is the smaller of what the frozen shares are worth at
/// settlement time and the value frozen at request time: losses accrued
/// since the request fall on the depositor, gains stay with the pool.  The
/// frozen shares are burned from the record and from both pool share counts,
/// the cost basis is debited by the payout, and the pending fields are
/// cleared.
pub fn remove_insurance_fund_stake(
    insurance_vault_amount: u64,
    insurance_fund_stake: &mut StakeRecord,
    pool: &mut FundPool,
    now: i64,
) -> (r: Result<(u64, StakeEvent), ErrorCode>)
    ensures
        match spec_remove_stake(
            insurance_vault_amount,
            *old(insurance_fund_stake),
            *old(pool),
            now,
        ) {
            Ok((paid, s2, p2, ev)) => r is Ok && r->Ok_0 == (paid, ev)
                && *final(insurance_fund_stake) == s2 && *final(pool) == p2,
            Err(e) => r is Err && r->Err_0 == e && *final(insurance_fund_stake) == *old(
                insurance_fund_stake,
            ) && *final(pool) == *old(pool),
        },
        ({
            let waited = now - old(insurance_fund_stake).pending_withdraw_request_ts;
            (r is Err && r->Err_0 == ErrorCode::EscrowNotElapsed) <==> (i64::MIN <= waited
                <= i64::MAX && waited < old(pool).withdraw_escrow_period)
        }),
        // a withdrawal is never settled before the escrow period has
        // elapsed, whether or not the elapsed time fits the machine type
        now - old(insurance_fund_stake).pending_withdraw_request_ts < old(
            pool,
        ).withdraw_escrow_period ==> r is Err,
        old(pool).wf() ==> final(pool).wf(),
        old(insurance_fund_stake).wf() ==> final(insurance_fund_stake).wf(),
        final(pool).share_base >= old(pool).share_base,
        r is Ok ==> final(insurance_fund_stake).if_base == final(pool).share_base,
        // settlement pays out at most the value frozen at request time
        r is Ok ==> r->Ok_0.0 <= old(insurance_fund_stake).pending_withdraw_value,
{
    let time_since_request = match now.checked_sub(
        insurance_fund_stake.pending_withdraw_request_ts,
    ) {
        Some(t) => t,
        None => {
            return Err(ErrorCode::MathError);
        },
    };
    if time_since_request < pool.withdraw_escrow_period {
        return Err(ErrorCode::EscrowNotElapsed);
    }
    let mut p1 = *pool;
    let mut s1 = *insurance_fund_stake;
    match apply_rebase_to_insurance_fund(insurance_vault_amount, &mut p1) {
        Ok(()) => (),
        Err(e) => {
            return Err(e);
        },
    }
    match apply_rebase_to_insurance_fund_stake(&mut s1, &p1) {
        Ok(()) => (),
        Err(e) => {
            return Err(e);
        },
    }
    let n_shares = s1.pending_withdraw_shares;
    if n_shares == 0 {
        return Err(ErrorCode::InvalidState);
    }
    if s1.shares < n_shares {
        return Err(ErrorCode::InsufficientShares);
    }
    let worth = match amount_for_shares(n_shares, p1.total_shares, insurance_vault_amount) {
        Ok(v) => v,
        Err(e) => {
            return Err(e);
        },
    };
    let withdraw_amount = if worth < s1.pending_withdraw_value {
        worth
    } else {
        s1.pending_withdraw_value
    };
    let new_cost_basis = match s1.cost_basis.checked_sub_unsigned(withdraw_amount) {
        Some(c) => c,
        None => {
            return Err(ErrorCode::MathError);
        },
    };
    if n_shares > p1.total_shares || n_shares > p1.depositor_shares {
        return Err(ErrorCode::MathError);
    }
    let ev = StakeEvent {
        ts: now,
        actor: s1.owner_id,
        action: StakeAction::Unstake,
        amount: withdraw_amount,
        pool_id: pool.pool_id,
        vault_balance_before: insurance_vault_amount,
        record_shares_before: s1.shares,
        record_shares_after: s1.shares - n_shares,
        depositor_shares_before: p1.depositor_shares,
        depositor_shares_after: p1.depositor_shares - n_shares,
        total_shares_before: p1.total_shares,
        total_shares_after: p1.total_shares - n_shares,
    };
    s1.shares = s1.shares - n_shares;
    s1.cost_basis = new_cost_basis;
    s1.pending_withdraw_shares = 0;
    s1.pending_withdraw_value = 0;
    s1.pending_withdraw_request_ts = now;
    p1.total_shares = p1.total_shares - n_shares;
    p1.depositor_shares = p1.depositor_shares - n_shares;
    *insurance_fund_stake = s1;
    *pool = p1;
    Ok((withdraw_amount, ev))
}

} // verus!
