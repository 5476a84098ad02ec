//! The ledger's records: one pool per tradable asset, one stake record per
//! depositor per pool, and the per-market deficit bookkeeping.

use vstd::prelude::*;

use crate::errors::ErrorCode;

verus! {

/// The insurance fund of one tradable asset.
///
/// All share quantities are mantissas relative to `share_base`: every time
/// the pool is rebased, outstanding share counts are divided by a power of
/// ten and `share_base` grows by the exponent.  A [`StakeRecord`] whose
/// `if_base` lags behind `share_base` holds a stale mantissa and must be
/// normalized before it is read or changed.
#[derive(Clone, Copy, Debug, PartialEq, Eq, Structural)]
pub struct FundPool {
    /// Identifies the pool in emitted events.
    pub pool_id: u16,
    /// All outstanding claims on the pool's backing balance.
    pub total_shares: u128,
    /// The subset of `total_shares` owned by external depositors; the rest
    /// belongs to the protocol cohort.
    pub depositor_shares: u128,
    /// Decimal-exponent counter of the share unit; grows monotonically.
    pub share_base: u128,
    /// Seconds a withdrawal request must wait before it can be settled.
    pub withdraw_escrow_period: i64,
    /// Seconds between revenue settlements.
    pub revenue_settle_period: i64,
    /// When revenue was last settled into the fund.
    pub last_revenue_settle_ts: i64,
    /// Portion of settled revenue attributable to external depositors, in
    /// basis points of `total_revenue_share_bps`.
    pub depositor_revenue_share_bps: u64,
    /// Portion of settled revenue routed to the fund, in basis points.
    pub total_revenue_share_bps: u64,
}

impl FundPool {
    /// The depositor cohort can never claim more than the whole pool.
    pub open spec fn wf(self) -> bool {
        self.depositor_shares <= self.total_shares
    }
}

/// One depositor's claim on a [`FundPool`].
///
/// Created on first deposit and never deleted, only zeroed.  `shares` and
/// `pending_withdraw_shares` are mantissas relative to `if_base`; they are
/// valid against the pool only when `if_base == pool.share_base`.
#[derive(Clone, Copy, Debug, PartialEq, Eq, Structural)]
pub struct StakeRecord {
    /// The depositor this record belongs to.
    pub owner_id: u64,
    /// The pool this record stakes into.
    pub pool_id: u16,
    /// The depositor's share count, relative to `if_base`.
    pub shares: u128,
    /// The pool's `share_base` at the time this record was last normalized.
    pub if_base: u128,
    /// Signed net capital contributed, kept for reporting only.
    pub cost_basis: i64,
    /// Shares frozen by a pending withdrawal request; zero when idle.
    pub pending_withdraw_shares: u128,
    /// Token value frozen at request time; settlement pays at most this.
    pub pending_withdraw_value: u64,
    /// When the pending request was made; reused as a last-activity marker.
    pub pending_withdraw_request_ts: i64,
}

impl StakeRecord {
    /// A request never freezes more shares than the record holds.
    pub open spec fn wf(self) -> bool {
        self.pending_withdraw_shares <= self.shares
    }

    /// A fresh record with no shares and no pending request, normalized to
    /// the base-zero share unit.
    pub fn new(owner_id: u64, pool_id: u16, now: i64) -> (r: StakeRecord)
        ensures
            r == (StakeRecord {
                owner_id,
                pool_id,
                shares: 0u128,
                if_base: 0u128,
                cost_basis: 0i64,
                pending_withdraw_shares: 0u128,
                pending_withdraw_value: 0u64,
                pending_withdraw_request_ts: now,
            }),
    {
        StakeRecord {
            owner_id,
            pool_id,
            shares: 0,
            if_base: 0,
            cost_basis: 0,
            pending_withdraw_shares: 0,
            pending_withdraw_value: 0,
            pending_withdraw_request_ts: now,
        }
    }

    /// The raw share mantissa, without checking that it is current.
    pub fn unchecked_if_shares(&self) -> (r: u128)
        ensures
            r == self.shares,
    {
        self.shares
    }

    /// The share count, refused when the record is stale against the pool.
    pub fn checked_if_shares(&self, pool: &FundPool) -> (r: Result<u128, ErrorCode>)
        ensures
            r is Ok <==> self.if_base == pool.share_base,
            r is Ok ==> r->Ok_0 == self.shares,
            r is Err ==> r->Err_0 == ErrorCode::InvalidState,
    {
        if self.if_base == pool.share_base {
            Ok(self.shares)
        } else {
            Err(ErrorCode::InvalidState)
        }
    }

    /// Overwrites the share count; refused when the record is stale against
    /// the pool, since a stale mantissa must be normalized first.
    pub fn update_if_shares(&mut self, shares: u128, pool: &FundPool) -> (r: Result<
        (),
        ErrorCode,
    >)
        ensures
            r is Ok <==> old(self).if_base == pool.share_base,
            r is Ok ==> *final(self) == (StakeRecord { shares, ..*old(self) }),
            r is Err ==> *final(self) == *old(self) && r->Err_0 == ErrorCode::InvalidState,
    {
        if self.if_base == pool.share_base {
            self.shares = shares;
            Ok(())
        } else {
            Err(ErrorCode::InvalidState)
        }
    }
}

/// Running deficit totals of one trading market, drawn on by the deficit
/// resolver and bounded by a per-period and a lifetime cap.
#[derive(Clone, Copy, Debug, PartialEq, Eq, Structural)]
pub struct MarketDeficitState {
    /// Identifies the market in emitted events.
    pub market_id: u16,
    /// The market's running fee-minus-distribution total; a deficit exists
    /// while it is negative.
    pub total_fee_minus_distributions: i128,
    /// Unrealized-pnl imbalance the market tolerates before the fund is
    /// drawn on; a zero cap disables deficit draws entirely.
    pub unrealized_max_imbalance: u64,
    /// Most the fund may hand this market per revenue-settle period.
    pub max_revenue_withdraw_per_period: u64,
    /// What has been drawn in the current period.
    pub revenue_withdrawn_this_period: u64,
    /// Most the fund may ever hand this market.
    pub lifetime_insurance_cap: u64,
    /// What has been drawn over the market's lifetime.
    pub lifetime_insurance_drawn: u64,
    /// When the fund was last drawn on for this market.
    pub last_revenue_withdraw_ts: i64,
}

impl MarketDeficitState {
    /// The lifetime counter never exceeds its cap.
    pub open spec fn wf(self) -> bool {
        self.lifetime_insurance_drawn <= self.lifetime_insurance_cap
    }
}

} // verus!
