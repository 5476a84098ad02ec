//! Flat records describing what an operation did, returned to the caller on
//! success.  The core never buffers or emits anything itself; whoever hosts
//! it decides where these records go.

use vstd::prelude::*;

verus! {

/// Which stake-lifecycle operation produced a [`StakeEvent`].
#[derive(Clone, Copy, Debug, PartialEq, Eq, Structural)]
pub enum StakeAction {
    /// Capital was deposited for shares.
    Stake,
    /// A withdrawal was requested and its value frozen.
    UnstakeRequest,
    /// A pending withdrawal request was cancelled.
    UnstakeCancelRequest,
    /// A pending withdrawal was settled and paid out.
    Unstake,
}

/// Snapshot of one stake-lifecycle operation, with the record's and the
/// pool's share counts before and after.
#[derive(Clone, Copy, Debug, PartialEq, Eq, Structural)]
pub struct StakeEvent {
    /// Logical timestamp the caller supplied.
    pub ts: i64,
    /// The depositor whose record was touched.
    pub actor: u64,
    /// Which operation ran.
    pub action: StakeAction,
    /// Tokens deposited, frozen or paid out, depending on `action`.
    pub amount: u64,
    /// The pool that was touched.
    pub pool_id: u16,
    /// The vault balance the operation was given.
    pub vault_balance_before: u64,
    /// The record's shares after normalization, before the operation.
    pub record_shares_before: u128,
    /// The record's shares after the operation.
    pub record_shares_after: u128,
    /// The pool's depositor-cohort shares before the operation.
    pub depositor_shares_before: u128,
    /// The pool's depositor-cohort shares after the operation.
    pub depositor_shares_after: u128,
    /// The pool's total shares before the operation.
    pub total_shares_before: u128,
    /// The pool's total shares after the operation.
    pub total_shares_after: u128,
}

/// Snapshot of one revenue settlement into the fund.
#[derive(Clone, Copy, Debug, PartialEq, Eq, Structural)]
pub struct RevenueSettlementEvent {
    /// Logical timestamp the caller supplied.
    pub ts: i64,
    /// The pool revenue was settled into.
    pub pool_id: u16,
    /// Tokens moved from the revenue pool into the fund.
    pub amount: i64,
    /// The pool's depositor revenue share at settlement time.
    pub depositor_revenue_share_bps: u64,
    /// The pool's total revenue share at settlement time.
    pub total_revenue_share_bps: u64,
    /// The asset vault balance the operation was given.
    pub vault_balance_before: u64,
    /// The insurance vault balance the operation was given.
    pub insurance_balance_before: u64,
    /// The pool's total shares before the protocol cohort was minted its cut.
    pub total_shares_before: u128,
    /// The pool's total shares after.
    pub total_shares_after: u128,
}

/// Snapshot of one deficit draw out of the fund.
#[derive(Clone, Copy, Debug, PartialEq, Eq, Structural)]
pub struct DeficitResolutionEvent {
    /// Logical timestamp the caller supplied.
    pub ts: i64,
    /// The pool the draw came out of.
    pub pool_id: u16,
    /// The market the draw went to.
    pub market_id: u16,
    /// The draw, negated: draws are recorded as outflows.
    pub amount: i64,
    /// The pool's depositor revenue share at draw time.
    pub depositor_revenue_share_bps: u64,
    /// The pool's total revenue share at draw time.
    pub total_revenue_share_bps: u64,
    /// The asset vault balance the operation was given.
    pub vault_balance_before: u64,
    /// The insurance vault balance the operation was given.
    pub insurance_balance_before: u64,
    /// The pool's total shares; a draw does not mint or burn shares, so the
    /// count after the draw is the same.
    pub total_shares_before: u128,
    /// The pool's total shares after the draw, equal to the count before.
    pub total_shares_after: u128,
}

} // verus!
