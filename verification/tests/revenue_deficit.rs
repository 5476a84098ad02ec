use insurance_fund::deficit::resolve_perp_pnl_deficit;
use insurance_fund::errors::ErrorCode;
use insurance_fund::pool::{FundPool, MarketDeficitState};
use insurance_fund::revenue::settle_revenue_to_insurance_fund;

fn revenue_pool(total_shares: u128, depositor_shares: u128) -> FundPool {
    FundPool {
        pool_id: 0,
        total_shares,
        depositor_shares,
        share_base: 0,
        withdraw_escrow_period: 0,
        revenue_settle_period: 3600,
        last_revenue_settle_ts: 0,
        depositor_revenue_share_bps: 8_000,
        total_revenue_share_bps: 10_000,
    }
}

fn deficit_market() -> MarketDeficitState {
    MarketDeficitState {
        market_id: 3,
        total_fee_minus_distributions: -1_000,
        unrealized_max_imbalance: 100,
        max_revenue_withdraw_per_period: 1_000,
        revenue_withdrawn_this_period: 0,
        lifetime_insurance_cap: 10_000,
        lifetime_insurance_drawn: 0,
        last_revenue_withdraw_ts: 0,
    }
}

#[test]
fn settle_revenue_requires_a_positive_period() {
    let mut pool: FundPool = revenue_pool(1_000_000, 0);
    pool.revenue_settle_period = 0;
    let r = settle_revenue_to_insurance_fund(0, 1_000_000, 100_000, 1_000_000, &mut pool, 5);
    assert_eq!(r.unwrap_err(), ErrorCode::InvalidState);
}

#[test]
fn settle_revenue_requires_a_consistent_split() {
    let mut pool: FundPool = revenue_pool(1_000_000, 0);
    pool.depositor_revenue_share_bps = 10_001;
    let r = settle_revenue_to_insurance_fund(0, 1_000_000, 100_000, 1_000_000, &mut pool, 5);
    assert_eq!(r.unwrap_err(), ErrorCode::InvalidState);
}

#[test]
fn settle_revenue_refuses_an_empty_transfer() {
    let mut pool: FundPool = revenue_pool(1_000_000, 0);
    let r = settle_revenue_to_insurance_fund(0, 1_000_000, 0, 1_000_000, &mut pool, 5);
    assert_eq!(r.unwrap_err(), ErrorCode::InvalidState);
}

#[test]
fn settle_revenue_mints_the_protocol_cut_only() {
    let mut pool: FundPool = revenue_pool(1_000_000, 0);
    let (amount, ev) =
        settle_revenue_to_insurance_fund(0, 100_000, 100_000, 1_000_000, &mut pool, 5).unwrap();
    // depositor claims do not exceed the revenue amount, so the whole
    // revenue moves; the protocol cohort's 2000 bps of it is minted as
    // shares against the current totals
    assert_eq!(amount, 100_000);
    assert_eq!(pool.total_shares, 1_000_000 + 20_000);
    assert_eq!(pool.depositor_shares, 0);
    assert_eq!(pool.last_revenue_settle_ts, 5);
    assert_eq!(ev.amount, 100_000);
    assert_eq!(ev.total_shares_before, 1_000_000);
    assert_eq!(ev.total_shares_after, 1_020_000);
}

#[test]
fn settle_revenue_halves_the_transfer_under_high_utilization() {
    let mut pool: FundPool = revenue_pool(1_000_000, 0);
    // depositor claims exceeding the revenue amount: only half of the
    // revenue may move
    let (amount, _ev) =
        settle_revenue_to_insurance_fund(0, 1_000_000, 100_000, 1_000_000, &mut pool, 5).unwrap();
    assert_eq!(amount, 50_000);
}

#[test]
fn settle_revenue_caps_growth_while_depositors_hold_shares() {
    let mut pool: FundPool = revenue_pool(1_000_000, 400_000);
    // ceiling: 1_000_000 * 1000 / 10_000 / (31_536_000 / 3600) = 11
    let (amount, _ev) =
        settle_revenue_to_insurance_fund(0, 1_000_000, 100_000, 1_000_000, &mut pool, 5).unwrap();
    assert_eq!(amount, 11);
    // the protocol's 2000 bps of 11 tokens rounds down to 2 shares
    assert_eq!(pool.total_shares, 1_000_002);
}

#[test]
fn resolve_deficit_requires_a_deficit() {
    let mut market: MarketDeficitState = deficit_market();
    market.total_fee_minus_distributions = 0;
    let pool: FundPool = revenue_pool(1_000_000, 0);
    let r = resolve_perp_pnl_deficit(0, 301, 0, 500, &pool, &mut market, 5);
    assert_eq!(r.unwrap_err(), ErrorCode::InvalidState);
}

#[test]
fn resolve_deficit_requires_a_drained_pnl_pool() {
    let mut market: MarketDeficitState = deficit_market();
    let pool: FundPool = revenue_pool(1_000_000, 0);
    let r = resolve_perp_pnl_deficit(0, 301, 7, 500, &pool, &mut market, 5);
    assert_eq!(r.unwrap_err(), ErrorCode::InvalidState);
}

#[test]
fn resolve_deficit_requires_an_imbalance_cap() {
    let mut market: MarketDeficitState = deficit_market();
    market.unrealized_max_imbalance = 0;
    let pool: FundPool = revenue_pool(1_000_000, 0);
    let r = resolve_perp_pnl_deficit(0, 301, 0, 500, &pool, &mut market, 5);
    assert_eq!(r.unwrap_err(), ErrorCode::InvalidState);
}

#[test]
fn resolve_deficit_requires_excess_imbalance() {
    let mut market: MarketDeficitState = deficit_market();
    let pool: FundPool = revenue_pool(1_000_000, 0);
    // the signal does not exceed the tolerated imbalance
    let r = resolve_perp_pnl_deficit(0, 301, 0, 100, &pool, &mut market, 5);
    assert_eq!(r.unwrap_err(), ErrorCode::InvalidState);
}

#[test]
fn resolve_deficit_respects_the_period_cap() {
    let mut market: MarketDeficitState = deficit_market();
    market.revenue_withdrawn_this_period = market.max_revenue_withdraw_per_period;
    let pool: FundPool = revenue_pool(1_000_000, 0);
    let r = resolve_perp_pnl_deficit(0, 301, 0, 500, &pool, &mut market, 5);
    assert_eq!(r.unwrap_err(), ErrorCode::InvalidState);
}

#[test]
fn resolve_deficit_respects_the_lifetime_cap() {
    let mut market: MarketDeficitState = deficit_market();
    market.lifetime_insurance_drawn = market.lifetime_insurance_cap;
    let pool: FundPool = revenue_pool(1_000_000, 0);
    let r = resolve_perp_pnl_deficit(0, 301, 0, 500, &pool, &mut market, 5);
    assert_eq!(r.unwrap_err(), ErrorCode::InvalidState);
}

#[test]
fn resolve_deficit_draws_the_smallest_cap() {
    let mut market: MarketDeficitState = deficit_market();
    let pool: FundPool = revenue_pool(1_000_000, 0);
    // excess imbalance 400, period allowance 1000, lifetime allowance
    // 10_000, balance less one 300: the balance is the binding cap
    let (draw, ev) = resolve_perp_pnl_deficit(0, 301, 0, 500, &pool, &mut market, 5).unwrap();
    assert_eq!(draw, 300);
    assert_eq!(market.total_fee_minus_distributions, -700);
    assert_eq!(market.revenue_withdrawn_this_period, 300);
    assert_eq!(market.lifetime_insurance_drawn, 300);
    assert_eq!(market.last_revenue_withdraw_ts, 5);
    assert_eq!(ev.amount, -300);
    assert_eq!(ev.total_shares_before, ev.total_shares_after);
}

#[test]
fn resolve_deficit_never_drains_the_vault() {
    let mut market: MarketDeficitState = deficit_market();
    let pool: FundPool = revenue_pool(1_000_000, 0);
    // a vault holding a single token has nothing to give
    let r = resolve_perp_pnl_deficit(0, 1, 0, 500, &pool, &mut market, 5);
    assert_eq!(r.unwrap_err(), ErrorCode::InvalidState);
    // and a draw from a larger vault always leaves at least one token
    let (draw, _ev) = resolve_perp_pnl_deficit(0, 250, 0, 500, &pool, &mut market, 5).unwrap();
    assert_eq!(draw, 249);
}
