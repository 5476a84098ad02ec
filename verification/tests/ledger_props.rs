use insurance_fund::errors::ErrorCode;
use insurance_fund::ledger::{apply_rebase_to_insurance_fund, apply_rebase_to_insurance_fund_stake};
use insurance_fund::pool::{FundPool, StakeRecord};
use insurance_fund::shares::{amount_for_shares, pow10_checked, shares_for_amount};
use insurance_fund::stake::{
    add_insurance_fund_stake, calculate_if_shares_lost, cancel_request_remove_insurance_fund_stake,
    remove_insurance_fund_stake, request_remove_insurance_fund_stake,
};

fn empty_pool(escrow_period: i64) -> FundPool {
    FundPool {
        pool_id: 0,
        total_shares: 0,
        depositor_shares: 0,
        share_base: 0,
        withdraw_escrow_period: escrow_period,
        revenue_settle_period: 0,
        last_revenue_settle_ts: 0,
        depositor_revenue_share_bps: 0,
        total_revenue_share_bps: 0,
    }
}

#[test]
fn conversion_exact_values() {
    // proportional grant, rounded down
    assert_eq!(shares_for_amount(10, 100, 50), Ok(20));
    assert_eq!(shares_for_amount(7, 3, 9), Ok(2));
    // 1:1 seeding when no claims are outstanding
    assert_eq!(shares_for_amount(1234, 0, 0), Ok(1234));
    assert_eq!(shares_for_amount(1234, 0, 99), Ok(1234));
    // proportional payout, rounded down
    assert_eq!(amount_for_shares(20, 100, 50), Ok(10));
    assert_eq!(amount_for_shares(2, 3, 9), Ok(6));
    assert_eq!(amount_for_shares(7, 0, 50), Ok(0));
    // zero balance backing nonzero claims is an arithmetic fault
    assert_eq!(shares_for_amount(5, 10, 0), Err(ErrorCode::MathError));
    // products that do not fit 128 bits are refused
    assert_eq!(
        amount_for_shares(u128::MAX, u128::MAX, 2),
        Err(ErrorCode::MathError)
    );
    assert_eq!(
        shares_for_amount(u64::MAX, u128::MAX, u64::MAX),
        Err(ErrorCode::MathError)
    );
}

#[test]
fn seed_deposit_grants_shares_one_to_one() {
    let mut pool: FundPool = empty_pool(0);
    let mut stake: StakeRecord = StakeRecord::new(0, 0, 0);
    // stake $1 into an empty fund with zero balance and zero claims
    add_insurance_fund_stake(1_000_000, 0, &mut stake, &mut pool, 0).unwrap();
    assert_eq!(stake.unchecked_if_shares(), 1_000_000);
    assert_eq!(pool.total_shares, 1_000_000);
    assert_eq!(pool.depositor_shares, 1_000_000);
    // a second depositor joining before any balance change must fail
    let mut second: StakeRecord = StakeRecord::new(1, 0, 0);
    let r = add_insurance_fund_stake(1_000_000, 0, &mut second, &mut pool, 0);
    assert_eq!(r.unwrap_err(), ErrorCode::InvalidState);
    assert_eq!(second.unchecked_if_shares(), 0);
    assert_eq!(pool.total_shares, 1_000_000);
}

#[test]
fn conversion_round_trip_never_gains() {
    // granting shares and paying them straight back out never exceeds the deposit
    let cases: [(u64, u128, u64); 6] = [
        (10, 100, 50),
        (7, 3, 9),
        (1_000_000, 1_000_000, 1_052_631),
        (52_631, 999_983, 31_578_947),
        (1, 7, 13),
        (999_999_999, 123_456_789, 987_654_321),
    ];
    for (amount, total, balance) in cases {
        let granted: u128 = shares_for_amount(amount, total, balance).unwrap();
        let back: u64 = amount_for_shares(granted, total, balance).unwrap();
        assert!(back <= amount);
    }
}

#[test]
fn pow10_checked_bounds() {
    assert_eq!(pow10_checked(0), Ok(1));
    assert_eq!(pow10_checked(3), Ok(1000));
    assert_eq!(pow10_checked(38), Ok(100_000_000_000_000_000_000_000_000_000_000_000_000));
    assert_eq!(pow10_checked(39), Err(ErrorCode::MathError));
}

#[test]
fn rebase_divides_both_counts_by_the_same_divisor() {
    let mut pool: FundPool = FundPool {
        total_shares: 200_000_000_000,
        depositor_shares: 123_456_789_012,
        ..empty_pool(0)
    };
    apply_rebase_to_insurance_fund(1_000_000, &mut pool).unwrap();
    // the smallest power of ten bringing the total within the balance is
    // 10^6; both counts are divided by it and the base raised by 6
    assert_eq!(pool.total_shares, 200_000);
    assert_eq!(pool.depositor_shares, 123_456);
    assert_eq!(pool.share_base, 6);
    assert!(pool.total_shares <= 1_000_000);
    // each count lost only its remainder: less than one part in the divisor
    assert!(200_000_000_000 - 1_000_000 * pool.total_shares < 1_000_000);
    assert!(123_456_789_012 - 1_000_000 * pool.depositor_shares < 1_000_000);

    // applying the rebase again changes nothing
    let before: FundPool = pool;
    apply_rebase_to_insurance_fund(1_000_000, &mut pool).unwrap();
    assert_eq!(pool, before);

    // one power of ten less would not have been enough
    let mut shallow: FundPool = FundPool {
        total_shares: 15,
        depositor_shares: 7,
        ..empty_pool(0)
    };
    apply_rebase_to_insurance_fund(10, &mut shallow).unwrap();
    assert_eq!(shallow.total_shares, 1);
    assert_eq!(shallow.depositor_shares, 0);
    assert_eq!(shallow.share_base, 1);
}

#[test]
fn rebase_reseeds_a_total_the_division_exhausts() {
    // the minimal divisor can wipe a tiny share count entirely; the pool is
    // then re-seeded 1:1 from the balance
    let mut pool: FundPool = FundPool {
        total_shares: 5,
        depositor_shares: 5,
        ..empty_pool(0)
    };
    apply_rebase_to_insurance_fund(1, &mut pool).unwrap();
    assert_eq!(pool.total_shares, 1);
    assert_eq!(pool.depositor_shares, 0);
    assert_eq!(pool.share_base, 1);

    // and a second application still changes nothing
    let before: FundPool = pool;
    apply_rebase_to_insurance_fund(1, &mut pool).unwrap();
    assert_eq!(pool, before);
}

#[test]
fn rebase_reseeds_a_drained_pool() {
    let mut pool: FundPool = empty_pool(0);
    apply_rebase_to_insurance_fund(777, &mut pool).unwrap();
    assert_eq!(pool.total_shares, 777);
    assert_eq!(pool.depositor_shares, 0);
    assert_eq!(pool.share_base, 0);
}

#[test]
fn stake_record_ahead_of_pool_is_refused() {
    let pool: FundPool = empty_pool(0);
    let mut stake: StakeRecord = StakeRecord::new(0, 0, 0);
    stake.if_base = 2;
    assert_eq!(
        apply_rebase_to_insurance_fund_stake(&mut stake, &pool),
        Err(ErrorCode::InvalidState)
    );
    assert_eq!(stake.if_base, 2);
}

#[test]
fn escrow_boundary_is_exact() {
    let mut pool: FundPool = empty_pool(100);
    let mut stake: StakeRecord = StakeRecord::new(0, 0, 0);
    let mut if_balance: u64 = 0;
    add_insurance_fund_stake(1_000_000, if_balance, &mut stake, &mut pool, 0).unwrap();
    if_balance += 1_000_000;

    request_remove_insurance_fund_stake(500_000, if_balance, &mut stake, &mut pool, 50).unwrap();

    // one second before the boundary: refused with the escrow error
    let early = remove_insurance_fund_stake(if_balance, &mut stake, &mut pool, 149);
    assert_eq!(early.unwrap_err(), ErrorCode::EscrowNotElapsed);
    assert_eq!(stake.pending_withdraw_shares, 500_000);

    // exactly at request_ts + escrow_period: settled
    let on_time = remove_insurance_fund_stake(if_balance, &mut stake, &mut pool, 150);
    assert_eq!(on_time.unwrap().0, 500_000);
    assert_eq!(stake.pending_withdraw_shares, 0);
}

#[test]
fn settle_without_request_is_refused() {
    let mut pool: FundPool = empty_pool(0);
    let mut stake: StakeRecord = StakeRecord::new(0, 0, 0);
    add_insurance_fund_stake(1_000_000, 0, &mut stake, &mut pool, 0).unwrap();
    let r = remove_insurance_fund_stake(1_000_000, &mut stake, &mut pool, 0);
    assert_eq!(r.unwrap_err(), ErrorCode::InvalidState);
}

#[test]
fn settle_with_too_few_shares_is_refused() {
    let mut pool: FundPool = FundPool {
        total_shares: 100,
        depositor_shares: 100,
        ..empty_pool(0)
    };
    let mut stake: StakeRecord = StakeRecord::new(0, 0, 0);
    stake.shares = 5;
    stake.pending_withdraw_shares = 10;
    stake.pending_withdraw_value = 10;
    let r = remove_insurance_fund_stake(50, &mut stake, &mut pool, 0);
    assert_eq!(r.unwrap_err(), ErrorCode::InsufficientShares);
}

#[test]
fn cancel_without_request_is_refused() {
    let mut pool: FundPool = empty_pool(0);
    let mut stake: StakeRecord = StakeRecord::new(0, 0, 0);
    add_insurance_fund_stake(1_000_000, 0, &mut stake, &mut pool, 0).unwrap();
    let r = cancel_request_remove_insurance_fund_stake(1_000_000, &mut stake, &mut pool, 0);
    assert_eq!(r.unwrap_err(), ErrorCode::InvalidState);
}

#[test]
fn cancel_without_gains_restores_the_idle_state() {
    let mut pool: FundPool = empty_pool(0);
    let mut stake: StakeRecord = StakeRecord::new(0, 0, 0);
    add_insurance_fund_stake(1_000_000, 0, &mut stake, &mut pool, 0).unwrap();
    request_remove_insurance_fund_stake(500_000, 1_000_000, &mut stake, &mut pool, 7).unwrap();
    cancel_request_remove_insurance_fund_stake(1_000_000, &mut stake, &mut pool, 9).unwrap();
    assert_eq!(stake.unchecked_if_shares(), 1_000_000);
    assert_eq!(stake.pending_withdraw_shares, 0);
    assert_eq!(stake.pending_withdraw_value, 0);
    assert_eq!(stake.pending_withdraw_request_ts, 9);
    assert_eq!(pool.total_shares, 1_000_000);
    assert_eq!(pool.depositor_shares, 1_000_000);
}

#[test]
fn cancel_without_a_rebase_burns_nothing_even_after_gains() {
    let mut pool: FundPool = empty_pool(0);
    let mut stake: StakeRecord = StakeRecord::new(0, 0, 0);
    add_insurance_fund_stake(1_000_000, 0, &mut stake, &mut pool, 0).unwrap();
    request_remove_insurance_fund_stake(500_000, 1_000_000, &mut stake, &mut pool, 0).unwrap();
    assert_eq!(stake.pending_withdraw_value, 500_000);

    // the pool gains value during the escrow window, but the share unit
    // never drifted, so cancelling restores the idle state untouched
    cancel_request_remove_insurance_fund_stake(1_200_000, &mut stake, &mut pool, 3).unwrap();
    assert_eq!(stake.unchecked_if_shares(), 1_000_000);
    assert_eq!(stake.pending_withdraw_shares, 0);
    assert_eq!(stake.pending_withdraw_value, 0);
    assert_eq!(stake.pending_withdraw_request_ts, 3);
    assert_eq!(pool.total_shares, 1_000_000);
    assert_eq!(pool.depositor_shares, 1_000_000);
}

#[test]
fn cancel_after_a_rebase_forfeits_the_truncated_remainder() {
    let mut pool: FundPool = empty_pool(0);
    let mut stake: StakeRecord = StakeRecord::new(0, 0, 0);
    add_insurance_fund_stake(1_000_000, 0, &mut stake, &mut pool, 0).unwrap();
    request_remove_insurance_fund_stake(500_000, 1_000_000, &mut stake, &mut pool, 0).unwrap();
    assert_eq!(stake.pending_withdraw_value, 500_000);

    // the pool is drained and rebased while the request is pending
    apply_rebase_to_insurance_fund(1_000, &mut pool).unwrap();
    assert_eq!(pool.share_base, 3);
    assert_eq!(pool.total_shares, 1_000);

    // the balance then recovers; the drifted request's frozen value pays
    // for only 500_000 * 500 / 1_500_000 = 166 of its 500 pending shares
    let lost: u128 = {
        let mut probe: StakeRecord = stake;
        apply_rebase_to_insurance_fund_stake(&mut probe, &pool).unwrap();
        calculate_if_shares_lost(&probe, &pool, 2_000_000).unwrap()
    };
    assert_eq!(lost, 500 - 166);

    cancel_request_remove_insurance_fund_stake(2_000_000, &mut stake, &mut pool, 3).unwrap();
    assert_eq!(stake.unchecked_if_shares(), 1_000 - 334);
    assert_eq!(stake.pending_withdraw_shares, 0);
    assert_eq!(stake.pending_withdraw_value, 0);
    assert_eq!(pool.total_shares, 1_000 - 334);
    assert_eq!(pool.depositor_shares, 1_000 - 334);
}

#[test]
fn requesting_more_than_the_record_holds_is_refused() {
    let mut pool: FundPool = empty_pool(0);
    let mut stake: StakeRecord = StakeRecord::new(0, 0, 0);
    add_insurance_fund_stake(1_000_000, 0, &mut stake, &mut pool, 0).unwrap();
    let r = request_remove_insurance_fund_stake(1_000_001, 1_000_000, &mut stake, &mut pool, 0);
    assert_eq!(r.unwrap_err(), ErrorCode::InvalidState);
    assert_eq!(stake.pending_withdraw_shares, 0);
}

#[test]
fn a_new_request_overwrites_the_pending_one() {
    let mut pool: FundPool = empty_pool(0);
    let mut stake: StakeRecord = StakeRecord::new(0, 0, 0);
    add_insurance_fund_stake(1_000_000, 0, &mut stake, &mut pool, 0).unwrap();
    request_remove_insurance_fund_stake(500_000, 1_000_000, &mut stake, &mut pool, 1).unwrap();
    request_remove_insurance_fund_stake(200_000, 1_000_000, &mut stake, &mut pool, 2).unwrap();
    assert_eq!(stake.pending_withdraw_shares, 200_000);
    assert_eq!(stake.pending_withdraw_value, 200_000);
    assert_eq!(stake.pending_withdraw_request_ts, 2);
}
