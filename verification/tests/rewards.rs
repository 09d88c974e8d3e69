use options_staking::rewards::{BASE_REWARD_RATE, MAX_STAKED_THRESHOLD, SECONDS_IN_MONTH};
use options_staking::{
    apply_early_unstaking_penalty, calculate_tiered_rewards, update_reward_rate, Pubkey,
    StakingPool,
};

fn pool_with(total_staked: u64) -> StakingPool {
    StakingPool {
        total_staked,
        reward_pool: 7,
        reward_rate: 0,
        lock_period: 86_400,
        early_unstake_penalty_rate: 20,
        admin: Pubkey { bytes: [9; 32] },
        pool_authority_bump: 254,
    }
}

fn rate_for(total_staked: u64) -> u64 {
    let mut pool = pool_with(total_staked);
    assert_eq!(update_reward_rate(&mut pool), Ok(()));
    assert_eq!(pool.total_staked, total_staked);
    pool.reward_rate
}

#[test]
fn ninety_days_earn_four_times_the_base() {
    assert_eq!(calculate_tiered_rewards(7_776_000, 10, 0), 7_776_000 * 10 * 4);
    assert_eq!(calculate_tiered_rewards(7_776_000, 10, 0), 311_040_000);
}

#[test]
fn lock_period_does_not_change_the_reward() {
    assert_eq!(
        calculate_tiered_rewards(5_000_000, 3, 0),
        calculate_tiered_rewards(5_000_000, 3, u64::MAX)
    );
}

#[test]
fn bonus_steps_at_each_month_boundary() {
    let month = SECONDS_IN_MONTH;
    assert_eq!(month, 30 * 24 * 60 * 60);
    for k in 0..6u64 {
        let start = k * month;
        let end = (k + 1) * month - 1;
        assert_eq!(calculate_tiered_rewards(start, 1, 0), start * (k + 1));
        assert_eq!(calculate_tiered_rewards(end, 1, 0), end * (k + 1));
    }
}

#[test]
fn bonus_is_capped_at_seven() {
    let month = SECONDS_IN_MONTH;
    assert_eq!(calculate_tiered_rewards(6 * month, 1, 0), 6 * month * 7);
    assert_eq!(calculate_tiered_rewards(7 * month, 2, 0), 7 * month * 2 * 7);
    assert_eq!(calculate_tiered_rewards(100 * month, 1, 0), 100 * month * 7);
}

#[test]
fn reward_is_zero_for_no_time_or_no_rate() {
    assert_eq!(calculate_tiered_rewards(0, 1000, 0), 0);
    assert_eq!(calculate_tiered_rewards(1000, 0, 0), 0);
}

#[test]
fn reward_that_overflows_is_clamped_to_zero() {
    assert_eq!(calculate_tiered_rewards(u64::MAX, 2, 0), 0);
    assert_eq!(calculate_tiered_rewards(u64::MAX, 1, 0), 0);
    // The first product fits, the bonus makes it overflow.
    assert_eq!(calculate_tiered_rewards(u64::MAX / 2, 1, 0), 0);
    // Just below the edge: seven times the duration still fits.
    let most = u64::MAX / 7;
    assert_eq!(calculate_tiered_rewards(most, 1, 0), most * 7);
    assert_eq!(calculate_tiered_rewards(most + 1, 1, 0), 0);
}

#[test]
fn reward_does_not_fall_while_it_fits() {
    let rate = 13;
    let mut previous = 0;
    let mut duration = 0;
    while duration < 8 * SECONDS_IN_MONTH {
        let reward = calculate_tiered_rewards(duration, rate, 0);
        assert!(reward >= previous);
        previous = reward;
        duration += 86_400 * 3;
    }
}

#[test]
fn rate_at_five_hundred_and_at_fifteen_hundred_is_fifty() {
    assert_eq!(rate_for(500), 50);
    assert_eq!(rate_for(1500), 50);
}

#[test]
fn rate_decays_by_one_for_every_ten_below_the_threshold() {
    assert_eq!(BASE_REWARD_RATE, 100);
    assert_eq!(MAX_STAKED_THRESHOLD, 1000);
    assert_eq!(rate_for(0), 100);
    assert_eq!(rate_for(9), 100);
    assert_eq!(rate_for(10), 99);
    assert_eq!(rate_for(15), 99);
    assert_eq!(rate_for(990), 1);
    assert_eq!(rate_for(999), 1);
    for n in 0..1000u64 {
        assert_eq!(rate_for(n), 100 - n / 10);
    }
}

#[test]
fn rate_is_fifty_from_the_threshold_on() {
    assert_eq!(rate_for(1000), 50);
    assert_eq!(rate_for(1001), 50);
    assert_eq!(rate_for(u64::MAX), 50);
}

#[test]
fn rate_update_leaves_the_rest_of_the_pool() {
    let mut pool = pool_with(42);
    pool.reward_rate = 12345;
    assert_eq!(update_reward_rate(&mut pool), Ok(()));
    assert_eq!(pool.reward_rate, 96);
    assert_eq!(pool.total_staked, 42);
    assert_eq!(pool.reward_pool, 7);
    assert_eq!(pool.lock_period, 86_400);
    assert_eq!(pool.early_unstake_penalty_rate, 20);
    assert!(pool.admin == Pubkey { bytes: [9; 32] });
    assert_eq!(pool.pool_authority_bump, 254);
}

#[test]
fn rate_is_the_same_each_time() {
    assert_eq!(rate_for(123), rate_for(123));
    assert_eq!(rate_for(123), 88);
}

#[test]
fn penalty_of_twenty_percent_leaves_eight_hundred() {
    assert_eq!(apply_early_unstaking_penalty(1000, 20), 800);
}

#[test]
fn penalty_rounds_down() {
    assert_eq!(apply_early_unstaking_penalty(999, 50), 499);
    assert_eq!(apply_early_unstaking_penalty(1, 1), 0);
    assert_eq!(apply_early_unstaking_penalty(3, 33), 2);
}

#[test]
fn penalty_of_nothing_and_of_everything() {
    assert_eq!(apply_early_unstaking_penalty(1000, 0), 1000);
    assert_eq!(apply_early_unstaking_penalty(1000, 100), 0);
    assert_eq!(apply_early_unstaking_penalty(0, 20), 0);
}

#[test]
fn penalty_on_the_largest_balance() {
    assert_eq!(apply_early_unstaking_penalty(u64::MAX, 0), u64::MAX);
    assert_eq!(
        apply_early_unstaking_penalty(u64::MAX, 20),
        ((u64::MAX as u128) * 80 / 100) as u64
    );
}

#[test]
fn penalty_above_a_hundred_percent_leaves_nothing() {
    assert_eq!(apply_early_unstaking_penalty(1000, 101), 0);
    assert_eq!(apply_early_unstaking_penalty(1000, 250), 0);
    assert_eq!(apply_early_unstaking_penalty(u64::MAX, u64::MAX), 0);
    assert_eq!(apply_early_unstaking_penalty(0, 101), 0);
}

#[test]
fn penalty_never_adds_to_the_balance() {
    for rate in [0u64, 1, 20, 99, 100, 101, 1000, u64::MAX] {
        for balance in [0u64, 1, 99, 1000, u64::MAX / 100, u64::MAX] {
            assert!(apply_early_unstaking_penalty(balance, rate) <= balance);
        }
    }
}
