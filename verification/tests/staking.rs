use options_staking::{
    auto_restake, emergency_unstake, stake_options, unstake_options, AutoRestake, CustomError,
    EmergencyUnstake, OptionContract, PositionRecord, Pubkey, StakeOptions, StakingPool,
    UnstakeOptions, UserAccount,
};

fn id(n: u8) -> Pubkey {
    Pubkey { bytes: [n; 32] }
}

fn fresh_account() -> UserAccount {
    UserAccount {
        user_pubkey: id(200),
        staked_options: vec![],
        reward_balance: 0,
        staking_start_time: 0,
        lock_period: 0,
        lock_periods: vec![],
        option_types: vec![],
    }
}

fn pool_of(total_staked: u64) -> StakingPool {
    let rate = if total_staked < 1000 { 100 - total_staked / 10 } else { 50 };
    StakingPool {
        total_staked,
        reward_pool: 0,
        reward_rate: rate,
        lock_period: 86_400,
        early_unstake_penalty_rate: 20,
        admin: id(100),
        pool_authority_bump: 255,
    }
}

fn position(n: u8, option_type: u8, locked: bool) -> PositionRecord {
    PositionRecord {
        key: id(n),
        contract: OptionContract { option_type, strike_price: 1500, expiry: 99_999, locked },
    }
}

fn staked(n: u8, option_type: u8, lock_period: u64, now: u64, total_before: u64) -> StakeOptions {
    let mut ctx = StakeOptions {
        user_account: fresh_account(),
        staking_pool: pool_of(total_before),
        option_contract: position(n, option_type, false),
    };
    assert_eq!(stake_options(&mut ctx, id(n), lock_period, option_type, now), Ok(()));
    ctx
}

fn to_unstake(ctx: StakeOptions) -> UnstakeOptions {
    UnstakeOptions {
        user_account: ctx.user_account,
        staking_pool: ctx.staking_pool,
        option_contract: ctx.option_contract,
    }
}

#[test]
fn stake_locks_records_and_counts() {
    let ctx = staked(1, 1, 86_400, 5_000, 19);
    assert!(ctx.option_contract.contract.locked);
    assert_eq!(ctx.option_contract.contract.option_type, 1);
    assert_eq!(ctx.option_contract.contract.strike_price, 1500);
    assert_eq!(ctx.option_contract.contract.expiry, 99_999);
    assert!(ctx.option_contract.key == id(1));
    assert_eq!(ctx.user_account.staked_options.len(), 1);
    assert!(ctx.user_account.staked_options[0] == id(1));
    assert_eq!(ctx.user_account.option_types, vec![1]);
    assert!(ctx.user_account.lock_periods.is_empty());
    assert_eq!(ctx.user_account.lock_period, 86_400);
    assert_eq!(ctx.user_account.staking_start_time, 5_000);
    assert_eq!(ctx.user_account.reward_balance, 0);
    assert_eq!(ctx.staking_pool.total_staked, 20);
    assert_eq!(ctx.staking_pool.reward_rate, 98);
}

#[test]
fn stake_appends_after_what_is_there() {
    let mut ctx = staked(1, 0, 10, 100, 0);
    ctx.option_contract = position(2, 1, false);
    assert_eq!(stake_options(&mut ctx, id(2), 20, 1, 200), Ok(()));
    assert_eq!(ctx.user_account.staked_options.len(), 2);
    assert!(ctx.user_account.staked_options[0] == id(1));
    assert!(ctx.user_account.staked_options[1] == id(2));
    assert_eq!(ctx.user_account.option_types, vec![0, 1]);
    assert_eq!(ctx.user_account.lock_period, 20);
    assert_eq!(ctx.user_account.staking_start_time, 200);
    assert_eq!(ctx.staking_pool.total_staked, 2);
}

#[test]
fn stake_of_a_locked_position_is_refused() {
    let mut ctx = StakeOptions {
        user_account: fresh_account(),
        staking_pool: pool_of(3),
        option_contract: position(1, 0, true),
    };
    assert_eq!(stake_options(&mut ctx, id(1), 10, 0, 100), Err(CustomError::OptionAlreadyLocked));
    assert!(ctx.user_account.staked_options.is_empty());
    assert!(ctx.user_account.option_types.is_empty());
    assert_eq!(ctx.user_account.lock_period, 0);
    assert_eq!(ctx.user_account.staking_start_time, 0);
    assert_eq!(ctx.staking_pool.total_staked, 3);
    assert_eq!(ctx.staking_pool.reward_rate, 100);
}

#[test]
fn stake_with_an_unknown_option_type_is_refused() {
    for option_type in [2u8, 3, 255] {
        let mut ctx = StakeOptions {
            user_account: fresh_account(),
            staking_pool: pool_of(3),
            option_contract: position(1, 0, false),
        };
        assert_eq!(
            stake_options(&mut ctx, id(1), 10, option_type, 100),
            Err(CustomError::InvalidOptionType)
        );
        assert!(!ctx.option_contract.contract.locked);
        assert!(ctx.user_account.staked_options.is_empty());
        assert_eq!(ctx.staking_pool.total_staked, 3);
    }
}

#[test]
fn stake_checks_the_lock_before_the_type() {
    let mut ctx = StakeOptions {
        user_account: fresh_account(),
        staking_pool: pool_of(3),
        option_contract: position(1, 0, true),
    };
    assert_eq!(stake_options(&mut ctx, id(1), 10, 7, 100), Err(CustomError::OptionAlreadyLocked));
}

#[test]
fn stake_into_a_full_count_is_an_arithmetic_error() {
    let mut ctx = StakeOptions {
        user_account: fresh_account(),
        staking_pool: pool_of(u64::MAX),
        option_contract: position(1, 0, false),
    };
    assert_eq!(stake_options(&mut ctx, id(1), 10, 0, 100), Err(CustomError::ArithmeticError));
    assert!(!ctx.option_contract.contract.locked);
    assert!(ctx.user_account.staked_options.is_empty());
    assert_eq!(ctx.staking_pool.total_staked, u64::MAX);
}

#[test]
fn unstake_right_after_staking_is_too_early() {
    let mut ctx = to_unstake(staked(1, 0, 86_400, 1_000, 0));
    assert_eq!(unstake_options(&mut ctx, false, 1_000), Err(CustomError::LockPeriodNotOver));
    assert!(ctx.option_contract.contract.locked);
    assert_eq!(ctx.user_account.staked_options.len(), 1);
    assert_eq!(ctx.user_account.option_types, vec![0]);
    assert_eq!(ctx.user_account.reward_balance, 0);
    assert_eq!(ctx.user_account.staking_start_time, 1_000);
    assert_eq!(ctx.staking_pool.total_staked, 1);
    assert_eq!(ctx.staking_pool.reward_rate, 100);
}

#[test]
fn unstake_one_second_before_the_end_is_too_early() {
    let mut ctx = to_unstake(staked(1, 0, 86_400, 1_000, 0));
    assert_eq!(unstake_options(&mut ctx, false, 87_399), Err(CustomError::LockPeriodNotOver));
    assert!(ctx.option_contract.contract.locked);
    assert_eq!(ctx.staking_pool.total_staked, 1);
}

#[test]
fn unstake_at_the_end_of_the_lock_pays_the_reward() {
    let mut ctx = to_unstake(staked(1, 0, 86_400, 1_000, 0));
    assert_eq!(ctx.staking_pool.reward_rate, 100);
    assert_eq!(unstake_options(&mut ctx, false, 87_400), Ok(()));
    assert!(!ctx.option_contract.contract.locked);
    assert!(ctx.user_account.staked_options.is_empty());
    assert!(ctx.user_account.option_types.is_empty());
    assert_eq!(ctx.user_account.reward_balance, 86_400 * 100);
    assert_eq!(ctx.user_account.lock_period, 86_400);
    assert_eq!(ctx.user_account.staking_start_time, 1_000);
    assert_eq!(ctx.staking_pool.total_staked, 0);
    assert_eq!(ctx.staking_pool.reward_rate, 100);
}

#[test]
fn unstake_after_ninety_days_pays_four_times() {
    let mut ctx = to_unstake(staked(1, 0, 86_400, 0, 899));
    assert_eq!(ctx.staking_pool.total_staked, 900);
    assert_eq!(ctx.staking_pool.reward_rate, 10);
    assert_eq!(unstake_options(&mut ctx, false, 7_776_000), Ok(()));
    assert_eq!(ctx.user_account.reward_balance, 311_040_000);
    assert_eq!(ctx.staking_pool.total_staked, 899);
    assert_eq!(ctx.staking_pool.reward_rate, 11);
}

#[test]
fn unstake_uses_the_rate_that_the_pool_holds() {
    let mut ctx = to_unstake(staked(1, 0, 10, 0, 0));
    ctx.staking_pool.reward_rate = 3;
    assert_eq!(unstake_options(&mut ctx, false, 10), Ok(()));
    assert_eq!(ctx.user_account.reward_balance, 30);
    assert_eq!(ctx.staking_pool.reward_rate, 100);
}

#[test]
fn early_unstake_takes_the_penalty_and_skips_the_lock() {
    let mut ctx = to_unstake(staked(1, 0, 86_400, 1_000, 0));
    ctx.user_account.reward_balance = 1000;
    assert_eq!(unstake_options(&mut ctx, true, 1_000), Ok(()));
    assert_eq!(ctx.user_account.reward_balance, 800);
    assert!(!ctx.option_contract.contract.locked);
    assert!(ctx.user_account.staked_options.is_empty());
    assert_eq!(ctx.staking_pool.total_staked, 0);
}

#[test]
fn early_unstake_adds_the_reward_to_the_reduced_balance() {
    let mut ctx = to_unstake(staked(1, 0, 86_400, 1_000, 0));
    ctx.user_account.reward_balance = 1000;
    assert_eq!(unstake_options(&mut ctx, true, 1_050), Ok(()));
    assert_eq!(ctx.user_account.reward_balance, 800 + 50 * 100);
}

#[test]
fn early_unstake_with_a_penalty_above_a_hundred_is_an_arithmetic_error() {
    let mut ctx = to_unstake(staked(1, 0, 86_400, 1_000, 0));
    ctx.user_account.reward_balance = 1000;
    ctx.staking_pool.early_unstake_penalty_rate = 101;
    assert_eq!(unstake_options(&mut ctx, true, 2_000), Err(CustomError::ArithmeticError));
    assert_eq!(ctx.user_account.reward_balance, 1000);
    assert!(ctx.option_contract.contract.locked);
    assert_eq!(ctx.staking_pool.total_staked, 1);
    // Without the early exit the penalty rate plays no part.
    assert_eq!(unstake_options(&mut ctx, false, 90_000), Ok(()));
}

#[test]
fn unstake_with_an_unlock_time_out_of_range_is_an_arithmetic_error() {
    let mut ctx = to_unstake(staked(1, 0, 2, u64::MAX - 1, 0));
    assert_eq!(unstake_options(&mut ctx, false, u64::MAX), Err(CustomError::ArithmeticError));
    assert!(ctx.option_contract.contract.locked);
    assert_eq!(ctx.staking_pool.total_staked, 1);
}

#[test]
fn unstake_before_the_start_is_an_arithmetic_error() {
    let mut ctx = to_unstake(staked(1, 0, 10, 1_000, 0));
    assert_eq!(unstake_options(&mut ctx, true, 999), Err(CustomError::ArithmeticError));
    assert!(ctx.option_contract.contract.locked);
    assert_eq!(ctx.user_account.staked_options.len(), 1);
}

#[test]
fn unstake_with_a_balance_out_of_range_is_an_arithmetic_error() {
    let mut ctx = to_unstake(staked(1, 0, 10, 1_000, 0));
    ctx.user_account.reward_balance = u64::MAX;
    assert_eq!(unstake_options(&mut ctx, false, 1_010), Err(CustomError::ArithmeticError));
    assert_eq!(ctx.user_account.reward_balance, u64::MAX);
    assert!(ctx.option_contract.contract.locked);
    assert_eq!(ctx.staking_pool.total_staked, 1);
    ctx.user_account.reward_balance = u64::MAX - 1000;
    assert_eq!(unstake_options(&mut ctx, false, 1_010), Ok(()));
    assert_eq!(ctx.user_account.reward_balance, u64::MAX);
}

#[test]
fn unstake_with_a_clamped_reward_adds_nothing() {
    let mut ctx = to_unstake(staked(1, 0, 10, 0, 0));
    ctx.user_account.reward_balance = 5;
    assert_eq!(unstake_options(&mut ctx, false, u64::MAX), Ok(()));
    assert_eq!(ctx.user_account.reward_balance, 5);
}

#[test]
fn unstake_from_an_empty_pool_is_an_arithmetic_error() {
    let mut ctx = to_unstake(staked(1, 0, 10, 1_000, 0));
    ctx.staking_pool.total_staked = 0;
    assert_eq!(unstake_options(&mut ctx, false, 2_000), Err(CustomError::ArithmeticError));
    assert!(ctx.option_contract.contract.locked);
    assert_eq!(ctx.user_account.staked_options.len(), 1);
    assert_eq!(ctx.user_account.reward_balance, 0);
}

#[test]
fn unstake_of_one_of_two_positions_of_the_same_type_keeps_the_other() {
    let mut ctx = to_unstake(staked(1, 0, 10, 0, 0));
    ctx.user_account.staked_options = vec![id(1), id(2)];
    ctx.user_account.option_types = vec![0, 0];
    ctx.staking_pool.total_staked = 2;
    assert_eq!(unstake_options(&mut ctx, false, 10), Ok(()));
    assert_eq!(ctx.user_account.staked_options.len(), 1);
    assert!(ctx.user_account.staked_options[0] == id(2));
    assert_eq!(ctx.user_account.option_types, vec![0]);
    assert_eq!(ctx.staking_pool.total_staked, 1);
}

#[test]
fn emergency_unstake_of_one_of_two_positions_of_the_same_type_keeps_the_other() {
    let before = staked(2, 1, 10, 0, 0);
    let mut ctx = EmergencyUnstake {
        user_account: before.user_account,
        staking_pool: before.staking_pool,
        option_contract: before.option_contract,
    };
    ctx.user_account.staked_options = vec![id(1), id(2)];
    ctx.user_account.option_types = vec![1, 1];
    ctx.staking_pool.total_staked = 2;
    assert_eq!(emergency_unstake(&mut ctx), Ok(()));
    assert_eq!(ctx.user_account.staked_options.len(), 1);
    assert!(ctx.user_account.staked_options[0] == id(1));
    assert_eq!(ctx.user_account.option_types, vec![1]);
}

#[test]
fn unstake_takes_the_type_at_the_index_of_the_identifier() {
    // The type that the position record carries plays no part.
    let mut ctx = to_unstake(staked(1, 0, 10, 0, 0));
    ctx.user_account.staked_options = vec![id(1), id(2)];
    ctx.user_account.option_types = vec![0, 1];
    ctx.staking_pool.total_staked = 2;
    ctx.option_contract = position(2, 0, true);
    assert_eq!(unstake_options(&mut ctx, false, 10), Ok(()));
    assert!(ctx.user_account.staked_options[0] == id(1));
    assert_eq!(ctx.user_account.option_types, vec![0]);
}

#[test]
fn unstake_of_a_position_that_is_not_staked_leaves_the_sequences() {
    let mut ctx = to_unstake(staked(1, 0, 10, 0, 0));
    ctx.option_contract = position(7, 0, true);
    assert_eq!(unstake_options(&mut ctx, false, 10), Ok(()));
    assert_eq!(ctx.user_account.staked_options.len(), 1);
    assert!(ctx.user_account.staked_options[0] == id(1));
    assert_eq!(ctx.user_account.option_types, vec![0]);
    assert_eq!(ctx.staking_pool.total_staked, 0);
}

#[test]
fn unstake_removes_the_identifier_with_its_type() {
    let mut ctx = to_unstake(staked(1, 0, 10, 0, 0));
    ctx.user_account.staked_options = vec![id(1), id(2), id(3), id(2)];
    ctx.user_account.option_types = vec![0, 1, 0, 1];
    ctx.user_account.lock_periods = vec![5, 6];
    ctx.staking_pool.total_staked = 4;
    ctx.option_contract = position(2, 1, true);
    assert_eq!(unstake_options(&mut ctx, false, 10), Ok(()));
    assert_eq!(ctx.user_account.staked_options.len(), 2);
    assert!(ctx.user_account.staked_options[0] == id(1));
    assert!(ctx.user_account.staked_options[1] == id(3));
    assert_eq!(ctx.user_account.option_types, vec![0, 0]);
    assert_eq!(ctx.user_account.lock_periods, vec![5, 6]);
    assert_eq!(ctx.staking_pool.total_staked, 3);
}

#[test]
fn emergency_unstake_releases_without_reward_or_penalty() {
    let before = staked(1, 1, 86_400, 1_000, 9);
    let mut ctx = EmergencyUnstake {
        user_account: before.user_account,
        staking_pool: before.staking_pool,
        option_contract: before.option_contract,
    };
    ctx.user_account.reward_balance = 1000;
    assert_eq!(ctx.staking_pool.total_staked, 10);
    assert_eq!(ctx.staking_pool.reward_rate, 99);
    assert_eq!(emergency_unstake(&mut ctx), Ok(()));
    assert!(!ctx.option_contract.contract.locked);
    assert!(ctx.user_account.staked_options.is_empty());
    assert!(ctx.user_account.option_types.is_empty());
    assert_eq!(ctx.user_account.reward_balance, 1000);
    assert_eq!(ctx.user_account.staking_start_time, 1_000);
    assert_eq!(ctx.user_account.lock_period, 86_400);
    assert_eq!(ctx.staking_pool.total_staked, 9);
    assert_eq!(ctx.staking_pool.reward_rate, 100);
}

#[test]
fn emergency_unstake_from_an_empty_pool_is_an_arithmetic_error() {
    let before = staked(1, 1, 86_400, 1_000, 0);
    let mut ctx = EmergencyUnstake {
        user_account: before.user_account,
        staking_pool: before.staking_pool,
        option_contract: before.option_contract,
    };
    ctx.staking_pool.total_staked = 0;
    assert_eq!(emergency_unstake(&mut ctx), Err(CustomError::ArithmeticError));
    assert!(ctx.option_contract.contract.locked);
    assert_eq!(ctx.user_account.staked_options.len(), 1);
    assert_eq!(ctx.user_account.option_types, vec![1]);
    assert_eq!(ctx.staking_pool.total_staked, 0);
}

fn to_restake(ctx: StakeOptions) -> AutoRestake {
    AutoRestake {
        user_account: ctx.user_account,
        staking_pool: ctx.staking_pool,
        option_contract: ctx.option_contract,
    }
}

#[test]
fn restake_after_the_lock_restarts_the_clock_and_counts_again() {
    let mut ctx = to_restake(staked(1, 0, 86_400, 1_000, 8));
    assert_eq!(ctx.staking_pool.total_staked, 9);
    assert_eq!(auto_restake(&mut ctx, id(1), 87_400), Ok(()));
    assert_eq!(ctx.user_account.staking_start_time, 87_400);
    assert_eq!(ctx.user_account.lock_period, 86_400);
    assert_eq!(ctx.user_account.staked_options.len(), 1);
    assert_eq!(ctx.user_account.option_types, vec![0]);
    assert_eq!(ctx.user_account.reward_balance, 0);
    assert!(ctx.option_contract.contract.locked);
    assert_eq!(ctx.staking_pool.total_staked, 10);
    assert_eq!(ctx.staking_pool.reward_rate, 99);
}

#[test]
fn restake_before_the_lock_is_over_is_refused() {
    let mut ctx = to_restake(staked(1, 0, 86_400, 1_000, 8));
    assert_eq!(auto_restake(&mut ctx, id(1), 87_399), Err(CustomError::LockPeriodNotOver));
    assert_eq!(ctx.user_account.staking_start_time, 1_000);
    assert_eq!(ctx.staking_pool.total_staked, 9);
    assert_eq!(ctx.staking_pool.reward_rate, 100);
}

#[test]
fn restake_with_an_unlock_time_out_of_range_is_an_arithmetic_error() {
    let mut ctx = to_restake(staked(1, 0, u64::MAX, 1, 8));
    assert_eq!(auto_restake(&mut ctx, id(1), u64::MAX), Err(CustomError::ArithmeticError));
    assert_eq!(ctx.user_account.staking_start_time, 1);
    assert_eq!(ctx.staking_pool.total_staked, 9);
}

#[test]
fn restake_into_a_full_count_is_an_arithmetic_error() {
    let mut ctx = to_restake(staked(1, 0, 10, 1_000, 8));
    ctx.staking_pool.total_staked = u64::MAX;
    assert_eq!(auto_restake(&mut ctx, id(1), 2_000), Err(CustomError::ArithmeticError));
    assert_eq!(ctx.user_account.staking_start_time, 1_000);
    assert_eq!(ctx.staking_pool.total_staked, u64::MAX);
}

#[test]
fn count_follows_each_operation_by_its_delta() {
    let mut stake = staked(1, 0, 10, 0, 41);
    assert_eq!(stake.staking_pool.total_staked, 42);
    stake.option_contract = position(2, 1, false);
    assert_eq!(stake_options(&mut stake, id(2), 10, 1, 0), Ok(()));
    assert_eq!(stake.staking_pool.total_staked, 43);
    let mut restake = to_restake(stake);
    assert_eq!(auto_restake(&mut restake, id(2), 10), Ok(()));
    assert_eq!(restake.staking_pool.total_staked, 44);
    let mut unstake = UnstakeOptions {
        user_account: restake.user_account,
        staking_pool: restake.staking_pool,
        option_contract: restake.option_contract,
    };
    assert_eq!(unstake_options(&mut unstake, false, 20), Ok(()));
    assert_eq!(unstake.staking_pool.total_staked, 43);
    let mut emergency = EmergencyUnstake {
        user_account: unstake.user_account,
        staking_pool: unstake.staking_pool,
        option_contract: position(1, 0, true),
    };
    assert_eq!(emergency_unstake(&mut emergency), Ok(()));
    assert_eq!(emergency.staking_pool.total_staked, 42);
    assert_eq!(emergency.staking_pool.reward_rate, 96);
}
