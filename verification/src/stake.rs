//! Locking a single position, and restarting the clock of a stake whose
//! lock period has run out.

use crate::errors::CustomError;
use crate::identity::Pubkey;
use crate::records::{
    locked_record, valid_option_type, PositionRecord, StakingPool, UserAccount, UserAccountView,
};
use crate::rewards::{pool_with_total, update_reward_rate};
use vstd::prelude::*;

verus! {

/// The records that staking a single position works on.
#[derive(Debug)]
pub struct StakeOptions {
    pub user_account: UserAccount,
    pub staking_pool: StakingPool,
    pub option_contract: PositionRecord,
}

/// The records that restaking works on.
#[derive(Debug)]
pub struct AutoRestake {
    pub user_account: UserAccount,
    pub staking_pool: StakingPool,
    pub option_contract: PositionRecord,
}

/// The account after a position has been staked at time `now`: identifier
/// and option type are appended, and the lock period and the start of
/// staking are set.
pub open spec fn account_with_position(
    account: UserAccountView,
    option_pubkey: Pubkey,
    lock_period: u64,
    option_type: u8,
    now: u64,
) -> UserAccountView {
    UserAccountView {
        staked_options: account.staked_options.push(option_pubkey),
        option_types: account.option_types.push(option_type),
        lock_period,
        staking_start_time: now,
        ..account
    }
}

impl StakeOptions {
    /// The error with which staking is rejected, or `None` where it goes
    /// through: the position must not be locked, the option type must be a
    /// call or a put, and the pool's count must have room for one more.
    pub open spec fn stake_error(self, option_type: u8) -> Option<CustomError> {
        if self.option_contract.contract.locked {
            Some(CustomError::OptionAlreadyLocked)
        } else if !valid_option_type(option_type) {
            Some(CustomError::InvalidOptionType)
        } else if self.staking_pool.total_staked + 1 > u64::MAX {
            Some(CustomError::ArithmeticError)
        } else {
            None
        }
    }
}

/// Stakes the position of `ctx` under the identifier `option_pubkey` for
/// `lock_period` seconds, at time `now`.
///
/// The position is locked, identifier and option type are appended to the
/// account, the account's lock period and start of staking are set, and the
/// pool's count grows by one, with the reward rate recomputed. On any error
/// no record changes.
pub fn stake_options(
    ctx: &mut StakeOptions,
    option_pubkey: Pubkey,
    lock_period: u64,
    option_type: u8,
    now: u64,
) -> (result: Result<(), CustomError>)
    ensures
        old(ctx).stake_error(option_type) matches Some(e) ==> result == Err::<(), CustomError>(e),
        old(ctx).stake_error(option_type) is None ==> result is Ok,
        result is Err ==> *final(ctx) == *old(ctx),
        result is Ok ==> final(ctx).option_contract == locked_record(old(ctx).option_contract),
        result is Ok ==> final(ctx).user_account@ == account_with_position(
            old(ctx).user_account@,
            option_pubkey,
            lock_period,
            option_type,
            now,
        ),
        result is Ok ==> final(ctx).staking_pool == pool_with_total(
            old(ctx).staking_pool,
            (old(ctx).staking_pool.total_staked + 1) as u64,
        ),
        result is Ok ==> final(ctx).staking_pool.total_staked == old(ctx).staking_pool.total_staked
            + 1,
        result is Ok ==> final(ctx).staking_pool.rate_in_step(),
        old(ctx).user_account@.types_valid() ==> final(ctx).user_account@.types_valid(),
        old(ctx).user_account@.types_aligned() ==> final(ctx).user_account@.types_aligned(),
        old(ctx).user_account@.ids_unique() && !old(ctx).user_account@.staked_options.contains(
            option_pubkey,
        ) ==> final(ctx).user_account@.ids_unique(),
{
    if ctx.option_contract.contract.locked {
        return Err(CustomError::OptionAlreadyLocked);
    }
    if !(option_type == 0 || option_type == 1) {
        return Err(CustomError::InvalidOptionType);
    }
    let new_total: u64 = match ctx.staking_pool.total_staked.checked_add(1) {
        Some(total) => total,
        None => {
            return Err(CustomError::ArithmeticError);
        },
    };
    ctx.option_contract.contract.locked = true;
    ctx.user_account.staked_options.push(option_pubkey);
    ctx.user_account.option_types.push(option_type);
    ctx.user_account.lock_period = lock_period;
    ctx.user_account.staking_start_time = now;
    ctx.staking_pool.total_staked = new_total;
    let _ = update_reward_rate(&mut ctx.staking_pool);
    Ok(())
}

impl AutoRestake {
    /// The time from which the stake may be restarted.
    pub open spec fn unlock_time(self) -> int {
        self.user_account.staking_start_time + self.user_account.lock_period
    }

    /// The error with which restaking at time `now` is rejected, or `None`
    /// where it goes through: the unlock time must fit in a `u64`, `now` must
    /// not lie before it, and the pool's count must have room for one more.
    pub open spec fn restake_error(self, now: u64) -> Option<CustomError> {
        if self.unlock_time() > u64::MAX {
            Some(CustomError::ArithmeticError)
        } else if now < self.unlock_time() {
            Some(CustomError::LockPeriodNotOver)
        } else if self.staking_pool.total_staked + 1 > u64::MAX {
            Some(CustomError::ArithmeticError)
        } else {
            None
        }
    }
}

/// Restakes once the lock period is over: the start of staking becomes `now`,
/// the lock period stays, and the pool's count grows by one, with the reward
/// rate recomputed. The position and the rest of the account stay as they
/// are, and `option_pubkey` plays no part. On any error no record changes.
pub fn auto_restake(ctx: &mut AutoRestake, option_pubkey: Pubkey, now: u64) -> (result: Result<
    (),
    CustomError,
>)
    ensures
        old(ctx).restake_error(now) matches Some(e) ==> result == Err::<(), CustomError>(e),
        old(ctx).restake_error(now) is None ==> result is Ok,
        result is Err ==> *final(ctx) == *old(ctx),
        result is Ok ==> final(ctx).option_contract == old(ctx).option_contract,
        result is Ok ==> final(ctx).user_account@ == (UserAccountView {
            staking_start_time: now,
            ..old(ctx).user_account@
        }),
        result is Ok ==> final(ctx).staking_pool == pool_with_total(
            old(ctx).staking_pool,
            (old(ctx).staking_pool.total_staked + 1) as u64,
        ),
        result is Ok ==> final(ctx).staking_pool.total_staked == old(ctx).staking_pool.total_staked
            + 1,
        result is Ok ==> final(ctx).staking_pool.rate_in_step(),
        (now < old(ctx).unlock_time() <= u64::MAX) ==> result == Err::<(), CustomError>(
            CustomError::LockPeriodNotOver,
        ),
{
    let unlock_time: u64 = match ctx.user_account.staking_start_time.checked_add(
        ctx.user_account.lock_period,
    ) {
        Some(time) => time,
        None => {
            return Err(CustomError::ArithmeticError);
        },
    };
    if now < unlock_time {
        return Err(CustomError::LockPeriodNotOver);
    }
    let new_total: u64 = match ctx.staking_pool.total_staked.checked_add(1) {
        Some(total) => total,
        None => {
            return Err(CustomError::ArithmeticError);
        },
    };
    ctx.user_account.staking_start_time = now;
    ctx.staking_pool.total_staked = new_total;
    let _ = update_reward_rate(&mut ctx.staking_pool);
    Ok(())
}

} // verus!
