//! Releasing a staked position: after its lock period, early at a penalty,
//! or as an emergency exit.

use crate::errors::CustomError;
use crate::identity::Pubkey;
use crate::records::{
    lemma_removal_keeps_aligned, lemma_removal_keeps_pairs, lemma_types_without_key_keeps_valid,
    lemma_without_key, lemma_without_key_keeps_unique, position_other_than, positions,
    remove_key, remove_types_of_key, types_without_key, unlocked_record, without_key,
    PositionRecord, StakingPool, UserAccount, UserAccountView,
};
use crate::rewards::{
    apply_early_unstaking_penalty, calculate_tiered_rewards, penalized_balance, pool_with_total,
    tiered_reward, update_reward_rate,
};
use vstd::prelude::*;

verus! {

/// The records that unstaking a position works on.
#[derive(Debug)]
pub struct UnstakeOptions {
    pub user_account: UserAccount,
    pub staking_pool: StakingPool,
    pub option_contract: PositionRecord,
}

/// The records that an emergency exit works on.
#[derive(Debug)]
pub struct EmergencyUnstake {
    pub user_account: UserAccount,
    pub staking_pool: StakingPool,
    pub option_contract: PositionRecord,
}

/// The account after the position at `key` has left it: the identifier is
/// taken out of the staked positions, wherever it stands, together with the
/// option type recorded at the same index, and the reward balance is set to
/// `reward_balance`. Nothing else changes.
pub open spec fn account_without_position(
    account: UserAccountView,
    key: Pubkey,
    reward_balance: u64,
) -> UserAccountView {
    UserAccountView {
        staked_options: without_key(account.staked_options, key),
        option_types: types_without_key(account.staked_options, account.option_types, key),
        reward_balance,
        ..account
    }
}

impl UnstakeOptions {
    /// The balance to which the reward of this unstaking is added: the
    /// account's balance, reduced by the penalty where the exit is early.
    pub open spec fn balance_before_reward(self, early_unstake: bool) -> nat {
        if early_unstake {
            penalized_balance(
                self.user_account.reward_balance as nat,
                self.staking_pool.early_unstake_penalty_rate as nat,
            )
        } else {
            self.user_account.reward_balance as nat
        }
    }

    /// The reward that unstaking at time `now` accrues: the tiered reward for
    /// the time since staking began, at the pool's current rate.
    pub open spec fn accrued_reward(self, now: u64) -> nat {
        tiered_reward(
            (now - self.user_account.staking_start_time) as nat,
            self.staking_pool.reward_rate as nat,
        )
    }

    /// The time from which the position may leave without a penalty.
    pub open spec fn unlock_time(self) -> int {
        self.user_account.staking_start_time + self.user_account.lock_period
    }

    /// The error with which unstaking at time `now` is rejected, or `None`
    /// where it goes through.
    ///
    /// An early exit needs a penalty rate of at most 100 percent. A regular
    /// exit needs an unlock time that fits in a `u64`, and `now` at or after
    /// it, else the lock period is not over. Either way `now` must not lie
    /// before the start of staking, the new balance must fit in a `u64`, and
    /// the pool must count at least one staked position.
    pub open spec fn unstake_error(self, early_unstake: bool, now: u64) -> Option<CustomError> {
        if early_unstake && self.staking_pool.early_unstake_penalty_rate > 100 {
            Some(CustomError::ArithmeticError)
        } else if !early_unstake && self.unlock_time() > u64::MAX {
            Some(CustomError::ArithmeticError)
        } else if !early_unstake && now < self.unlock_time() {
            Some(CustomError::LockPeriodNotOver)
        } else if now < self.user_account.staking_start_time {
            Some(CustomError::ArithmeticError)
        } else if self.balance_before_reward(early_unstake) + self.accrued_reward(now) > u64::MAX {
            Some(CustomError::ArithmeticError)
        } else if self.staking_pool.total_staked == 0 {
            Some(CustomError::ArithmeticError)
        } else {
            None
        }
    }
}

/// Unstakes the position of `ctx` at time `now`.
///
/// With `early_unstake` the penalty is first taken from the reward balance
/// and the lock period is not looked at; without it the lock period must be
/// over. Then the position is unlocked and taken out of the account, the
/// tiered reward for the time staked is added to the balance, and the pool's
/// count falls by one, with the reward rate recomputed. On any error no
/// record changes.
pub fn unstake_options(ctx: &mut UnstakeOptions, early_unstake: bool, now: u64) -> (result: Result<
    (),
    CustomError,
>)
    ensures
        old(ctx).unstake_error(early_unstake, now) matches Some(e) ==> result == Err::<
            (),
            CustomError,
        >(e),
        old(ctx).unstake_error(early_unstake, now) is None ==> result is Ok,
        result is Err ==> *final(ctx) == *old(ctx),
        result is Ok ==> final(ctx).option_contract == unlocked_record(old(ctx).option_contract),
        result is Ok ==> final(ctx).user_account@ == account_without_position(
            old(ctx).user_account@,
            old(ctx).option_contract.key,
            (old(ctx).balance_before_reward(early_unstake) + old(ctx).accrued_reward(now)) as u64,
        ),
        result is Ok ==> final(ctx).staking_pool == pool_with_total(
            old(ctx).staking_pool,
            (old(ctx).staking_pool.total_staked - 1) as u64,
        ),
        result is Ok ==> final(ctx).staking_pool.total_staked + 1 == old(
            ctx,
        ).staking_pool.total_staked,
        (!early_unstake && now < old(ctx).unlock_time() <= u64::MAX) ==> result == Err::<
            (),
            CustomError,
        >(CustomError::LockPeriodNotOver) && *final(ctx) == *old(ctx),
        result is Ok ==> final(ctx).staking_pool.rate_in_step(),
        result is Ok ==> !final(ctx).user_account@.staked_options.contains(
            old(ctx).option_contract.key,
        ),
        old(ctx).user_account@.types_valid() ==> final(ctx).user_account@.types_valid(),
        old(ctx).user_account@.types_aligned() ==> final(ctx).user_account@.types_aligned(),
        result is Ok && old(ctx).user_account@.types_aligned() ==> positions(
            final(ctx).user_account@.staked_options,
            final(ctx).user_account@.option_types,
        ) == positions(
            old(ctx).user_account@.staked_options,
            old(ctx).user_account@.option_types,
        ).filter(position_other_than(old(ctx).option_contract.key)),
        old(ctx).user_account@.ids_unique() ==> final(ctx).user_account@.ids_unique(),
{
    proof {
        lemma_without_key(ctx.user_account@.staked_options, ctx.option_contract.key);
        if ctx.user_account@.ids_unique() {
            lemma_without_key_keeps_unique(
                ctx.user_account@.staked_options,
                ctx.option_contract.key,
            );
        }
        if ctx.user_account@.types_valid() {
            lemma_types_without_key_keeps_valid(
                ctx.user_account@.staked_options,
                ctx.user_account@.option_types,
                ctx.option_contract.key,
            );
        }
        if ctx.user_account@.types_aligned() {
            lemma_removal_keeps_pairs(
                ctx.user_account@.staked_options,
                ctx.user_account@.option_types,
                ctx.option_contract.key,
            );
            lemma_removal_keeps_aligned(
                ctx.user_account@.staked_options,
                ctx.user_account@.option_types,
                ctx.option_contract.key,
            );
        }
    }
    let base_balance: u64 = if early_unstake {
        if ctx.staking_pool.early_unstake_penalty_rate > 100 {
            return Err(CustomError::ArithmeticError);
        }
        apply_early_unstaking_penalty(
            ctx.user_account.reward_balance,
            ctx.staking_pool.early_unstake_penalty_rate,
        )
    } else {
        let unlock_time: u64 = match ctx.user_account.staking_start_time.checked_add(
            ctx.user_account.lock_period,
        ) {
            Some(time) => time,
            None => {
                return Err(CustomError::ArithmeticError);
            },
        };
        if now < unlock_time {
            return Err(CustomError::LockPeriodNotOver);
        }
        ctx.user_account.reward_balance
    };
    let duration: u64 = match now.checked_sub(ctx.user_account.staking_start_time) {
        Some(duration) => duration,
        None => {
            return Err(CustomError::ArithmeticError);
        },
    };
    let reward: u64 = calculate_tiered_rewards(
        duration,
        ctx.staking_pool.reward_rate,
        ctx.user_account.lock_period,
    );
    let new_balance: u64 = match base_balance.checked_add(reward) {
        Some(balance) => balance,
        None => {
            return Err(CustomError::ArithmeticError);
        },
    };
    let new_total: u64 = match ctx.staking_pool.total_staked.checked_sub(1) {
        Some(total) => total,
        None => {
            return Err(CustomError::ArithmeticError);
        },
    };
    let kept_options: Vec<Pubkey> = remove_key(
        &ctx.user_account.staked_options,
        ctx.option_contract.key,
    );
    let kept_types: Vec<u8> = remove_types_of_key(
        &ctx.user_account.staked_options,
        &ctx.user_account.option_types,
        ctx.option_contract.key,
    );
    ctx.option_contract.contract.locked = false;
    ctx.user_account.staked_options = kept_options;
    ctx.user_account.option_types = kept_types;
    ctx.user_account.reward_balance = new_balance;
    ctx.staking_pool.total_staked = new_total;
    let _ = update_reward_rate(&mut ctx.staking_pool);
    Ok(())
}

impl EmergencyUnstake {
    /// The error with which an emergency exit is rejected, or `None` where it
    /// goes through: the pool must count at least one staked position.
    pub open spec fn emergency_error(self) -> Option<CustomError> {
        if self.staking_pool.total_staked == 0 {
            Some(CustomError::ArithmeticError)
        } else {
            None
        }
    }
}

/// Releases the position of `ctx` whatever its lock period. The position is
/// unlocked and taken out of the account; no penalty is taken and no reward
/// accrues, so the reward balance stays as it is. The pool's count falls by
/// one, with the reward rate recomputed. On an error no record changes.
pub fn emergency_unstake(ctx: &mut EmergencyUnstake) -> (result: Result<(), CustomError>)
    ensures
        old(ctx).emergency_error() matches Some(e) ==> result == Err::<(), CustomError>(e),
        old(ctx).emergency_error() is None ==> result is Ok,
        result is Err ==> *final(ctx) == *old(ctx),
        result is Ok ==> final(ctx).option_contract == unlocked_record(old(ctx).option_contract),
        result is Ok ==> final(ctx).user_account@ == account_without_position(
            old(ctx).user_account@,
            old(ctx).option_contract.key,
            old(ctx).user_account.reward_balance,
        ),
        result is Ok ==> final(ctx).staking_pool == pool_with_total(
            old(ctx).staking_pool,
            (old(ctx).staking_pool.total_staked - 1) as u64,
        ),
        result is Ok ==> final(ctx).staking_pool.total_staked + 1 == old(
            ctx,
        ).staking_pool.total_staked,
        result is Ok ==> final(ctx).staking_pool.rate_in_step(),
        result is Ok ==> !final(ctx).user_account@.staked_options.contains(
            old(ctx).option_contract.key,
        ),
        old(ctx).user_account@.types_valid() ==> final(ctx).user_account@.types_valid(),
        old(ctx).user_account@.types_aligned() ==> final(ctx).user_account@.types_aligned(),
        result is Ok && old(ctx).user_account@.types_aligned() ==> positions(
            final(ctx).user_account@.staked_options,
            final(ctx).user_account@.option_types,
        ) == positions(
            old(ctx).user_account@.staked_options,
            old(ctx).user_account@.option_types,
        ).filter(position_other_than(old(ctx).option_contract.key)),
        old(ctx).user_account@.ids_unique() ==> final(ctx).user_account@.ids_unique(),
{
    proof {
        lemma_without_key(ctx.user_account@.staked_options, ctx.option_contract.key);
        if ctx.user_account@.ids_unique() {
            lemma_without_key_keeps_unique(
                ctx.user_account@.staked_options,
                ctx.option_contract.key,
            );
        }
        if ctx.user_account@.types_valid() {
            lemma_types_without_key_keeps_valid(
                ctx.user_account@.staked_options,
                ctx.user_account@.option_types,
                ctx.option_contract.key,
            );
        }
        if ctx.user_account@.types_aligned() {
            lemma_removal_keeps_pairs(
                ctx.user_account@.staked_options,
                ctx.user_account@.option_types,
                ctx.option_contract.key,
            );
            lemma_removal_keeps_aligned(
                ctx.user_account@.staked_options,
                ctx.user_account@.option_types,
                ctx.option_contract.key,
            );
        }
    }
    let new_total: u64 = match ctx.staking_pool.total_staked.checked_sub(1) {
        Some(total) => total,
        None => {
            return Err(CustomError::ArithmeticError);
        },
    };
    let kept_options: Vec<Pubkey> = remove_key(
        &ctx.user_account.staked_options,
        ctx.option_contract.key,
    );
    let kept_types: Vec<u8> = remove_types_of_key(
        &ctx.user_account.staked_options,
        &ctx.user_account.option_types,
        ctx.option_contract.key,
    );
    ctx.option_contract.contract.locked = false;
    ctx.user_account.staked_options = kept_options;
    ctx.user_account.option_types = kept_types;
    ctx.staking_pool.total_staked = new_total;
    let _ = update_reward_rate(&mut ctx.staking_pool);
    Ok(())
}

} // verus!
