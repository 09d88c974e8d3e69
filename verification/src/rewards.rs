//! The reward model, the pool-wide rate controller and the early-exit penalty.

use crate::errors::CustomError;
use crate::records::StakingPool;
use vstd::prelude::*;

verus! {

/// Seconds in one reward month of thirty days.
pub const SECONDS_IN_MONTH: u64 = 2_592_000;

/// Whole months beyond which the bonus grows no further.
pub const MAX_BONUS_MONTHS: u64 = 6;

/// Whole thirty-day months contained in `duration` seconds.
pub open spec fn months_staked(duration: nat) -> nat {
    duration / (SECONDS_IN_MONTH as nat)
}

/// The tier bonus: one, plus one for each whole month staked, at most seven.
pub open spec fn bonus_multiplier(duration: nat) -> nat {
    if months_staked(duration) < MAX_BONUS_MONTHS {
        1 + months_staked(duration)
    } else {
        1 + MAX_BONUS_MONTHS as nat
    }
}

/// The reward before the range of `u64` is taken into account.
pub open spec fn unclamped_reward(duration: nat, rate: nat) -> nat {
    duration * rate * bonus_multiplier(duration)
}

/// The tiered reward: the product of duration, rate and bonus where that
/// fits in a `u64`, and zero where it does not.
pub open spec fn tiered_reward(duration: nat, rate: nat) -> nat {
    if unclamped_reward(duration, rate) <= u64::MAX {
        unclamped_reward(duration, rate)
    } else {
        0
    }
}

/// The bonus is one in the first month and grows by one at each further
/// thirty-day boundary, up to the sixth: a stake in month `k`, counted from
/// zero, has the bonus `k + 1`.
pub proof fn lemma_bonus_multiplier_tier(duration: nat, k: nat)
    requires
        k < MAX_BONUS_MONTHS,
        k * SECONDS_IN_MONTH <= duration < (k + 1) * SECONDS_IN_MONTH,
    ensures
        bonus_multiplier(duration) == k + 1,
{
}

/// From the sixth thirty-day boundary on the bonus is seven, and it is never more.
pub proof fn lemma_bonus_multiplier_cap(duration: nat)
    ensures
        1 <= bonus_multiplier(duration) <= 1 + MAX_BONUS_MONTHS,
        duration >= MAX_BONUS_MONTHS * SECONDS_IN_MONTH ==> bonus_multiplier(duration) == 1
            + MAX_BONUS_MONTHS,
{
}

/// A longer stake never has a smaller bonus.
pub proof fn lemma_bonus_multiplier_monotonic(shorter: nat, longer: nat)
    requires
        shorter <= longer,
    ensures
        bonus_multiplier(shorter) <= bonus_multiplier(longer),
{
}

/// Before clamping, the reward never falls as the duration grows at a fixed rate.
pub proof fn lemma_unclamped_reward_monotonic(shorter: nat, longer: nat, rate: nat)
    requires
        shorter <= longer,
    ensures
        unclamped_reward(shorter, rate) <= unclamped_reward(longer, rate),
{
    lemma_bonus_multiplier_monotonic(shorter, longer);
    let b1 = bonus_multiplier(shorter);
    let b2 = bonus_multiplier(longer);
    assert(shorter * rate * b1 <= longer * rate * b2) by (nonlinear_arith)
        requires
            shorter <= longer,
            b1 <= b2,
    ;
}

/// At a fixed rate the tiered reward never falls as the duration grows, as
/// long as the reward of the longer stake is not clamped. Where it is
/// clamped, it is zero, and the statement holds only if the reward of the
/// shorter stake is zero too.
pub proof fn lemma_tiered_reward_monotonic(shorter: nat, longer: nat, rate: nat)
    requires
        shorter <= longer,
        unclamped_reward(longer, rate) <= u64::MAX || tiered_reward(shorter, rate) == 0,
    ensures
        tiered_reward(shorter, rate) <= tiered_reward(longer, rate),
{
    lemma_unclamped_reward_monotonic(shorter, longer, rate);
}

/// Multiplying by the bonus, which is at least one, never makes a product smaller.
proof fn lemma_product_at_least_base(base: nat, bonus: nat)
    requires
        bonus >= 1,
    ensures
        base * bonus >= base,
{
    assert(base * bonus >= base) by (nonlinear_arith)
        requires
            bonus >= 1,
    ;
}

/// Computes the tiered reward for a stake of `stake_duration` seconds at
/// `reward_rate`. The lock period plays no part in the amount.
pub fn calculate_tiered_rewards(stake_duration: u64, reward_rate: u64, _lock_period: u64) -> (reward:
    u64)
    ensures
        reward == tiered_reward(stake_duration as nat, reward_rate as nat),
{
    let months: u64 = stake_duration / SECONDS_IN_MONTH;
    let capped: u64 = if months < MAX_BONUS_MONTHS {
        months
    } else {
        MAX_BONUS_MONTHS
    };
    let bonus: u64 = 1 + capped;
    assert(bonus == bonus_multiplier(stake_duration as nat));
    match stake_duration.checked_mul(reward_rate) {
        Some(base) => match base.checked_mul(bonus) {
            Some(reward) => reward,
            None => 0,
        },
        None => {
            proof {
                lemma_product_at_least_base((stake_duration * reward_rate) as nat, bonus as nat);
            }
            0
        },
    }
}

/// Rate that applies while the pool is below its staking threshold, before decay.
pub const BASE_REWARD_RATE: u64 = 100;

/// Number of staked positions from which the rate no longer decays.
pub const MAX_STAKED_THRESHOLD: u64 = 1000;

/// The pool-wide reward rate for `total_staked` locked positions: the base
/// rate less one for every ten positions, and half the base rate from the
/// threshold on.
pub open spec fn reward_rate_for(total_staked: nat) -> nat {
    if total_staked < MAX_STAKED_THRESHOLD {
        (BASE_REWARD_RATE - total_staked / 10) as nat
    } else {
        (BASE_REWARD_RATE / 2) as nat
    }
}

/// The reward rate is never below one nor above the base rate.
pub proof fn lemma_reward_rate_range(total_staked: nat)
    ensures
        1 <= reward_rate_for(total_staked) <= BASE_REWARD_RATE,
{
}

/// The pool with `total_staked` replaced and the reward rate brought in step with it.
pub open spec fn pool_with_total(pool: StakingPool, total_staked: u64) -> StakingPool {
    StakingPool {
        total_staked,
        reward_rate: reward_rate_for(total_staked as nat) as u64,
        ..pool
    }
}

impl StakingPool {
    /// The reward rate is the one that the rate controller gives for `total_staked`.
    pub open spec fn rate_in_step(self) -> bool {
        self.reward_rate == reward_rate_for(self.total_staked as nat)
    }
}

/// Recomputes the pool's reward rate from its count of staked positions.
/// Nothing else in the pool changes, and the computation cannot fail.
pub fn update_reward_rate(staking_pool: &mut StakingPool) -> (result: Result<(), CustomError>)
    ensures
        result is Ok,
        *final(staking_pool) == pool_with_total(*old(staking_pool), old(staking_pool).total_staked),
        final(staking_pool).reward_rate == reward_rate_for(old(staking_pool).total_staked as nat),
        final(staking_pool).rate_in_step(),
{
    let rate: u64 = if staking_pool.total_staked < MAX_STAKED_THRESHOLD {
        match BASE_REWARD_RATE.checked_sub(staking_pool.total_staked / 10) {
            Some(rate) => rate,
            None => {
                return Err(CustomError::ArithmeticError);
            },
        }
    } else {
        BASE_REWARD_RATE / 2
    };
    staking_pool.reward_rate = rate;
    Ok(())
}

/// The share of the balance, in percent, that an early exit at
/// `penalty_rate` percent leaves: what is missing to a hundred, and nothing
/// where the rate is a hundred or more.
pub open spec fn kept_percent(penalty_rate: nat) -> nat {
    if penalty_rate <= 100 {
        (100 - penalty_rate) as nat
    } else {
        0
    }
}

/// The balance that is left after an early exit at `penalty_rate` percent,
/// rounded down.
pub open spec fn penalized_balance(reward_balance: nat, penalty_rate: nat) -> nat {
    reward_balance * kept_percent(penalty_rate) / 100
}

/// The penalty never adds to a balance, and a rate of a hundred percent or
/// more leaves nothing.
pub proof fn lemma_penalized_balance_range(reward_balance: nat, penalty_rate: nat)
    ensures
        penalized_balance(reward_balance, penalty_rate) <= reward_balance,
        penalty_rate >= 100 ==> penalized_balance(reward_balance, penalty_rate) == 0,
        penalty_rate == 0 ==> penalized_balance(reward_balance, penalty_rate) == reward_balance,
{
    let kept = kept_percent(penalty_rate);
    assert(reward_balance * kept <= reward_balance * 100) by (nonlinear_arith)
        requires
            kept <= 100,
    ;
    if penalty_rate >= 100 {
        assert(reward_balance * kept == 0) by (nonlinear_arith)
            requires
                kept == 0,
        ;
    }
}

/// Applies the early-exit penalty to `reward_balance`, rounding down. The
/// rate is subtracted from a hundred saturating, so every rate is taken and
/// one above a hundred leaves a balance of zero.
pub fn apply_early_unstaking_penalty(reward_balance: u64, penalty_rate: u64) -> (balance: u64)
    ensures
        balance == penalized_balance(reward_balance as nat, penalty_rate as nat),
        balance <= reward_balance,
        penalty_rate >= 100 ==> balance == 0,
{
    proof {
        lemma_penalized_balance_range(reward_balance as nat, penalty_rate as nat);
    }
    let kept: u128 = 100u64.saturating_sub(penalty_rate) as u128;
    let wide: u128 = reward_balance as u128;
    assert(wide * kept <= wide * 100) by (nonlinear_arith)
        requires
            kept <= 100,
    ;
    let scaled: u128 = wide * kept / 100;
    scaled as u64
}

} // verus!
