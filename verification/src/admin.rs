//! Changing the pool's parameters, which only its admin may do.

use crate::errors::CustomError;
use crate::identity::Pubkey;
use crate::records::StakingPool;
use vstd::prelude::*;

verus! {

/// The records that a change of parameters works on, and the caller who asks for it.
#[derive(Clone, Copy, Debug)]
pub struct UpdateStakingParams {
    pub staking_pool: StakingPool,
    /// The authenticated identity of the caller.
    pub admin: Pubkey,
}

/// Sets the pool's reward rate and early-exit penalty rate to the values
/// given, if the caller is the pool's admin. Nothing else changes; the count
/// of staked positions stays, and the rate set here holds until the next
/// operation that recomputes it. A caller who is not the admin is refused and
/// changes nothing.
pub fn update_staking_params(
    ctx: &mut UpdateStakingParams,
    new_reward_rate: u64,
    new_penalty_rate: u64,
) -> (result: Result<(), CustomError>)
    ensures
        old(ctx).admin != old(ctx).staking_pool.admin ==> result == Err::<(), CustomError>(
            CustomError::Unauthorized,
        ) && *final(ctx) == *old(ctx),
        old(ctx).admin == old(ctx).staking_pool.admin ==> result is Ok && final(ctx).admin == old(
            ctx,
        ).admin && final(ctx).staking_pool == (StakingPool {
            reward_rate: new_reward_rate,
            early_unstake_penalty_rate: new_penalty_rate,
            ..old(ctx).staking_pool
        }),
        final(ctx).staking_pool.total_staked == old(ctx).staking_pool.total_staked,
{
    if ctx.admin != ctx.staking_pool.admin {
        return Err(CustomError::Unauthorized);
    }
    ctx.staking_pool.reward_rate = new_reward_rate;
    ctx.staking_pool.early_unstake_penalty_rate = new_penalty_rate;
    Ok(())
}

} // verus!
