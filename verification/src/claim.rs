//! Claiming the accumulated reward, as minted tokens or compounded into the pool.

use crate::errors::CustomError;
use crate::identity::Pubkey;
use crate::records::{StakingPool, UserAccount, UserAccountView};
use vstd::prelude::*;

verus! {

/// The records that a claim works on, and the addresses that a mint needs.
#[derive(Debug)]
pub struct ClaimRewards {
    pub user_account: UserAccount,
    pub staking_pool: StakingPool,
    /// Address under which the record store keeps the pool.
    pub staking_pool_key: Pubkey,
    /// Address of the claimant's token account, which receives minted rewards.
    pub reward_token_account: Pubkey,
}

/// A request to the minting authority: mint `amount` reward tokens to
/// `recipient`, authorized on behalf of the pool at `pool` through its
/// delegated signing authority with bump seed `authority_bump`.
#[derive(Clone, Copy, Debug)]
pub struct MintRequest {
    pub amount: u64,
    pub recipient: Pubkey,
    pub pool: Pubkey,
    pub authority_bump: u8,
}

/// What a successful claim asks of its caller.
#[derive(Clone, Copy, Debug)]
pub enum ClaimOutcome {
    /// The reward went into the pool's reserve; nothing is left to do.
    Compounded,
    /// The reward is to be minted as the request says.
    Mint(MintRequest),
}

impl ClaimRewards {
    /// The error with which a claim is rejected, or `None` where it goes
    /// through: there must be a reward to claim, and where it is compounded
    /// the pool's reserve must have room for it.
    pub open spec fn claim_error(self, compound_rewards: bool) -> Option<CustomError> {
        if self.user_account.reward_balance == 0 {
            Some(CustomError::NoRewardsToClaim)
        } else if compound_rewards && self.staking_pool.reward_pool
            + self.user_account.reward_balance > u64::MAX {
            Some(CustomError::ArithmeticError)
        } else {
            None
        }
    }

    /// The request that a claim without compounding hands to the minting authority.
    pub open spec fn mint_request(self) -> MintRequest {
        MintRequest {
            amount: self.user_account.reward_balance,
            recipient: self.reward_token_account,
            pool: self.staking_pool_key,
            authority_bump: self.staking_pool.pool_authority_bump,
        }
    }
}

/// Claims the whole reward balance of the account.
///
/// With `compound_rewards` the balance is added to the pool's reserve.
/// Without it the pool stays as it is and the result is the request to mint
/// the balance, which the caller hands to the minting authority. Either way
/// the account's balance is zero afterwards and the rest of the account is
/// unchanged. On any error no record changes.
pub fn claim_rewards(ctx: &mut ClaimRewards, compound_rewards: bool) -> (result: Result<
    ClaimOutcome,
    CustomError,
>)
    ensures
        old(ctx).claim_error(compound_rewards) matches Some(e) ==> result == Err::<
            ClaimOutcome,
            CustomError,
        >(e),
        old(ctx).claim_error(compound_rewards) is None ==> result is Ok,
        result is Err ==> *final(ctx) == *old(ctx),
        result is Ok ==> final(ctx).user_account.reward_balance == 0,
        result is Ok ==> final(ctx).user_account@ == (UserAccountView {
            reward_balance: 0,
            ..old(ctx).user_account@
        }),
        result is Ok ==> final(ctx).staking_pool_key == old(ctx).staking_pool_key,
        result is Ok ==> final(ctx).reward_token_account == old(ctx).reward_token_account,
        result is Ok && compound_rewards ==> result == Ok::<ClaimOutcome, CustomError>(
            ClaimOutcome::Compounded,
        ) && final(ctx).staking_pool == (StakingPool {
            reward_pool: (old(ctx).staking_pool.reward_pool + old(
                ctx,
            ).user_account.reward_balance) as u64,
            ..old(ctx).staking_pool
        }),
        result is Ok && !compound_rewards ==> result == Ok::<ClaimOutcome, CustomError>(
            ClaimOutcome::Mint(old(ctx).mint_request()),
        ) && final(ctx).staking_pool == old(ctx).staking_pool,
        result is Ok ==> final(ctx).staking_pool.total_staked == old(ctx).staking_pool.total_staked,
{
    let amount_to_claim: u64 = ctx.user_account.reward_balance;
    if amount_to_claim == 0 {
        return Err(CustomError::NoRewardsToClaim);
    }
    if compound_rewards {
        let new_reserve: u64 = match ctx.staking_pool.reward_pool.checked_add(amount_to_claim) {
            Some(reserve) => reserve,
            None => {
                return Err(CustomError::ArithmeticError);
            },
        };
        ctx.staking_pool.reward_pool = new_reserve;
        ctx.user_account.reward_balance = 0;
        Ok(ClaimOutcome::Compounded)
    } else {
        let request = MintRequest {
            amount: amount_to_claim,
            recipient: ctx.reward_token_account,
            pool: ctx.staking_pool_key,
            authority_bump: ctx.staking_pool.pool_authority_bump,
        };
        ctx.user_account.reward_balance = 0;
        Ok(ClaimOutcome::Mint(request))
    }
}

} // verus!
