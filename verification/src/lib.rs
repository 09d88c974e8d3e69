//! Staking ledger and reward accrual for option positions.
//!
//! A participant locks option positions for a chosen duration. The engine
//! tracks the lock state, accrues time-weighted rewards with tier bonuses,
//! applies a penalty on early exit, and lets the participant claim rewards
//! as newly minted tokens or compound them into the pool. The pool-wide
//! reward rate decays as more positions are staked.

pub mod admin;
pub mod batch;
pub mod claim;
pub mod errors;
pub mod identity;
pub mod records;
pub mod rewards;
pub mod stake;
pub mod unstake;

pub use admin::{update_staking_params, UpdateStakingParams};
pub use batch::{
    check_position_key, next_position_to_read, stake_options_in_pool, StakeOptionsInPool,
};
pub use claim::{claim_rewards, ClaimOutcome, ClaimRewards, MintRequest};
pub use errors::CustomError;
pub use identity::Pubkey;
pub use records::{OptionContract, PositionRecord, StakingPool, UserAccount};
pub use rewards::{apply_early_unstaking_penalty, calculate_tiered_rewards, update_reward_rate};
pub use stake::{auto_restake, stake_options, AutoRestake, StakeOptions};
pub use unstake::{emergency_unstake, unstake_options, EmergencyUnstake, UnstakeOptions};
