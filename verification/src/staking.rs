//! The staking module: a stake record with its reward clock, apart from the ledger.

use crate::error::PortfolioError;
use crate::model::{StakeView, UserStake};
use vstd::prelude::*;

verus! {

/// The divisor of the reward formula: a reward rate counts per million seconds staked.
pub const REWARD_RATE_SCALE: u64 = 1_000_000;

/// A stake that awaits the token transfer service: the quantity that the service has
/// to move into the pool, and what the stake record held before, so that the stake can
/// be taken back if the service fails.
#[derive(Clone, Copy, Debug, PartialEq, Eq, Structural)]
pub struct PendingStake {
    /// The quantity that the token transfer service has to move.
    pub amount: u64,
    /// The staked quantity before the stake was added.
    pub prior_amount: u64,
    /// The time of the last reward claim before the stake was added.
    pub prior_claim_timestamp: i64,
}

impl PendingStake {
    /// The record describes a stake of `amount` units added to `before`.
    pub open spec fn records(self, before: StakeView, amount: nat) -> bool {
        &&& self.amount == amount
        &&& self.prior_amount == before.amount
        &&& self.prior_claim_timestamp == before.last_reward_claim_timestamp
    }
}

impl StakeView {
    /// Adding `amount` units at time `now`: the staked quantity grows and the reward
    /// clock starts anew.
    pub open spec fn stake_tokens(self, amount: nat, now: int) -> Result<StakeView, PortfolioError> {
        if self.amount + amount > u64::MAX {
            Err(PortfolioError::ArithmeticOverflow)
        } else {
            Ok(StakeView { amount: self.amount + amount, last_reward_claim_timestamp: now, ..self })
        }
    }

    /// The stake record with a stake taken back.
    pub open spec fn rolled_back(self, pending: PendingStake) -> StakeView {
        StakeView {
            amount: pending.prior_amount as nat,
            last_reward_claim_timestamp: pending.prior_claim_timestamp as int,
            ..self
        }
    }

    /// The seconds from the last reward claim to `now`.
    pub open spec fn staking_duration(self, now: int) -> int {
        now - self.last_reward_claim_timestamp
    }

    /// The reward for the time staked up to `now`: `reward_rate` for every million
    /// seconds, rounded down.
    pub open spec fn staking_reward(self, reward_rate: nat, now: int) -> int {
        reward_rate * self.staking_duration(now) / (REWARD_RATE_SCALE as int)
    }

    /// Distributing rewards at time `now`: the reward clock starts anew. The staked
    /// quantity stays as it is: the reward is computed and credited nowhere. A clock
    /// that ran backwards and a reward beyond the unsigned 64-bit range are refused.
    pub open spec fn distribute_staking_rewards(self, reward_rate: nat, now: int) -> Result<
        StakeView,
        PortfolioError,
    > {
        if self.staking_duration(now) < 0 || self.staking_reward(reward_rate, now) > u64::MAX {
            Err(PortfolioError::ArithmeticOverflow)
        } else {
            Ok(StakeView { last_reward_claim_timestamp: now, ..self })
        }
    }
}

/// Adds `amount` to the staked quantity and sets the time of the last reward claim to
/// `now`. The returned record is what the token transfer service has to carry out; its
/// outcome goes to [`settle_stake`].
pub fn stake_tokens(user_stake: &mut UserStake, amount: u64, now: i64) -> (outcome: Result<
    PendingStake,
    PortfolioError,
>)
    ensures
        match old(user_stake)@.stake_tokens(amount as nat, now as int) {
            Ok(next) => {
                &&& final(user_stake)@ == next
                &&& outcome matches Ok(pending)
                &&& pending.records(old(user_stake)@, amount as nat)
                &&& next.rolled_back(pending) == old(user_stake)@
            },
            Err(e) => final(user_stake)@ == old(user_stake)@ && outcome == Err::<
                PendingStake,
                PortfolioError,
            >(e),
        },
{
    if amount > u64::MAX - user_stake.amount {
        return Err(PortfolioError::ArithmeticOverflow);
    }
    let pending = PendingStake {
        amount,
        prior_amount: user_stake.amount,
        prior_claim_timestamp: user_stake.last_reward_claim_timestamp,
    };
    user_stake.amount = user_stake.amount + amount;
    user_stake.last_reward_claim_timestamp = now;
    Ok(pending)
}

/// Closes a pending stake with what the token transfer service reported. A delivered
/// transfer leaves the stake record as the stake left it. A failed one takes the stake
/// back and is reported as [`PortfolioError::ExternalEffectFailed`].
pub fn settle_stake(user_stake: &mut UserStake, pending: PendingStake, delivered: bool) -> (outcome:
    Result<(), PortfolioError>)
    ensures
        delivered ==> outcome is Ok && final(user_stake)@ == old(user_stake)@,
        !delivered ==> outcome == Err::<(), PortfolioError>(PortfolioError::ExternalEffectFailed)
            && final(user_stake)@ == old(user_stake)@.rolled_back(pending),
{
    if delivered {
        return Ok(());
    }
    user_stake.amount = pending.prior_amount;
    user_stake.last_reward_claim_timestamp = pending.prior_claim_timestamp;
    Err(PortfolioError::ExternalEffectFailed)
}

/// Computes the reward for the time staked since the last claim and sets the time of
/// the last claim to `now`. The reward is returned to the caller and credited to no
/// record.
pub fn distribute_staking_rewards(user_stake: &mut UserStake, reward_rate: u64, now: i64) -> (outcome:
    Result<u64, PortfolioError>)
    ensures
        match old(user_stake)@.distribute_staking_rewards(reward_rate as nat, now as int) {
            Ok(next) => {
                &&& final(user_stake)@ == next
                &&& outcome matches Ok(reward)
                &&& reward == old(user_stake)@.staking_reward(reward_rate as nat, now as int)
            },
            Err(e) => final(user_stake)@ == old(user_stake)@ && outcome == Err::<
                u64,
                PortfolioError,
            >(e),
        },
{
    let elapsed: i128 = now as i128 - user_stake.last_reward_claim_timestamp as i128;
    if elapsed < 0 {
        return Err(PortfolioError::ArithmeticOverflow);
    }
    let duration = elapsed as u128;
    assert(reward_rate * duration <= 0xffff_ffff_ffff_ffff * 0xffff_ffff_ffff_ffff) by (nonlinear_arith)
        requires
            reward_rate <= 0xffff_ffff_ffff_ffff,
            duration <= 0xffff_ffff_ffff_ffff,
    ;
    let reward: u128 = (reward_rate as u128) * duration / (REWARD_RATE_SCALE as u128);
    if reward > u64::MAX as u128 {
        return Err(PortfolioError::ArithmeticOverflow);
    }
    user_stake.last_reward_claim_timestamp = now;
    Ok(reward as u64)
}

} // verus!
