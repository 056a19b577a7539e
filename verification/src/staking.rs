//! The staking subsystem: stake records, delegation kinds, slashing, and
//! the staking contract over a balance book of stakes.

use vstd::prelude::*;
use crate::errors::{TribeError, TribeResult};
use crate::ledger::{bal, BalanceBook};

verus! {

use vstd::string::{StringExecFns, StrSliceExecFns};

/// The delegation actions a staker can take.
#[derive(Debug)]
pub enum DelegationType {
    Delegate,
    Undelegate,
    Redelegate { from_validator: String },
    ClaimRewards,
}

/// Why a validator was slashed.
#[derive(Debug)]
pub enum SlashingReason {
    DoubleSign,
    Downtime,
    InvalidBehavior,
    MissedBlocks(u32),
}

/// One staker's position.
#[derive(Debug, Clone)]
pub struct StakeInfo {
    pub amount: u64,
    pub staked_at: u64,
    pub duration: u64,
    pub rewards_claimed: u64,
}

/// A staking contract: a validator, a minimum stake, a reward rate in
/// permille per year, and the book of stakes.
#[derive(Debug)]
pub struct StakingContract {
    pub token_id: String,
    pub validator: String,
    pub min_stake: u64,
    pub reward_rate_permille: u64,
    pub total_staked: u64,
    pub stakes: BalanceBook,
    pub is_active: bool,
}

impl StakingContract {
    /// The book of stakes is well formed.
    pub open spec fn wf(&self) -> bool {
        self.stakes.wf()
    }

    /// Opens a staking contract. Rejected for an empty token or validator
    /// identifier, or a zero minimum stake.
    pub fn new(token_id: String, validator: String, min_stake: u64, reward_rate_permille: u64) -> (r:
        TribeResult<StakingContract>)
        ensures
            r is Ok <==> (token_id@.len() > 0 && validator@.len() > 0 && min_stake > 0),
            r matches Ok(c) ==> {
                &&& c.wf()
                &&& c.token_id == token_id
                &&& c.validator == validator
                &&& c.min_stake == min_stake
                &&& c.reward_rate_permille == reward_rate_permille
                &&& c.total_staked == 0
                &&& c.is_active
            },
    {
        if token_id.as_str().is_empty() || validator.as_str().is_empty() {
            return Err(TribeError::InvalidOperation(String::from_str(
                "token and validator identifiers cannot be empty",
            )));
        }
        if min_stake == 0 {
            return Err(TribeError::InvalidOperation(String::from_str(
                "minimum stake must be positive",
            )));
        }
        Ok(
            StakingContract {
                token_id,
                validator,
                min_stake,
                reward_rate_permille,
                total_staked: 0,
                stakes: BalanceBook::new(),
                is_active: true,
            },
        )
    }

    /// Stakes an amount for a staker: accepted exactly when the contract
    /// is active, the amount reaches the minimum, and the totals stay
    /// within the machine word.
    pub fn stake(&mut self, staker: &str, amount: u64) -> (r: TribeResult<()>)
        requires
            old(self).wf(),
        ensures
            final(self).wf(),
            r is Ok <==> (old(self).is_active && amount >= old(self).min_stake && old(
                self,
            ).total_staked + amount <= u64::MAX && bal(old(self).stakes.view(), staker@) + amount
                <= u64::MAX),
            r is Ok ==> final(self).total_staked == old(self).total_staked + amount,
            r is Ok ==> final(self).stakes.view() == old(self).stakes.view().insert(
                staker@,
                (bal(old(self).stakes.view(), staker@) + amount) as u64,
            ),
            r is Err ==> *final(self) == *old(self),
    {
        if !self.is_active {
            return Err(TribeError::InvalidOperation(String::from_str(
                "staking contract is closed",
            )));
        }
        if amount < self.min_stake {
            return Err(TribeError::InvalidOperation(String::from_str(
                "amount below the minimum stake",
            )));
        }
        let new_total = match self.total_staked.checked_add(amount) {
            Some(t) => t,
            None => {
                return Err(TribeError::InvalidOperation(String::from_str(
                    "total stake overflow",
                )));
            },
        };
        let current = self.stakes.get(staker);
        match current.checked_add(amount) {
            Some(_) => {},
            None => {
                return Err(TribeError::InvalidOperation(String::from_str(
                    "staker position overflow",
                )));
            },
        }
        self.total_staked = new_total;
        self.stakes.credit(staker, amount);
        Ok(())
    }

    /// Withdraws part of a staker's position: accepted exactly when the
    /// position covers the amount.
    pub fn unstake(&mut self, staker: &str, amount: u64) -> (r: TribeResult<()>)
        requires
            old(self).wf(),
        ensures
            final(self).wf(),
            r is Ok <==> amount <= bal(old(self).stakes.view(), staker@),
            r is Ok ==> final(self).stakes.view() == old(self).stakes.view().insert(
                staker@,
                (bal(old(self).stakes.view(), staker@) - amount) as u64,
            ),
            r is Ok ==> final(self).total_staked as int == (if amount <= old(self).total_staked {
                old(self).total_staked - amount
            } else {
                0int
            }),
            r is Err ==> *final(self) == *old(self),
    {
        let current = self.stakes.get(staker);
        if amount > current {
            return Err(TribeError::InvalidOperation(String::from_str(
                "insufficient staked amount",
            )));
        }
        self.stakes.debit(staker, amount);
        self.total_staked = if amount <= self.total_staked {
            self.total_staked - amount
        } else {
            0
        };
        Ok(())
    }

    /// The staked position of one staker.
    pub fn staked_amount(&self, staker: &str) -> (r: u64)
        requires
            self.wf(),
        ensures
            r == bal(self.stakes.view(), staker@),
    {
        self.stakes.get(staker)
    }

    /// Rewards accrued over a period: the position scaled by the permille
    /// rate, prorated over a 31,536,000-second year, saturating at the
    /// machine word. The rate is bounded at one thousandfold and the
    /// period at a century.
    pub fn calculate_rewards(&self, staker: &str, elapsed_seconds: u64) -> (r: u64)
        requires
            self.wf(),
            self.reward_rate_permille <= 1000000,
            elapsed_seconds <= 3153600000,
        ensures
            ({
                let accrued = bal(self.stakes.view(), staker@) * self.reward_rate_permille / 1000
                    * elapsed_seconds / 31536000;
                r as int == if accrued <= u64::MAX as int {
                    accrued
                } else {
                    u64::MAX as int
                }
            }),
    {
        let position = self.stakes.get(staker);
        proof {
            vstd::arithmetic::mul::lemma_mul_upper_bound(
                position as int,
                u64::MAX as int,
                self.reward_rate_permille as int,
                1000000,
            );
            vstd::arithmetic::div_mod::lemma_div_is_ordered(
                0,
                (position as int) * (self.reward_rate_permille as int),
                1000,
            );
            vstd::arithmetic::div_mod::lemma_div_is_ordered(
                (position as int) * (self.reward_rate_permille as int),
                (u64::MAX as int) * 1000000,
                1000,
            );
            vstd::arithmetic::mul::lemma_mul_upper_bound(
                (position as int) * (self.reward_rate_permille as int) / 1000,
                (u64::MAX as int) * 1000,
                elapsed_seconds as int,
                3153600000,
            );
            vstd::arithmetic::mul::lemma_mul_nonnegative(
                (position as int) * (self.reward_rate_permille as int) / 1000,
                elapsed_seconds as int,
            );
        }
        let yearly = (position as u128) * (self.reward_rate_permille as u128) / 1000;
        let accrued = yearly * (elapsed_seconds as u128) / 31536000;
        if accrued > 0xFFFF_FFFF_FFFF_FFFF {
            u64::MAX
        } else {
            accrued as u64
        }
    }

    /// Closes the contract to new stakes.
    pub fn deactivate(&mut self)
        ensures
            !final(self).is_active,
            final(self).stakes == old(self).stakes,
            final(self).total_staked == old(self).total_staked,
    {
        self.is_active = false;
    }
}

} // verus!
