//! The read-only surface: what the ledger reports of an account and of the
//! pool, without changing either.

use vstd::prelude::*;
use crate::account::{Account, AccountJson};
use crate::context::Context;
use crate::error::StakingError;
use crate::types::{AccountId, Balance};
use crate::StakingContract;

verus! {

/// What a query reports of the pool.
#[derive(Clone, Copy, Debug, PartialEq, Eq, Structural)]
pub struct PoolJson {
    pub total_stake_balance: Balance,
    pub total_staker: Balance,
    pub is_paused: bool,
    pub total_paid_reward_balance: Balance,
}

impl StakingContract {
    /// Reports the account of `account_id` as of the height and epoch of
    /// `ctx`: its claim with the reward accrued so far, its unstaked balance
    /// and whether that balance can be withdrawn. A participant without an
    /// account is reported with empty balances.
    pub fn get_account_info(&self, account_id: AccountId, ctx: &Context) -> (info: Result<
        AccountJson,
        StakingError,
    >)
        ensures
            (match info {
                Ok(json) => Ok(json@),
                Err(e) => Err(e),
            }) == self@.account_info(account_id@, ctx.block_index, ctx.epoch_height),
    {
        match self.accounts.get(&account_id) {
            Some(stored) => {
                let account = Account::from(stored);
                match self.internal_caculate_account_reward(&account, ctx) {
                    Err(e) => Err(e),
                    Ok(new_reward) => AccountJson::from(
                        account_id,
                        account,
                        new_reward,
                        ctx.epoch_height,
                    ),
                }
            },
            None => AccountJson::from(
                account_id,
                Account {
                    stake_balance: 0,
                    paid_reward_balance: 0,
                    total_stake_balance: 0,
                    total_paid_reward_balance: 0,
                    total_staker: 0,
                    last_block_balance_change: ctx.block_index,
                    unstake_balance: 0,
                    unstake_start_timestamp: 0,
                    unstake_available_epoch: 0,
                    new_account_data: 0,
                },
                0,
                ctx.epoch_height,
            ),
        }
    }

    /// Reports the claim of `account_id` as of the height of `ctx`: its stake
    /// and the reward accrued on it so far. A participant without an account
    /// has no claim.
    pub fn get_account_staked_balance(
        &self,
        account_id: AccountId,
        ctx: &Context,
    ) -> (claim: Result<Balance, StakingError>)
        ensures
            claim == self@.staked_balance(account_id@, ctx.block_index),
    {
        match self.accounts.get(&account_id) {
            Some(stored) => {
                let account = Account::from(stored);
                match self.internal_caculate_account_reward(&account, ctx) {
                    Err(e) => Err(e),
                    Ok(new_reward) => match new_reward.checked_add(account.stake_balance) {
                        None => Err(StakingError::Overflow),
                        Some(claim) => Ok(claim),
                    },
                }
            },
            None => Ok(0),
        }
    }

    /// Reports the pool's totals and whether it is paused.
    pub fn get_pool_info(&self) -> (info: PoolJson)
        ensures
            info == (PoolJson {
                total_stake_balance: self@.total_stake_balance,
                total_staker: self@.total_staker,
                is_paused: self@.paused,
                total_paid_reward_balance: self@.total_paid_reward_balance,
            }),
    {
        PoolJson {
            total_stake_balance: self.total_stake_balance,
            total_staker: self.total_staker,
            is_paused: self.paused,
            total_paid_reward_balance: self.total_paid_reward_balance,
        }
    }
}

} // verus!
