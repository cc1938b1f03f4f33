//! The per-participant record, its stored form and its read-only projection.

use vstd::prelude::*;
use vstd::std_specs::convert::FromSpecImpl;
use crate::error::StakingError;
use crate::types::{AccountId, Balance, BlockHeight, EpochHeight, Timestamp};

verus! {

/// Number of epochs for which unstaked principal stays locked.
pub const NUM_EPOCHS_TO_UNLOCK: EpochHeight = 1;

/// One participant's balances.
#[derive(Clone, Copy, Debug, PartialEq, Eq, Structural)]
pub struct Account {
    /// Active principal. Only this balance earns reward.
    pub stake_balance: Balance,
    /// Reward realized into the account and not yet paid out.
    pub paid_reward_balance: Balance,
    /// Principal that has left `unstake_balance` with an outgoing transfer.
    pub total_stake_balance: Balance,
    /// Reward that has left `paid_reward_balance` with an outgoing transfer.
    pub total_paid_reward_balance: Balance,
    pub total_staker: Balance,
    /// Height from which `stake_balance` has been earning reward.
    pub last_block_balance_change: BlockHeight,
    /// Principal taken out of the stake. It earns nothing and is locked until
    /// `unstake_available_epoch`.
    pub unstake_balance: Balance,
    /// Wall time of the latest unstake request.
    pub unstake_start_timestamp: Timestamp,
    /// First epoch at which `unstake_balance` may be withdrawn.
    pub unstake_available_epoch: EpochHeight,
    pub new_account_data: u128,
}

impl Account {
    /// The record of a participant who has just registered at `height`.
    pub open spec fn opened_at(height: BlockHeight) -> Account {
        Account {
            stake_balance: 0,
            paid_reward_balance: 0,
            total_stake_balance: 0,
            total_paid_reward_balance: 0,
            total_staker: 0,
            last_block_balance_change: height,
            unstake_balance: 0,
            unstake_start_timestamp: 0,
            unstake_available_epoch: 0,
            new_account_data: 0,
        }
    }

    /// Whether the unstaked balance may be withdrawn at `epoch`.
    pub open spec fn unlocked_at(self, epoch: EpochHeight) -> bool {
        self.unstake_available_epoch <= epoch
    }

    /// This account after a deposit of `amount` at `height`, with `reward`
    /// accrued since the last checkpoint.
    pub open spec fn staked(
        self,
        amount: Balance,
        reward: Balance,
        height: BlockHeight,
    ) -> Account {
        Account {
            stake_balance: (self.stake_balance + amount) as u128,
            paid_reward_balance: (self.paid_reward_balance + reward) as u128,
            last_block_balance_change: height,
            ..self
        }
    }

    /// This account after `amount` has left the stake at `height`, together
    /// with the `reward` accrued since the last checkpoint, which is realized.
    pub open spec fn unstaked(
        self,
        amount: Balance,
        reward: Balance,
        height: BlockHeight,
        timestamp: Timestamp,
        epoch: EpochHeight,
    ) -> Account {
        Account {
            stake_balance: (self.stake_balance - amount - reward) as u128,
            paid_reward_balance: (self.paid_reward_balance + reward) as u128,
            last_block_balance_change: height,
            unstake_balance: (self.unstake_balance + amount) as u128,
            unstake_start_timestamp: timestamp,
            unstake_available_epoch: (epoch + NUM_EPOCHS_TO_UNLOCK) as u64,
            ..self
        }
    }

    /// This account after its whole unstaked balance has been sent out.
    pub open spec fn withdrawn(self) -> Account {
        Account {
            unstake_balance: 0,
            unstake_start_timestamp: 0,
            unstake_available_epoch: 0,
            total_stake_balance: (self.total_stake_balance + self.unstake_balance) as u128,
            ..self
        }
    }

    /// This account after its whole realized reward has been sent out.
    pub open spec fn harvested(self) -> Account {
        Account {
            paid_reward_balance: 0,
            total_paid_reward_balance: (self.total_paid_reward_balance
                + self.paid_reward_balance) as u128,
            ..self
        }
    }

    /// This account after `reward` has been folded into its stake at `height`.
    pub open spec fn restaked(self, reward: Balance, height: BlockHeight) -> Account {
        Account {
            stake_balance: (self.stake_balance + reward) as u128,
            last_block_balance_change: height,
            ..self
        }
    }
}

/// An account as it is stored: tagged with the layout it was written in, so
/// that records of an older layout can still be read after the layout changes.
#[derive(Clone, Copy, Debug, PartialEq, Eq, Structural)]
pub enum UpgradableAccount {
    Current(Account),
}

impl From<Account> for UpgradableAccount {
    fn from(account: Account) -> (stored: Self)
    {
        UpgradableAccount::Current(account)
    }
}

impl FromSpecImpl<Account> for UpgradableAccount {
    open spec fn obeys_from_spec() -> bool {
        true
    }

    open spec fn from_spec(account: Account) -> Self {
        UpgradableAccount::Current(account)
    }
}

impl From<UpgradableAccount> for Account {
    fn from(account: UpgradableAccount) -> (current: Self)
    {
        match account {
            UpgradableAccount::Current(account) => account,
        }
    }
}

impl FromSpecImpl<UpgradableAccount> for Account {
    open spec fn obeys_from_spec() -> bool {
        true
    }

    open spec fn from_spec(account: UpgradableAccount) -> Self {
        match account {
            UpgradableAccount::Current(account) => account,
        }
    }
}

/// What a query reports of an account.
#[derive(Debug)]
pub struct AccountJson {
    pub account_id: AccountId,
    /// The account's claim on the pool: its stake and the reward that has
    /// accrued on it since the last checkpoint.
    pub stake_balance: Balance,
    pub unstake_balance: Balance,
    /// The reward that has accrued since the last checkpoint, which is part
    /// of `stake_balance` above and of no stored balance yet.
    pub reward_balance: Balance,
    pub can_withdraw: bool,
    pub unstake_strt_tomstamp: Timestamp,
    pub unstake_start_timestamp: Timestamp,
    pub current_epoch: EpochHeight,
    pub new_account_data: u128,
}

/// An [`AccountJson`] as a mathematical value.
pub struct AccountJsonView {
    pub account_id: Seq<char>,
    pub stake_balance: Balance,
    pub unstake_balance: Balance,
    pub reward_balance: Balance,
    pub can_withdraw: bool,
    pub unstake_strt_tomstamp: Timestamp,
    pub unstake_start_timestamp: Timestamp,
    pub current_epoch: EpochHeight,
    pub new_account_data: u128,
}

impl View for AccountJson {
    type V = AccountJsonView;

    open spec fn view(&self) -> AccountJsonView {
        AccountJsonView {
            account_id: self.account_id@,
            stake_balance: self.stake_balance,
            unstake_balance: self.unstake_balance,
            reward_balance: self.reward_balance,
            can_withdraw: self.can_withdraw,
            unstake_strt_tomstamp: self.unstake_strt_tomstamp,
            unstake_start_timestamp: self.unstake_start_timestamp,
            current_epoch: self.current_epoch,
            new_account_data: self.new_account_data,
        }
    }
}

impl AccountJson {
    /// The projection of `account` at `current_epoch`, given the reward
    /// `new_reward` that has accrued on it; an overflow where the claim does
    /// not fit in 128 bits.
    pub open spec fn from_spec(
        account_id: Seq<char>,
        account: Account,
        new_reward: Balance,
        current_epoch: EpochHeight,
    ) -> Result<AccountJsonView, StakingError> {
        if account.stake_balance + new_reward > u128::MAX {
            Err(StakingError::Overflow)
        } else {
            Ok(
                AccountJsonView {
                    account_id,
                    stake_balance: (account.stake_balance + new_reward) as u128,
                    unstake_balance: account.unstake_balance,
                    reward_balance: new_reward,
                    can_withdraw: account.unlocked_at(current_epoch),
                    unstake_strt_tomstamp: account.unstake_start_timestamp,
                    unstake_start_timestamp: account.unstake_start_timestamp,
                    current_epoch,
                    new_account_data: account.new_account_data,
                },
            )
        }
    }

    /// Projects `account` for a query made at `current_epoch`, with the reward
    /// `new_reward` that has accrued on it and is not yet stored.
    pub fn from(
        account_id: AccountId,
        account: Account,
        new_reward: Balance,
        current_epoch: EpochHeight,
    ) -> (json: Result<Self, StakingError>)
        ensures
            match json {
                Ok(json) => Ok(json@),
                Err(e) => Err(e),
            } == Self::from_spec(account_id@, account, new_reward, current_epoch),
    {
        match account.stake_balance.checked_add(new_reward) {
            None => Err(StakingError::Overflow),
            Some(claim) => Ok(
                AccountJson {
                    account_id,
                    stake_balance: claim,
                    unstake_balance: account.unstake_balance,
                    reward_balance: new_reward,
                    can_withdraw: account.unstake_available_epoch <= current_epoch,
                    unstake_strt_tomstamp: account.unstake_start_timestamp,
                    unstake_start_timestamp: account.unstake_start_timestamp,
                    current_epoch,
                    new_account_data: account.new_account_data,
                },
            ),
        }
    }
}

} // verus!
