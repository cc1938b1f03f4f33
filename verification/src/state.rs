//! The ledger as a mathematical value, and each operation as a function from
//! one such value to the next. The executable ledger is specified against
//! these functions.

use vstd::prelude::*;
use crate::account::{Account, AccountJson, AccountJsonView, NUM_EPOCHS_TO_UNLOCK};
use crate::config::Config;
use crate::context::PromiseResult;
use crate::error::StakingError;
use crate::reward::accrue_spec;
use crate::table::{active_stakers, has_id, lookup, put, total_stake, unique_ids, Record};
use crate::types::{Balance, BlockHeight, EpochHeight, Timestamp};

verus! {

/// The whole ledger: the pool's totals, its rate and pause state, and the
/// table of accounts.
pub struct LedgerState {
    pub owner_id: Seq<char>,
    pub ft_contract_id: Seq<char>,
    pub config: Config,
    pub total_stake_balance: Balance,
    pub total_paid_reward_balance: Balance,
    pub total_staker: Balance,
    pub last_block_balance_change: BlockHeight,
    pub accounts: Seq<Record>,
    pub paused: bool,
    pub pause_in_block: BlockHeight,
    pub new_data: u128,
}

impl LedgerState {
    /// No participant has two accounts.
    pub open spec fn well_formed(self) -> bool {
        unique_ids(self.accounts)
    }

    /// The pool's totals agree with the accounts: the total stake is the sum
    /// of the accounts' stakes, and the staker count is the number of accounts
    /// that hold a stake.
    pub open spec fn balanced(self) -> bool {
        &&& self.total_stake_balance == total_stake(self.accounts)
        &&& self.total_staker == active_stakers(self.accounts)
    }

    /// A new ledger at `height`: no accounts, nothing staked, running.
    pub open spec fn init(
        owner_id: Seq<char>,
        ft_contract_id: Seq<char>,
        config: Config,
        height: BlockHeight,
    ) -> LedgerState {
        LedgerState {
            owner_id,
            ft_contract_id,
            config,
            total_stake_balance: 0,
            total_paid_reward_balance: 0,
            total_staker: 0,
            last_block_balance_change: height,
            accounts: Seq::empty(),
            paused: false,
            pause_in_block: 0,
            new_data: 0,
        }
    }

    /// The height up to which reward accrues when the host is at `height`:
    /// the height of the pause while the pool is paused, `height` otherwise.
    pub open spec fn effective_height(self, height: BlockHeight) -> BlockHeight {
        if self.paused {
            self.pause_in_block
        } else {
            height
        }
    }

    /// Reward that `balance` has earned since `checkpoint` when the host is at
    /// `height`.
    pub open spec fn reward_since(
        self,
        balance: Balance,
        checkpoint: BlockHeight,
        height: BlockHeight,
    ) -> Result<Balance, StakingError> {
        if self.effective_height(height) < checkpoint {
            Err(StakingError::HeightRegression)
        } else {
            accrue_spec(balance, self.config, (self.effective_height(height) - checkpoint) as u64)
        }
    }

    /// Reward that `account` has earned and not yet realized.
    pub open spec fn account_reward(self, account: Account, height: BlockHeight) -> Result<
        Balance,
        StakingError,
    > {
        self.reward_since(account.stake_balance, account.last_block_balance_change, height)
    }

    /// Reward that the pool as a whole has earned since its own checkpoint.
    pub open spec fn total_reward(self, height: BlockHeight) -> Result<Balance, StakingError> {
        self.reward_since(self.total_stake_balance, self.last_block_balance_change, height)
    }

    /// Registers `id` at `height`.
    pub open spec fn create_account(self, id: Seq<char>, height: BlockHeight) -> Result<
        LedgerState,
        StakingError,
    > {
        if has_id(self.accounts, id) {
            Err(StakingError::AccountAlreadyExists)
        } else {
            Ok(LedgerState { accounts: put(self.accounts, id, Account::opened_at(height)), ..self })
        }
    }

    /// Stakes `amount` for `id` on behalf of `caller` at `height`.
    pub open spec fn deposit_and_stake(
        self,
        id: Seq<char>,
        amount: Balance,
        caller: Seq<char>,
        height: BlockHeight,
    ) -> Result<LedgerState, StakingError> {
        match lookup(self.accounts, id) {
            None => Err(StakingError::AccountNotFound),
            Some(account) => if self.paused {
                Err(StakingError::Paused)
            } else if self.ft_contract_id != caller {
                Err(StakingError::Unauthorized)
            } else {
                match self.account_reward(account, height) {
                    Err(e) => Err(e),
                    Ok(reward) => {
                        let joins = account.stake_balance == 0 && amount > 0;
                        if account.paid_reward_balance + reward > u128::MAX || account.stake_balance
                            + amount > u128::MAX || self.total_stake_balance + amount > u128::MAX
                            || (joins && self.total_staker + 1 > u128::MAX) {
                            Err(StakingError::Overflow)
                        } else {
                            Ok(
                                LedgerState {
                                    total_stake_balance: (self.total_stake_balance
                                        + amount) as u128,
                                    total_staker: if joins {
                                        (self.total_staker + 1) as u128
                                    } else {
                                        self.total_staker
                                    },
                                    last_block_balance_change: height,
                                    accounts: put(
                                        self.accounts,
                                        id,
                                        account.staked(amount, reward, height),
                                    ),
                                    ..self
                                },
                            )
                        }
                    },
                }
            },
        }
    }

    /// Moves `amount` of the stake of `id` into its locked unstaked balance.
    pub open spec fn unstake(
        self,
        id: Seq<char>,
        amount: Balance,
        height: BlockHeight,
        timestamp: Timestamp,
        epoch: EpochHeight,
    ) -> Result<LedgerState, StakingError> {
        match lookup(self.accounts, id) {
            None => Err(StakingError::AccountNotFound),
            Some(account) => if amount > account.stake_balance {
                Err(StakingError::InsufficientBalance)
            } else {
                match self.account_reward(account, height) {
                    Err(e) => Err(e),
                    Ok(reward) => {
                        let leaves = account.stake_balance > 0 && account.stake_balance == amount
                            + reward;
                        if amount + reward > account.stake_balance {
                            Err(StakingError::InsufficientBalance)
                        } else if account.paid_reward_balance + reward > u128::MAX
                            || account.unstake_balance + amount > u128::MAX || epoch
                            + NUM_EPOCHS_TO_UNLOCK > u64::MAX || amount + reward
                            > self.total_stake_balance || (leaves && self.total_staker == 0) {
                            Err(StakingError::Overflow)
                        } else {
                            Ok(
                                LedgerState {
                                    total_stake_balance: (self.total_stake_balance - amount
                                        - reward) as u128,
                                    total_staker: if leaves {
                                        (self.total_staker - 1) as u128
                                    } else {
                                        self.total_staker
                                    },
                                    last_block_balance_change: height,
                                    accounts: put(
                                        self.accounts,
                                        id,
                                        account.unstaked(amount, reward, height, timestamp, epoch),
                                    ),
                                    ..self
                                },
                            )
                        }
                    },
                }
            },
        }
    }

    /// Takes the whole unstaked balance of `id` out of its account, for a
    /// transfer that is yet to be confirmed. Gives the next ledger and the
    /// account as it was, to restore it if the transfer fails.
    pub open spec fn withdraw(self, id: Seq<char>, amount: Balance, epoch: EpochHeight) -> Result<
        (LedgerState, Account),
        StakingError,
    > {
        match lookup(self.accounts, id) {
            None => Err(StakingError::AccountNotFound),
            Some(account) => if amount > account.unstake_balance {
                Err(StakingError::InsufficientBalance)
            } else if !account.unlocked_at(epoch) {
                Err(StakingError::UnstakeLocked)
            } else if account.total_stake_balance + account.unstake_balance > u128::MAX {
                Err(StakingError::Overflow)
            } else {
                Ok(
                    (
                        LedgerState {
                            accounts: put(self.accounts, id, account.withdrawn()),
                            ..self
                        },
                        account,
                    ),
                )
            },
        }
    }

    /// Takes the whole realized reward of `id` out of its account, for a
    /// transfer that is yet to be confirmed. Gives the next ledger and the
    /// account as it was, to restore it if the transfer fails.
    pub open spec fn harvest(self, id: Seq<char>) -> Result<(LedgerState, Account), StakingError> {
        match lookup(self.accounts, id) {
            None => Err(StakingError::AccountNotFound),
            Some(account) => if account.paid_reward_balance == 0 {
                Err(StakingError::ZeroAmount)
            } else if account.total_paid_reward_balance + account.paid_reward_balance > u128::MAX {
                Err(StakingError::Overflow)
            } else {
                Ok(
                    (
                        LedgerState {
                            accounts: put(self.accounts, id, account.harvested()),
                            ..self
                        },
                        account,
                    ),
                )
            },
        }
    }

    /// Whether `results` is what the host hands to a callback that was
    /// chained to one transfer for an account of this ledger: exactly one
    /// outcome, and a final one.
    pub open spec fn recognizes(self, id: Seq<char>, results: Seq<PromiseResult>) -> bool {
        &&& results.len() == 1
        &&& results[0] != PromiseResult::NotReady
        &&& has_id(self.accounts, id)
    }

    /// Reconciles the ledger with the outcome of the transfer that a
    /// withdrawal of `id` asked for, where `old_account` is the account as it
    /// was before the withdrawal. Gives the next ledger and the amount that
    /// has left it.
    pub open spec fn withdraw_callback(
        self,
        id: Seq<char>,
        old_account: Account,
        results: Seq<PromiseResult>,
    ) -> Result<(LedgerState, Balance), StakingError> {
        if !self.recognizes(id, results) {
            Err(StakingError::ProtocolViolation)
        } else if results[0] == PromiseResult::Successful {
            Ok((self, old_account.unstake_balance))
        } else {
            Ok((LedgerState { accounts: put(self.accounts, id, old_account), ..self }, 0))
        }
    }

    /// Reconciles the ledger with the outcome of the transfer that a harvest
    /// of `id` asked for, where `old_account` is the account as it was before
    /// the harvest. Gives the next ledger and the amount that has left it.
    pub open spec fn harvest_callback(
        self,
        id: Seq<char>,
        old_account: Account,
        results: Seq<PromiseResult>,
    ) -> Result<(LedgerState, Balance), StakingError> {
        if !self.recognizes(id, results) {
            Err(StakingError::ProtocolViolation)
        } else if results[0] == PromiseResult::Successful {
            if self.total_paid_reward_balance + old_account.paid_reward_balance > u128::MAX {
                Err(StakingError::Overflow)
            } else {
                Ok(
                    (
                        LedgerState {
                            total_paid_reward_balance: (self.total_paid_reward_balance
                                + old_account.paid_reward_balance) as u128,
                            ..self
                        },
                        old_account.paid_reward_balance,
                    ),
                )
            }
        } else {
            Ok((LedgerState { accounts: put(self.accounts, id, old_account), ..self }, 0))
        }
    }

    /// One step of the restake sweep: `account` with its accrued reward folded
    /// into its stake at `height`, and `folded`, the sum of what the sweep has
    /// folded so far, grown by that reward.
    pub open spec fn restake_account(
        self,
        account: Account,
        folded: nat,
        height: BlockHeight,
    ) -> Result<(Account, nat), StakingError> {
        match self.account_reward(account, height) {
            Err(e) => Err(e),
            Ok(reward) => if account.stake_balance + reward > u128::MAX || self.total_stake_balance
                + folded + reward > u128::MAX {
                Err(StakingError::Overflow)
            } else {
                Ok((account.restaked(reward, height), (folded + reward) as nat))
            },
        }
    }

    /// The restake sweep over the first `n` accounts, in order: these accounts
    /// after the sweep, and the sum of what was folded into them; or what the
    /// first account that the sweep fails on fails with.
    pub open spec fn restake_first(self, n: nat, height: BlockHeight) -> Result<
        (Seq<Record>, nat),
        StakingError,
    >
        decreases n,
    {
        if n == 0 {
            Ok((Seq::empty(), 0))
        } else {
            match self.restake_first((n - 1) as nat, height) {
                Err(e) => Err(e),
                Ok((rows, folded)) => match self.restake_account(
                    self.accounts[n - 1].account,
                    folded,
                    height,
                ) {
                    Err(e) => Err(e),
                    Ok((account, folded)) => Ok(
                        (rows.push(Record { id: self.accounts[n - 1].id, account }), folded),
                    ),
                },
            }
        }
    }

    /// Folds the accrued reward of every account into its stake at `height`.
    pub open spec fn restake(self, height: BlockHeight) -> Result<LedgerState, StakingError> {
        if self.paused {
            Err(StakingError::Paused)
        } else {
            match self.restake_first(self.accounts.len(), height) {
                Err(e) => Err(e),
                Ok((rows, folded)) => Ok(
                    LedgerState {
                        total_stake_balance: (self.total_stake_balance + folded) as u128,
                        last_block_balance_change: if self.accounts.len() > 0 {
                            height
                        } else {
                            self.last_block_balance_change
                        },
                        accounts: rows,
                        ..self
                    },
                ),
            }
        }
    }

    /// What a query for `id` reports at `height` and `epoch`. A participant
    /// without an account is reported as one who has just registered.
    pub open spec fn account_info(
        self,
        id: Seq<char>,
        height: BlockHeight,
        epoch: EpochHeight,
    ) -> Result<AccountJsonView, StakingError> {
        match lookup(self.accounts, id) {
            Some(account) => match self.account_reward(account, height) {
                Err(e) => Err(e),
                Ok(reward) => AccountJson::from_spec(id, account, reward, epoch),
            },
            None => AccountJson::from_spec(id, Account::opened_at(height), 0, epoch),
        }
    }

    /// The claim of `id` on the pool at `height`: its stake and the reward
    /// accrued on it. A participant without an account has no claim.
    pub open spec fn staked_balance(self, id: Seq<char>, height: BlockHeight) -> Result<
        Balance,
        StakingError,
    > {
        match lookup(self.accounts, id) {
            Some(account) => match self.account_reward(account, height) {
                Err(e) => Err(e),
                Ok(reward) => if account.stake_balance + reward > u128::MAX {
                    Err(StakingError::Overflow)
                } else {
                    Ok((account.stake_balance + reward) as u128)
                },
            },
            None => Ok(0),
        }
    }
}

} // verus!
