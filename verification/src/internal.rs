//! The ledger's own transitions: registration, staking, unstaking, the local
//! half of a withdrawal, reward computation and the restake sweep.

use vstd::prelude::*;
use crate::account::{Account, UpgradableAccount, NUM_EPOCHS_TO_UNLOCK};
use crate::context::Context;
use crate::error::StakingError;
use crate::reward::accrue;
use crate::laws::{
    lemma_create_account_preserves,
    lemma_deposit_and_stake_preserves,
    lemma_restake_first,
    lemma_restake_first_error,
    lemma_restake_preserves,
    lemma_unstake_preserves,
    lemma_withdraw_preserves,
};
use crate::state::LedgerState;
use crate::types::{AccountId, Balance, BlockHeight};
use crate::StakingContract;

verus! {

impl StakingContract {
    /// Computes what `balance` has earned since `checkpoint`, up to the height
    /// of `ctx` or, while the pool is paused, up to the height of the pause.
    fn reward_since(
        &self,
        balance: Balance,
        checkpoint: BlockHeight,
        ctx: &Context,
    ) -> (reward: Result<Balance, StakingError>)
        ensures
            reward == self@.reward_since(balance, checkpoint, ctx.block_index),
    {
        let last_block = if self.paused {
            self.pause_in_block
        } else {
            ctx.block_index
        };
        if last_block < checkpoint {
            return Err(StakingError::HeightRegression);
        }
        accrue(balance, &self.config, last_block - checkpoint)
    }

    /// Computes the reward that `account` has earned since its checkpoint and
    /// that no balance holds yet.
    pub fn internal_caculate_account_reward(
        &self,
        account: &Account,
        ctx: &Context,
    ) -> (reward: Result<Balance, StakingError>)
        ensures
            reward == self@.account_reward(*account, ctx.block_index),
    {
        self.reward_since(account.stake_balance, account.last_block_balance_change, ctx)
    }

    /// Computes the reward that the pool's total stake has earned since the
    /// pool's checkpoint. This figure is for reporting: what a participant is
    /// owed follows from their account alone.
    pub fn internal_caculate_total_reward(&self, ctx: &Context) -> (reward: Result<
        Balance,
        StakingError,
    >)
        ensures
            reward == self@.total_reward(ctx.block_index),
    {
        self.reward_since(self.total_stake_balance, self.last_block_balance_change, ctx)
    }

    /// Registers `account_id` with an empty account whose checkpoint is the
    /// height of `ctx`. Fails where `account_id` is registered already.
    pub fn internal_create_account(
        &mut self,
        account_id: AccountId,
        ctx: &Context,
    ) -> (result: Result<(), StakingError>)
        ensures
            match old(self)@.create_account(account_id@, ctx.block_index) {
                Ok(next) => result is Ok && final(self)@ == next,
                Err(e) => result == Err::<(), StakingError>(e) && final(self)@ == old(self)@,
            },
            final(self)@.well_formed(),
            old(self)@.balanced() ==> final(self)@.balanced(),
    {
        if self.accounts.get(&account_id).is_some() {
            return Err(StakingError::AccountAlreadyExists);
        }
        let account = Account {
            stake_balance: 0,
            paid_reward_balance: 0,
            total_stake_balance: 0,
            total_paid_reward_balance: 0,
            total_staker: 0,
            last_block_balance_change: ctx.block_index,
            unstake_balance: 0,
            unstake_start_timestamp: 0,
            unstake_available_epoch: 0,
            new_account_data: 0,
        };
        let account = UpgradableAccount::from(account);
        self.accounts.insert(&account_id, &account);
        proof {
            lemma_create_account_preserves(old(self)@, account_id@, ctx.block_index);
        }
        Ok(())
    }

    /// Stakes `amount` for `account_id`. The caller of `ctx` must be the
    /// asset-transfer service of the pool, the pool must be running and the
    /// account registered. The reward accrued so far is realized, the stake
    /// grows by `amount`, and both checkpoints move to the height of `ctx`.
    pub fn internal_deposit_and_stake(
        &mut self,
        account_id: AccountId,
        amount: u128,
        ctx: &Context,
    ) -> (result: Result<(), StakingError>)
        ensures
            match old(self)@.deposit_and_stake(
                account_id@,
                amount,
                ctx.predecessor_account_id@,
                ctx.block_index,
            ) {
                Ok(next) => result is Ok && final(self)@ == next,
                Err(e) => result == Err::<(), StakingError>(e) && final(self)@ == old(self)@,
            },
            result is Ok ==> final(self)@.total_stake_balance == old(self)@.total_stake_balance
                + amount,
            final(self)@.well_formed(),
            old(self)@.balanced() ==> final(self)@.balanced(),
    {
        let stored = match self.accounts.get(&account_id) {
            None => { return Err(StakingError::AccountNotFound); },
            Some(stored) => stored,
        };
        if self.paused {
            return Err(StakingError::Paused);
        }
        if !(self.ft_contract_id == ctx.predecessor_account_id) {
            return Err(StakingError::Unauthorized);
        }
        let mut account = Account::from(stored);
        let new_reward = match self.internal_caculate_account_reward(&account, ctx) {
            Err(e) => { return Err(e); },
            Ok(reward) => reward,
        };
        // the account starts to hold a stake
        let joins = account.stake_balance == 0 && amount > 0;
        let paid_reward_balance = match account.paid_reward_balance.checked_add(new_reward) {
            None => { return Err(StakingError::Overflow); },
            Some(sum) => sum,
        };
        let stake_balance = match account.stake_balance.checked_add(amount) {
            None => { return Err(StakingError::Overflow); },
            Some(sum) => sum,
        };
        let total_stake_balance = match self.total_stake_balance.checked_add(amount) {
            None => { return Err(StakingError::Overflow); },
            Some(sum) => sum,
        };
        let total_staker = if joins {
            match self.total_staker.checked_add(1) {
                None => { return Err(StakingError::Overflow); },
                Some(sum) => sum,
            }
        } else {
            self.total_staker
        };

        // update account data
        account.stake_balance = stake_balance;
        account.paid_reward_balance = paid_reward_balance;
        account.last_block_balance_change = ctx.block_index;
        self.accounts.insert(&account_id, &UpgradableAccount::from(account));

        // update pool data
        self.total_staker = total_staker;
        self.total_stake_balance = total_stake_balance;
        self.last_block_balance_change = ctx.block_index;
        proof {
            lemma_deposit_and_stake_preserves(
                old(self)@,
                account_id@,
                amount,
                ctx.predecessor_account_id@,
                ctx.block_index,
            );
        }
        Ok(())
    }

    /// Moves `amount` out of the stake of `account_id` into its unstaked
    /// balance, which stays locked for [`NUM_EPOCHS_TO_UNLOCK`] epochs from
    /// the epoch of `ctx`. The reward accrued so far leaves the stake as well
    /// and is realized. Fails where the stake does not cover both.
    pub fn internal_unstake(
        &mut self,
        account_id: AccountId,
        amount: Balance,
        ctx: &Context,
    ) -> (result: Result<(), StakingError>)
        ensures
            match old(self)@.unstake(
                account_id@,
                amount,
                ctx.block_index,
                ctx.block_timestamp,
                ctx.epoch_height,
            ) {
                Ok(next) => result is Ok && final(self)@ == next,
                Err(e) => result == Err::<(), StakingError>(e) && final(self)@ == old(self)@,
            },
            final(self)@.well_formed(),
            old(self)@.balanced() ==> final(self)@.balanced(),
    {
        let stored = match self.accounts.get(&account_id) {
            None => { return Err(StakingError::AccountNotFound); },
            Some(stored) => stored,
        };
        let mut account = Account::from(stored);
        if amount > account.stake_balance {
            return Err(StakingError::InsufficientBalance);
        }
        let new_reward = match self.internal_caculate_account_reward(&account, ctx) {
            Err(e) => { return Err(e); },
            Ok(reward) => reward,
        };
        if new_reward > account.stake_balance - amount {
            return Err(StakingError::InsufficientBalance);
        }
        let leaving = amount + new_reward;
        // the account stops to hold a stake
        let leaves = account.stake_balance > 0 && account.stake_balance == leaving;
        let paid_reward_balance = match account.paid_reward_balance.checked_add(new_reward) {
            None => { return Err(StakingError::Overflow); },
            Some(sum) => sum,
        };
        let unstake_balance = match account.unstake_balance.checked_add(amount) {
            None => { return Err(StakingError::Overflow); },
            Some(sum) => sum,
        };
        let unstake_available_epoch = match ctx.epoch_height.checked_add(NUM_EPOCHS_TO_UNLOCK) {
            None => { return Err(StakingError::Overflow); },
            Some(sum) => sum,
        };
        let total_stake_balance = match self.total_stake_balance.checked_sub(leaving) {
            None => { return Err(StakingError::Overflow); },
            Some(difference) => difference,
        };
        let total_staker = if leaves {
            match self.total_staker.checked_sub(1) {
                None => { return Err(StakingError::Overflow); },
                Some(difference) => difference,
            }
        } else {
            self.total_staker
        };

        // update account data
        account.stake_balance = account.stake_balance - leaving;
        account.paid_reward_balance = paid_reward_balance;
        account.last_block_balance_change = ctx.block_index;
        account.unstake_balance = unstake_balance;
        account.unstake_start_timestamp = ctx.block_timestamp;
        account.unstake_available_epoch = unstake_available_epoch;
        self.accounts.insert(&account_id, &UpgradableAccount::from(account));

        // update pool data
        self.total_staker = total_staker;
        self.last_block_balance_change = ctx.block_index;
        self.total_stake_balance = total_stake_balance;
        proof {
            lemma_unstake_preserves(
                old(self)@,
                account_id@,
                amount,
                ctx.block_index,
                ctx.block_timestamp,
                ctx.epoch_height,
            );
        }
        Ok(())
    }

    /// Takes the whole unstaked balance of `account_id` out of its account,
    /// ahead of the transfer that is to pay it out, and returns the account
    /// as it was, for the case that the transfer fails. Fails where `amount`
    /// exceeds the unstaked balance and where that balance is still locked at
    /// the epoch of `ctx`.
    pub fn internal_withdraw(
        &mut self,
        account_id: AccountId,
        amount: Balance,
        ctx: &Context,
    ) -> (result: Result<Account, StakingError>)
        ensures
            match old(self)@.withdraw(account_id@, amount, ctx.epoch_height) {
                Ok((next, old_account)) => result == Ok::<Account, StakingError>(old_account)
                    && final(self)@ == next,
                Err(e) => result == Err::<Account, StakingError>(e) && final(self)@ == old(self)@,
            },
            final(self)@.well_formed(),
            old(self)@.balanced() ==> final(self)@.balanced(),
    {
        let stored = match self.accounts.get(&account_id) {
            None => { return Err(StakingError::AccountNotFound); },
            Some(stored) => stored,
        };
        let account = Account::from(stored);
        if amount > account.unstake_balance {
            return Err(StakingError::InsufficientBalance);
        }
        if !(account.unstake_available_epoch <= ctx.epoch_height) {
            return Err(StakingError::UnstakeLocked);
        }
        let total_stake_balance = match account.total_stake_balance.checked_add(
            account.unstake_balance,
        ) {
            None => { return Err(StakingError::Overflow); },
            Some(sum) => sum,
        };

        // a new record, so that the old one can be put back if the transfer fails
        let new_account = Account {
            stake_balance: account.stake_balance,
            last_block_balance_change: account.last_block_balance_change,
            unstake_balance: 0,
            unstake_start_timestamp: 0,
            unstake_available_epoch: 0,
            new_account_data: account.new_account_data,
            paid_reward_balance: account.paid_reward_balance,
            total_stake_balance,
            total_paid_reward_balance: account.total_paid_reward_balance,
            total_staker: account.total_staker,
        };
        self.accounts.insert(&account_id, &UpgradableAccount::from(new_account));
        proof {
            lemma_withdraw_preserves(old(self)@, account_id@, amount, ctx.epoch_height);
        }
        Ok(account)
    }

    /// Folds the reward that `account` has accrued into its stake, and into
    /// `total_stake_balance`, the pool's total stake as the sweep has it so
    /// far.
    fn restake_account(
        &self,
        account: Account,
        total_stake_balance: Balance,
        ctx: &Context,
    ) -> (result: Result<(Account, Balance), StakingError>)
        requires
            total_stake_balance >= self.total_stake_balance,
        ensures
            match self@.restake_account(
                account,
                (total_stake_balance - self.total_stake_balance) as nat,
                ctx.block_index,
            ) {
                Ok((restaked, folded)) => result == Ok::<(Account, Balance), StakingError>(
                    (restaked, (self.total_stake_balance + folded) as u128),
                ) && self.total_stake_balance + folded <= u128::MAX,
                Err(e) => result == Err::<(Account, Balance), StakingError>(e),
            },
    {
        let new_reward = match self.internal_caculate_account_reward(&account, ctx) {
            Err(e) => { return Err(e); },
            Ok(reward) => reward,
        };
        let stake_balance = match account.stake_balance.checked_add(new_reward) {
            None => { return Err(StakingError::Overflow); },
            Some(sum) => sum,
        };
        let total_stake_balance = match total_stake_balance.checked_add(new_reward) {
            None => { return Err(StakingError::Overflow); },
            Some(sum) => sum,
        };
        let mut account = account;
        account.stake_balance = stake_balance;
        account.last_block_balance_change = ctx.block_index;
        Ok((account, total_stake_balance))
    }

    /// Folds the reward that every account has accrued into its stake, and
    /// the sum of it into the pool's total stake, with all checkpoints moved
    /// to the height of `ctx`. The sweep visits every account once, in the
    /// order of registration, and changes nothing unless it succeeds on all
    /// of them. It is refused while the pool is paused.
    pub fn internal_restake(&mut self, ctx: &Context) -> (result: Result<(), StakingError>)
        ensures
            match old(self)@.restake(ctx.block_index) {
                Ok(next) => result is Ok && final(self)@ == next,
                Err(e) => result == Err::<(), StakingError>(e) && final(self)@ == old(self)@,
            },
            final(self)@.well_formed(),
            old(self)@.balanced() ==> final(self)@.balanced(),
    {
        proof {
            use_type_invariant(&self.accounts);
        }
        if self.paused {
            return Err(StakingError::Paused);
        }
        let n = self.accounts.len();
        let ghost before = self@;

        // first pass: what every account becomes, with nothing changed yet
        let mut restaked: Vec<Account> = Vec::new();
        let mut total_stake_balance = self.total_stake_balance;
        let mut i: usize = 0;
        while i < n
            invariant
                i <= n,
                n == before.accounts.len(),
                self@ == before,
                before == old(self)@,
                !before.paused,
                restaked.len() == i,
                before.restake_first(i as nat, ctx.block_index) is Ok,
                before.restake_first(i as nat, ctx.block_index)->Ok_0.0.len() == i,
                total_stake_balance == before.total_stake_balance + before.restake_first(
                    i as nat,
                    ctx.block_index,
                )->Ok_0.1,
                forall|j: int|
                    0 <= j < i ==> (#[trigger] before.restake_first(
                        i as nat,
                        ctx.block_index,
                    )->Ok_0.0[j]).account == restaked[j],
            decreases n - i,
        {
            let account = self.accounts.entry_at(i).unwrap().1;
            match self.restake_account(account, total_stake_balance, ctx) {
                Err(e) => {
                    proof {
                        lemma_restake_first_error(
                            before,
                            (i + 1) as nat,
                            n as nat,
                            ctx.block_index,
                        );
                    }
                    return Err(e);
                },
                Ok((account, total)) => {
                    restaked.push(account);
                    total_stake_balance = total;
                },
            }
            i += 1;
        }

        // second pass: every account in place, which cannot fail any more
        let ghost rows = before.restake_first(n as nat, ctx.block_index)->Ok_0.0;
        proof {
            lemma_restake_first(before, n as nat, ctx.block_index);
            lemma_restake_preserves(before, ctx.block_index);
        }
        let mut j: usize = 0;
        while j < n
            invariant
                j <= n,
                n == before.accounts.len(),
                n == rows.len(),
                n == restaked.len(),
                self@ == (LedgerState { accounts: self.accounts@, ..before }),
                self.accounts@.len() == n,
                forall|k: int| 0 <= k < n ==> (#[trigger] rows[k]).id == before.accounts[k].id,
                forall|k: int| 0 <= k < n ==> (#[trigger] rows[k]).account == restaked[k],
                forall|k: int| 0 <= k < j ==> (#[trigger] self.accounts@[k]) == rows[k],
                forall|k: int| j <= k < n ==> (#[trigger] self.accounts@[k]) == before.accounts[k],
            decreases n - j,
        {
            self.accounts.replace_at(j, restaked[j]);
            j += 1;
        }
        assert(self.accounts@ =~= rows);

        // update pool data
        if n > 0 {
            self.last_block_balance_change = ctx.block_index;
        }
        self.total_stake_balance = total_stake_balance;
        Ok(())
    }
}

} // verus!
