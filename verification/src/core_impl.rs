//! The settlement protocol: what the ledger does when the asset-transfer
//! service announces a deposit, when a participant asks for a payout, and
//! when the service reports how the payout went.
//!
//! A payout takes two calls. The first takes the amount out of the account,
//! so that nothing else can spend it, and hands back a [`Settlement`]: whom
//! to pay, how much, and the account as it was. The second, which the host
//! makes once the transfer has finished, leaves the account as it is where
//! the transfer went through and puts the old account back where it failed.

use vstd::prelude::*;
use crate::account::{Account, UpgradableAccount};
use crate::context::{Context, PromiseResult};
use crate::error::StakingError;
use crate::laws::{lemma_callbacks_preserve, lemma_harvest_preserves};
use crate::table::lookup;
use crate::types::{AccountId, Balance};
use crate::util::assert_one_yocto;
use crate::StakingContract;

verus! {

/// What the asset-transfer service calls on the receiver of a transfer.
pub trait FungibleTokenReceiver {
    /// Takes note of `amount` of the asset that `sender_id` has sent, and
    /// returns how much of it the receiver does not use.
    fn ft_on_transfer(
        &mut self,
        sender_id: AccountId,
        amount: Balance,
        msg: String,
        ctx: &Context,
    ) -> (unused: Result<Balance, StakingError>);
}

/// What the ledger asks of the asset-transfer service.
pub trait FunngibleToken {
    /// Sends `amount` of the asset to `receiver_id`.
    fn ft_transfer(&mut self, receiver_id: AccountId, amount: Balance, memo: Option<String>);
}

/// What the ledger asks the host to call back once a transfer has finished.
pub trait ExtStakingContract {
    /// Reconciles the account of `account_id`, which was `old_account` before
    /// the payout, with the outcome of the transfer.
    fn ft_withdraw_callback(&mut self, account_id: AccountId, old_account: Account);

    /// The same for a payout of reward.
    fn ft_harvest_callback(&mut self, account_id: AccountId, old_account: Account);
}

/// A payout that has been taken out of an account and awaits its transfer.
#[derive(Debug)]
pub struct Settlement {
    /// Whom to pay.
    pub account_id: AccountId,
    /// The account as it was before the payout, to put back if the transfer
    /// fails.
    pub old_account: Account,
    /// How much to pay.
    pub amount: Balance,
}

impl FungibleTokenReceiver for StakingContract {
    /// Stakes `amount` for `sender_id`, all of it: on success the unused
    /// amount is zero. On failure nothing is staked and the service is to
    /// reverse the transfer.
    fn ft_on_transfer(
        &mut self,
        sender_id: AccountId,
        amount: Balance,
        msg: String,
        ctx: &Context,
    ) -> (unused: Result<Balance, StakingError>)
        ensures
            match old(self)@.deposit_and_stake(
                sender_id@,
                amount,
                ctx.predecessor_account_id@,
                ctx.block_index,
            ) {
                Ok(next) => unused == Ok::<Balance, StakingError>(0) && final(self)@ == next,
                Err(e) => unused == Err::<Balance, StakingError>(e) && final(self)@ == old(self)@,
            },
            final(self)@.well_formed(),
            old(self)@.balanced() ==> final(self)@.balanced(),
    {
        match self.internal_deposit_and_stake(sender_id, amount, ctx) {
            Err(e) => Err(e),
            Ok(()) => Ok(0),
        }
    }
}

impl StakingContract {
    /// Moves `amount` of the caller's stake into their unstaked balance, as
    /// [`Self::internal_unstake`] does for the caller of `ctx`. The call must
    /// bring exactly one yocto.
    pub fn unstake(&mut self, amount: Balance, ctx: &Context) -> (result: Result<(), StakingError>)
        ensures
            ctx.attached_deposit != 1 ==> result == Err::<(), StakingError>(
                StakingError::RequiresOneYocto,
            ) && final(self)@ == old(self)@,
            ctx.attached_deposit == 1 ==> match old(self)@.unstake(
                ctx.predecessor_account_id@,
                amount,
                ctx.block_index,
                ctx.block_timestamp,
                ctx.epoch_height,
            ) {
                Ok(next) => result is Ok && final(self)@ == next,
                Err(e) => result == Err::<(), StakingError>(e) && final(self)@ == old(self)@,
            },
            final(self)@.well_formed(),
            old(self)@.balanced() ==> final(self)@.balanced(),
    {
        proof {
            use_type_invariant(&self.accounts);
        }
        match assert_one_yocto(ctx) {
            Err(e) => { return Err(e); },
            Ok(()) => {},
        }
        self.internal_unstake(ctx.predecessor_account_id.clone(), amount, ctx)
    }

    /// Starts the payout of the caller's unstaked balance. The call must
    /// bring exactly one yocto, `amount` must not exceed the unstaked balance,
    /// and the balance must be unlocked at the epoch of `ctx`. The whole
    /// unstaked balance leaves the account and is to be transferred.
    pub fn withraw(&mut self, amount: Balance, ctx: &Context) -> (result: Result<
        Settlement,
        StakingError,
    >)
        ensures
            ctx.attached_deposit != 1 ==> result is Err && result->Err_0
                == StakingError::RequiresOneYocto && final(self)@ == old(self)@,
            ctx.attached_deposit == 1 ==> match old(self)@.withdraw(
                ctx.predecessor_account_id@,
                amount,
                ctx.epoch_height,
            ) {
                Ok((next, old_account)) => {
                    &&& result is Ok
                    &&& result->Ok_0.account_id@ == ctx.predecessor_account_id@
                    &&& result->Ok_0.old_account == old_account
                    &&& result->Ok_0.amount == old_account.unstake_balance
                    &&& final(self)@ == next
                },
                Err(e) => result is Err && result->Err_0 == e && final(self)@ == old(self)@,
            },
            final(self)@.well_formed(),
            old(self)@.balanced() ==> final(self)@.balanced(),
    {
        proof {
            use_type_invariant(&self.accounts);
        }
        match assert_one_yocto(ctx) {
            Err(e) => { return Err(e); },
            Ok(()) => {},
        }
        let account_id = ctx.predecessor_account_id.clone();
        let old_account = match self.internal_withdraw(account_id.clone(), amount, ctx) {
            Err(e) => { return Err(e); },
            Ok(old_account) => old_account,
        };
        Ok(Settlement { account_id, old_account, amount: old_account.unstake_balance })
    }

    /// Folds every account's accrued reward into its stake.
    pub fn update_all_user_rewards(&mut self, ctx: &Context) -> (result: Result<(), StakingError>)
        ensures
            match old(self)@.restake(ctx.block_index) {
                Ok(next) => result is Ok && final(self)@ == next,
                Err(e) => result == Err::<(), StakingError>(e) && final(self)@ == old(self)@,
            },
            final(self)@.well_formed(),
            old(self)@.balanced() ==> final(self)@.balanced(),
    {
        self.internal_restake(ctx)
    }

    /// Checks that `results` is the single, final outcome of a transfer for
    /// an account of the ledger.
    fn settled(&self, account_id: &AccountId, results: &Vec<PromiseResult>) -> (outcome: Result<
        PromiseResult,
        StakingError,
    >)
        ensures
            self@.well_formed(),
            match outcome {
                Ok(outcome) => self@.recognizes(account_id@, results@) && outcome == results@[0],
                Err(e) => !self@.recognizes(account_id@, results@) && e
                    == StakingError::ProtocolViolation,
            },
    {
        proof {
            use_type_invariant(&self.accounts);
        }
        if results.len() != 1 {
            return Err(StakingError::ProtocolViolation);
        }
        if self.accounts.get(account_id).is_none() {
            return Err(StakingError::ProtocolViolation);
        }
        match results[0] {
            PromiseResult::NotReady => Err(StakingError::ProtocolViolation),
            PromiseResult::Successful => Ok(PromiseResult::Successful),
            PromiseResult::Failed => Ok(PromiseResult::Failed),
        }
    }

    /// Finishes a withdrawal of `account_id` with the outcome of its
    /// transfer, where `old_account` is what [`Self::withraw`] handed out.
    /// Where the transfer went through, the ledger stays as it is and the
    /// amount paid is returned. Where it failed, `old_account` is put back
    /// and zero is returned. Anything but one final outcome for an account of
    /// the ledger is a protocol violation.
    pub fn ft_withdraw_callback(
        &mut self,
        account_id: AccountId,
        old_account: Account,
        results: Vec<PromiseResult>,
    ) -> (paid: Result<Balance, StakingError>)
        ensures
            match old(self)@.withdraw_callback(account_id@, old_account, results@) {
                Ok((next, amount)) => paid == Ok::<Balance, StakingError>(amount) && final(self)@
                    == next,
                Err(e) => paid == Err::<Balance, StakingError>(e) && final(self)@ == old(self)@,
            },
            final(self)@.well_formed(),
            old(self)@.balanced() && lookup(old(self)@.accounts, account_id@) is Some && lookup(
                old(self)@.accounts,
                account_id@,
            )->Some_0.stake_balance == old_account.stake_balance ==> final(self)@.balanced(),
    {
        proof {
            use_type_invariant(&self.accounts);
            if old(self)@.recognizes(account_id@, results@) {
                lemma_callbacks_preserve(old(self)@, account_id@, old_account, results@);
            }
        }
        match self.settled(&account_id, &results) {
            Err(e) => Err(e),
            Ok(PromiseResult::Successful) => Ok(old_account.unstake_balance),
            Ok(_) => {
                // handle rollback data
                self.accounts.insert(&account_id, &UpgradableAccount::from(old_account));
                Ok(0)
            },
        }
    }

    /// Starts the payout of the caller's realized reward. The call must bring
    /// exactly one yocto and there must be reward to pay. The whole realized
    /// reward leaves the account and is to be transferred.
    pub fn harvest(&mut self, ctx: &Context) -> (result: Result<Settlement, StakingError>)
        ensures
            ctx.attached_deposit != 1 ==> result is Err && result->Err_0
                == StakingError::RequiresOneYocto && final(self)@ == old(self)@,
            ctx.attached_deposit == 1 ==> match old(self)@.harvest(ctx.predecessor_account_id@) {
                Ok((next, old_account)) => {
                    &&& result is Ok
                    &&& result->Ok_0.account_id@ == ctx.predecessor_account_id@
                    &&& result->Ok_0.old_account == old_account
                    &&& result->Ok_0.amount == old_account.paid_reward_balance
                    &&& final(self)@ == next
                },
                Err(e) => result is Err && result->Err_0 == e && final(self)@ == old(self)@,
            },
            final(self)@.well_formed(),
            old(self)@.balanced() ==> final(self)@.balanced(),
    {
        proof {
            use_type_invariant(&self.accounts);
        }
        match assert_one_yocto(ctx) {
            Err(e) => { return Err(e); },
            Ok(()) => {},
        }
        let account_id = ctx.predecessor_account_id.clone();
        let stored = match self.accounts.get(&account_id) {
            None => { return Err(StakingError::AccountNotFound); },
            Some(stored) => stored,
        };
        let old_account = Account::from(stored);
        if old_account.paid_reward_balance == 0 {
            return Err(StakingError::ZeroAmount);
        }
        let total_paid_reward_balance = match old_account.total_paid_reward_balance.checked_add(
            old_account.paid_reward_balance,
        ) {
            None => { return Err(StakingError::Overflow); },
            Some(sum) => sum,
        };
        let mut account = old_account;
        account.paid_reward_balance = 0;
        account.total_paid_reward_balance = total_paid_reward_balance;
        self.accounts.insert(&account_id, &UpgradableAccount::from(account));
        proof {
            lemma_harvest_preserves(old(self)@, account_id@);
        }
        Ok(Settlement { account_id, old_account, amount: old_account.paid_reward_balance })
    }

    /// Finishes a harvest of `account_id` with the outcome of its transfer,
    /// where `old_account` is what [`Self::harvest`] handed out. Where the
    /// transfer went through, the amount paid is added to the pool's lifetime
    /// total and returned. Where it failed, `old_account` is put back, the
    /// pool's total stays, and zero is returned. Anything but one final
    /// outcome for an account of the ledger is a protocol violation.
    pub fn ft_harvest_callback(
        &mut self,
        account_id: AccountId,
        old_account: Account,
        results: Vec<PromiseResult>,
    ) -> (paid: Result<Balance, StakingError>)
        ensures
            match old(self)@.harvest_callback(account_id@, old_account, results@) {
                Ok((next, amount)) => paid == Ok::<Balance, StakingError>(amount) && final(self)@
                    == next,
                Err(e) => paid == Err::<Balance, StakingError>(e) && final(self)@ == old(self)@,
            },
            final(self)@.well_formed(),
            old(self)@.balanced() && lookup(old(self)@.accounts, account_id@) is Some && lookup(
                old(self)@.accounts,
                account_id@,
            )->Some_0.stake_balance == old_account.stake_balance ==> final(self)@.balanced(),
    {
        proof {
            use_type_invariant(&self.accounts);
            if old(self)@.recognizes(account_id@, results@) {
                lemma_callbacks_preserve(old(self)@, account_id@, old_account, results@);
            }
        }
        match self.settled(&account_id, &results) {
            Err(e) => Err(e),
            Ok(PromiseResult::Successful) => {
                match self.total_paid_reward_balance.checked_add(old_account.paid_reward_balance) {
                    None => Err(StakingError::Overflow),
                    Some(sum) => {
                        self.total_paid_reward_balance = sum;
                        Ok(old_account.paid_reward_balance)
                    },
                }
            },
            Ok(_) => {
                // handle rollback data
                self.accounts.insert(&account_id, &UpgradableAccount::from(old_account));
                Ok(0)
            },
        }
    }
}

} // verus!
