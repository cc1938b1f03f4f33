//! A staking ledger: participants deposit principal into a shared pool, the
//! pool credits reward in proportion to stake and elapsed block height, and
//! principal and reward leave the ledger through a two-step settlement whose
//! second step may undo the first.
//!
//! The ledger never talks to its host. Every entry point receives what the
//! host knows about the current call as a [`Context`], returns a
//! [`StakingError`] instead of aborting, and leaves the state untouched
//! whenever it returns one.

use vstd::prelude::*;

pub mod account;
pub mod config;
pub mod context;
pub mod core_impl;
pub mod enumeration;
pub mod error;
pub mod internal;
pub mod laws;
pub mod reward;
pub mod state;
pub mod table;
pub mod types;
pub mod util;

pub use crate::account::{
    Account, AccountJson, AccountJsonView, UpgradableAccount, NUM_EPOCHS_TO_UNLOCK,
};
pub use crate::config::Config;
pub use crate::context::{Context, PromiseResult};
pub use crate::core_impl::{ExtStakingContract, FungibleTokenReceiver, FunngibleToken, Settlement};
pub use crate::enumeration::PoolJson;
pub use crate::error::StakingError;
pub use crate::state::LedgerState;
pub use crate::table::AccountTable;
pub use crate::types::{AccountId, Balance, BlockHeight, EpochHeight, StorageUsage, Timestamp};

use crate::table::{has_id, lookup};
use crate::util::asser_at_least_one_yocto;

verus! {

/// Names of the collections that the ledger keeps in the host's storage.
#[derive(Clone, Copy, Debug, PartialEq, Eq, Structural)]
pub enum StorageKey {
    AccountKey,
}

/// The staking pool: its owner, the asset-transfer service it accepts
/// deposits from, its rate, its totals and its accounts.
pub struct StakingContract {
    pub owner_id: AccountId,
    pub ft_contract_id: AccountId,
    pub config: Config,
    /// Sum of the active stakes of all accounts.
    pub total_stake_balance: Balance,
    /// Reward that the pool has paid out over its lifetime.
    pub total_paid_reward_balance: Balance,
    /// Number of accounts that hold an active stake.
    pub total_staker: Balance,
    /// Height from which the pool as a whole has been earning reward.
    pub last_block_balance_change: BlockHeight,
    pub accounts: AccountTable,
    /// While set, reward accrues up to `pause_in_block` and no further.
    pub paused: bool,
    pub pause_in_block: BlockHeight,
    pub new_data: u128,
}

impl View for StakingContract {
    type V = LedgerState;

    open spec fn view(&self) -> LedgerState {
        LedgerState {
            owner_id: self.owner_id@,
            ft_contract_id: self.ft_contract_id@,
            config: self.config,
            total_stake_balance: self.total_stake_balance,
            total_paid_reward_balance: self.total_paid_reward_balance,
            total_staker: self.total_staker,
            last_block_balance_change: self.last_block_balance_change,
            accounts: self.accounts@,
            paused: self.paused,
            pause_in_block: self.pause_in_block,
            new_data: self.new_data,
        }
    }
}

impl StakingContract {
    /// Creates a pool with the default rate.
    pub fn new_default_config(
        owner_id: AccountId,
        ft_contract_id: AccountId,
        ctx: &Context,
    ) -> (contract: Self)
        ensures
            contract@ == LedgerState::init(
                owner_id@,
                ft_contract_id@,
                Config { reward_numberator: 715, reward_denominator: 1_000_000_000 },
                ctx.block_index,
            ),
            contract@.well_formed(),
            contract@.balanced(),
    {
        Self::new(owner_id, ft_contract_id, Config::default(), ctx)
    }

    /// Creates a pool owned by `owner_id` that accepts deposits from
    /// `ft_contract_id` and pays reward at the rate of `config`. The pool
    /// starts running, without accounts, at the height of `ctx`.
    pub fn new(
        owner_id: AccountId,
        ft_contract_id: AccountId,
        config: Config,
        ctx: &Context,
    ) -> (contract: Self)
        ensures
            contract@ == LedgerState::init(owner_id@, ft_contract_id@, config, ctx.block_index),
            contract@.well_formed(),
            contract@.balanced(),
    {
        StakingContract {
            owner_id,
            ft_contract_id,
            config,
            total_stake_balance: 0,
            total_paid_reward_balance: 0,
            total_staker: 0,
            last_block_balance_change: ctx.block_index,
            accounts: AccountTable::new(),
            paused: false,
            pause_in_block: 0,
            new_data: 0,
        }
    }

    /// Registers `account_id` or, where none is given, the caller of `ctx`,
    /// and says whether an account was created. The call must bring a deposit
    /// of at least one yocto. A participant who is registered already keeps
    /// their account as it is.
    pub fn storage_deposit(
        &mut self,
        account_id: Option<AccountId>,
        ctx: &Context,
    ) -> (created: Result<bool, StakingError>)
        ensures
            ({
                let id = match account_id {
                    Some(account_id) => account_id@,
                    None => ctx.predecessor_account_id@,
                };
                if ctx.attached_deposit < 1 {
                    created == Err::<bool, StakingError>(StakingError::InsufficientDeposit)
                        && final(self)@ == old(self)@
                } else if has_id(old(self)@.accounts, id) {
                    created == Ok::<bool, StakingError>(false) && final(self)@ == old(self)@
                } else {
                    created == Ok::<bool, StakingError>(true) && Ok::<LedgerState, StakingError>(
                        final(self)@,
                    ) == old(self)@.create_account(id, ctx.block_index)
                }
            }),
            final(self)@.well_formed(),
            old(self)@.balanced() ==> final(self)@.balanced(),
    {
        proof {
            use_type_invariant(&self.accounts);
        }
        match asser_at_least_one_yocto(ctx) {
            Err(e) => { return Err(e); },
            Ok(()) => {},
        }
        let account = match account_id {
            Some(account_id) => account_id,
            None => ctx.predecessor_account_id.clone(),
        };
        let account_stake = self.accounts.get(&account);
        if account_stake.is_some() {
            Ok(false)
        } else {
            match self.internal_create_account(account, ctx) {
                Err(e) => Err(e),
                Ok(()) => Ok(true),
            }
        }
    }

    /// Returns the active stake of `account_id`, zero for a participant
    /// without an account.
    pub fn storage_balance_of(self, account_id: AccountId) -> (balance: Balance)
        ensures
            balance == match lookup(self@.accounts, account_id@) {
                Some(account) => account.stake_balance,
                None => 0,
            },
    {
        let account = self.accounts.get(&account_id);
        if account.is_some() {
            let account = account.unwrap();
            let account = Account::from(account);
            account.stake_balance
        } else {
            0
        }
    }

    /// Whether the pool is paused.
    pub fn is_paused(&self) -> (paused: bool)
        ensures
            paused == self@.paused,
    {
        self.paused
    }
}

} // verus!
