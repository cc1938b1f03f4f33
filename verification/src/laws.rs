//! What holds of the ledger's operations, proved over [`LedgerState`].

use vstd::prelude::*;
use crate::account::{Account, NUM_EPOCHS_TO_UNLOCK};
use crate::config::Config;
use crate::context::PromiseResult;
use crate::error::StakingError;
use crate::reward::{
    accrue_spec,
    accrued_reward,
    lemma_accrued_reward_monotonic,
    lemma_accrued_reward_zero,
};
use crate::state::LedgerState;
use crate::table::{
    active_stakers,
    has_id,
    index_of,
    lemma_index_of_unique,
    lemma_push_totals,
    lemma_put,
    lemma_totals_bound,
    lemma_update_totals,
    lookup,
    put,
    staker,
    total_stake,
    unique_ids,
    Record,
};
use crate::types::{Balance, BlockHeight, EpochHeight, Timestamp};

verus! {

/// Accrual is monotonic in elapsed height: where the reward over the longer
/// interval can be computed, so can the reward over the shorter one, and it is
/// no larger.
pub proof fn lemma_accrue_monotonic(
    balance: Balance,
    config: Config,
    elapsed1: BlockHeight,
    elapsed2: BlockHeight,
)
    requires
        elapsed1 <= elapsed2,
        accrue_spec(balance, config, elapsed2) is Ok,
    ensures
        accrue_spec(balance, config, elapsed1) is Ok,
        accrue_spec(balance, config, elapsed1)->Ok_0 <= accrue_spec(
            balance,
            config,
            elapsed2,
        )->Ok_0,
{
    let rate = balance * config.reward_numberator;
    assert(rate * elapsed1 <= rate * elapsed2) by (nonlinear_arith)
        requires
            0 <= rate,
            0 <= elapsed1 <= elapsed2,
    ;
    lemma_accrued_reward_monotonic(
        balance as nat,
        config.reward_numberator as nat,
        config.reward_denominator as nat,
        elapsed1 as nat,
        elapsed2 as nat,
    );
    lemma_accrue_fits(balance, config, elapsed1);
    lemma_accrue_fits(balance, config, elapsed2);
}

/// A reward that can be computed is the exact quotient: it fits in 128 bits.
pub proof fn lemma_accrue_fits(balance: Balance, config: Config, elapsed: BlockHeight)
    requires
        accrue_spec(balance, config, elapsed) is Ok,
    ensures
        accrue_spec(balance, config, elapsed)->Ok_0 == accrued_reward(
            balance as nat,
            config.reward_numberator as nat,
            config.reward_denominator as nat,
            elapsed as nat,
        ),
        accrue_spec(balance, config, elapsed)->Ok_0 <= balance * config.reward_numberator * elapsed,
{
    let product = balance * config.reward_numberator * elapsed;
    let denominator = config.reward_denominator as int;
    assert(0 <= product) by (nonlinear_arith)
        requires
            product == balance * config.reward_numberator * elapsed,
    ;
    vstd::arithmetic::div_mod::lemma_div_is_ordered_by_denominator(product, 1, denominator);
    vstd::arithmetic::div_mod::lemma_div_basics(product);
    vstd::arithmetic::div_mod::lemma_div_pos_is_pos(product, denominator);
}

/// An empty stake earns nothing, whatever the interval.
pub proof fn lemma_no_stake_no_reward(s: LedgerState, account: Account, height: BlockHeight)
    requires
        account.stake_balance == 0,
        s.account_reward(account, height) is Ok,
    ensures
        s.account_reward(account, height) == Ok::<Balance, StakingError>(0),
{
    let elapsed = (s.effective_height(height) - account.last_block_balance_change) as u64;
    lemma_accrue_fits(0, s.config, elapsed);
    lemma_accrued_reward_zero(
        0,
        s.config.reward_numberator as nat,
        s.config.reward_denominator as nat,
        elapsed as nat,
    );
}

/// While the pool is paused, what an account has accrued does not depend on
/// the height at which it is asked: two queries at different heights report
/// the same reward, the same claim and the same projection.
pub proof fn lemma_pause_freezes_accrual(
    s: LedgerState,
    id: Seq<char>,
    height1: BlockHeight,
    height2: BlockHeight,
    epoch: EpochHeight,
)
    requires
        s.paused,
    ensures
        forall|account: Account|
            s.account_reward(account, height1) == s.account_reward(account, height2),
        s.total_reward(height1) == s.total_reward(height2),
        s.staked_balance(id, height1) == s.staked_balance(id, height2),
        s.account_info(id, height1, epoch) == s.account_info(id, height2, epoch),
{
}

/// Registration keeps the ledger free of duplicates and its totals in
/// agreement with its accounts.
pub proof fn lemma_create_account_preserves(s: LedgerState, id: Seq<char>, height: BlockHeight)
    requires
        s.well_formed(),
        s.create_account(id, height) is Ok,
    ensures
        s.create_account(id, height)->Ok_0.well_formed(),
        s.balanced() ==> s.create_account(id, height)->Ok_0.balanced(),
        lookup(s.create_account(id, height)->Ok_0.accounts, id) == Some(Account::opened_at(height)),
{
    lemma_put(s.accounts, id, Account::opened_at(height));
    lemma_push_totals(s.accounts, Record { id, account: Account::opened_at(height) });
}

/// Storing a record for a registered participant changes the totals of the
/// table by what the record's stake changes.
pub proof fn lemma_put_totals(records: Seq<Record>, id: Seq<char>, account: Account)
    requires
        unique_ids(records),
        has_id(records, id),
    ensures
        total_stake(put(records, id, account)) == total_stake(records) - lookup(
            records,
            id,
        )->Some_0.stake_balance + account.stake_balance,
        active_stakers(put(records, id, account)) == active_stakers(records) - staker(
            lookup(records, id)->Some_0,
        ) + staker(account),
{
    lemma_update_totals(records, index_of(records, id), Record { id, account });
}

/// A deposit adds exactly its amount to the pool's total stake, and keeps the
/// ledger free of duplicates and its totals in agreement with its accounts.
pub proof fn lemma_deposit_and_stake_preserves(
    s: LedgerState,
    id: Seq<char>,
    amount: Balance,
    caller: Seq<char>,
    height: BlockHeight,
)
    requires
        s.well_formed(),
        s.deposit_and_stake(id, amount, caller, height) is Ok,
    ensures
        ({
            let next = s.deposit_and_stake(id, amount, caller, height)->Ok_0;
            &&& next.well_formed()
            &&& next.total_stake_balance == s.total_stake_balance + amount
            &&& lookup(next.accounts, id)->Some_0.stake_balance == lookup(
                s.accounts,
                id,
            )->Some_0.stake_balance + amount
            &&& s.balanced() ==> next.balanced()
        }),
{
    let account = lookup(s.accounts, id)->Some_0;
    let reward = s.account_reward(account, height)->Ok_0;
    lemma_put(s.accounts, id, account.staked(amount, reward, height));
    lemma_put_totals(s.accounts, id, account.staked(amount, reward, height));
}

/// An unstake takes the amount and the accrued reward out of the stake and
/// out of the pool's total, neither of which it drives below zero, and adds
/// the amount to the unstaked balance. It keeps the ledger free of duplicates
/// and its totals in agreement with its accounts.
pub proof fn lemma_unstake_preserves(
    s: LedgerState,
    id: Seq<char>,
    amount: Balance,
    height: BlockHeight,
    timestamp: Timestamp,
    epoch: EpochHeight,
)
    requires
        s.well_formed(),
        s.unstake(id, amount, height, timestamp, epoch) is Ok,
    ensures
        ({
            let next = s.unstake(id, amount, height, timestamp, epoch)->Ok_0;
            let before = lookup(s.accounts, id)->Some_0;
            let after = lookup(next.accounts, id)->Some_0;
            let reward = s.account_reward(before, height)->Ok_0;
            &&& next.well_formed()
            &&& before.stake_balance - amount - reward >= 0
            &&& after.stake_balance == before.stake_balance - amount - reward
            &&& after.unstake_balance == before.unstake_balance + amount
            &&& after.paid_reward_balance == before.paid_reward_balance + reward
            &&& after.unstake_available_epoch == epoch + NUM_EPOCHS_TO_UNLOCK
            &&& s.total_stake_balance - amount - reward >= 0
            &&& next.total_stake_balance == s.total_stake_balance - amount - reward
            &&& s.balanced() ==> next.balanced()
        }),
{
    let account = lookup(s.accounts, id)->Some_0;
    let reward = s.account_reward(account, height)->Ok_0;
    lemma_put(s.accounts, id, account.unstaked(amount, reward, height, timestamp, epoch));
    lemma_put_totals(s.accounts, id, account.unstaked(amount, reward, height, timestamp, epoch));
}

/// In a ledger whose totals agree with its accounts, the pool always covers
/// what an account can unstake: an unstake that the account's own balances
/// allow, at an epoch that leaves room for the lock, goes through.
pub proof fn lemma_balanced_pool_covers_unstake(
    s: LedgerState,
    id: Seq<char>,
    amount: Balance,
    height: BlockHeight,
    timestamp: Timestamp,
    epoch: EpochHeight,
)
    requires
        s.well_formed(),
        s.balanced(),
        lookup(s.accounts, id) is Some,
        s.account_reward(lookup(s.accounts, id)->Some_0, height) is Ok,
        amount + s.account_reward(lookup(s.accounts, id)->Some_0, height)->Ok_0 <= lookup(
            s.accounts,
            id,
        )->Some_0.stake_balance,
        lookup(s.accounts, id)->Some_0.paid_reward_balance + s.account_reward(
            lookup(s.accounts, id)->Some_0,
            height,
        )->Ok_0 <= u128::MAX,
        lookup(s.accounts, id)->Some_0.unstake_balance + amount <= u128::MAX,
        epoch + NUM_EPOCHS_TO_UNLOCK <= u64::MAX,
    ensures
        s.unstake(id, amount, height, timestamp, epoch) is Ok,
{
    lemma_totals_bound(s.accounts, index_of(s.accounts, id));
}

/// The epoch lock: for a registered participant and an amount that their
/// unstaked balance covers, a withdrawal is refused as locked at every epoch
/// before the unlock epoch, and goes through at the unlock epoch and at every
/// later one, where it empties the unstaked balance.
pub proof fn lemma_withdraw_lock(s: LedgerState, id: Seq<char>, amount: Balance, epoch: EpochHeight)
    requires
        s.well_formed(),
        lookup(s.accounts, id) is Some,
        amount <= lookup(s.accounts, id)->Some_0.unstake_balance,
        lookup(s.accounts, id)->Some_0.total_stake_balance + lookup(
            s.accounts,
            id,
        )->Some_0.unstake_balance <= u128::MAX,
    ensures
        epoch < lookup(s.accounts, id)->Some_0.unstake_available_epoch ==> s.withdraw(
            id,
            amount,
            epoch,
        ) == Err::<(LedgerState, Account), StakingError>(StakingError::UnstakeLocked),
        epoch >= lookup(s.accounts, id)->Some_0.unstake_available_epoch ==> {
            &&& s.withdraw(id, amount, epoch) is Ok
            &&& s.withdraw(id, amount, epoch)->Ok_0.1 == lookup(s.accounts, id)->Some_0
            &&& lookup(s.withdraw(id, amount, epoch)->Ok_0.0.accounts, id)->Some_0.unstake_balance
                == 0
        },
{
    let account = lookup(s.accounts, id)->Some_0;
    lemma_put(s.accounts, id, account.withdrawn());
}

/// A withdrawal changes no stake, so it keeps the ledger free of duplicates
/// and its totals in agreement with its accounts.
pub proof fn lemma_withdraw_preserves(
    s: LedgerState,
    id: Seq<char>,
    amount: Balance,
    epoch: EpochHeight,
)
    requires
        s.well_formed(),
        s.withdraw(id, amount, epoch) is Ok,
    ensures
        s.withdraw(id, amount, epoch)->Ok_0.0.well_formed(),
        s.balanced() ==> s.withdraw(id, amount, epoch)->Ok_0.0.balanced(),
{
    let account = lookup(s.accounts, id)->Some_0;
    lemma_put(s.accounts, id, account.withdrawn());
    lemma_put_totals(s.accounts, id, account.withdrawn());
}

/// A harvest changes no stake, so it keeps the ledger free of duplicates and
/// its totals in agreement with its accounts.
pub proof fn lemma_harvest_preserves(s: LedgerState, id: Seq<char>)
    requires
        s.well_formed(),
        s.harvest(id) is Ok,
    ensures
        s.harvest(id)->Ok_0.0.well_formed(),
        s.balanced() ==> s.harvest(id)->Ok_0.0.balanced(),
        lookup(s.harvest(id)->Ok_0.0.accounts, id)->Some_0.paid_reward_balance == 0,
{
    let account = lookup(s.accounts, id)->Some_0;
    lemma_put(s.accounts, id, account.harvested());
    lemma_put_totals(s.accounts, id, account.harvested());
}

/// Putting back the record that a participant had undoes a `put` for them.
pub proof fn lemma_put_back(records: Seq<Record>, id: Seq<char>, account: Account)
    requires
        unique_ids(records),
        has_id(records, id),
    ensures
        put(put(records, id, account), id, lookup(records, id)->Some_0) == records,
{
    let k = index_of(records, id);
    let changed = put(records, id, account);
    lemma_put(records, id, account);
    lemma_index_of_unique(changed, id, k);
    assert(put(changed, id, records[k].account) =~= records);
}

/// Rollback is exact: a withdrawal whose transfer fails leaves the ledger as
/// it was before the withdrawal was asked for, and reports that nothing has
/// left it.
pub proof fn lemma_failed_withdraw_restores(
    s: LedgerState,
    id: Seq<char>,
    amount: Balance,
    epoch: EpochHeight,
)
    requires
        s.well_formed(),
        s.withdraw(id, amount, epoch) is Ok,
    ensures
        ({
            let (next, old_account) = s.withdraw(id, amount, epoch)->Ok_0;
            next.withdraw_callback(id, old_account, seq![PromiseResult::Failed]) == Ok::<
                (LedgerState, Balance),
                StakingError,
            >((s, 0))
        }),
{
    let account = lookup(s.accounts, id)->Some_0;
    lemma_put(s.accounts, id, account.withdrawn());
    lemma_put_back(s.accounts, id, account.withdrawn());
}

/// A withdrawal whose transfer succeeds stays as it is, and reports the whole
/// unstaked balance as paid.
pub proof fn lemma_confirmed_withdraw_stays(
    s: LedgerState,
    id: Seq<char>,
    amount: Balance,
    epoch: EpochHeight,
)
    requires
        s.well_formed(),
        s.withdraw(id, amount, epoch) is Ok,
    ensures
        ({
            let (next, old_account) = s.withdraw(id, amount, epoch)->Ok_0;
            next.withdraw_callback(id, old_account, seq![PromiseResult::Successful]) == Ok::<
                (LedgerState, Balance),
                StakingError,
            >((next, lookup(s.accounts, id)->Some_0.unstake_balance))
        }),
{
    let account = lookup(s.accounts, id)->Some_0;
    lemma_put(s.accounts, id, account.withdrawn());
}

/// Rollback is exact for a harvest as well: where the transfer fails, the
/// ledger is as it was before the harvest, the pool's lifetime total of paid
/// reward included.
pub proof fn lemma_failed_harvest_restores(s: LedgerState, id: Seq<char>)
    requires
        s.well_formed(),
        s.harvest(id) is Ok,
    ensures
        ({
            let (next, old_account) = s.harvest(id)->Ok_0;
            next.harvest_callback(id, old_account, seq![PromiseResult::Failed]) == Ok::<
                (LedgerState, Balance),
                StakingError,
            >((s, 0))
        }),
{
    let account = lookup(s.accounts, id)->Some_0;
    lemma_put(s.accounts, id, account.harvested());
    lemma_put_back(s.accounts, id, account.harvested());
}

/// A confirmation keeps the ledger free of duplicates. It keeps the totals in
/// agreement with the accounts where the account's stake is what it was when
/// the settlement was asked for.
pub proof fn lemma_callbacks_preserve(
    s: LedgerState,
    id: Seq<char>,
    old_account: Account,
    results: Seq<PromiseResult>,
)
    requires
        s.well_formed(),
        s.recognizes(id, results),
    ensures
        s.withdraw_callback(id, old_account, results)->Ok_0.0.well_formed(),
        s.harvest_callback(id, old_account, results) is Ok ==> s.harvest_callback(
            id,
            old_account,
            results,
        )->Ok_0.0.well_formed(),
        s.balanced() && lookup(s.accounts, id)->Some_0.stake_balance == old_account.stake_balance
            ==> {
            &&& s.withdraw_callback(id, old_account, results)->Ok_0.0.balanced()
            &&& s.harvest_callback(id, old_account, results) is Ok ==> s.harvest_callback(
                id,
                old_account,
                results,
            )->Ok_0.0.balanced()
        },
{
    lemma_put(s.accounts, id, old_account);
    lemma_put_totals(s.accounts, id, old_account);
}

/// Once the sweep has failed on some account, it has failed for good.
pub proof fn lemma_restake_first_error(s: LedgerState, i: nat, n: nat, height: BlockHeight)
    requires
        i <= n,
        s.restake_first(i, height) is Err,
    ensures
        s.restake_first(n, height) == s.restake_first(i, height),
    decreases n - i,
{
    if i < n {
        lemma_restake_first_error(s, i, (n - 1) as nat, height);
    }
}

/// What the sweep has done after `n` accounts: each of them, in place, has
/// its accrued reward in its stake and its checkpoint at `height`; the sum of
/// their stakes has grown by what was folded, which the pool's total has room
/// for; and just as many of them hold a stake as before.
pub proof fn lemma_restake_first(s: LedgerState, n: nat, height: BlockHeight)
    requires
        n <= s.accounts.len(),
        s.restake_first(n, height) is Ok,
    ensures
        ({
            let (rows, folded) = s.restake_first(n, height)->Ok_0;
            &&& rows.len() == n
            &&& forall|j: int|
                #![trigger rows[j]]
                #![trigger s.accounts[j]]
                0 <= j < n ==> {
                    &&& s.account_reward(s.accounts[j].account, height) is Ok
                    &&& rows[j] == Record {
                        id: s.accounts[j].id,
                        account: s.accounts[j].account.restaked(
                            s.account_reward(s.accounts[j].account, height)->Ok_0,
                            height,
                        ),
                    }
                    &&& rows[j].account.stake_balance == s.accounts[j].account.stake_balance
                        + s.account_reward(s.accounts[j].account, height)->Ok_0
                }
            &&& total_stake(rows) == total_stake(s.accounts.take(n as int)) + folded
            &&& active_stakers(rows) == active_stakers(s.accounts.take(n as int))
            &&& s.total_stake_balance + folded <= u128::MAX
        }),
    decreases n,
{
    if n == 0 {
        assert(s.accounts.take(0) =~= Seq::<Record>::empty());
    } else {
        let m = (n - 1) as nat;
        lemma_restake_first(s, m, height);
        let (rows, folded) = s.restake_first(m, height)->Ok_0;
        let (rows_n, folded_n) = s.restake_first(n, height)->Ok_0;
        let row = s.accounts[n - 1];
        if row.account.stake_balance == 0 {
            lemma_no_stake_no_reward(s, row.account, height);
        }
        lemma_push_totals(rows, rows_n[n - 1]);
        lemma_push_totals(s.accounts.take(m as int), row);
        assert(s.accounts.take(n as int) =~= s.accounts.take(m as int).push(row));
        assert forall|j: int|
            #![trigger rows_n[j]]
            #![trigger s.accounts[j]]
            0 <= j < n implies {
            &&& s.account_reward(s.accounts[j].account, height) is Ok
            &&& rows_n[j] == Record {
                id: s.accounts[j].id,
                account: s.accounts[j].account.restaked(
                    s.account_reward(s.accounts[j].account, height)->Ok_0,
                    height,
                ),
            }
            &&& rows_n[j].account.stake_balance == s.accounts[j].account.stake_balance
                + s.account_reward(s.accounts[j].account, height)->Ok_0
        } by {
            if j < m {
                assert(rows_n[j] == rows[j]);
            }
        }
    }
}

/// The restake sweep keeps every participant in place, and keeps the ledger
/// free of duplicates and its totals in agreement with its accounts.
pub proof fn lemma_restake_preserves(s: LedgerState, height: BlockHeight)
    requires
        s.well_formed(),
        s.restake(height) is Ok,
    ensures
        ({
            let next = s.restake(height)->Ok_0;
            &&& next.well_formed()
            &&& next.accounts.len() == s.accounts.len()
            &&& forall|j: int|
                0 <= j < s.accounts.len() ==> (#[trigger] next.accounts[j]).id == s.accounts[j].id
            &&& s.balanced() ==> next.balanced()
        }),
{
    let n = s.accounts.len();
    lemma_restake_first(s, n, height);
    let next = s.restake(height)->Ok_0;
    assert(s.accounts.take(n as int) =~= s.accounts);
    assert forall|i: int, j: int| 0 <= i < j < next.accounts.len() implies (
    #[trigger] next.accounts[i]).id != (#[trigger] next.accounts[j]).id by {
        assert(s.accounts[i].id != s.accounts[j].id);
    }
}

} // verus!
