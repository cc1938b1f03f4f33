use staking_contract::{
    Account, Context, PoolJson, StakingContract, StakingError, StorageKey,
};

const OWNER: &str = "owner";
const FT: &str = "ft_contract";
const ALICE: &str = "alice";
const BOB: &str = "bob";

fn ctx(caller: &str, height: u64, epoch: u64) -> Context {
    Context {
        predecessor_account_id: caller.to_string(),
        block_index: height,
        block_timestamp: height * 1_000_000_000,
        epoch_height: epoch,
        attached_deposit: 1,
        storage_byte_cost: 10_000_000_000_000_000_000,
    }
}

fn account_of(contract: &StakingContract, id: &str) -> Account {
    Account::from(contract.accounts.get(&id.to_string()).unwrap())
}

fn pool_with_alice() -> StakingContract {
    let mut contract =
        StakingContract::new_default_config(OWNER.to_string(), FT.to_string(), &ctx(OWNER, 0, 0));
    contract.internal_create_account(ALICE.to_string(), &ctx(ALICE, 0, 0)).unwrap();
    contract
        .internal_deposit_and_stake(ALICE.to_string(), 1_000_000, &ctx(FT, 0, 0))
        .unwrap();
    contract
}

#[test]
fn account_info_reports_claim_and_reward() {
    let mut contract = pool_with_alice();
    contract.internal_unstake(ALICE.to_string(), 200_000, &ctx(ALICE, 0, 4)).unwrap();
    let stored = account_of(&contract, ALICE);
    let info = contract.get_account_info(ALICE.to_string(), &ctx(BOB, 100_000, 4)).unwrap();
    assert_eq!(info.account_id, ALICE);
    // 800_000 * 715 * 100_000 / 1_000_000_000
    assert_eq!(info.reward_balance, 57_200);
    assert_eq!(info.stake_balance, 857_200);
    assert_eq!(info.unstake_balance, 200_000);
    assert_eq!(info.can_withdraw, false);
    assert_eq!(info.unstake_strt_tomstamp, 0);
    assert_eq!(info.unstake_start_timestamp, 0);
    assert_eq!(info.current_epoch, 4);
    assert_eq!(info.new_account_data, 0);
    // a query changes nothing
    assert_eq!(account_of(&contract, ALICE), stored);

    let later = contract.get_account_info(ALICE.to_string(), &ctx(BOB, 100_000, 5)).unwrap();
    assert_eq!(later.can_withdraw, true);
    assert_eq!(later.current_epoch, 5);
}

#[test]
fn account_info_reports_the_unstake_time() {
    let mut contract = pool_with_alice();
    contract.internal_unstake(ALICE.to_string(), 200_000, &ctx(ALICE, 30, 4)).unwrap();
    let info = contract.get_account_info(ALICE.to_string(), &ctx(BOB, 30, 4)).unwrap();
    assert_eq!(info.unstake_strt_tomstamp, 30_000_000_000);
    assert_eq!(info.unstake_start_timestamp, 30_000_000_000);
}

#[test]
fn account_info_of_a_stranger_is_empty() {
    let contract = pool_with_alice();
    let info = contract.get_account_info(BOB.to_string(), &ctx(BOB, 100_000, 3)).unwrap();
    assert_eq!(info.account_id, BOB);
    assert_eq!(info.stake_balance, 0);
    assert_eq!(info.unstake_balance, 0);
    assert_eq!(info.reward_balance, 0);
    assert_eq!(info.can_withdraw, true);
    assert_eq!(info.unstake_start_timestamp, 0);
    assert_eq!(info.unstake_strt_tomstamp, 0);
    assert_eq!(info.current_epoch, 3);
    assert_eq!(contract.accounts.len(), 1);
}

#[test]
fn account_info_errors() {
    let contract = pool_with_alice();
    let mut late =
        StakingContract::new_default_config(OWNER.to_string(), FT.to_string(), &ctx(OWNER, 0, 0));
    late.internal_create_account(ALICE.to_string(), &ctx(ALICE, 100, 0)).unwrap();
    let behind = late.get_account_info(ALICE.to_string(), &ctx(ALICE, 99, 0));
    assert_eq!(behind.err(), Some(StakingError::HeightRegression));
    assert_eq!(
        late.get_account_staked_balance(ALICE.to_string(), &ctx(ALICE, 99, 0)),
        Err(StakingError::HeightRegression)
    );
    // 1_000_000 * 715 * u64::MAX fits in 128 bits, so the claim is reported
    let far = contract.get_account_info(ALICE.to_string(), &ctx(ALICE, u64::MAX, 0)).unwrap();
    assert_eq!(far.reward_balance, 1_000_000u128 * 715 * (u64::MAX as u128) / 1_000_000_000);
}

#[test]
fn claim_that_does_not_fit_is_an_overflow() {
    let mut contract = StakingContract::new(
        OWNER.to_string(),
        FT.to_string(),
        staking_contract::Config { reward_numberator: 1, reward_denominator: 1 },
        &ctx(OWNER, 0, 0),
    );
    contract.internal_create_account(ALICE.to_string(), &ctx(ALICE, 0, 0)).unwrap();
    let half = u128::MAX / 2 + 1;
    contract.internal_deposit_and_stake(ALICE.to_string(), half, &ctx(FT, 0, 0)).unwrap();
    // the reward over one block equals the stake, and the two do not fit together
    assert_eq!(
        contract.get_account_staked_balance(ALICE.to_string(), &ctx(ALICE, 1, 0)),
        Err(StakingError::Overflow)
    );
    let info = contract.get_account_info(ALICE.to_string(), &ctx(ALICE, 1, 0));
    assert_eq!(info.err(), Some(StakingError::Overflow));
    assert_eq!(
        contract.get_account_staked_balance(ALICE.to_string(), &ctx(ALICE, 0, 0)),
        Ok(half)
    );
}

#[test]
fn staked_balance_is_stake_plus_reward() {
    let contract = pool_with_alice();
    assert_eq!(contract.get_account_staked_balance(ALICE.to_string(), &ctx(BOB, 0, 0)), Ok(1_000_000));
    assert_eq!(
        contract.get_account_staked_balance(ALICE.to_string(), &ctx(BOB, 100_000, 0)),
        Ok(1_071_500)
    );
    assert_eq!(contract.get_account_staked_balance(BOB.to_string(), &ctx(BOB, 100_000, 0)), Ok(0));
}

#[test]
fn paused_queries_at_different_heights_agree() {
    let mut contract = pool_with_alice();
    contract.paused = true;
    contract.pause_in_block = 50_000;
    let first = contract.get_account_info(ALICE.to_string(), &ctx(BOB, 60_000, 2)).unwrap();
    let second = contract.get_account_info(ALICE.to_string(), &ctx(BOB, 7_000_000, 2)).unwrap();
    assert_eq!(first.reward_balance, 35_750);
    assert_eq!(first.reward_balance, second.reward_balance);
    assert_eq!(first.stake_balance, second.stake_balance);
    assert_eq!(first.stake_balance, 1_035_750);
    assert_eq!(
        contract.get_account_staked_balance(ALICE.to_string(), &ctx(BOB, 60_000, 2)),
        contract.get_account_staked_balance(ALICE.to_string(), &ctx(BOB, 7_000_000, 2))
    );
    // while running, the same two heights disagree
    contract.paused = false;
    let first = contract.get_account_info(ALICE.to_string(), &ctx(BOB, 60_000, 2)).unwrap();
    let second = contract.get_account_info(ALICE.to_string(), &ctx(BOB, 7_000_000, 2)).unwrap();
    assert_eq!(first.reward_balance, 42_900);
    assert_eq!(second.reward_balance, 5_005_000);
}

#[test]
fn pool_info_reports_totals() {
    let mut contract = pool_with_alice();
    assert_eq!(
        contract.get_pool_info(),
        PoolJson {
            total_stake_balance: 1_000_000,
            total_staker: 1,
            is_paused: false,
            total_paid_reward_balance: 0,
        }
    );
    contract.paused = true;
    contract.total_paid_reward_balance = 9;
    assert_eq!(
        contract.get_pool_info(),
        PoolJson {
            total_stake_balance: 1_000_000,
            total_staker: 1,
            is_paused: true,
            total_paid_reward_balance: 9,
        }
    );
    assert!(contract.is_paused());
}

#[test]
fn storage_balance_is_the_stored_stake() {
    assert_eq!(pool_with_alice().storage_balance_of(ALICE.to_string()), 1_000_000);
    assert_eq!(pool_with_alice().storage_balance_of(BOB.to_string()), 0);
}

#[test]
fn storage_deposit_registers_once() {
    let mut contract = pool_with_alice();
    let paying = |caller: &str, attached_deposit: u128| Context {
        attached_deposit,
        ..ctx(caller, 77, 0)
    };
    assert_eq!(
        contract.storage_deposit(Some(BOB.to_string()), &paying(ALICE, 0)),
        Err(StakingError::InsufficientDeposit)
    );
    assert_eq!(contract.accounts.len(), 1);
    assert_eq!(contract.storage_deposit(Some(BOB.to_string()), &paying(ALICE, 1)), Ok(true));
    assert_eq!(account_of(&contract, BOB).last_block_balance_change, 77);
    assert_eq!(account_of(&contract, BOB).stake_balance, 0);
    assert_eq!(contract.accounts.len(), 2);
    // a second registration leaves the account alone
    let alice = account_of(&contract, ALICE);
    assert_eq!(contract.storage_deposit(Some(ALICE.to_string()), &paying(BOB, 5)), Ok(false));
    assert_eq!(contract.storage_deposit(None, &paying(ALICE, 5)), Ok(false));
    assert_eq!(account_of(&contract, ALICE), alice);
    assert_eq!(contract.accounts.len(), 2);
    // without a name the caller is registered
    assert_eq!(contract.storage_deposit(None, &paying("carol", 5)), Ok(true));
    assert_eq!(contract.accounts.position(&"carol".to_string()), Some(2));
}

#[test]
fn storage_key_names_the_account_table() {
    assert_eq!(StorageKey::AccountKey, StorageKey::AccountKey);
}
