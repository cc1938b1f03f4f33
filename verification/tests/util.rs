use staking_contract::util::{asser_at_least_one_yocto, assert_one_yocto, refund_deposit};
use staking_contract::{Context, StakingError};

const BYTE_COST: u128 = 10_000_000_000_000_000_000;

fn ctx(attached_deposit: u128, storage_byte_cost: u128) -> Context {
    Context {
        predecessor_account_id: "alice".to_string(),
        block_index: 0,
        block_timestamp: 0,
        epoch_height: 0,
        attached_deposit,
        storage_byte_cost,
    }
}

#[test]
fn at_least_one_yocto() {
    assert_eq!(asser_at_least_one_yocto(&ctx(0, BYTE_COST)), Err(StakingError::InsufficientDeposit));
    assert_eq!(asser_at_least_one_yocto(&ctx(1, BYTE_COST)), Ok(()));
    assert_eq!(asser_at_least_one_yocto(&ctx(u128::MAX, BYTE_COST)), Ok(()));
}

#[test]
fn exactly_one_yocto() {
    assert_eq!(assert_one_yocto(&ctx(0, BYTE_COST)), Err(StakingError::RequiresOneYocto));
    assert_eq!(assert_one_yocto(&ctx(1, BYTE_COST)), Ok(()));
    assert_eq!(assert_one_yocto(&ctx(2, BYTE_COST)), Err(StakingError::RequiresOneYocto));
}

#[test]
fn refund_is_what_storage_leaves() {
    let attached = 2_000_000_000_000_000_000_000u128;
    assert_eq!(refund_deposit(0, &ctx(attached, BYTE_COST)), Ok(attached));
    assert_eq!(
        refund_deposit(100, &ctx(attached, BYTE_COST)),
        Ok(1_000_000_000_000_000_000_000)
    );
    assert_eq!(refund_deposit(200, &ctx(attached, BYTE_COST)), Ok(0));
}

#[test]
fn refund_fails_when_deposit_falls_short() {
    let attached = 2_000_000_000_000_000_000_000u128;
    assert_eq!(
        refund_deposit(201, &ctx(attached, BYTE_COST)),
        Err(StakingError::InsufficientDeposit)
    );
    assert_eq!(refund_deposit(1, &ctx(0, BYTE_COST)), Err(StakingError::InsufficientDeposit));
    // a cost beyond 128 bits is beyond any deposit
    assert_eq!(
        refund_deposit(2, &ctx(u128::MAX, u128::MAX)),
        Err(StakingError::InsufficientDeposit)
    );
    assert_eq!(refund_deposit(1, &ctx(u128::MAX, u128::MAX)), Ok(0));
}
