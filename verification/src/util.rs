//! Checks on the deposit that a call brings with it.

use vstd::prelude::*;
use crate::context::Context;
use crate::error::StakingError;
use crate::types::{Balance, StorageUsage};

verus! {

/// What is left of the deposit `attached` once `storage_used` bytes are paid
/// for at `storage_byte_cost` each; no refund where the deposit falls short.
pub open spec fn refund_spec(
    storage_used: StorageUsage,
    storage_byte_cost: Balance,
    attached: Balance,
) -> Result<Balance, StakingError> {
    if attached < storage_byte_cost * storage_used {
        Err(StakingError::InsufficientDeposit)
    } else {
        Ok((attached - storage_byte_cost * storage_used) as u128)
    }
}

/// Checks that the call of `ctx` brings a deposit of at least one yocto.
pub fn asser_at_least_one_yocto(ctx: &Context) -> (result: Result<(), StakingError>)
    ensures
        result == if ctx.attached_deposit >= 1 {
            Ok::<(), StakingError>(())
        } else {
            Err::<(), StakingError>(StakingError::InsufficientDeposit)
        },
{
    if ctx.attached_deposit >= 1 {
        Ok(())
    } else {
        Err(StakingError::InsufficientDeposit)
    }
}

/// Checks that the call of `ctx` brings a deposit of exactly one yocto.
pub fn assert_one_yocto(ctx: &Context) -> (result: Result<(), StakingError>)
    ensures
        result == if ctx.attached_deposit == 1 {
            Ok::<(), StakingError>(())
        } else {
            Err::<(), StakingError>(StakingError::RequiresOneYocto)
        },
{
    if ctx.attached_deposit == 1 {
        Ok(())
    } else {
        Err(StakingError::RequiresOneYocto)
    }
}

/// Computes what the caller of `ctx` gets back of the attached deposit after
/// paying for `storage_used` bytes of storage. Fails where the deposit does
/// not cover the cost.
pub fn refund_deposit(storage_used: StorageUsage, ctx: &Context) -> (refund: Result<
    Balance,
    StakingError,
>)
    ensures
        refund == refund_spec(storage_used, ctx.storage_byte_cost, ctx.attached_deposit),
{
    let bytes: Balance = storage_used as Balance;
    match ctx.storage_byte_cost.checked_mul(bytes) {
        None => Err(StakingError::InsufficientDeposit),
        Some(required_cost) => {
            if ctx.attached_deposit >= required_cost {
                Ok(ctx.attached_deposit - required_cost)
            } else {
                Err(StakingError::InsufficientDeposit)
            }
        },
    }
}

} // verus!
