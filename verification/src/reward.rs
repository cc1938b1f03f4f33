//! The reward model: what a balance earns over an interval of block heights.

use vstd::prelude::*;
use vstd::arithmetic::div_mod::lemma_div_is_ordered;
use vstd::arithmetic::mul::{
    lemma_mul_inequality,
    lemma_mul_is_associative,
    lemma_mul_is_commutative,
};
use crate::config::Config;
use crate::error::StakingError;
use crate::types::{Balance, BlockHeight};

verus! {

/// Reward earned by `balance` over `elapsed` blocks at the rate
/// `numerator / denominator` per block, rounded down.
pub open spec fn accrued_reward(balance: nat, numerator: nat, denominator: nat, elapsed: nat) -> nat
    recommends
        denominator > 0,
{
    (balance * numerator * elapsed) / denominator
}

/// What [`accrue`] returns: the reward, or the reason why it cannot be computed
/// in 128 bits.
pub open spec fn accrue_spec(balance: Balance, config: Config, elapsed: BlockHeight) -> Result<
    Balance,
    StakingError,
> {
    if config.reward_denominator == 0 {
        Err(StakingError::ZeroDenominator)
    } else if balance * config.reward_numberator * elapsed > u128::MAX {
        Err(StakingError::Overflow)
    } else {
        Ok(
            accrued_reward(
                balance as nat,
                config.reward_numberator as nat,
                config.reward_denominator as nat,
                elapsed as nat,
            ) as u128,
        )
    }
}

/// Reward is monotonic in elapsed height: a longer interval never earns less.
pub proof fn lemma_accrued_reward_monotonic(
    balance: nat,
    numerator: nat,
    denominator: nat,
    elapsed1: nat,
    elapsed2: nat,
)
    requires
        denominator > 0,
        elapsed1 <= elapsed2,
    ensures
        accrued_reward(balance, numerator, denominator, elapsed1) <= accrued_reward(
            balance,
            numerator,
            denominator,
            elapsed2,
        ),
{
    let rate = balance * numerator;
    lemma_mul_is_commutative(rate as int, elapsed1 as int);
    lemma_mul_is_commutative(rate as int, elapsed2 as int);
    lemma_mul_inequality(elapsed1 as int, elapsed2 as int, rate as int);
    lemma_div_is_ordered((rate * elapsed1) as int, (rate * elapsed2) as int, denominator as int);
}

/// No reward accrues over an empty interval, nor on an empty balance.
pub proof fn lemma_accrued_reward_zero(balance: nat, numerator: nat, denominator: nat, elapsed: nat)
    requires
        denominator > 0,
        balance == 0 || elapsed == 0,
    ensures
        accrued_reward(balance, numerator, denominator, elapsed) == 0,
{
    assert(balance * numerator * elapsed == 0) by (nonlinear_arith)
        requires
            balance == 0 || elapsed == 0,
    ;
}

/// Computes the reward that `balance` earns over `elapsed` blocks at the rate
/// of `config`, in checked 128-bit arithmetic.
pub fn accrue(balance: Balance, config: &Config, elapsed: BlockHeight) -> (reward: Result<
    Balance,
    StakingError,
>)
    ensures
        reward == accrue_spec(balance, *config, elapsed),
{
    if config.reward_denominator == 0 {
        return Err(StakingError::ZeroDenominator);
    }
    let numerator: u128 = config.reward_numberator as u128;
    let blocks: u128 = elapsed as u128;
    assert(numerator * blocks <= 0xffff_ffff * 0xffff_ffff_ffff_ffff) by (nonlinear_arith)
        requires
            numerator <= 0xffff_ffff,
            blocks <= 0xffff_ffff_ffff_ffff,
    ;
    let per_unit: u128 = numerator * blocks;
    proof {
        lemma_mul_is_associative(balance as int, numerator as int, blocks as int);
    }
    match balance.checked_mul(per_unit) {
        None => Err(StakingError::Overflow),
        Some(product) => {
            let denominator: u128 = config.reward_denominator as u128;
            let reward: u128 = product / denominator;
            Ok(reward)
        },
    }
}

} // verus!
