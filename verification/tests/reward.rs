use staking_contract::reward::accrue;
use staking_contract::{Config, StakingError};

fn rate() -> Config {
    Config { reward_numberator: 715, reward_denominator: 1_000_000_000 }
}

#[test]
fn default_rate_is_715_per_billion() {
    assert_eq!(Config::default(), rate());
}

#[test]
fn accrue_one_million_over_hundred_thousand_blocks() {
    assert_eq!(accrue(1_000_000, &rate(), 100_000), Ok(71_500));
}

#[test]
fn accrue_rounds_down() {
    // 999 * 715 * 1 = 714_285, below one unit at a denominator of a billion
    assert_eq!(accrue(999, &rate(), 1), Ok(0));
    // 1_000_000 * 715 * 3 / 1_000_000_000 = 2.145
    assert_eq!(accrue(1_000_000, &rate(), 3), Ok(2));
    // 7 * 3 * 5 / 4 = 26.25
    let quarter = Config { reward_numberator: 3, reward_denominator: 4 };
    assert_eq!(accrue(7, &quarter, 5), Ok(26));
}

#[test]
fn accrue_nothing_over_no_blocks_or_no_balance() {
    assert_eq!(accrue(1_000_000, &rate(), 0), Ok(0));
    assert_eq!(accrue(0, &rate(), 100_000), Ok(0));
}

#[test]
fn accrue_is_monotonic_in_elapsed_height() {
    let mut previous = 0u128;
    for elapsed in [0u64, 1, 2, 3, 100_000, 100_001, 5_000_000, u32::MAX as u64] {
        let reward = accrue(1_000_000, &rate(), elapsed).unwrap();
        assert!(previous <= reward);
        previous = reward;
    }
    // 0.715 a block
    assert_eq!(accrue(1_000_000, &rate(), 1), Ok(0));
    assert_eq!(accrue(1_000_000, &rate(), 2), Ok(1));
}

#[test]
fn accrue_rejects_zero_denominator() {
    let broken = Config { reward_numberator: 715, reward_denominator: 0 };
    assert_eq!(accrue(1_000_000, &broken, 100_000), Err(StakingError::ZeroDenominator));
    assert_eq!(accrue(0, &broken, 0), Err(StakingError::ZeroDenominator));
}

#[test]
fn accrue_detects_overflow() {
    assert_eq!(accrue(u128::MAX, &rate(), 1), Err(StakingError::Overflow));
    // the product fits exactly: u128::MAX * 1 * 1
    let one = Config { reward_numberator: 1, reward_denominator: 1 };
    assert_eq!(accrue(u128::MAX, &one, 1), Ok(u128::MAX));
    assert_eq!(accrue(u128::MAX, &one, 2), Err(StakingError::Overflow));
    // the largest rate times the longest interval still fits with a small balance
    let steep = Config { reward_numberator: u32::MAX, reward_denominator: 1 };
    assert_eq!(
        accrue(2, &steep, u64::MAX),
        Ok(2 * (u32::MAX as u128) * (u64::MAX as u128))
    );
}

#[test]
fn error_messages() {
    assert_eq!(StakingError::AccountNotFound.message(), "Account not found");
    assert_eq!(StakingError::AccountAlreadyExists.message(), "Account already exists");
    assert_eq!(StakingError::InsufficientBalance.message(), "Amount is not enough");
    assert_eq!(StakingError::UnstakeLocked.message(), "Unstake is not available");
    assert_eq!(StakingError::Paused.message(), "Contract is paused");
    assert_eq!(
        StakingError::Unauthorized.message(),
        "FT contract id is not the same as the sender"
    );
    assert_eq!(StakingError::ZeroAmount.message(), "Nothing to harvest");
    assert_eq!(
        StakingError::InsufficientDeposit.message(),
        "Required deposit is more than the attached deposit"
    );
    assert_eq!(
        StakingError::RequiresOneYocto.message(),
        "Required deposit is exact 1 yocto NEAR"
    );
    assert_eq!(
        StakingError::HeightRegression.message(),
        "Block height is behind the last balance change"
    );
    assert_eq!(StakingError::ZeroDenominator.message(), "Reward denominator is zero");
    assert_eq!(StakingError::Overflow.message(), "Arithmetic overflow");
    assert_eq!(
        StakingError::ProtocolViolation.message(),
        "ft_withdraw_callback should only be called once"
    );
}
