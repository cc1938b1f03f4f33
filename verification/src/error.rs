//! Why the ledger can refuse an operation.

use vstd::prelude::*;

verus! {

/// Every way in which an entry point of the ledger can fail. An operation that
/// returns one of these has not changed the ledger.
#[derive(Clone, Copy, Debug, PartialEq, Eq, Structural)]
pub enum StakingError {
    /// No account is registered under the given identity.
    AccountNotFound,
    /// An account is already registered under the given identity.
    AccountAlreadyExists,
    /// The amount asked for exceeds the balance it is taken from.
    InsufficientBalance,
    /// The unstaked balance is still locked at the current epoch.
    UnstakeLocked,
    /// The pool is paused and the operation needs it running.
    Paused,
    /// The caller is not the asset-transfer service the pool was created with.
    Unauthorized,
    /// There is nothing to pay out.
    ZeroAmount,
    /// The attached deposit does not cover what the operation requires.
    InsufficientDeposit,
    /// The operation requires a deposit of exactly one yocto.
    RequiresOneYocto,
    /// The effective height lies before the accrual checkpoint.
    HeightRegression,
    /// The reward rate has a zero denominator.
    ZeroDenominator,
    /// A balance or reward computation left the range of its type.
    Overflow,
    /// A settlement confirmation did not arrive as exactly one final outcome
    /// for an account of the ledger.
    ProtocolViolation,
}

impl StakingError {
    /// The text that describes this error to a caller.
    pub open spec fn message_spec(self) -> Seq<char> {
        match self {
            StakingError::AccountNotFound => "Account not found"@,
            StakingError::AccountAlreadyExists => "Account already exists"@,
            StakingError::InsufficientBalance => "Amount is not enough"@,
            StakingError::UnstakeLocked => "Unstake is not available"@,
            StakingError::Paused => "Contract is paused"@,
            StakingError::Unauthorized => "FT contract id is not the same as the sender"@,
            StakingError::ZeroAmount => "Nothing to harvest"@,
            StakingError::InsufficientDeposit => "Required deposit is more than the attached deposit"@,
            StakingError::RequiresOneYocto => "Required deposit is exact 1 yocto NEAR"@,
            StakingError::HeightRegression => "Block height is behind the last balance change"@,
            StakingError::ZeroDenominator => "Reward denominator is zero"@,
            StakingError::Overflow => "Arithmetic overflow"@,
            StakingError::ProtocolViolation => "ft_withdraw_callback should only be called once"@,
        }
    }

    /// Returns the text that describes this error.
    pub fn message(&self) -> (text: &'static str)
        ensures
            text@ == self.message_spec(),
    {
        match self {
            StakingError::AccountNotFound => "Account not found",
            StakingError::AccountAlreadyExists => "Account already exists",
            StakingError::InsufficientBalance => "Amount is not enough",
            StakingError::UnstakeLocked => "Unstake is not available",
            StakingError::Paused => "Contract is paused",
            StakingError::Unauthorized => "FT contract id is not the same as the sender",
            StakingError::ZeroAmount => "Nothing to harvest",
            StakingError::InsufficientDeposit => "Required deposit is more than the attached deposit",
            StakingError::RequiresOneYocto => "Required deposit is exact 1 yocto NEAR",
            StakingError::HeightRegression => "Block height is behind the last balance change",
            StakingError::ZeroDenominator => "Reward denominator is zero",
            StakingError::Overflow => "Arithmetic overflow",
            StakingError::ProtocolViolation => "ft_withdraw_callback should only be called once",
        }
    }
}

} // verus!
