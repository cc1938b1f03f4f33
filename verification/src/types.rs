//! Plain types shared by the whole ledger.

use vstd::prelude::*;

verus! {

/// Identity of a participant, as the host spells it.
pub type AccountId = String;

/// An amount of the staked asset, or of the host's native token.
pub type Balance = u128;

/// Block height: the clock by which reward accrues.
pub type BlockHeight = u64;

/// Epoch height: the coarser clock that gates withdrawal.
pub type EpochHeight = u64;

/// Wall time in nanoseconds.
pub type Timestamp = u64;

/// Bytes of host storage.
pub type StorageUsage = u64;

} // verus!
