//! What the host tells the ledger about the call it is serving.

use vstd::prelude::*;
use crate::types::{AccountId, Balance, BlockHeight, EpochHeight, Timestamp};

verus! {

/// The host's answers for one call: who calls, at which height, time and
/// epoch, with how much attached, and what a byte of storage costs.
#[derive(Debug)]
pub struct Context {
    pub predecessor_account_id: AccountId,
    pub block_index: BlockHeight,
    pub block_timestamp: Timestamp,
    pub epoch_height: EpochHeight,
    pub attached_deposit: Balance,
    pub storage_byte_cost: Balance,
}

/// Outcome of an outgoing transfer, as the host reports it to the callback
/// that was chained to the transfer.
#[derive(Clone, Copy, Debug, PartialEq, Eq, Structural)]
pub enum PromiseResult {
    /// The transfer has not finished. A callback never sees this.
    NotReady,
    /// The transfer went through.
    Successful,
    /// The transfer failed and moved nothing.
    Failed,
}

} // verus!
