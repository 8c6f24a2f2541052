//! Status reporting for the mining subsystem that consumes signatures.

use vstd::prelude::*;

verus! {

/// Mining status: how many transactions sit at each stage of the queue.
#[derive(Clone, Copy, Debug, PartialEq, Eq, Structural)]
pub struct MinerStatus {
    /// Number of transactions in the queue ready to be included in a block.
    pub transactions_in_pending_queue: usize,
    /// Number of transactions in the queue not yet ready to be included.
    pub transactions_in_future_queue: usize,
    /// Number of transactions included in the block currently being mined.
    pub transactions_in_pending_block: usize,
}

} // verus!
