//! Block-scoped data: block identifiers and the immutable per-height
//! context a live execution context is bound to.

use vstd::prelude::*;
use crate::core_types::ContractAddress;
use crate::hash::StarkHash;

verus! {

/// The height of a block.
#[derive(Debug, Copy, Clone, Default, Eq, PartialEq, Hash, Structural)]
pub struct BlockNumber(pub u64);

/// The hash of a block.
#[derive(Debug, Copy, Clone, Default, Eq, PartialEq, Hash, Structural)]
pub struct BlockHash(pub StarkHash);

/// The context a single block height is validated under.  It is fixed when
/// an execution context is set up and never changes while that context is
/// live.
#[derive(Debug, Copy, Clone, Eq, PartialEq, Hash, Structural)]
pub struct BlockInfo {
    /// The height being built.
    pub block_number: BlockNumber,
    /// Timestamp the sequencer assigned to the block.
    pub block_timestamp: u64,
    /// Price of one gas unit in this block.
    pub gas_price: u128,
    /// The contract holding fee-token balances.
    pub fee_token_address: ContractAddress,
}

} // verus!
