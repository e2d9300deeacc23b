//! The request and response payloads of the batcher interface.
//!
//! The batcher builds and validates block proposals; other components talk
//! to it over a request/response channel.  Each payload here is a plain
//! value; the channel itself is transport and lives outside the library.

use vstd::prelude::*;
use crate::block::BlockNumber;
use crate::transaction::{Transaction, TransactionHash};

verus! {

/// Identifies one proposal within a height.
#[derive(Debug, Copy, Clone, Default, Eq, PartialEq, Hash, Structural)]
pub struct ProposalId(pub u64);

/// Asks the batcher to start building a proposal.
#[derive(Debug, Copy, Clone, Eq, PartialEq, Structural)]
pub struct ProposeBlockInput {
    pub proposal_id: ProposalId,
    pub block_number: BlockNumber,
}

/// Asks the batcher to start validating a proposal.
#[derive(Debug, Copy, Clone, Eq, PartialEq, Structural)]
pub struct ValidateBlockInput {
    pub proposal_id: ProposalId,
    pub block_number: BlockNumber,
}

/// Asks for the next available content of a proposal being built.
#[derive(Debug, Copy, Clone, Eq, PartialEq, Structural)]
pub struct GetProposalContentInput {
    pub proposal_id: ProposalId,
}

/// One piece of a proposal stream.
#[derive(Debug, Clone, Eq, PartialEq)]
pub enum GetProposalContent {
    /// The next transactions of the proposal.
    Txs(Vec<Transaction>),
    /// The proposal is complete.
    Finished,
}

/// The next available content of a proposal being built.
#[derive(Debug, Clone, Eq, PartialEq)]
pub struct GetProposalContentResponse {
    pub content: GetProposalContent,
}

/// One piece of the content of a proposal being validated.
#[derive(Debug, Clone, Eq, PartialEq)]
pub enum SendProposalContent {
    /// More transactions of the proposal.
    Txs(Vec<Transaction>),
    /// The content is complete.
    Finish,
    /// The proposal is abandoned.
    Abort,
}

/// Hands the batcher content of a proposal under validation.
#[derive(Debug, Clone, Eq, PartialEq)]
pub struct SendProposalContentInput {
    pub proposal_id: ProposalId,
    pub content: SendProposalContent,
}

/// Where the batcher stands with a proposal under validation.
#[derive(Debug, Copy, Clone, Eq, PartialEq, Structural)]
pub enum ProposalStatus {
    /// Content received, more may follow.
    Processing,
    /// The proposal finished processing.
    Finished,
    /// The proposal was rejected as invalid.
    InvalidProposal,
    /// The proposal was abandoned.
    Aborted,
}

/// The batcher's answer to proposal content.
#[derive(Debug, Copy, Clone, Eq, PartialEq, Structural)]
pub struct SendProposalContentResponse {
    pub response: ProposalStatus,
}

/// Tells the batcher a new height starts.
#[derive(Debug, Copy, Clone, Eq, PartialEq, Structural)]
pub struct StartHeightInput {
    pub height: BlockNumber,
}

/// The first height not written to storage yet.
#[derive(Debug, Copy, Clone, Eq, PartialEq, Structural)]
pub struct GetHeightResponse {
    pub height: BlockNumber,
}

/// Tells the batcher which proposal consensus settled on.
#[derive(Debug, Copy, Clone, Eq, PartialEq, Structural)]
pub struct DecisionReachedInput {
    pub proposal_id: ProposalId,
}

/// What committing the decided proposal amounted to.
#[derive(Debug, Copy, Clone, Eq, PartialEq, Structural)]
pub struct DecisionReachedResponse {
    /// Gas the committed block consumed.
    pub l2_gas_used: u64,
}

/// A block learned from state sync rather than from consensus.
#[derive(Debug, Clone, Eq, PartialEq)]
pub struct SyncBlock {
    pub block_number: BlockNumber,
    pub transaction_hashes: Vec<TransactionHash>,
}

/// Failures the batcher itself reports.
#[derive(Debug, Copy, Clone, Eq, PartialEq, Structural)]
pub enum BatcherError {
    /// The named proposal is not known to the batcher.
    ProposalNotFound,
    /// A proposal with this identifier already exists.
    ProposalAlreadyExists,
    /// The request does not fit the height the batcher works on.
    HeightMismatch,
    /// The batcher failed internally.
    InternalError,
}

/// A batcher operation either succeeds with its payload or fails with a
/// batcher-reported error.
pub type BatcherResult<T> = Result<T, BatcherError>;

} // verus!
