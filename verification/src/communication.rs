//! The batcher's request/response protocol.
//!
//! Every operation on the batcher is one request tagged by kind and one
//! response carrying a result.  The transport that moves them is outside
//! the library; what is verified here is the response handling every
//! client shares: the response to an operation must carry that operation's
//! tag — any other variant is a transport-level fault, kept strictly apart
//! from a batcher-reported (domain) error.

use vstd::prelude::*;
use crate::batcher_types::{
    BatcherError, BatcherResult, DecisionReachedInput, DecisionReachedResponse,
    GetProposalContentInput, GetProposalContentResponse, GetHeightResponse, ProposeBlockInput,
    SendProposalContentInput, SendProposalContentResponse, StartHeightInput, SyncBlock,
    ValidateBlockInput,
};

verus! {

/// One request to the batcher, tagged by operation kind.
#[derive(Debug, Eq, PartialEq)]
pub enum BatcherRequest {
    ProposeBlock(ProposeBlockInput),
    GetProposalContent(GetProposalContentInput),
    ValidateBlock(ValidateBlockInput),
    SendProposalContent(SendProposalContentInput),
    StartHeight(StartHeightInput),
    GetCurrentHeight,
    DecisionReached(DecisionReachedInput),
    AddSyncBlock(SyncBlock),
}

/// One response from the batcher, tagged like the request it answers.
#[derive(Debug, Eq, PartialEq)]
pub enum BatcherResponse {
    ProposeBlock(BatcherResult<()>),
    GetCurrentHeight(BatcherResult<GetHeightResponse>),
    GetProposalContent(BatcherResult<GetProposalContentResponse>),
    ValidateBlock(BatcherResult<()>),
    SendProposalContent(BatcherResult<SendProposalContentResponse>),
    StartHeight(BatcherResult<()>),
    DecisionReached(BatcherResult<DecisionReachedResponse>),
    AddSyncBlock(BatcherResult<()>),
}

/// Failures of the transport itself, as opposed to errors the batcher
/// reports.
#[derive(Debug, Copy, Clone, Eq, PartialEq, Structural)]
pub enum ClientError {
    /// The channel could not deliver the request or the response.
    CommunicationFailure,
    /// The response carried a different operation's tag.
    UnexpectedResponse,
}

/// What a batcher client call can fail with: a transport fault or a
/// batcher-reported error — two channels, never mixed.
#[derive(Debug, Copy, Clone, Eq, PartialEq, Structural)]
pub enum BatcherClientError {
    ClientError(ClientError),
    BatcherError(BatcherError),
}

/// The result of one batcher client call.
pub type BatcherClientResult<T> = Result<T, BatcherClientError>;

/// Extracts the outcome of a propose-block request: its own tag yields the
/// payload or the batcher's error; any other tag is a transport fault.
pub fn handle_propose_block_response(response: BatcherResponse) -> (r: BatcherClientResult<()>)
    ensures
        match response {
            BatcherResponse::ProposeBlock(Ok(payload)) => r == Ok::<(), BatcherClientError>(
                payload,
            ),
            BatcherResponse::ProposeBlock(Err(e)) => r == Err::<(), BatcherClientError>(
                BatcherClientError::BatcherError(e),
            ),
            _ => r == Err::<(), BatcherClientError>(
                BatcherClientError::ClientError(ClientError::UnexpectedResponse),
            ),
        },
{
    match response {
        BatcherResponse::ProposeBlock(Ok(payload)) => Ok(payload),
        BatcherResponse::ProposeBlock(Err(e)) => Err(BatcherClientError::BatcherError(e)),
        _ => Err(BatcherClientError::ClientError(ClientError::UnexpectedResponse)),
    }
}

/// Extracts the outcome of a get-height request.
pub fn handle_get_height_response(response: BatcherResponse) -> (r: BatcherClientResult<
    GetHeightResponse,
>)
    ensures
        match response {
            BatcherResponse::GetCurrentHeight(Ok(payload)) => r == Ok::<
                GetHeightResponse,
                BatcherClientError,
            >(payload),
            BatcherResponse::GetCurrentHeight(Err(e)) => r == Err::<
                GetHeightResponse,
                BatcherClientError,
            >(BatcherClientError::BatcherError(e)),
            _ => r == Err::<GetHeightResponse, BatcherClientError>(
                BatcherClientError::ClientError(ClientError::UnexpectedResponse),
            ),
        },
{
    match response {
        BatcherResponse::GetCurrentHeight(Ok(payload)) => Ok(payload),
        BatcherResponse::GetCurrentHeight(Err(e)) => Err(BatcherClientError::BatcherError(e)),
        _ => Err(BatcherClientError::ClientError(ClientError::UnexpectedResponse)),
    }
}

/// Extracts the outcome of a get-proposal-content request.
pub fn handle_get_proposal_content_response(response: BatcherResponse) -> (r: BatcherClientResult<
    GetProposalContentResponse,
>)
    ensures
        match response {
            BatcherResponse::GetProposalContent(Ok(payload)) => r == Ok::<
                GetProposalContentResponse,
                BatcherClientError,
            >(payload),
            BatcherResponse::GetProposalContent(Err(e)) => r == Err::<
                GetProposalContentResponse,
                BatcherClientError,
            >(BatcherClientError::BatcherError(e)),
            _ => r == Err::<GetProposalContentResponse, BatcherClientError>(
                BatcherClientError::ClientError(ClientError::UnexpectedResponse),
            ),
        },
{
    match response {
        BatcherResponse::GetProposalContent(Ok(payload)) => Ok(payload),
        BatcherResponse::GetProposalContent(Err(e)) => Err(BatcherClientError::BatcherError(e)),
        _ => Err(BatcherClientError::ClientError(ClientError::UnexpectedResponse)),
    }
}

/// Extracts the outcome of a validate-block request.
pub fn handle_validate_block_response(response: BatcherResponse) -> (r: BatcherClientResult<()>)
    ensures
        match response {
            BatcherResponse::ValidateBlock(Ok(payload)) => r == Ok::<(), BatcherClientError>(
                payload,
            ),
            BatcherResponse::ValidateBlock(Err(e)) => r == Err::<(), BatcherClientError>(
                BatcherClientError::BatcherError(e),
            ),
            _ => r == Err::<(), BatcherClientError>(
                BatcherClientError::ClientError(ClientError::UnexpectedResponse),
            ),
        },
{
    match response {
        BatcherResponse::ValidateBlock(Ok(payload)) => Ok(payload),
        BatcherResponse::ValidateBlock(Err(e)) => Err(BatcherClientError::BatcherError(e)),
        _ => Err(BatcherClientError::ClientError(ClientError::UnexpectedResponse)),
    }
}

/// Extracts the outcome of a send-proposal-content request.
pub fn handle_send_proposal_content_response(response: BatcherResponse) -> (r: BatcherClientResult<
    SendProposalContentResponse,
>)
    ensures
        match response {
            BatcherResponse::SendProposalContent(Ok(payload)) => r == Ok::<
                SendProposalContentResponse,
                BatcherClientError,
            >(payload),
            BatcherResponse::SendProposalContent(Err(e)) => r == Err::<
                SendProposalContentResponse,
                BatcherClientError,
            >(BatcherClientError::BatcherError(e)),
            _ => r == Err::<SendProposalContentResponse, BatcherClientError>(
                BatcherClientError::ClientError(ClientError::UnexpectedResponse),
            ),
        },
{
    match response {
        BatcherResponse::SendProposalContent(Ok(payload)) => Ok(payload),
        BatcherResponse::SendProposalContent(Err(e)) => Err(BatcherClientError::BatcherError(e)),
        _ => Err(BatcherClientError::ClientError(ClientError::UnexpectedResponse)),
    }
}

/// Extracts the outcome of a start-height request.
pub fn handle_start_height_response(response: BatcherResponse) -> (r: BatcherClientResult<()>)
    ensures
        match response {
            BatcherResponse::StartHeight(Ok(payload)) => r == Ok::<(), BatcherClientError>(payload),
            BatcherResponse::StartHeight(Err(e)) => r == Err::<(), BatcherClientError>(
                BatcherClientError::BatcherError(e),
            ),
            _ => r == Err::<(), BatcherClientError>(
                BatcherClientError::ClientError(ClientError::UnexpectedResponse),
            ),
        },
{
    match response {
        BatcherResponse::StartHeight(Ok(payload)) => Ok(payload),
        BatcherResponse::StartHeight(Err(e)) => Err(BatcherClientError::BatcherError(e)),
        _ => Err(BatcherClientError::ClientError(ClientError::UnexpectedResponse)),
    }
}

/// Extracts the outcome of a decision-reached request.
pub fn handle_decision_reached_response(response: BatcherResponse) -> (r: BatcherClientResult<
    DecisionReachedResponse,
>)
    ensures
        match response {
            BatcherResponse::DecisionReached(Ok(payload)) => r == Ok::<
                DecisionReachedResponse,
                BatcherClientError,
            >(payload),
            BatcherResponse::DecisionReached(Err(e)) => r == Err::<
                DecisionReachedResponse,
                BatcherClientError,
            >(BatcherClientError::BatcherError(e)),
            _ => r == Err::<DecisionReachedResponse, BatcherClientError>(
                BatcherClientError::ClientError(ClientError::UnexpectedResponse),
            ),
        },
{
    match response {
        BatcherResponse::DecisionReached(Ok(payload)) => Ok(payload),
        BatcherResponse::DecisionReached(Err(e)) => Err(BatcherClientError::BatcherError(e)),
        _ => Err(BatcherClientError::ClientError(ClientError::UnexpectedResponse)),
    }
}

/// Extracts the outcome of an add-sync-block request.
pub fn handle_add_sync_block_response(response: BatcherResponse) -> (r: BatcherClientResult<()>)
    ensures
        match response {
            BatcherResponse::AddSyncBlock(Ok(payload)) => r == Ok::<(), BatcherClientError>(
                payload,
            ),
            BatcherResponse::AddSyncBlock(Err(e)) => r == Err::<(), BatcherClientError>(
                BatcherClientError::BatcherError(e),
            ),
            _ => r == Err::<(), BatcherClientError>(
                BatcherClientError::ClientError(ClientError::UnexpectedResponse),
            ),
        },
{
    match response {
        BatcherResponse::AddSyncBlock(Ok(payload)) => Ok(payload),
        BatcherResponse::AddSyncBlock(Err(e)) => Err(BatcherClientError::BatcherError(e)),
        _ => Err(BatcherClientError::ClientError(ClientError::UnexpectedResponse)),
    }
}

} // verus!
