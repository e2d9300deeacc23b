//! Response handling of the batcher protocol: the right tag yields the
//! payload or the domain error; a wrong tag is a transport fault.

use starknet_validator::batcher_types::{
    BatcherError, GetHeightResponse, GetProposalContent, GetProposalContentResponse,
    ProposalStatus, SendProposalContentResponse,
};
use starknet_validator::block::BlockNumber;
use starknet_validator::communication::{
    handle_add_sync_block_response, handle_decision_reached_response, handle_get_height_response,
    handle_get_proposal_content_response, handle_propose_block_response,
    handle_send_proposal_content_response, handle_start_height_response,
    handle_validate_block_response, BatcherClientError, BatcherResponse, ClientError,
};

#[test]
fn matching_tag_passes_the_payload_through() {
    let response = BatcherResponse::GetCurrentHeight(Ok(GetHeightResponse {
        height: BlockNumber(41),
    }));
    assert_eq!(
        handle_get_height_response(response),
        Ok(GetHeightResponse { height: BlockNumber(41) })
    );

    let response = BatcherResponse::SendProposalContent(Ok(SendProposalContentResponse {
        response: ProposalStatus::Processing,
    }));
    assert_eq!(
        handle_send_proposal_content_response(response),
        Ok(SendProposalContentResponse { response: ProposalStatus::Processing })
    );

    let response = BatcherResponse::GetProposalContent(Ok(GetProposalContentResponse {
        content: GetProposalContent::Finished,
    }));
    assert_eq!(
        handle_get_proposal_content_response(response),
        Ok(GetProposalContentResponse { content: GetProposalContent::Finished })
    );

    assert_eq!(handle_propose_block_response(BatcherResponse::ProposeBlock(Ok(()))), Ok(()));
    assert_eq!(handle_validate_block_response(BatcherResponse::ValidateBlock(Ok(()))), Ok(()));
    assert_eq!(handle_start_height_response(BatcherResponse::StartHeight(Ok(()))), Ok(()));
    assert_eq!(handle_add_sync_block_response(BatcherResponse::AddSyncBlock(Ok(()))), Ok(()));
}

#[test]
fn matching_tag_with_a_domain_error_stays_a_domain_error() {
    let response = BatcherResponse::ProposeBlock(Err(BatcherError::ProposalAlreadyExists));
    assert_eq!(
        handle_propose_block_response(response),
        Err(BatcherClientError::BatcherError(BatcherError::ProposalAlreadyExists))
    );

    let response = BatcherResponse::DecisionReached(Err(BatcherError::ProposalNotFound));
    assert_eq!(
        handle_decision_reached_response(response),
        Err(BatcherClientError::BatcherError(BatcherError::ProposalNotFound))
    );
}

#[test]
fn a_wrong_tag_is_a_transport_fault_not_a_domain_error() {
    // A start-height answer arriving for a propose-block request.
    let response = BatcherResponse::StartHeight(Ok(()));
    assert_eq!(
        handle_propose_block_response(response),
        Err(BatcherClientError::ClientError(ClientError::UnexpectedResponse))
    );

    // Even a domain error under the wrong tag is a transport fault.
    let response = BatcherResponse::ProposeBlock(Err(BatcherError::InternalError));
    assert_eq!(
        handle_get_height_response(response),
        Err(BatcherClientError::ClientError(ClientError::UnexpectedResponse))
    );
}
