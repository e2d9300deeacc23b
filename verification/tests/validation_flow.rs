//! The staged validation protocol: skip heuristic, pre-validation side
//! effects, deploy-account substitution, and the post-validation report.

use starknet_validator::account_transaction::{
    AccountTransaction, AccountTransactionContext, FeeCommitment,
};
use starknet_validator::block::{BlockInfo, BlockNumber};
use starknet_validator::core_types::{ClassHash, ContractAddress, Nonce};
use starknet_validator::engine::{
    ActualCost, EngineCall, EngineError, ExecutionOutcome, ScriptedEngine, ValidateOutcome,
};
use starknet_validator::errors::ValidationError;
use starknet_validator::fee_checks::PostValidationReport;
use starknet_validator::hash::StarkFelt;
use starknet_validator::state::{InMemoryStateReader, StateError, StateReader};
use starknet_validator::transaction::{
    AccountParams, Calldata, ContractAddressSalt, DeployAccountTransaction,
    DeployAccountTransactionV1, Fee, InvokeTransaction, InvokeTransactionV0, InvokeTransactionV1,
    InvokeTransactionV3, ResourceBounds, StorageDomain, Tip, TransactionHash,
    TransactionSignature, TransactionParamsV3, TransactionVersion,
};
use starknet_validator::transaction_executor::TransactionExecutor;
use starknet_validator::validator::{GeneralConfig, Validator};

fn config() -> GeneralConfig {
    GeneralConfig {
        fee_token_address: ContractAddress(StarkFelt(999)),
        invoke_tx_max_n_steps: 1_000_000,
        validate_max_n_steps: 1_000_000,
    }
}

fn block() -> BlockInfo {
    BlockInfo {
        block_number: BlockNumber(7),
        block_timestamp: 0,
        gas_price: 1,
        fee_token_address: ContractAddress(StarkFelt(999)),
    }
}

fn validator_with(
    state: InMemoryStateReader,
    engine: ScriptedEngine,
    max_skip: u128,
) -> Validator<InMemoryStateReader, ScriptedEngine> {
    Validator::create(config(), state, engine, block(), 50, Nonce(StarkFelt(max_skip)))
}

fn invoke_v1(sender: u128, nonce: u128, max_fee: u128) -> AccountTransaction {
    AccountTransaction::Invoke(InvokeTransaction::V1(InvokeTransactionV1 {
        account_params: AccountParams {
            max_fee: Fee(max_fee),
            signature: TransactionSignature(vec![]),
            nonce: Nonce(StarkFelt(nonce)),
        },
        sender_address: ContractAddress(StarkFelt(sender)),
        calldata: Calldata(vec![]),
    }))
}

fn invoke_v3(sender: u128, nonce: u128, max_amount: u64, max_price: u128) -> AccountTransaction {
    AccountTransaction::Invoke(InvokeTransaction::V3(InvokeTransactionV3 {
        transaction_params: TransactionParamsV3 {
            signature: TransactionSignature(vec![]),
            nonce: Nonce(StarkFelt(nonce)),
            nonce_da_mode: StorageDomain::OnChain,
            fee_da_mode: StorageDomain::OnChain,
            resource_bounds: ResourceBounds { max_amount, max_price_per_unit: max_price },
            tip: Tip(0),
        },
        sender_address: ContractAddress(StarkFelt(sender)),
        calldata: Calldata(vec![]),
    }))
}

fn deploy_account_v1(address: u128, max_fee: u128) -> AccountTransaction {
    AccountTransaction::DeployAccount {
        tx: DeployAccountTransaction::V1(DeployAccountTransactionV1 {
            account_params: AccountParams {
                max_fee: Fee(max_fee),
                signature: TransactionSignature(vec![]),
                nonce: Nonce(StarkFelt(0)),
            },
            class_hash: ClassHash(StarkFelt(70)),
            contract_address_salt: ContractAddressSalt(StarkFelt(3)),
            constructor_calldata: Calldata(vec![]),
        }),
        contract_address: ContractAddress(StarkFelt(address)),
    }
}

fn context(sender: u128, nonce: u128) -> AccountTransactionContext {
    AccountTransactionContext {
        sender_address: ContractAddress(StarkFelt(sender)),
        nonce: Nonce(StarkFelt(nonce)),
        version: TransactionVersion(StarkFelt(1)),
        fee_commitment: FeeCommitment::MaxFee(Fee(10)),
    }
}

fn ok_validate(fee: u128, resources: u64) -> Result<ValidateOutcome, EngineError> {
    Ok(ValidateOutcome {
        call_info: None,
        actual_cost: ActualCost { actual_fee: Fee(fee), actual_resources: resources },
    })
}

#[test]
fn skip_heuristic_true_within_threshold() {
    let mut validator = validator_with(InMemoryStateReader::new(), ScriptedEngine::new(), 3);
    let skip = validator
        .skip_validate_due_to_unprocessed_deploy_account(
            &context(5, 1),
            Some(TransactionHash(StarkFelt(77))),
        )
        .unwrap();
    assert!(skip);
}

#[test]
fn skip_heuristic_false_above_threshold() {
    let mut validator = validator_with(InMemoryStateReader::new(), ScriptedEngine::new(), 3);
    let skip = validator
        .skip_validate_due_to_unprocessed_deploy_account(
            &context(5, 4),
            Some(TransactionHash(StarkFelt(77))),
        )
        .unwrap();
    assert!(!skip);
}

#[test]
fn skip_heuristic_false_without_deploy_hint() {
    let mut validator = validator_with(InMemoryStateReader::new(), ScriptedEngine::new(), 3);
    let skip = validator
        .skip_validate_due_to_unprocessed_deploy_account(&context(5, 1), None)
        .unwrap();
    assert!(!skip);
}

#[test]
fn skip_heuristic_false_once_deploy_is_processed() {
    let mut state = InMemoryStateReader::new();
    state.set_nonce(ContractAddress(StarkFelt(5)), Nonce(StarkFelt(1)));
    let mut validator = validator_with(state, ScriptedEngine::new(), 3);
    let skip = validator
        .skip_validate_due_to_unprocessed_deploy_account(
            &context(5, 1),
            Some(TransactionHash(StarkFelt(77))),
        )
        .unwrap();
    assert!(!skip);
}

#[test]
fn skip_heuristic_false_for_the_deploy_itself() {
    let mut validator = validator_with(InMemoryStateReader::new(), ScriptedEngine::new(), 3);
    let skip = validator
        .skip_validate_due_to_unprocessed_deploy_account(
            &context(5, 0),
            Some(TransactionHash(StarkFelt(77))),
        )
        .unwrap();
    assert!(!skip);
}

#[test]
fn deploy_account_is_executed_never_validated() {
    let mut state = InMemoryStateReader::new();
    state.set_balance(ContractAddress(StarkFelt(5)), Fee(1000));
    let mut engine = ScriptedEngine::new();
    engine.execute_outcomes.push(Ok(ExecutionOutcome {
        actual_cost: ActualCost { actual_fee: Fee(9), actual_resources: 4 },
    }));
    let mut validator = validator_with(state, engine, 3);

    let result = validator.perform_validations(&deploy_account_v1(5, 10), None);
    assert_eq!(result, Ok(()));

    let engine = &validator.tx_executor.as_ref().unwrap().engine;
    assert_eq!(engine.calls.len(), 1);
    match &engine.calls[0] {
        EngineCall::Execute { tx_context, limit_steps_by_resources, outcome } => {
            assert_eq!(tx_context.sender_address, ContractAddress(StarkFelt(5)));
            assert!(*limit_steps_by_resources);
            assert!(outcome.is_ok());
        },
        other => panic!("expected an execute call, got {:?}", other),
    }
}

#[test]
fn deploy_account_execution_failure_is_propagated() {
    let mut engine = ScriptedEngine::new();
    engine.execute_outcomes.push(Err(EngineError::Reverted));
    let mut validator = validator_with(InMemoryStateReader::new(), engine, 3);

    let result = validator.perform_validations(&deploy_account_v1(5, 10), None);
    assert_eq!(result, Err(ValidationError::ValidationProgramFailure(EngineError::Reverted)));
}

#[test]
fn skip_eligible_transaction_still_goes_through_pre_validation() {
    let sender = ContractAddress(StarkFelt(5));
    let mut state = InMemoryStateReader::new();
    state.set_balance(sender, Fee(1000));
    let mut validator = validator_with(state, ScriptedEngine::new(), 3);

    let result = validator
        .perform_validations(&invoke_v1(5, 1, 10), Some(TransactionHash(StarkFelt(77))));
    assert_eq!(result, Ok(()));

    // The validate program never ran...
    let executor = validator.tx_executor.as_mut().unwrap();
    assert!(executor.engine.calls.is_empty());
    // ...but the nonce cell was still advanced by pre-validation.
    assert_eq!(executor.state.get_nonce_at(sender), Ok(Nonce(StarkFelt(1))));
}

#[test]
fn non_skip_transaction_runs_the_validate_program() {
    let sender = ContractAddress(StarkFelt(5));
    let mut state = InMemoryStateReader::new();
    state.set_balance(sender, Fee(1000));
    let mut engine = ScriptedEngine::new();
    engine.validate_outcomes.push(ok_validate(9, 4));
    let mut validator = validator_with(state, engine, 3);

    let result = validator.perform_validations(&invoke_v1(5, 0, 10), None);
    assert_eq!(result, Ok(()));

    let executor = validator.tx_executor.as_mut().unwrap();
    assert_eq!(executor.engine.calls.len(), 1);
    match &executor.engine.calls[0] {
        EngineCall::Validate { tx_context, remaining_gas, outcome } => {
            assert_eq!(tx_context.sender_address, sender);
            assert_eq!(*remaining_gas, starknet_validator::validator::INITIAL_GAS);
            assert!(outcome.is_ok());
        },
        other => panic!("expected a validate call, got {:?}", other),
    }
    assert_eq!(executor.state.get_nonce_at(sender), Ok(Nonce(StarkFelt(1))));
}

#[test]
fn post_validation_rejects_resource_overrun_and_propagates_it() {
    let sender = ContractAddress(StarkFelt(5));
    let mut state = InMemoryStateReader::new();
    state.set_balance(sender, Fee(1000));
    let mut engine = ScriptedEngine::new();
    // The bound is 10 units; the run consumed 15.
    engine.validate_outcomes.push(ok_validate(9, 15));
    let mut validator = validator_with(state, engine, 3);

    let result = validator.perform_validations(&invoke_v3(5, 0, 10, 2), None);
    assert_eq!(
        result,
        Err(ValidationError::ResourceBoundsExceededError { committed: 10, actual: 15 })
    );
}

#[test]
fn post_validation_report_checks_each_fee_model() {
    let legacy = AccountTransactionContext {
        sender_address: ContractAddress(StarkFelt(5)),
        nonce: Nonce(StarkFelt(0)),
        version: TransactionVersion(StarkFelt(1)),
        fee_commitment: FeeCommitment::MaxFee(Fee(10)),
    };
    let cost_within = ActualCost { actual_fee: Fee(10), actual_resources: 100 };
    let cost_over = ActualCost { actual_fee: Fee(11), actual_resources: 0 };
    assert_eq!(PostValidationReport::verify(&legacy, &cost_within), Ok(()));
    assert_eq!(
        PostValidationReport::verify(&legacy, &cost_over),
        Err(ValidationError::ResourceBoundsExceededError { committed: 10, actual: 11 })
    );

    let v3 = AccountTransactionContext {
        fee_commitment: FeeCommitment::ResourceBounds(ResourceBounds {
            max_amount: 10,
            max_price_per_unit: 2,
        }),
        ..legacy
    };
    let gas_within = ActualCost { actual_fee: Fee(1000), actual_resources: 10 };
    let gas_over = ActualCost { actual_fee: Fee(0), actual_resources: 11 };
    assert_eq!(PostValidationReport::verify(&v3, &gas_within), Ok(()));
    assert_eq!(
        PostValidationReport::verify(&v3, &gas_over),
        Err(ValidationError::ResourceBoundsExceededError { committed: 10, actual: 11 })
    );
}

#[test]
fn validate_program_failure_is_propagated() {
    let sender = ContractAddress(StarkFelt(5));
    let mut state = InMemoryStateReader::new();
    state.set_balance(sender, Fee(1000));
    let mut engine = ScriptedEngine::new();
    engine.validate_outcomes.push(Err(EngineError::Reverted));
    let mut validator = validator_with(state, engine, 3);

    let result = validator.perform_validations(&invoke_v1(5, 0, 10), None);
    assert_eq!(result, Err(ValidationError::ValidationProgramFailure(EngineError::Reverted)));
}

#[test]
fn stale_nonce_is_rejected_with_the_read_values() {
    let sender = ContractAddress(StarkFelt(5));
    let mut state = InMemoryStateReader::new();
    state.set_nonce(sender, Nonce(StarkFelt(5)));
    state.set_balance(sender, Fee(1000));
    let mut validator = validator_with(state, ScriptedEngine::new(), 3);

    let result = validator.perform_validations(&invoke_v1(5, 3, 10), None);
    assert_eq!(
        result,
        Err(ValidationError::NonceMismatchError {
            address: sender,
            account_nonce: Nonce(StarkFelt(5)),
            tx_nonce: Nonce(StarkFelt(3)),
        })
    );
}

#[test]
fn future_nonce_is_accepted_in_non_strict_mode() {
    let sender = ContractAddress(StarkFelt(5));
    let mut state = InMemoryStateReader::new();
    state.set_nonce(sender, Nonce(StarkFelt(5)));
    state.set_balance(sender, Fee(1000));
    let mut engine = ScriptedEngine::new();
    engine.validate_outcomes.push(ok_validate(9, 4));
    let mut validator = validator_with(state, engine, 3);

    let result = validator.perform_validations(&invoke_v1(5, 9, 10), None);
    assert_eq!(result, Ok(()));
    let executor = validator.tx_executor.as_mut().unwrap();
    assert_eq!(executor.state.get_nonce_at(sender), Ok(Nonce(StarkFelt(6))));
}

#[test]
fn strict_mode_demands_an_exact_nonce_match() {
    let sender = ContractAddress(StarkFelt(5));
    let mut state = InMemoryStateReader::new();
    state.set_nonce(sender, Nonce(StarkFelt(2)));
    let mut executor = TransactionExecutor::new(state, ScriptedEngine::new(), block());

    let future = context(5, 3);
    assert!(matches!(
        executor.perform_pre_validation_stage(&future, false, true),
        Err(ValidationError::NonceMismatchError { .. })
    ));

    let exact = context(5, 2);
    assert_eq!(executor.perform_pre_validation_stage(&exact, false, true), Ok(()));
}

#[test]
fn insufficient_balance_fails_the_fee_check() {
    let sender = ContractAddress(StarkFelt(5));
    let mut state = InMemoryStateReader::new();
    state.set_balance(sender, Fee(9));
    let mut validator = validator_with(state, ScriptedEngine::new(), 3);

    let result = validator.perform_validations(&invoke_v1(5, 0, 10), None);
    assert_eq!(
        result,
        Err(ValidationError::FeeCheckError {
            address: sender,
            balance: Fee(9),
            fee_commitment: FeeCommitment::MaxFee(Fee(10)),
        })
    );

    // The nonce was still advanced: a fee-check failure rolls nothing back.
    let executor = validator.tx_executor.as_mut().unwrap();
    assert_eq!(executor.state.get_nonce_at(sender), Ok(Nonce(StarkFelt(1))));
}

#[test]
fn version_zero_invoke_skips_the_nonce_stages() {
    let sender = ContractAddress(StarkFelt(5));
    let mut state = InMemoryStateReader::new();
    state.set_nonce(sender, Nonce(StarkFelt(8)));
    state.set_balance(sender, Fee(1000));
    let mut engine = ScriptedEngine::new();
    engine.validate_outcomes.push(ok_validate(9, 4));
    let mut validator = validator_with(state, engine, 3);

    let v0 = AccountTransaction::Invoke(InvokeTransaction::V0(InvokeTransactionV0 {
        max_fee: Fee(10),
        signature: TransactionSignature(vec![]),
        contract_address: sender,
        entry_point_selector: starknet_validator::core_types::EntryPointSelector(StarkFelt(1)),
        calldata: Calldata(vec![]),
    }));
    let result = validator.perform_validations(&v0, None);
    assert_eq!(result, Ok(()));

    // No nonce check ran and the stored nonce is untouched.
    let executor = validator.tx_executor.as_mut().unwrap();
    assert_eq!(executor.state.get_nonce_at(sender), Ok(Nonce(StarkFelt(8))));
}

#[test]
fn a_failing_state_write_surfaces_as_a_state_read_error() {
    let sender = ContractAddress(StarkFelt(5));
    let mut state = InMemoryStateReader::new();
    state.set_nonce(sender, Nonce(StarkFelt(u128::MAX)));
    state.set_balance(sender, Fee(1000));
    let mut validator = validator_with(state, ScriptedEngine::new(), 3);

    let result = validator.perform_validations(&invoke_v1(5, u128::MAX, 10), None);
    assert_eq!(result, Err(ValidationError::StateReadError(StateError::NonceOverflow)));
}

#[test]
fn an_oversized_v3_commitment_never_fits_a_balance() {
    let sender = ContractAddress(StarkFelt(5));
    let mut state = InMemoryStateReader::new();
    state.set_balance(sender, Fee(u128::MAX));
    let mut validator = validator_with(state, ScriptedEngine::new(), 3);

    // max_amount * max_price overflows u128, so no balance can cover it.
    let result = validator.perform_validations(&invoke_v3(5, 0, u64::MAX, u128::MAX), None);
    assert!(matches!(result, Err(ValidationError::FeeCheckError { .. })));
}
