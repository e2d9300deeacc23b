//! The validator: lifecycle and staged validation protocol.
//!
//! A [`Validator`] owns static configuration and at most one live
//! [`TransactionExecutor`].  Exactly one block height is in flight at a
//! time: `setup_validation_context` fails while a context is live, and
//! `teardown_validation_context` (or `close`) always returns to the
//! uninitialized state and is safe to repeat.
//!
//! `perform_validations` walks the staged protocol: deploy-account
//! transactions are fully executed instead of validated (their constructor
//! must run before any validate call means anything); everything else goes
//! through the skip heuristic, the state-mutating pre-validation — which
//! runs even when the validate call will be skipped, so nonce bookkeeping
//! stays consistent — the account's validation program, and the
//! post-validation fee report.

use vstd::prelude::*;
use crate::account_transaction::{AccountTransaction, AccountTransactionContext};
use crate::block::BlockInfo;
use crate::core_types::{ContractAddress, Nonce};
use crate::engine::{ActualCost, CallInfo, EngineCall, ExecutionEngine, ExecutionOutcome};
use crate::errors::ValidationError;
use crate::fee_checks::{post_validation_ok, PostValidationReport};
use crate::hash::StarkFelt;
use crate::state::StateReader;
use crate::transaction::TransactionHash;
use crate::transaction_executor::{nonce_acceptable, TransactionExecutor};

verus! {

/// The gas budget an account validation program starts with.
pub const INITIAL_GAS: u64 = 10_000_000_000;

/// Chain-wide configuration the validator carries for the engine's sake;
/// immutable for the validator's lifetime.
#[derive(Debug, Copy, Clone, Eq, PartialEq, Structural)]
pub struct GeneralConfig {
    /// The contract holding fee-token balances.
    pub fee_token_address: ContractAddress,
    /// Step budget for invoke transactions.
    pub invoke_tx_max_n_steps: u32,
    /// Step budget for validation programs.
    pub validate_max_n_steps: u32,
}

/// Whether running the account's validation program can be skipped: a
/// deploy-account transaction for this account is pending (the hint is
/// present and the stored nonce is still zero), the transaction is not
/// itself the deploying one (its nonce is at least one), and its nonce is
/// within the configured ceiling that caps how many transactions may pass
/// unvalidated.
pub open spec fn should_skip_validate(
    on_chain_nonce: nat,
    tx_nonce: nat,
    deploy_account_hint: bool,
    max_skip_nonce: nat,
) -> bool {
    &&& deploy_account_hint
    &&& on_chain_nonce == 0
    &&& 1 <= tx_nonce
    &&& tx_nonce <= max_skip_nonce
}

/// The lifecycle transition `setup_validation_context` makes, over the
/// liveness of the execution context alone: the result is the liveness
/// afterwards, and whether the call was accepted.  Setting up while live
/// is rejected and changes nothing.
pub open spec fn setup_transition(live: bool) -> (bool, bool) {
    if live {
        (true, false)
    } else {
        (true, true)
    }
}

/// The lifecycle transition `teardown_validation_context` makes: whatever
/// the state was, no context is live afterwards.
pub open spec fn teardown_transition(live: bool) -> bool {
    false
}

/// Whether validation and execution calls are permitted in a lifecycle
/// state: only while a context is live.
pub open spec fn validation_permitted(live: bool) -> bool {
    live
}

/// Setting up twice without an intervening teardown fails the second time,
/// whatever state the validator started in.
pub proof fn lemma_second_setup_rejected(live0: bool)
    ensures
        !setup_transition(setup_transition(live0).0).1,
{
}

/// After a teardown, validation calls are rejected until the next setup.
pub proof fn lemma_validation_after_teardown_rejected(live0: bool)
    ensures
        !validation_permitted(teardown_transition(live0)),
{
}

/// Teardown is idempotent: tearing down twice in a row leaves exactly the
/// state one teardown leaves, so a repeated `close` never fails.
pub proof fn lemma_teardown_idempotent(live0: bool)
    ensures
        teardown_transition(teardown_transition(live0)) == teardown_transition(live0),
{
}

/// Manages transaction validation for pre-execution flows: one live
/// execution context between setup and teardown, and the staged validation
/// protocol over it.
pub struct Validator<S: StateReader, E: ExecutionEngine> {
    /// Chain-wide configuration, immutable for the validator's lifetime.
    pub general_config: GeneralConfig,
    /// Recursion budget handed to the engine.
    pub max_recursion_depth: usize,
    /// The highest transaction nonce the skip heuristic accepts.  This is
    /// configuration, not per-height state.
    pub max_nonce_for_validation_skip: Nonce,
    /// The live execution context, if any.
    pub tx_executor: Option<TransactionExecutor<S, E>>,
}

impl<S: StateReader, E: ExecutionEngine> Validator<S, E> {
    /// Whether an execution context is live.
    pub open spec fn is_live(&self) -> bool {
        self.tx_executor is Some
    }

    /// The live execution context (meaningful only while live).
    pub open spec fn executor(&self) -> TransactionExecutor<S, E> {
        self.tx_executor->Some_0
    }

    /// The configuration fields never change once the validator exists.
    pub open spec fn config_preserved(pre: Self, post: Self) -> bool {
        &&& post.general_config == pre.general_config
        &&& post.max_recursion_depth == pre.max_recursion_depth
        &&& post.max_nonce_for_validation_skip == pre.max_nonce_for_validation_skip
    }

    /// A validator whose first execution context is live immediately, bound
    /// to the given state, engine and block.
    pub fn create(
        general_config: GeneralConfig,
        state: S,
        engine: E,
        next_block_info: BlockInfo,
        max_recursion_depth: usize,
        max_nonce_for_validation_skip: Nonce,
    ) -> (r: Validator<S, E>)
        ensures
            r.general_config == general_config,
            r.max_recursion_depth == max_recursion_depth,
            r.max_nonce_for_validation_skip == max_nonce_for_validation_skip,
            r.is_live(),
            r.executor().state == state,
            r.executor().engine == engine,
            r.executor().block_context == next_block_info,
            r.executor().resources_used == 0,
    {
        let tx_executor = TransactionExecutor::new(state, engine, next_block_info);
        Validator {
            general_config,
            max_recursion_depth,
            max_nonce_for_validation_skip,
            tx_executor: Some(tx_executor),
        }
    }

    /// A validator for tests: live immediately, with its test budgets
    /// fixed — the stored recursion depth is fifty and the skip-nonce
    /// ceiling is one, whatever depth the caller proposes (the argument is
    /// kept only for signature parity with `create`).
    pub fn create_for_testing(
        general_config: GeneralConfig,
        state: S,
        engine: E,
        next_block_info: BlockInfo,
        _max_recursion_depth: usize,
    ) -> (r: Validator<S, E>)
        ensures
            r.general_config == general_config,
            r.max_recursion_depth == 50,
            r.max_nonce_for_validation_skip == Nonce(StarkFelt(1)),
            r.is_live(),
            r.executor().state == state,
            r.executor().engine == engine,
            r.executor().block_context == next_block_info,
            r.executor().resources_used == 0,
    {
        Validator::create(general_config, state, engine, next_block_info, 50, Nonce(StarkFelt(1)))
    }

    /// Initializes the execution context for the given block.  Rejected
    /// with a lifecycle violation while a context is still live: the
    /// executor must be torn down between heights.
    pub fn setup_validation_context(&mut self, next_block_info: BlockInfo, state: S, engine: E) -> (r:
        Result<(), ValidationError>)
        ensures
            Self::config_preserved(*old(self), *final(self)),
            final(self).is_live() == setup_transition(old(self).is_live()).0,
            r is Ok <==> setup_transition(old(self).is_live()).1,
            old(self).is_live() ==> (r matches Err(e) && e is LifecycleViolation && *final(self)
                == *old(self)),
            !old(self).is_live() ==> r is Ok && final(self).is_live() && final(self).executor().state
                == state && final(self).executor().engine == engine
                && final(self).executor().block_context == next_block_info
                && final(self).executor().resources_used == 0,
    {
        match &self.tx_executor {
            Some(_) => Err(ValidationError::LifecycleViolation),
            None => {
                self.tx_executor = Some(TransactionExecutor::new(state, engine, next_block_info));
                Ok(())
            },
        }
    }

    /// Drops the execution context, whatever state it is in.
    pub fn teardown_validation_context(&mut self)
        ensures
            Self::config_preserved(*old(self), *final(self)),
            final(self).is_live() == teardown_transition(old(self).is_live()),
            !final(self).is_live(),
    {
        self.tx_executor = None;
    }

    /// Closes the validator; an alias for teardown, safe to call any
    /// number of times.
    pub fn close(&mut self)
        ensures
            Self::config_preserved(*old(self), *final(self)),
            final(self).is_live() == teardown_transition(old(self).is_live()),
            !final(self).is_live(),
    {
        self.teardown_validation_context();
    }

    /// Fully executes a transaction through the live context.  Applicable
    /// solely to account deployment transactions: the execution of the
    /// constructor is required before they can be validated.
    pub fn execute(&mut self, account_tx: &AccountTransaction) -> (r: Result<
        ExecutionOutcome,
        ValidationError,
    >)
        ensures
            Self::config_preserved(*old(self), *final(self)),
            final(self).is_live() == old(self).is_live(),
            !old(self).is_live() ==> (r matches Err(e) && e is LifecycleViolation && *final(self)
                == *old(self)),
            old(self).is_live() ==> ({
                let ex0 = old(self).executor();
                let ex1 = final(self).executor();
                let log1 = ex1.engine.call_log();
                &&& ex1.state == ex0.state
                &&& ex1.block_context == ex0.block_context
                &&& log1 == ex0.engine.call_log().push(log1.last())
                &&& log1.last() matches EngineCall::Execute {
                    tx_context,
                    limit_steps_by_resources,
                    outcome,
                } && {
                    &&& tx_context == account_tx.spec_context()
                    &&& limit_steps_by_resources
                    &&& r is Ok <==> outcome is Ok
                    &&& r matches Ok(o) ==> outcome == Ok::<
                        ExecutionOutcome,
                        crate::engine::EngineError,
                    >(o) && ex1.resources_used == ex0.resources_used.saturating_add(
                        o.actual_cost.actual_resources as u128,
                    )
                    &&& r matches Err(e) ==> e matches ValidationError::ValidationProgramFailure(
                        engine_error,
                    ) && outcome == Err::<ExecutionOutcome, crate::engine::EngineError>(engine_error)
                        && ex1.resources_used == ex0.resources_used
                }
            }),
    {
        let limit_steps_by_resources = true;
        match &mut self.tx_executor {
            Some(executor) => executor.execute(account_tx, limit_steps_by_resources),
            None => Err(ValidationError::LifecycleViolation),
        }
    }

    /// Runs the account's validation program through the live context,
    /// returning the engine's call report and the actual cost.
    pub fn validate(&mut self, account_tx: &AccountTransaction, remaining_gas: u64) -> (r: Result<
        (Option<CallInfo>, ActualCost),
        ValidationError,
    >)
        ensures
            Self::config_preserved(*old(self), *final(self)),
            final(self).is_live() == old(self).is_live(),
            !old(self).is_live() ==> (r matches Err(e) && e is LifecycleViolation && *final(self)
                == *old(self)),
            old(self).is_live() ==> ({
                let ex0 = old(self).executor();
                let ex1 = final(self).executor();
                let log1 = ex1.engine.call_log();
                &&& ex1.state == ex0.state
                &&& ex1.block_context == ex0.block_context
                &&& log1 == ex0.engine.call_log().push(log1.last())
                &&& log1.last() matches EngineCall::Validate { tx_context, remaining_gas: gas, outcome }
                    && {
                    &&& tx_context == account_tx.spec_context()
                    &&& gas == remaining_gas
                    &&& r is Ok <==> outcome is Ok
                    &&& r matches Ok(pair) ==> outcome matches Ok(vo) && vo.call_info == pair.0
                        && vo.actual_cost == pair.1 && ex1.resources_used
                        == ex0.resources_used.saturating_add(vo.actual_cost.actual_resources as u128)
                    &&& r matches Err(e) ==> e matches ValidationError::ValidationProgramFailure(
                        engine_error,
                    ) && outcome == Err::<
                        crate::engine::ValidateOutcome,
                        crate::engine::EngineError,
                    >(engine_error) && ex1.resources_used == ex0.resources_used
                }
            }),
    {
        match &mut self.tx_executor {
            Some(executor) => {
                match executor.validate(account_tx, remaining_gas) {
                    Ok(validate_outcome) => Ok(
                        (validate_outcome.call_info, validate_outcome.actual_cost),
                    ),
                    Err(e) => Err(e),
                }
            },
            None => Err(ValidationError::LifecycleViolation),
        }
    }

    /// Checks whether a deploy-account transaction for this account was
    /// submitted but not processed yet.  If so, the validate call for
    /// subsequent transactions is skipped for a better user experience
    /// (they would otherwise fail solely because the deployment has not
    /// been processed yet).  Reads state, changes nothing.
    pub fn skip_validate_due_to_unprocessed_deploy_account(
        &mut self,
        account_tx_context: &AccountTransactionContext,
        deploy_account_tx_hash: Option<TransactionHash>,
    ) -> (r: Result<bool, ValidationError>)
        ensures
            Self::config_preserved(*old(self), *final(self)),
            final(self).is_live() == old(self).is_live(),
            !old(self).is_live() ==> (r matches Err(e) && e is LifecycleViolation && *final(self)
                == *old(self)),
            old(self).is_live() ==> ({
                let ex0 = old(self).executor();
                let ex1 = final(self).executor();
                &&& ex1.engine == ex0.engine
                &&& ex1.block_context == ex0.block_context
                &&& ex1.resources_used == ex0.resources_used
                &&& forall|a: ContractAddress| #![auto] ex1.state.nonce_at(a) == ex0.state.nonce_at(
                    a,
                )
                &&& forall|a: ContractAddress| #![auto]
                    ex1.state.balance_at(a) == ex0.state.balance_at(a)
                &&& r matches Ok(skip) ==> skip == should_skip_validate(
                    ex0.state.nonce_at(account_tx_context.sender_address),
                    account_tx_context.nonce.as_nat(),
                    deploy_account_tx_hash is Some,
                    old(self).max_nonce_for_validation_skip.as_nat(),
                )
                &&& r matches Err(e) ==> e is StateReadError
            }),
    {
        let max_skip_nonce = self.max_nonce_for_validation_skip;
        match &mut self.tx_executor {
            Some(executor) => {
                let nonce = match executor.state.get_nonce_at(account_tx_context.sender_address) {
                    Ok(n) => n,
                    Err(e) => {
                        return Err(ValidationError::StateReadError(e));
                    },
                };
                let tx_nonce = account_tx_context.nonce;

                let deploy_account_not_processed = deploy_account_tx_hash.is_some() && nonce.0.0
                    == 0;
                let is_post_deploy_nonce = 1 <= tx_nonce.0.0;
                let nonce_small_enough_to_qualify_for_validation_skip = tx_nonce.0.0
                    <= max_skip_nonce.0.0;

                let skip_validate = deploy_account_not_processed && is_post_deploy_nonce
                    && nonce_small_enough_to_qualify_for_validation_skip;
                Ok(skip_validate)
            },
            None => Err(ValidationError::LifecycleViolation),
        }
    }

    /// Runs pre-validation in charge-fee mode and with the non-strict nonce
    /// check.  This mutates state — the sender's nonce cell is advanced —
    /// so it runs exactly once per transaction.
    pub fn perform_pre_validation_stage(&mut self, account_tx: &AccountTransaction) -> (r: Result<
        (),
        ValidationError,
    >)
        ensures
            Self::config_preserved(*old(self), *final(self)),
            final(self).is_live() == old(self).is_live(),
            !old(self).is_live() ==> (r matches Err(e) && e is LifecycleViolation && *final(self)
                == *old(self)),
            old(self).is_live() ==> ({
                let context = account_tx.spec_context();
                let sender = context.sender_address;
                let ex0 = old(self).executor();
                let ex1 = final(self).executor();
                let n0 = ex0.state.nonce_at(sender);
                let b0 = ex0.state.balance_at(sender);
                let tn = context.nonce.as_nat();
                &&& ex1.engine == ex0.engine
                &&& ex1.block_context == ex0.block_context
                &&& ex1.resources_used == ex0.resources_used
                &&& forall|a: ContractAddress| #![auto]
                    ex1.state.balance_at(a) == ex0.state.balance_at(a)
                &&& forall|a: ContractAddress| #![auto]
                    a != sender ==> ex1.state.nonce_at(a) == ex0.state.nonce_at(a)
                &&& ex1.state.nonce_at(sender) == n0 || ex1.state.nonce_at(sender) == n0 + 1
                &&& context.is_version_zero() ==> ex1.state.nonce_at(sender) == n0
                &&& r is Ok ==> {
                    &&& !context.is_version_zero() ==> nonce_acceptable(n0, tn, false)
                        && ex1.state.nonce_at(sender) == n0 + 1
                    &&& b0 >= context.committed_fee()
                }
                &&& !context.is_version_zero() && !nonce_acceptable(n0, tn, false) ==> r is Err
                &&& b0 < context.committed_fee() ==> r is Err
                &&& r matches Err(e) ==> match e {
                    ValidationError::StateReadError(_) => true,
                    ValidationError::NonceMismatchError { address, account_nonce, tx_nonce } => {
                        &&& !context.is_version_zero()
                        &&& address == sender
                        &&& account_nonce.as_nat() == n0
                        &&& tx_nonce == context.nonce
                        &&& !nonce_acceptable(n0, tn, false)
                        &&& ex1.state.nonce_at(sender) == n0
                    },
                    ValidationError::FeeCheckError { address, balance, fee_commitment } => {
                        &&& address == sender
                        &&& balance.0 as nat == b0
                        &&& fee_commitment == context.fee_commitment
                        &&& b0 < context.committed_fee()
                        // A fee-check failure does not roll back the nonce
                        // the stage advanced before it.
                        &&& !context.is_version_zero() ==> ex1.state.nonce_at(sender) == n0 + 1
                    },
                    _ => false,
                }
            }),
    {
        let account_tx_context = account_tx.get_account_tx_context();

        let strict_nonce_check = false;
        // Run pre-validation in charge fee mode to perform fee and balance
        // related checks.
        let charge_fee = true;
        match &mut self.tx_executor {
            Some(executor) => executor.perform_pre_validation_stage(
                &account_tx_context,
                charge_fee,
                strict_nonce_check,
            ),
            None => Err(ValidationError::LifecycleViolation),
        }
    }

    /// Reconciles the actual cost of the validate call against the fee
    /// commitment in the transaction's context.
    pub fn perform_post_validation_stage(
        &self,
        account_tx_context: &AccountTransactionContext,
        actual_cost: &ActualCost,
    ) -> (r: Result<(), ValidationError>)
        ensures
            !self.is_live() ==> (r matches Err(e) && e is LifecycleViolation),
            self.is_live() ==> {
                &&& r is Ok <==> post_validation_ok(*account_tx_context, *actual_cost)
                &&& r matches Err(e) ==> e matches ValidationError::ResourceBoundsExceededError {
                    ..
                }
            },
    {
        match &self.tx_executor {
            Some(_) => PostValidationReport::verify(account_tx_context, actual_cost),
            None => Err(ValidationError::LifecycleViolation),
        }
    }

    /// The whole admission protocol for one transaction.
    ///
    /// Deploy-account transactions are fully executed — the constructor
    /// must run before any validate call is meaningful, and the execution
    /// already includes all necessary validations.  For everything else the
    /// skip decision is read first (it must see the nonce before
    /// pre-validation advances it), pre-validation then always runs, and
    /// only if the transaction is not skip-eligible does the validate call
    /// and the post-validation fee report follow.  The first failing
    /// stage's error is returned unchanged.
    pub fn perform_validations(
        &mut self,
        account_tx: &AccountTransaction,
        deploy_account_tx_hash: Option<TransactionHash>,
    ) -> (r: Result<(), ValidationError>)
        ensures
            Self::config_preserved(*old(self), *final(self)),
            final(self).is_live() == old(self).is_live(),
            !validation_permitted(old(self).is_live()) ==> (r matches Err(e) && e
                is LifecycleViolation && *final(self) == *old(self)),
            old(self).is_live() ==> ({
                let context = account_tx.spec_context();
                let sender = context.sender_address;
                let ex0 = old(self).executor();
                let ex1 = final(self).executor();
                let n0 = ex0.state.nonce_at(sender);
                let b0 = ex0.state.balance_at(sender);
                let log0 = ex0.engine.call_log();
                let log1 = ex1.engine.call_log();
                let skip = should_skip_validate(
                    n0,
                    context.nonce.as_nat(),
                    deploy_account_tx_hash is Some,
                    old(self).max_nonce_for_validation_skip.as_nat(),
                );
                &&& ex1.block_context == ex0.block_context
                &&& forall|a: ContractAddress| #![auto]
                    ex1.state.balance_at(a) == ex0.state.balance_at(a)
                &&& forall|a: ContractAddress| #![auto]
                    a != sender ==> ex1.state.nonce_at(a) == ex0.state.nonce_at(a)
                &&& account_tx.is_deploy_account() ==> {
                    &&& forall|a: ContractAddress| #![auto]
                        ex1.state.nonce_at(a) == ex0.state.nonce_at(a)
                    &&& log1 == log0.push(log1.last())
                    &&& log1.last() matches EngineCall::Execute { tx_context, outcome, .. }
                        && tx_context == context && (r is Ok <==> outcome is Ok)
                    &&& r matches Err(e) ==> e is ValidationProgramFailure
                }
                &&& !account_tx.is_deploy_account() ==> {
                    &&& ex1.state.nonce_at(sender) == n0 || ex1.state.nonce_at(sender) == n0 + 1
                    &&& r is Ok ==> {
                        &&& !context.is_version_zero() ==> nonce_acceptable(
                            n0,
                            context.nonce.as_nat(),
                            false,
                        ) && ex1.state.nonce_at(sender) == n0 + 1
                        &&& context.is_version_zero() ==> ex1.state.nonce_at(sender) == n0
                        &&& b0 >= context.committed_fee()
                        &&& skip ==> log1 == log0
                        &&& !skip ==> log1 == log0.push(log1.last()) && (log1.last()
                            matches EngineCall::Validate { tx_context, remaining_gas, outcome }
                            && outcome matches Ok(vo) && tx_context == context && remaining_gas
                            == INITIAL_GAS && post_validation_ok(context, vo.actual_cost))
                    }
                    &&& !context.is_version_zero() && !nonce_acceptable(
                        n0,
                        context.nonce.as_nat(),
                        false,
                    ) ==> r is Err
                    &&& b0 < context.committed_fee() ==> r is Err
                    &&& r matches Err(e) ==> {
                        &&& !(e is LifecycleViolation)
                        // An error of a stage before the validate call
                        // means no later stage ran: the engine was never
                        // invoked.
                        &&& (e is StateReadError || e is NonceMismatchError || e
                            is FeeCheckError) ==> log1 == log0
                        &&& (e matches ValidationError::NonceMismatchError {
                            address,
                            account_nonce,
                            tx_nonce,
                        } ==> address == sender && account_nonce.as_nat() == n0 && tx_nonce
                            == context.nonce && !context.is_version_zero() && !nonce_acceptable(
                            n0,
                            context.nonce.as_nat(),
                            false,
                        ) && ex1.state.nonce_at(sender) == n0)
                        &&& (e matches ValidationError::FeeCheckError {
                            address,
                            balance,
                            fee_commitment,
                        } ==> address == sender && balance.0 as nat == b0 && fee_commitment
                            == context.fee_commitment && b0 < context.committed_fee() && (
                        !context.is_version_zero() ==> ex1.state.nonce_at(sender) == n0 + 1))
                        // The engine failing the validate call surfaces as
                        // exactly that engine error, with exactly that one
                        // failing call logged.
                        &&& (e matches ValidationError::ValidationProgramFailure(engine_error)
                            ==> log1 == log0.push(log1.last()) && (log1.last()
                            matches EngineCall::Validate { tx_context, remaining_gas, outcome }
                            && tx_context == context && remaining_gas == INITIAL_GAS && outcome
                            == Err::<crate::engine::ValidateOutcome, crate::engine::EngineError>(
                            engine_error,
                        )))
                        &&& (e matches ValidationError::ResourceBoundsExceededError { .. } ==> log1
                            == log0.push(log1.last()) && (log1.last()
                            matches EngineCall::Validate { tx_context, remaining_gas, outcome }
                            && outcome matches Ok(vo) && tx_context == context && remaining_gas
                            == INITIAL_GAS && !post_validation_ok(context, vo.actual_cost)) && (
                        !context.is_version_zero() ==> ex1.state.nonce_at(sender) == n0 + 1))
                    }
                }
            }),
    {
        let account_tx_context = account_tx.get_account_tx_context();
        let is_deploy_account = match account_tx {
            AccountTransaction::DeployAccount { .. } => true,
            _ => false,
        };
        // Deploy account transactions should be fully executed, since the
        // constructor must run before the validate call for the deployment.
        // The execution already includes all necessary validations, so they
        // are skipped here.
        if is_deploy_account {
            return match self.execute(account_tx) {
                Ok(_outcome) => Ok(()),
                Err(e) => Err(e),
            };
        }
        // First, check whether the transaction should be skipped due to the
        // deploy account not being processed.  This is done before the
        // pre-validation checks because those change the state (more
        // precisely, they advance the nonce).
        let skip_validate = match self.skip_validate_due_to_unprocessed_deploy_account(
            &account_tx_context,
            deploy_account_tx_hash,
        ) {
            Ok(skip) => skip,
            Err(e) => {
                return Err(e);
            },
        };
        match self.perform_pre_validation_stage(account_tx) {
            Ok(_) => {},
            Err(e) => {
                return Err(e);
            },
        }
        if skip_validate {
            return Ok(());
        }
        // The validate call.
        let (_optional_call_info, actual_cost) = match self.validate(account_tx, INITIAL_GAS) {
            Ok(pair) => pair,
            Err(e) => {
                return Err(e);
            },
        };
        // Post validations.
        match self.perform_post_validation_stage(&account_tx_context, &actual_cost) {
            Ok(_) => Ok(()),
            Err(e) => Err(e),
        }
    }
}

} // verus!
