//! The per-height execution context.
//!
//! A [`TransactionExecutor`] couples the state reader for one block height
//! with the execution engine and the block context, and accumulates the
//! resources its calls consume.  It exists for exactly one height: the
//! validator creates it at setup and drops it at teardown.

use vstd::prelude::*;
use crate::account_transaction::AccountTransactionContext;
use crate::account_transaction::AccountTransaction;
use crate::block::BlockInfo;
use crate::engine::{EngineCall, ExecutionEngine, ExecutionOutcome, ValidateOutcome};
use crate::errors::ValidationError;
use crate::state::StateReader;

verus! {

/// Whether a transaction nonce passes the nonce check against the nonce
/// stored on chain.  Strict mode demands an exact match; non-strict mode
/// accepts any nonce at or above the stored one, leaving exact replay
/// policy to the execution engine.
pub open spec fn nonce_acceptable(account_nonce: nat, tx_nonce: nat, strict: bool) -> bool {
    if strict {
        tx_nonce == account_nonce
    } else {
        tx_nonce >= account_nonce
    }
}

/// The execution context of one block height: a state reader (exclusively
/// owned, swapped wholesale at height boundaries), an execution engine, the
/// immutable block context, and the resources consumed so far.
pub struct TransactionExecutor<S: StateReader, E: ExecutionEngine> {
    /// The state this height is validated against.
    pub state: S,
    /// The engine that runs constructors and validation programs.
    pub engine: E,
    /// The block context, fixed for this executor's lifetime.
    pub block_context: BlockInfo,
    /// Resource units consumed by the calls made so far, saturating at the
    /// top of the counter.
    pub resources_used: u128,
}

impl<S: StateReader, E: ExecutionEngine> TransactionExecutor<S, E> {
    /// A fresh context for one block height, with nothing consumed yet.
    pub fn new(state: S, engine: E, block_context: BlockInfo) -> (r: TransactionExecutor<S, E>)
        ensures
            r.state == state,
            r.engine == engine,
            r.block_context == block_context,
            r.resources_used == 0,
    {
        TransactionExecutor { state, engine, block_context, resources_used: 0 }
    }

    /// Fully executes `tx` through the engine, recording its cost.  The
    /// engine decides success; whatever it decides, exactly one execute
    /// call is logged and the state reader is untouched.
    pub fn execute(&mut self, tx: &AccountTransaction, limit_steps_by_resources: bool) -> (r:
        Result<ExecutionOutcome, ValidationError>)
        ensures
            final(self).state == old(self).state,
            final(self).block_context == old(self).block_context,
            ({
                let log1 = final(self).engine.call_log();
                &&& log1 == old(self).engine.call_log().push(log1.last())
                &&& log1.last() matches EngineCall::Execute {
                    tx_context,
                    limit_steps_by_resources: lim,
                    outcome,
                } && {
                    &&& tx_context == tx.spec_context()
                    &&& lim == limit_steps_by_resources
                    &&& r is Ok <==> outcome is Ok
                    &&& r matches Ok(o) ==> outcome == Ok::<ExecutionOutcome, crate::engine::EngineError>(o)
                    &&& r matches Err(e) ==> e matches ValidationError::ValidationProgramFailure(
                        engine_error,
                    ) && outcome == Err::<ExecutionOutcome, crate::engine::EngineError>(engine_error)
                }
            }),
            r matches Ok(o) ==> final(self).resources_used == old(self).resources_used.saturating_add(
                o.actual_cost.actual_resources as u128,
            ),
            r is Err ==> final(self).resources_used == old(self).resources_used,
    {
        let outcome = self.engine.execute_program(tx, &self.block_context, limit_steps_by_resources);
        match outcome {
            Ok(execution) => {
                self.resources_used = self.resources_used.saturating_add(
                    execution.actual_cost.actual_resources as u128,
                );
                Ok(execution)
            },
            Err(engine_error) => Err(ValidationError::ValidationProgramFailure(engine_error)),
        }
    }

    /// Runs the account's validation program for `tx` through the engine,
    /// recording its cost.  As with execution, the engine decides success,
    /// and exactly one validate call is logged.
    pub fn validate(&mut self, tx: &AccountTransaction, remaining_gas: u64) -> (r: Result<
        ValidateOutcome,
        ValidationError,
    >)
        ensures
            final(self).state == old(self).state,
            final(self).block_context == old(self).block_context,
            ({
                let log1 = final(self).engine.call_log();
                &&& log1 == old(self).engine.call_log().push(log1.last())
                &&& log1.last() matches EngineCall::Validate {
                    tx_context,
                    remaining_gas: gas,
                    outcome,
                } && {
                    &&& tx_context == tx.spec_context()
                    &&& gas == remaining_gas
                    &&& r is Ok <==> outcome is Ok
                    &&& r matches Ok(vo) ==> outcome == Ok::<ValidateOutcome, crate::engine::EngineError>(vo)
                    &&& r matches Err(e) ==> e matches ValidationError::ValidationProgramFailure(
                        engine_error,
                    ) && outcome == Err::<ValidateOutcome, crate::engine::EngineError>(engine_error)
                }
            }),
            r matches Ok(vo) ==> final(self).resources_used == old(
                self,
            ).resources_used.saturating_add(vo.actual_cost.actual_resources as u128),
            r is Err ==> final(self).resources_used == old(self).resources_used,
    {
        let outcome = self.engine.run_validate_program(tx, &self.block_context, remaining_gas);
        match outcome {
            Ok(validation) => {
                self.resources_used = self.resources_used.saturating_add(
                    validation.actual_cost.actual_resources as u128,
                );
                Ok(validation)
            },
            Err(engine_error) => Err(ValidationError::ValidationProgramFailure(engine_error)),
        }
    }

    /// The pre-validation stage: checks the transaction's nonce against the
    /// stored one, advances the stored nonce, and (in charge mode) checks
    /// that the sender's balance covers the committed fee.
    ///
    /// This call mutates state — on success the sender's nonce cell has
    /// been advanced, and a fee-check failure does not roll that back — so
    /// it must not be called twice for the same transaction.  Version-zero
    /// transactions predate nonces and skip the nonce steps entirely.
    pub fn perform_pre_validation_stage(
        &mut self,
        context: &AccountTransactionContext,
        charge_fee: bool,
        strict_nonce_check: bool,
    ) -> (r: Result<(), ValidationError>)
        ensures
            final(self).engine == old(self).engine,
            final(self).block_context == old(self).block_context,
            final(self).resources_used == old(self).resources_used,
            forall|a: crate::core_types::ContractAddress| #![auto]
                final(self).state.balance_at(a) == old(self).state.balance_at(a),
            forall|a: crate::core_types::ContractAddress| #![auto]
                a != context.sender_address ==> final(self).state.nonce_at(a) == old(
                    self,
                ).state.nonce_at(a),
            ({
                let sender = context.sender_address;
                let n0 = old(self).state.nonce_at(sender);
                let b0 = old(self).state.balance_at(sender);
                let tn = context.nonce.as_nat();
                &&& final(self).state.nonce_at(sender) == n0 || final(self).state.nonce_at(sender)
                    == n0 + 1
                &&& context.is_version_zero() ==> final(self).state.nonce_at(sender) == n0
                &&& r is Ok ==> {
                    &&& !context.is_version_zero() ==> nonce_acceptable(n0, tn, strict_nonce_check)
                        && final(self).state.nonce_at(sender) == n0 + 1
                    &&& charge_fee ==> b0 >= context.committed_fee()
                }
                &&& !context.is_version_zero() && !nonce_acceptable(n0, tn, strict_nonce_check)
                    ==> r is Err
                &&& charge_fee && b0 < context.committed_fee() ==> r is Err
                &&& r matches Err(e) ==> match e {
                    ValidationError::StateReadError(_) => true,
                    ValidationError::NonceMismatchError { address, account_nonce, tx_nonce } => {
                        &&& !context.is_version_zero()
                        &&& address == sender
                        &&& account_nonce.as_nat() == n0
                        &&& tx_nonce == context.nonce
                        &&& !nonce_acceptable(n0, tn, strict_nonce_check)
                        &&& final(self).state.nonce_at(sender) == n0
                    },
                    ValidationError::FeeCheckError { address, balance, fee_commitment } => {
                        &&& charge_fee
                        &&& address == sender
                        &&& balance.0 as nat == b0
                        &&& fee_commitment == context.fee_commitment
                        &&& b0 < context.committed_fee()
                        // The fee check runs after the nonce was advanced,
                        // and its failure rolls nothing back.
                        &&& !context.is_version_zero() ==> final(self).state.nonce_at(sender) == n0
                            + 1
                    },
                    _ => false,
                }
            }),
    {
        let sender = context.sender_address;
        if context.version != crate::transaction::TransactionVersion(crate::hash::StarkFelt(0)) {
            let account_nonce = match self.state.get_nonce_at(sender) {
                Ok(n) => n,
                Err(e) => {
                    return Err(ValidationError::StateReadError(e));
                },
            };
            let acceptable = if strict_nonce_check {
                context.nonce.0.0 == account_nonce.0.0
            } else {
                context.nonce.0.0 >= account_nonce.0.0
            };
            if !acceptable {
                return Err(
                    ValidationError::NonceMismatchError {
                        address: sender,
                        account_nonce,
                        tx_nonce: context.nonce,
                    },
                );
            }
            match self.state.increment_nonce(sender) {
                Ok(_) => {},
                Err(e) => {
                    return Err(ValidationError::StateReadError(e));
                },
            }
        }
        if charge_fee {
            let balance = match self.state.get_fee_token_balance(sender) {
                Ok(f) => f,
                Err(e) => {
                    return Err(ValidationError::StateReadError(e));
                },
            };
            if !context.covers_committed_fee(balance) {
                return Err(
                    ValidationError::FeeCheckError {
                        address: sender,
                        balance,
                        fee_commitment: context.fee_commitment,
                    },
                );
            }
        }
        Ok(())
    }
}

} // verus!
