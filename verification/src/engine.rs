//! The program execution engine.
//!
//! Running a constructor or an account's validation program is the job of
//! an external virtual machine; this library consumes it only through the
//! [`ExecutionEngine`] port.  Nothing is promised about what a run returns
//! — an engine decides success and cost on its own — but every call is
//! appended to the engine's call log with the context of the transaction
//! it was made for, so callers can state exactly which programs a
//! validation flow did and did not run, and for what.  [`ScriptedEngine`]
//! is the library's own implementation, answering calls from a queue of
//! prepared outcomes; it stands in for a real machine in tests.

use vstd::prelude::*;
use crate::account_transaction::{AccountTransaction, AccountTransactionContext};
use crate::block::BlockInfo;
use crate::transaction::Fee;

verus! {

/// Failures the execution engine reports.
#[derive(Debug, Copy, Clone, Eq, PartialEq, Structural)]
pub enum EngineError {
    /// The program ran and reverted.
    Reverted,
    /// The program ran out of gas.
    OutOfGas,
    /// The engine itself could not run the program.
    Internal,
}

/// What a validation or execution run cost.
#[derive(Debug, Copy, Clone, Eq, PartialEq, Structural)]
pub struct ActualCost {
    /// The fee actually charged for the run.
    pub actual_fee: Fee,
    /// The amount of the bounded resource (gas units) the run consumed.
    pub actual_resources: u64,
}

/// What the engine reports about a single program call.
#[derive(Debug, Copy, Clone, Eq, PartialEq, Structural)]
pub struct CallInfo {
    /// Gas the call itself consumed.
    pub gas_consumed: u64,
}

/// The result of fully executing a transaction.
#[derive(Debug, Copy, Clone, Eq, PartialEq, Structural)]
pub struct ExecutionOutcome {
    /// What the execution cost.
    pub actual_cost: ActualCost,
}

/// The result of running an account's validation program.
#[derive(Debug, Copy, Clone, Eq, PartialEq, Structural)]
pub struct ValidateOutcome {
    /// The engine's report about the validate call, when it produced one.
    pub call_info: Option<CallInfo>,
    /// What the validation run cost.
    pub actual_cost: ActualCost,
}

/// One entry of the engine's call log: which primitive was invoked, for
/// which transaction (by its account context), with what arguments, and
/// what came back.
#[derive(Debug, Copy, Clone, Eq, PartialEq)]
pub enum EngineCall {
    /// A full execution of a transaction.
    Execute {
        tx_context: AccountTransactionContext,
        limit_steps_by_resources: bool,
        outcome: Result<ExecutionOutcome, EngineError>,
    },
    /// A run of an account's validation program.
    Validate {
        tx_context: AccountTransactionContext,
        remaining_gas: u64,
        outcome: Result<ValidateOutcome, EngineError>,
    },
}

/// Runs programs against chain state for one block height.
///
/// The engine is free to succeed or fail as it sees fit — a program may
/// revert on any input — so the only thing promised of a call is that it
/// is recorded: the call log grows by exactly the call made, for the
/// transaction handed in, carrying the outcome that was returned.
pub trait ExecutionEngine: Sized {
    /// Every call made to this engine so far, oldest first.
    spec fn call_log(&self) -> Seq<EngineCall>;

    /// Fully executes `tx`, constructor included.
    fn execute_program(
        &mut self,
        tx: &AccountTransaction,
        block_info: &BlockInfo,
        limit_steps_by_resources: bool,
    ) -> (r: Result<ExecutionOutcome, EngineError>)
        ensures
            final(self).call_log() == old(self).call_log().push(
                EngineCall::Execute {
                    tx_context: tx.spec_context(),
                    limit_steps_by_resources,
                    outcome: r,
                },
            ),
    ;

    /// Runs the account's validation program for `tx`.
    fn run_validate_program(
        &mut self,
        tx: &AccountTransaction,
        block_info: &BlockInfo,
        remaining_gas: u64,
    ) -> (r: Result<ValidateOutcome, EngineError>)
        ensures
            final(self).call_log() == old(self).call_log().push(
                EngineCall::Validate { tx_context: tx.spec_context(), remaining_gas, outcome: r },
            ),
    ;
}

/// An engine that answers calls from queues of prepared outcomes, consumed
/// back to front; a call whose queue is exhausted fails with
/// [`EngineError::Internal`].  It keeps the full call log in an ordinary
/// field, so a test can check afterwards which programs were run.
pub struct ScriptedEngine {
    /// Outcomes the next execute calls will return, consumed from the back.
    pub execute_outcomes: Vec<Result<ExecutionOutcome, EngineError>>,
    /// Outcomes the next validate calls will return, consumed from the back.
    pub validate_outcomes: Vec<Result<ValidateOutcome, EngineError>>,
    /// Every call made so far, oldest first.
    pub calls: Vec<EngineCall>,
}

impl ScriptedEngine {
    /// An engine with no prepared outcomes and an empty call log.
    pub fn new() -> (r: ScriptedEngine)
        ensures
            r.call_log() == Seq::<EngineCall>::empty(),
            r.execute_outcomes@.len() == 0,
            r.validate_outcomes@.len() == 0,
    {
        ScriptedEngine { execute_outcomes: Vec::new(), validate_outcomes: Vec::new(), calls: Vec::new() }
    }
}

impl ExecutionEngine for ScriptedEngine {
    open spec fn call_log(&self) -> Seq<EngineCall> {
        self.calls@
    }

    /// Answers with the back of the execute queue, or the internal-error
    /// fallback when the queue is empty; the validate queue is untouched.
    fn execute_program(
        &mut self,
        tx: &AccountTransaction,
        block_info: &BlockInfo,
        limit_steps_by_resources: bool,
    ) -> (r: Result<ExecutionOutcome, EngineError>)
        ensures
            old(self).execute_outcomes@.len() > 0 ==> r == old(self).execute_outcomes@.last()
                && final(self).execute_outcomes@ == old(self).execute_outcomes@.drop_last(),
            old(self).execute_outcomes@.len() == 0 ==> r == Err::<ExecutionOutcome, EngineError>(
                EngineError::Internal,
            ) && final(self).execute_outcomes@ == old(self).execute_outcomes@,
            final(self).validate_outcomes == old(self).validate_outcomes,
    {
        let outcome = match self.execute_outcomes.pop() {
            Some(prepared) => prepared,
            None => Err(EngineError::Internal),
        };
        self.calls.push(
            EngineCall::Execute {
                tx_context: tx.get_account_tx_context(),
                limit_steps_by_resources,
                outcome,
            },
        );
        outcome
    }

    /// Answers with the back of the validate queue, or the internal-error
    /// fallback when the queue is empty; the execute queue is untouched.
    fn run_validate_program(
        &mut self,
        tx: &AccountTransaction,
        block_info: &BlockInfo,
        remaining_gas: u64,
    ) -> (r: Result<ValidateOutcome, EngineError>)
        ensures
            old(self).validate_outcomes@.len() > 0 ==> r == old(self).validate_outcomes@.last()
                && final(self).validate_outcomes@ == old(self).validate_outcomes@.drop_last(),
            old(self).validate_outcomes@.len() == 0 ==> r == Err::<ValidateOutcome, EngineError>(
                EngineError::Internal,
            ) && final(self).validate_outcomes@ == old(self).validate_outcomes@,
            final(self).execute_outcomes == old(self).execute_outcomes,
    {
        let outcome = match self.validate_outcomes.pop() {
            Some(prepared) => prepared,
            None => Err(EngineError::Internal),
        };
        self.calls.push(
            EngineCall::Validate {
                tx_context: tx.get_account_tx_context(),
                remaining_gas,
                outcome,
            },
        );
        outcome
    }
}

} // verus!
