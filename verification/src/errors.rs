//! The error taxonomy of the admission gate.

use vstd::prelude::*;
use crate::account_transaction::FeeCommitment;
use crate::core_types::{ContractAddress, Nonce};
use crate::engine::EngineError;
use crate::state::StateError;
use crate::transaction::Fee;

verus! {

/// Everything a validation call can fail with.  Each stage returns a typed
/// result and the orchestrator never downgrades an error: the first failing
/// stage's error reaches the caller unchanged.
#[derive(Debug, Clone, Eq, PartialEq)]
pub enum ValidationError {
    /// `setup` was called while an execution context is live, or a
    /// validation or execution call arrived while none is.  This is a
    /// caller bug, not a data-dependent outcome.
    LifecycleViolation,
    /// The state-reading backend failed; propagated verbatim, retrying is
    /// the backend owner's concern.
    StateReadError(StateError),
    /// Pre-validation rejected the transaction's nonce.
    NonceMismatchError {
        /// The account whose nonce was checked.
        address: ContractAddress,
        /// The nonce currently stored on chain for that account.
        account_nonce: Nonce,
        /// The nonce the transaction carries.
        tx_nonce: Nonce,
    },
    /// The sender's balance does not cover the fee it committed to.
    FeeCheckError {
        /// The account whose balance was checked.
        address: ContractAddress,
        /// The balance that account holds in the fee token.
        balance: Fee,
        /// What the transaction committed to pay.
        fee_commitment: FeeCommitment,
    },
    /// The account's validation program (or, for a deploy-account
    /// transaction, its constructor run) reverted or trapped.
    ValidationProgramFailure(EngineError),
    /// The actual cost of the validation run exceeded the bounds the
    /// sender committed to: the commitment was insufficient, the program
    /// itself did not fail.
    ResourceBoundsExceededError {
        /// The bound the sender committed to, as a plain amount.
        committed: u128,
        /// What the run actually consumed of that bound.
        actual: u128,
    },
}

} // verus!
