//! The post-validation report.
//!
//! After the account's validation program has run, the actual cost it
//! reported is reconciled against what the sender committed to pay.  An
//! overrun means the sender's commitment was insufficient — the program
//! itself did not fail — and is reported as its own error kind.

use vstd::prelude::*;
use crate::account_transaction::{AccountTransactionContext, FeeCommitment};
use crate::engine::ActualCost;
use crate::errors::ValidationError;

verus! {

/// Whether `cost` stays within what `context` committed to: the actual fee
/// within the legacy flat fee, or the consumed resource amount within the
/// committed bound.
pub open spec fn post_validation_ok(context: AccountTransactionContext, cost: ActualCost) -> bool {
    match context.fee_commitment {
        FeeCommitment::MaxFee(f) => cost.actual_fee.0 <= f.0,
        FeeCommitment::ResourceBounds(rb) => cost.actual_resources <= rb.max_amount,
    }
}

/// The reconciliation of an actual cost against the sender's fee
/// commitment.
pub struct PostValidationReport;

impl PostValidationReport {
    /// Verifies that the actual cost did not exceed the committed bound,
    /// under whichever fee model the sender used.
    pub fn verify(context: &AccountTransactionContext, actual_cost: &ActualCost) -> (r: Result<
        (),
        ValidationError,
    >)
        ensures
            r is Ok <==> post_validation_ok(*context, *actual_cost),
            r matches Err(e) ==> e matches ValidationError::ResourceBoundsExceededError {
                committed,
                actual,
            } && match context.fee_commitment {
                FeeCommitment::MaxFee(f) => committed == f.0 && actual == actual_cost.actual_fee.0,
                FeeCommitment::ResourceBounds(rb) => committed == rb.max_amount as u128 && actual
                    == actual_cost.actual_resources as u128,
            },
    {
        match context.fee_commitment {
            FeeCommitment::MaxFee(f) => {
                if actual_cost.actual_fee.0 <= f.0 {
                    Ok(())
                } else {
                    Err(
                        ValidationError::ResourceBoundsExceededError {
                            committed: f.0,
                            actual: actual_cost.actual_fee.0,
                        },
                    )
                }
            },
            FeeCommitment::ResourceBounds(rb) => {
                if actual_cost.actual_resources <= rb.max_amount {
                    Ok(())
                } else {
                    Err(
                        ValidationError::ResourceBoundsExceededError {
                            committed: rb.max_amount as u128,
                            actual: actual_cost.actual_resources as u128,
                        },
                    )
                }
            },
        }
    }
}

} // verus!
