//! Account transactions and the per-call view the validator works on.
//!
//! Only the three account families (Declare, DeployAccount, Invoke) go
//! through account validation; deploy and L1-handler transactions have no
//! account nonce and no validation program.  A fresh
//! [`AccountTransactionContext`] is derived from the transaction for every
//! validation call, never mutated and never kept beyond it.

use vstd::prelude::*;
use crate::core_types::{ContractAddress, Nonce};
use crate::hash::StarkFelt;
use crate::transaction::{
    DeclareTransaction, DeployAccountTransaction, Fee, InvokeTransaction, ResourceBounds,
    TransactionVersion,
};

verus! {

/// What the sender committed to pay: the legacy flat fee, or the V3
/// resource bounds.  Exactly one of the two models is in force for any
/// transaction; callers must check which before comparing fees.
#[derive(Debug, Copy, Clone, Eq, PartialEq, Structural)]
pub enum FeeCommitment {
    /// The legacy model: a flat maximum fee.
    MaxFee(Fee),
    /// The V3 model: a bound on resource amount and unit price.
    ResourceBounds(ResourceBounds),
}

/// The view of an account transaction that the validation stages read:
/// sender, nonce, version and fee commitment.  Constructed fresh per call
/// from the transaction.
#[derive(Debug, Copy, Clone, Eq, PartialEq, Structural)]
pub struct AccountTransactionContext {
    /// The account the transaction acts for; for a deploy-account
    /// transaction, the address the account is being deployed at.
    pub sender_address: ContractAddress,
    /// The account nonce the transaction carries; zero for an invoke V0,
    /// which predates account nonces.
    pub nonce: Nonce,
    /// The transaction's version tag.
    pub version: TransactionVersion,
    /// What the sender committed to pay.
    pub fee_commitment: FeeCommitment,
}

impl AccountTransactionContext {
    /// The committed fee as one number: the flat fee, or the full price of
    /// the committed resource bound.
    pub open spec fn committed_fee(&self) -> nat {
        match self.fee_commitment {
            FeeCommitment::MaxFee(f) => f.0 as nat,
            FeeCommitment::ResourceBounds(rb) => rb.max_amount as nat * rb.max_price_per_unit
                as nat,
        }
    }

    /// Version-zero transactions predate account nonces, so the nonce
    /// stages do not apply to them.
    pub open spec fn is_version_zero(&self) -> bool {
        self.version == TransactionVersion(StarkFelt(0))
    }

    /// Whether `balance` covers the committed fee.
    pub fn covers_committed_fee(&self, balance: Fee) -> (r: bool)
        ensures
            r <==> balance.0 as nat >= self.committed_fee(),
    {
        match self.fee_commitment {
            FeeCommitment::MaxFee(f) => balance.0 >= f.0,
            FeeCommitment::ResourceBounds(rb) => {
                match (rb.max_amount as u128).checked_mul(rb.max_price_per_unit) {
                    Some(price) => balance.0 >= price,
                    None => false,
                }
            },
        }
    }
}

/// A transaction with an account to validate against: the input of
/// `perform_validations`.
#[derive(Debug, Clone, Eq, PartialEq)]
pub enum AccountTransaction {
    /// A declare transaction.
    Declare(DeclareTransaction),
    /// A deploy-account transaction, together with the address the new
    /// account is being deployed at (derived from the class hash and salt
    /// when the transaction is built, before validation starts).
    DeployAccount { tx: DeployAccountTransaction, contract_address: ContractAddress },
    /// An invoke transaction.
    Invoke(InvokeTransaction),
}

impl AccountTransaction {
    /// Deploy-account transactions are the one kind the orchestrator
    /// substitutes full execution for validation.
    pub open spec fn is_deploy_account(&self) -> bool {
        self is DeployAccount
    }

    /// The legacy fee commitment of the transaction, whatever its family.
    pub open spec fn spec_max_fee(&self) -> Option<Fee> {
        match self {
            AccountTransaction::Declare(tx) => tx.spec_max_fee(),
            AccountTransaction::DeployAccount { tx, .. } => tx.spec_max_fee(),
            AccountTransaction::Invoke(tx) => tx.spec_max_fee(),
        }
    }

    /// The version tag of the transaction, whatever its family.
    pub open spec fn spec_version(&self) -> TransactionVersion {
        match self {
            AccountTransaction::Declare(tx) => tx.spec_version(),
            AccountTransaction::DeployAccount { tx, .. } => tx.spec_version(),
            AccountTransaction::Invoke(tx) => tx.spec_version(),
        }
    }

    /// The context a validation call for this transaction works on.
    pub open spec fn spec_context(&self) -> AccountTransactionContext {
        match self {
            AccountTransaction::Declare(tx) => AccountTransactionContext {
                sender_address: tx.spec_sender_address(),
                nonce: tx.spec_nonce(),
                version: tx.spec_version(),
                fee_commitment: match tx {
                    DeclareTransaction::V3(v3) => FeeCommitment::ResourceBounds(
                        v3.transaction_params.resource_bounds,
                    ),
                    _ => FeeCommitment::MaxFee(tx.spec_max_fee()->Some_0),
                },
            },
            AccountTransaction::DeployAccount { tx, contract_address } => AccountTransactionContext {
                sender_address: *contract_address,
                nonce: tx.spec_nonce(),
                version: tx.spec_version(),
                fee_commitment: match tx {
                    DeployAccountTransaction::V3(v3) => FeeCommitment::ResourceBounds(
                        v3.transaction_params.resource_bounds,
                    ),
                    DeployAccountTransaction::V1(v1) => FeeCommitment::MaxFee(
                        v1.account_params.max_fee,
                    ),
                },
            },
            AccountTransaction::Invoke(tx) => AccountTransactionContext {
                sender_address: tx.spec_sender_address(),
                nonce: match tx.spec_nonce() {
                    Some(n) => n,
                    None => Nonce(StarkFelt(0)),
                },
                version: tx.spec_version(),
                fee_commitment: match tx {
                    InvokeTransaction::V3(v3) => FeeCommitment::ResourceBounds(
                        v3.transaction_params.resource_bounds,
                    ),
                    InvokeTransaction::V0(v0) => FeeCommitment::MaxFee(v0.max_fee),
                    InvokeTransaction::V1(v1) => FeeCommitment::MaxFee(v1.account_params.max_fee),
                },
            },
        }
    }

    /// Derives the context the validation stages read.
    pub fn get_account_tx_context(&self) -> (r: AccountTransactionContext)
        ensures
            r == self.spec_context(),
    {
        match self {
            AccountTransaction::Declare(tx) => AccountTransactionContext {
                sender_address: tx.sender_address(),
                nonce: tx.nonce(),
                version: tx.version(),
                fee_commitment: match tx {
                    DeclareTransaction::V3(v3) => FeeCommitment::ResourceBounds(
                        v3.transaction_params.resource_bounds,
                    ),
                    DeclareTransaction::V0(v0) => FeeCommitment::MaxFee(v0.account_params.max_fee),
                    DeclareTransaction::V1(v1) => FeeCommitment::MaxFee(v1.account_params.max_fee),
                    DeclareTransaction::V2(v2) => FeeCommitment::MaxFee(v2.account_params.max_fee),
                },
            },
            AccountTransaction::DeployAccount { tx, contract_address } => AccountTransactionContext {
                sender_address: *contract_address,
                nonce: tx.nonce(),
                version: tx.version(),
                fee_commitment: match tx {
                    DeployAccountTransaction::V3(v3) => FeeCommitment::ResourceBounds(
                        v3.transaction_params.resource_bounds,
                    ),
                    DeployAccountTransaction::V1(v1) => FeeCommitment::MaxFee(
                        v1.account_params.max_fee,
                    ),
                },
            },
            AccountTransaction::Invoke(tx) => AccountTransactionContext {
                sender_address: tx.sender_address(),
                nonce: match tx.nonce() {
                    Some(n) => n,
                    None => Nonce(StarkFelt(0)),
                },
                version: tx.version(),
                fee_commitment: match tx {
                    InvokeTransaction::V3(v3) => FeeCommitment::ResourceBounds(
                        v3.transaction_params.resource_bounds,
                    ),
                    InvokeTransaction::V0(v0) => FeeCommitment::MaxFee(v0.max_fee),
                    InvokeTransaction::V1(v1) => FeeCommitment::MaxFee(v1.account_params.max_fee),
                },
            },
        }
    }
}

/// Every V3 account transaction reports no legacy max fee, and every
/// pre-V3 account transaction reports one: the two fee models exclude
/// each other.
pub proof fn lemma_fee_models_mutually_exclusive(tx: AccountTransaction)
    ensures
        tx.spec_max_fee() is None <==> tx.spec_version() == TransactionVersion(StarkFelt(3)),
        tx.spec_max_fee() is Some <==> tx.spec_context().fee_commitment is MaxFee,
        tx.spec_max_fee() is None <==> tx.spec_context().fee_commitment is ResourceBounds,
{
}

} // verus!
