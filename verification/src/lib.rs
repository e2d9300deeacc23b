//! Pre-execution admission gate of a sequencer node.
//!
//! Before a transaction enters block building it must pass a staged
//! validation protocol: a skip heuristic for accounts whose deployment is
//! still pending, a state-mutating pre-validation (nonce ordering and fee
//! balance), a call into the account's validation program, and a
//! post-validation report that reconciles the actual cost against the
//! sender's committed bounds.  The [`validator::Validator`] owns this
//! lifecycle, one live execution context per block height.
//!
//! The state-reading backend and the program execution engine are external
//! collaborators; they enter the library through the [`state::StateReader`]
//! and [`engine::ExecutionEngine`] traits, specified only at their
//! interfaces.

pub mod account_transaction;
pub mod batcher_types;
pub mod block;
pub mod communication;
pub mod core_types;
pub mod engine;
pub mod errors;
pub mod fee_checks;
pub mod hash;
pub mod state;
pub mod transaction;
pub mod transaction_executor;
pub mod validator;
