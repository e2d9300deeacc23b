//! Core identifiers: addresses, class hashes and the account nonce.

use vstd::prelude::*;
use crate::hash::StarkFelt;

verus! {

/// The address of an on-chain contract.
#[derive(Debug, Copy, Clone, Default, Eq, PartialEq, Hash, Structural)]
pub struct ContractAddress(pub StarkFelt);

/// The hash identifying a declared contract class.
#[derive(Debug, Copy, Clone, Default, Eq, PartialEq, Hash, Structural)]
pub struct ClassHash(pub StarkFelt);

/// The hash of a compiled contract class.
#[derive(Debug, Copy, Clone, Default, Eq, PartialEq, Hash, Structural)]
pub struct CompiledClassHash(pub StarkFelt);

/// The selector of a contract entry point.
#[derive(Debug, Copy, Clone, Default, Eq, PartialEq, Hash, Structural)]
pub struct EntryPointSelector(pub StarkFelt);

/// An L1 (Ethereum) address.
#[derive(Debug, Copy, Clone, Default, Eq, PartialEq, Hash, Structural)]
pub struct EthAddress(pub u128);

/// The per-account counter that orders account transactions and prevents
/// replay.
#[derive(Debug, Copy, Clone, Default, Eq, PartialEq, Hash, Structural)]
pub struct Nonce(pub StarkFelt);

impl Nonce {
    /// The nonce as a plain number, the form the contracts speak of.
    pub open spec fn as_nat(self) -> nat {
        self.0.0 as nat
    }
}

} // verus!
