//! The versioned transaction model.
//!
//! Each transaction family (Declare, DeployAccount, Invoke) carries several
//! syntactic versions that group their fields differently: the legacy
//! versions commit to a flat `max_fee`, the V3 versions commit to resource
//! bounds and a tip.  The per-family accessors dispatch over every version
//! exhaustively, so adding a version is a forced, visible change in each of
//! them.  The version tag itself is always derived from the variant, never
//! stored, so it cannot drift.

use vstd::prelude::*;
use crate::block::{BlockHash, BlockNumber};
use crate::core_types::{
    ClassHash, CompiledClassHash, ContractAddress, EntryPointSelector, EthAddress, Nonce,
};
use crate::hash::{StarkFelt, StarkHash};

verus! {

/// A transaction.
#[derive(Debug, Clone, Eq, PartialEq, Hash)]
pub enum Transaction {
    /// A declare transaction.
    Declare(DeclareTransaction),
    /// A deploy transaction.
    Deploy(DeployTransaction),
    /// A deploy account transaction.
    DeployAccount(DeployAccountTransaction),
    /// An invoke transaction.
    Invoke(InvokeTransaction),
    /// An L1 handler transaction.
    L1Handler(L1HandlerTransaction),
}

/// A transaction output.
#[derive(Debug, Clone, Eq, PartialEq, Hash)]
pub enum TransactionOutput {
    /// A declare transaction output.
    Declare(DeclareTransactionOutput),
    /// A deploy transaction output.
    Deploy(DeployTransactionOutput),
    /// A deploy account transaction output.
    DeployAccount(DeployAccountTransactionOutput),
    /// An invoke transaction output.
    Invoke(InvokeTransactionOutput),
    /// An L1 handler transaction output.
    L1Handler(L1HandlerTransactionOutput),
}

impl TransactionOutput {
    /// The fee actually charged, whatever kind of output this is.
    pub open spec fn spec_actual_fee(&self) -> Fee {
        match self {
            TransactionOutput::Declare(output) => output.actual_fee,
            TransactionOutput::Deploy(output) => output.actual_fee,
            TransactionOutput::DeployAccount(output) => output.actual_fee,
            TransactionOutput::Invoke(output) => output.actual_fee,
            TransactionOutput::L1Handler(output) => output.actual_fee,
        }
    }

    /// The events the execution emitted, whatever kind of output this is.
    pub open spec fn spec_events(&self) -> Seq<Event> {
        match self {
            TransactionOutput::Declare(output) => output.events@,
            TransactionOutput::Deploy(output) => output.events@,
            TransactionOutput::DeployAccount(output) => output.events@,
            TransactionOutput::Invoke(output) => output.events@,
            TransactionOutput::L1Handler(output) => output.events@,
        }
    }

    pub fn actual_fee(&self) -> (r: Fee)
        ensures
            r == self.spec_actual_fee(),
    {
        match self {
            TransactionOutput::Declare(output) => output.actual_fee,
            TransactionOutput::Deploy(output) => output.actual_fee,
            TransactionOutput::DeployAccount(output) => output.actual_fee,
            TransactionOutput::Invoke(output) => output.actual_fee,
            TransactionOutput::L1Handler(output) => output.actual_fee,
        }
    }

    pub fn events(&self) -> (r: &Vec<Event>)
        ensures
            r@ == self.spec_events(),
    {
        match self {
            TransactionOutput::Declare(output) => &output.events,
            TransactionOutput::Deploy(output) => &output.events,
            TransactionOutput::DeployAccount(output) => &output.events,
            TransactionOutput::Invoke(output) => &output.events,
            TransactionOutput::L1Handler(output) => &output.events,
        }
    }
}

/// The storage domain a data-availability mode points at.
#[derive(Debug, Copy, Clone, Default, Eq, PartialEq, Hash, Structural)]
pub enum StorageDomain {
    #[default]
    OnChain,
    OffChain,
}

/// The account-facing parameters shared by every legacy (pre-V3)
/// account transaction: a flat fee commitment, a signature and a nonce.
#[derive(Debug, Clone, Eq, PartialEq, Hash)]
pub struct AccountParams {
    pub max_fee: Fee,
    pub signature: TransactionSignature,
    pub nonce: Nonce,
}

/// The account-facing parameters shared by every V3 transaction: resource
/// bounds and a tip in place of a flat fee, plus data-availability modes.
#[derive(Debug, Clone, Eq, PartialEq, Hash)]
pub struct TransactionParamsV3 {
    pub signature: TransactionSignature,
    pub nonce: Nonce,
    pub nonce_da_mode: StorageDomain,
    pub fee_da_mode: StorageDomain,
    pub resource_bounds: ResourceBounds,
    pub tip: Tip,
}

/// A declare V0 or V1 transaction (same schema but different version).
#[derive(Debug, Clone, Eq, PartialEq, Hash)]
pub struct DeclareTransactionV0V1 {
    pub account_params: AccountParams,
    pub class_hash: ClassHash,
    pub sender_address: ContractAddress,
}

/// A declare V2 transaction.
#[derive(Debug, Clone, Eq, PartialEq, Hash)]
pub struct DeclareTransactionV2 {
    pub account_params: AccountParams,
    pub class_hash: ClassHash,
    pub compiled_class_hash: CompiledClassHash,
    pub sender_address: ContractAddress,
}

/// A declare V3 transaction.
#[derive(Debug, Clone, Eq, PartialEq, Hash)]
pub struct DeclareTransactionV3 {
    pub transaction_params: TransactionParamsV3,
    pub class_hash: ClassHash,
    pub compiled_class_hash: CompiledClassHash,
    pub sender_address: ContractAddress,
}

#[derive(Debug, Clone, Eq, PartialEq, Hash)]
pub enum DeclareTransaction {
    V0(DeclareTransactionV0V1),
    V1(DeclareTransactionV0V1),
    V2(DeclareTransactionV2),
    V3(DeclareTransactionV3),
}

impl DeclareTransaction {
    /// The legacy fee commitment; `None` exactly on V3, which commits to
    /// resource bounds instead.
    pub open spec fn spec_max_fee(&self) -> Option<Fee> {
        match self {
            DeclareTransaction::V0(tx) => Some(tx.account_params.max_fee),
            DeclareTransaction::V1(tx) => Some(tx.account_params.max_fee),
            DeclareTransaction::V2(tx) => Some(tx.account_params.max_fee),
            DeclareTransaction::V3(_) => None,
        }
    }

    /// The felts of the signature, wherever the version keeps them.
    pub open spec fn signature_felts(&self) -> Seq<StarkFelt> {
        match self {
            DeclareTransaction::V0(tx) => tx.account_params.signature.0@,
            DeclareTransaction::V1(tx) => tx.account_params.signature.0@,
            DeclareTransaction::V2(tx) => tx.account_params.signature.0@,
            DeclareTransaction::V3(tx) => tx.transaction_params.signature.0@,
        }
    }

    /// The account nonce, wherever the version keeps it.
    pub open spec fn spec_nonce(&self) -> Nonce {
        match self {
            DeclareTransaction::V0(tx) => tx.account_params.nonce,
            DeclareTransaction::V1(tx) => tx.account_params.nonce,
            DeclareTransaction::V2(tx) => tx.account_params.nonce,
            DeclareTransaction::V3(tx) => tx.transaction_params.nonce,
        }
    }

    /// The compiled class hash; present from V2 on.
    pub open spec fn spec_compiled_class_hash(&self) -> Option<CompiledClassHash> {
        match self {
            DeclareTransaction::V0(_) => None,
            DeclareTransaction::V1(_) => None,
            DeclareTransaction::V2(tx) => Some(tx.compiled_class_hash),
            DeclareTransaction::V3(tx) => Some(tx.compiled_class_hash),
        }
    }

    /// The version tag, derived from the variant alone.
    pub open spec fn spec_version(&self) -> TransactionVersion {
        match self {
            DeclareTransaction::V0(_) => TransactionVersion(StarkFelt(0)),
            DeclareTransaction::V1(_) => TransactionVersion(StarkFelt(1)),
            DeclareTransaction::V2(_) => TransactionVersion(StarkFelt(2)),
            DeclareTransaction::V3(_) => TransactionVersion(StarkFelt(3)),
        }
    }

    pub open spec fn spec_class_hash(&self) -> ClassHash {
        match self {
            DeclareTransaction::V0(tx) => tx.class_hash,
            DeclareTransaction::V1(tx) => tx.class_hash,
            DeclareTransaction::V2(tx) => tx.class_hash,
            DeclareTransaction::V3(tx) => tx.class_hash,
        }
    }

    pub open spec fn spec_sender_address(&self) -> ContractAddress {
        match self {
            DeclareTransaction::V0(tx) => tx.sender_address,
            DeclareTransaction::V1(tx) => tx.sender_address,
            DeclareTransaction::V2(tx) => tx.sender_address,
            DeclareTransaction::V3(tx) => tx.sender_address,
        }
    }

    pub fn class_hash(&self) -> (r: ClassHash)
        ensures
            r == self.spec_class_hash(),
    {
        match self {
            DeclareTransaction::V0(tx) => tx.class_hash,
            DeclareTransaction::V1(tx) => tx.class_hash,
            DeclareTransaction::V2(tx) => tx.class_hash,
            DeclareTransaction::V3(tx) => tx.class_hash,
        }
    }

    pub fn sender_address(&self) -> (r: ContractAddress)
        ensures
            r == self.spec_sender_address(),
    {
        match self {
            DeclareTransaction::V0(tx) => tx.sender_address,
            DeclareTransaction::V1(tx) => tx.sender_address,
            DeclareTransaction::V2(tx) => tx.sender_address,
            DeclareTransaction::V3(tx) => tx.sender_address,
        }
    }

    pub fn max_fee(&self) -> (r: Option<Fee>)
        ensures
            r == self.spec_max_fee(),
    {
        match self {
            DeclareTransaction::V0(tx) => Some(tx.account_params.max_fee),
            DeclareTransaction::V1(tx) => Some(tx.account_params.max_fee),
            DeclareTransaction::V2(tx) => Some(tx.account_params.max_fee),
            DeclareTransaction::V3(_) => None,
        }
    }

    pub fn signature(&self) -> (r: TransactionSignature)
        ensures
            r.0@ == self.signature_felts(),
    {
        match self {
            DeclareTransaction::V0(tx) => TransactionSignature(copy_felts(&tx.account_params.signature.0)),
            DeclareTransaction::V1(tx) => TransactionSignature(copy_felts(&tx.account_params.signature.0)),
            DeclareTransaction::V2(tx) => TransactionSignature(copy_felts(&tx.account_params.signature.0)),
            DeclareTransaction::V3(tx) => TransactionSignature(copy_felts(&tx.transaction_params.signature.0)),
        }
    }

    pub fn nonce(&self) -> (r: Nonce)
        ensures
            r == self.spec_nonce(),
    {
        match self {
            DeclareTransaction::V0(tx) => tx.account_params.nonce,
            DeclareTransaction::V1(tx) => tx.account_params.nonce,
            DeclareTransaction::V2(tx) => tx.account_params.nonce,
            DeclareTransaction::V3(tx) => tx.transaction_params.nonce,
        }
    }

    pub fn compiled_class_hash(&self) -> (r: Option<CompiledClassHash>)
        ensures
            r == self.spec_compiled_class_hash(),
    {
        match self {
            DeclareTransaction::V0(_) => None,
            DeclareTransaction::V1(_) => None,
            DeclareTransaction::V2(tx) => Some(tx.compiled_class_hash),
            DeclareTransaction::V3(tx) => Some(tx.compiled_class_hash),
        }
    }

    pub fn version(&self) -> (r: TransactionVersion)
        ensures
            r == self.spec_version(),
    {
        match self {
            DeclareTransaction::V0(_) => TransactionVersion(StarkFelt(0)),
            DeclareTransaction::V1(_) => TransactionVersion(StarkFelt(1)),
            DeclareTransaction::V2(_) => TransactionVersion(StarkFelt(2)),
            DeclareTransaction::V3(_) => TransactionVersion(StarkFelt(3)),
        }
    }
}

/// A deploy account V1 transaction.
#[derive(Debug, Clone, Eq, PartialEq, Hash)]
pub struct DeployAccountTransactionV1 {
    pub account_params: AccountParams,
    pub class_hash: ClassHash,
    pub contract_address_salt: ContractAddressSalt,
    pub constructor_calldata: Calldata,
}

/// A deploy account V3 transaction.
#[derive(Debug, Clone, Eq, PartialEq, Hash)]
pub struct DeployAccountTransactionV3 {
    pub transaction_params: TransactionParamsV3,
    pub class_hash: ClassHash,
    pub contract_address_salt: ContractAddressSalt,
    pub constructor_calldata: Calldata,
}

#[derive(Debug, Clone, Eq, PartialEq, Hash)]
pub enum DeployAccountTransaction {
    V1(DeployAccountTransactionV1),
    V3(DeployAccountTransactionV3),
}

impl DeployAccountTransaction {
    /// The legacy fee commitment; `None` exactly on V3.
    pub open spec fn spec_max_fee(&self) -> Option<Fee> {
        match self {
            DeployAccountTransaction::V1(tx) => Some(tx.account_params.max_fee),
            DeployAccountTransaction::V3(_) => None,
        }
    }

    pub open spec fn signature_felts(&self) -> Seq<StarkFelt> {
        match self {
            DeployAccountTransaction::V1(tx) => tx.account_params.signature.0@,
            DeployAccountTransaction::V3(tx) => tx.transaction_params.signature.0@,
        }
    }

    pub open spec fn spec_nonce(&self) -> Nonce {
        match self {
            DeployAccountTransaction::V1(tx) => tx.account_params.nonce,
            DeployAccountTransaction::V3(tx) => tx.transaction_params.nonce,
        }
    }

    /// The version tag, derived from the variant alone.
    pub open spec fn spec_version(&self) -> TransactionVersion {
        match self {
            DeployAccountTransaction::V1(_) => TransactionVersion(StarkFelt(1)),
            DeployAccountTransaction::V3(_) => TransactionVersion(StarkFelt(3)),
        }
    }

    pub open spec fn spec_class_hash(&self) -> ClassHash {
        match self {
            DeployAccountTransaction::V1(tx) => tx.class_hash,
            DeployAccountTransaction::V3(tx) => tx.class_hash,
        }
    }

    pub open spec fn constructor_calldata_felts(&self) -> Seq<StarkFelt> {
        match self {
            DeployAccountTransaction::V1(tx) => tx.constructor_calldata.0@,
            DeployAccountTransaction::V3(tx) => tx.constructor_calldata.0@,
        }
    }

    pub open spec fn spec_contract_address_salt(&self) -> ContractAddressSalt {
        match self {
            DeployAccountTransaction::V1(tx) => tx.contract_address_salt,
            DeployAccountTransaction::V3(tx) => tx.contract_address_salt,
        }
    }

    pub fn class_hash(&self) -> (r: ClassHash)
        ensures
            r == self.spec_class_hash(),
    {
        match self {
            DeployAccountTransaction::V1(tx) => tx.class_hash,
            DeployAccountTransaction::V3(tx) => tx.class_hash,
        }
    }

    pub fn constructor_calldata(&self) -> (r: Calldata)
        ensures
            r.0@ == self.constructor_calldata_felts(),
    {
        match self {
            DeployAccountTransaction::V1(tx) => Calldata(copy_felts(&tx.constructor_calldata.0)),
            DeployAccountTransaction::V3(tx) => Calldata(copy_felts(&tx.constructor_calldata.0)),
        }
    }

    pub fn contract_address_salt(&self) -> (r: ContractAddressSalt)
        ensures
            r == self.spec_contract_address_salt(),
    {
        match self {
            DeployAccountTransaction::V1(tx) => tx.contract_address_salt,
            DeployAccountTransaction::V3(tx) => tx.contract_address_salt,
        }
    }

    pub fn max_fee(&self) -> (r: Option<Fee>)
        ensures
            r == self.spec_max_fee(),
    {
        match self {
            DeployAccountTransaction::V1(tx) => Some(tx.account_params.max_fee),
            DeployAccountTransaction::V3(_) => None,
        }
    }

    pub fn signature(&self) -> (r: TransactionSignature)
        ensures
            r.0@ == self.signature_felts(),
    {
        match self {
            DeployAccountTransaction::V1(tx) => TransactionSignature(copy_felts(&tx.account_params.signature.0)),
            DeployAccountTransaction::V3(tx) => TransactionSignature(copy_felts(&tx.transaction_params.signature.0)),
        }
    }

    pub fn nonce(&self) -> (r: Nonce)
        ensures
            r == self.spec_nonce(),
    {
        match self {
            DeployAccountTransaction::V1(tx) => tx.account_params.nonce,
            DeployAccountTransaction::V3(tx) => tx.transaction_params.nonce,
        }
    }

    pub fn version(&self) -> (r: TransactionVersion)
        ensures
            r == self.spec_version(),
    {
        match self {
            DeployAccountTransaction::V1(_) => TransactionVersion(StarkFelt(1)),
            DeployAccountTransaction::V3(_) => TransactionVersion(StarkFelt(3)),
        }
    }
}

/// A deploy transaction (the legacy, pre-account way to put a contract on
/// chain; it has no account nonce).
#[derive(Debug, Clone, Eq, PartialEq, Hash)]
pub struct DeployTransaction {
    pub version: TransactionVersion,
    pub class_hash: ClassHash,
    pub contract_address_salt: ContractAddressSalt,
    pub constructor_calldata: Calldata,
}

/// An invoke V0 transaction (no account nonce yet).
#[derive(Debug, Clone, Eq, PartialEq, Hash)]
pub struct InvokeTransactionV0 {
    pub max_fee: Fee,
    pub signature: TransactionSignature,
    pub contract_address: ContractAddress,
    pub entry_point_selector: EntryPointSelector,
    pub calldata: Calldata,
}

/// An invoke V1 transaction.
#[derive(Debug, Clone, Eq, PartialEq, Hash)]
pub struct InvokeTransactionV1 {
    pub account_params: AccountParams,
    pub sender_address: ContractAddress,
    pub calldata: Calldata,
}

/// An invoke V3 transaction.
#[derive(Debug, Clone, Eq, PartialEq, Hash)]
pub struct InvokeTransactionV3 {
    pub transaction_params: TransactionParamsV3,
    pub sender_address: ContractAddress,
    pub calldata: Calldata,
}

#[derive(Debug, Clone, Eq, PartialEq, Hash)]
pub enum InvokeTransaction {
    V0(InvokeTransactionV0),
    V1(InvokeTransactionV1),
    V3(InvokeTransactionV3),
}

impl InvokeTransaction {
    /// The legacy fee commitment; `None` exactly on V3.
    pub open spec fn spec_max_fee(&self) -> Option<Fee> {
        match self {
            InvokeTransaction::V0(tx) => Some(tx.max_fee),
            InvokeTransaction::V1(tx) => Some(tx.account_params.max_fee),
            InvokeTransaction::V3(_) => None,
        }
    }

    pub open spec fn signature_felts(&self) -> Seq<StarkFelt> {
        match self {
            InvokeTransaction::V0(tx) => tx.signature.0@,
            InvokeTransaction::V1(tx) => tx.account_params.signature.0@,
            InvokeTransaction::V3(tx) => tx.transaction_params.signature.0@,
        }
    }

    /// The account nonce; `None` on V0, which predates account nonces.
    pub open spec fn spec_nonce(&self) -> Option<Nonce> {
        match self {
            InvokeTransaction::V0(_) => None,
            InvokeTransaction::V1(tx) => Some(tx.account_params.nonce),
            InvokeTransaction::V3(tx) => Some(tx.transaction_params.nonce),
        }
    }

    pub open spec fn spec_sender_address(&self) -> ContractAddress {
        match self {
            InvokeTransaction::V0(tx) => tx.contract_address,
            InvokeTransaction::V1(tx) => tx.sender_address,
            InvokeTransaction::V3(tx) => tx.sender_address,
        }
    }

    /// The version tag, derived from the variant alone.
    pub open spec fn spec_version(&self) -> TransactionVersion {
        match self {
            InvokeTransaction::V0(_) => TransactionVersion(StarkFelt(0)),
            InvokeTransaction::V1(_) => TransactionVersion(StarkFelt(1)),
            InvokeTransaction::V3(_) => TransactionVersion(StarkFelt(3)),
        }
    }

    pub open spec fn calldata_felts(&self) -> Seq<StarkFelt> {
        match self {
            InvokeTransaction::V0(tx) => tx.calldata.0@,
            InvokeTransaction::V1(tx) => tx.calldata.0@,
            InvokeTransaction::V3(tx) => tx.calldata.0@,
        }
    }

    pub fn calldata(&self) -> (r: Calldata)
        ensures
            r.0@ == self.calldata_felts(),
    {
        match self {
            InvokeTransaction::V0(tx) => Calldata(copy_felts(&tx.calldata.0)),
            InvokeTransaction::V1(tx) => Calldata(copy_felts(&tx.calldata.0)),
            InvokeTransaction::V3(tx) => Calldata(copy_felts(&tx.calldata.0)),
        }
    }

    pub fn max_fee(&self) -> (r: Option<Fee>)
        ensures
            r == self.spec_max_fee(),
    {
        match self {
            InvokeTransaction::V0(tx) => Some(tx.max_fee),
            InvokeTransaction::V1(tx) => Some(tx.account_params.max_fee),
            InvokeTransaction::V3(_) => None,
        }
    }

    pub fn signature(&self) -> (r: TransactionSignature)
        ensures
            r.0@ == self.signature_felts(),
    {
        match self {
            InvokeTransaction::V0(tx) => TransactionSignature(copy_felts(&tx.signature.0)),
            InvokeTransaction::V1(tx) => TransactionSignature(copy_felts(&tx.account_params.signature.0)),
            InvokeTransaction::V3(tx) => TransactionSignature(copy_felts(&tx.transaction_params.signature.0)),
        }
    }

    pub fn nonce(&self) -> (r: Option<Nonce>)
        ensures
            r == self.spec_nonce(),
    {
        match self {
            InvokeTransaction::V0(_) => None,
            InvokeTransaction::V1(tx) => Some(tx.account_params.nonce),
            InvokeTransaction::V3(tx) => Some(tx.transaction_params.nonce),
        }
    }

    pub fn sender_address(&self) -> (r: ContractAddress)
        ensures
            r == self.spec_sender_address(),
    {
        match self {
            InvokeTransaction::V0(tx) => tx.contract_address,
            InvokeTransaction::V1(tx) => tx.sender_address,
            InvokeTransaction::V3(tx) => tx.sender_address,
        }
    }

    pub fn version(&self) -> (r: TransactionVersion)
        ensures
            r == self.spec_version(),
    {
        match self {
            InvokeTransaction::V0(_) => TransactionVersion(StarkFelt(0)),
            InvokeTransaction::V1(_) => TransactionVersion(StarkFelt(1)),
            InvokeTransaction::V3(_) => TransactionVersion(StarkFelt(3)),
        }
    }
}

/// An L1 handler transaction (driven by an L1 message; no account nonce).
#[derive(Debug, Clone, Eq, PartialEq, Hash)]
pub struct L1HandlerTransaction {
    pub version: TransactionVersion,
    pub nonce: Nonce,
    pub contract_address: ContractAddress,
    pub entry_point_selector: EntryPointSelector,
    pub calldata: Calldata,
}

/// A declare transaction output.
#[derive(Debug, Clone, Eq, PartialEq, Hash)]
pub struct DeclareTransactionOutput {
    pub actual_fee: Fee,
    pub messages_sent: Vec<MessageToL1>,
    pub events: Vec<Event>,
}

/// A deploy-account transaction output.
#[derive(Debug, Clone, Eq, PartialEq, Hash)]
pub struct DeployAccountTransactionOutput {
    pub actual_fee: Fee,
    pub messages_sent: Vec<MessageToL1>,
    pub events: Vec<Event>,
    pub contract_address: ContractAddress,
}

/// A deploy transaction output.
#[derive(Debug, Clone, Eq, PartialEq, Hash)]
pub struct DeployTransactionOutput {
    pub actual_fee: Fee,
    pub messages_sent: Vec<MessageToL1>,
    pub events: Vec<Event>,
    pub contract_address: ContractAddress,
}

/// An invoke transaction output.
#[derive(Debug, Clone, Eq, PartialEq, Hash)]
pub struct InvokeTransactionOutput {
    pub actual_fee: Fee,
    pub messages_sent: Vec<MessageToL1>,
    pub events: Vec<Event>,
}

/// An L1 handler transaction output.
#[derive(Debug, Clone, Eq, PartialEq, Hash)]
pub struct L1HandlerTransactionOutput {
    pub actual_fee: Fee,
    pub messages_sent: Vec<MessageToL1>,
    pub events: Vec<Event>,
}

/// A transaction receipt.
#[derive(Debug, Clone, Eq, PartialEq, Hash)]
pub struct TransactionReceipt {
    pub transaction_hash: TransactionHash,
    pub block_hash: BlockHash,
    pub block_number: BlockNumber,
    pub output: TransactionOutput,
}

/// Transaction execution status.  Succeeded is the default variant because
/// old blocks predate execution statuses and every transaction in them is
/// considered succeeded.
#[derive(Debug, Copy, Clone, Default, Eq, PartialEq, Hash, Structural)]
pub enum TransactionExecutionStatus {
    #[default]
    Succeeded,
    Reverted,
}

/// A fee, denominated in the chain's fee token.
#[derive(Debug, Copy, Clone, Default, Eq, PartialEq, Hash, Structural)]
pub struct Fee(pub u128);

/// A tip the sender offers on top of a V3 fee commitment.
#[derive(Debug, Copy, Clone, Default, Eq, PartialEq, Hash, Structural)]
pub struct Tip(pub u64);

/// A resource whose usage a V3 sender bounds.
#[derive(Debug, Copy, Clone, Eq, PartialEq, Hash, Structural)]
pub enum Resource {
    L1Gas,
    L2Gas,
}

/// The bound a sender commits to for one resource.
#[derive(Debug, Copy, Clone, Default, Eq, PartialEq, Hash, Structural)]
pub struct ResourceBounds {
    /// The maximum amount of the resource allowed for usage during the
    /// execution.
    pub max_amount: u64,
    /// The maximum price the user is willing to pay for each resource unit.
    pub max_price_per_unit: u128,
}

/// Bounds for a set of resources, each resource listed at most once.
#[derive(Debug, Clone, Eq, PartialEq, Hash)]
pub struct ResourcesBounds(pub Vec<(Resource, ResourceBounds)>);

impl ResourcesBounds {
    /// Well-formed bounds list each resource at most once, so an entry's
    /// bound is the resource's bound.
    pub open spec fn wf(&self) -> bool {
        forall|i: int, j: int| #![auto]
            0 <= i < j < self.0@.len() ==> self.0@[i].0 != self.0@[j].0
    }
}

/// The hash of a [`Transaction`].
#[derive(Debug, Copy, Clone, Default, Eq, PartialEq, Hash, Structural)]
pub struct TransactionHash(pub StarkHash);

/// A contract address salt.
#[derive(Debug, Copy, Clone, Default, Eq, PartialEq, Hash, Structural)]
pub struct ContractAddressSalt(pub StarkHash);

/// A transaction signature.
#[derive(Debug, Clone, Default, Eq, PartialEq, Hash)]
pub struct TransactionSignature(pub Vec<StarkFelt>);

/// A transaction version.
#[derive(Debug, Copy, Clone, Default, Eq, PartialEq, Hash, Structural)]
pub struct TransactionVersion(pub StarkFelt);

/// The calldata of a transaction.
#[derive(Debug, Clone, Default, Eq, PartialEq, Hash)]
pub struct Calldata(pub Vec<StarkFelt>);

/// An L1 to L2 message.
#[derive(Debug, Clone, Eq, PartialEq, Hash)]
pub struct MessageToL2 {
    pub from_address: EthAddress,
    pub payload: L1ToL2Payload,
}

/// An L2 to L1 message.
#[derive(Debug, Clone, Eq, PartialEq, Hash)]
pub struct MessageToL1 {
    pub from_address: ContractAddress,
    pub to_address: EthAddress,
    pub payload: L2ToL1Payload,
}

/// The payload of [`MessageToL2`].
#[derive(Debug, Clone, Default, Eq, PartialEq, Hash)]
pub struct L1ToL2Payload(pub Vec<StarkFelt>);

/// The payload of [`MessageToL1`].
#[derive(Debug, Clone, Default, Eq, PartialEq, Hash)]
pub struct L2ToL1Payload(pub Vec<StarkFelt>);

/// An event.
#[derive(Debug, Clone, Eq, PartialEq, Hash)]
pub struct Event {
    pub from_address: ContractAddress,
    pub content: EventContent,
}

/// An event content.
#[derive(Debug, Clone, Default, Eq, PartialEq, Hash)]
pub struct EventContent {
    pub keys: Vec<EventKey>,
    pub data: EventData,
}

/// An event key.
#[derive(Debug, Copy, Clone, Default, Eq, PartialEq, Hash, Structural)]
pub struct EventKey(pub StarkFelt);

/// An event data.
#[derive(Debug, Clone, Default, Eq, PartialEq, Hash)]
pub struct EventData(pub Vec<StarkFelt>);

/// The index of a transaction in a block body.
#[derive(Debug, Copy, Clone, Default, Eq, PartialEq, Hash, Structural)]
pub struct TransactionOffsetInBlock(pub usize);

/// The index of an event in a [`TransactionOutput`].
#[derive(Debug, Copy, Clone, Default, Eq, PartialEq, Hash, Structural)]
pub struct EventIndexInTransactionOutput(pub usize);

/// Copies a sequence of felts element by element, so that callers know the
/// copy carries exactly the same values.
fn copy_felts(src: &Vec<StarkFelt>) -> (r: Vec<StarkFelt>)
    ensures
        r@ == src@,
{
    let mut out: Vec<StarkFelt> = Vec::new();
    let mut i: usize = 0;
    while i < src.len()
        invariant
            i <= src.len(),
            out@ == src@.subrange(0, i as int),
        decreases src.len() - i,
    {
        out.push(src[i]);
        assert(src@.subrange(0, i as int).push(src@[i as int]) =~= src@.subrange(0, i as int + 1));
        i = i + 1;
    }
    assert(src@.subrange(0, src@.len() as int) =~= src@);
    out
}

} // verus!
