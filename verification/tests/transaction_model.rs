//! The versioned accessors: every variant answers, with the documented
//! value or the documented absence.

use starknet_validator::core_types::{
    ClassHash, CompiledClassHash, ContractAddress, EntryPointSelector, Nonce,
};
use starknet_validator::hash::StarkFelt;
use starknet_validator::transaction::{
    AccountParams, Calldata, DeclareTransaction, DeclareTransactionOutput, DeclareTransactionV0V1,
    DeclareTransactionV2, DeclareTransactionV3, DeployAccountTransaction,
    DeployAccountTransactionV1, DeployAccountTransactionV3, Event, EventContent, Fee,
    InvokeTransaction, InvokeTransactionOutput, InvokeTransactionV0, InvokeTransactionV1,
    InvokeTransactionV3, ResourceBounds, StorageDomain, Tip, TransactionOutput,
    TransactionParamsV3, TransactionSignature, TransactionVersion,
};

fn account_params(max_fee: u128, nonce: u128, sig: Vec<u128>) -> AccountParams {
    AccountParams {
        max_fee: Fee(max_fee),
        signature: TransactionSignature(sig.into_iter().map(StarkFelt).collect()),
        nonce: Nonce(StarkFelt(nonce)),
    }
}

fn params_v3(nonce: u128, sig: Vec<u128>, max_amount: u64, max_price: u128) -> TransactionParamsV3 {
    TransactionParamsV3 {
        signature: TransactionSignature(sig.into_iter().map(StarkFelt).collect()),
        nonce: Nonce(StarkFelt(nonce)),
        nonce_da_mode: StorageDomain::OnChain,
        fee_da_mode: StorageDomain::OnChain,
        resource_bounds: ResourceBounds { max_amount, max_price_per_unit: max_price },
        tip: Tip(0),
    }
}

fn declare_v0v1(max_fee: u128, nonce: u128) -> DeclareTransactionV0V1 {
    DeclareTransactionV0V1 {
        account_params: account_params(max_fee, nonce, vec![11, 22]),
        class_hash: ClassHash(StarkFelt(77)),
        sender_address: ContractAddress(StarkFelt(5)),
    }
}

#[test]
fn declare_accessors_every_version() {
    let v0 = DeclareTransaction::V0(declare_v0v1(100, 0));
    let v1 = DeclareTransaction::V1(declare_v0v1(101, 1));
    let v2 = DeclareTransaction::V2(DeclareTransactionV2 {
        account_params: account_params(102, 2, vec![33]),
        class_hash: ClassHash(StarkFelt(78)),
        compiled_class_hash: CompiledClassHash(StarkFelt(88)),
        sender_address: ContractAddress(StarkFelt(6)),
    });
    let v3 = DeclareTransaction::V3(DeclareTransactionV3 {
        transaction_params: params_v3(3, vec![44, 55], 10, 2),
        class_hash: ClassHash(StarkFelt(79)),
        compiled_class_hash: CompiledClassHash(StarkFelt(89)),
        sender_address: ContractAddress(StarkFelt(7)),
    });

    assert_eq!(v0.nonce(), Nonce(StarkFelt(0)));
    assert_eq!(v1.nonce(), Nonce(StarkFelt(1)));
    assert_eq!(v2.nonce(), Nonce(StarkFelt(2)));
    assert_eq!(v3.nonce(), Nonce(StarkFelt(3)));

    assert_eq!(v0.max_fee(), Some(Fee(100)));
    assert_eq!(v1.max_fee(), Some(Fee(101)));
    assert_eq!(v2.max_fee(), Some(Fee(102)));
    assert_eq!(v3.max_fee(), None);

    assert_eq!(v0.signature(), TransactionSignature(vec![StarkFelt(11), StarkFelt(22)]));
    assert_eq!(v2.signature(), TransactionSignature(vec![StarkFelt(33)]));
    assert_eq!(v3.signature(), TransactionSignature(vec![StarkFelt(44), StarkFelt(55)]));

    assert_eq!(v0.compiled_class_hash(), None);
    assert_eq!(v1.compiled_class_hash(), None);
    assert_eq!(v2.compiled_class_hash(), Some(CompiledClassHash(StarkFelt(88))));
    assert_eq!(v3.compiled_class_hash(), Some(CompiledClassHash(StarkFelt(89))));

    assert_eq!(v0.version(), TransactionVersion(StarkFelt(0)));
    assert_eq!(v1.version(), TransactionVersion(StarkFelt(1)));
    assert_eq!(v2.version(), TransactionVersion(StarkFelt(2)));
    assert_eq!(v3.version(), TransactionVersion(StarkFelt(3)));

    assert_eq!(v0.class_hash(), ClassHash(StarkFelt(77)));
    assert_eq!(v3.class_hash(), ClassHash(StarkFelt(79)));
    assert_eq!(v0.sender_address(), ContractAddress(StarkFelt(5)));
    assert_eq!(v3.sender_address(), ContractAddress(StarkFelt(7)));
}

#[test]
fn deploy_account_accessors_every_version() {
    let v1 = DeployAccountTransaction::V1(DeployAccountTransactionV1 {
        account_params: account_params(200, 0, vec![1]),
        class_hash: ClassHash(StarkFelt(70)),
        contract_address_salt: starknet_validator::transaction::ContractAddressSalt(StarkFelt(9)),
        constructor_calldata: Calldata(vec![StarkFelt(42)]),
    });
    let v3 = DeployAccountTransaction::V3(DeployAccountTransactionV3 {
        transaction_params: params_v3(0, vec![2], 20, 3),
        class_hash: ClassHash(StarkFelt(71)),
        contract_address_salt: starknet_validator::transaction::ContractAddressSalt(StarkFelt(10)),
        constructor_calldata: Calldata(vec![StarkFelt(43)]),
    });

    assert_eq!(v1.nonce(), Nonce(StarkFelt(0)));
    assert_eq!(v3.nonce(), Nonce(StarkFelt(0)));
    assert_eq!(v1.max_fee(), Some(Fee(200)));
    assert_eq!(v3.max_fee(), None);
    assert_eq!(v1.signature(), TransactionSignature(vec![StarkFelt(1)]));
    assert_eq!(v3.signature(), TransactionSignature(vec![StarkFelt(2)]));
    assert_eq!(v1.version(), TransactionVersion(StarkFelt(1)));
    assert_eq!(v3.version(), TransactionVersion(StarkFelt(3)));
    assert_eq!(v1.class_hash(), ClassHash(StarkFelt(70)));
    assert_eq!(v1.constructor_calldata(), Calldata(vec![StarkFelt(42)]));
    assert_eq!(
        v3.contract_address_salt(),
        starknet_validator::transaction::ContractAddressSalt(StarkFelt(10))
    );
}

#[test]
fn invoke_accessors_every_version() {
    let v0 = InvokeTransaction::V0(InvokeTransactionV0 {
        max_fee: Fee(300),
        signature: TransactionSignature(vec![StarkFelt(4)]),
        contract_address: ContractAddress(StarkFelt(12)),
        entry_point_selector: EntryPointSelector(StarkFelt(1)),
        calldata: Calldata(vec![StarkFelt(8)]),
    });
    let v1 = InvokeTransaction::V1(InvokeTransactionV1 {
        account_params: account_params(301, 6, vec![5]),
        sender_address: ContractAddress(StarkFelt(13)),
        calldata: Calldata(vec![]),
    });
    let v3 = InvokeTransaction::V3(InvokeTransactionV3 {
        transaction_params: params_v3(7, vec![6], 30, 4),
        sender_address: ContractAddress(StarkFelt(14)),
        calldata: Calldata(vec![StarkFelt(9)]),
    });

    // Invoke V0 predates account nonces: nonce is absent, not zero.
    assert_eq!(v0.nonce(), None);
    assert_eq!(v1.nonce(), Some(Nonce(StarkFelt(6))));
    assert_eq!(v3.nonce(), Some(Nonce(StarkFelt(7))));

    assert_eq!(v0.max_fee(), Some(Fee(300)));
    assert_eq!(v1.max_fee(), Some(Fee(301)));
    assert_eq!(v3.max_fee(), None);

    assert_eq!(v0.signature(), TransactionSignature(vec![StarkFelt(4)]));
    assert_eq!(v1.signature(), TransactionSignature(vec![StarkFelt(5)]));
    assert_eq!(v3.signature(), TransactionSignature(vec![StarkFelt(6)]));

    // Invoke V0 has no sender field of its own; the contract address
    // stands in for it.
    assert_eq!(v0.sender_address(), ContractAddress(StarkFelt(12)));
    assert_eq!(v1.sender_address(), ContractAddress(StarkFelt(13)));
    assert_eq!(v3.sender_address(), ContractAddress(StarkFelt(14)));

    assert_eq!(v0.version(), TransactionVersion(StarkFelt(0)));
    assert_eq!(v1.version(), TransactionVersion(StarkFelt(1)));
    assert_eq!(v3.version(), TransactionVersion(StarkFelt(3)));

    assert_eq!(v0.calldata(), Calldata(vec![StarkFelt(8)]));
    assert_eq!(v3.calldata(), Calldata(vec![StarkFelt(9)]));
}

#[test]
fn output_accessors_dispatch_over_every_kind() {
    let event = Event {
        from_address: ContractAddress(StarkFelt(21)),
        content: EventContent::default(),
    };
    let declare = TransactionOutput::Declare(DeclareTransactionOutput {
        actual_fee: Fee(17),
        messages_sent: vec![],
        events: vec![event.clone()],
    });
    let invoke = TransactionOutput::Invoke(InvokeTransactionOutput {
        actual_fee: Fee(18),
        messages_sent: vec![],
        events: vec![],
    });

    assert_eq!(declare.actual_fee(), Fee(17));
    assert_eq!(invoke.actual_fee(), Fee(18));
    assert_eq!(declare.events(), &vec![event]);
    assert_eq!(invoke.events(), &Vec::<Event>::new());
}
