//! The in-memory state reader: defaults, updates and the nonce counter.

use starknet_validator::core_types::{ContractAddress, Nonce};
use starknet_validator::hash::StarkFelt;
use starknet_validator::state::{InMemoryStateReader, StateError, StateReader};
use starknet_validator::transaction::Fee;

fn address(x: u128) -> ContractAddress {
    ContractAddress(StarkFelt(x))
}

#[test]
fn unknown_contracts_read_as_zero() {
    let mut state = InMemoryStateReader::new();
    assert_eq!(state.get_nonce_at(address(1)), Ok(Nonce(StarkFelt(0))));
    assert_eq!(state.get_fee_token_balance(address(1)), Ok(Fee(0)));
}

#[test]
fn stored_values_are_read_back() {
    let mut state = InMemoryStateReader::new();
    state.set_nonce(address(1), Nonce(StarkFelt(4)));
    state.set_balance(address(1), Fee(250));
    state.set_nonce(address(2), Nonce(StarkFelt(9)));

    assert_eq!(state.get_nonce_at(address(1)), Ok(Nonce(StarkFelt(4))));
    assert_eq!(state.get_fee_token_balance(address(1)), Ok(Fee(250)));
    assert_eq!(state.get_nonce_at(address(2)), Ok(Nonce(StarkFelt(9))));
    assert_eq!(state.get_fee_token_balance(address(2)), Ok(Fee(0)));
}

#[test]
fn setting_again_replaces_the_entry() {
    let mut state = InMemoryStateReader::new();
    state.set_nonce(address(1), Nonce(StarkFelt(4)));
    state.set_nonce(address(1), Nonce(StarkFelt(7)));
    assert_eq!(state.get_nonce_at(address(1)), Ok(Nonce(StarkFelt(7))));
}

#[test]
fn increment_advances_only_the_named_contract() {
    let mut state = InMemoryStateReader::new();
    state.set_nonce(address(1), Nonce(StarkFelt(4)));
    state.set_nonce(address(2), Nonce(StarkFelt(9)));

    assert_eq!(state.increment_nonce(address(1)), Ok(()));
    assert_eq!(state.get_nonce_at(address(1)), Ok(Nonce(StarkFelt(5))));
    assert_eq!(state.get_nonce_at(address(2)), Ok(Nonce(StarkFelt(9))));

    // Incrementing a contract with no entry starts it from zero.
    assert_eq!(state.increment_nonce(address(3)), Ok(()));
    assert_eq!(state.get_nonce_at(address(3)), Ok(Nonce(StarkFelt(1))));
}

#[test]
fn increment_fails_at_the_top_of_the_counter() {
    let mut state = InMemoryStateReader::new();
    state.set_nonce(address(1), Nonce(StarkFelt(u128::MAX)));
    assert_eq!(state.increment_nonce(address(1)), Err(StateError::NonceOverflow));
    assert_eq!(state.get_nonce_at(address(1)), Ok(Nonce(StarkFelt(u128::MAX))));
}
