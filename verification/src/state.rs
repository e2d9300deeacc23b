//! The state-reading backend.
//!
//! The validator never owns chain state itself; it reads and advances
//! nonces and reads fee-token balances through the [`StateReader`] port.
//! Reading never mutates the abstract state — mutation happens only through
//! [`StateReader::increment_nonce`] (and, inside the engine, through
//! execution).  [`InMemoryStateReader`] is the library's own verified
//! implementation, suitable for tests and for callers that assemble the
//! relevant state up front.

use vstd::prelude::*;
use crate::core_types::{ContractAddress, Nonce};
use crate::hash::StarkFelt;
use crate::transaction::Fee;

verus! {

/// Failures of the state-reading backend.
#[derive(Debug, Copy, Clone, Eq, PartialEq, Structural)]
pub enum StateError {
    /// The backend could not serve the read or write at all.
    BackendFailure,
    /// The stored nonce cannot be advanced any further.
    NonceOverflow,
}

/// Read and advance per-contract state for one block height.
///
/// The two spec views give the abstract contents: every contract has a
/// nonce and a fee-token balance, zero when nothing is stored for it.
/// Reads may fail (a backend may be remote), but a successful read returns
/// exactly the viewed value, and no read changes the views.
pub trait StateReader: Sized {
    /// The nonce currently stored for `address`.
    spec fn nonce_at(&self, address: ContractAddress) -> nat;

    /// The fee-token balance currently stored for `address`.
    spec fn balance_at(&self, address: ContractAddress) -> nat;

    /// Reads the nonce of `address`.
    fn get_nonce_at(&mut self, address: ContractAddress) -> (r: Result<Nonce, StateError>)
        ensures
            forall|a: ContractAddress| #![auto] final(self).nonce_at(a) == old(self).nonce_at(a),
            forall|a: ContractAddress| #![auto] final(self).balance_at(a) == old(self).balance_at(
                a,
            ),
            r matches Ok(n) ==> n.as_nat() == old(self).nonce_at(address),
    ;

    /// Reads the fee-token balance of `address`.
    fn get_fee_token_balance(&mut self, address: ContractAddress) -> (r: Result<Fee, StateError>)
        ensures
            forall|a: ContractAddress| #![auto] final(self).nonce_at(a) == old(self).nonce_at(a),
            forall|a: ContractAddress| #![auto] final(self).balance_at(a) == old(self).balance_at(
                a,
            ),
            r matches Ok(f) ==> f.0 as nat == old(self).balance_at(address),
    ;

    /// Advances the nonce of `address` by one.  No other cell changes,
    /// and on failure nothing changes at all.
    fn increment_nonce(&mut self, address: ContractAddress) -> (r: Result<(), StateError>)
        ensures
            forall|a: ContractAddress| #![auto] final(self).balance_at(a) == old(self).balance_at(
                a,
            ),
            forall|a: ContractAddress| #![auto]
                a != address ==> final(self).nonce_at(a) == old(self).nonce_at(a),
            r is Ok ==> final(self).nonce_at(address) == old(self).nonce_at(address) + 1,
            r is Err ==> final(self).nonce_at(address) == old(self).nonce_at(address),
    ;
}

/// The value stored for `address` in an association list, taking the first
/// matching entry.
pub open spec fn lookup<V>(entries: Seq<(ContractAddress, V)>, address: ContractAddress) -> Option<
    V,
>
    decreases entries.len(),
{
    if entries.len() == 0 {
        None
    } else if entries[0].0 == address {
        Some(entries[0].1)
    } else {
        lookup(entries.skip(1), address)
    }
}

/// If no entry before position `i` matches `address`, the lookup result is
/// decided by the entries from `i` on.
proof fn lemma_lookup_skip<V>(entries: Seq<(ContractAddress, V)>, address: ContractAddress, i: int)
    requires
        0 <= i <= entries.len(),
        forall|j: int| 0 <= j < i ==> entries[j].0 != address,
    ensures
        lookup(entries, address) == lookup(entries.skip(i), address),
    decreases i,
{
    if i > 0 {
        assert(entries[0].0 != address);
        lemma_lookup_skip(entries.skip(1), address, i - 1);
        assert(entries.skip(1).skip(i - 1) =~= entries.skip(i));
    } else {
        assert(entries.skip(0) =~= entries);
    }
}

/// Replacing the value at position `i` while keeping its key does not
/// change the lookup of a different key.
proof fn lemma_lookup_update_other<V>(
    entries: Seq<(ContractAddress, V)>,
    i: int,
    entry: (ContractAddress, V),
    address: ContractAddress,
)
    requires
        0 <= i < entries.len(),
        entries[i].0 == entry.0,
        entry.0 != address,
    ensures
        lookup(entries.update(i, entry), address) == lookup(entries, address),
    decreases i,
{
    let updated = entries.update(i, entry);
    if i == 0 {
        assert(updated[0].0 == entry.0);
        assert(updated.skip(1) =~= entries.skip(1));
    } else {
        assert(updated[0] == entries[0]);
        if entries[0].0 != address {
            lemma_lookup_update_other(entries.skip(1), i - 1, entry, address);
            assert(entries.skip(1).update(i - 1, entry) =~= updated.skip(1));
        }
    }
}

/// Replacing the value at a position while keeping its key changes no
/// lookup but that key's.
proof fn lemma_lookup_update_other_all<V>(
    entries: Seq<(ContractAddress, V)>,
    i: int,
    entry: (ContractAddress, V),
)
    requires
        0 <= i < entries.len(),
        entries[i].0 == entry.0,
    ensures
        forall|a: ContractAddress| #![auto]
            a != entry.0 ==> lookup(entries.update(i, entry), a) == lookup(entries, a),
{
    assert forall|a: ContractAddress| #![auto] a != entry.0 implies lookup(
        entries.update(i, entry),
        a,
    ) == lookup(entries, a) by {
        lemma_lookup_update_other(entries, i, entry, a);
    }
}

/// Appending an entry whose key was absent makes its lookup find it, and
/// changes no other key's lookup.
proof fn lemma_lookup_push<V>(entries: Seq<(ContractAddress, V)>, entry: (ContractAddress, V))
    requires
        lookup(entries, entry.0) is None,
    ensures
        lookup(entries.push(entry), entry.0) == Some(entry.1),
        forall|a: ContractAddress| #![auto]
            a != entry.0 ==> lookup(entries.push(entry), a) == lookup(entries, a),
    decreases entries.len(),
{
    if entries.len() == 0 {
        assert(entries.push(entry)[0] == entry);
        assert forall|a: ContractAddress| #![auto] a != entry.0 implies lookup(
            entries.push(entry),
            a,
        ) == lookup(entries, a) by {
            assert(entries.push(entry).skip(1) =~= Seq::<(ContractAddress, V)>::empty());
            assert(lookup(Seq::<(ContractAddress, V)>::empty(), a) is None);
            assert(lookup(entries, a) is None);
        }
    } else {
        assert(entries[0].0 != entry.0);
        lemma_lookup_push(entries.skip(1), entry);
        assert(entries.push(entry).skip(1) =~= entries.skip(1).push(entry));
        assert(entries.push(entry)[0] == entries[0]);
        assert forall|a: ContractAddress| #![auto] a != entry.0 implies lookup(
            entries.push(entry),
            a,
        ) == lookup(entries, a) by {
            if entries[0].0 != a {
                assert(lookup(entries.push(entry), a) == lookup(entries.push(entry).skip(1), a));
                assert(lookup(entries.skip(1).push(entry), a) == lookup(entries.skip(1), a));
                assert(lookup(entries, a) == lookup(entries.skip(1), a));
            }
        }
    }
}

/// Finds the first entry for `address` in an association list.
fn find_entry<V>(entries: &Vec<(ContractAddress, V)>, address: ContractAddress) -> (r: Option<
    usize,
>)
    ensures
        r matches Some(i) ==> i < entries@.len() && entries@[i as int].0 == address && (forall|
            j: int,
        | 0 <= j < i ==> entries@[j].0 != address) && lookup(entries@, address) == Some(
            entries@[i as int].1,
        ),
        r is None ==> lookup(entries@, address) is None,
{
    let mut i: usize = 0;
    while i < entries.len()
        invariant
            i <= entries@.len(),
            forall|j: int| 0 <= j < i ==> entries@[j].0 != address,
        decreases entries@.len() - i,
    {
        if entries[i].0 == address {
            proof {
                lemma_lookup_skip(entries@, address, i as int);
                assert(entries@.skip(i as int)[0] == entries@[i as int]);
            }
            return Some(i);
        }
        i = i + 1;
    }
    proof {
        lemma_lookup_skip(entries@, address, i as int);
    }
    None
}

/// Chain state held directly in memory: one entry per contract for nonces
/// and for balances, unknown contracts reading as zero.
pub struct InMemoryStateReader {
    nonces: Vec<(ContractAddress, Nonce)>,
    balances: Vec<(ContractAddress, Fee)>,
}

impl InMemoryStateReader {
    /// State with no stored entries: every nonce and balance reads zero.
    pub fn new() -> (r: InMemoryStateReader)
        ensures
            forall|a: ContractAddress| #![auto] r.nonce_at(a) == 0,
            forall|a: ContractAddress| #![auto] r.balance_at(a) == 0,
    {
        InMemoryStateReader { nonces: Vec::new(), balances: Vec::new() }
    }

    /// Stores `nonce` for `address`, replacing any earlier entry.
    pub fn set_nonce(&mut self, address: ContractAddress, nonce: Nonce)
        ensures
            final(self).nonce_at(address) == nonce.as_nat(),
            forall|a: ContractAddress| #![auto]
                a != address ==> final(self).nonce_at(a) == old(self).nonce_at(a),
            forall|a: ContractAddress| #![auto] final(self).balance_at(a) == old(self).balance_at(
                a,
            ),
    {
        let position = find_entry(&self.nonces, address);
        match position {
            Some(i) => {
                let ghost before = self.nonces@;
                self.nonces[i] = (address, nonce);
                proof {
                    lemma_lookup_update_other_all(before, i as int, (address, nonce));
                    lemma_lookup_skip(self.nonces@, address, i as int);
                    assert(self.nonces@.skip(i as int)[0] == (address, nonce));
                }
            },
            None => {
                proof {
                    lemma_lookup_push(self.nonces@, (address, nonce));
                }
                self.nonces.push((address, nonce));
            },
        }
    }

    /// Stores `balance` for `address`, replacing any earlier entry.
    pub fn set_balance(&mut self, address: ContractAddress, balance: Fee)
        ensures
            final(self).balance_at(address) == balance.0 as nat,
            forall|a: ContractAddress| #![auto]
                a != address ==> final(self).balance_at(a) == old(self).balance_at(a),
            forall|a: ContractAddress| #![auto] final(self).nonce_at(a) == old(self).nonce_at(a),
    {
        let position = find_entry(&self.balances, address);
        match position {
            Some(i) => {
                let ghost before = self.balances@;
                self.balances[i] = (address, balance);
                proof {
                    lemma_lookup_update_other_all(before, i as int, (address, balance));
                    lemma_lookup_skip(self.balances@, address, i as int);
                    assert(self.balances@.skip(i as int)[0] == (address, balance));
                }
            },
            None => {
                proof {
                    lemma_lookup_push(self.balances@, (address, balance));
                }
                self.balances.push((address, balance));
            },
        }
    }
}

impl StateReader for InMemoryStateReader {
    closed spec fn nonce_at(&self, address: ContractAddress) -> nat {
        match lookup(self.nonces@, address) {
            Some(n) => n.as_nat(),
            None => 0,
        }
    }

    closed spec fn balance_at(&self, address: ContractAddress) -> nat {
        match lookup(self.balances@, address) {
            Some(f) => f.0 as nat,
            None => 0,
        }
    }

    /// The in-memory reader always answers: on top of the port contract,
    /// the read is promised to succeed.
    fn get_nonce_at(&mut self, address: ContractAddress) -> (r: Result<Nonce, StateError>)
        ensures
            r is Ok,
    {
        let position = find_entry(&self.nonces, address);
        match position {
            Some(i) => Ok(self.nonces[i].1),
            None => Ok(Nonce(StarkFelt(0))),
        }
    }

    /// The in-memory reader always answers: on top of the port contract,
    /// the read is promised to succeed.
    fn get_fee_token_balance(&mut self, address: ContractAddress) -> (r: Result<Fee, StateError>)
        ensures
            r is Ok,
    {
        let position = find_entry(&self.balances, address);
        match position {
            Some(i) => Ok(self.balances[i].1),
            None => Ok(Fee(0)),
        }
    }

    /// On top of the port contract: the increment succeeds unless the
    /// stored nonce is already at the top of the counter.
    fn increment_nonce(&mut self, address: ContractAddress) -> (r: Result<(), StateError>)
        ensures
            r is Err <==> old(self).nonce_at(address) == u128::MAX,
            r matches Err(e) ==> e == StateError::NonceOverflow,
    {
        let current = match self.get_nonce_at(address) {
            Ok(n) => n,
            Err(e) => {
                return Err(e);
            },
        };
        if current.0.0 == u128::MAX {
            return Err(StateError::NonceOverflow);
        }
        let next = Nonce(StarkFelt(current.0.0 + 1));
        self.set_nonce(address, next);
        Ok(())
    }
}

} // verus!
