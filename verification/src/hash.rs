//! Field elements, the scalar type every identifier and counter is built on.

use vstd::prelude::*;

verus! {

/// A Stark field element.
///
/// The admission logic reads felts only as unsigned integers: nonce
/// ordering, version tags, fee amounts and opaque identifiers that are
/// compared for equality.  This library therefore represents a felt by a
/// `u128`, which is wide enough for every value the validator computes
/// with.
#[derive(Debug, Copy, Clone, Default, Eq, PartialEq, Hash, Structural)]
pub struct StarkFelt(pub u128);

/// The hash of an on-chain object, itself a field element.
pub type StarkHash = StarkFelt;

} // verus!
