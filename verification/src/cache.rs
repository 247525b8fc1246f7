//! Cache store: one slot, addressed by length. The slot is valid for a run
//! exactly when it holds as many bytes as the document is expected to have.

use vstd::prelude::*;

verus! {

/// Outcome of consulting the slot.
#[derive(Debug, Clone, Copy, PartialEq, Eq, Structural)]
pub enum Lookup {
    /// The slot holds as many bytes as expected: its contents are served.
    Hit,
    /// The slot is empty or stale: the document is fetched.
    Miss,
}

/// What reading a slot that holds `slot` yields for `expected_length`: the
/// whole contents on a hit, nothing on a miss.
pub open spec fn read_if_valid(slot: Seq<u8>, expected_length: u64) -> Option<Seq<u8>> {
    if slot.len() == expected_length {
        Some(slot)
    } else {
        None
    }
}

/// What a slot holds after `bytes` were written to it: `bytes` and nothing
/// of what it held before.
pub open spec fn written(slot: Seq<u8>, bytes: Seq<u8>) -> Seq<u8> {
    bytes
}

/// Compares the slot's stored length with the expected one.
pub fn lookup(stored_length: u64, expected_length: u64) -> (found: Lookup)
    ensures
        found == Lookup::Hit <==> stored_length == expected_length,
{
    if stored_length == expected_length {
        Lookup::Hit
    } else {
        Lookup::Miss
    }
}

} // verus!
