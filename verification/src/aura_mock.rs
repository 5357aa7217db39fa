//! The test runtime of the Aura consensus pallet.

use vstd::prelude::*;

verus! {

/// The runtime that the Aura pallet's tests run against.
#[derive(Clone, Copy, PartialEq, Eq, Debug, Structural)]
pub struct Test;

/// The genesis of an Aura test, as plain values: the authorities, each by
/// the integer id from which its test key is derived, in the order given.
/// The system pallet's genesis is its default.
#[derive(Clone, PartialEq, Eq, Debug)]
pub struct AuraGenesis {
    pub authorities: Vec<u64>,
}

/// The genesis of a test with the given authorities: every id is kept, in
/// order, duplicates included.
pub fn new_test_ext(authorities: Vec<u64>) -> (r: AuraGenesis)
    ensures
        r.authorities@ == authorities@,
{
    AuraGenesis { authorities }
}

} // verus!
