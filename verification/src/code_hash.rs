//! Contract code and its hash as the runtime stores it.

use vstd::prelude::*;

verus! {

/// The 256-bit Blake2b digest of `data`, the runtime's code hash.
pub uninterp spec fn blake2_256_of(data: Seq<u8>) -> Seq<u8>;

/// `sp_core_hashing::blake2_256`: trusted to return the 32-byte Blake2b
/// digest of its argument, a function of the bytes alone.
#[verifier::external_body]
fn blake2_256(data: &[u8]) -> (r: [u8; 32])
    ensures
        r@ == blake2_256_of(data@),
{
    sp_core_hashing::blake2_256(data)
}

/// A compiled contract module together with its code hash: the module's
/// bytes, unchanged, and their Blake2b-256 digest.
pub fn module_with_code_hash(wasm: Vec<u8>) -> (r: (Vec<u8>, [u8; 32]))
    ensures
        r.0@ == wasm@,
        r.1@ == blake2_256_of(wasm@),
{
    let code_hash = blake2_256(wasm.as_slice());
    (wasm, code_hash)
}

} // verus!
