//! The mock delegation certificate ("doughnut") and the verifier that the
//! runtime consults before it dispatches a call under one.

use vstd::prelude::*;

verus! {

/// A delegation certificate whose only property is whether a
/// contract-to-contract call made under it verifies.
#[derive(Clone, Copy, PartialEq, Eq, Debug, Structural)]
pub struct MockDoughnut {
    pub verifiable: bool,
}

impl MockDoughnut {
    /// A doughnut that verifies contract-to-contract calls iff `verifiable`.
    pub fn new(verifiable: bool) -> (r: Self)
        ensures
            r.verifiable == verifiable,
    {
        MockDoughnut { verifiable }
    }

    /// The holder's public key: 32 zero bytes.
    pub fn holder(&self) -> (r: [u8; 32])
        ensures
            r@ == Seq::new(32, |i: int| 0u8),
    {
        let r = [0u8; 32];
        assert(r@ =~= Seq::new(32, |i: int| 0u8));
        r
    }

    /// The issuer's public key: 32 zero bytes.
    pub fn issuer(&self) -> (r: [u8; 32])
        ensures
            r@ == Seq::new(32, |i: int| 0u8),
    {
        let r = [0u8; 32];
        assert(r@ =~= Seq::new(32, |i: int| 0u8));
        r
    }

    /// The expiry timestamp: 0.
    pub fn expiry(&self) -> (r: u32)
        ensures
            r == 0,
    {
        0
    }

    /// The timestamp before which the doughnut is not valid: 0.
    pub fn not_before(&self) -> (r: u32)
        ensures
            r == 0,
    {
        0
    }

    /// The payload: empty.
    pub fn payload(&self) -> (r: Vec<u8>)
        ensures
            r@ == Seq::<u8>::empty(),
    {
        Vec::new()
    }

    /// The signature: the unit value.
    pub fn signature(&self) {
    }

    /// The signature version: 0.
    pub fn signature_version(&self) -> (r: u8)
        ensures
            r == 0,
    {
        0
    }

    /// The permissions of a domain: none, for every domain.
    pub fn get_domain(&self, domain: &str) -> (r: Option<&[u8]>)
        ensures
            r is None,
    {
        None
    }
}

/// The message with which a contract-to-contract call under an
/// unverifiable doughnut is refused.
pub open spec fn unverifiable_call_message() -> Seq<char> {
    "Doughnut contract to contract call verification is not implemented for this domain"@
}

/// The verifier of calls dispatched under a doughnut.
pub struct MockDispatchVerifier;

impl MockDispatchVerifier {
    /// The domain of the doughnut's permissions that this verifier reads.
    pub const DOMAIN: &'static str = "";

    /// A runtime call under a doughnut: always accepted.
    pub fn verify_dispatch(doughnut: &MockDoughnut, module: &str, method: &str) -> (r: Result<(), &'static str>)
        ensures
            r is Ok,
    {
        Ok(())
    }

    /// A call from the runtime into a contract under a doughnut: always
    /// accepted.
    pub fn verify_runtime_to_contract_call(
        caller: &u64,
        doughnut: &MockDoughnut,
        contract_addr: &u64,
    ) -> (r: Result<(), &'static str>)
        ensures
            r is Ok,
    {
        Ok(())
    }

    /// A call from one contract into another under a doughnut: accepted
    /// iff the doughnut is verifiable, else refused with
    /// `unverifiable_call_message()`.
    pub fn verify_contract_to_contract_call(
        caller: &u64,
        doughnut: &MockDoughnut,
        contract_addr: &u64,
    ) -> (r: Result<(), &'static str>)
        ensures
            r is Ok <==> doughnut.verifiable,
            r matches Err(e) ==> e@ == unverifiable_call_message(),
    {
        if doughnut.verifiable {
            Ok(())
        } else {
            Err("Doughnut contract to contract call verification is not implemented for this domain")
        }
    }
}

} // verus!
