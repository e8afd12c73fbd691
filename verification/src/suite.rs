use vstd::prelude::*;

verus! {

/// `opaque_ke::Ristretto255`: the ristretto255 group with SHA-512, a marker
/// type without data.
#[verifier::external_type_specification]
#[verifier::external_body]
pub struct ExRistretto255(opaque_ke::Ristretto255);

/// `opaque_ke::key_exchange::tripledh::TripleDh`: the marker type of the
/// triple Diffie-Hellman key exchange.
#[verifier::external_type_specification]
#[verifier::external_body]
pub struct ExTripleDh(opaque_ke::key_exchange::tripledh::TripleDh);

/// `opaque_ke::ksf::Identity`: the marker type of the key stretching function
/// that returns its input.
#[verifier::external_type_specification]
#[verifier::external_body]
pub struct ExIdentity(opaque_ke::ksf::Identity);

/// The fixed parameter set: ristretto255 with SHA-512 for both the oblivious
/// function and the key exchange, triple Diffie-Hellman, no key stretching.
pub struct Suite;

impl opaque_ke::CipherSuite for Suite {
    type OprfCs = opaque_ke::Ristretto255;
    type KeGroup = opaque_ke::Ristretto255;
    type KeyExchange = opaque_ke::key_exchange::tripledh::TripleDh;
    type Ksf = opaque_ke::ksf::Identity;
}

} // verus!
