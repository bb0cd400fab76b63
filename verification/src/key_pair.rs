//! Fresh Ed25519 key pairs, for exercising the signing and verification
//! paths. Key generation is a collaborator of the library, not part of its
//! verified logic: nothing is assumed of which pair comes back.

use vstd::prelude::*;

verus! {

/// Relies on `ring::signature::Ed25519KeyPair::generate_pkcs8` and
/// `ring::signature::Ed25519KeyPair::from_pkcs8`: generates a fresh key pair
/// from the system random source and parses the document it just produced.
/// Panics only if the system random source itself fails.
#[verifier::external_body]
pub fn random() -> (key: ring::signature::Ed25519KeyPair)
{
    let rng = ring::rand::SystemRandom::new();
    let pkcs8 = ring::signature::Ed25519KeyPair::generate_pkcs8(&rng)
        .expect("system random source failed");
    ring::signature::Ed25519KeyPair::from_pkcs8(pkcs8.as_ref())
        .expect("freshly generated key document must parse")
}

} // verus!
