//! Trusted boundary around the cryptographic primitives of `ring`.
//!
//! Everything the library assumes of the outside crate is collected here:
//! the Ed25519 key-pair type, an uninterpreted name for the SHA-256 digest,
//! an uninterpreted predicate for Ed25519 signature acceptance, and one
//! `external_body` wrapper per use. The contracts state only what `ring`'s
//! source and documentation show.

use vstd::prelude::*;

use ring::signature::KeyPair;

verus! {

#[verifier::external_type_specification]
#[verifier::external_body]
pub struct ExEd25519KeyPair(ring::signature::Ed25519KeyPair);

/// The SHA-256 digest of a byte string: a function of the input bytes alone.
pub uninterp spec fn sha256_of(data: Seq<u8>) -> Seq<u8>;

/// Ed25519 signature acceptance: whether `signature` is a valid Ed25519
/// signature over `message` under `public_key`. A function of the three byte
/// strings alone.
pub uninterp spec fn ed25519_verifies(public_key: Seq<u8>, message: Seq<u8>, signature: Seq<u8>) -> bool;

/// The public-key bytes stored in an Ed25519 key pair: a function of the
/// pair value alone (`ring::signature::Ed25519KeyPair` holds its encoded
/// public point as a field, and `KeyPair::public_key` returns exactly that
/// field).
pub uninterp spec fn pub_key_of(key: ring::signature::Ed25519KeyPair) -> Seq<u8>;

/// Relies on `ring::digest::digest` with `ring::digest::SHA256`: the digest is
/// determined by the input bytes alone and is 32 bytes long
/// (`SHA256_OUTPUT_LEN`).
#[verifier::external_body]
pub(crate) fn sha256(data: &[u8]) -> (digest: Vec<u8>)
    ensures
        digest@ == sha256_of(data@),
        digest@.len() == 32,
{
    ring::digest::digest(&ring::digest::SHA256, data).as_ref().to_vec()
}

/// Relies on `ring::signature::Ed25519KeyPair::sign` and
/// `ring::signature::KeyPair::public_key`, read together: `sign` returns the
/// 64-byte Ed25519 signature of the message under the pair's private key, and
/// that signature is accepted by Ed25519 verification over the same message
/// under the pair's own 32-byte public key (signing correctness of the
/// scheme, RFC 8032). The two calls are one trusted item because the
/// guarantee is precisely the binding between their results.
#[verifier::external_body]
pub(crate) fn ed25519_sign_keyed(key: &ring::signature::Ed25519KeyPair, message: &Vec<u8>) -> (out: (Vec<u8>, Vec<u8>))
    ensures
        out.0@.len() == 64,
        out.1@.len() == 32,
        out.1@ == pub_key_of(*key),
        ed25519_verifies(out.1@, message@, out.0@),
{
    let signature = key.sign(message.as_slice()).as_ref().to_vec();
    let public_key = key.public_key().as_ref().to_vec();
    (signature, public_key)
}

/// Relies on `ring::signature::KeyPair::public_key` for
/// `ring::signature::Ed25519KeyPair`: the pair's own stored public key, 32
/// bytes.
#[verifier::external_body]
pub(crate) fn public_key_bytes(key: &ring::signature::Ed25519KeyPair) -> (pk: Vec<u8>)
    ensures
        pk@.len() == 32,
        pk@ == pub_key_of(*key),
{
    key.public_key().as_ref().to_vec()
}

/// Relies on `ring::signature::UnparsedPublicKey::verify` with
/// `ring::signature::ED25519`: acceptance is determined by the public-key,
/// message and signature bytes alone; a malformed key or signature makes it
/// return an error rather than panic; a public key of length other than 32 or
/// a signature of length other than 64 is always rejected.
#[verifier::external_body]
pub(crate) fn ed25519_verify_bytes(public_key: &[u8], message: &Vec<u8>, signature: &[u8]) -> (r: bool)
    ensures
        r == ed25519_verifies(public_key@, message@, signature@),
        public_key@.len() != 32 ==> !r,
        signature@.len() != 64 ==> !r,
{
    let key = ring::signature::UnparsedPublicKey::new(&ring::signature::ED25519, public_key);
    key.verify(message.as_slice(), signature).is_ok()
}

/// Relies on `rand::thread_rng` and `rand::Rng::gen`: draws a value from the
/// thread-local generator; nothing is assumed of which value comes back.
#[verifier::external_body]
pub(crate) fn random_i32() -> (v: i32)
{
    let mut rng = rand::thread_rng();
    rand::Rng::gen(&mut rng)
}

} // verus!
