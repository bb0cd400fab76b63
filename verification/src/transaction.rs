//! The value-transfer record, its signed envelope, and the signing and
//! verification operations over the canonical encoding.

use vstd::prelude::*;

use crate::address::Address;
use crate::codec::{encode, spec_encode};
use crate::crypto::{
    ed25519_sign_keyed, ed25519_verifies, ed25519_verify_bytes, pub_key_of, public_key_bytes,
    random_i32, sha256_of,
};
use crate::key_pair;

verus! {

/// An immutable value-transfer record. Equality and the canonical byte
/// encoding are total functions of these three fields alone.
#[derive(Debug)]
pub struct Transaction {
    pub sender: Address,
    pub receiver: Address,
    pub value: i32,
}

impl View for Transaction {
    type V = (Seq<u8>, Seq<u8>, int);

    open spec fn view(&self) -> Self::V {
        (self.sender@, self.receiver@, self.value as int)
    }
}

impl Transaction {
    /// A well-formed transaction carries two well-formed addresses.
    pub open spec fn wf(&self) -> bool {
        self.sender.wf() && self.receiver.wf()
    }
}

impl Clone for Transaction {
    /// A clone agrees with the original on all three fields.
    fn clone(&self) -> (res: Self)
        ensures
            res@ == self@,
            res.wf() <==> self.wf(),
    {
        Transaction {
            sender: self.sender.clone(),
            receiver: self.receiver.clone(),
            value: self.value,
        }
    }
}

/// A self-contained transmissible unit: a record, a detached signature over
/// its canonical bytes, and the public key the signature is claimed under.
/// The claim is checkable, not enforced by construction: a verifier must
/// re-check it with [`verify_envelope`], never trust the bundling.
#[derive(Debug)]
pub struct SignedTransaction {
    pub transaction: Transaction,
    pub signature: Vec<u8>,
    pub public_key: Vec<u8>,
}

impl SignedTransaction {
    /// The envelope's claim: its signature is accepted over the canonical
    /// bytes of its transaction under its public key.
    pub open spec fn certifies(&self) -> bool {
        spec_verify(self.transaction, self.public_key@, self.signature@)
    }
}

impl Clone for SignedTransaction {
    /// A clone agrees with the original on record, signature and key.
    fn clone(&self) -> (res: Self)
        ensures
            res.transaction@ == self.transaction@,
            res.signature@ == self.signature@,
            res.public_key@ == self.public_key@,
    {
        SignedTransaction {
            transaction: self.transaction.clone(),
            signature: clone_bytes(&self.signature),
            public_key: clone_bytes(&self.public_key),
        }
    }
}

/// Copy a byte vector.
fn clone_bytes(src: &Vec<u8>) -> (res: Vec<u8>)
    ensures
        res@ == src@,
{
    let mut res: Vec<u8> = Vec::new();
    let mut i: usize = 0;
    while i < src.len()
        invariant
            0 <= i <= src@.len(),
            res@ == src@.subrange(0, i as int),
        decreases src@.len() - i,
    {
        res.push(src[i]);
        i = i + 1;
        proof {
            assert(res@ =~= src@.subrange(0, i as int));
        }
    }
    proof {
        assert(res@ =~= src@);
    }
    res
}

/// What `verify` decides: Ed25519 acceptance of `sig` over the canonical
/// encoding of `t` under `pk`.
pub open spec fn spec_verify(t: Transaction, pk: Seq<u8>, sig: Seq<u8>) -> bool {
    ed25519_verifies(pk, spec_encode(t), sig)
}

/// Create the detached digital signature of a transaction: the Ed25519
/// signature of the transaction's canonical bytes under the private half of
/// `key`. The result is accepted over those bytes under this pair's own
/// public key — the signature binds exactly this record to exactly this key.
pub fn sign(t: &Transaction, key: &ring::signature::Ed25519KeyPair) -> (sig: Vec<u8>)
    ensures
        sig@.len() == 64,
        pub_key_of(*key).len() == 32,
        spec_verify(*t, pub_key_of(*key), sig@),
{
    let message = encode(t);
    let (sig, _pk) = ed25519_sign_keyed(key, &message);
    sig
}

/// Sign a transaction and bundle record, signature and the signing pair's
/// own public key into a self-contained envelope whose claim holds by
/// construction.
pub fn sign_envelope(t: &Transaction, key: &ring::signature::Ed25519KeyPair) -> (st: SignedTransaction)
    ensures
        st.transaction@ == t@,
        st.signature@.len() == 64,
        st.public_key@.len() == 32,
        st.public_key@ == pub_key_of(*key),
        st.certifies(),
{
    let message = encode(t);
    let (sig, pk) = ed25519_sign_keyed(key, &message);
    SignedTransaction {
        transaction: t.clone(),
        signature: sig,
        public_key: pk,
    }
}

/// Verify the detached digital signature of a transaction against a public
/// key. Returns true iff `signature` is a valid Ed25519 signature over the
/// canonical encoding of `t` under `public_key`; a malformed key or
/// signature — empty, truncated, or of any length other than 32 and 64
/// bytes respectively — yields false, never a panic.
pub fn verify(t: &Transaction, public_key: &[u8], signature: &[u8]) -> (r: bool)
    ensures
        r == spec_verify(*t, public_key@, signature@),
        public_key@.len() != 32 ==> r == false,
        signature@.len() != 64 ==> r == false,
{
    let message = encode(t);
    ed25519_verify_bytes(public_key, &message, signature)
}

/// Re-check an envelope's claim: true iff its signature is accepted over the
/// canonical bytes of its transaction under its public key.
pub fn verify_envelope(st: &SignedTransaction) -> (r: bool)
    ensures
        r == st.certifies(),
{
    verify(&st.transaction, st.public_key.as_slice(), st.signature.as_slice())
}

/// Round-trip validity: signing certifies acceptance of the signature over
/// the signed record's canonical bytes, verification returns exactly that
/// acceptance, and a verifier holding an equal-valued copy of the record
/// re-encodes it to the same canonical bytes. Hence a signature produced by
/// [`sign`] over `t1` is accepted by [`verify`] for any equal-valued `t2`
/// under the signing pair's public key.
pub proof fn lemma_round_trip_validity(t1: Transaction, t2: Transaction, pk: Seq<u8>, sig: Seq<u8>)
    requires
        t1@ == t2@,
        spec_verify(t1, pk, sig),
    ensures
        spec_verify(t2, pk, sig),
{
    crate::codec::lemma_encode_deterministic(t1, t2);
}

/// Generate a transaction with freshly derived random sender and receiver
/// addresses and a random value. Whatever the random source yields, the
/// result is well-formed and each address is derived from some 32-byte
/// public key.
pub fn generate_random_transaction() -> (t: Transaction)
    ensures
        t.wf(),
        exists|pk: Seq<u8>| pk.len() == 32 && t.sender@ == (#[trigger] sha256_of(pk)).subrange(12, 32),
        exists|pk: Seq<u8>| pk.len() == 32 && t.receiver@ == (#[trigger] sha256_of(pk)).subrange(12, 32),
{
    let sender_key = key_pair::random();
    let sender_pk = public_key_bytes(&sender_key);
    let sender = Address::from_public_key_bytes(sender_pk.as_slice());

    let receiver_key = key_pair::random();
    let receiver_pk = public_key_bytes(&receiver_key);
    let receiver = Address::from_public_key_bytes(receiver_pk.as_slice());

    let value = random_i32();
    let t = Transaction { sender, receiver, value };
    proof {
        assert(sender_pk@.len() == 32 && t.sender@ == sha256_of(sender_pk@).subrange(12, 32));
        assert(receiver_pk@.len() == 32 && t.receiver@ == sha256_of(receiver_pk@).subrange(12, 32));
    }
    t
}

} // verus!
