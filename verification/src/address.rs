//! Fixed-size account identifiers.
//!
//! An address is a 20-byte identifier derived from raw public-key bytes: the
//! last 20 bytes of the SHA-256 digest of the key. The rest of the library
//! treats addresses as opaque, equality-comparable byte strings.

use vstd::prelude::*;

use crate::crypto::{sha256, sha256_of};

verus! {

/// Width of an address in bytes; part of the wire contract.
pub const ADDRESS_BYTES: usize = 20;

/// A fixed-size account identifier.
#[derive(Debug)]
pub struct Address {
    pub bytes: Vec<u8>,
}

impl View for Address {
    type V = Seq<u8>;

    open spec fn view(&self) -> Seq<u8> {
        self.bytes@
    }
}

impl Address {
    /// A well-formed address holds exactly `ADDRESS_BYTES` bytes.
    pub open spec fn wf(&self) -> bool {
        self@.len() == ADDRESS_BYTES
    }

    /// Derive an address from raw public-key bytes: the last 20 bytes of the
    /// key's SHA-256 digest.
    pub fn from_public_key_bytes(bytes: &[u8]) -> (addr: Address)
        ensures
            addr@ == sha256_of(bytes@).subrange(12, 32),
            addr.wf(),
    {
        let digest = sha256(bytes);
        let mut out: Vec<u8> = Vec::new();
        let mut i: usize = 12;
        while i < 32
            invariant
                12 <= i <= 32,
                digest@.len() == 32,
                out@ == digest@.subrange(12, i as int),
            decreases 32 - i,
        {
            out.push(digest[i]);
            i = i + 1;
            proof {
                assert(out@ =~= digest@.subrange(12, i as int));
            }
        }
        Address { bytes: out }
    }
}

impl Clone for Address {
    /// A clone holds the same bytes as the original.
    fn clone(&self) -> (res: Self)
        ensures
            res@ == self@,
    {
        let mut bytes: Vec<u8> = Vec::new();
        let mut i: usize = 0;
        while i < self.bytes.len()
            invariant
                0 <= i <= self.bytes@.len(),
                bytes@ == self.bytes@.subrange(0, i as int),
            decreases self.bytes@.len() - i,
        {
            bytes.push(self.bytes[i]);
            i = i + 1;
            proof {
                assert(bytes@ =~= self.bytes@.subrange(0, i as int));
            }
        }
        proof {
            assert(bytes@ =~= self.bytes@);
        }
        Address { bytes }
    }
}

} // verus!
