//! Canonical byte encoding of a transaction.
//!
//! The layout is fixed and versioned: the sender's 20 address bytes, then the
//! receiver's 20 address bytes, then the value as 4 bytes, little-endian,
//! two's complement. Any change to field order, widths or endianness is a
//! breaking protocol change: signatures are issued over exactly these bytes.

use vstd::prelude::*;

use crate::transaction::Transaction;

verus! {

/// The two's-complement reading of a signed 32-bit value as an unsigned one.
pub open spec fn u32_of_i32(v: i32) -> u32 {
    if v < 0 {
        (v + 0x1_0000_0000) as u32
    } else {
        v as u32
    }
}

/// The four bytes of an unsigned 32-bit value, least significant first.
pub open spec fn le_bytes_of_u32(u: u32) -> Seq<u8> {
    seq![
        (u % 256) as u8,
        ((u / 256) % 256) as u8,
        ((u / 65536) % 256) as u8,
        ((u / 16777216) % 256) as u8,
    ]
}

/// The canonical encoding of the value field.
pub open spec fn value_bytes_of(v: i32) -> Seq<u8> {
    le_bytes_of_u32(u32_of_i32(v))
}

/// The canonical encoding of a transaction: sender bytes, receiver bytes,
/// then the value field.
pub open spec fn spec_encode(t: Transaction) -> Seq<u8> {
    t.sender@ + t.receiver@ + value_bytes_of(t.value)
}

/// Append the bytes of `src` to `out`.
fn append_bytes(out: &mut Vec<u8>, src: &Vec<u8>)
    ensures
        final(out)@ == old(out)@ + src@,
{
    let mut i: usize = 0;
    while i < src.len()
        invariant
            0 <= i <= src@.len(),
            out@ == old(out)@ + src@.subrange(0, i as int),
        decreases src@.len() - i,
    {
        out.push(src[i]);
        i = i + 1;
        proof {
            assert(out@ =~= old(out)@ + src@.subrange(0, i as int));
        }
    }
    proof {
        assert(out@ =~= old(out)@ + src@);
    }
}

/// Append the canonical four value bytes to `out`.
fn append_value_le(out: &mut Vec<u8>, v: i32)
    ensures
        final(out)@ == old(out)@ + value_bytes_of(v),
{
    let u: u32 = if v >= 0 {
        v as u32
    } else {
        ((v as i64) + 0x1_0000_0000) as u32
    };
    proof {
        assert(u == u32_of_i32(v));
    }
    out.push((u % 256) as u8);
    out.push(((u / 256) % 256) as u8);
    out.push(((u / 65536) % 256) as u8);
    out.push(((u / 16777216) % 256) as u8);
    proof {
        assert(out@ =~= old(out)@ + value_bytes_of(v));
    }
}

/// Encode a transaction into its canonical bytes. The result is a pure
/// function of the transaction's fields: encoding the same value twice
/// yields byte-identical output.
pub fn encode(t: &Transaction) -> (out: Vec<u8>)
    ensures
        out@ == spec_encode(*t),
{
    let mut out: Vec<u8> = Vec::new();
    append_bytes(&mut out, &t.sender.bytes);
    append_bytes(&mut out, &t.receiver.bytes);
    append_value_le(&mut out, t.value);
    out
}

/// Determinism of the canonical encoding: transactions that agree on all
/// three fields encode to the same bytes.
pub proof fn lemma_encode_deterministic(t1: Transaction, t2: Transaction)
    requires
        t1@ == t2@,
    ensures
        spec_encode(t1) == spec_encode(t2),
{
}

/// The little-endian bytes determine the unsigned value.
proof fn lemma_le_bytes_of_u32_injective(a: u32, b: u32)
    requires
        le_bytes_of_u32(a) == le_bytes_of_u32(b),
    ensures
        a == b,
{
    assert(le_bytes_of_u32(a)[0] == le_bytes_of_u32(b)[0]);
    assert(le_bytes_of_u32(a)[1] == le_bytes_of_u32(b)[1]);
    assert(le_bytes_of_u32(a)[2] == le_bytes_of_u32(b)[2]);
    assert(le_bytes_of_u32(a)[3] == le_bytes_of_u32(b)[3]);
    assert(a % 256 == b % 256);
    assert((a / 256) % 256 == (b / 256) % 256);
    assert((a / 65536) % 256 == (b / 65536) % 256);
    assert((a / 16777216) % 256 == (b / 16777216) % 256);
    assert(a == b) by (bit_vector)
        requires
            a % 256 == b % 256,
            (a / 256) % 256 == (b / 256) % 256,
            (a / 65536) % 256 == (b / 65536) % 256,
            (a / 16777216) % 256 == (b / 16777216) % 256;
}

/// The two's-complement reading is injective on 32-bit signed values.
proof fn lemma_u32_of_i32_injective(x: i32, y: i32)
    requires
        u32_of_i32(x) == u32_of_i32(y),
    ensures
        x == y,
{
    if x < 0 && y >= 0 {
        assert(u32_of_i32(x) >= 0x8000_0000);
        assert(u32_of_i32(y) <= 0x7fff_ffff);
    } else if x >= 0 && y < 0 {
        assert(u32_of_i32(x) <= 0x7fff_ffff);
        assert(u32_of_i32(y) >= 0x8000_0000);
    }
}

/// Tamper evidence of the canonical encoding: two well-formed transactions
/// with the same canonical bytes agree on sender, receiver and value, so
/// distinct records are never byte-equivalent after re-encoding.
pub proof fn lemma_encode_injective(t1: Transaction, t2: Transaction)
    requires
        t1.wf(),
        t2.wf(),
        spec_encode(t1) == spec_encode(t2),
    ensures
        t1@ == t2@,
{
    let e1 = spec_encode(t1);
    let e2 = spec_encode(t2);
    assert(t1.sender@ =~= t2.sender@) by {
        assert forall|i: int| 0 <= i < 20 implies t1.sender@[i] == t2.sender@[i] by {
            assert(e1[i] == t1.sender@[i]);
            assert(e2[i] == t2.sender@[i]);
        }
    }
    assert(t1.receiver@ =~= t2.receiver@) by {
        assert forall|i: int| 0 <= i < 20 implies t1.receiver@[i] == t2.receiver@[i] by {
            assert(e1[20 + i] == t1.receiver@[i]);
            assert(e2[20 + i] == t2.receiver@[i]);
        }
    }
    assert(value_bytes_of(t1.value) =~= value_bytes_of(t2.value)) by {
        assert forall|i: int| 0 <= i < 4 implies value_bytes_of(t1.value)[i] == value_bytes_of(t2.value)[i] by {
            assert(e1[40 + i] == value_bytes_of(t1.value)[i]);
            assert(e2[40 + i] == value_bytes_of(t2.value)[i]);
        }
    }
    lemma_le_bytes_of_u32_injective(u32_of_i32(t1.value), u32_of_i32(t2.value));
    lemma_u32_of_i32_injective(t1.value, t2.value);
}

} // verus!
