//! Big-endian fixed-width integer encoding and byte-buffer primitives.
//!
//! The header wire format is built from 2-byte and 4-byte big-endian
//! integers and raw byte runs; this module provides the primitives and
//! their byte-level specifications.

use vstd::prelude::*;

verus! {

/// The two big-endian bytes of a 16-bit value, most significant first.
pub open spec fn spec_u16_be(v: u16) -> Seq<u8> {
    seq![(v / 256) as u8, (v % 256) as u8]
}

/// The four big-endian bytes of a 32-bit value, most significant first.
pub open spec fn spec_u32_be(v: u32) -> Seq<u8> {
    seq![
        (v / 0x1000000) as u8,
        ((v / 0x10000) % 256) as u8,
        ((v / 0x100) % 256) as u8,
        (v % 256) as u8,
    ]
}

/// The 16-bit value read from two big-endian bytes.
pub open spec fn spec_u16_from_be(b0: u8, b1: u8) -> u16 {
    ((b0 as int) * 256 + (b1 as int)) as u16
}

/// The 32-bit value read from four big-endian bytes.
pub open spec fn spec_u32_from_be(b0: u8, b1: u8, b2: u8, b3: u8) -> u32 {
    ((b0 as int) * 0x1000000 + (b1 as int) * 0x10000 + (b2 as int) * 0x100 + (b3 as int)) as u32
}

/// Reading back the two bytes of a 16-bit value yields the value.
pub proof fn lemma_u16_be_round_trip(v: u16)
    ensures
        spec_u16_from_be(spec_u16_be(v)[0], spec_u16_be(v)[1]) == v,
{
}

/// Reading back the four bytes of a 32-bit value yields the value.
pub proof fn lemma_u32_be_round_trip(v: u32)
    ensures
        spec_u32_from_be(
            spec_u32_be(v)[0],
            spec_u32_be(v)[1],
            spec_u32_be(v)[2],
            spec_u32_be(v)[3],
        ) == v,
{
}

/// Append the two big-endian bytes of `v` to `out`.
pub fn push_u16_be(out: &mut Vec<u8>, v: u16)
    ensures
        final(out)@ == old(out)@ + spec_u16_be(v),
{
    out.push((v / 256) as u8);
    out.push((v % 256) as u8);
    proof {
        assert(out@ =~= old(out)@ + spec_u16_be(v));
    }
}

/// Append the four big-endian bytes of `v` to `out`.
pub fn push_u32_be(out: &mut Vec<u8>, v: u32)
    ensures
        final(out)@ == old(out)@ + spec_u32_be(v),
{
    out.push((v / 0x1000000) as u8);
    out.push(((v / 0x10000) % 256) as u8);
    out.push(((v / 0x100) % 256) as u8);
    out.push((v % 256) as u8);
    proof {
        assert(out@ =~= old(out)@ + spec_u32_be(v));
    }
}

/// Append every byte of `bytes` to `out`, in order.
pub fn push_bytes(out: &mut Vec<u8>, bytes: &[u8])
    ensures
        final(out)@ == old(out)@ + bytes@,
{
    let mut i: usize = 0;
    while i < bytes.len()
        invariant
            i <= bytes@.len(),
            out@ == old(out)@ + bytes@.subrange(0, i as int),
        decreases bytes@.len() - i,
    {
        out.push(bytes[i]);
        i = i + 1;
        proof {
            assert(out@ =~= old(out)@ + bytes@.subrange(0, i as int));
        }
    }
    proof {
        assert(bytes@.subrange(0, bytes@.len() as int) =~= bytes@);
    }
}

/// A fresh vector holding the same bytes as `bytes`.
pub fn copy_bytes(bytes: &[u8]) -> (r: Vec<u8>)
    ensures
        r@ == bytes@,
{
    let mut out: Vec<u8> = Vec::new();
    push_bytes(&mut out, bytes);
    out
}

/// Read a big-endian 16-bit value at offset `at`.
pub fn read_u16_be(bytes: &[u8], at: usize) -> (r: u16)
    requires
        at + 2 <= bytes@.len(),
    ensures
        r == spec_u16_from_be(bytes@[at as int], bytes@[at + 1]),
{
    let b0 = bytes[at];
    let b1 = bytes[at + 1];
    (b0 as u16) * 256 + (b1 as u16)
}

/// Read a big-endian 32-bit value at offset `at`.
pub fn read_u32_be(bytes: &[u8], at: usize) -> (r: u32)
    requires
        at + 4 <= bytes@.len(),
    ensures
        r == spec_u32_from_be(bytes@[at as int], bytes@[at + 1], bytes@[at + 2], bytes@[at + 3]),
{
    let b0 = bytes[at];
    let b1 = bytes[at + 1];
    let b2 = bytes[at + 2];
    let b3 = bytes[at + 3];
    (b0 as u32) * 0x1000000 + (b1 as u32) * 0x10000 + (b2 as u32) * 0x100 + (b3 as u32)
}

/// Copy `len` bytes of `bytes` starting at offset `at` into a fresh vector.
pub fn read_bytes(bytes: &[u8], at: usize, len: usize) -> (r: Vec<u8>)
    requires
        at + len <= bytes@.len(),
    ensures
        r@ == bytes@.subrange(at as int, at + len),
{
    let mut out: Vec<u8> = Vec::new();
    let n: usize = bytes.len();
    let mut i: usize = 0;
    while i < len
        invariant
            i <= len,
            at + len <= n,
            n == bytes@.len(),
            out@ == bytes@.subrange(at as int, at + i),
        decreases len - i,
    {
        out.push(bytes[at + i]);
        i = i + 1;
        proof {
            assert(out@ =~= bytes@.subrange(at as int, at + i));
        }
    }
    out
}

} // verus!
