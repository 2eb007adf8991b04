use vstd::prelude::*;

use crate::bits::{lemma_byte_pair, lemma_dword_fields, lemma_qword_fields, lemma_word_fields};

verus! {

/// Why a saved state could not be read back.
#[derive(PartialEq, Eq, Structural, Clone, Copy, Debug)]
pub enum StateError {
    /// The input ended before the state did.
    UnexpectedEof,
    /// The input is not a saved state this emulator understands.
    InvalidData,
}

/// The two little-endian bytes of a 16-bit value.
pub open spec fn le16(v: u16) -> Seq<u8> {
    seq![(v % 256) as u8, (v / 256) as u8]
}

/// The 16-bit value stored little-endian at `pos`.
pub open spec fn read_le16(s: Seq<u8>, pos: int) -> u16 {
    (s[pos] as int + s[pos + 1] as int * 256) as u16
}

/// The four little-endian bytes of a 32-bit value.
pub open spec fn le32(v: u32) -> Seq<u8> {
    le16((v % 0x10000) as u16) + le16((v / 0x10000) as u16)
}

/// The 32-bit value stored little-endian at `pos`.
pub open spec fn read_le32(s: Seq<u8>, pos: int) -> u32 {
    (read_le16(s, pos) as int + read_le16(s, pos + 2) as int * 0x10000) as u32
}

/// The eight little-endian bytes of a 64-bit value.
pub open spec fn le64(v: u64) -> Seq<u8> {
    le32((v % 0x1_0000_0000) as u32) + le32((v / 0x1_0000_0000) as u32)
}

/// The 64-bit value stored little-endian at `pos`.
pub open spec fn read_le64(s: Seq<u8>, pos: int) -> u64 {
    (read_le32(s, pos) as int + read_le32(s, pos + 4) as int * 0x1_0000_0000) as u64
}

/// The byte that encodes a flag.
pub open spec fn bool_byte(b: bool) -> u8 {
    if b {
        1
    } else {
        0
    }
}

/// Whether at least `n` bytes of `input` remain from `pos` on.
pub open spec fn has_bytes(input: Seq<u8>, pos: int, n: int) -> bool {
    pos + n <= input.len()
}

/// Append the little-endian bytes of a 16-bit value.
pub fn push_u16(out: &mut Vec<u8>, v: u16)
    ensures
        final(out)@ == old(out)@ + le16(v),
{
    proof {
        lemma_word_fields(v);
    }
    out.push(v as u8);
    out.push((v >> 8) as u8);
    assert(out@ =~= old(out)@ + le16(v));
}

/// Append the little-endian bytes of a 32-bit value.
pub fn push_u32(out: &mut Vec<u8>, v: u32)
    ensures
        final(out)@ == old(out)@ + le32(v),
{
    proof {
        lemma_dword_fields(v, 0, 0);
    }
    push_u16(out, v as u16);
    push_u16(out, (v >> 16) as u16);
    assert(out@ =~= old(out)@ + le32(v));
}

/// Append the little-endian bytes of a 64-bit value.
pub fn push_u64(out: &mut Vec<u8>, v: u64)
    ensures
        final(out)@ == old(out)@ + le64(v),
{
    proof {
        lemma_qword_fields(v, 0, 0);
    }
    push_u32(out, v as u32);
    push_u32(out, (v >> 32) as u32);
    assert(out@ =~= old(out)@ + le64(v));
}

/// Append bytes.
pub fn push_bytes(out: &mut Vec<u8>, bytes: &[u8])
    ensures
        final(out)@ == old(out)@ + bytes@,
{
    let mut i: usize = 0;
    while i < bytes.len()
        invariant
            i <= bytes@.len(),
            out@ == old(out)@ + bytes@.subrange(0, i as int),
        decreases bytes@.len() - i,
    {
        out.push(bytes[i]);
        i = i + 1;
        assert(out@ =~= old(out)@ + bytes@.subrange(0, i as int));
    }
    assert(bytes@.subrange(0, bytes@.len() as int) =~= bytes@);
}

/// Whether `n` bytes are available at `pos`.
pub fn available(input: &[u8], pos: usize, n: usize) -> (r: bool)
    ensures
        r == has_bytes(input@, pos as int, n as int),
{
    pos <= input.len() && input.len() - pos >= n
}

/// The 16-bit little-endian value at `pos`.
pub fn get_u16(input: &[u8], pos: usize) -> (r: u16)
    requires
        has_bytes(input@, pos as int, 2),
    ensures
        r == read_le16(input@, pos as int),
{
    let b0 = input[pos];
    let b1 = input[pos + 1];
    proof {
        lemma_byte_pair(b1, b0);
    }
    (b0 as u16) | ((b1 as u16) << 8)
}

/// The 32-bit little-endian value at `pos`.
pub fn get_u32(input: &[u8], pos: usize) -> (r: u32)
    requires
        has_bytes(input@, pos as int, 4),
    ensures
        r == read_le32(input@, pos as int),
{
    let len = input.len();
    assert(pos + 2 <= len);
    let lo = get_u16(input, pos);
    let hi = get_u16(input, pos + 2);
    proof {
        lemma_dword_fields(0, lo, hi);
    }
    (lo as u32) | ((hi as u32) << 16)
}

/// The 64-bit little-endian value at `pos`.
pub fn get_u64(input: &[u8], pos: usize) -> (r: u64)
    requires
        has_bytes(input@, pos as int, 8),
    ensures
        r == read_le64(input@, pos as int),
{
    let len = input.len();
    assert(pos + 4 <= len);
    let lo = get_u32(input, pos);
    let hi = get_u32(input, pos + 4);
    proof {
        lemma_qword_fields(0, lo, hi);
    }
    (lo as u64) | ((hi as u64) << 32)
}

/// Reading back the bytes of a 16-bit value gives the value.
pub proof fn law_le16_roundtrip(prefix: Seq<u8>, v: u16, suffix: Seq<u8>)
    ensures
        read_le16(prefix + le16(v) + suffix, prefix.len() as int) == v,
{
    let s = prefix + le16(v) + suffix;
    assert(s[prefix.len() as int] == (v % 256) as u8);
    assert(s[prefix.len() as int + 1] == (v / 256) as u8);
}

/// Reading back the bytes of a 32-bit value gives the value.
pub proof fn law_le32_roundtrip(prefix: Seq<u8>, v: u32, suffix: Seq<u8>)
    ensures
        read_le32(prefix + le32(v) + suffix, prefix.len() as int) == v,
{
    let lo = (v % 0x10000) as u16;
    let hi = (v / 0x10000) as u16;
    let s = prefix + le32(v) + suffix;
    assert(s =~= prefix + le16(lo) + (le16(hi) + suffix));
    law_le16_roundtrip(prefix, lo, le16(hi) + suffix);
    assert(s =~= (prefix + le16(lo)) + le16(hi) + suffix);
    law_le16_roundtrip(prefix + le16(lo), hi, suffix);
}

/// Reading back the bytes of a 64-bit value gives the value.
pub proof fn law_le64_roundtrip(prefix: Seq<u8>, v: u64, suffix: Seq<u8>)
    ensures
        read_le64(prefix + le64(v) + suffix, prefix.len() as int) == v,
{
    let lo = (v % 0x1_0000_0000) as u32;
    let hi = (v / 0x1_0000_0000) as u32;
    let s = prefix + le64(v) + suffix;
    assert(s =~= prefix + le32(lo) + (le32(hi) + suffix));
    law_le32_roundtrip(prefix, lo, le32(hi) + suffix);
    assert(s =~= (prefix + le32(lo)) + le32(hi) + suffix);
    law_le32_roundtrip(prefix + le32(lo), hi, suffix);
}

} // verus!
