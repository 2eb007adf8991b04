use vstd::prelude::*;

verus! {

/// Masks and shifts of a byte expressed as arithmetic.
pub proof fn lemma_byte_fields(v: u8)
    by (bit_vector)
    ensures
        v & 0x01 == v % 2,
        v & 0x03 == v % 4,
        v & 0x07 == v % 8,
        v & 0x0F == v % 16,
        v & 0x1F == v % 32,
        v & 0x3F == v % 64,
        v & 0x7F == v % 128,
        v >> 1u8 == v / 2,
        v >> 2u8 == v / 4,
        v >> 4u8 == v / 16,
        v >> 6u8 == v / 64,
        v >> 7u8 == v / 128,
        (v >> 4u8) & 0x0F == v / 16,
        (v >> 4u8) & 0x07 == (v / 16) % 8,
        (v >> 6u8) & 0x03 == v / 64,
        ((!v) & 1 != 0) == (v & 1 == 0),
        (v as u16) << 8 == (v as u16 * 256) as u16,
        v as usize & 0x03 == (v % 4) as usize,
        (v as usize & 0x03) << 5usize == ((v % 4) * 32) as usize,
        v as usize & 0x7F == (v % 128) as usize,
{
}

/// The two bytes of a 16-bit value expressed as arithmetic.
pub proof fn lemma_word_fields(v: u16)
    by (bit_vector)
    ensures
        (v >> 8) as u8 == (v / 256) as u8,
        v as u8 == (v % 256) as u8,
{
}

/// A 16-bit value assembled from a high and a low byte.
pub proof fn lemma_byte_pair(h: u8, l: u8)
    by (bit_vector)
    ensures
        ((h as u16) << 8) + (l as u16) == (h * 256 + l) as u16,
        ((h as u16) << 8) | (l as u16) == h as int * 256 + l as int,
        (l as u16) | ((h as u16) << 8) == (l as int + h as int * 256) as u16,
{
}

/// A 32-bit value split into and assembled from 16-bit halves.
pub proof fn lemma_dword_fields(v: u32, lo: u16, hi: u16)
    by (bit_vector)
    ensures
        v as u16 == (v % 0x10000) as u16,
        (v >> 16) as u16 == (v / 0x10000) as u16,
        (lo as u32) | ((hi as u32) << 16) == (lo as int + hi as int * 0x10000) as u32,
{
}

/// A 64-bit value split into and assembled from 32-bit halves.
pub proof fn lemma_qword_fields(v: u64, lo: u32, hi: u32)
    by (bit_vector)
    ensures
        v as u32 == (v % 0x1_0000_0000) as u32,
        (v >> 32) as u32 == (v / 0x1_0000_0000) as u32,
        (lo as u64) | ((hi as u64) << 32) == (lo as int + hi as int * 0x1_0000_0000) as u64,
{
}

} // verus!
