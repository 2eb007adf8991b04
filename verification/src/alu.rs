use vstd::prelude::*;

use crate::registers::{Register16, Register8};

verus! {

/// `a - y` on eight bits, whether bit 3 borrows (half carry) and whether
/// the whole subtraction borrows (carry).
pub open spec fn sub_result(a: u8, y: u8) -> (u8, bool, bool) {
    (((a - y + 256) % 256) as u8, a % 16 < y % 16, a < y)
}

/// The eight-bit subtraction of the SUB instruction.
pub fn subtract(a: u8, y: u8) -> (r: (u8, bool, bool))
    ensures
        r == sub_result(a, y),
{
    let result = a.wrapping_sub(y);
    let half_carry = (a % 16) < (y % 16);
    (result, half_carry, a < y)
}

/// `v - 1` on eight bits, and whether the low nibble of the result is 0xF
/// (the half-carry flag of DEC).
pub open spec fn dec_result(v: u8) -> (u8, bool) {
    let r = ((v + 255) % 256) as u8;
    (r, r % 16 == 15)
}

/// The eight-bit decrement of the DEC instruction.
pub fn decrement(v: u8) -> (r: (u8, bool))
    ensures
        r == dec_result(v),
{
    let result = v.wrapping_sub(1);
    (result, result % 16 == 15)
}

/// `a + b` on eight bits and whether it carries out of bit 7.
pub open spec fn add_result(a: u8, b: u8) -> (u8, bool) {
    (((a + b) % 256) as u8, a + b > 255)
}

/// An eight-bit addition with its carry.
pub fn add_bytes(a: u8, b: u8) -> (r: (u8, bool))
    ensures
        r == add_result(a, b),
{
    (a.wrapping_add(b), a as u16 + b as u16 > 255)
}

/// The high byte of a 16-bit addition: `h + v + carry_in` on eight bits
/// and whether the sum carries out.
pub open spec fn add_high_result(h: u8, v: u8, carry_in: bool) -> (u8, bool) {
    let c: int = if carry_in {
        1
    } else {
        0
    };
    (((h + v + c) % 256) as u8, h + v + c > 255)
}

/// The second half of ADD HL,rr: the high bytes and the carry of the low half.
pub fn add_high(h: u8, v: u8, carry_in: bool) -> (r: (u8, bool))
    ensures
        r == add_high_result(h, v, carry_in),
{
    let (result, carry1) = add_bytes(h, v);
    let (result, carry2) = add_bytes(result, carry_in as u8);
    (result, carry1 || carry2)
}

/// The flags of ADD SP,i8: half carry and carry of the unsigned addition of
/// the offset byte to the low byte of SP.
pub open spec fn sp_offset_flags(sp_low: u8, offset: u8) -> (bool, bool) {
    (sp_low % 16 + offset % 16 > 15, sp_low + offset > 255)
}

/// The flags of ADD SP,i8.
pub fn offset_flags(sp_low: u8, offset: u8) -> (r: (bool, bool))
    ensures
        r == sp_offset_flags(sp_low, offset),
{
    let (_, carry) = add_bytes(sp_low, offset);
    let half_carry = (sp_low % 16) + (offset % 16) > 15;
    (half_carry, carry)
}

/// The value of a byte read as a two's complement signed number.
pub open spec fn signed(b: u8) -> int {
    if b >= 128 {
        b - 256
    } else {
        b as int
    }
}

/// `v` moved by the signed offset `offset`, wrapping on sixteen bits.
pub open spec fn offset_result(v: u16, offset: u8) -> u16 {
    ((v + signed(offset) + 0x10000) % 0x10000) as u16
}

/// A 16-bit value plus a signed byte, wrapping (ADD SP,i8 and JR).
pub fn add_signed(v: u16, offset: u8) -> (r: u16)
    ensures
        r == offset_result(v, offset),
{
    if offset >= 128 {
        v.wrapping_sub(256 - offset as u16)
    } else {
        v.wrapping_add(offset as u16)
    }
}

/// `v` plus the unsigned byte `offset`, wrapping on sixteen bits.
pub open spec fn unsigned_offset_result(v: u16, offset: u8) -> u16 {
    ((v + offset) % 0x10000) as u16
}

/// A 16-bit value plus an unsigned byte, wrapping.
pub fn add_unsigned(v: u16, offset: u8) -> (r: u16)
    ensures
        r == unsigned_offset_result(v, offset),
{
    v.wrapping_add(offset as u16)
}

/// The rotation of `v` one bit left through a carry: bit 7 leaves as the
/// new carry and `carry_in` enters as bit 0.
pub open spec fn rotate_result(v: u8, carry_in: bool) -> (u8, bool) {
    let c: int = if carry_in {
        1
    } else {
        0
    };
    (((v % 128) * 2 + c) as u8, v >= 128)
}

/// Rotate a byte one bit left through a carry.
pub fn rotate_left(v: u8, carry_in: bool) -> (r: (u8, bool))
    ensures
        r == rotate_result(v, carry_in),
{
    ((v % 128) * 2 + carry_in as u8, v >= 128)
}

/// The decimal adjustment of DAA for accumulator `a` after an addition
/// (`n` clear) or subtraction (`n` set) with half carry `h` and carry `c`:
/// the adjusted value and the new carry.
pub open spec fn daa_result(a: u8, n: bool, h: bool, c: bool) -> (u8, bool) {
    let fix_low = (!n && a % 16 > 9) || h;
    let fix_high = (!n && a > 0x99) || c;
    let offset: int = (if fix_low {
        6int
    } else {
        0int
    }) + (if fix_high {
        0x60int
    } else {
        0int
    });
    let value = if n {
        (a - offset + 256) % 256
    } else {
        (a + offset) % 256
    };
    (value as u8, fix_high)
}

/// Decimal-adjust the accumulator.
pub fn decimal_adjust(a: u8, n: bool, h: bool, c: bool) -> (r: (u8, bool))
    ensures
        r == daa_result(a, n, h, c),
{
    let mut offset = 0u8;
    let mut should_carry = false;
    if (!n && a % 16 > 0x09) || h {
        offset += 0x06;
    }
    if (!n && a > 0x99) || c {
        offset += 0x60;
        should_carry = true;
    }
    let result = if n {
        a.wrapping_sub(offset)
    } else {
        a.wrapping_add(offset)
    };
    (result, should_carry)
}

/// The value of bit `bit` (0-7) of a byte, and 2 to the power `n` in general.
pub open spec fn weight(n: nat) -> nat
    decreases n,
{
    if n == 0 {
        1
    } else {
        2 * weight((n - 1) as nat)
    }
}

/// The byte with every bit set but bit `bit` (all bits when `bit` > 7).
pub open spec fn mask_of(bit: u8) -> u8 {
    if bit < 8 {
        (255 - weight(bit as nat)) as u8
    } else {
        255
    }
}

proof fn lemma_weight_small(n: nat)
    requires
        n <= 8,
    ensures
        1 <= weight(n) <= 256,
        n < 8 ==> weight(n) <= 128,
        n < 8 ==> weight(n + 1) == 2 * weight(n),
        weight(8) == 256,
{
    reveal_with_fuel(weight, 10);
    if n == 0 {
    } else if n == 1 {
    } else if n == 2 {
    } else if n == 3 {
    } else if n == 4 {
    } else if n == 5 {
    } else if n == 6 {
    } else if n == 7 {
    } else {
    }
}

/// The mask that clears bit `bit` of a byte (RES b).
pub fn mask(bit: u8) -> (r: u8)
    ensures
        r == mask_of(bit),
{
    let mut value: u8 = 0;
    let mut place: u16 = 1;
    let mut n: u8 = 0;
    while n < 8
        invariant
            n <= 8,
            place == weight(n as nat),
            value == weight(n as nat) - 1 - (if bit < n {
                weight(bit as nat)
            } else {
                0
            }),
        decreases 8 - n,
    {
        proof {
            lemma_weight_small(n as nat);
            lemma_weight_small((n + 1) as nat);
            if bit < n {
                lemma_weight_small(bit as nat);
            }
        }
        if n != bit {
            value += place as u8;
        }
        place = place * 2;
        n += 1;
    }
    proof {
        lemma_weight_small(8);
        if bit < 8 {
            lemma_weight_small(bit as nat);
        }
    }
    value
}

/// The register an operand code names in the low three bits of an opcode:
/// B, C, D, E, H, L, (HL) and A in that order; (HL) is no register.
pub open spec fn operand_of(code: u8) -> Option<Register8> {
    if code == 0 {
        Some(Register8::B)
    } else if code == 1 {
        Some(Register8::C)
    } else if code == 2 {
        Some(Register8::D)
    } else if code == 3 {
        Some(Register8::E)
    } else if code == 4 {
        Some(Register8::H)
    } else if code == 5 {
        Some(Register8::L)
    } else if code == 7 {
        Some(Register8::A)
    } else {
        None
    }
}

/// The register an operand code names.
pub fn register_operand(code: u8) -> (r: Option<Register8>)
    ensures
        r == operand_of(code),
{
    match code {
        0 => Some(Register8::B),
        1 => Some(Register8::C),
        2 => Some(Register8::D),
        3 => Some(Register8::E),
        4 => Some(Register8::H),
        5 => Some(Register8::L),
        7 => Some(Register8::A),
        _ => None,
    }
}

/// The register pair a pair code (0-3) names: BC, DE, HL, SP.
pub open spec fn pair_of(code: u8) -> Option<Register16> {
    if code == 0 {
        Some(Register16::Bc)
    } else if code == 1 {
        Some(Register16::De)
    } else if code == 2 {
        Some(Register16::Hl)
    } else if code == 3 {
        Some(Register16::Sp)
    } else {
        None
    }
}

/// The register pair a pair code names.
pub fn pair_operand(code: u8) -> (r: Option<Register16>)
    ensures
        r == pair_of(code),
{
    match code {
        0 => Some(Register16::Bc),
        1 => Some(Register16::De),
        2 => Some(Register16::Hl),
        3 => Some(Register16::Sp),
        _ => None,
    }
}

/// The address an RST opcode jumps to: 0x00, 0x08, ... 0x38 for 0xC7,
/// 0xCF, ... 0xFF.
pub open spec fn restart_target(opcode: u8) -> Option<u8> {
    if opcode >= 0xC7 && (opcode - 0xC7) % 8 == 0 {
        Some((opcode - 0xC7) as u8)
    } else {
        None
    }
}

/// The address an RST opcode jumps to.
pub fn lookup_restart(opcode: u8) -> (r: Option<u8>)
    ensures
        r == restart_target(opcode),
{
    match opcode {
        0xC7 => Some(0x00),
        0xCF => Some(0x08),
        0xD7 => Some(0x10),
        0xDF => Some(0x18),
        0xE7 => Some(0x20),
        0xEF => Some(0x28),
        0xF7 => Some(0x30),
        0xFF => Some(0x38),
        _ => None,
    }
}

} // verus!
