use vstd::prelude::*;

use crate::bits::{lemma_byte_pair, lemma_word_fields};
use crate::registers::{Flags, Register16, Register8, Registers};
use crate::state::{
    StateError, available, bool_byte, get_u16, has_bytes, law_le16_roundtrip, le16, push_u16,
    read_le16,
};

verus! {

/// The position of a flag inside register F.
pub open spec fn flag_bit(flag: Flags) -> u8 {
    match flag {
        Flags::Z => 7,
        Flags::N => 6,
        Flags::H => 5,
        Flags::C => 4,
    }
}

/// `value` with bit `bit` set to `on` and every other bit unchanged.
pub open spec fn with_bit(value: u8, bit: u8, on: bool) -> u8 {
    if on {
        value | (1u8 << bit)
    } else {
        value & !(1u8 << bit)
    }
}

/// Whether bit `bit` of `value` is set.
pub open spec fn bit_set(value: u8, bit: u8) -> bool {
    (value >> bit) & 1 == 1
}

/// The high byte of a 16-bit value.
pub open spec fn hi(value: u16) -> u8 {
    (value / 256) as u8
}

/// The low byte of a 16-bit value.
pub open spec fn lo(value: u16) -> u8 {
    (value % 256) as u8
}

/// The 16-bit value made of a high and a low byte.
pub open spec fn word(high: u8, low: u8) -> u16 {
    (high as int * 256 + low as int) as u16
}

/// The abstract state of the CPU.
pub struct CpuState {
    pub registers: Registers,
    pub ime_pending: bool,
    pub ime: bool,
    pub is_stopped: bool,
    pub is_halted: bool,
    pub halt_bug: bool,
}

impl CpuState {
    /// The value of an 8-bit register (or of one half of SP, PC or the bus latch).
    pub open spec fn reg8(self, register: Register8) -> u8 {
        let r = self.registers;
        match register {
            Register8::A => r.a,
            Register8::B => r.b,
            Register8::C => r.c,
            Register8::D => r.d,
            Register8::E => r.e,
            Register8::F => r.f,
            Register8::H => r.h,
            Register8::L => r.l,
            Register8::SpLow => lo(r.sp),
            Register8::SpHigh => hi(r.sp),
            Register8::PcLow => lo(r.pc),
            Register8::PcHigh => hi(r.pc),
            Register8::X => r.x,
            Register8::Y => r.y,
            Register8::BusLow => lo(r.bus),
            Register8::BusHigh => hi(r.bus),
        }
    }

    /// The state with one 8-bit register replaced by `value`.
    pub open spec fn with_reg8(self, register: Register8, value: u8) -> CpuState {
        let r = self.registers;
        let r2 = match register {
            Register8::A => Registers { a: value, ..r },
            Register8::B => Registers { b: value, ..r },
            Register8::C => Registers { c: value, ..r },
            Register8::D => Registers { d: value, ..r },
            Register8::E => Registers { e: value, ..r },
            Register8::F => Registers { f: value, ..r },
            Register8::H => Registers { h: value, ..r },
            Register8::L => Registers { l: value, ..r },
            Register8::SpLow => Registers { sp: word(hi(r.sp), value), ..r },
            Register8::SpHigh => Registers { sp: word(value, lo(r.sp)), ..r },
            Register8::PcLow => Registers { pc: word(hi(r.pc), value), ..r },
            Register8::PcHigh => Registers { pc: word(value, lo(r.pc)), ..r },
            Register8::X => Registers { x: value, ..r },
            Register8::Y => Registers { y: value, ..r },
            Register8::BusLow => Registers { bus: word(hi(r.bus), value), ..r },
            Register8::BusHigh => Registers { bus: word(value, lo(r.bus)), ..r },
        };
        CpuState { registers: r2, ..self }
    }

    /// The value of a 16-bit register or register pair.
    pub open spec fn reg16(self, register: Register16) -> u16 {
        let r = self.registers;
        match register {
            Register16::Sp => r.sp,
            Register16::Pc => r.pc,
            Register16::Bus => r.bus,
            _ => word(self.reg8(register.halves().0), self.reg8(register.halves().1)),
        }
    }

    /// The state with a 16-bit register or register pair replaced by `value`.
    pub open spec fn with_reg16(self, register: Register16, value: u16) -> CpuState {
        let r = self.registers;
        match register {
            Register16::Sp => CpuState { registers: Registers { sp: value, ..r }, ..self },
            Register16::Pc => CpuState { registers: Registers { pc: value, ..r }, ..self },
            Register16::Bus => CpuState { registers: Registers { bus: value, ..r }, ..self },
            _ => self.with_reg8(register.halves().0, hi(value)).with_reg8(
                register.halves().1,
                lo(value),
            ),
        }
    }

    /// The value of a flag.
    pub open spec fn flag(self, flag: Flags) -> bool {
        bit_set(self.registers.f, flag_bit(flag))
    }

    /// The state with one flag set to `value` and the rest of F unchanged.
    pub open spec fn with_flag(self, flag: Flags, value: bool) -> CpuState {
        self.with_reg8(Register8::F, with_bit(self.registers.f, flag_bit(flag), value))
    }
}

/// The CPU: its registers and its interrupt, halt and stop state.
pub struct Cpu {
    registers: Registers,
    ime_pending: bool,
    ime: bool,
    is_stopped: bool,
    is_halted: bool,
    halt_bug: bool,
}

impl View for Cpu {
    type V = CpuState;

    closed spec fn view(&self) -> CpuState {
        CpuState {
            registers: self.registers,
            ime_pending: self.ime_pending,
            ime: self.ime,
            is_stopped: self.is_stopped,
            is_halted: self.is_halted,
            halt_bug: self.halt_bug,
        }
    }
}

proof fn lemma_bytes(v: u16)
    ensures
        (v >> 8) as u8 == hi(v),
        v as u8 == lo(v),
        word(hi(v), lo(v)) == v,
{
    lemma_word_fields(v);
}

proof fn lemma_word(v: u16, b: u8)
    by (bit_vector)
    ensures
        (v & 0xFF00) + (b as u16) == word(hi(v), b),
        (v & 0x00FF) + ((b as u16) << 8) == word(b, lo(v)),
        ((b as u16) << 8) + (v as u8 as u16) == word(b, lo(v)),
{
}


proof fn lemma_pair(h: u8, l: u8)
    ensures
        ((h as u16) << 8) + (l as u16) == word(h, l),
{
    lemma_byte_pair(h, l);
}

proof fn lemma_flag_update(f: u8, v: u8)
    by (bit_vector)
    requires
        v == 0 || v == 1,
    ensures
        (f & 0b01111111) + (v << 7) == with_bit(f, 7, v == 1),
        (f & 0b10111111) + (v << 6) == with_bit(f, 6, v == 1),
        (f & 0b11011111) + (v << 5) == with_bit(f, 5, v == 1),
        (f & 0b11101111) + (v << 4) == with_bit(f, 4, v == 1),
{
}

impl Cpu {
    /// The CPU as the boot ROM leaves it: post-boot registers, interrupts
    /// disabled, running.
    pub open spec fn initial() -> CpuState {
        CpuState {
            registers: Registers::post_boot(),
            ime_pending: false,
            ime: false,
            is_stopped: false,
            is_halted: false,
            halt_bug: false,
        }
    }

    /// Create a new cpu object.
    pub fn new() -> (c: Cpu)
        ensures
            c@ == Cpu::initial(),
    {
        Cpu {
            registers: Registers::new(),
            ime_pending: false,
            ime: false,
            is_stopped: false,
            is_halted: false,
            halt_bug: false,
        }
    }

    /// Get the value of a register.
    pub fn get_register(&self, register: &Register8) -> (r: u8)
        ensures
            r == self@.reg8(*register),
    {
        proof {
            lemma_bytes(self.registers.sp);
            lemma_bytes(self.registers.pc);
            lemma_bytes(self.registers.bus);
        }
        match register {
            Register8::A => self.registers.a,
            Register8::B => self.registers.b,
            Register8::C => self.registers.c,
            Register8::D => self.registers.d,
            Register8::E => self.registers.e,
            Register8::F => self.registers.f,
            Register8::H => self.registers.h,
            Register8::L => self.registers.l,
            Register8::SpLow => self.registers.sp as u8,
            Register8::SpHigh => (self.registers.sp >> 8) as u8,
            Register8::PcLow => self.registers.pc as u8,
            Register8::PcHigh => (self.registers.pc >> 8) as u8,
            Register8::X => self.registers.x,
            Register8::Y => self.registers.y,
            Register8::BusLow => self.registers.bus as u8,
            Register8::BusHigh => (self.registers.bus >> 8) as u8,
        }
    }

    /// Set the value of a register.
    pub fn set_register(&mut self, value: u8, register: &Register8)
        ensures
            final(self)@ == old(self)@.with_reg8(*register, value),
    {
        proof {
            lemma_word(self.registers.sp, value);
            lemma_word(self.registers.pc, value);
            lemma_word(self.registers.bus, value);
        }
        match register {
            Register8::A => self.registers.a = value,
            Register8::B => self.registers.b = value,
            Register8::C => self.registers.c = value,
            Register8::D => self.registers.d = value,
            Register8::E => self.registers.e = value,
            Register8::F => self.registers.f = value,
            Register8::H => self.registers.h = value,
            Register8::L => self.registers.l = value,
            Register8::SpLow => {
                self.registers.sp = (self.registers.sp & 0xFF00) + (value as u16);
            },
            Register8::SpHigh => {
                self.registers.sp = (self.registers.sp & 0x00FF) + ((value as u16) << 8);
            },
            Register8::PcLow => {
                self.registers.pc = (self.registers.pc & 0xFF00) + (value as u16);
            },
            Register8::PcHigh => {
                self.registers.pc = (self.registers.pc & 0x00FF) + ((value as u16) << 8);
            },
            Register8::X => self.registers.x = value,
            Register8::Y => self.registers.y = value,
            Register8::BusLow => {
                self.registers.bus = (self.registers.bus & 0xFF00) + (value as u16);
            },
            Register8::BusHigh => {
                self.registers.bus = (self.registers.bus & 0x00FF) + ((value as u16) << 8);
            },
        }
    }

    /// Get the value of a register pair.
    pub fn get_register_16(&self, register: &Register16) -> (r: u16)
        ensures
            r == self@.reg16(*register),
    {
        proof {
            lemma_pair(self.registers.a, self.registers.f);
            lemma_pair(self.registers.b, self.registers.c);
            lemma_pair(self.registers.d, self.registers.e);
            lemma_pair(self.registers.h, self.registers.l);
            lemma_pair(self.registers.x, self.registers.y);
        }
        match register {
            Register16::Af => ((self.registers.a as u16) << 8) + (self.registers.f as u16),
            Register16::Bc => ((self.registers.b as u16) << 8) + (self.registers.c as u16),
            Register16::De => ((self.registers.d as u16) << 8) + (self.registers.e as u16),
            Register16::Hl => ((self.registers.h as u16) << 8) + (self.registers.l as u16),
            Register16::Sp => self.registers.sp,
            Register16::Pc => self.registers.pc,
            Register16::Bus => self.registers.bus,
            Register16::Xy => ((self.registers.x as u16) << 8) + (self.registers.y as u16),
        }
    }

    /// Set value of a register pair.
    pub fn set_register_16(&mut self, value: u16, register: &Register16)
        ensures
            final(self)@ == old(self)@.with_reg16(*register, value),
    {
        proof {
            lemma_bytes(value);
        }
        match register {
            Register16::Af => {
                self.registers.a = (value >> 8) as u8;
                self.registers.f = value as u8;
            },
            Register16::Bc => {
                self.registers.b = (value >> 8) as u8;
                self.registers.c = value as u8;
            },
            Register16::De => {
                self.registers.d = (value >> 8) as u8;
                self.registers.e = value as u8;
            },
            Register16::Hl => {
                self.registers.h = (value >> 8) as u8;
                self.registers.l = value as u8;
            },
            Register16::Sp => {
                self.registers.sp = value;
            },
            Register16::Pc => {
                self.registers.pc = value;
            },
            Register16::Bus => {
                self.registers.bus = value;
            },
            Register16::Xy => {
                self.registers.x = (value >> 8) as u8;
                self.registers.y = value as u8;
            },
        }
    }

    /// Get the value of a flag.
    pub fn get_flag(&self, flag: &Flags) -> (r: bool)
        ensures
            r == self@.flag(*flag),
    {
        match flag {
            Flags::Z => ((self.registers.f >> 7) & 1) == 1,
            Flags::N => ((self.registers.f >> 6) & 1) == 1,
            Flags::H => ((self.registers.f >> 5) & 1) == 1,
            Flags::C => ((self.registers.f >> 4) & 1) == 1,
        }
    }

    /// Set the value of a flag.
    pub fn set_flag(&mut self, value: bool, flag: &Flags)
        ensures
            final(self)@ == old(self)@.with_flag(*flag, value),
    {
        let f = self.registers.f;
        let v: u8 = if value { 1 } else { 0 };
        proof {
            lemma_flag_update(f, v);
        }
        match flag {
            Flags::Z => {
                let z = v << 7;
                self.registers.f = (f & 0b01111111) + z;
            },
            Flags::N => {
                let n = v << 6;
                self.registers.f = (f & 0b10111111) + n;
            },
            Flags::H => {
                let h = v << 5;
                self.registers.f = (f & 0b11011111) + h;
            },
            Flags::C => {
                let c = v << 4;
                self.registers.f = (f & 0b11101111) + c;
            },
        }
    }

    pub fn get_ime(&self) -> (r: bool)
        ensures
            r == self@.ime,
    {
        self.ime
    }

    pub fn set_ime(&mut self, value: bool)
        ensures
            final(self)@ == (CpuState { ime: value, ..old(self)@ }),
    {
        self.ime = value;
    }

    pub fn get_is_stopped(&self) -> (r: bool)
        ensures
            r == self@.is_stopped,
    {
        self.is_stopped
    }

    pub fn set_is_stopped(&mut self, value: bool)
        ensures
            final(self)@ == (CpuState { is_stopped: value, ..old(self)@ }),
    {
        self.is_stopped = value;
    }

    pub fn get_halt(&self) -> (r: bool)
        ensures
            r == self@.is_halted,
    {
        self.is_halted
    }

    pub fn set_halt(&mut self, state: bool)
        ensures
            final(self)@ == (CpuState { is_halted: state, ..old(self)@ }),
    {
        self.is_halted = state;
    }

    pub fn get_ime_pending(&self) -> (r: bool)
        ensures
            r == self@.ime_pending,
    {
        self.ime_pending
    }

    pub fn set_ime_pending(&mut self, value: bool)
        ensures
            final(self)@ == (CpuState { ime_pending: value, ..old(self)@ }),
    {
        self.ime_pending = value;
    }

    pub fn get_halt_bug(&self) -> (r: bool)
        ensures
            r == self@.halt_bug,
    {
        self.halt_bug
    }

    pub fn set_halt_bug(&mut self, value: bool)
        ensures
            final(self)@ == (CpuState { halt_bug: value, ..old(self)@ }),
    {
        self.halt_bug = value;
    }
}


proof fn lemma_word_bytes(h: u8, l: u8)
    ensures
        hi(word(h, l)) == h,
        lo(word(h, l)) == l,
{
}

proof fn lemma_with_bit(x: u8, b: u8, c: u8, v: bool)
    by (bit_vector)
    requires
        4 <= b < 8,
        c < 8,
    ensures
        bit_set(with_bit(x, b, v), b) == v,
        b != c ==> bit_set(with_bit(x, b, v), c) == bit_set(x, c),
        with_bit(x, b, v) & 0x0F == x & 0x0F,
{
}

/// Writing an 8-bit register and reading it back gives the written value,
/// and every other 8-bit register keeps its value.
pub proof fn law_reg8_read_after_write(s: CpuState, r: Register8, other: Register8, v: u8)
    ensures
        s.with_reg8(r, v).reg8(r) == v,
        other != r ==> s.with_reg8(r, v).reg8(other) == s.reg8(other),
{
    lemma_word_bytes(hi(s.registers.sp), v);
    lemma_word_bytes(v, lo(s.registers.sp));
    lemma_word_bytes(hi(s.registers.pc), v);
    lemma_word_bytes(v, lo(s.registers.pc));
    lemma_word_bytes(hi(s.registers.bus), v);
    lemma_word_bytes(v, lo(s.registers.bus));
}

/// Writing a 16-bit register or pair and reading it back gives the written value.
pub proof fn law_reg16_read_after_write(s: CpuState, r: Register16, v: u16)
    ensures
        s.with_reg16(r, v).reg16(r) == v,
{
    lemma_bytes(v);
    let (h, l) = r.halves();
    law_reg8_read_after_write(s, h, l, hi(v));
    law_reg8_read_after_write(s.with_reg8(h, hi(v)), l, h, lo(v));
}

/// A register pair reads as its high half times 256 plus its low half, and
/// the halves of a written pair are the high and low bytes of the value.
pub proof fn law_reg16_halves(s: CpuState, r: Register16, v: u16)
    ensures
        s.reg16(r) == word(s.reg8(r.halves().0), s.reg8(r.halves().1)),
        s.with_reg16(r, v).reg8(r.halves().0) == hi(v),
        s.with_reg16(r, v).reg8(r.halves().1) == lo(v),
{
    lemma_bytes(s.registers.sp);
    lemma_bytes(s.registers.pc);
    lemma_bytes(s.registers.bus);
    lemma_bytes(v);
    law_reg16_read_after_write(s, r, v);
    let (h, l) = r.halves();
    law_reg8_read_after_write(s, h, l, hi(v));
    law_reg8_read_after_write(s.with_reg8(h, hi(v)), l, h, lo(v));
}

/// Setting a flag and reading it back gives the written value; the other
/// flags, the low nibble of F and every register but F keep their values.
pub proof fn law_flag_read_after_write(s: CpuState, f: Flags, other: Flags, v: bool, r: Register8)
    ensures
        s.with_flag(f, v).flag(f) == v,
        other != f ==> s.with_flag(f, v).flag(other) == s.flag(other),
        s.with_flag(f, v).registers.f & 0x0F == s.registers.f & 0x0F,
        r != Register8::F ==> s.with_flag(f, v).reg8(r) == s.reg8(r),
{
    let x = s.registers.f;
    lemma_with_bit(x, flag_bit(f), flag_bit(other), v);
    law_reg8_read_after_write(s, Register8::F, r, with_bit(x, flag_bit(f), v));
}

/// The number of bytes the CPU's saved state takes.
pub const CPU_STATE_LEN: usize = 21;

/// The bytes the CPU's state is saved as: A, B, C, D, E, F, H, L, then SP,
/// PC and the bus latch little-endian, X, Y, and the EI-pending, IME,
/// stopped, halted and halt-bug flags.
pub open spec fn cpu_state_bytes(c: CpuState) -> Seq<u8> {
    let r = c.registers;
    seq![r.a, r.b, r.c, r.d, r.e, r.f, r.h, r.l] + le16(r.sp) + le16(r.pc) + le16(r.bus) + seq![
        r.x,
        r.y,
        bool_byte(c.ime_pending),
        bool_byte(c.ime),
        bool_byte(c.is_stopped),
        bool_byte(c.is_halted),
        bool_byte(c.halt_bug),
    ]
}

/// The CPU state saved at `p` in `b`.
pub open spec fn cpu_state_read(b: Seq<u8>, p: int) -> CpuState {
    CpuState {
        registers: Registers {
            a: b[p],
            b: b[p + 1],
            c: b[p + 2],
            d: b[p + 3],
            e: b[p + 4],
            f: b[p + 5],
            h: b[p + 6],
            l: b[p + 7],
            sp: read_le16(b, p + 8),
            pc: read_le16(b, p + 10),
            bus: read_le16(b, p + 12),
            x: b[p + 14],
            y: b[p + 15],
        },
        ime_pending: b[p + 16] != 0,
        ime: b[p + 17] != 0,
        is_stopped: b[p + 18] != 0,
        is_halted: b[p + 19] != 0,
        halt_bug: b[p + 20] != 0,
    }
}

/// Reading back a saved CPU restores it exactly.
pub proof fn law_cpu_state_roundtrip(c: CpuState, prefix: Seq<u8>, suffix: Seq<u8>)
    ensures
        cpu_state_read(prefix + cpu_state_bytes(c) + suffix, prefix.len() as int) == c,
        (prefix + cpu_state_bytes(c) + suffix).len() == prefix.len() + CPU_STATE_LEN
            + suffix.len(),
{
    let r = c.registers;
    let head = seq![r.a, r.b, r.c, r.d, r.e, r.f, r.h, r.l];
    let tail = seq![
        r.x,
        r.y,
        bool_byte(c.ime_pending),
        bool_byte(c.ime),
        bool_byte(c.is_stopped),
        bool_byte(c.is_halted),
        bool_byte(c.halt_bug),
    ];
    let b = prefix + cpu_state_bytes(c) + suffix;
    let p = prefix.len() as int;
    assert(b =~= (prefix + head) + le16(r.sp) + (le16(r.pc) + le16(r.bus) + tail + suffix));
    law_le16_roundtrip(prefix + head, r.sp, le16(r.pc) + le16(r.bus) + tail + suffix);
    assert(b =~= (prefix + head + le16(r.sp)) + le16(r.pc) + (le16(r.bus) + tail + suffix));
    law_le16_roundtrip(prefix + head + le16(r.sp), r.pc, le16(r.bus) + tail + suffix);
    assert(b =~= (prefix + head + le16(r.sp) + le16(r.pc)) + le16(r.bus) + (tail + suffix));
    law_le16_roundtrip(prefix + head + le16(r.sp) + le16(r.pc), r.bus, tail + suffix);
    assert(b =~= prefix + head + (le16(r.sp) + le16(r.pc) + le16(r.bus)) + tail + suffix);
    assert(b[p] == r.a && b[p + 1] == r.b && b[p + 2] == r.c && b[p + 3] == r.d);
    assert(b[p + 4] == r.e && b[p + 5] == r.f && b[p + 6] == r.h && b[p + 7] == r.l);
    assert(b[p + 14] == r.x && b[p + 15] == r.y);
    assert(b[p + 16] == bool_byte(c.ime_pending) && b[p + 17] == bool_byte(c.ime));
    assert(b[p + 18] == bool_byte(c.is_stopped) && b[p + 19] == bool_byte(c.is_halted));
    assert(b[p + 20] == bool_byte(c.halt_bug));
}

impl Cpu {
    /// Append the CPU's saved state.
    pub fn save_state(&self, out: &mut Vec<u8>)
        ensures
            final(out)@ == old(out)@ + cpu_state_bytes(self@),
    {
        let r = &self.registers;
        out.push(r.a);
        out.push(r.b);
        out.push(r.c);
        out.push(r.d);
        out.push(r.e);
        out.push(r.f);
        out.push(r.h);
        out.push(r.l);
        push_u16(out, r.sp);
        push_u16(out, r.pc);
        push_u16(out, r.bus);
        out.push(r.x);
        out.push(r.y);
        out.push(self.ime_pending as u8);
        out.push(self.ime as u8);
        out.push(self.is_stopped as u8);
        out.push(self.is_halted as u8);
        out.push(self.halt_bug as u8);
        assert(out@ =~= old(out)@ + cpu_state_bytes(self@));
    }

    /// Read a saved CPU state from `input` at `pos`; nothing changes when
    /// the input does not hold all of it.
    pub fn load_state(&mut self, input: &[u8], pos: usize) -> (r: Result<usize, StateError>)
        ensures
            has_bytes(input@, pos as int, CPU_STATE_LEN as int) ==> r == Ok::<usize, StateError>(
                (pos + CPU_STATE_LEN) as usize,
            ) && final(self)@ == cpu_state_read(input@, pos as int),
            !has_bytes(input@, pos as int, CPU_STATE_LEN as int) ==> r == Err::<
                usize,
                StateError,
            >(StateError::UnexpectedEof) && final(self)@ == old(self)@,
    {
        if !available(input, pos, CPU_STATE_LEN) {
            return Err(StateError::UnexpectedEof);
        }
        self.registers = Registers {
            a: input[pos],
            b: input[pos + 1],
            c: input[pos + 2],
            d: input[pos + 3],
            e: input[pos + 4],
            f: input[pos + 5],
            h: input[pos + 6],
            l: input[pos + 7],
            sp: get_u16(input, pos + 8),
            pc: get_u16(input, pos + 10),
            bus: get_u16(input, pos + 12),
            x: input[pos + 14],
            y: input[pos + 15],
        };
        self.ime_pending = input[pos + 16] != 0;
        self.ime = input[pos + 17] != 0;
        self.is_stopped = input[pos + 18] != 0;
        self.is_halted = input[pos + 19] != 0;
        self.halt_bug = input[pos + 20] != 0;
        Ok(pos + CPU_STATE_LEN)
    }
}

} // verus!
