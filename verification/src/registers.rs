use vstd::prelude::*;

verus! {

/// The register file of the CPU. `x`, `y` and `bus` are internal latches
/// used while an instruction is being executed.
pub struct Registers {
    pub a: u8,
    pub b: u8,
    pub c: u8,
    pub d: u8,
    pub e: u8,
    pub f: u8,
    pub h: u8,
    pub l: u8,
    pub sp: u16,
    pub pc: u16,
    pub bus: u16,
    pub x: u8,
    pub y: u8,
}

/// An 8-bit register, or one half of a 16-bit register.
#[derive(PartialEq, Eq, Structural, Clone, Copy, Debug)]
pub enum Register8 {
    A,
    B,
    C,
    D,
    E,
    F,
    H,
    L,
    SpLow,
    SpHigh,
    PcLow,
    PcHigh,
    X,
    Y,
    BusLow,
    BusHigh,
}

/// A 16-bit register or register pair.
#[derive(PartialEq, Eq, Structural, Clone, Copy, Debug)]
pub enum Register16 {
    Af,
    Bc,
    De,
    Hl,
    Sp,
    Pc,
    Bus,
    Xy,
}

/// The four flags kept in the upper nibble of register F.
#[derive(PartialEq, Eq, Structural, Clone, Copy, Debug)]
pub enum Flags {
    Z,
    N,
    H,
    C,
}

impl Registers {
    /// The register values right after the boot ROM has run.
    pub open spec fn post_boot() -> Registers {
        Registers {
            a: 0x01,
            b: 0x00,
            c: 0x13,
            d: 0x00,
            e: 0xD8,
            f: 0xB0,
            h: 0x01,
            l: 0x4D,
            sp: 0xFFFE,
            pc: 0x0100,
            x: 0x0,
            y: 0x0,
            bus: 0x0100,
        }
    }

    /// Registers as the boot ROM leaves them.
    pub fn new() -> (r: Registers)
        ensures
            r == Registers::post_boot(),
    {
        Registers {
            a: 0x01,
            b: 0x00,
            c: 0x13,
            d: 0x00,
            e: 0xD8,
            f: 0xB0,
            h: 0x01,
            l: 0x4D,
            sp: 0xFFFE,
            pc: 0x0100,
            x: 0x0,
            y: 0x0,
            bus: 0x0100,
        }
    }
}

impl Default for Registers {
    fn default() -> (r: Registers)
        ensures
            r == Registers::post_boot(),
    {
        Registers::new()
    }
}

impl Register16 {
    /// The (high, low) halves of a 16-bit register.
    pub open spec fn halves(self) -> (Register8, Register8) {
        match self {
            Register16::Af => (Register8::A, Register8::F),
            Register16::Bc => (Register8::B, Register8::C),
            Register16::De => (Register8::D, Register8::E),
            Register16::Hl => (Register8::H, Register8::L),
            Register16::Sp => (Register8::SpHigh, Register8::SpLow),
            Register16::Pc => (Register8::PcHigh, Register8::PcLow),
            Register16::Bus => (Register8::BusHigh, Register8::BusLow),
            Register16::Xy => (Register8::X, Register8::Y),
        }
    }

    /// Splits a register16 into the two register8 (High, Low)
    pub fn register16_to_register8(&self) -> (r: (Register8, Register8))
        ensures
            r == self.halves(),
    {
        match self {
            Register16::Af => (Register8::A, Register8::F),
            Register16::Bc => (Register8::B, Register8::C),
            Register16::De => (Register8::D, Register8::E),
            Register16::Hl => (Register8::H, Register8::L),
            Register16::Sp => (Register8::SpHigh, Register8::SpLow),
            Register16::Pc => (Register8::PcHigh, Register8::PcLow),
            Register16::Bus => (Register8::BusHigh, Register8::BusLow),
            Register16::Xy => (Register8::X, Register8::Y),
        }
    }
}

} // verus!
