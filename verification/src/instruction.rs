use vstd::prelude::*;

use crate::registers::Register8;

verus! {

/// The operand of an 8-bit arithmetic instruction.
#[derive(PartialEq, Eq, Structural, Clone, Copy, Debug)]
pub enum A8Args {
    A,
    B,
    C,
    D,
    E,
    H,
    L,
    HL,
    U8,
}

/// The 8-bit arithmetic and logic instructions.
#[derive(PartialEq, Eq, Structural, Clone, Copy, Debug)]
pub enum A8Ops {
    Inc(A8Args),
    Dec(A8Args),
    Add(A8Args),
    AddCarry(A8Args),
    Sub(A8Args),
    SubCarry(A8Args),
    And(A8Args),
    Or(A8Args),
    Xor(A8Args),
    Cmp(A8Args),
}

/// The register pair of a 16-bit arithmetic instruction.
#[derive(PartialEq, Eq, Structural, Clone, Copy, Debug)]
pub enum A16Args {
    Bc,
    De,
    Hl,
    Sp,
}

/// The 16-bit arithmetic instructions.
#[derive(PartialEq, Eq, Structural, Clone, Copy, Debug)]
pub enum A16Ops {
    Inc(A16Args),
    Dec(A16Args),
    Add(A16Args),
    AddI8,
    LdI8,
}

/// The operand of a CB-prefixed instruction.
#[derive(PartialEq, Eq, Structural, Clone, Copy, Debug)]
pub enum BitArgs {
    HL,
    Register(Register8),
}

/// The rotate, shift and bit instructions.
#[derive(PartialEq, Eq, Structural, Clone, Copy, Debug)]
pub enum BitOps {
    Rlca,
    Rla,
    Rrca,
    Rra,
    Rlc(BitArgs),
    Rrc(BitArgs),
    Rl(BitArgs),
    Rr(BitArgs),
    Sla(BitArgs),
    Sra(BitArgs),
    Swap(BitArgs),
    Srl(BitArgs),
    Bit(u8, BitArgs),
    Reset(u8, BitArgs),
    SetBit(u8, BitArgs),
}

/// The control instructions.
#[derive(PartialEq, Eq, Structural, Clone, Copy, Debug)]
pub enum ControlOps {
    Nop,
    Stop,
    Halt,
    Di,
    Ei,
    Daa,
    Scf,
    Cpl,
    Ccf,
}

/// A place an 8-bit load reads from or writes to.
#[derive(PartialEq, Eq, Structural, Clone, Copy, Debug)]
pub enum Ld8 {
    A,
    B,
    C,
    D,
    E,
    H,
    L,
    Hl,
    HlPlus,
    HlMinus,
    Bc,
    De,
    U16,
    U8,
    Ff00AddU8,
    Ff00AddC,
}

/// The 16-bit loads.
#[derive(PartialEq, Eq, Structural, Clone, Copy, Debug)]
pub enum Ld16 {
    BcU16,
    DeU16,
    HlU16,
    SpU16,
    U16Sp,
    SpHl,
}

/// The register pair of PUSH and POP.
#[derive(PartialEq, Eq, Structural, Clone, Copy, Debug)]
pub enum PushPop {
    Bc,
    De,
    Hl,
    Af,
}

/// The relative jumps.
#[derive(PartialEq, Eq, Structural, Clone, Copy, Debug)]
pub enum JR {
    I8,
    Nz,
    Z,
    Nc,
    C,
}

/// The absolute jumps.
#[derive(PartialEq, Eq, Structural, Clone, Copy, Debug)]
pub enum JP {
    U16,
    HL,
    Nz,
    Nc,
    Z,
    C,
}

/// The returns.
#[derive(PartialEq, Eq, Structural, Clone, Copy, Debug)]
pub enum Ret {
    Unconditional,
    I,
    Nz,
    Z,
    Nc,
    C,
}

/// The calls.
#[derive(PartialEq, Eq, Structural, Clone, Copy, Debug)]
pub enum Calls {
    U16,
    Nz,
    Z,
    Nc,
    C,
}

/// A decoded instruction.
#[derive(PartialEq, Eq, Structural, Clone, Copy, Debug)]
pub enum Instruction {
    Cb,
    Control(ControlOps),
    Load16(Ld16),
    Push(PushPop),
    Pop(PushPop),
    Load8(Ld8, Ld8),
    Arithmetic16(A16Ops),
    Arithmetic8(A8Ops),
    JumpRelative(JR),
    Jump(JP),
    Restart(u8),
    Return(Ret),
    Call(Calls),
    BitOp(BitOps),
}

/// The place an operand code (0-7) names in an 8-bit load: B, C, D, E, H,
/// L, (HL), A.
pub open spec fn ld8_operand(code: u8) -> Ld8 {
    if code == 0 {
        Ld8::B
    } else if code == 1 {
        Ld8::C
    } else if code == 2 {
        Ld8::D
    } else if code == 3 {
        Ld8::E
    } else if code == 4 {
        Ld8::H
    } else if code == 5 {
        Ld8::L
    } else if code == 6 {
        Ld8::Hl
    } else {
        Ld8::A
    }
}

/// The operand an operand code (0-7) names in 8-bit arithmetic.
pub open spec fn a8_operand(code: u8) -> A8Args {
    if code == 0 {
        A8Args::B
    } else if code == 1 {
        A8Args::C
    } else if code == 2 {
        A8Args::D
    } else if code == 3 {
        A8Args::E
    } else if code == 4 {
        A8Args::H
    } else if code == 5 {
        A8Args::L
    } else if code == 6 {
        A8Args::HL
    } else {
        A8Args::A
    }
}

/// The operand an operand code (0-7) names in a CB instruction.
pub open spec fn bit_operand(code: u8) -> BitArgs {
    if code == 0 {
        BitArgs::Register(Register8::B)
    } else if code == 1 {
        BitArgs::Register(Register8::C)
    } else if code == 2 {
        BitArgs::Register(Register8::D)
    } else if code == 3 {
        BitArgs::Register(Register8::E)
    } else if code == 4 {
        BitArgs::Register(Register8::H)
    } else if code == 5 {
        BitArgs::Register(Register8::L)
    } else if code == 6 {
        BitArgs::HL
    } else {
        BitArgs::Register(Register8::A)
    }
}

/// The 16-bit register pair a pair code (0-3) names.
pub open spec fn a16_operand(code: u8) -> A16Args {
    if code == 0 {
        A16Args::Bc
    } else if code == 1 {
        A16Args::De
    } else if code == 2 {
        A16Args::Hl
    } else {
        A16Args::Sp
    }
}

/// The arithmetic operation a code (0-7) names in 0x80-0xBF and in the
/// immediate forms.
pub open spec fn a8_op(code: u8, arg: A8Args) -> A8Ops {
    if code == 0 {
        A8Ops::Add(arg)
    } else if code == 1 {
        A8Ops::AddCarry(arg)
    } else if code == 2 {
        A8Ops::Sub(arg)
    } else if code == 3 {
        A8Ops::SubCarry(arg)
    } else if code == 4 {
        A8Ops::And(arg)
    } else if code == 5 {
        A8Ops::Xor(arg)
    } else if code == 6 {
        A8Ops::Or(arg)
    } else {
        A8Ops::Cmp(arg)
    }
}

/// The instruction an opcode without prefix encodes, if any.
pub open spec fn decoded(opcode: u8) -> Option<Instruction> {
    let x = opcode / 64;
    let y = (opcode / 8) % 8;
    let z = opcode % 8;
    if opcode == 0x76 {
        Some(Instruction::Control(ControlOps::Halt))
    } else if x == 1 {
        Some(Instruction::Load8(ld8_operand(y), ld8_operand(z)))
    } else if x == 2 {
        Some(Instruction::Arithmetic8(a8_op(y, a8_operand(z))))
    } else if x == 0 && z == 4 {
        Some(Instruction::Arithmetic8(A8Ops::Inc(a8_operand(y))))
    } else if x == 0 && z == 5 {
        Some(Instruction::Arithmetic8(A8Ops::Dec(a8_operand(y))))
    } else if x == 0 && z == 6 {
        Some(Instruction::Load8(ld8_operand(y), Ld8::U8))
    } else if x == 3 && z == 6 {
        Some(Instruction::Arithmetic8(a8_op(y, A8Args::U8)))
    } else if x == 3 && z == 7 {
        Some(Instruction::Restart(opcode))
    } else if x == 0 && z == 3 && y % 2 == 0 {
        Some(Instruction::Arithmetic16(A16Ops::Inc(a16_operand(y / 2))))
    } else if x == 0 && z == 3 {
        Some(Instruction::Arithmetic16(A16Ops::Dec(a16_operand(y / 2))))
    } else if x == 0 && z == 1 && y % 2 == 1 {
        Some(Instruction::Arithmetic16(A16Ops::Add(a16_operand(y / 2))))
    } else {
        decoded_single(opcode)
    }
}

/// The instructions whose opcodes follow no column pattern.
pub open spec fn decoded_single(opcode: u8) -> Option<Instruction> {
    match opcode {
        0x00 => Some(Instruction::Control(ControlOps::Nop)),
        0x10 => Some(Instruction::Control(ControlOps::Stop)),
        0xF3 => Some(Instruction::Control(ControlOps::Di)),
        0xFB => Some(Instruction::Control(ControlOps::Ei)),
        0x27 => Some(Instruction::Control(ControlOps::Daa)),
        0x37 => Some(Instruction::Control(ControlOps::Scf)),
        0x2F => Some(Instruction::Control(ControlOps::Cpl)),
        0x3F => Some(Instruction::Control(ControlOps::Ccf)),
        0x01 => Some(Instruction::Load16(Ld16::BcU16)),
        0x11 => Some(Instruction::Load16(Ld16::DeU16)),
        0x21 => Some(Instruction::Load16(Ld16::HlU16)),
        0x31 => Some(Instruction::Load16(Ld16::SpU16)),
        0x08 => Some(Instruction::Load16(Ld16::U16Sp)),
        0xF9 => Some(Instruction::Load16(Ld16::SpHl)),
        0x02 => Some(Instruction::Load8(Ld8::Bc, Ld8::A)),
        0x12 => Some(Instruction::Load8(Ld8::De, Ld8::A)),
        0x22 => Some(Instruction::Load8(Ld8::HlPlus, Ld8::A)),
        0x32 => Some(Instruction::Load8(Ld8::HlMinus, Ld8::A)),
        0x0A => Some(Instruction::Load8(Ld8::A, Ld8::Bc)),
        0x1A => Some(Instruction::Load8(Ld8::A, Ld8::De)),
        0x2A => Some(Instruction::Load8(Ld8::A, Ld8::HlPlus)),
        0x3A => Some(Instruction::Load8(Ld8::A, Ld8::HlMinus)),
        0xE0 => Some(Instruction::Load8(Ld8::Ff00AddU8, Ld8::A)),
        0xF0 => Some(Instruction::Load8(Ld8::A, Ld8::Ff00AddU8)),
        0xE2 => Some(Instruction::Load8(Ld8::Ff00AddC, Ld8::A)),
        0xF2 => Some(Instruction::Load8(Ld8::A, Ld8::Ff00AddC)),
        0xEA => Some(Instruction::Load8(Ld8::U16, Ld8::A)),
        0xFA => Some(Instruction::Load8(Ld8::A, Ld8::U16)),
        0xC5 => Some(Instruction::Push(PushPop::Bc)),
        0xD5 => Some(Instruction::Push(PushPop::De)),
        0xE5 => Some(Instruction::Push(PushPop::Hl)),
        0xF5 => Some(Instruction::Push(PushPop::Af)),
        0xC1 => Some(Instruction::Pop(PushPop::Bc)),
        0xD1 => Some(Instruction::Pop(PushPop::De)),
        0xE1 => Some(Instruction::Pop(PushPop::Hl)),
        0xF1 => Some(Instruction::Pop(PushPop::Af)),
        0x18 => Some(Instruction::JumpRelative(JR::I8)),
        0x20 => Some(Instruction::JumpRelative(JR::Nz)),
        0x28 => Some(Instruction::JumpRelative(JR::Z)),
        0x30 => Some(Instruction::JumpRelative(JR::Nc)),
        0x38 => Some(Instruction::JumpRelative(JR::C)),
        0xC3 => Some(Instruction::Jump(JP::U16)),
        0xE9 => Some(Instruction::Jump(JP::HL)),
        0xC2 => Some(Instruction::Jump(JP::Nz)),
        0xD2 => Some(Instruction::Jump(JP::Nc)),
        0xCA => Some(Instruction::Jump(JP::Z)),
        0xDA => Some(Instruction::Jump(JP::C)),
        0xC9 => Some(Instruction::Return(Ret::Unconditional)),
        0xD9 => Some(Instruction::Return(Ret::I)),
        0xC0 => Some(Instruction::Return(Ret::Nz)),
        0xC8 => Some(Instruction::Return(Ret::Z)),
        0xD0 => Some(Instruction::Return(Ret::Nc)),
        0xD8 => Some(Instruction::Return(Ret::C)),
        0xCD => Some(Instruction::Call(Calls::U16)),
        0xC4 => Some(Instruction::Call(Calls::Nz)),
        0xCC => Some(Instruction::Call(Calls::Z)),
        0xD4 => Some(Instruction::Call(Calls::Nc)),
        0xDC => Some(Instruction::Call(Calls::C)),
        0xE8 => Some(Instruction::Arithmetic16(A16Ops::AddI8)),
        0xF8 => Some(Instruction::Arithmetic16(A16Ops::LdI8)),
        0x07 => Some(Instruction::BitOp(BitOps::Rlca)),
        0x17 => Some(Instruction::BitOp(BitOps::Rla)),
        0x0F => Some(Instruction::BitOp(BitOps::Rrca)),
        0x1F => Some(Instruction::BitOp(BitOps::Rra)),
        0xCB => Some(Instruction::Cb),
        _ => None,
    }
}

/// The instruction a CB-prefixed opcode encodes.
pub open spec fn decoded_cb(opcode: u8) -> Instruction {
    let x = opcode / 64;
    let y = (opcode / 8) % 8;
    let arg = bit_operand(opcode % 8);
    Instruction::BitOp(
        if x == 1 {
            BitOps::Bit(y, arg)
        } else if x == 2 {
            BitOps::Reset(y, arg)
        } else if x == 3 {
            BitOps::SetBit(y, arg)
        } else if y == 0 {
            BitOps::Rlc(arg)
        } else if y == 1 {
            BitOps::Rrc(arg)
        } else if y == 2 {
            BitOps::Rl(arg)
        } else if y == 3 {
            BitOps::Rr(arg)
        } else if y == 4 {
            BitOps::Sla(arg)
        } else if y == 5 {
            BitOps::Sra(arg)
        } else if y == 6 {
            BitOps::Swap(arg)
        } else {
            BitOps::Srl(arg)
        },
    )
}

fn load_operand(code: u8) -> (r: Ld8)
    ensures
        r == ld8_operand(code),
{
    match code {
        0 => Ld8::B,
        1 => Ld8::C,
        2 => Ld8::D,
        3 => Ld8::E,
        4 => Ld8::H,
        5 => Ld8::L,
        6 => Ld8::Hl,
        _ => Ld8::A,
    }
}

fn arithmetic_operand(code: u8) -> (r: A8Args)
    ensures
        r == a8_operand(code),
{
    match code {
        0 => A8Args::B,
        1 => A8Args::C,
        2 => A8Args::D,
        3 => A8Args::E,
        4 => A8Args::H,
        5 => A8Args::L,
        6 => A8Args::HL,
        _ => A8Args::A,
    }
}

fn cb_operand(code: u8) -> (r: BitArgs)
    ensures
        r == bit_operand(code),
{
    match code {
        0 => BitArgs::Register(Register8::B),
        1 => BitArgs::Register(Register8::C),
        2 => BitArgs::Register(Register8::D),
        3 => BitArgs::Register(Register8::E),
        4 => BitArgs::Register(Register8::H),
        5 => BitArgs::Register(Register8::L),
        6 => BitArgs::HL,
        _ => BitArgs::Register(Register8::A),
    }
}

fn pair_code(code: u8) -> (r: A16Args)
    ensures
        r == a16_operand(code),
{
    match code {
        0 => A16Args::Bc,
        1 => A16Args::De,
        2 => A16Args::Hl,
        _ => A16Args::Sp,
    }
}

fn arithmetic_op(code: u8, arg: A8Args) -> (r: A8Ops)
    ensures
        r == a8_op(code, arg),
{
    match code {
        0 => A8Ops::Add(arg),
        1 => A8Ops::AddCarry(arg),
        2 => A8Ops::Sub(arg),
        3 => A8Ops::SubCarry(arg),
        4 => A8Ops::And(arg),
        5 => A8Ops::Xor(arg),
        6 => A8Ops::Or(arg),
        _ => A8Ops::Cmp(arg),
    }
}

fn decode_single(opcode: u8) -> (r: Option<Instruction>)
    ensures
        r == decoded_single(opcode),
{
    match opcode {
        0x00 => Some(Instruction::Control(ControlOps::Nop)),
        0x10 => Some(Instruction::Control(ControlOps::Stop)),
        0xF3 => Some(Instruction::Control(ControlOps::Di)),
        0xFB => Some(Instruction::Control(ControlOps::Ei)),
        0x27 => Some(Instruction::Control(ControlOps::Daa)),
        0x37 => Some(Instruction::Control(ControlOps::Scf)),
        0x2F => Some(Instruction::Control(ControlOps::Cpl)),
        0x3F => Some(Instruction::Control(ControlOps::Ccf)),
        0x01 => Some(Instruction::Load16(Ld16::BcU16)),
        0x11 => Some(Instruction::Load16(Ld16::DeU16)),
        0x21 => Some(Instruction::Load16(Ld16::HlU16)),
        0x31 => Some(Instruction::Load16(Ld16::SpU16)),
        0x08 => Some(Instruction::Load16(Ld16::U16Sp)),
        0xF9 => Some(Instruction::Load16(Ld16::SpHl)),
        0x02 => Some(Instruction::Load8(Ld8::Bc, Ld8::A)),
        0x12 => Some(Instruction::Load8(Ld8::De, Ld8::A)),
        0x22 => Some(Instruction::Load8(Ld8::HlPlus, Ld8::A)),
        0x32 => Some(Instruction::Load8(Ld8::HlMinus, Ld8::A)),
        0x0A => Some(Instruction::Load8(Ld8::A, Ld8::Bc)),
        0x1A => Some(Instruction::Load8(Ld8::A, Ld8::De)),
        0x2A => Some(Instruction::Load8(Ld8::A, Ld8::HlPlus)),
        0x3A => Some(Instruction::Load8(Ld8::A, Ld8::HlMinus)),
        0xE0 => Some(Instruction::Load8(Ld8::Ff00AddU8, Ld8::A)),
        0xF0 => Some(Instruction::Load8(Ld8::A, Ld8::Ff00AddU8)),
        0xE2 => Some(Instruction::Load8(Ld8::Ff00AddC, Ld8::A)),
        0xF2 => Some(Instruction::Load8(Ld8::A, Ld8::Ff00AddC)),
        0xEA => Some(Instruction::Load8(Ld8::U16, Ld8::A)),
        0xFA => Some(Instruction::Load8(Ld8::A, Ld8::U16)),
        0xC5 => Some(Instruction::Push(PushPop::Bc)),
        0xD5 => Some(Instruction::Push(PushPop::De)),
        0xE5 => Some(Instruction::Push(PushPop::Hl)),
        0xF5 => Some(Instruction::Push(PushPop::Af)),
        0xC1 => Some(Instruction::Pop(PushPop::Bc)),
        0xD1 => Some(Instruction::Pop(PushPop::De)),
        0xE1 => Some(Instruction::Pop(PushPop::Hl)),
        0xF1 => Some(Instruction::Pop(PushPop::Af)),
        0x18 => Some(Instruction::JumpRelative(JR::I8)),
        0x20 => Some(Instruction::JumpRelative(JR::Nz)),
        0x28 => Some(Instruction::JumpRelative(JR::Z)),
        0x30 => Some(Instruction::JumpRelative(JR::Nc)),
        0x38 => Some(Instruction::JumpRelative(JR::C)),
        0xC3 => Some(Instruction::Jump(JP::U16)),
        0xE9 => Some(Instruction::Jump(JP::HL)),
        0xC2 => Some(Instruction::Jump(JP::Nz)),
        0xD2 => Some(Instruction::Jump(JP::Nc)),
        0xCA => Some(Instruction::Jump(JP::Z)),
        0xDA => Some(Instruction::Jump(JP::C)),
        0xC9 => Some(Instruction::Return(Ret::Unconditional)),
        0xD9 => Some(Instruction::Return(Ret::I)),
        0xC0 => Some(Instruction::Return(Ret::Nz)),
        0xC8 => Some(Instruction::Return(Ret::Z)),
        0xD0 => Some(Instruction::Return(Ret::Nc)),
        0xD8 => Some(Instruction::Return(Ret::C)),
        0xCD => Some(Instruction::Call(Calls::U16)),
        0xC4 => Some(Instruction::Call(Calls::Nz)),
        0xCC => Some(Instruction::Call(Calls::Z)),
        0xD4 => Some(Instruction::Call(Calls::Nc)),
        0xDC => Some(Instruction::Call(Calls::C)),
        0xE8 => Some(Instruction::Arithmetic16(A16Ops::AddI8)),
        0xF8 => Some(Instruction::Arithmetic16(A16Ops::LdI8)),
        0x07 => Some(Instruction::BitOp(BitOps::Rlca)),
        0x17 => Some(Instruction::BitOp(BitOps::Rla)),
        0x0F => Some(Instruction::BitOp(BitOps::Rrca)),
        0x1F => Some(Instruction::BitOp(BitOps::Rra)),
        0xCB => Some(Instruction::Cb),
        _ => None,
    }
}

/// Decode an opcode without prefix; `None` for the unused opcodes.
pub fn decode(opcode: u8) -> (r: Option<Instruction>)
    ensures
        r == decoded(opcode),
{
    let x = opcode / 64;
    let y = (opcode / 8) % 8;
    let z = opcode % 8;
    if opcode == 0x76 {
        Some(Instruction::Control(ControlOps::Halt))
    } else if x == 1 {
        Some(Instruction::Load8(load_operand(y), load_operand(z)))
    } else if x == 2 {
        Some(Instruction::Arithmetic8(arithmetic_op(y, arithmetic_operand(z))))
    } else if x == 0 && z == 4 {
        Some(Instruction::Arithmetic8(A8Ops::Inc(arithmetic_operand(y))))
    } else if x == 0 && z == 5 {
        Some(Instruction::Arithmetic8(A8Ops::Dec(arithmetic_operand(y))))
    } else if x == 0 && z == 6 {
        Some(Instruction::Load8(load_operand(y), Ld8::U8))
    } else if x == 3 && z == 6 {
        Some(Instruction::Arithmetic8(arithmetic_op(y, A8Args::U8)))
    } else if x == 3 && z == 7 {
        Some(Instruction::Restart(opcode))
    } else if x == 0 && z == 3 && y % 2 == 0 {
        Some(Instruction::Arithmetic16(A16Ops::Inc(pair_code(y / 2))))
    } else if x == 0 && z == 3 {
        Some(Instruction::Arithmetic16(A16Ops::Dec(pair_code(y / 2))))
    } else if x == 0 && z == 1 && y % 2 == 1 {
        Some(Instruction::Arithmetic16(A16Ops::Add(pair_code(y / 2))))
    } else {
        decode_single(opcode)
    }
}

/// Decode the opcode that follows the CB prefix.
pub fn decode_cb(opcode: u8) -> (r: Instruction)
    ensures
        r == decoded_cb(opcode),
{
    let x = opcode / 64;
    let y = (opcode / 8) % 8;
    let arg = cb_operand(opcode % 8);
    Instruction::BitOp(
        if x == 1 {
            BitOps::Bit(y, arg)
        } else if x == 2 {
            BitOps::Reset(y, arg)
        } else if x == 3 {
            BitOps::SetBit(y, arg)
        } else if y == 0 {
            BitOps::Rlc(arg)
        } else if y == 1 {
            BitOps::Rrc(arg)
        } else if y == 2 {
            BitOps::Rl(arg)
        } else if y == 3 {
            BitOps::Rr(arg)
        } else if y == 4 {
            BitOps::Sla(arg)
        } else if y == 5 {
            BitOps::Sra(arg)
        } else if y == 6 {
            BitOps::Swap(arg)
        } else {
            BitOps::Srl(arg)
        },
    )
}

} // verus!
