use vstd::prelude::*;

use crate::registers::{Register16, Register8};

verus! {

/// Where a micro-operation reads a byte from.
#[derive(PartialEq, Eq, Structural, Clone, Copy, Debug)]
pub enum Source {
    /// An 8-bit register.
    Register(Register8),
    /// The memory byte at the address a 16-bit register holds.
    RamFromRegister(Register16),
}

/// Where a micro-operation writes a byte to.
#[derive(PartialEq, Eq, Structural, Clone, Copy, Debug)]
pub enum Destination {
    /// An 8-bit register.
    Register(Register8),
    /// The memory byte at the address a 16-bit register holds.
    RamFromRegister(Register16),
}

/// The machine updates an instruction schedules for a later T-cycle.
#[derive(PartialEq, Eq, Structural, Clone, Copy, Debug)]
pub enum Step {
    /// Copy a 16-bit register into another (source, destination).
    Copy16(Register16, Register16),
    /// Set an 8-bit register to a constant.
    Load8(Register8, u8),
    /// Advance PC by one, wrapping.
    IncrementPc,
    /// Add one to a 16-bit register, wrapping.
    Increment16(Register16),
    /// Subtract one from a 16-bit register, wrapping.
    Decrement16(Register16),
    /// Add one to a 16-bit register that must not pass 0xFFFF.
    StepUp16(Register16),
    /// Subtract one from a 16-bit register that must not pass 0.
    StepDown16(Register16),
    /// XY takes the address of the opcode being executed (PC - 1).
    PreviousPcToXy,
    /// A -= Y (SUB), with flags.
    SubY,
    /// A -= the register the opcode names (SUB r), with flags.
    SubOperand,
    /// A ^= Y (XOR), with flags.
    XorY,
    /// A ^= the register the opcode names (XOR r), with flags.
    XorOperand,
    /// Y -= 1 (the first half of DEC (HL)).
    DecY,
    /// The flags of DEC for the result held in Y.
    DecFlags,
    /// The register the opcode names is decremented (DEC r), with flags.
    DecOperand,
    /// Y += 1 (the first half of INC (HL)).
    IncY,
    /// The flags of INC for the result held in Y.
    IncFlags,
    /// The register the opcode names is incremented (INC r), with flags.
    IncOperand,
    /// The low half of ADD HL,rr.
    Add16Low,
    /// The high half of ADD HL,rr; the half-carry flag keeps the low half's carry.
    Add16High,
    /// The low half of INC rr.
    Inc16Low,
    /// The high half of INC rr.
    Inc16High,
    /// The flags of ADD SP,i8.
    AddSpFlags,
    /// SP moved by the signed offset in Y.
    AddSpOffset,
    /// BIT b,(HL) with the CB opcode in Y.
    BitHl,
    /// BIT b,r with the CB opcode in Y.
    BitRegister,
    /// RES b,(HL) with the CB opcode in Y.
    ResetHl,
    /// RES b,r with the CB opcode in Y.
    ResetRegister,
    /// RLC (HL).
    RlcHl,
    /// RLC r with the CB opcode in Y.
    RlcRegister,
    /// RLA.
    Rla,
    /// CCF.
    Ccf,
    /// SCF.
    Scf,
    /// CPL.
    Cpl,
    /// DAA.
    Daa,
    /// Interrupts become enabled (IME set).
    EnableInterrupts,
    /// The CPU halts (HALT), noting the halt bug.
    Halt,
    /// The CPU stops (STOP).
    Stop,
    /// PC += X, X unsigned (JR i8).
    JumpRelative,
    /// PC += X, X signed (a taken JR cc).
    JumpRelativeSigned,
    /// The condition test of JR cc.
    BranchRelative,
    /// The condition test of JP NC.
    BranchNoCarry,
    /// The condition test of RET cc.
    BranchReturn,
    /// The condition test of CALL.
    BranchCall,
    /// PC low byte set to the target of the RST opcode at XY.
    RestartVector,
    /// Decode the CB opcode in Y and schedule it.
    DispatchCb,
    /// Fetch, decode and schedule the instruction at PC.
    FetchDecodeExecute,
}

/// A micro-operation queued for a T-cycle.
#[derive(PartialEq, Eq, Structural, Clone, Copy, Debug)]
pub enum Command {
    /// Copy a byte from a source to a destination.
    Read(Source, Destination),
    /// Apply a machine update.
    Update(Step),
}

/// A micro-operation together with the T-cycle offset it runs at, as a
/// table-driven instruction description would list it.
pub struct MicroOp {
    pub offset: u8,
    pub micro_op: Operations,
}

/// The micro-operations such a table can name.
#[derive(PartialEq, Eq, Structural, Clone, Copy, Debug)]
pub enum Operations {
    FetchOpcode,
    Read(Register8),
    Write(u16),
    Address(Register16),
    /// Destination, source.
    SetRegister(Register8, Register8),
    Increment8(Register8),
    Increment16(Register16),
}

} // verus!
