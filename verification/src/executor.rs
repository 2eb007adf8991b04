use vstd::prelude::*;

use crate::alu::{
    add_bytes, add_high, add_high_result, add_result, add_signed, add_unsigned, daa_result,
    decimal_adjust, decrement, dec_result, lookup_restart, mask, mask_of, offset_flags,
    offset_result, operand_of, pair_of, pair_operand, register_operand, restart_target,
    rotate_left, rotate_result, sp_offset_flags, sub_result, subtract, unsigned_offset_result,
};
use crate::command::{Command, Destination, Source, Step};
use crate::console::{Console, ConsoleView, Fault};
use crate::cpu::CpuState;
use crate::execution_queue::queued;
use crate::instruction::{
    A16Ops, A8Args, A8Ops, BitArgs, BitOps, Calls, ControlOps, Instruction, JP, JR, Ld16, Ld8,
    PushPop, Ret, decode, decode_cb, decoded, decoded_cb,
};
use crate::registers::{Flags, Register16, Register8};

use std::collections::VecDeque;

verus! {

/// `cpu` with the four flags Z, N, H and C set as given.
pub open spec fn with_flags(cpu: CpuState, z: bool, n: bool, h: bool, c: bool) -> CpuState {
    cpu.with_flag(Flags::Z, z).with_flag(Flags::N, n).with_flag(Flags::H, h).with_flag(Flags::C, c)
}

/// The register the low three bits of an opcode in the eight-opcode block
/// starting at `base` name (as in SUB r and XOR r).
pub open spec fn block_operand(opcode: u8, base: u8) -> Option<Register8> {
    if base <= opcode && opcode < base + 8 {
        operand_of((opcode - base) as u8)
    } else {
        None
    }
}

/// The register the row of an opcode in column `column` of the first
/// quarter of the opcode table names (as in INC r and DEC r).
pub open spec fn row_operand(opcode: u8, column: u8) -> Option<Register8> {
    if opcode < 0x40 && opcode % 8 == column {
        operand_of(opcode / 8)
    } else {
        None
    }
}

/// The register pair the row of an opcode in column `column` (of sixteen)
/// names (as in INC rr and ADD HL,rr).
pub open spec fn pair_row(opcode: u8, column: u8) -> Option<Register16> {
    if opcode < 0x40 && opcode % 16 == column {
        pair_of(opcode / 16)
    } else {
        None
    }
}

/// The outcome of the condition of RET cc for its opcode, if it is one.
pub open spec fn return_condition(cpu: CpuState, opcode: u8) -> Option<bool> {
    if opcode == 0xC0 {
        Some(!cpu.flag(Flags::Z))
    } else if opcode == 0xC8 {
        Some(cpu.flag(Flags::Z))
    } else if opcode == 0xD0 {
        Some(!cpu.flag(Flags::C))
    } else if opcode == 0xD8 {
        Some(cpu.flag(Flags::C))
    } else {
        None
    }
}

/// The outcome of the condition of JR cc for its opcode, if it is one.
pub open spec fn relative_condition(cpu: CpuState, opcode: u8) -> Option<bool> {
    if opcode == 0x20 {
        Some(!cpu.flag(Flags::Z))
    } else if opcode == 0x28 {
        Some(cpu.flag(Flags::Z))
    } else if opcode == 0x30 {
        Some(!cpu.flag(Flags::C))
    } else if opcode == 0x38 {
        Some(cpu.flag(Flags::C))
    } else {
        None
    }
}

/// The outcome of the condition of CALL for its opcode, if it is one
/// (CALL u16 always calls).
pub open spec fn call_condition(cpu: CpuState, opcode: u8) -> Option<bool> {
    if opcode == 0xC4 {
        Some(!cpu.flag(Flags::Z))
    } else if opcode == 0xCC {
        Some(cpu.flag(Flags::Z))
    } else if opcode == 0xD4 {
        Some(!cpu.flag(Flags::C))
    } else if opcode == 0xDC {
        Some(cpu.flag(Flags::C))
    } else if opcode == 0xCD {
        Some(true)
    } else {
        None
    }
}

/// The two registers of a PUSH/POP operand, high first.
pub open spec fn stack_pair(arg: PushPop) -> (Register8, Register8) {
    match arg {
        PushPop::Bc => (Register8::B, Register8::C),
        PushPop::De => (Register8::D, Register8::E),
        PushPop::Hl => (Register8::H, Register8::L),
        PushPop::Af => (Register8::A, Register8::F),
    }
}

/// The byte a read from `source` gives.
pub open spec fn read_from(s: ConsoleView, source: Source) -> u8 {
    match source {
        Source::Register(r) => s.cpu.reg8(r),
        Source::RamFromRegister(r) => s.ram.fetch(s.cpu.reg16(r)),
    }
}

/// Shorthands for the micro-operations the instructions schedule.
pub open spec fn bus_from(r: Register16) -> Command {
    Command::Update(Step::Copy16(r, Register16::Bus))
}

pub open spec fn read_bus_into(r: Register8) -> Command {
    Command::Read(Source::RamFromRegister(Register16::Bus), Destination::Register(r))
}

pub open spec fn write_bus_from(r: Register8) -> Command {
    Command::Read(Source::Register(r), Destination::RamFromRegister(Register16::Bus))
}

pub open spec fn copy8(from: Register8, to: Register8) -> Command {
    Command::Read(Source::Register(from), Destination::Register(to))
}

pub open spec fn update(step: Step) -> Command {
    Command::Update(step)
}

impl ConsoleView {
    /// The CPU's work left the tick counter, the picture and audio units and
    /// the timer state of `s` as they were.
    pub open spec fn keeps_units_of(self, s: ConsoleView) -> bool {
        &&& self.tick_counter == s.tick_counter
        &&& self.ppu == s.ppu
        &&& self.apu == s.apu
        &&& self.previous_div_result == s.previous_div_result
        &&& self.tima_overflow_counter == s.tima_overflow_counter
    }

    /// The tick counter is far enough from its limit for an instruction to
    /// schedule its micro-operations.
    pub open spec fn has_headroom(self) -> bool {
        self.tick_counter <= 0xFFFF_FFFF_FFFF_F000
    }

    /// The machine with `command` queued `offset` T-cycles from now.
    pub open spec fn pushed(self, offset: u64, command: Command) -> ConsoleView {
        ConsoleView {
            queue: queued(self.queue, (self.tick_counter + offset) as u64, command),
            ..self
        }
    }

    /// The machine with the next instruction fetch queued `offset` T-cycles from now.
    pub open spec fn next_queued(self, offset: u64) -> ConsoleView {
        self.pushed(offset, update(Step::FetchDecodeExecute))
    }

    /// The machine with its CPU replaced.
    pub open spec fn with_cpu(self, cpu: CpuState) -> ConsoleView {
        ConsoleView { cpu, ..self }
    }

    /// The opcode at the address on the bus.
    pub open spec fn opcode_at_bus(self) -> u8 {
        self.ram.fetch(self.cpu.reg16(Register16::Bus))
    }

    /// The machine after a byte is copied from `source` to `destination`.
    pub open spec fn read_done(self, source: Source, destination: Destination) -> ConsoleView {
        let v = read_from(self, source);
        match destination {
            Destination::Register(r) => self.with_cpu(self.cpu.with_reg8(r, v)),
            Destination::RamFromRegister(r) => self.with_ram(self.ram.set(v, self.cpu.reg16(r))),
        }
    }

    /// A -= `value` with the flags of SUB.
    pub open spec fn sub_done(self, value: u8) -> ConsoleView {
        let (r, h, c) = sub_result(self.cpu.reg8(Register8::A), value);
        self.with_cpu(with_flags(self.cpu.with_reg8(Register8::A, r), r == 0, true, h, c))
    }

    /// A ^= `value` with the flags of XOR.
    pub open spec fn xor_done(self, value: u8) -> ConsoleView {
        let r = self.cpu.reg8(Register8::A) ^ value;
        self.with_cpu(with_flags(self.cpu.with_reg8(Register8::A, r), r == 0, false, false, false))
    }

    /// The flags of DEC for a result `r` (C unchanged).
    pub open spec fn dec_flags(cpu: CpuState, r: u8) -> CpuState {
        cpu.with_flag(Flags::Z, r == 0).with_flag(Flags::N, true).with_flag(Flags::H, r % 16 == 15)
    }

    /// The flags of INC for a result `r` (C unchanged).
    pub open spec fn inc_flags(cpu: CpuState, r: u8) -> CpuState {
        cpu.with_flag(Flags::Z, r == 0).with_flag(Flags::N, false).with_flag(Flags::H, r % 16 == 0)
    }

    /// The flags of BIT for bit `(y - 0x40) / 8` of `value`, `y` the CB opcode.
    pub open spec fn bit_tested(self, value: u8) -> Result<ConsoleView, Fault> {
        let y = self.cpu.reg8(Register8::Y);
        if y < 0x40 || y >= 0x80 {
            Err(Fault::InvalidOperand)
        } else {
            let shift = ((y - 0x40) / 8) as u8;
            Ok(
                self.with_cpu(
                    self.cpu.with_flag(Flags::Z, (value >> shift) & 1 == 0).with_flag(
                        Flags::N,
                        false,
                    ).with_flag(Flags::H, true),
                ),
            )
        }
    }

    /// The machine after one scheduled update.
    #[verifier::opaque]
    pub open spec fn step_done(self, step: Step) -> Result<ConsoleView, Fault> {
        match step {
            Step::Copy16(..) | Step::Load8(..) | Step::IncrementPc | Step::Increment16(..) | Step::Decrement16(..) | Step::StepUp16(..) | Step::StepDown16(..) | Step::PreviousPcToXy | Step::AddSpOffset | Step::JumpRelative | Step::JumpRelativeSigned | Step::RestartVector => self.move_step_done(step),
            Step::SubY | Step::SubOperand | Step::XorY | Step::XorOperand | Step::DecY | Step::DecFlags | Step::DecOperand | Step::IncY | Step::IncFlags | Step::IncOperand | Step::Add16Low | Step::Add16High | Step::Inc16Low | Step::Inc16High | Step::AddSpFlags => self.alu_step_done(step),
            Step::Rla | Step::Ccf | Step::Scf | Step::Cpl | Step::Daa | Step::BitHl | Step::BitRegister | Step::ResetHl | Step::ResetRegister | Step::RlcHl | Step::RlcRegister => self.flag_step_done(step),
            Step::EnableInterrupts | Step::Halt | Step::Stop | Step::BranchRelative | Step::BranchNoCarry | Step::BranchReturn | Step::BranchCall | Step::DispatchCb | Step::FetchDecodeExecute => self.control_step_done(step),
        }
    }

    /// An update that moves values between registers.
    pub open spec fn move_step_done(self, step: Step) -> Result<ConsoleView, Fault> {
        let cpu = self.cpu;
        let y = cpu.reg8(Register8::Y);
        match step {
            Step::Copy16(from, to) => Ok(self.with_cpu(cpu.with_reg16(to, cpu.reg16(from)))),
            Step::Load8(r, v) => Ok(self.with_cpu(cpu.with_reg8(r, v))),
            Step::IncrementPc => {
                let pc = cpu.registers.pc;
                Ok(
                    self.with_cpu(
                        cpu.with_reg16(
                            Register16::Pc,
                            if pc == 0xFFFF {
                                0
                            } else {
                                (pc + 1) as u16
                            },
                        ),
                    ),
                )
            },
            Step::Increment16(r) => {
                let v = cpu.reg16(r);
                Ok(
                    self.with_cpu(
                        cpu.with_reg16(
                            r,
                            if v == 0xFFFF {
                                0
                            } else {
                                (v + 1) as u16
                            },
                        ),
                    ),
                )
            },
            Step::Decrement16(r) => {
                let v = cpu.reg16(r);
                Ok(
                    self.with_cpu(
                        cpu.with_reg16(
                            r,
                            if v == 0 {
                                0xFFFF
                            } else {
                                (v - 1) as u16
                            },
                        ),
                    ),
                )
            },
            Step::StepUp16(r) => if cpu.reg16(r) == 0xFFFF {
                Err(Fault::RegisterOverflow)
            } else {
                Ok(self.with_cpu(cpu.with_reg16(r, (cpu.reg16(r) + 1) as u16)))
            },
            Step::StepDown16(r) => if cpu.reg16(r) == 0 {
                Err(Fault::RegisterOverflow)
            } else {
                Ok(self.with_cpu(cpu.with_reg16(r, (cpu.reg16(r) - 1) as u16)))
            },
            Step::PreviousPcToXy => if cpu.reg16(Register16::Pc) == 0 {
                Err(Fault::RegisterOverflow)
            } else {
                Ok(
                    self.with_cpu(
                        cpu.with_reg16(Register16::Xy, (cpu.reg16(Register16::Pc) - 1) as u16),
                    ),
                )
            },
            Step::AddSpOffset => Ok(
                self.with_cpu(
                    cpu.with_reg16(Register16::Sp, offset_result(cpu.reg16(Register16::Sp), y)),
                ),
            ),
            Step::JumpRelative => Ok(
                self.with_cpu(
                    cpu.with_reg16(
                        Register16::Pc,
                        unsigned_offset_result(cpu.reg16(Register16::Pc), cpu.reg8(Register8::X)),
                    ),
                ),
            ),
            Step::JumpRelativeSigned => Ok(
                self.with_cpu(
                    cpu.with_reg16(
                        Register16::Pc,
                        offset_result(cpu.reg16(Register16::Pc), cpu.reg8(Register8::X)),
                    ),
                ),
            ),
            Step::RestartVector => match restart_target(
                self.ram.fetch(cpu.reg16(Register16::Xy)),
            ) {
                Some(t) => Ok(self.with_cpu(cpu.with_reg8(Register8::PcLow, t))),
                None => Err(Fault::InvalidOperand),
            },
            _ => Err(Fault::InvalidOperand),
        }
    }

    /// An update of the 8- and 16-bit arithmetic.
    pub open spec fn alu_step_done(self, step: Step) -> Result<ConsoleView, Fault> {
        let cpu = self.cpu;
        let y = cpu.reg8(Register8::Y);
        match step {
            Step::SubY => Ok(self.sub_done(y)),
            Step::SubOperand => match block_operand(self.opcode_at_bus(), 0x90) {
                Some(r) => Ok(self.sub_done(cpu.reg8(r))),
                None => Err(Fault::InvalidOperand),
            },
            Step::XorY => Ok(self.xor_done(y)),
            Step::XorOperand => match block_operand(self.opcode_at_bus(), 0xA8) {
                Some(r) => Ok(self.xor_done(cpu.reg8(r))),
                None => Err(Fault::InvalidOperand),
            },
            Step::DecY => Ok(self.with_cpu(cpu.with_reg8(Register8::Y, dec_result(y).0))),
            Step::DecFlags => Ok(self.with_cpu(ConsoleView::dec_flags(cpu, y))),
            Step::DecOperand => match row_operand(self.opcode_at_bus(), 5) {
                Some(r) => {
                    let v = dec_result(cpu.reg8(r)).0;
                    Ok(self.with_cpu(ConsoleView::dec_flags(cpu.with_reg8(r, v), v)))
                },
                None => Err(Fault::InvalidOperand),
            },
            Step::IncY => Ok(
                self.with_cpu(cpu.with_reg8(Register8::Y, add_result(y, 1).0)),
            ),
            Step::IncFlags => Ok(self.with_cpu(ConsoleView::inc_flags(cpu, y))),
            Step::IncOperand => match row_operand(self.opcode_at_bus(), 4) {
                Some(r) => {
                    let v = add_result(cpu.reg8(r), 1).0;
                    Ok(self.with_cpu(ConsoleView::inc_flags(cpu.with_reg8(r, v), v)))
                },
                None => Err(Fault::InvalidOperand),
            },
            Step::Add16Low => match pair_row(self.opcode_at_bus(), 9) {
                Some(p) => {
                    let (r, c) = add_result(cpu.reg8(Register8::L), cpu.reg8(p.halves().1));
                    Ok(self.with_cpu(cpu.with_reg8(Register8::L, r).with_flag(Flags::H, c)))
                },
                None => Err(Fault::InvalidOperand),
            },
            Step::Add16High => match pair_row(self.opcode_at_bus(), 9) {
                Some(p) => {
                    let (r, c) = add_high_result(
                        cpu.reg8(Register8::H),
                        cpu.reg8(p.halves().0),
                        cpu.flag(Flags::H),
                    );
                    Ok(
                        self.with_cpu(
                            cpu.with_reg8(Register8::H, r).with_flag(Flags::N, false).with_flag(
                                Flags::C,
                                c,
                            ),
                        ),
                    )
                },
                None => Err(Fault::InvalidOperand),
            },
            Step::Inc16Low => match pair_row(self.opcode_at_bus(), 3) {
                Some(p) => {
                    let low = p.halves().1;
                    Ok(self.with_cpu(cpu.with_reg8(low, add_result(cpu.reg8(low), 1).0)))
                },
                None => Err(Fault::InvalidOperand),
            },
            Step::Inc16High => match pair_row(self.opcode_at_bus(), 3) {
                Some(p) => {
                    let (high, low) = p.halves();
                    let carry: u8 = if cpu.reg8(low) == 0 {
                        1
                    } else {
                        0
                    };
                    Ok(self.with_cpu(cpu.with_reg8(high, add_result(cpu.reg8(high), carry).0)))
                },
                None => Err(Fault::InvalidOperand),
            },
            Step::AddSpFlags => {
                let (h, c) = sp_offset_flags(cpu.reg8(Register8::SpLow), y);
                Ok(self.with_cpu(with_flags(cpu, false, false, h, c)))
            },
            _ => Err(Fault::InvalidOperand),
        }
    }

    /// An update of the rotate, flag and bit instructions.
    pub open spec fn flag_step_done(self, step: Step) -> Result<ConsoleView, Fault> {
        let cpu = self.cpu;
        let y = cpu.reg8(Register8::Y);
        match step {
            Step::Rla => {
                let (r, c) = rotate_result(cpu.reg8(Register8::A), cpu.flag(Flags::C));
                Ok(self.with_cpu(with_flags(cpu.with_reg8(Register8::A, r), false, false, false, c)))
            },
            Step::Ccf => Ok(
                self.with_cpu(
                    cpu.with_flag(Flags::N, false).with_flag(Flags::H, false).with_flag(
                        Flags::C,
                        !cpu.flag(Flags::C),
                    ),
                ),
            ),
            Step::Scf => Ok(
                self.with_cpu(
                    cpu.with_flag(Flags::N, false).with_flag(Flags::H, false).with_flag(
                        Flags::C,
                        true,
                    ),
                ),
            ),
            Step::Cpl => Ok(
                self.with_cpu(
                    cpu.with_reg8(Register8::A, !cpu.reg8(Register8::A)).with_flag(
                        Flags::N,
                        true,
                    ).with_flag(Flags::H, true),
                ),
            ),
            Step::Daa => {
                let (r, c) = daa_result(
                    cpu.reg8(Register8::A),
                    cpu.flag(Flags::N),
                    cpu.flag(Flags::H),
                    cpu.flag(Flags::C),
                );
                Ok(
                    self.with_cpu(
                        cpu.with_reg8(Register8::A, r).with_flag(Flags::Z, r == 0).with_flag(
                            Flags::H,
                            false,
                        ).with_flag(Flags::C, c),
                    ),
                )
            },
            Step::BitHl => self.bit_tested(self.opcode_at_bus()),
            Step::BitRegister => match operand_of(y % 8) {
                Some(r) => self.bit_tested(cpu.reg8(r)),
                None => Err(Fault::InvalidOperand),
            },
            Step::ResetHl => if y < 0x80 {
                Err(Fault::InvalidOperand)
            } else {
                let v = self.opcode_at_bus() & mask_of(((y - 0x80) / 8) as u8);
                Ok(self.with_ram(self.ram.set(v, cpu.reg16(Register16::Hl))))
            },
            Step::ResetRegister => match operand_of(y % 8) {
                Some(r) => if y < 0x80 {
                    Err(Fault::InvalidOperand)
                } else {
                    Ok(
                        self.with_cpu(
                            cpu.with_reg8(r, cpu.reg8(r) & mask_of(((y - 0x80) / 8) as u8)),
                        ),
                    )
                },
                None => Err(Fault::InvalidOperand),
            },
            Step::RlcHl => {
                let v = self.opcode_at_bus();
                let (r, c) = rotate_result(v, v >= 128);
                Ok(
                    self.with_ram(self.ram.set(r, cpu.reg16(Register16::Bus))).with_cpu(
                        with_flags(cpu, v == 0, false, false, c),
                    ),
                )
            },
            Step::RlcRegister => match (if y % 16 < 8 {
                operand_of(y % 16)
            } else {
                None
            }) {
                Some(reg) => {
                    let v = cpu.reg8(reg);
                    let (r, c) = rotate_result(v, v >= 128);
                    Ok(self.with_cpu(with_flags(cpu.with_reg8(reg, r), v == 0, false, false, c)))
                },
                None => Err(Fault::InvalidOperand),
            },
            _ => Err(Fault::InvalidOperand),
        }
    }

    /// An update that changes the CPU state or decides what comes next.
    pub open spec fn control_step_done(self, step: Step) -> Result<ConsoleView, Fault> {
        let cpu = self.cpu;
        let y = cpu.reg8(Register8::Y);
        match step {
            Step::EnableInterrupts => Ok(self.with_cpu(CpuState { ime: true, ..cpu })),
            Step::Halt => {
                let pending = self.ram.fetch(0xFFFF) & self.ram.fetch(0xFF0F) != 0;
                Ok(
                    self.with_cpu(
                        CpuState { is_halted: true, halt_bug: cpu.ime && pending, ..cpu },
                    ),
                )
            },
            Step::Stop => Ok(self.with_cpu(CpuState { is_stopped: true, ..cpu })),
            Step::BranchRelative => self.relative_branch(),
            Step::BranchNoCarry => Ok(
                if !cpu.flag(Flags::C) {
                    self.pushed(1, copy8(Register8::X, Register8::PcHigh)).pushed(
                        2,
                        copy8(Register8::Y, Register8::PcLow),
                    ).next_queued(7)
                } else {
                    self.next_queued(3)
                },
            ),
            Step::BranchReturn => self.return_branch(),
            Step::BranchCall => self.call_branch(),
            Step::DispatchCb => match decoded_cb(y) {
                Instruction::BitOp(op) => match self.bit_op_scheduled(op) {
                    Err(f) => Err(f),
                    Ok((s, Some(n))) => Ok(s.next_queued(n)),
                    Ok((s, None)) => Ok(s),
                },
                _ => Ok(self),
            },
            Step::FetchDecodeExecute => self.fetch_decoded(),
            _ => Err(Fault::InvalidOperand),
        }
    }

    /// The condition test of JR cc: when taken, PC moves by the signed
    /// offset one cycle later and the next fetch comes six cycles later;
    /// otherwise two.
    pub open spec fn relative_branch(self) -> Result<ConsoleView, Fault> {
        let bus = self.cpu.reg16(Register16::Bus);
        if bus == 0 {
            Err(Fault::RegisterOverflow)
        } else {
            match relative_condition(self.cpu, self.ram.fetch((bus - 1) as u16)) {
                Some(true) => Ok(self.pushed(1, update(Step::JumpRelativeSigned)).next_queued(6)),
                Some(false) => Ok(self.next_queued(2)),
                None => Err(Fault::InvalidOperand),
            }
        }
    }

    /// The condition test of RET cc: when taken, the return address is
    /// popped into PC and the next fetch comes 17 cycles later; otherwise 5.
    pub open spec fn return_branch(self) -> Result<ConsoleView, Fault> {
        match return_condition(self.cpu, self.opcode_at_bus()) {
            Some(true) => Ok(
                self.pushed(1, update(Step::Increment16(Register16::Sp))).pushed(
                    2,
                    bus_from(Register16::Sp),
                ).pushed(3, read_bus_into(Register8::Y)).pushed(
                    4,
                    update(Step::Increment16(Register16::Sp)),
                ).pushed(5, bus_from(Register16::Sp)).pushed(6, read_bus_into(Register8::X)).pushed(
                    10,
                    copy8(Register8::X, Register8::PcHigh),
                ).pushed(11, copy8(Register8::Y, Register8::PcLow)).next_queued(17),
            ),
            Some(false) => Ok(self.next_queued(5)),
            None => Err(Fault::InvalidOperand),
        }
    }

    /// The condition test of CALL (the opcode two bytes before the bus):
    /// when taken, PC is pushed and the next fetch comes 15 cycles later;
    /// otherwise 3.
    pub open spec fn call_branch(self) -> Result<ConsoleView, Fault> {
        let bus = self.cpu.reg16(Register16::Bus);
        if bus < 2 {
            Err(Fault::RegisterOverflow)
        } else {
            match call_condition(self.cpu, self.ram.fetch((bus - 2) as u16)) {
                Some(true) => Ok(
                    self.pushed(7, bus_from(Register16::Sp)).pushed(
                        8,
                        update(Step::Decrement16(Register16::Sp)),
                    ).pushed(9, write_bus_from(Register8::PcLow)).pushed(
                        11,
                        bus_from(Register16::Sp),
                    ).pushed(12, update(Step::Decrement16(Register16::Sp))).pushed(
                        13,
                        write_bus_from(Register8::PcHigh),
                    ).next_queued(15),
                ),
                Some(false) => Ok(self.next_queued(3)),
                None => Err(Fault::InvalidOperand),
            }
        }
    }

    /// A halted CPU checks for interrupts on the last T-cycle of each
    /// M-cycle: with an interrupt pending it services it (IME set) or
    /// simply resumes one cycle later (IME clear).
    pub open spec fn halt_checked(self) -> ConsoleView {
        if self.cpu.is_halted && self.tick_counter % 4 == 3 && self.interrupt_pending() {
            if self.cpu.ime {
                self.halt_ended().next_queued(21)
            } else {
                self.with_cpu(CpuState { is_halted: false, ..self.cpu }).next_queued(1)
            }
        } else {
            self
        }
    }

    /// The micro-operations queued for the current T-cycle taken off the
    /// queue and run in order.
    pub open spec fn queue_run(self) -> Result<ConsoleView, Fault> {
        let t = self.tick_counter;
        if self.queue.contains_key(t) {
            ConsoleView { queue: self.queue.remove(t), ..self }.commands_done(self.queue[t])
        } else {
            Ok(self)
        }
    }

    /// One T-cycle of the CPU. A stopped CPU does nothing; after the halt
    /// bug the next instruction is fetched at once and HALT ends; then a
    /// halted CPU checks for interrupts and the micro-operations of this
    /// cycle run.
    pub open spec fn cpu_ticked(self) -> Result<ConsoleView, Fault> {
        if self.cpu.is_stopped {
            Ok(self)
        } else {
            let fetched = if self.cpu.halt_bug {
                match self.fetch_decoded() {
                    Ok(s) => Ok(s.with_cpu(CpuState { halt_bug: false, is_halted: false, ..s.cpu })),
                    Err(f) => Err(f),
                }
            } else {
                Ok(self)
            };
            match fetched {
                Err(f) => Err(f),
                Ok(s) => s.halt_checked().queue_run(),
            }
        }
    }

    /// The machine after one queued micro-operation.
    #[verifier::opaque]
    pub open spec fn command_done(self, command: Command) -> Result<ConsoleView, Fault> {
        match command {
            Command::Read(source, destination) => Ok(self.read_done(source, destination)),
            Command::Update(step) => self.step_done(step),
        }
    }

    /// The machine after `commands` run in order, stopping at the first fault.
    pub open spec fn commands_done(self, commands: Seq<Command>) -> Result<ConsoleView, Fault>
        decreases commands.len(),
    {
        if commands.len() == 0 {
            Ok(self)
        } else {
            match self.command_done(commands[0]) {
                Ok(s) => s.commands_done(commands.drop_first()),
                Err(f) => Err(f),
            }
        }
    }

    /// The machine after the instruction at PC is fetched and decoded and its
    /// micro-operations queued: the bus takes PC, PC advances one cycle later
    /// (unless the halt bug repeats the byte), the instruction schedules its
    /// work, IME is set one cycle before the next fetch when EI was pending,
    /// and the next fetch is queued when the instruction knows its length.
    #[verifier::opaque]
    pub open spec fn fetch_decoded(self) -> Result<ConsoleView, Fault> {
        let pc = self.cpu.reg16(Register16::Pc);
        let opcode = self.ram.fetch(pc);
        let instruction = if self.cb_flag {
            Some(decoded_cb(opcode))
        } else {
            decoded(opcode)
        };
        match instruction {
            None => Err(Fault::UnknownOpcode),
            Some(i) => {
                let s1 = ConsoleView {
                    cb_flag: false,
                    cpu: self.cpu.with_reg16(Register16::Bus, pc),
                    ..self
                };
                let s2 = if !self.cpu.halt_bug {
                    s1.pushed(1, update(Step::IncrementPc))
                } else {
                    s1
                };
                s2.executed(i)
            },
        }
    }

    /// The machine after instruction `i` schedules its work: IME is set one
    /// cycle before the next fetch when EI was pending, and the next fetch
    /// is queued when the instruction knows its length.
    pub open spec fn executed(self, i: Instruction) -> Result<ConsoleView, Fault> {
        match self.instruction_scheduled(i) {
            Err(f) => Err(f),
            Ok((s3, None)) => Ok(s3),
            Ok((s3, Some(n))) => {
                let s4 = if self.cpu.ime_pending {
                    s3.pushed((n - 1) as u64, update(Step::EnableInterrupts))
                } else {
                    s3
                };
                Ok(s4.next_queued(n))
            },
        }
    }

    /// What an instruction schedules, and after how many cycles the next
    /// fetch comes if the instruction knows it.
    pub open spec fn instruction_scheduled(self, i: Instruction) -> Result<
        (ConsoleView, Option<u64>),
        Fault,
    > {
        match i {
            Instruction::Cb => Ok(self.cb_scheduled()),
            Instruction::Control(op) => self.control_scheduled(op),
            Instruction::Load16(op) => Ok(self.load16_scheduled(op)),
            Instruction::Push(arg) => Ok(self.push_scheduled(arg)),
            Instruction::Pop(arg) => Ok(self.pop_scheduled(arg)),
            Instruction::Load8(to, from) => self.load8_scheduled(to, from),
            Instruction::Arithmetic16(op) => self.alu16_scheduled(op),
            Instruction::Arithmetic8(op) => self.alu8_scheduled(op),
            Instruction::JumpRelative(jr) => Ok(
                if jr == JR::I8 {
                    self.jr_i8_scheduled()
                } else {
                    self.jr_flag_scheduled()
                },
            ),
            Instruction::Jump(jp) => match jp {
                JP::HL => Ok((self.pushed(3, update(Step::Copy16(Register16::Hl, Register16::Pc))), Some(4))),
                JP::Nc => Ok(self.jump_nc_scheduled()),
                _ => Err(Fault::UnsupportedInstruction),
            },
            Instruction::Restart(_) => Ok(self.restart_scheduled()),
            Instruction::Return(ret) => Ok(
                match ret {
                    Ret::Unconditional => self.ret_scheduled(false),
                    Ret::I => self.ret_scheduled(true),
                    _ => (self.pushed(3, update(Step::BranchReturn)), None),
                },
            ),
            Instruction::Call(_) => Ok(self.call_scheduled()),
            Instruction::BitOp(op) => self.bit_op_scheduled(op),
        }
    }

    /// The CB prefix: the next byte is read into Y and dispatched.
    pub open spec fn cb_scheduled(self) -> (ConsoleView, Option<u64>) {
        (
            self.pushed(3, bus_from(Register16::Pc)).pushed(4, update(Step::IncrementPc)).pushed(
                5,
                read_bus_into(Register8::Y),
            ).pushed(5, update(Step::DispatchCb)),
            None,
        )
    }

    /// The control instructions.
    pub open spec fn control_scheduled(self, op: ControlOps) -> Result<
        (ConsoleView, Option<u64>),
        Fault,
    > {
        match op {
            ControlOps::Nop => Ok((self, Some(4))),
            ControlOps::Stop => Ok(
                (
                    self.pushed(3, bus_from(Register16::Pc)).pushed(4, update(Step::IncrementPc)).pushed(
                        7,
                        update(Step::Stop),
                    ),
                    Some(8),
                ),
            ),
            ControlOps::Halt => Ok((self.pushed(3, update(Step::Halt)), None)),
            ControlOps::Di => Err(Fault::UnsupportedInstruction),
            ControlOps::Ei => Ok((self.pushed(3, update(Step::EnableInterrupts)), Some(4))),
            ControlOps::Daa => Ok((self.pushed(3, update(Step::Daa)), Some(4))),
            ControlOps::Scf => Ok((self.pushed(3, update(Step::Scf)), Some(4))),
            ControlOps::Cpl => Ok((self.pushed(3, update(Step::Cpl)), Some(4))),
            ControlOps::Ccf => Ok((self.pushed(3, update(Step::Ccf)), Some(4))),
        }
    }

    /// The two immediate bytes at PC read into `low` then `high`.
    pub open spec fn immediate16_read(self, low: Register8, high: Register8) -> ConsoleView {
        self.pushed(3, bus_from(Register16::Pc)).pushed(4, update(Step::IncrementPc)).pushed(
            5,
            read_bus_into(low),
        ).pushed(6, bus_from(Register16::Pc)).pushed(7, update(Step::IncrementPc)).pushed(
            8,
            read_bus_into(high),
        )
    }

    /// The 16-bit loads.
    pub open spec fn load16_scheduled(self, op: Ld16) -> (ConsoleView, Option<u64>) {
        match op {
            Ld16::BcU16 => (self.immediate16_read(Register8::C, Register8::B), Some(12)),
            Ld16::DeU16 => (self.immediate16_read(Register8::E, Register8::D), Some(12)),
            Ld16::HlU16 => (self.immediate16_read(Register8::L, Register8::H), Some(12)),
            Ld16::SpU16 => (self.immediate16_read(Register8::SpLow, Register8::SpHigh), Some(12)),
            Ld16::U16Sp => (
                self.immediate16_read(Register8::Y, Register8::X).pushed(
                    9,
                    bus_from(Register16::Xy),
                ).pushed(12, write_bus_from(Register8::SpLow)).pushed(
                    13,
                    update(Step::StepUp16(Register16::Xy)),
                ).pushed(14, bus_from(Register16::Xy)).pushed(16, write_bus_from(Register8::SpHigh)),
                Some(20),
            ),
            Ld16::SpHl => (
                self.pushed(3, copy8(Register8::H, Register8::SpHigh)).pushed(
                    4,
                    copy8(Register8::L, Register8::SpLow),
                ),
                Some(8),
            ),
        }
    }

    /// PUSH: the low register is written at SP, SP moves down, the high
    /// register is written at SP, SP moves down.
    pub open spec fn push_scheduled(self, arg: PushPop) -> (ConsoleView, Option<u64>) {
        let (high, low) = stack_pair(arg);
        (
            self.pushed(8, bus_from(Register16::Sp)).pushed(9, write_bus_from(low)).pushed(
                10,
                update(Step::StepDown16(Register16::Sp)),
            ).pushed(12, bus_from(Register16::Sp)).pushed(13, write_bus_from(high)).pushed(
                14,
                update(Step::StepDown16(Register16::Sp)),
            ),
            Some(16),
        )
    }

    /// POP: the low register is read from SP, SP moves up, the high
    /// register is read from SP, SP moves up.
    pub open spec fn pop_scheduled(self, arg: PushPop) -> (ConsoleView, Option<u64>) {
        let (high, low) = stack_pair(arg);
        (
            self.pushed(3, bus_from(Register16::Sp)).pushed(
                4,
                update(Step::Increment16(Register16::Sp)),
            ).pushed(5, read_bus_into(low)).pushed(6, bus_from(Register16::Sp)).pushed(
                7,
                update(Step::Increment16(Register16::Sp)),
            ).pushed(8, read_bus_into(high)),
            Some(12),
        )
    }

    /// The 8-bit loads, by source.
    pub open spec fn load8_scheduled(self, to: Ld8, from: Ld8) -> Result<
        (ConsoleView, Option<u64>),
        Fault,
    > {
        match from {
            Ld8::A => self.from_register8_scheduled(to, Register8::A),
            Ld8::B => self.from_register8_scheduled(to, Register8::B),
            Ld8::C => self.from_register8_scheduled(to, Register8::C),
            Ld8::D => self.from_register8_scheduled(to, Register8::D),
            Ld8::E => self.from_register8_scheduled(to, Register8::E),
            Ld8::H => self.from_register8_scheduled(to, Register8::H),
            Ld8::L => self.from_register8_scheduled(to, Register8::L),
            Ld8::Hl => self.from_register16_scheduled(to, Register16::Hl),
            Ld8::HlPlus => self.from_hl_scheduled(to, true),
            Ld8::HlMinus => self.from_hl_scheduled(to, false),
            Ld8::Bc => self.from_register16_scheduled(to, Register16::Bc),
            Ld8::De => self.from_register16_scheduled(to, Register16::De),
            Ld8::U16 => self.from_u16_scheduled(to),
            Ld8::U8 => self.from_u8_scheduled(to),
            Ld8::Ff00AddU8 => self.from_ff00_scheduled(to, false),
            Ld8::Ff00AddC => self.from_ff00_scheduled(to, true),
        }
    }

    /// HL moves up (`plus`) or down by one.
    pub open spec fn hl_step(plus: bool) -> Command {
        if plus {
            update(Step::StepUp16(Register16::Hl))
        } else {
            update(Step::StepDown16(Register16::Hl))
        }
    }

    /// LD dst,r for a register source.
    pub open spec fn from_register8_scheduled(self, to: Ld8, from: Register8) -> Result<
        (ConsoleView, Option<u64>),
        Fault,
    > {
        match load_target(to) {
            Some(t) => Ok((self.pushed(3, copy8(from, t)), Some(4))),
            None => match to {
                Ld8::Hl => Ok(self.to_pair_scheduled(Register16::Hl, from)),
                Ld8::Bc => Ok(self.to_pair_scheduled(Register16::Bc, from)),
                Ld8::De => Ok(self.to_pair_scheduled(Register16::De, from)),
                Ld8::HlPlus => Ok(
                    (
                        self.pushed(3, bus_from(Register16::Hl)).pushed(4, write_bus_from(from)).pushed(
                            5,
                            ConsoleView::hl_step(true),
                        ),
                        Some(8),
                    ),
                ),
                Ld8::HlMinus => Ok(
                    (
                        self.pushed(3, bus_from(Register16::Hl)).pushed(4, write_bus_from(from)).pushed(
                            5,
                            ConsoleView::hl_step(false),
                        ),
                        Some(8),
                    ),
                ),
                Ld8::U16 => Ok(
                    (
                        self.immediate16_read(Register8::Y, Register8::X).pushed(
                            9,
                            bus_from(Register16::Xy),
                        ).pushed(12, write_bus_from(Register8::A)),
                        Some(16),
                    ),
                ),
                Ld8::Ff00AddC => Ok(
                    (
                        self.pushed(3, copy8(Register8::C, Register8::Y)).pushed(
                            4,
                            update(Step::Load8(Register8::X, 0xFF)),
                        ).pushed(5, bus_from(Register16::Xy)).pushed(
                            6,
                            Command::Read(
                                Source::Register(from),
                                Destination::RamFromRegister(Register16::Xy),
                            ),
                        ),
                        Some(8),
                    ),
                ),
                Ld8::Ff00AddU8 => Ok(
                    (
                        self.pushed(3, bus_from(Register16::Pc)).pushed(4, update(Step::IncrementPc)).pushed(
                            5,
                            read_bus_into(Register8::Y),
                        ).pushed(6, update(Step::Load8(Register8::X, 0xFF))).pushed(
                            7,
                            bus_from(Register16::Xy),
                        ).pushed(
                            8,
                            Command::Read(
                                Source::Register(from),
                                Destination::RamFromRegister(Register16::Xy),
                            ),
                        ),
                        Some(12),
                    ),
                ),
                _ => Err(Fault::UnsupportedInstruction),
            },
        }
    }

    /// LD (rr),r: the pair is latched on the bus and the register written there.
    pub open spec fn to_pair_scheduled(self, pair: Register16, from: Register8) -> (
        ConsoleView,
        Option<u64>,
    ) {
        let (high, low) = pair.halves();
        (
            self.pushed(3, copy8(high, Register8::BusHigh)).pushed(3, copy8(low, Register8::BusLow)).pushed(
                4,
                write_bus_from(from),
            ),
            Some(8),
        )
    }

    /// LD r,(rr).
    pub open spec fn from_register16_scheduled(self, to: Ld8, from: Register16) -> Result<
        (ConsoleView, Option<u64>),
        Fault,
    > {
        match load_target(to) {
            Some(t) => {
                let (high, low) = from.halves();
                Ok(
                    (
                        self.pushed(3, copy8(high, Register8::BusHigh)).pushed(
                            3,
                            copy8(low, Register8::BusLow),
                        ).pushed(4, read_bus_into(t)),
                        Some(8),
                    ),
                )
            },
            None => Err(Fault::UnsupportedInstruction),
        }
    }

    /// LD r,(HL+) and LD r,(HL-).
    pub open spec fn from_hl_scheduled(self, to: Ld8, plus: bool) -> Result<
        (ConsoleView, Option<u64>),
        Fault,
    > {
        match load_target(to) {
            Some(t) => Ok(
                (
                    self.pushed(3, bus_from(Register16::Hl)).pushed(
                        4,
                        Command::Read(
                            Source::RamFromRegister(Register16::Hl),
                            Destination::Register(t),
                        ),
                    ).pushed(5, ConsoleView::hl_step(plus)),
                    Some(8),
                ),
            ),
            None => Err(Fault::UnsupportedInstruction),
        }
    }

    /// LD r,(u16).
    pub open spec fn from_u16_scheduled(self, to: Ld8) -> Result<
        (ConsoleView, Option<u64>),
        Fault,
    > {
        match load_target(to) {
            Some(t) => Ok(
                (
                    self.immediate16_read(Register8::Y, Register8::X).pushed(
                        9,
                        bus_from(Register16::Xy),
                    ).pushed(12, read_bus_into(t)),
                    Some(16),
                ),
            ),
            None => Err(Fault::UnsupportedInstruction),
        }
    }

    /// LD r,u8 and LD (rr),u8.
    pub open spec fn from_u8_scheduled(self, to: Ld8) -> Result<
        (ConsoleView, Option<u64>),
        Fault,
    > {
        let fetch = self.pushed(3, bus_from(Register16::Pc)).pushed(4, update(Step::IncrementPc));
        match load_target(to) {
            Some(t) => Ok((fetch.pushed(5, read_bus_into(t)), Some(8))),
            None => match load_pair(to) {
                Some(pair) => {
                    let (high, low) = pair.halves();
                    Ok(
                        (
                            fetch.pushed(5, read_bus_into(Register8::Y)).pushed(
                                6,
                                copy8(low, Register8::BusLow),
                            ).pushed(6, copy8(high, Register8::BusHigh)).pushed(
                                8,
                                write_bus_from(Register8::Y),
                            ).pushed(7, write_bus_from(Register8::Y)),
                            Some(12),
                        ),
                    )
                },
                None => Err(Fault::UnsupportedInstruction),
            },
        }
    }

    /// LDH r,(0xFF00 + C) and LDH r,(0xFF00 + u8) (`plus_c` picks the form).
    pub open spec fn from_ff00_scheduled(self, to: Ld8, plus_c: bool) -> Result<
        (ConsoleView, Option<u64>),
        Fault,
    > {
        match load_target(to) {
            Some(t) => Ok(
                if plus_c {
                    (
                        self.pushed(3, copy8(Register8::C, Register8::Y)).pushed(
                            4,
                            update(Step::Load8(Register8::X, 0xFF)),
                        ).pushed(5, bus_from(Register16::Xy)).pushed(6, read_bus_into(t)),
                        Some(8),
                    )
                } else {
                    (
                        self.pushed(3, bus_from(Register16::Pc)).pushed(4, update(Step::IncrementPc)).pushed(
                            5,
                            read_bus_into(Register8::Y),
                        ).pushed(6, update(Step::Load8(Register8::X, 0xFF))).pushed(
                            7,
                            bus_from(Register16::Xy),
                        ).pushed(8, read_bus_into(Register8::A)),
                        Some(12),
                    )
                },
            ),
            None => Err(Fault::UnsupportedInstruction),
        }
    }

    /// The 16-bit arithmetic.
    pub open spec fn alu16_scheduled(self, op: A16Ops) -> Result<
        (ConsoleView, Option<u64>),
        Fault,
    > {
        match op {
            A16Ops::Inc(_) => Ok(
                (
                    self.pushed(3, update(Step::Inc16Low)).pushed(4, update(Step::Inc16High)),
                    Some(8),
                ),
            ),
            A16Ops::Add(_) => Ok(
                (
                    self.pushed(3, update(Step::Add16Low)).pushed(4, update(Step::Add16High)),
                    Some(8),
                ),
            ),
            A16Ops::AddI8 => Ok(
                (
                    self.pushed(3, bus_from(Register16::Pc)).pushed(4, update(Step::IncrementPc)).pushed(
                        5,
                        read_bus_into(Register8::Y),
                    ).pushed(6, update(Step::Load8(Register8::X, 0))).pushed(
                        7,
                        update(Step::AddSpFlags),
                    ).pushed(8, update(Step::AddSpOffset)),
                    Some(16),
                ),
            ),
            _ => Err(Fault::UnsupportedInstruction),
        }
    }

    /// The 8-bit arithmetic.
    pub open spec fn alu8_scheduled(self, op: A8Ops) -> Result<
        (ConsoleView, Option<u64>),
        Fault,
    > {
        match op {
            A8Ops::Inc(arg) => self.inc8_scheduled(arg),
            A8Ops::Dec(arg) => self.dec8_scheduled(arg),
            A8Ops::Sub(arg) => Ok(self.combine_scheduled(arg, Step::SubY, Step::SubOperand)),
            A8Ops::Xor(arg) => Ok(self.combine_scheduled(arg, Step::XorY, Step::XorOperand)),
            _ => Err(Fault::UnsupportedInstruction),
        }
    }

    /// SUB and XOR: the operand is read into Y from (HL) or the byte after
    /// the opcode, or named by the opcode.
    pub open spec fn combine_scheduled(self, arg: A8Args, with_y: Step, with_operand: Step) -> (
        ConsoleView,
        Option<u64>,
    ) {
        match arg {
            A8Args::HL => (
                self.pushed(3, bus_from(Register16::Hl)).pushed(4, read_bus_into(Register8::Y)).pushed(
                    5,
                    update(with_y),
                ),
                Some(8),
            ),
            A8Args::U8 => (
                self.pushed(3, bus_from(Register16::Pc)).pushed(4, update(Step::IncrementPc)).pushed(
                    5,
                    read_bus_into(Register8::Y),
                ).pushed(6, update(with_y)),
                Some(8),
            ),
            _ => (self.pushed(3, update(with_operand)), Some(4)),
        }
    }

    /// DEC r and DEC (HL).
    pub open spec fn dec8_scheduled(self, arg: A8Args) -> Result<
        (ConsoleView, Option<u64>),
        Fault,
    > {
        match arg {
            A8Args::HL => Ok(
                (
                    self.pushed(3, bus_from(Register16::Hl)).pushed(4, read_bus_into(Register8::Y)).pushed(
                        5,
                        update(Step::DecY),
                    ).pushed(8, write_bus_from(Register8::Y)).pushed(8, update(Step::DecFlags)),
                    Some(12),
                ),
            ),
            A8Args::U8 => Err(Fault::UnsupportedInstruction),
            _ => Ok((self.pushed(3, update(Step::DecOperand)), Some(4))),
        }
    }

    /// INC r and INC (HL).
    pub open spec fn inc8_scheduled(self, arg: A8Args) -> Result<
        (ConsoleView, Option<u64>),
        Fault,
    > {
        match arg {
            A8Args::HL => Ok(
                (
                    self.pushed(3, bus_from(Register16::Hl)).pushed(4, read_bus_into(Register8::Y)).pushed(
                        5,
                        update(Step::IncY),
                    ).pushed(8, write_bus_from(Register8::Y)).pushed(8, update(Step::IncFlags)),
                    Some(12),
                ),
            ),
            A8Args::U8 => Err(Fault::UnsupportedInstruction),
            _ => Ok((self.pushed(3, update(Step::IncOperand)), Some(4))),
        }
    }

    /// JR i8.
    pub open spec fn jr_i8_scheduled(self) -> (ConsoleView, Option<u64>) {
        (
            self.pushed(3, bus_from(Register16::Pc)).pushed(4, update(Step::IncrementPc)).pushed(
                5,
                read_bus_into(Register8::X),
            ).pushed(6, update(Step::JumpRelative)),
            Some(12),
        )
    }

    /// JR cc,i8: the offset is read and the condition decides.
    pub open spec fn jr_flag_scheduled(self) -> (ConsoleView, Option<u64>) {
        (
            self.pushed(3, bus_from(Register16::Pc)).pushed(4, update(Step::IncrementPc)).pushed(
                5,
                read_bus_into(Register8::X),
            ).pushed(6, update(Step::BranchRelative)),
            None,
        )
    }

    /// JP NC,u16: the address is read into XY and the carry decides.
    pub open spec fn jump_nc_scheduled(self) -> (ConsoleView, Option<u64>) {
        (self.immediate16_read(Register8::Y, Register8::X).pushed(9, update(Step::BranchNoCarry)), None)
    }

    /// RST: PC is pushed and its low byte replaced by the target of the opcode.
    pub open spec fn restart_scheduled(self) -> (ConsoleView, Option<u64>) {
        (
            self.pushed(3, bus_from(Register16::Sp)).pushed(
                8,
                update(Step::Decrement16(Register16::Sp)),
            ).pushed(9, write_bus_from(Register8::PcHigh)).pushed(10, bus_from(Register16::Sp)).pushed(
                11,
                update(Step::Decrement16(Register16::Sp)),
            ).pushed(11, update(Step::PreviousPcToXy)).pushed(12, write_bus_from(Register8::PcLow)).pushed(
                13,
                update(Step::Load8(Register8::PcHigh, 0)),
            ).pushed(14, update(Step::RestartVector)),
            Some(16),
        )
    }

    /// RET and RETI: the return address is popped into PC (and IME set for RETI).
    pub open spec fn ret_scheduled(self, interrupt: bool) -> (ConsoleView, Option<u64>) {
        let s = self.pushed(3, update(Step::Increment16(Register16::Sp))).pushed(
            4,
            bus_from(Register16::Sp),
        ).pushed(5, read_bus_into(Register8::Y)).pushed(
            6,
            update(Step::Increment16(Register16::Sp)),
        ).pushed(7, bus_from(Register16::Sp)).pushed(8, read_bus_into(Register8::X)).pushed(
            9,
            copy8(Register8::X, Register8::PcHigh),
        ).pushed(10, copy8(Register8::Y, Register8::PcLow));
        (
            if interrupt {
                s.pushed(11, update(Step::EnableInterrupts))
            } else {
                s
            },
            Some(16),
        )
    }

    /// CALL: the address is read into XY and the condition decides.
    pub open spec fn call_scheduled(self) -> (ConsoleView, Option<u64>) {
        (self.immediate16_read(Register8::Y, Register8::X).pushed(9, update(Step::BranchCall)), None)
    }

    /// The rotate and bit instructions.
    pub open spec fn bit_op_scheduled(self, op: BitOps) -> Result<
        (ConsoleView, Option<u64>),
        Fault,
    > {
        match op {
            BitOps::Rla => Ok((self.pushed(3, update(Step::Rla)), Some(4))),
            BitOps::Rlc(arg) => Ok(
                match arg {
                    BitArgs::HL => (
                        self.pushed(3, bus_from(Register16::Hl)).pushed(7, update(Step::RlcHl)),
                        Some(11),
                    ),
                    BitArgs::Register(_) => (self.pushed(1, update(Step::RlcRegister)), Some(3)),
                },
            ),
            BitOps::Bit(_, arg) => Ok(
                match arg {
                    BitArgs::HL => (
                        self.pushed(3, bus_from(Register16::Hl)).pushed(6, update(Step::BitHl)),
                        Some(7),
                    ),
                    BitArgs::Register(_) => (self.pushed(1, update(Step::BitRegister)), Some(3)),
                },
            ),
            BitOps::Reset(_, arg) => Ok(
                match arg {
                    BitArgs::HL => (
                        self.pushed(3, bus_from(Register16::Hl)).pushed(7, update(Step::ResetHl)),
                        Some(11),
                    ),
                    BitArgs::Register(_) => (self.pushed(1, update(Step::ResetRegister)), Some(3)),
                },
            ),
            _ => Err(Fault::UnsupportedInstruction),
        }
    }
}

/// The register an 8-bit load target names, if it is a register.
pub open spec fn load_target(to: Ld8) -> Option<Register8> {
    match to {
        Ld8::A => Some(Register8::A),
        Ld8::B => Some(Register8::B),
        Ld8::C => Some(Register8::C),
        Ld8::D => Some(Register8::D),
        Ld8::E => Some(Register8::E),
        Ld8::H => Some(Register8::H),
        Ld8::L => Some(Register8::L),
        _ => None,
    }
}

/// The register pair an 8-bit load target names through memory, if any.
pub open spec fn load_pair(to: Ld8) -> Option<Register16> {
    match to {
        Ld8::Hl => Some(Register16::Hl),
        Ld8::Bc => Some(Register16::Bc),
        Ld8::De => Some(Register16::De),
        _ => None,
    }
}


/// Scheduling an instruction leaves the tick counter alone.
#[verifier::rlimit(60)]
proof fn lemma_scheduled_keeps_counter(s: ConsoleView, i: Instruction)
    ensures
        s.instruction_scheduled(i) matches Ok((t, _)) ==> t.keeps_units_of(s),
{
    match i {
        Instruction::Cb => {},
        Instruction::Control(op) => {},
        Instruction::Load16(op) => {},
        Instruction::Push(arg) => {},
        Instruction::Pop(arg) => {},
        Instruction::Load8(to, from) => {
            match from {
                Ld8::U8 => {},
                Ld8::U16 => {},
                Ld8::Ff00AddU8 => {},
                Ld8::Ff00AddC => {},
                Ld8::HlPlus => {},
                Ld8::HlMinus => {},
                _ => {},
            }
        },
        Instruction::Arithmetic16(op) => {},
        Instruction::Arithmetic8(op) => {},
        Instruction::JumpRelative(jr) => {},
        Instruction::Jump(jp) => {},
        Instruction::Restart(_) => {},
        Instruction::Return(ret) => {},
        Instruction::Call(_) => {},
        Instruction::BitOp(op) => {},
    }
}

/// Moves between registers leave the tick counter alone.
proof fn lemma_move_keeps_counter(s: ConsoleView, step: Step)
    ensures
        s.move_step_done(step) matches Ok(t) ==> t.keeps_units_of(s),
{
    match step {
        Step::Copy16(..) => {},
        Step::Load8(..) => {},
        Step::IncrementPc => {},
        Step::Increment16(..) => {},
        Step::Decrement16(..) => {},
        Step::StepUp16(..) => {},
        Step::StepDown16(..) => {},
        Step::PreviousPcToXy => {},
        Step::AddSpOffset => {},
        Step::JumpRelative => {},
        Step::JumpRelativeSigned => {},
        Step::RestartVector => {},
        _ => {},
    }
}

/// Arithmetic updates leave the tick counter alone.
proof fn lemma_alu_keeps_counter(s: ConsoleView, step: Step)
    ensures
        s.alu_step_done(step) matches Ok(t) ==> t.keeps_units_of(s),
{
    match step {
        Step::SubY => {},
        Step::SubOperand => {},
        Step::XorY => {},
        Step::XorOperand => {},
        Step::DecY => {},
        Step::DecFlags => {},
        Step::DecOperand => {},
        Step::IncY => {},
        Step::IncFlags => {},
        Step::IncOperand => {},
        Step::Add16Low => {},
        Step::Add16High => {},
        Step::Inc16Low => {},
        Step::Inc16High => {},
        Step::AddSpFlags => {},
        _ => {},
    }
}

/// Rotate, flag and bit updates leave the tick counter alone.
proof fn lemma_flag_keeps_counter(s: ConsoleView, step: Step)
    ensures
        s.flag_step_done(step) matches Ok(t) ==> t.keeps_units_of(s),
{
    match step {
        Step::Rla => {},
        Step::Ccf => {},
        Step::Scf => {},
        Step::Cpl => {},
        Step::Daa => {},
        Step::BitHl => {},
        Step::BitRegister => {},
        Step::ResetHl => {},
        Step::ResetRegister => {},
        Step::RlcHl => {},
        Step::RlcRegister => {},
        _ => {},
    }
}

/// Fetching and scheduling the next instruction leaves the tick counter alone.
proof fn lemma_fetch_keeps_counter(s: ConsoleView)
    ensures
        s.fetch_decoded() matches Ok(t) ==> t.keeps_units_of(s),
{
    reveal(ConsoleView::fetch_decoded);
    let pc = s.cpu.reg16(Register16::Pc);
    let opcode = s.ram.fetch(pc);
    let instruction = if s.cb_flag {
        Some(decoded_cb(opcode))
    } else {
        decoded(opcode)
    };
    if let Some(i) = instruction {
        let s1 = ConsoleView { cb_flag: false, cpu: s.cpu.with_reg16(Register16::Bus, pc), ..s };
        let s2 = if !s.cpu.halt_bug {
            s1.pushed(1, update(Step::IncrementPc))
        } else {
            s1
        };
        lemma_scheduled_keeps_counter(s2, i);
    }
}

/// Control updates leave the tick counter alone.
proof fn lemma_control_keeps_counter(s: ConsoleView, step: Step)
    ensures
        s.control_step_done(step) matches Ok(t) ==> t.keeps_units_of(s),
{
    match step {
        Step::EnableInterrupts => {},
        Step::Halt => {},
        Step::Stop => {},
        Step::BranchRelative => {},
        Step::BranchNoCarry => {},
        Step::BranchReturn => {},
        Step::BranchCall => {},
        Step::DispatchCb => {
            if let Instruction::BitOp(op) = decoded_cb(s.cpu.reg8(Register8::Y)) {
                lemma_scheduled_keeps_counter(s, Instruction::BitOp(op));
            }
        },
        Step::FetchDecodeExecute => lemma_fetch_keeps_counter(s),
        _ => {},
    }
}

/// A micro-operation leaves the tick counter alone.
proof fn lemma_command_keeps_counter(s: ConsoleView, c: Command)
    ensures
        s.command_done(c) matches Ok(t) ==> t.keeps_units_of(s),
{
    reveal(ConsoleView::command_done);
    if let Command::Update(step) = c {
        reveal(ConsoleView::step_done);
        match step {
            Step::Copy16(..) | Step::Load8(..) | Step::IncrementPc | Step::Increment16(..)
            | Step::Decrement16(..) | Step::StepUp16(..) | Step::StepDown16(..)
            | Step::PreviousPcToXy | Step::AddSpOffset | Step::JumpRelative
            | Step::JumpRelativeSigned | Step::RestartVector => lemma_move_keeps_counter(s, step),
            Step::SubY | Step::SubOperand | Step::XorY | Step::XorOperand | Step::DecY
            | Step::DecFlags | Step::DecOperand | Step::IncY | Step::IncFlags | Step::IncOperand
            | Step::Add16Low | Step::Add16High | Step::Inc16Low | Step::Inc16High
            | Step::AddSpFlags => lemma_alu_keeps_counter(s, step),
            Step::Rla | Step::Ccf | Step::Scf | Step::Cpl | Step::Daa | Step::BitHl
            | Step::BitRegister | Step::ResetHl | Step::ResetRegister | Step::RlcHl
            | Step::RlcRegister => lemma_flag_keeps_counter(s, step),
            _ => lemma_control_keeps_counter(s, step),
        }
    }
}

/// Running queued micro-operations leaves the tick counter alone.
proof fn lemma_commands_keep_counter(s: ConsoleView, commands: Seq<Command>)
    ensures
        s.commands_done(commands) matches Ok(t) ==> t.keeps_units_of(s),
    decreases commands.len(),
{
    if commands.len() > 0 {
        lemma_command_keeps_counter(s, commands[0]);
        if let Ok(t) = s.command_done(commands[0]) {
            lemma_commands_keep_counter(t, commands.drop_first());
        }
    }
}

/// A T-cycle of the CPU leaves the tick counter alone.
pub proof fn lemma_cpu_tick_keeps_counter(s: ConsoleView)
    ensures
        s.cpu_ticked() matches Ok(t) ==> t.keeps_units_of(s),
{
    if !s.cpu.is_stopped {
        lemma_fetch_keeps_counter(s);
        let fetched = if s.cpu.halt_bug {
            match s.fetch_decoded() {
                Ok(f) => Ok(f.with_cpu(CpuState { halt_bug: false, is_halted: false, ..f.cpu })),
                Err(e) => Err(e),
            }
        } else {
            Ok(s)
        };
        if let Ok(f) = fetched {
            let h = f.halt_checked();
            let t = h.tick_counter;
            if h.queue.contains_key(t) {
                lemma_commands_keep_counter(ConsoleView { queue: h.queue.remove(t), ..h }, h.queue[t]);
            }
        }
    }
}

/// Whether `r` and `after` are what scheduling `expected` gives.
pub open spec fn scheduled_as(
    r: Result<Option<u64>, Fault>,
    after: ConsoleView,
    expected: Result<(ConsoleView, Option<u64>), Fault>,
) -> bool {
    match expected {
        Ok((s, n)) => r == Ok::<Option<u64>, Fault>(n) && after == s,
        Err(f) => r == Err::<Option<u64>, Fault>(f),
    }
}

/// Whether `r` and `after` are what a machine update `expected` gives.
pub open spec fn done_as(r: Result<(), Fault>, after: ConsoleView, expected: Result<
    ConsoleView,
    Fault,
>) -> bool {
    match expected {
        Ok(s) => r == Ok::<(), Fault>(()) && after == s,
        Err(f) => r == Err::<(), Fault>(f),
    }
}

fn block_register(opcode: u8, base: u8) -> (r: Option<Register8>)
    ensures
        r == block_operand(opcode, base),
{
    if base <= opcode && opcode - base < 8 {
        register_operand(opcode - base)
    } else {
        None
    }
}

fn row_register(opcode: u8, column: u8) -> (r: Option<Register8>)
    ensures
        r == row_operand(opcode, column),
{
    if opcode < 0x40 && opcode % 8 == column {
        register_operand(opcode / 8)
    } else {
        None
    }
}

fn row_pair(opcode: u8, column: u8) -> (r: Option<Register16>)
    ensures
        r == pair_row(opcode, column),
{
    if opcode < 0x40 && opcode % 16 == column {
        pair_operand(opcode / 16)
    } else {
        None
    }
}

fn stack_registers(arg: PushPop) -> (r: (Register8, Register8))
    ensures
        r == stack_pair(arg),
{
    match arg {
        PushPop::Bc => (Register8::B, Register8::C),
        PushPop::De => (Register8::D, Register8::E),
        PushPop::Hl => (Register8::H, Register8::L),
        PushPop::Af => (Register8::A, Register8::F),
    }
}

fn target_register(to: Ld8) -> (r: Option<Register8>)
    ensures
        r == load_target(to),
{
    match to {
        Ld8::A => Some(Register8::A),
        Ld8::B => Some(Register8::B),
        Ld8::C => Some(Register8::C),
        Ld8::D => Some(Register8::D),
        Ld8::E => Some(Register8::E),
        Ld8::H => Some(Register8::H),
        Ld8::L => Some(Register8::L),
        _ => None,
    }
}

fn target_pair(to: Ld8) -> (r: Option<Register16>)
    ensures
        r == load_pair(to),
{
    match to {
        Ld8::Hl => Some(Register16::Hl),
        Ld8::Bc => Some(Register16::Bc),
        Ld8::De => Some(Register16::De),
        _ => None,
    }
}

impl Console {
    /// Push a command onto the queue at the current tick + tick offset.
    pub fn push_command(&mut self, tick_offset: u64, command: Command)
        requires
            old(self)@.tick_counter + tick_offset <= u64::MAX,
        ensures
            final(self)@ == old(self)@.pushed(tick_offset, command),
    {
        self.execution_queue.push_command_absolute(self.tick_counter + tick_offset, command);
    }

    /// Queue the next instruction at the specified tick offset.
    pub fn queue_next_instruction(&mut self, tick: u64)
        requires
            old(self)@.tick_counter + tick <= u64::MAX,
        ensures
            final(self)@ == old(self)@.next_queued(tick),
    {
        self.push_command(tick, Command::Update(Step::FetchDecodeExecute));
    }

    fn bus_opcode(&self) -> (r: u8)
        ensures
            r == self@.opcode_at_bus(),
    {
        self.ram.fetch(self.cpu.get_register_16(&Register16::Bus))
    }

    fn set_flags(&mut self, z: bool, n: bool, h: bool, c: bool)
        ensures
            final(self)@ == old(self)@.with_cpu(with_flags(old(self)@.cpu, z, n, h, c)),
    {
        self.cpu.set_flag(z, &Flags::Z);
        self.cpu.set_flag(n, &Flags::N);
        self.cpu.set_flag(h, &Flags::H);
        self.cpu.set_flag(c, &Flags::C);
    }

    /// Copy a byte from a source to a destination.
    fn run_read(&mut self, source: Source, destination: Destination)
        ensures
            final(self)@ == old(self)@.read_done(source, destination),
    {
        let value = match source {
            Source::Register(r) => self.cpu.get_register(&r),
            Source::RamFromRegister(r) => self.ram.fetch(self.cpu.get_register_16(&r)),
        };
        match destination {
            Destination::Register(r) => self.cpu.set_register(value, &r),
            Destination::RamFromRegister(r) => {
                let address = self.cpu.get_register_16(&r);
                self.ram.set(value, address);
            },
        }
    }

    fn apply_sub(&mut self, value: u8)
        ensures
            final(self)@ == old(self)@.sub_done(value),
    {
        let a_register = self.cpu.get_register(&Register8::A);
        let (result, half_carry, carry) = subtract(a_register, value);
        self.cpu.set_register(result, &Register8::A);
        self.set_flags(result == 0, true, half_carry, carry);
    }

    fn apply_xor(&mut self, value: u8)
        ensures
            final(self)@ == old(self)@.xor_done(value),
    {
        let a_register = self.cpu.get_register(&Register8::A);
        let result = a_register ^ value;
        self.cpu.set_register(result, &Register8::A);
        self.set_flags(result == 0, false, false, false);
    }

    fn apply_dec_flags(&mut self, result: u8)
        ensures
            final(self)@ == old(self)@.with_cpu(ConsoleView::dec_flags(old(self)@.cpu, result)),
    {
        self.cpu.set_flag(result == 0, &Flags::Z);
        self.cpu.set_flag(true, &Flags::N);
        self.cpu.set_flag(result % 16 == 15, &Flags::H);
    }

    fn apply_inc_flags(&mut self, result: u8)
        ensures
            final(self)@ == old(self)@.with_cpu(ConsoleView::inc_flags(old(self)@.cpu, result)),
    {
        self.cpu.set_flag(result == 0, &Flags::Z);
        self.cpu.set_flag(false, &Flags::N);
        self.cpu.set_flag(result % 16 == 0, &Flags::H);
    }

    fn apply_bit_test(&mut self, value: u8) -> (r: Result<(), Fault>)
        ensures
            done_as(r, final(self)@, old(self)@.bit_tested(value)),
    {
        let y = self.cpu.get_register(&Register8::Y);
        if y < 0x40 || y >= 0x80 {
            return Err(Fault::InvalidOperand);
        }
        // Map the instruction range 0x40-0x7F into 8 sections, 0-7
        let shift: u8 = (y - 0x40) / 8;
        // Shift the bit we're interested in into the 1's place and then mask it out
        let bit = (value >> shift) & 0b00000001;
        // The Z bit is set to the OPPOSITE of the bit
        self.cpu.set_flag(bit == 0, &Flags::Z);
        self.cpu.set_flag(false, &Flags::N);
        self.cpu.set_flag(true, &Flags::H);
        Ok(())
    }

    fn copy16(&mut self, from: Register16, to: Register16)
        ensures
            done_as(Ok(()), final(self)@, old(self)@.move_step_done(Step::Copy16(from, to))),
    {
        let v = self.cpu.get_register_16(&from);
        self.cpu.set_register_16(v, &to);
    }

    fn load8(&mut self, register: Register8, value: u8)
        ensures
            done_as(Ok(()), final(self)@, old(self)@.move_step_done(Step::Load8(register, value))),
    {
        self.cpu.set_register(value, &register);
    }

    /// Advance PC by one.
    pub fn command_increment_pc(&mut self)
        ensures
            done_as(Ok(()), final(self)@, old(self)@.move_step_done(Step::IncrementPc)),
    {
        let pc = self.cpu.get_register_16(&Register16::Pc);
        self.cpu.set_register_16(pc.wrapping_add(1), &Register16::Pc);
    }

    fn increment16(&mut self, register: Register16)
        ensures
            done_as(Ok(()), final(self)@, old(self)@.move_step_done(Step::Increment16(register))),
    {
        let v = self.cpu.get_register_16(&register);
        self.cpu.set_register_16(v.wrapping_add(1), &register);
    }

    fn decrement16(&mut self, register: Register16)
        ensures
            done_as(Ok(()), final(self)@, old(self)@.move_step_done(Step::Decrement16(register))),
    {
        let v = self.cpu.get_register_16(&register);
        self.cpu.set_register_16(v.wrapping_sub(1), &register);
    }

    fn step_up16(&mut self, register: Register16) -> (r: Result<(), Fault>)
        ensures
            done_as(r, final(self)@, old(self)@.move_step_done(Step::StepUp16(register))),
    {
        let v = self.cpu.get_register_16(&register);
        if v == 0xFFFF {
            return Err(Fault::RegisterOverflow);
        }
        self.cpu.set_register_16(v + 1, &register);
        Ok(())
    }

    fn step_down16(&mut self, register: Register16) -> (r: Result<(), Fault>)
        ensures
            done_as(r, final(self)@, old(self)@.move_step_done(Step::StepDown16(register))),
    {
        let v = self.cpu.get_register_16(&register);
        if v == 0 {
            return Err(Fault::RegisterOverflow);
        }
        self.cpu.set_register_16(v - 1, &register);
        Ok(())
    }

    fn previous_pc_to_xy(&mut self) -> (r: Result<(), Fault>)
        ensures
            done_as(r, final(self)@, old(self)@.move_step_done(Step::PreviousPcToXy)),
    {
        // Set xy to pc-1 so we can lookup which restart opcode was called
        let pc = self.cpu.get_register_16(&Register16::Pc);
        if pc == 0 {
            return Err(Fault::RegisterOverflow);
        }
        self.cpu.set_register_16(pc - 1, &Register16::Xy);
        Ok(())
    }

    fn jump_relative(&mut self, signed: bool)
        ensures
            done_as(
                Ok(()),
                final(self)@,
                old(self)@.move_step_done(
                    if signed {
                        Step::JumpRelativeSigned
                    } else {
                        Step::JumpRelative
                    },
                ),
            ),
    {
        let pc = self.cpu.get_register_16(&Register16::Pc);
        let x = self.cpu.get_register(&Register8::X);
        let target = if signed {
            add_signed(pc, x)
        } else {
            add_unsigned(pc, x)
        };
        self.cpu.set_register_16(target, &Register16::Pc);
    }

    fn add_sp_offset(&mut self)
        ensures
            done_as(Ok(()), final(self)@, old(self)@.move_step_done(Step::AddSpOffset)),
    {
        let sp = self.cpu.get_register_16(&Register16::Sp);
        let offset = self.cpu.get_register(&Register8::Y);
        self.cpu.set_register_16(add_signed(sp, offset), &Register16::Sp);
    }

    fn restart_vector(&mut self) -> (r: Result<(), Fault>)
        ensures
            done_as(r, final(self)@, old(self)@.move_step_done(Step::RestartVector)),
    {
        let xy = self.cpu.get_register_16(&Register16::Xy);
        match lookup_restart(self.ram.fetch(xy)) {
            Some(target) => {
                self.cpu.set_register(target, &Register8::PcLow);
                Ok(())
            },
            None => Err(Fault::InvalidOperand),
        }
    }

    fn apply_move_step(&mut self, step: Step) -> (r: Result<(), Fault>)
        ensures
            done_as(r, final(self)@, old(self)@.move_step_done(step)),
    {
        match step {
            Step::Copy16(from, to) => {
                self.copy16(from, to);
                Ok(())
            },
            Step::Load8(register, value) => {
                self.load8(register, value);
                Ok(())
            },
            Step::IncrementPc => {
                self.command_increment_pc();
                Ok(())
            },
            Step::Increment16(register) => {
                self.increment16(register);
                Ok(())
            },
            Step::Decrement16(register) => {
                self.decrement16(register);
                Ok(())
            },
            Step::StepUp16(register) => self.step_up16(register),
            Step::StepDown16(register) => self.step_down16(register),
            Step::PreviousPcToXy => self.previous_pc_to_xy(),
            Step::AddSpOffset => {
                self.add_sp_offset();
                Ok(())
            },
            Step::JumpRelative => {
                self.jump_relative(false);
                Ok(())
            },
            Step::JumpRelativeSigned => {
                self.jump_relative(true);
                Ok(())
            },
            Step::RestartVector => self.restart_vector(),
            _ => Err(Fault::InvalidOperand),
        }
    }

    fn sub_y(&mut self)
        ensures
            done_as(Ok(()), final(self)@, old(self)@.alu_step_done(Step::SubY)),
    {
        let y_register = self.cpu.get_register(&Register8::Y);
        self.apply_sub(y_register);
    }

    fn sub_operand(&mut self) -> (r: Result<(), Fault>)
        ensures
            done_as(r, final(self)@, old(self)@.alu_step_done(Step::SubOperand)),
    {
        match block_register(self.bus_opcode(), 0x90) {
            Some(register) => {
                let sub_register = self.cpu.get_register(&register);
                self.apply_sub(sub_register);
                Ok(())
            },
            None => Err(Fault::InvalidOperand),
        }
    }

    fn xor_y(&mut self)
        ensures
            done_as(Ok(()), final(self)@, old(self)@.alu_step_done(Step::XorY)),
    {
        let y_register = self.cpu.get_register(&Register8::Y);
        self.apply_xor(y_register);
    }

    fn xor_operand(&mut self) -> (r: Result<(), Fault>)
        ensures
            done_as(r, final(self)@, old(self)@.alu_step_done(Step::XorOperand)),
    {
        match block_register(self.bus_opcode(), 0xA8) {
            Some(register) => {
                let and_register = self.cpu.get_register(&register);
                self.apply_xor(and_register);
                Ok(())
            },
            None => Err(Fault::InvalidOperand),
        }
    }

    fn dec_y(&mut self)
        ensures
            done_as(Ok(()), final(self)@, old(self)@.alu_step_done(Step::DecY)),
    {
        let old_value = self.cpu.get_register(&Register8::Y);
        let (result, _) = decrement(old_value);
        self.cpu.set_register(result, &Register8::Y);
    }

    fn dec_flags_from_y(&mut self)
        ensures
            done_as(Ok(()), final(self)@, old(self)@.alu_step_done(Step::DecFlags)),
    {
        let result = self.cpu.get_register(&Register8::Y);
        self.apply_dec_flags(result);
    }

    fn dec_operand(&mut self) -> (r: Result<(), Fault>)
        ensures
            done_as(r, final(self)@, old(self)@.alu_step_done(Step::DecOperand)),
    {
        match row_register(self.bus_opcode(), 5) {
            Some(register) => {
                let old_value = self.cpu.get_register(&register);
                let (result, _) = decrement(old_value);
                self.cpu.set_register(result, &register);
                self.apply_dec_flags(result);
                Ok(())
            },
            None => Err(Fault::InvalidOperand),
        }
    }

    fn inc_y(&mut self)
        ensures
            done_as(Ok(()), final(self)@, old(self)@.alu_step_done(Step::IncY)),
    {
        let old_value = self.cpu.get_register(&Register8::Y);
        let (result, _) = add_bytes(old_value, 1);
        self.cpu.set_register(result, &Register8::Y);
    }

    fn inc_flags_from_y(&mut self)
        ensures
            done_as(Ok(()), final(self)@, old(self)@.alu_step_done(Step::IncFlags)),
    {
        let result = self.cpu.get_register(&Register8::Y);
        self.apply_inc_flags(result);
    }

    fn inc_operand(&mut self) -> (r: Result<(), Fault>)
        ensures
            done_as(r, final(self)@, old(self)@.alu_step_done(Step::IncOperand)),
    {
        match row_register(self.bus_opcode(), 4) {
            Some(register) => {
                let old_value = self.cpu.get_register(&register);
                let (result, _) = add_bytes(old_value, 1);
                self.cpu.set_register(result, &register);
                self.apply_inc_flags(result);
                Ok(())
            },
            None => Err(Fault::InvalidOperand),
        }
    }

    fn add16_low(&mut self) -> (r: Result<(), Fault>)
        ensures
            done_as(r, final(self)@, old(self)@.alu_step_done(Step::Add16Low)),
    {
        match row_pair(self.bus_opcode(), 9) {
            Some(pair) => {
                let (_, low) = pair.register16_to_register8();
                let add_register = self.cpu.get_register(&low);
                let l_register = self.cpu.get_register(&Register8::L);
                let (result, low_carry) = add_bytes(l_register, add_register);
                self.cpu.set_register(result, &Register8::L);
                self.cpu.set_flag(low_carry, &Flags::H);
                Ok(())
            },
            None => Err(Fault::InvalidOperand),
        }
    }

    fn add16_high(&mut self) -> (r: Result<(), Fault>)
        ensures
            done_as(r, final(self)@, old(self)@.alu_step_done(Step::Add16High)),
    {
        match row_pair(self.bus_opcode(), 9) {
            Some(pair) => {
                let (high, _) = pair.register16_to_register8();
                let add_register = self.cpu.get_register(&high);
                let h_register = self.cpu.get_register(&Register8::H);
                let low_carry = self.cpu.get_flag(&Flags::H);
                // The half-carry flag keeps the carry out of the low bytes.
                let (result, carry) = add_high(h_register, add_register, low_carry);
                self.cpu.set_register(result, &Register8::H);
                self.cpu.set_flag(false, &Flags::N);
                self.cpu.set_flag(carry, &Flags::C);
                Ok(())
            },
            None => Err(Fault::InvalidOperand),
        }
    }

    fn inc16_low(&mut self) -> (r: Result<(), Fault>)
        ensures
            done_as(r, final(self)@, old(self)@.alu_step_done(Step::Inc16Low)),
    {
        match row_pair(self.bus_opcode(), 3) {
            Some(pair) => {
                let (_, low) = pair.register16_to_register8();
                let (value, _) = add_bytes(self.cpu.get_register(&low), 1);
                self.cpu.set_register(value, &low);
                Ok(())
            },
            None => Err(Fault::InvalidOperand),
        }
    }

    fn inc16_high(&mut self) -> (r: Result<(), Fault>)
        ensures
            done_as(r, final(self)@, old(self)@.alu_step_done(Step::Inc16High)),
    {
        match row_pair(self.bus_opcode(), 3) {
            Some(pair) => {
                let (high, low) = pair.register16_to_register8();
                let carry = (self.cpu.get_register(&low) == 0) as u8;
                let (value, _) = add_bytes(self.cpu.get_register(&high), carry);
                self.cpu.set_register(value, &high);
                Ok(())
            },
            None => Err(Fault::InvalidOperand),
        }
    }

    fn add_sp_flags(&mut self)
        ensures
            done_as(Ok(()), final(self)@, old(self)@.alu_step_done(Step::AddSpFlags)),
    {
        let sp_low = self.cpu.get_register(&Register8::SpLow);
        let offset = self.cpu.get_register(&Register8::Y);
        let (half_carry, carry) = offset_flags(sp_low, offset);
        self.set_flags(false, false, half_carry, carry);
    }

    fn apply_alu_step(&mut self, step: Step) -> (r: Result<(), Fault>)
        ensures
            done_as(r, final(self)@, old(self)@.alu_step_done(step)),
    {
        match step {
            Step::SubY => {
                self.sub_y();
                Ok(())
            },
            Step::SubOperand => self.sub_operand(),
            Step::XorY => {
                self.xor_y();
                Ok(())
            },
            Step::XorOperand => self.xor_operand(),
            Step::DecY => {
                self.dec_y();
                Ok(())
            },
            Step::DecFlags => {
                self.dec_flags_from_y();
                Ok(())
            },
            Step::DecOperand => self.dec_operand(),
            Step::IncY => {
                self.inc_y();
                Ok(())
            },
            Step::IncFlags => {
                self.inc_flags_from_y();
                Ok(())
            },
            Step::IncOperand => self.inc_operand(),
            Step::Add16Low => self.add16_low(),
            Step::Add16High => self.add16_high(),
            Step::Inc16Low => self.inc16_low(),
            Step::Inc16High => self.inc16_high(),
            Step::AddSpFlags => {
                self.add_sp_flags();
                Ok(())
            },
            _ => Err(Fault::InvalidOperand),
        }
    }

    fn rla(&mut self)
        ensures
            done_as(Ok(()), final(self)@, old(self)@.flag_step_done(Step::Rla)),
    {
        let register_value = self.cpu.get_register(&Register8::A);
        let carry_flag = self.cpu.get_flag(&Flags::C);
        let (result, carry) = rotate_left(register_value, carry_flag);
        self.cpu.set_register(result, &Register8::A);
        self.set_flags(false, false, false, carry);
    }

    fn ccf(&mut self)
        ensures
            done_as(Ok(()), final(self)@, old(self)@.flag_step_done(Step::Ccf)),
    {
        let carry = self.cpu.get_flag(&Flags::C);
        self.cpu.set_flag(false, &Flags::N);
        self.cpu.set_flag(false, &Flags::H);
        self.cpu.set_flag(!carry, &Flags::C);
    }

    fn scf(&mut self)
        ensures
            done_as(Ok(()), final(self)@, old(self)@.flag_step_done(Step::Scf)),
    {
        self.cpu.set_flag(false, &Flags::N);
        self.cpu.set_flag(false, &Flags::H);
        self.cpu.set_flag(true, &Flags::C);
    }

    fn cpl(&mut self)
        ensures
            done_as(Ok(()), final(self)@, old(self)@.flag_step_done(Step::Cpl)),
    {
        let register = self.cpu.get_register(&Register8::A);
        self.cpu.set_register(!register, &Register8::A);
        self.cpu.set_flag(true, &Flags::N);
        self.cpu.set_flag(true, &Flags::H);
    }

    fn daa(&mut self)
        ensures
            done_as(Ok(()), final(self)@, old(self)@.flag_step_done(Step::Daa)),
    {
        let register = self.cpu.get_register(&Register8::A);
        let carry = self.cpu.get_flag(&Flags::C);
        let half_carry = self.cpu.get_flag(&Flags::H);
        let sub = self.cpu.get_flag(&Flags::N);
        let (result, should_carry) = decimal_adjust(register, sub, half_carry, carry);
        self.cpu.set_register(result, &Register8::A);
        self.cpu.set_flag(result == 0, &Flags::Z);
        self.cpu.set_flag(false, &Flags::H);
        self.cpu.set_flag(should_carry, &Flags::C);
    }

    fn bit_hl(&mut self) -> (r: Result<(), Fault>)
        ensures
            done_as(r, final(self)@, old(self)@.flag_step_done(Step::BitHl)),
    {
        let ram_value = self.bus_opcode();
        self.apply_bit_test(ram_value)
    }

    fn bit_register(&mut self) -> (r: Result<(), Fault>)
        ensures
            done_as(r, final(self)@, old(self)@.flag_step_done(Step::BitRegister)),
    {
        let y = self.cpu.get_register(&Register8::Y);
        match register_operand(y % 8) {
            Some(register) => {
                let register_value = self.cpu.get_register(&register);
                self.apply_bit_test(register_value)
            },
            None => Err(Fault::InvalidOperand),
        }
    }

    fn reset_hl(&mut self) -> (r: Result<(), Fault>)
        ensures
            done_as(r, final(self)@, old(self)@.flag_step_done(Step::ResetHl)),
    {
        let ram_value = self.bus_opcode();
        let y = self.cpu.get_register(&Register8::Y);
        if y < 0x80 {
            return Err(Fault::InvalidOperand);
        }
        let shift: u8 = (y - 0x80) / 8;
        let mask = mask(shift);
        let hl = self.cpu.get_register_16(&Register16::Hl);
        self.ram.set(ram_value & mask, hl);
        Ok(())
    }

    fn reset_register(&mut self) -> (r: Result<(), Fault>)
        ensures
            done_as(r, final(self)@, old(self)@.flag_step_done(Step::ResetRegister)),
    {
        let y = self.cpu.get_register(&Register8::Y);
        match register_operand(y % 8) {
            Some(register) => {
                if y < 0x80 {
                    return Err(Fault::InvalidOperand);
                }
                let register_value = self.cpu.get_register(&register);
                let shift: u8 = (y - 0x80) / 8;
                let mask = mask(shift);
                self.cpu.set_register(register_value & mask, &register);
                Ok(())
            },
            None => Err(Fault::InvalidOperand),
        }
    }

    fn rlc_hl(&mut self)
        ensures
            done_as(Ok(()), final(self)@, old(self)@.flag_step_done(Step::RlcHl)),
    {
        let ram_value = self.bus_opcode();
        let (result, carry) = rotate_left(ram_value, ram_value >= 128);
        let bus = self.cpu.get_register_16(&Register16::Bus);
        self.ram.set(result, bus);
        self.set_flags(ram_value == 0, false, false, carry);
    }

    fn rlc_register(&mut self) -> (r: Result<(), Fault>)
        ensures
            done_as(r, final(self)@, old(self)@.flag_step_done(Step::RlcRegister)),
    {
        let y = self.cpu.get_register(&Register8::Y);
        let operand = if y % 16 < 8 {
            register_operand(y % 16)
        } else {
            None
        };
        match operand {
            Some(register) => {
                let register_value = self.cpu.get_register(&register);
                let (result, carry) = rotate_left(register_value, register_value >= 128);
                self.cpu.set_register(result, &register);
                self.set_flags(register_value == 0, false, false, carry);
                Ok(())
            },
            None => Err(Fault::InvalidOperand),
        }
    }

    fn apply_flag_step(&mut self, step: Step) -> (r: Result<(), Fault>)
        ensures
            done_as(r, final(self)@, old(self)@.flag_step_done(step)),
    {
        match step {
            Step::Rla => {
                self.rla();
                Ok(())
            },
            Step::Ccf => {
                self.ccf();
                Ok(())
            },
            Step::Scf => {
                self.scf();
                Ok(())
            },
            Step::Cpl => {
                self.cpl();
                Ok(())
            },
            Step::Daa => {
                self.daa();
                Ok(())
            },
            Step::BitHl => self.bit_hl(),
            Step::BitRegister => self.bit_register(),
            Step::ResetHl => self.reset_hl(),
            Step::ResetRegister => self.reset_register(),
            Step::RlcHl => {
                self.rlc_hl();
                Ok(())
            },
            Step::RlcRegister => self.rlc_register(),
            _ => Err(Fault::InvalidOperand),
        }
    }

    fn bus_from_register(&mut self, offset: u64, register: Register16)
        requires
            old(self)@.tick_counter + offset <= u64::MAX,
        ensures
            final(self)@ == old(self)@.pushed(offset, bus_from(register)),
    {
        self.push_command(offset, Command::Update(Step::Copy16(register, Register16::Bus)));
    }

    fn read_bus_into_register(&mut self, offset: u64, register: Register8)
        requires
            old(self)@.tick_counter + offset <= u64::MAX,
        ensures
            final(self)@ == old(self)@.pushed(offset, read_bus_into(register)),
    {
        self.push_command(
            offset,
            Command::Read(Source::RamFromRegister(Register16::Bus), Destination::Register(register)),
        );
    }

    fn write_bus_from_register(&mut self, offset: u64, register: Register8)
        requires
            old(self)@.tick_counter + offset <= u64::MAX,
        ensures
            final(self)@ == old(self)@.pushed(offset, write_bus_from(register)),
    {
        self.push_command(
            offset,
            Command::Read(Source::Register(register), Destination::RamFromRegister(Register16::Bus)),
        );
    }

    fn copy_register(&mut self, offset: u64, from: Register8, to: Register8)
        requires
            old(self)@.tick_counter + offset <= u64::MAX,
        ensures
            final(self)@ == old(self)@.pushed(offset, copy8(from, to)),
    {
        self.push_command(offset, Command::Read(Source::Register(from), Destination::Register(to)));
    }

    fn update_at(&mut self, offset: u64, step: Step)
        requires
            old(self)@.tick_counter + offset <= u64::MAX,
        ensures
            final(self)@ == old(self)@.pushed(offset, update(step)),
    {
        self.push_command(offset, Command::Update(step));
    }

    /// Read the two bytes after the opcode into `low` and then `high`.
    fn read_immediate16(&mut self, low: Register8, high: Register8)
        requires
            old(self)@.has_headroom(),
        ensures
            final(self)@ == old(self)@.immediate16_read(low, high),
    {
        self.bus_from_register(3, Register16::Pc);
        self.update_at(4, Step::IncrementPc);
        self.read_bus_into_register(5, low);
        self.bus_from_register(6, Register16::Pc);
        self.update_at(7, Step::IncrementPc);
        self.read_bus_into_register(8, high);
    }

    /// Read the byte after a CB prefix and dispatch it.
    pub fn instruction_cb(&mut self) -> (r: Option<u64>)
        requires
            old(self)@.has_headroom(),
        ensures
            r matches Some(n) ==> 3 <= n <= 20,
            (final(self)@, r) == old(self)@.cb_scheduled(),
    {
        self.bus_from_register(3, Register16::Pc);
        self.update_at(4, Step::IncrementPc);
        self.read_bus_into_register(5, Register8::Y);
        self.update_at(5, Step::DispatchCb);
        None
    }

    pub fn instruction_control(&mut self, control_op: ControlOps) -> (r: Result<Option<u64>, Fault>)
        requires
            old(self)@.has_headroom(),
        ensures
            r matches Ok(Some(n)) ==> 3 <= n <= 20,
            scheduled_as(r, final(self)@, old(self)@.control_scheduled(control_op)),
    {
        match control_op {
            ControlOps::Nop => Ok(Some(4)),
            ControlOps::Stop => Ok(self.stop()),
            ControlOps::Halt => Ok(self.halt()),
            ControlOps::Di => Err(Fault::UnsupportedInstruction),
            ControlOps::Ei => Ok(self.ei()),
            ControlOps::Daa => {
                self.update_at(3, Step::Daa);
                Ok(Some(4))
            },
            ControlOps::Scf => {
                self.update_at(3, Step::Scf);
                Ok(Some(4))
            },
            ControlOps::Cpl => {
                self.update_at(3, Step::Cpl);
                Ok(Some(4))
            },
            ControlOps::Ccf => {
                self.update_at(3, Step::Ccf);
                Ok(Some(4))
            },
        }
    }

    /// STOP: skip the operand byte, then stop the CPU.
    fn stop(&mut self) -> (r: Option<u64>)
        requires
            old(self)@.has_headroom(),
        ensures
            Ok::<(ConsoleView, Option<u64>), Fault>((final(self)@, r)) == old(self)@.control_scheduled(
                ControlOps::Stop,
            ),
    {
        self.bus_from_register(3, Register16::Pc);
        self.update_at(4, Step::IncrementPc);
        self.update_at(7, Step::Stop);
        Some(8)
    }

    /// HALT: halt the CPU; it runs on when an interrupt is requested.
    fn halt(&mut self) -> (r: Option<u64>)
        requires
            old(self)@.has_headroom(),
        ensures
            Ok::<(ConsoleView, Option<u64>), Fault>((final(self)@, r)) == old(self)@.control_scheduled(
                ControlOps::Halt,
            ),
    {
        self.update_at(3, Step::Halt);
        None
    }

    /// EI: enable interrupts.
    fn ei(&mut self) -> (r: Option<u64>)
        requires
            old(self)@.has_headroom(),
        ensures
            Ok::<(ConsoleView, Option<u64>), Fault>((final(self)@, r)) == old(self)@.control_scheduled(
                ControlOps::Ei,
            ),
    {
        self.update_at(3, Step::EnableInterrupts);
        Some(4)
    }

    pub fn instruction_load16(&mut self, ld16: Ld16) -> (r: Option<u64>)
        requires
            old(self)@.has_headroom(),
        ensures
            r matches Some(n) ==> 3 <= n <= 20,
            (final(self)@, r) == old(self)@.load16_scheduled(ld16),
    {
        match ld16 {
            Ld16::BcU16 => self.u16_to_register(Register16::Bc),
            Ld16::DeU16 => self.u16_to_register(Register16::De),
            Ld16::HlU16 => self.u16_to_register(Register16::Hl),
            Ld16::SpU16 => self.u16_to_register(Register16::Sp),
            Ld16::U16Sp => self.u16sp(),
            Ld16::SpHl => self.sphl(),
        }
    }

    fn u16_to_register(&mut self, register: Register16) -> (r: Option<u64>)
        requires
            old(self)@.has_headroom(),
            register == Register16::Bc || register == Register16::De || register == Register16::Hl
                || register == Register16::Sp,
        ensures
            r matches Some(n) ==> 3 <= n <= 20,
            (final(self)@, r) == (old(self)@.immediate16_read(register.halves().1, register.halves().0), Some(12u64)),
    {
        let (high, low) = register.register16_to_register8();
        self.read_immediate16(low, high);
        Some(12)
    }

    fn u16sp(&mut self) -> (r: Option<u64>)
        requires
            old(self)@.has_headroom(),
        ensures
            r matches Some(n) ==> 3 <= n <= 20,
            (final(self)@, r) == old(self)@.load16_scheduled(Ld16::U16Sp),
    {
        self.read_immediate16(Register8::Y, Register8::X);
        self.bus_from_register(9, Register16::Xy);
        self.write_bus_from_register(12, Register8::SpLow);
        self.update_at(13, Step::StepUp16(Register16::Xy));
        self.bus_from_register(14, Register16::Xy);
        self.write_bus_from_register(16, Register8::SpHigh);
        Some(20)
    }

    fn sphl(&mut self) -> (r: Option<u64>)
        requires
            old(self)@.has_headroom(),
        ensures
            r matches Some(n) ==> 3 <= n <= 20,
            (final(self)@, r) == old(self)@.load16_scheduled(Ld16::SpHl),
    {
        self.copy_register(3, Register8::H, Register8::SpHigh);
        self.copy_register(4, Register8::L, Register8::SpLow);
        Some(8)
    }

    pub fn stack_push16(&mut self, arg: PushPop) -> (r: Option<u64>)
        requires
            old(self)@.has_headroom(),
        ensures
            r matches Some(n) ==> 3 <= n <= 20,
            (final(self)@, r) == old(self)@.push_scheduled(arg),
    {
        let (high, low) = stack_registers(arg);
        self.bus_from_register(8, Register16::Sp);
        self.write_bus_from_register(9, low);
        self.update_at(10, Step::StepDown16(Register16::Sp));
        self.bus_from_register(12, Register16::Sp);
        self.write_bus_from_register(13, high);
        self.update_at(14, Step::StepDown16(Register16::Sp));
        Some(16)
    }

    pub fn stack_pop16(&mut self, arg: PushPop) -> (r: Option<u64>)
        requires
            old(self)@.has_headroom(),
        ensures
            r matches Some(n) ==> 3 <= n <= 20,
            (final(self)@, r) == old(self)@.pop_scheduled(arg),
    {
        let (high, low) = stack_registers(arg);
        self.bus_from_register(3, Register16::Sp);
        self.update_at(4, Step::Increment16(Register16::Sp));
        self.read_bus_into_register(5, low);
        self.bus_from_register(6, Register16::Sp);
        self.update_at(7, Step::Increment16(Register16::Sp));
        self.read_bus_into_register(8, high);
        Some(12)
    }

    pub fn instruction_load8(&mut self, to: Ld8, from: Ld8) -> (r: Result<Option<u64>, Fault>)
        requires
            old(self)@.has_headroom(),
        ensures
            r matches Ok(Some(n)) ==> 3 <= n <= 20,
            scheduled_as(r, final(self)@, old(self)@.load8_scheduled(to, from)),
    {
        match from {
            Ld8::A => self.go_from_register8(to, Register8::A),
            Ld8::B => self.go_from_register8(to, Register8::B),
            Ld8::C => self.go_from_register8(to, Register8::C),
            Ld8::D => self.go_from_register8(to, Register8::D),
            Ld8::E => self.go_from_register8(to, Register8::E),
            Ld8::H => self.go_from_register8(to, Register8::H),
            Ld8::L => self.go_from_register8(to, Register8::L),
            Ld8::Hl => self.go_from_register16(to, Register16::Hl),
            Ld8::HlPlus => self.go_from_hl(to, true),
            Ld8::HlMinus => self.go_from_hl(to, false),
            Ld8::Bc => self.go_from_register16(to, Register16::Bc),
            Ld8::De => self.go_from_register16(to, Register16::De),
            Ld8::U16 => self.go_from_u16(to),
            Ld8::U8 => self.go_from_u8(to),
            Ld8::Ff00AddU8 => self.go_from_ff00(to, false),
            Ld8::Ff00AddC => self.go_from_ff00(to, true),
        }
    }

    fn hl_step_at(&mut self, offset: u64, plus: bool)
        requires
            old(self)@.tick_counter + offset <= u64::MAX,
        ensures
            final(self)@ == old(self)@.pushed(offset, ConsoleView::hl_step(plus)),
    {
        if plus {
            self.update_at(offset, Step::StepUp16(Register16::Hl));
        } else {
            self.update_at(offset, Step::StepDown16(Register16::Hl));
        }
    }

    /// LD (rr),r.
    fn to_register16(&mut self, to: Register16, from: Register8) -> (r: Option<u64>)
        requires
            old(self)@.has_headroom(),
        ensures
            r matches Some(n) ==> 3 <= n <= 20,
            (final(self)@, r) == old(self)@.to_pair_scheduled(to, from),
    {
        let (high, low) = to.register16_to_register8();
        self.copy_register(3, high, Register8::BusHigh);
        self.copy_register(3, low, Register8::BusLow);
        self.write_bus_from_register(4, from);
        Some(8)
    }

    /// LD to anywhere from an 8-bit register.
    pub fn go_from_register8(&mut self, to: Ld8, from: Register8) -> (r: Result<Option<u64>, Fault>)
        requires
            old(self)@.has_headroom(),
        ensures
            r matches Ok(Some(n)) ==> 3 <= n <= 20,
            scheduled_as(r, final(self)@, old(self)@.from_register8_scheduled(to, from)),
    {
        if let Some(target) = target_register(to) {
            self.copy_register(3, from, target);
            return Ok(Some(4));
        }
        match to {
            Ld8::Hl => Ok(self.to_register16(Register16::Hl, from)),
            Ld8::Bc => Ok(self.to_register16(Register16::Bc, from)),
            Ld8::De => Ok(self.to_register16(Register16::De, from)),
            Ld8::HlPlus | Ld8::HlMinus => {
                self.bus_from_register(3, Register16::Hl);
                self.write_bus_from_register(4, from);
                // Is it HL Plus or Minus
                self.hl_step_at(5, to == Ld8::HlPlus);
                Ok(Some(8))
            },
            Ld8::U16 => {
                self.read_immediate16(Register8::Y, Register8::X);
                self.bus_from_register(9, Register16::Xy);
                self.write_bus_from_register(12, Register8::A);
                Ok(Some(16))
            },
            Ld8::Ff00AddC => {
                self.copy_register(3, Register8::C, Register8::Y);
                self.update_at(4, Step::Load8(Register8::X, 0xFF));
                self.bus_from_register(5, Register16::Xy);
                self.push_command(
                    6,
                    Command::Read(Source::Register(from), Destination::RamFromRegister(Register16::Xy)),
                );
                Ok(Some(8))
            },
            Ld8::Ff00AddU8 => {
                self.bus_from_register(3, Register16::Pc);
                self.update_at(4, Step::IncrementPc);
                self.read_bus_into_register(5, Register8::Y);
                self.update_at(6, Step::Load8(Register8::X, 0xFF));
                self.bus_from_register(7, Register16::Xy);
                self.push_command(
                    8,
                    Command::Read(Source::Register(from), Destination::RamFromRegister(Register16::Xy)),
                );
                Ok(Some(12))
            },
            _ => Err(Fault::UnsupportedInstruction),
        }
    }

    /// LD r,(rr).
    pub fn go_from_register16(&mut self, to: Ld8, from: Register16) -> (r: Result<Option<u64>, Fault>)
        requires
            old(self)@.has_headroom(),
        ensures
            r matches Ok(Some(n)) ==> 3 <= n <= 20,
            scheduled_as(r, final(self)@, old(self)@.from_register16_scheduled(to, from)),
    {
        match target_register(to) {
            Some(target) => {
                let (high, low) = from.register16_to_register8();
                self.copy_register(3, high, Register8::BusHigh);
                self.copy_register(3, low, Register8::BusLow);
                self.read_bus_into_register(4, target);
                Ok(Some(8))
            },
            None => Err(Fault::UnsupportedInstruction),
        }
    }

    /// LD r,(HL+) and LD r,(HL-).
    pub fn go_from_hl(&mut self, to: Ld8, plus: bool) -> (r: Result<Option<u64>, Fault>)
        requires
            old(self)@.has_headroom(),
        ensures
            r matches Ok(Some(n)) ==> 3 <= n <= 20,
            scheduled_as(r, final(self)@, old(self)@.from_hl_scheduled(to, plus)),
    {
        match target_register(to) {
            Some(target) => {
                self.bus_from_register(3, Register16::Hl);
                self.push_command(
                    4,
                    Command::Read(Source::RamFromRegister(Register16::Hl), Destination::Register(target)),
                );
                self.hl_step_at(5, plus);
                Ok(Some(8))
            },
            None => Err(Fault::UnsupportedInstruction),
        }
    }

    /// LD r,(u16).
    pub fn go_from_u16(&mut self, to: Ld8) -> (r: Result<Option<u64>, Fault>)
        requires
            old(self)@.has_headroom(),
        ensures
            r matches Ok(Some(n)) ==> 3 <= n <= 20,
            scheduled_as(r, final(self)@, old(self)@.from_u16_scheduled(to)),
    {
        match target_register(to) {
            Some(target) => {
                self.read_immediate16(Register8::Y, Register8::X);
                self.bus_from_register(9, Register16::Xy);
                self.read_bus_into_register(12, target);
                Ok(Some(16))
            },
            None => Err(Fault::UnsupportedInstruction),
        }
    }

    /// LD r,u8 and LD (rr),u8.
    pub fn go_from_u8(&mut self, to: Ld8) -> (r: Result<Option<u64>, Fault>)
        requires
            old(self)@.has_headroom(),
        ensures
            r matches Ok(Some(n)) ==> 3 <= n <= 20,
            scheduled_as(r, final(self)@, old(self)@.from_u8_scheduled(to)),
    {
        let target = target_register(to);
        let pair = target_pair(to);
        if target.is_none() && pair.is_none() {
            return Err(Fault::UnsupportedInstruction);
        }
        self.bus_from_register(3, Register16::Pc);
        self.update_at(4, Step::IncrementPc);
        match target {
            Some(register) => {
                self.read_bus_into_register(5, register);
                Ok(Some(8))
            },
            None => match pair {
                Some(pair) => {
                    let (high, low) = pair.register16_to_register8();
                    self.read_bus_into_register(5, Register8::Y);
                    self.copy_register(6, low, Register8::BusLow);
                    self.copy_register(6, high, Register8::BusHigh);
                    self.write_bus_from_register(8, Register8::Y);
                    self.write_bus_from_register(7, Register8::Y);
                    Ok(Some(12))
                },
                None => Err(Fault::UnsupportedInstruction),
            },
        }
    }

    /// LDH r,(0xFF00 + C) and LDH r,(0xFF00 + u8).
    pub fn go_from_ff00(&mut self, to: Ld8, plus_c: bool) -> (r: Result<Option<u64>, Fault>)
        requires
            old(self)@.has_headroom(),
        ensures
            r matches Ok(Some(n)) ==> 3 <= n <= 20,
            scheduled_as(r, final(self)@, old(self)@.from_ff00_scheduled(to, plus_c)),
    {
        match target_register(to) {
            Some(target) => {
                if plus_c {
                    self.copy_register(3, Register8::C, Register8::Y);
                    self.update_at(4, Step::Load8(Register8::X, 0xFF));
                    self.bus_from_register(5, Register16::Xy);
                    self.read_bus_into_register(6, target);
                    Ok(Some(8))
                } else {
                    self.bus_from_register(3, Register16::Pc);
                    self.update_at(4, Step::IncrementPc);
                    self.read_bus_into_register(5, Register8::Y);
                    self.update_at(6, Step::Load8(Register8::X, 0xFF));
                    self.bus_from_register(7, Register16::Xy);
                    self.read_bus_into_register(8, Register8::A);
                    Ok(Some(12))
                }
            },
            None => Err(Fault::UnsupportedInstruction),
        }
    }

    pub fn instruction_alu16(&mut self, op: A16Ops) -> (r: Result<Option<u64>, Fault>)
        requires
            old(self)@.has_headroom(),
        ensures
            r matches Ok(Some(n)) ==> 3 <= n <= 20,
            scheduled_as(r, final(self)@, old(self)@.alu16_scheduled(op)),
    {
        match op {
            A16Ops::Inc(_) => Ok(self.inc16()),
            A16Ops::Add(_) => Ok(self.add16()),
            A16Ops::AddI8 => Ok(self.add_i8()),
            _ => Err(Fault::UnsupportedInstruction),
        }
    }

    /// INC rr: the low byte, then the high byte with the carry.
    pub fn inc16(&mut self) -> (r: Option<u64>)
        requires
            old(self)@.has_headroom(),
        ensures
            r matches Some(n) ==> 3 <= n <= 20,
            (final(self)@, r) == (old(self)@.pushed(3, update(Step::Inc16Low)).pushed(
                4,
                update(Step::Inc16High),
            ), Some(8u64)),
    {
        self.update_at(3, Step::Inc16Low);
        self.update_at(4, Step::Inc16High);
        Some(8)
    }

    /// ADD HL,rr: the low bytes, then the high bytes with the carry.
    pub fn add16(&mut self) -> (r: Option<u64>)
        requires
            old(self)@.has_headroom(),
        ensures
            r matches Some(n) ==> 3 <= n <= 20,
            (final(self)@, r) == (old(self)@.pushed(3, update(Step::Add16Low)).pushed(
                4,
                update(Step::Add16High),
            ), Some(8u64)),
    {
        self.update_at(3, Step::Add16Low);
        self.update_at(4, Step::Add16High);
        Some(8)
    }

    /// ADD SP,i8.
    pub fn add_i8(&mut self) -> (r: Option<u64>)
        requires
            old(self)@.has_headroom(),
        ensures
            r matches Some(n) ==> 3 <= n <= 20,
            (final(self)@, r) == old(self)@.alu16_scheduled(A16Ops::AddI8)->Ok_0,
    {
        self.bus_from_register(3, Register16::Pc);
        self.update_at(4, Step::IncrementPc);
        self.read_bus_into_register(5, Register8::Y);
        self.update_at(6, Step::Load8(Register8::X, 0));
        self.update_at(7, Step::AddSpFlags);
        self.update_at(8, Step::AddSpOffset);
        Some(16)
    }

    pub fn instruction_alu8(&mut self, op: A8Ops) -> (r: Result<Option<u64>, Fault>)
        requires
            old(self)@.has_headroom(),
        ensures
            r matches Ok(Some(n)) ==> 3 <= n <= 20,
            scheduled_as(r, final(self)@, old(self)@.alu8_scheduled(op)),
    {
        match op {
            A8Ops::Inc(a8_args) => self.inc8(a8_args),
            A8Ops::Dec(a8_args) => self.dec8(a8_args),
            A8Ops::Sub(a8_args) => Ok(self.sub8(a8_args)),
            A8Ops::Xor(a8_args) => Ok(self.xor8(a8_args)),
            _ => Err(Fault::UnsupportedInstruction),
        }
    }

    fn combine8(&mut self, arg: A8Args, with_y: Step, with_operand: Step) -> (r: Option<u64>)
        requires
            old(self)@.has_headroom(),
        ensures
            r matches Some(n) ==> 3 <= n <= 20,
            (final(self)@, r) == old(self)@.combine_scheduled(arg, with_y, with_operand),
    {
        match arg {
            A8Args::HL => {
                self.bus_from_register(3, Register16::Hl);
                self.read_bus_into_register(4, Register8::Y);
                self.update_at(5, with_y);
                Some(8)
            },
            A8Args::U8 => {
                self.bus_from_register(3, Register16::Pc);
                self.update_at(4, Step::IncrementPc);
                self.read_bus_into_register(5, Register8::Y);
                self.update_at(6, with_y);
                Some(8)
            },
            _ => {
                self.update_at(3, with_operand);
                Some(4)
            },
        }
    }

    /// SUB A,x.
    pub fn sub8(&mut self, arg: A8Args) -> (r: Option<u64>)
        requires
            old(self)@.has_headroom(),
        ensures
            r matches Some(n) ==> 3 <= n <= 20,
            (final(self)@, r) == old(self)@.combine_scheduled(arg, Step::SubY, Step::SubOperand),
    {
        self.combine8(arg, Step::SubY, Step::SubOperand)
    }

    /// XOR A,x.
    pub fn xor8(&mut self, arg: A8Args) -> (r: Option<u64>)
        requires
            old(self)@.has_headroom(),
        ensures
            r matches Some(n) ==> 3 <= n <= 20,
            (final(self)@, r) == old(self)@.combine_scheduled(arg, Step::XorY, Step::XorOperand),
    {
        self.combine8(arg, Step::XorY, Step::XorOperand)
    }

    /// DEC r and DEC (HL).
    pub fn dec8(&mut self, arg: A8Args) -> (r: Result<Option<u64>, Fault>)
        requires
            old(self)@.has_headroom(),
        ensures
            r matches Ok(Some(n)) ==> 3 <= n <= 20,
            scheduled_as(r, final(self)@, old(self)@.dec8_scheduled(arg)),
    {
        match arg {
            A8Args::HL => {
                self.bus_from_register(3, Register16::Hl);
                self.read_bus_into_register(4, Register8::Y);
                self.update_at(5, Step::DecY);
                self.write_bus_from_register(8, Register8::Y);
                self.update_at(8, Step::DecFlags);
                Ok(Some(12))
            },
            A8Args::U8 => Err(Fault::UnsupportedInstruction),
            _ => {
                self.update_at(3, Step::DecOperand);
                Ok(Some(4))
            },
        }
    }

    /// INC r and INC (HL).
    pub fn inc8(&mut self, arg: A8Args) -> (r: Result<Option<u64>, Fault>)
        requires
            old(self)@.has_headroom(),
        ensures
            r matches Ok(Some(n)) ==> 3 <= n <= 20,
            scheduled_as(r, final(self)@, old(self)@.inc8_scheduled(arg)),
    {
        match arg {
            A8Args::HL => {
                self.bus_from_register(3, Register16::Hl);
                self.read_bus_into_register(4, Register8::Y);
                self.update_at(5, Step::IncY);
                self.write_bus_from_register(8, Register8::Y);
                self.update_at(8, Step::IncFlags);
                Ok(Some(12))
            },
            A8Args::U8 => Err(Fault::UnsupportedInstruction),
            _ => {
                self.update_at(3, Step::IncOperand);
                Ok(Some(4))
            },
        }
    }

    pub fn instruction_jr(&mut self, jr: JR) -> (r: Option<u64>)
        requires
            old(self)@.has_headroom(),
        ensures
            r matches Some(n) ==> 3 <= n <= 20,
            (final(self)@, r) == (if jr == JR::I8 {
                old(self)@.jr_i8_scheduled()
            } else {
                old(self)@.jr_flag_scheduled()
            }),
    {
        if let JR::I8 = jr {
            self.jr_i8()
        } else {
            self.jr_flag()
        }
    }

    /// JR i8.
    pub fn jr_i8(&mut self) -> (r: Option<u64>)
        requires
            old(self)@.has_headroom(),
        ensures
            r matches Some(n) ==> 3 <= n <= 20,
            (final(self)@, r) == old(self)@.jr_i8_scheduled(),
    {
        self.bus_from_register(3, Register16::Pc);
        self.update_at(4, Step::IncrementPc);
        self.read_bus_into_register(5, Register8::X);
        self.update_at(6, Step::JumpRelative);
        Some(12)
    }

    /// JR cc,i8.
    pub fn jr_flag(&mut self) -> (r: Option<u64>)
        requires
            old(self)@.has_headroom(),
        ensures
            r matches Some(n) ==> 3 <= n <= 20,
            (final(self)@, r) == old(self)@.jr_flag_scheduled(),
    {
        self.bus_from_register(3, Register16::Pc);
        self.update_at(4, Step::IncrementPc);
        self.read_bus_into_register(5, Register8::X);
        self.update_at(6, Step::BranchRelative);
        None
    }

    pub fn instruction_jump(&mut self, jump: JP) -> (r: Result<Option<u64>, Fault>)
        requires
            old(self)@.has_headroom(),
        ensures
            r matches Ok(Some(n)) ==> 3 <= n <= 20,
            scheduled_as(r, final(self)@, old(self)@.instruction_scheduled(Instruction::Jump(jump))),
    {
        match jump {
            JP::HL => Ok(self.hl()),
            JP::Nc => Ok(self.nc()),
            _ => Err(Fault::UnsupportedInstruction),
        }
    }

    /// JP HL.
    pub fn hl(&mut self) -> (r: Option<u64>)
        requires
            old(self)@.has_headroom(),
        ensures
            r matches Some(n) ==> 3 <= n <= 20,
            (final(self)@, r) == (old(self)@.pushed(
                3,
                update(Step::Copy16(Register16::Hl, Register16::Pc)),
            ), Some(4u64)),
    {
        self.update_at(3, Step::Copy16(Register16::Hl, Register16::Pc));
        Some(4)
    }

    /// JP NC,u16.
    pub fn nc(&mut self) -> (r: Option<u64>)
        requires
            old(self)@.has_headroom(),
        ensures
            r matches Some(n) ==> 3 <= n <= 20,
            (final(self)@, r) == old(self)@.jump_nc_scheduled(),
    {
        self.read_immediate16(Register8::Y, Register8::X);
        self.update_at(9, Step::BranchNoCarry);
        None
    }

    /// RST.
    pub fn instruction_restart(&mut self) -> (r: Option<u64>)
        requires
            old(self)@.has_headroom(),
        ensures
            r matches Some(n) ==> 3 <= n <= 20,
            (final(self)@, r) == old(self)@.restart_scheduled(),
    {
        self.bus_from_register(3, Register16::Sp);
        self.update_at(8, Step::Decrement16(Register16::Sp));
        self.write_bus_from_register(9, Register8::PcHigh);
        self.bus_from_register(10, Register16::Sp);
        self.update_at(11, Step::Decrement16(Register16::Sp));
        self.update_at(11, Step::PreviousPcToXy);
        self.write_bus_from_register(12, Register8::PcLow);
        self.update_at(13, Step::Load8(Register8::PcHigh, 0));
        self.update_at(14, Step::RestartVector);
        Some(16)
    }

    pub fn instruction_ret(&mut self, ret: Ret) -> (r: Option<u64>)
        requires
            old(self)@.has_headroom(),
        ensures
            r matches Some(n) ==> 3 <= n <= 20,
            Ok::<(ConsoleView, Option<u64>), Fault>((final(self)@, r)) == old(self)@.instruction_scheduled(
                Instruction::Return(ret),
            ),
    {
        match ret {
            Ret::Unconditional => self.ret(false),
            Ret::I => self.ret(true),
            _ => self.ret_flag(),
        }
    }

    /// RET and RETI.
    pub fn ret(&mut self, interrupt: bool) -> (r: Option<u64>)
        requires
            old(self)@.has_headroom(),
        ensures
            r matches Some(n) ==> 3 <= n <= 20,
            (final(self)@, r) == old(self)@.ret_scheduled(interrupt),
    {
        self.update_at(3, Step::Increment16(Register16::Sp));
        self.bus_from_register(4, Register16::Sp);
        self.read_bus_into_register(5, Register8::Y);
        self.update_at(6, Step::Increment16(Register16::Sp));
        self.bus_from_register(7, Register16::Sp);
        self.read_bus_into_register(8, Register8::X);
        self.copy_register(9, Register8::X, Register8::PcHigh);
        self.copy_register(10, Register8::Y, Register8::PcLow);
        if interrupt {
            self.update_at(11, Step::EnableInterrupts);
        }
        Some(16)
    }

    /// RET cc.
    pub fn ret_flag(&mut self) -> (r: Option<u64>)
        requires
            old(self)@.has_headroom(),
        ensures
            r matches Some(n) ==> 3 <= n <= 20,
            (final(self)@, r) == (old(self)@.pushed(3, update(Step::BranchReturn)), None::<u64>),
    {
        self.update_at(3, Step::BranchReturn);
        None
    }

    /// CALL.
    pub fn instruction_call(&mut self) -> (r: Option<u64>)
        requires
            old(self)@.has_headroom(),
        ensures
            r matches Some(n) ==> 3 <= n <= 20,
            (final(self)@, r) == old(self)@.call_scheduled(),
    {
        self.read_immediate16(Register8::Y, Register8::X);
        self.update_at(9, Step::BranchCall);
        None
    }

    pub fn instruction_bit_op(&mut self, bit_op: BitOps) -> (r: Result<Option<u64>, Fault>)
        requires
            old(self)@.has_headroom(),
        ensures
            r matches Ok(Some(n)) ==> 3 <= n <= 20,
            scheduled_as(r, final(self)@, old(self)@.bit_op_scheduled(bit_op)),
    {
        match bit_op {
            BitOps::Rla => {
                self.update_at(3, Step::Rla);
                Ok(Some(4))
            },
            BitOps::Rlc(bit_args) => Ok(self.cb_register_op(bit_args, 7, Step::RlcHl, 11, Step::RlcRegister)),
            BitOps::Bit(_, bit_args) => Ok(self.cb_register_op(bit_args, 6, Step::BitHl, 7, Step::BitRegister)),
            BitOps::Reset(_, bit_args) => Ok(
                self.cb_register_op(bit_args, 7, Step::ResetHl, 11, Step::ResetRegister),
            ),
            _ => Err(Fault::UnsupportedInstruction),
        }
    }

    /// A CB instruction on (HL) (the bus takes HL, `on_hl` comes at `at`,
    /// the next fetch `next` cycles later) or on a register (`on_register`
    /// one cycle later, the next fetch three cycles later).
    fn cb_register_op(&mut self, bit_args: BitArgs, at: u64, on_hl: Step, next: u64, on_register: Step) -> (r: Option<u64>)
        requires
            old(self)@.has_headroom(),
            at <= 16,
            3 <= next <= 20,
        ensures
            r matches Some(n) ==> 3 <= n <= 20,
            (final(self)@, r) == (match bit_args {
                BitArgs::HL => (old(self)@.pushed(3, bus_from(Register16::Hl)).pushed(at, update(on_hl)), Some(next)),
                BitArgs::Register(_) => (old(self)@.pushed(1, update(on_register)), Some(3u64)),
            }),
    {
        match bit_args {
            BitArgs::HL => {
                self.bus_from_register(3, Register16::Hl);
                self.update_at(at, on_hl);
                Some(next)
            },
            BitArgs::Register(_) => {
                self.update_at(1, on_register);
                Some(3)
            },
        }
    }

    #[verifier::rlimit(80)]
    fn schedule(&mut self, instruction: Instruction) -> (r: Result<Option<u64>, Fault>)
        requires
            old(self)@.has_headroom(),
        ensures
            r matches Ok(Some(n)) ==> 3 <= n <= 20,
            scheduled_as(r, final(self)@, old(self)@.instruction_scheduled(instruction)),
    {
        match instruction {
            Instruction::Cb => Ok(self.instruction_cb()),
            Instruction::Control(control_op) => self.instruction_control(control_op),
            Instruction::Load16(ld16) => Ok(self.instruction_load16(ld16)),
            Instruction::Push(push_pop) => Ok(self.stack_push16(push_pop)),
            Instruction::Pop(push_pop) => Ok(self.stack_pop16(push_pop)),
            Instruction::Load8(to, from) => self.instruction_load8(to, from),
            Instruction::Arithmetic16(a16_ops) => self.instruction_alu16(a16_ops),
            Instruction::Arithmetic8(a8_ops) => self.instruction_alu8(a8_ops),
            Instruction::JumpRelative(jr) => Ok(self.instruction_jr(jr)),
            Instruction::Jump(jp) => self.instruction_jump(jp),
            Instruction::Restart(_) => Ok(self.instruction_restart()),
            Instruction::Return(ret) => Ok(self.instruction_ret(ret)),
            Instruction::Call(_) => Ok(self.instruction_call()),
            Instruction::BitOp(bit_ops) => self.instruction_bit_op(bit_ops),
        }
    }

    /// Queue an instruction.
    pub fn execute(&mut self, instruction: Instruction) -> (r: Result<(), Fault>)
        requires
            old(self)@.has_headroom(),
        ensures
            done_as(r, final(self)@, old(self)@.executed(instruction)),
    {
        let ime_pending = self.cpu.get_ime_pending();
        // Execute an instruction
        // Queue the next instruction at the offset if one is returned
        match self.schedule(instruction) {
            Err(f) => Err(f),
            Ok(None) => Ok(()),
            Ok(Some(next_instruction_offset)) => {
                if ime_pending {
                    self.update_at(next_instruction_offset - 1, Step::EnableInterrupts);
                }
                self.queue_next_instruction(next_instruction_offset);
                Ok(())
            },
        }
    }

    /// Fetch an instruction at the address of PC and then queue that instruction.
    pub fn fetch_decode_execute(&mut self) -> (r: Result<(), Fault>)
        requires
            old(self)@.has_headroom(),
        ensures
            done_as(r, final(self)@, old(self)@.fetch_decoded()),
    {
        proof {
            reveal(ConsoleView::fetch_decoded);
        }
        let pc = self.cpu.get_register_16(&Register16::Pc);
        let opcode = self.ram.fetch(pc);
        let instruction = if self.cb_flag {
            Some(decode_cb(opcode))
        } else {
            decode(opcode)
        };
        let instruction = match instruction {
            Some(value) => value,
            None => return Err(Fault::UnknownOpcode),
        };
        self.cb_flag = false;
        self.cpu.set_register_16(pc, &Register16::Bus);
        // Every instruction increments the pc after 1 tick
        // unless the halt bug has occured, in which case it is skipped.
        if !self.cpu.get_halt_bug() {
            self.update_at(1, Step::IncrementPc);
        }
        self.execute(instruction)
    }

    fn relative_branch(&mut self) -> (r: Result<(), Fault>)
        requires
            old(self)@.has_headroom(),
        ensures
            done_as(r, final(self)@, old(self)@.relative_branch()),
    {
        let bus = self.cpu.get_register_16(&Register16::Bus);
        if bus == 0 {
            return Err(Fault::RegisterOverflow);
        }
        let opcode = self.ram.fetch(bus - 1);
        let taken = match opcode {
            0x20 => !self.cpu.get_flag(&Flags::Z),
            0x28 => self.cpu.get_flag(&Flags::Z),
            0x30 => !self.cpu.get_flag(&Flags::C),
            0x38 => self.cpu.get_flag(&Flags::C),
            _ => return Err(Fault::InvalidOperand),
        };
        if taken {
            self.update_at(1, Step::JumpRelativeSigned);
            self.queue_next_instruction(6);
        } else {
            self.queue_next_instruction(2);
        }
        Ok(())
    }

    fn branch_no_carry(&mut self)
        requires
            old(self)@.has_headroom(),
        ensures
            done_as(Ok(()), final(self)@, old(self)@.control_step_done(Step::BranchNoCarry)),
    {
        if !self.cpu.get_flag(&Flags::C) {
            self.copy_register(1, Register8::X, Register8::PcHigh);
            self.copy_register(2, Register8::Y, Register8::PcLow);
            self.queue_next_instruction(16 - 9);
        } else {
            self.queue_next_instruction(12 - 9);
        }
    }

    fn return_branch(&mut self) -> (r: Result<(), Fault>)
        requires
            old(self)@.has_headroom(),
        ensures
            done_as(r, final(self)@, old(self)@.return_branch()),
    {
        let taken = match self.bus_opcode() {
            0xC0 => !self.cpu.get_flag(&Flags::Z),
            0xC8 => self.cpu.get_flag(&Flags::Z),
            0xD0 => !self.cpu.get_flag(&Flags::C),
            0xD8 => self.cpu.get_flag(&Flags::C),
            _ => return Err(Fault::InvalidOperand),
        };
        // All the instructions are queued inside of this one
        // so we can subtract 3 from each tick to account for this
        let tick_offset: u64 = 3;
        if !taken {
            self.queue_next_instruction(8 - tick_offset);
            return Ok(());
        }
        self.update_at(4 - tick_offset, Step::Increment16(Register16::Sp));
        self.bus_from_register(5 - tick_offset, Register16::Sp);
        self.read_bus_into_register(6 - tick_offset, Register8::Y);
        self.update_at(7 - tick_offset, Step::Increment16(Register16::Sp));
        self.bus_from_register(8 - tick_offset, Register16::Sp);
        self.read_bus_into_register(9 - tick_offset, Register8::X);
        self.copy_register(10, Register8::X, Register8::PcHigh);
        self.copy_register(11, Register8::Y, Register8::PcLow);
        self.queue_next_instruction(20 - tick_offset);
        Ok(())
    }

    fn call_branch(&mut self) -> (r: Result<(), Fault>)
        requires
            old(self)@.has_headroom(),
        ensures
            done_as(r, final(self)@, old(self)@.call_branch()),
    {
        let bus = self.cpu.get_register_16(&Register16::Bus);
        if bus < 2 {
            return Err(Fault::RegisterOverflow);
        }
        let taken = match self.ram.fetch(bus - 2) {
            0xC4 => !self.cpu.get_flag(&Flags::Z),
            0xCC => self.cpu.get_flag(&Flags::Z),
            0xD4 => !self.cpu.get_flag(&Flags::C),
            0xDC => self.cpu.get_flag(&Flags::C),
            0xCD => true,
            _ => return Err(Fault::InvalidOperand),
        };
        let tick_offset: u64 = 9;
        if !taken {
            self.queue_next_instruction(12 - tick_offset);
            return Ok(());
        }
        self.bus_from_register(16 - tick_offset, Register16::Sp);
        self.update_at(17 - tick_offset, Step::Decrement16(Register16::Sp));
        self.write_bus_from_register(18 - tick_offset, Register8::PcLow);
        self.bus_from_register(20 - tick_offset, Register16::Sp);
        self.update_at(21 - tick_offset, Step::Decrement16(Register16::Sp));
        self.write_bus_from_register(22 - tick_offset, Register8::PcHigh);
        self.queue_next_instruction(24 - tick_offset);
        Ok(())
    }

    fn dispatch_cb(&mut self) -> (r: Result<(), Fault>)
        requires
            old(self)@.has_headroom(),
        ensures
            done_as(r, final(self)@, old(self)@.control_step_done(Step::DispatchCb)),
    {
        let y = self.cpu.get_register(&Register8::Y);
        if let Instruction::BitOp(bit_op) = decode_cb(y) {
            match self.instruction_bit_op(bit_op) {
                Err(f) => return Err(f),
                Ok(Some(next_instruction_offset)) => {
                    self.queue_next_instruction(next_instruction_offset);
                },
                Ok(None) => {},
            }
        }
        Ok(())
    }

    fn apply_control_step(&mut self, step: Step) -> (r: Result<(), Fault>)
        requires
            old(self)@.has_headroom(),
        ensures
            done_as(r, final(self)@, old(self)@.control_step_done(step)),
    {
        match step {
            Step::EnableInterrupts => {
                self.cpu.set_ime(true);
                Ok(())
            },
            Step::Halt => {
                let interrupt_enable = self.ram.fetch(0xFFFF);
                let interrupt_flag = self.ram.fetch(0xFF0F);
                let halt_bug = self.cpu.get_ime() && ((interrupt_enable & interrupt_flag) != 0);
                self.cpu.set_halt(true);
                self.cpu.set_halt_bug(halt_bug);
                Ok(())
            },
            Step::Stop => {
                self.cpu.set_is_stopped(true);
                Ok(())
            },
            Step::BranchRelative => self.relative_branch(),
            Step::BranchNoCarry => {
                self.branch_no_carry();
                Ok(())
            },
            Step::BranchReturn => self.return_branch(),
            Step::BranchCall => self.call_branch(),
            Step::DispatchCb => self.dispatch_cb(),
            Step::FetchDecodeExecute => self.fetch_decode_execute(),
            _ => Err(Fault::InvalidOperand),
        }
    }

    /// Apply one scheduled update.
    pub fn run_step(&mut self, step: Step) -> (r: Result<(), Fault>)
        requires
            old(self)@.has_headroom(),
        ensures
            done_as(r, final(self)@, old(self)@.step_done(step)),
    {
        proof {
            reveal(ConsoleView::step_done);
        }
        match step {
            Step::Copy16(..) | Step::Load8(..) | Step::IncrementPc | Step::Increment16(..)
            | Step::Decrement16(..) | Step::StepUp16(..) | Step::StepDown16(..)
            | Step::PreviousPcToXy | Step::AddSpOffset | Step::JumpRelative
            | Step::JumpRelativeSigned | Step::RestartVector => self.apply_move_step(step),
            Step::SubY | Step::SubOperand | Step::XorY | Step::XorOperand | Step::DecY
            | Step::DecFlags | Step::DecOperand | Step::IncY | Step::IncFlags | Step::IncOperand
            | Step::Add16Low | Step::Add16High | Step::Inc16Low | Step::Inc16High
            | Step::AddSpFlags => self.apply_alu_step(step),
            Step::Rla | Step::Ccf | Step::Scf | Step::Cpl | Step::Daa | Step::BitHl
            | Step::BitRegister | Step::ResetHl | Step::ResetRegister | Step::RlcHl
            | Step::RlcRegister => self.apply_flag_step(step),
            _ => self.apply_control_step(step),
        }
    }

    /// Run one queued micro-operation.
    pub fn execute_command(&mut self, command: Command) -> (r: Result<(), Fault>)
        requires
            old(self)@.has_headroom(),
        ensures
            done_as(r, final(self)@, old(self)@.command_done(command)),
    {
        proof {
            reveal(ConsoleView::command_done);
        }
        match command {
            Command::Read(source, destination) => {
                self.run_read(source, destination);
                Ok(())
            },
            Command::Update(step) => self.run_step(step),
        }
    }

    /// One T-cycle of the CPU (see `ConsoleView::cpu_ticked`).
    pub fn tick_cpu(&mut self) -> (r: Result<(), Fault>)
        requires
            old(self)@.has_headroom(),
        ensures
            done_as(r, final(self)@, old(self)@.cpu_ticked()),
    {
        if self.cpu.get_is_stopped() {
            return Ok(());
        }
        // Halt bug can only be triggered at the end of an M cycle,
        // so we can handle it immediately
        if self.cpu.get_halt_bug() {
            let fetched = self.fetch_decode_execute();
            if fetched.is_err() {
                return fetched;
            }
            proof {
                lemma_fetch_keeps_counter(old(self)@);
            }
            self.cpu.set_halt_bug(false);
            self.cpu.set_halt(false);
        }
        // halt is only checked at the last T cycle of each M cycle
        if self.cpu.get_halt() && self.tick_counter % 4 == 3 && self.is_interrupt_pending() {
            if self.cpu.get_ime() {
                self.end_halt();
            } else {
                // Do not jump for the interrupt, continue on normally
                self.cpu.set_halt(false);
                self.queue_next_instruction(1);
            }
        }
        proof {
            assert(old(self)@.cpu_ticked() == self@.queue_run());
        }
        // execute all commands at the current tick if any exist.
        let tick = self.tick_counter;
        let ghost start = self@;
        let popped = self.execution_queue.pop(&tick);
        match popped {
            Some(queue) => {
                assert(self@ == ConsoleView { queue: start.queue.remove(tick), ..start });
                self.run_commands(queue)
            },
            None => {
                assert(self@.queue =~= start.queue);
                Ok(())
            },
        }
    }

    /// Run queued micro-operations in order, stopping at the first fault.
    fn run_commands(&mut self, commands: VecDeque<Command>) -> (r: Result<(), Fault>)
        requires
            old(self)@.has_headroom(),
        ensures
            done_as(r, final(self)@, old(self)@.commands_done(commands@)),
    {
        let ghost all = commands@;
        let mut queue = commands;
        while queue.len() > 0
            invariant
                self@.has_headroom(),
                self@.keeps_units_of(old(self)@),
                all == commands@,
                old(self)@.commands_done(all) == self@.commands_done(queue@),
            decreases queue@.len(),
        {
            let ghost before = self@;
            let ghost q = queue@;
            let command = queue.pop_front().unwrap();
            proof {
                lemma_command_keeps_counter(self@, command);
                assert(q.drop_first() =~= queue@);
            }
            let done = self.execute_command(command);
            if done.is_err() {
                assert(q[0] == command);
                assert(before.commands_done(q) == Err::<ConsoleView, Fault>(done->Err_0));
                assert(old(self)@.commands_done(all) == Err::<ConsoleView, Fault>(done->Err_0));
                return done;
            }
        }
        Ok(())
    }
}

/// Whether condition code `cc` (0 NZ, 1 Z, 2 NC, 3 C) holds: the flag it
/// names (Z, bit 7 of F, for codes 0 and 1; C, bit 4 of F, for 2 and 3)
/// is set exactly when bit 0 of `cc` is.
pub open spec fn condition_met(cpu: CpuState, cc: u8) -> bool {
    let f = cpu.registers.f as int;
    let bit = if cc < 2 {
        (f / 128) % 2
    } else {
        (f / 16) % 2
    };
    (bit == 1) == (cc % 2 == 1)
}

/// The flags Z and C as bits 7 and 4 of F.
proof fn lemma_flags_in_f(cpu: CpuState)
    ensures
        cpu.flag(Flags::Z) == ((cpu.registers.f as int / 128) % 2 == 1),
        cpu.flag(Flags::C) == ((cpu.registers.f as int / 16) % 2 == 1),
{
    let f = cpu.registers.f;
    assert(((f >> 7u8) & 1 == 1) == ((f as int / 128) % 2 == 1)) by (bit_vector);
    assert(((f >> 4u8) & 1 == 1) == ((f as int / 16) % 2 == 1)) by (bit_vector);
}

/// The condition field of a conditional opcode of the form 110cc100 (CALL),
/// 110cc000 (RET) or 001cc000 (JR): the opcodes of each family and the code
/// `cc` in bits 3-4.
proof fn lemma_condition_opcodes(opcode: u8)
    ensures
        (opcode & 0xE7 == 0xC4) == (opcode == 0xC4 || opcode == 0xCC || opcode == 0xD4 || opcode
            == 0xDC),
        (opcode & 0xE7 == 0xC0) == (opcode == 0xC0 || opcode == 0xC8 || opcode == 0xD0 || opcode
            == 0xD8),
        (opcode & 0xE7 == 0x20) == (opcode == 0x20 || opcode == 0x28 || opcode == 0x30 || opcode
            == 0x38),
        (opcode >> 3) & 3 == (opcode / 8) % 4,
{
    assert((opcode & 0xE7 == 0xC4) == (opcode == 0xC4 || opcode == 0xCC || opcode == 0xD4 || opcode
        == 0xDC)) by (bit_vector);
    assert((opcode & 0xE7 == 0xC0) == (opcode == 0xC0 || opcode == 0xC8 || opcode == 0xD0 || opcode
        == 0xD8)) by (bit_vector);
    assert((opcode & 0xE7 == 0x20) == (opcode == 0x20 || opcode == 0x28 || opcode == 0x30 || opcode
        == 0x38)) by (bit_vector);
    assert((opcode >> 3) & 3 == (opcode / 8) % 4) by (bit_vector);
}

/// CALL u16 (0xCD) always calls; a conditional CALL (110cc100: 0xC4 NZ,
/// 0xCC Z, 0xD4 NC, 0xDC C) calls exactly when its condition holds; no
/// other opcode is a CALL.
pub proof fn law_call_condition(cpu: CpuState, opcode: u8)
    ensures
        call_condition(cpu, 0xCD) == Some(true),
        opcode & 0xE7 == 0xC4 ==> call_condition(cpu, opcode) == Some(
            condition_met(cpu, (opcode >> 3) & 3),
        ),
        opcode != 0xCD && opcode & 0xE7 != 0xC4 ==> call_condition(cpu, opcode) is None,
{
    lemma_flags_in_f(cpu);
    lemma_condition_opcodes(opcode);
}

/// A conditional RET (110cc000: 0xC0 NZ, 0xC8 Z, 0xD0 NC, 0xD8 C) returns
/// exactly when its condition holds; no other opcode is a conditional RET.
pub proof fn law_return_condition(cpu: CpuState, opcode: u8)
    ensures
        opcode & 0xE7 == 0xC0 ==> return_condition(cpu, opcode) == Some(
            condition_met(cpu, (opcode >> 3) & 3),
        ),
        opcode & 0xE7 != 0xC0 ==> return_condition(cpu, opcode) is None,
{
    lemma_flags_in_f(cpu);
    lemma_condition_opcodes(opcode);
}

/// A conditional JR (001cc000: 0x20 NZ, 0x28 Z, 0x30 NC, 0x38 C) jumps
/// exactly when its condition holds; no other opcode is a conditional JR.
pub proof fn law_relative_condition(cpu: CpuState, opcode: u8)
    ensures
        opcode & 0xE7 == 0x20 ==> relative_condition(cpu, opcode) == Some(
            condition_met(cpu, (opcode >> 3) & 3),
        ),
        opcode & 0xE7 != 0x20 ==> relative_condition(cpu, opcode) is None,
{
    lemma_flags_in_f(cpu);
    lemma_condition_opcodes(opcode);
}

} // verus!
