//! A Game Boy (DMG) emulation core: registers, CPU state, memory map with
//! cartridge bank controllers, audio and picture units, and the instruction
//! arithmetic, each with a machine-checked contract.

pub mod bits;
pub mod registers;
pub mod alu;
pub mod command;
pub mod execution_queue;
pub mod instruction;
pub mod cpu;
pub mod cartridge;
pub mod state;
pub mod ram;
pub mod apu;
pub mod ppu;
pub mod console;
pub mod executor;
pub mod snapshot;
