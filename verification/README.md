# gamecore

A Game Boy (DMG) emulation core written in Verus. Every public function of
the library, and most private helpers, carry a `requires`/`ensures`
contract over a mathematical model of the machine; Verus proves all of the
library's code against these contracts.

## Layout

- `src/registers.rs`, `src/cpu.rs`: the register file, flags and CPU state,
  with read-after-write laws and the CPU's saved-state format.
- `src/alu.rs`, `src/bits.rs`: the 8- and 16-bit arithmetic of the
  instruction set, stated over integers, and the bit-level facts it needs.
- `src/instruction.rs`: the instruction set and the opcode decoders.
- `src/command.rs`, `src/execution_queue.rs`: the micro-operations an
  instruction schedules and the per-T-cycle queue they wait in.
- `src/executor.rs`: scheduling and running each instruction's
  micro-operations.
- `src/ram.rs`, `src/cartridge.rs`: the memory map, I/O registers and the
  cartridge bank controllers (none, MBC1, MBC3), with their saved states.
- `src/ppu.rs`, `src/console.rs`: the picture unit's mode machine and pixel
  pipeline, the timer, interrupts and the machine's `tick`.
- `src/apu.rs`: the audio unit's channels, frame sequencer and registers.
- `src/state.rs`, `src/snapshot.rs`: little-endian encoding helpers and the
  whole machine's saved state.
- `app/main.rs`: the command-line front end (ROM and state files, the audio
  ring buffer and the floating-point mixer).
- `tests/`: behaviour tests of the library.
