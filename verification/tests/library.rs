use gamecore::alu::{
    add_bytes, add_high, add_signed, add_unsigned, decimal_adjust, decrement, lookup_restart, mask,
    offset_flags, pair_operand, register_operand, rotate_left, subtract,
};
use gamecore::apu::{Apu, SampleEvent};
use gamecore::cartridge::Cartridge;
use gamecore::command::{Command, Step};
use gamecore::console::{Console, Fault};
use gamecore::execution_queue::ExecutionQueue;
use gamecore::instruction::{
    decode, decode_cb, A8Args, A8Ops, BitArgs, BitOps, ControlOps, Instruction, Ld8,
};
use gamecore::ppu::{Ppu, PpuMode};
use gamecore::ram::{Interrupts, Ram};
use gamecore::registers::{Flags, Register16, Register8};
use gamecore::state::{get_u16, get_u32, get_u64, push_u16, push_u32, push_u64, StateError};

fn console_with(program: &[(u8, u16)]) -> Console {
    let mut console = Console::new();
    for &(value, address) in program {
        console.ram.set(value, address);
    }
    console
}

fn run(console: &mut Console, ticks: usize) -> Result<(), Fault> {
    for _ in 0..ticks {
        console.tick()?;
    }
    Ok(())
}

#[test]
fn subtract_borrows() {
    assert_eq!(subtract(0x10, 0x01), (0x0F, true, false));
    assert_eq!(subtract(0x01, 0x02), (0xFF, true, true));
    assert_eq!(subtract(0x42, 0x42), (0x00, false, false));
}

#[test]
fn decrement_wraps_and_flags_half_carry() {
    assert_eq!(decrement(0x00), (0xFF, true));
    assert_eq!(decrement(0x01), (0x00, false));
    assert_eq!(decrement(0x10), (0x0F, true));
}

#[test]
fn byte_additions_carry() {
    assert_eq!(add_bytes(0xFF, 0x01), (0x00, true));
    assert_eq!(add_bytes(0x7F, 0x01), (0x80, false));
    assert_eq!(add_high(0xFF, 0x00, true), (0x00, true));
    assert_eq!(add_high(0x01, 0x02, false), (0x03, false));
}

#[test]
fn signed_offsets_move_both_ways() {
    assert_eq!(add_signed(0x0100, 0x05), 0x0105);
    assert_eq!(add_signed(0x0100, 0xFB), 0x00FB);
    assert_eq!(add_signed(0xFFF8, 0x08), 0x0000);
    assert_eq!(add_unsigned(0x0102, 0xFB), 0x01FD);
    assert_eq!(offset_flags(0xF8, 0x08), (true, true));
    assert_eq!(offset_flags(0x34, 0x0C), (true, false));
}

#[test]
fn rotations_move_the_carry() {
    assert_eq!(rotate_left(0b1000_0010, true), (0b0000_0101, true));
    assert_eq!(rotate_left(0b0100_0000, false), (0b1000_0000, false));
}

#[test]
fn decimal_adjust_cases() {
    assert_eq!(decimal_adjust(0x7B, false, false, false), (0x81, false));
    assert_eq!(decimal_adjust(0xAB, false, false, false), (0x11, true));
    assert_eq!(decimal_adjust(0x0D, true, true, false), (0x07, false));
    assert_eq!(decimal_adjust(0xE4, true, false, true), (0x84, true));
}

#[test]
fn masks_clear_one_bit() {
    assert_eq!(mask(0), 0b1111_1110);
    assert_eq!(mask(3), 0b1111_0111);
    assert_eq!(mask(7), 0b0111_1111);
    assert_eq!(mask(9), 0xFF);
}

#[test]
fn operand_tables() {
    assert_eq!(register_operand(0), Some(Register8::B));
    assert_eq!(register_operand(6), None);
    assert_eq!(register_operand(7), Some(Register8::A));
    assert_eq!(pair_operand(3), Some(Register16::Sp));
    assert_eq!(pair_operand(4), None);
    assert_eq!(lookup_restart(0xCF), Some(0x08));
    assert_eq!(lookup_restart(0xC8), None);
}

#[test]
fn decoder_maps_opcodes() {
    assert_eq!(decode(0x00), Some(Instruction::Control(ControlOps::Nop)));
    assert_eq!(decode(0x76), Some(Instruction::Control(ControlOps::Halt)));
    assert_eq!(decode(0x41), Some(Instruction::Load8(Ld8::B, Ld8::C)));
    assert_eq!(decode(0x96), Some(Instruction::Arithmetic8(A8Ops::Sub(A8Args::HL))));
    assert_eq!(decode(0xD3), None);
    assert_eq!(decode_cb(0x7A), Instruction::BitOp(BitOps::Bit(7, BitArgs::Register(Register8::D))));
    assert_eq!(decode_cb(0x86), Instruction::BitOp(BitOps::Reset(0, BitArgs::HL)));
}

#[test]
fn queue_keeps_order_per_tick() {
    let mut queue = ExecutionQueue::new();
    queue.push_command_absolute(5, Command::Update(Step::Daa));
    queue.push_command_absolute(6, Command::Update(Step::Cpl));
    queue.push_command_absolute(5, Command::Update(Step::Ccf));
    let at5 = queue.pop(&5).unwrap();
    assert_eq!(at5.len(), 2);
    assert_eq!(at5[0], Command::Update(Step::Daa));
    assert_eq!(at5[1], Command::Update(Step::Ccf));
    assert!(queue.pop(&5).is_none());
    assert_eq!(queue.peek(&6).unwrap().len(), 1);
}

#[test]
fn new_console_queues_first_fetch() {
    let console = Console::new();
    let first = console.execution_queue.map.get(&0).unwrap();
    assert_eq!(first[0], Command::Update(Step::FetchDecodeExecute));
    assert_eq!(console.cpu.get_register_16(&Register16::Pc), 0x0100);
}

#[test]
fn unknown_opcode_faults() {
    let mut console = console_with(&[(0xD3, 0x100)]);
    assert_eq!(console.tick(), Err(Fault::UnknownOpcode));
}

#[test]
fn unsupported_instruction_faults() {
    // DI has no implementation.
    let mut console = console_with(&[(0xF3, 0x100)]);
    assert_eq!(console.tick(), Err(Fault::UnsupportedInstruction));
}

#[test]
fn register_overflow_faults() {
    // LD (HL+),A with HL at the top of the address space.
    let mut console = console_with(&[(0x22, 0x100)]);
    console.cpu.set_register_16(0xFFFF, &Register16::Hl);
    assert_eq!(run(&mut console, 8), Err(Fault::RegisterOverflow));
}

#[test]
fn invalid_operand_faults() {
    // RST whose opcode byte changed before the vector was looked up.
    let mut console = console_with(&[(0xCF, 0x100)]);
    run(&mut console, 12).unwrap();
    console.ram.set(0x00, 0x100);
    assert_eq!(run(&mut console, 4), Err(Fault::InvalidOperand));
}

#[test]
fn pixel_outside_frame_faults() {
    let mut console = Console::new();
    console.ram.set(200, 0xFF44);
    let mut result = Ok(());
    for _ in 0..456 {
        result = console.tick_ppu();
        if result.is_err() {
            break;
        }
    }
    assert_eq!(result, Err(Fault::PixelOutsideFrame));
}

#[test]
fn line_counter_overflow_faults() {
    let mut console = Console::new();
    console.ppu.draw_mode = PpuMode::VBlank;
    console.ppu.dots = 455;
    console.ram.set(255, 0xFF44);
    assert_eq!(console.tick_ppu(), Err(Fault::LineCounterOverflow));
}

#[test]
fn window_line_overflow_faults() {
    let mut console = Console::new();
    console.ppu.draw_mode = PpuMode::HBlank;
    console.ppu.dots = 455;
    console.ppu.window_triggered = true;
    console.ppu.window_line = 255;
    assert_eq!(console.tick_ppu(), Err(Fault::WindowLineOverflow));
}

#[test]
fn stopped_cpu_freezes_the_counter() {
    let mut console = console_with(&[(0x10, 0x100)]);
    run(&mut console, 8).unwrap();
    assert!(console.cpu.get_is_stopped());
    run(&mut console, 20).unwrap();
    assert_eq!(console.tick_counter, 8);
    assert_eq!(console.ram.fetch(0xFF04), 0);
}

#[test]
fn scf_sets_carry() {
    let mut console = console_with(&[(0x37, 0x100)]);
    console.cpu.set_flag(false, &Flags::C);
    run(&mut console, 4).unwrap();
    assert!(console.cpu.get_flag(&Flags::C));
}

#[test]
fn inc8_wraps_and_sets_zero() {
    let mut console = console_with(&[(0x04, 0x100)]);
    console.cpu.set_register(0xFF, &Register8::B);
    run(&mut console, 4).unwrap();
    assert_eq!(console.cpu.get_register(&Register8::B), 0x00);
    assert!(console.cpu.get_flag(&Flags::Z));
    assert!(console.cpu.get_flag(&Flags::H));
    assert!(!console.cpu.get_flag(&Flags::N));
}

#[test]
fn halt_with_ime_services_the_interrupt() {
    let mut console = console_with(&[(0x76, 0x100)]);
    console.cpu.set_register_16(0xD000, &Register16::Sp);
    run(&mut console, 4).unwrap();
    assert!(console.cpu.get_halt());
    console.cpu.set_ime(true);
    console.ram.set(0x04, 0xFFFF);
    console.ram.set(0x04, 0xFF0F);
    run(&mut console, 4).unwrap();
    assert!(!console.cpu.get_halt());
    assert!(!console.cpu.get_ime());
    assert_eq!(console.cpu.get_register_16(&Register16::Pc), 0x0050);
    assert_eq!(console.cpu.get_register_16(&Register16::Sp), 0xCFFE);
    assert!(!console.ram.get_if(Interrupts::Timer));
}

#[test]
fn check_interrupts_takes_the_highest_priority() {
    let mut console = Console::new();
    console.cpu.set_ime(true);
    console.ram.set(0x1F, 0xFFFF);
    console.ram.set(0x06, 0xFF0F);
    assert_eq!(console.check_interrupts(), Some((0x0048, 0x02)));
    console.cpu.set_ime(false);
    assert_eq!(console.check_interrupts(), None);
}

#[test]
fn joypad_press_requests_interrupt() {
    let mut console = Console::new();
    console.ram.set(0x00, 0xFF0F);
    console.update_joypad(0x0F, 0x0F);
    assert!(!console.ram.get_if(Interrupts::Joypad));
    console.update_joypad(0x0E, 0x0F);
    assert!(console.ram.get_if(Interrupts::Joypad));
}

#[test]
fn timer_overflow_reloads_and_requests() {
    let mut console = Console::new();
    console.ram.set(0x05, 0xFF07); // timer on, fastest input
    console.ram.set(0xFF, 0xFF05);
    console.ram.set(0xAB, 0xFF06);
    console.ram.set(0x00, 0xFF0F);
    let mut reloaded = false;
    for _ in 0..64 {
        console.tick_timers();
        if console.ram.get_if(Interrupts::Timer) {
            reloaded = true;
            break;
        }
    }
    assert!(reloaded);
    assert_eq!(console.ram.fetch(0xFF05), 0xAB);
}

#[test]
fn display_off_whitens_the_frame() {
    let mut console = Console::new();
    console.ram.set(0x00, 0xFF40);
    console.tick_ppu().unwrap();
    assert!(console.get_framebuffer().iter().all(|&b| b == 255));
    assert_eq!(console.ram.fetch(0xFF44), 0);
}

#[test]
fn one_frame_reaches_vblank() {
    let mut console = Console::new();
    for _ in 0..(144 * 456) {
        console.tick_ppu().unwrap();
    }
    assert_eq!(console.ram.fetch(0xFF44), 144);
    assert!(console.ram.get_if(Interrupts::VBlank));
}

#[test]
fn echo_ram_mirrors_work_ram() {
    let mut ram = Ram::default();
    ram.set(0x5A, 0xE010);
    assert_eq!(ram.fetch(0xC010), 0x5A);
    assert_eq!(ram.fetch(0xE010), 0x5A);
}

#[test]
fn ram_word_is_little_endian() {
    let mut ram = Ram::default();
    ram.set(0x34, 0xC000);
    ram.set(0x12, 0xC001);
    assert_eq!(ram.fetch_16(0xC000), 0x1234);
}

#[test]
fn writing_div_resets_it() {
    let mut ram = Ram::default();
    ram.set_div(0x1234);
    assert_eq!(ram.fetch(0xFF04), 0x12);
    ram.set(0x99, 0xFF04);
    assert_eq!(ram.get_div(), 0);
}

#[test]
fn ram_state_roundtrip() {
    let mut ram = Ram::default();
    ram.set(0x77, 0xC123);
    ram.set_div(0xBEEF);
    let mut bytes = Vec::new();
    ram.save_state(&mut bytes);
    let mut other = Ram::default();
    let end = other.load_state(&bytes, 0).unwrap();
    assert_eq!(end, bytes.len());
    assert_eq!(other.fetch(0xC123), 0x77);
    assert_eq!(other.get_div(), 0xBEEF);
    assert_eq!(other.load_state(&bytes[..10], 0), Err(StateError::UnexpectedEof));
}

#[test]
fn apu_state_roundtrip() {
    let mut apu = Apu::new();
    apu.write_register(0xFF26, 0x80);
    apu.write_register(0xFF12, 0xF3);
    apu.write_register(0xFF14, 0x87);
    let mut bytes = Vec::new();
    apu.save_state(&mut bytes);
    let mut other = Apu::new();
    assert_eq!(other.load_state(&bytes, 0), Ok(bytes.len()));
    let mut again = Vec::new();
    other.save_state(&mut again);
    assert_eq!(bytes, again);
}

#[test]
fn apu_ignores_writes_while_off() {
    let mut apu = Apu::new();
    apu.write_register(0xFF26, 0x00);
    apu.write_register(0xFF24, 0x77);
    assert_eq!(apu.read_register(0xFF24), 0x00);
    apu.write_register(0xFF30, 0xAB);
    assert_eq!(apu.read_register(0xFF30), 0xAB);
}

#[test]
fn apu_asks_for_samples() {
    let mut apu = Apu::new();
    let mut events = 0;
    for _ in 0..200 {
        if apu.tick() != SampleEvent::Idle {
            events += 1;
        }
    }
    assert!(events >= 1);
}

#[test]
fn ppu_state_roundtrip() {
    let ppu = Ppu::new();
    let mut bytes = Vec::new();
    ppu.save_state(&mut bytes);
    let mut other = Ppu::new();
    other.dots = 17;
    assert_eq!(other.load_state(&bytes, 0), Ok(bytes.len()));
    assert_eq!(other.dots, 0);
    assert_eq!(other.load_state(&bytes[..3], 0), Err(StateError::UnexpectedEof));
}

#[test]
fn little_endian_roundtrips() {
    let mut out = Vec::new();
    push_u16(&mut out, 0xBEEF);
    push_u32(&mut out, 0xDEAD_BEEF);
    push_u64(&mut out, 0x0123_4567_89AB_CDEF);
    assert_eq!(get_u16(&out, 0), 0xBEEF);
    assert_eq!(get_u32(&out, 2), 0xDEAD_BEEF);
    assert_eq!(get_u64(&out, 6), 0x0123_4567_89AB_CDEF);
}

fn mbc1_rom() -> Vec<u8> {
    let mut rom = vec![0u8; 0x10000];
    rom[0x0147] = 0x03; // MBC1 + RAM + battery
    rom[0x0148] = 0x01; // 64 KiB
    rom[0x0149] = 0x02; // 8 KiB RAM
    rom[0x4000] = 0x11;
    rom[0x8000] = 0x22;
    rom[0xC000] = 0x33;
    rom
}

#[test]
fn mbc1_banks_and_ram() {
    let mut cartridge = Cartridge::from_rom(mbc1_rom());
    assert_eq!(cartridge.read(0x4000), 0x11);
    cartridge.write(0x2000, 0x02);
    assert_eq!(cartridge.read(0x4000), 0x22);
    cartridge.write(0x2000, 0x00); // bank 0 selects bank 1
    assert_eq!(cartridge.read(0x4000), 0x11);
    // RAM reads 0xFF until enabled.
    cartridge.write(0xA000, 0x55);
    assert_eq!(cartridge.read(0xA000), 0xFF);
    cartridge.write(0x0000, 0x0A);
    cartridge.write(0xA000, 0x55);
    assert_eq!(cartridge.read(0xA000), 0x55);
    assert_eq!(cartridge.save_ram()[0], 0x55);
    // ROM stays read-only.
    cartridge.write(0x4000, 0x99);
    assert_eq!(cartridge.read(0x4000), 0x11);
}

#[test]
fn console_with_cartridge_reads_the_rom() {
    let console = Console::new_with_cartridge(Cartridge::from_rom(mbc1_rom()));
    assert_eq!(console.ram.fetch(0x0147), 0x03);
    assert_eq!(console.ram.fetch(0xFF40), 0x91);
}

#[test]
fn flags_live_in_register_f() {
    let mut console = Console::new();
    console.cpu.set_register(0x00, &Register8::F);
    console.cpu.set_flag(true, &Flags::Z);
    console.cpu.set_flag(true, &Flags::C);
    assert_eq!(console.cpu.get_register(&Register8::F), 0x90);
    console.cpu.set_register_16(0x1234, &Register16::Bc);
    assert_eq!(console.cpu.get_register(&Register8::B), 0x12);
    assert_eq!(console.cpu.get_register(&Register8::C), 0x34);
}

#[test]
fn snapshot_roundtrip_restores_the_machine() {
    let mut console = console_with(&[(0x3C, 0x0100), (0x3C, 0x0101), (0x00, 0x0102)]);
    run(&mut console, 40).unwrap();
    console.ram.set(0x5A, 0xC123);
    let saved = console.save_state();
    // 0x2000 bytes of the blank cartridge's RAM are part of the state.
    assert_eq!(saved.len(), 157_846 + 0x2000);
    assert_eq!(&saved[0..5], &[0x47, 0x43, 0x53, 0x53, 0x02]);

    let mut other = Console::new();
    assert_eq!(other.load_state(&saved), Ok(()));
    assert_eq!(
        other.cpu.get_register(&Register8::A),
        console.cpu.get_register(&Register8::A)
    );
    assert_eq!(
        other.cpu.get_register_16(&Register16::Pc),
        console.cpu.get_register_16(&Register16::Pc)
    );
    assert_eq!(other.ram.fetch(0xC123), 0x5A);
    assert_eq!(other.tick_counter, console.tick_counter);
    assert_eq!(other.ppu.dots, console.ppu.dots);
    assert_eq!(other.save_state(), saved);
}

#[test]
fn snapshot_rejects_bad_input() {
    let mut console = Console::new();
    let mut saved = console.save_state();
    assert_eq!(console.load_state(&saved[0..3]), Err(StateError::UnexpectedEof));
    assert_eq!(console.load_state(&saved[0..1000]), Err(StateError::UnexpectedEof));
    saved[4] = 3;
    assert_eq!(console.load_state(&saved), Err(StateError::InvalidData));
    saved[4] = 2;
    saved[0] = b'X';
    assert_eq!(console.load_state(&saved), Err(StateError::InvalidData));
}

#[test]
fn snapshot_version_one_keeps_the_audio_unit() {
    let console = Console::new();
    let saved = console.save_state();
    let mut v1: Vec<u8> = saved[0..157_731 + 0x2000].to_vec();
    v1.extend_from_slice(&saved[157_833 + 0x2000..]);
    v1[4] = 1;
    let mut other = Console::new();
    other.apu.nr50 = 0x12;
    assert_eq!(other.load_state(&v1), Ok(()));
    assert_eq!(other.apu.nr50, 0x12);
    assert_eq!(other.tick_counter, console.tick_counter);
}

#[test]
fn truncated_snapshot_is_read_as_far_as_it_goes() {
    let mut console = console_with(&[(0x3C, 0x0100), (0x3C, 0x0101), (0x00, 0x0102)]);
    run(&mut console, 40).unwrap();
    let saved = console.save_state();
    let mut other = Console::new();
    let before_pc = other.cpu.get_register_16(&Register16::Pc);
    assert_eq!(other.load_state(&saved[0..100]), Err(StateError::UnexpectedEof));
    assert_eq!(
        other.cpu.get_register(&Register8::A),
        console.cpu.get_register(&Register8::A)
    );
    assert_eq!(other.tick_counter, 0);
    let mut fresh = Console::new();
    assert_eq!(fresh.load_state(&saved[0..20]), Err(StateError::UnexpectedEof));
    assert_eq!(fresh.cpu.get_register_16(&Register16::Pc), before_pc);
}

#[test]
fn each_tick_advances_the_counter_by_one() {
    let mut console = console_with(&[(0x00, 0x0100), (0x00, 0x0101), (0x00, 0x0102)]);
    for n in 1..=12u64 {
        console.tick().unwrap();
        assert_eq!(console.tick_counter, n);
    }
}

#[test]
fn one_second_of_cycles_gives_exactly_44100_samples() {
    let mut apu = Apu::new();
    let mut samples = 0u32;
    for _ in 0..4_194_304u32 {
        if apu.tick() != SampleEvent::Idle {
            samples += 1;
        }
    }
    assert_eq!(samples, 44_100);
    assert!(apu.sample_accumulator < 4_194_304);
}

#[test]
fn a_stopped_cpu_leaves_the_picture_unit_running() {
    let mut console = console_with(&[(0x10, 0x0100), (0x00, 0x0101)]);
    for _ in 0..8 {
        console.tick().unwrap();
    }
    assert!(console.cpu.get_is_stopped());
    let dots = console.ppu.dots;
    for _ in 0..8 {
        console.tick().unwrap();
    }
    assert_eq!(console.tick_counter, 8);
    assert_eq!(console.ppu.dots, dots + 8);
}

#[test]
fn snapshot_restores_the_cartridge_state() {
    let mut console = Console::new_with_cartridge(Cartridge::from_rom(mbc1_rom()));
    console.ram.set(0x0A, 0x0000); // enable external RAM
    console.ram.set(0x55, 0xA010);
    console.ram.set(0x02, 0x2000); // ROM bank 2
    assert_eq!(console.ram.fetch(0x4000), 0x22);
    let saved = console.save_state();

    let mut other = Console::new_with_cartridge(Cartridge::from_rom(mbc1_rom()));
    assert_eq!(other.ram.fetch(0x4000), 0x11);
    assert_eq!(other.load_state(&saved), Ok(()));
    assert_eq!(other.ram.fetch(0x4000), 0x22);
    assert_eq!(other.ram.fetch(0xA010), 0x55);
    assert_eq!(other.ram.save_ram()[0x10], 0x55);
}

#[test]
fn cartridge_state_roundtrip() {
    let mut cartridge = Cartridge::from_rom(mbc1_rom());
    cartridge.write(0x0000, 0x0A);
    cartridge.write(0xA001, 0x66);
    cartridge.write(0x6000, 0x01);
    let mut bytes = vec![0xEE];
    cartridge.save_state(&mut bytes);
    assert_eq!(bytes.len(), 1 + 4 + 0x2000);
    assert_eq!(&bytes[1..5], &[1, 0, 1, 1]);
    let mut other = Cartridge::from_rom(mbc1_rom());
    assert_eq!(other.load_state(&bytes, 1), Ok(bytes.len()));
    assert_eq!(other.read(0xA001), 0x66);
    assert_eq!(other.load_state(&bytes[..100], 1), Err(StateError::UnexpectedEof));
    assert_eq!(other.read(0xA001), 0x66);
}
