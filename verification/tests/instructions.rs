use gamecore::console::Console;
use gamecore::registers::{Flags, Register16, Register8};

fn init(memory_map: Vec<(u8, u16)>) -> Console {
    let mut console = Console::new();

    for memory in memory_map {
        console.ram.set(memory.0, memory.1);
    }

    console
}

fn add_i8_case(sp: u16, offset: u8, output: u16, h_flag: bool, c_flag: bool) {
    let mut console = init(vec![(0xE8, 0x100), (offset, 0x101)]);
    console.cpu.set_register_16(sp, &Register16::Sp);

    for _ in 0..16 {
        console.tick().unwrap();
    }

    println!("SP: {:x}", sp);
    assert!(console.cpu.get_register_16(&Register16::Sp) == output);
    assert_eq!(console.cpu.get_flag(&Flags::H), h_flag);
    assert_eq!(console.cpu.get_flag(&Flags::C), c_flag);
}

fn daa_setup(a: u8, n: bool, h: bool, c: bool) -> Console {
    let mut console = init(vec![(0x27, 0x100)]);
    console.cpu.set_register(a, &Register8::A);
    console.cpu.set_flag(n, &Flags::N);
    console.cpu.set_flag(h, &Flags::H);
    console.cpu.set_flag(c, &Flags::C);

    for _ in 0..4 {
        console.tick().unwrap();
    }

    console
}

fn halt_setup(ime: bool, int_e: u8, int_f: u8) -> Console {
    let mut console = init(vec![(0x76, 0x100)]);
    console.cpu.set_ime(ime);
    console.ram.set(int_e, 0xFFFF);
    console.ram.set(int_f, 0xFF0F);

    console
}

#[test]
fn dec8_hl() {
    let mut console = init(vec![
        (0x35, 0x100),
        (0x35, 0x101),
        (0b00000001, 0x200),
        (0b00000000, 0x201),
    ]);
    console.cpu.set_register_16(0x200, &Register16::Hl);

    for _ in 0..12 {
        console.tick().unwrap();
    }

    assert_eq!(console.ram.fetch(0x200), 0b00000000);
    assert!(console.cpu.get_flag(&Flags::Z));
    assert!(console.cpu.get_flag(&Flags::N));
    assert!(!console.cpu.get_flag(&Flags::H));

    console.cpu.set_register_16(0x201, &Register16::Hl);
    for _ in 0..12 {
        console.tick().unwrap();
    }

    assert_eq!(console.ram.fetch(0x201), 0b11111111);
    assert!(!console.cpu.get_flag(&Flags::Z));
    assert!(console.cpu.get_flag(&Flags::N));
    assert!(console.cpu.get_flag(&Flags::H));
}

#[test]
fn dec8_register8() {
    let mut console = init(vec![(0x05, 0x100), (0x0D, 0x101)]);
    console.cpu.set_register(0b00000001, &Register8::B);
    console.cpu.set_register(0b00000000, &Register8::C);

    for _ in 0..4 {
        console.tick().unwrap();
    }

    assert_eq!(console.cpu.get_register(&Register8::B), 0b00000000);
    assert!(console.cpu.get_flag(&Flags::Z));
    assert!(console.cpu.get_flag(&Flags::N));
    assert!(!console.cpu.get_flag(&Flags::H));

    for _ in 0..4 {
        console.tick().unwrap();
    }

    assert_eq!(console.cpu.get_register(&Register8::C), 0b11111111);
    assert!(!console.cpu.get_flag(&Flags::Z));
    assert!(console.cpu.get_flag(&Flags::N));
    assert!(console.cpu.get_flag(&Flags::H));
}

#[test]
fn rlc_to_register8() {
    let mut console = init(vec![
        (0xCB, 0x100),
        (0x00, 0x101),
        (0xCB, 0x102),
        (0x01, 0x103),
        (0xCB, 0x104),
        (0x02, 0x105),
    ]);
    console.cpu.set_register(0b10000010, &Register8::B);
    console.cpu.set_register(0b00000000, &Register8::C);
    console.cpu.set_register(0b01000000, &Register8::D);

    for _ in 0..8 {
        console.tick().unwrap();
    }

    assert_eq!(console.cpu.get_register(&Register8::B), 0b00000101);
    assert_eq!(console.cpu.get_register(&Register8::F), 0b00010000);

    for _ in 0..8 {
        console.tick().unwrap();
    }

    assert_eq!(console.cpu.get_register(&Register8::C), 0b00000000);
    assert_eq!(console.cpu.get_register(&Register8::F), 0b10000000);

    for _ in 0..8 {
        console.tick().unwrap();
    }

    assert_eq!(console.cpu.get_register(&Register8::D), 0b10000000);
    assert_eq!(console.cpu.get_register(&Register8::F), 0b00000000);
}

#[test]
fn rlc_to_hl() {
    let mut console = init(vec![
        (0xCB, 0x100),
        (0x06, 0x101),
        (0b10000010, 0x200),
        (0xCB, 0x102),
        (0x06, 0x103),
        (0b00000000, 0x201),
    ]);
    console.cpu.set_register_16(0x200, &Register16::Hl);

    for _ in 0..16 {
        console.tick().unwrap();
    }

    assert_eq!(console.ram.fetch(0x200), 0b00000101);
    assert_eq!(console.cpu.get_register(&Register8::F), 0b00010000);

    console.cpu.set_register_16(0x201, &Register16::Hl);

    for _ in 0..16 {
        console.tick().unwrap();
    }

    assert_eq!(console.ram.fetch(0x201), 0b00000000);
    assert_eq!(console.cpu.get_register(&Register8::F), 0b10000000);
}

#[test]
fn go_from_hl_hl_plus() {
    let mut console = init(vec![(0x2A, 0x100), (0x05, 0x103)]);
    console.cpu.set_register_16(0x103, &Register16::Hl);

    for _ in 0..8 {
        console.tick().unwrap();
    }

    assert_eq!(console.cpu.get_register(&Register8::A), 0x05);
    assert_eq!(console.cpu.get_register_16(&Register16::Hl), 0x104);
}

#[test]
fn go_from_hl_hl_minus() {
    let mut console = init(vec![(0x3A, 0x100), (0x05, 0x103)]);
    console.cpu.set_register_16(0x103, &Register16::Hl);

    for _ in 0..8 {
        console.tick().unwrap();
    }

    assert_eq!(console.cpu.get_register(&Register8::A), 0x05);
    assert_eq!(console.cpu.get_register_16(&Register16::Hl), 0x102);
}

#[test]
fn ret() {
    let mut console = init(vec![(0xC9, 0x100), (0x20, 0x201), (0x02, 0x202)]);
    console.cpu.set_register_16(0x200, &Register16::Sp);
    console.cpu.set_ime(false);

    for _ in 0..16 {
        console.tick().unwrap();
    }

    assert!(!console.cpu.get_ime());
    assert_eq!(console.cpu.get_register_16(&Register16::Pc), 0x0220);
}

#[test]
fn ret_interrupt() {
    let mut console = init(vec![(0xD9, 0x100), (0x20, 0x201), (0x02, 0x202)]);
    console.cpu.set_register_16(0x200, &Register16::Sp);
    console.cpu.set_ime(false);

    for _ in 0..16 {
        console.tick().unwrap();
    }

    assert!(console.cpu.get_ime());
    assert_eq!(console.cpu.get_register_16(&Register16::Pc), 0x0220);
}

#[test]
fn add16() {
    let mut console = init(vec![(0x09, 0x100), (0x19, 0x101)]);
    console.cpu.set_register_16(0x00FF, &Register16::Bc);
    console.cpu.set_register_16(0x00FF, &Register16::Hl);

    for _ in 0..8 {
        console.tick().unwrap();
    }

    assert_eq!(console.cpu.get_register_16(&Register16::Hl), 0x01FE);
    assert!(console.cpu.get_flag(&Flags::H));

    console.cpu.set_register_16(0x0001, &Register16::Hl);
    console.cpu.set_register_16(0xFFFF, &Register16::De);

    for _ in 0..8 {
        console.tick().unwrap();
    }
    println!("HL: {}", console.cpu.get_register_16(&Register16::Hl));
    println!("DE: {}", console.cpu.get_register_16(&Register16::De));

    assert_eq!(console.cpu.get_register_16(&Register16::Hl), 0x0000);
    assert!(console.cpu.get_flag(&Flags::H));
    assert!(console.cpu.get_flag(&Flags::C));
}

#[test]
fn add_i8() {
    add_i8_case(0xFFF8, 0x08, 0x0000, true, true);
    add_i8_case(0x0001, 0xFF, 0x0000, true, true);
    add_i8_case(0x00FF, 0x01, 0x0100, true, true);
    add_i8_case(0x1234, 0x0C, 0x1240, true, false);
}

#[test]
fn inc16() {
    let mut console = init(vec![(0x03, 0x100)]);
    console.cpu.set_register_16(0xFFFF, &Register16::Bc);

    for _ in 0..8 {
        console.tick().unwrap();
    }

    assert_eq!(console.cpu.get_register_16(&Register16::Bc), 0x0000);
}

#[test]
fn sub8_hl() {
    let mut console = init(vec![(0x96, 0x100), (0x01, 0x200)]);
    console.cpu.set_register(0x10, &Register8::A);
    console.cpu.set_register_16(0x200, &Register16::Hl);

    for _ in 0..8 {
        console.tick().unwrap();
    }

    assert_eq!(console.cpu.get_register(&Register8::A), 0x0F);
    assert!(console.cpu.get_flag(&Flags::H));
}

#[test]
fn sub8_u8() {
    let mut console = init(vec![(0xD6, 0x100), (0x01, 0x101)]);
    console.cpu.set_register(0x10, &Register8::A);

    for _ in 0..8 {
        console.tick().unwrap();
    }

    assert_eq!(console.cpu.get_register(&Register8::A), 0x0F);
    assert!(console.cpu.get_flag(&Flags::H));
}

#[test]
fn sub8_register8() {
    let mut console = init(vec![(0x90, 0x100)]);
    console.cpu.set_register(0x10, &Register8::A);
    console.cpu.set_register(0x01, &Register8::B);

    for _ in 0..4 {
        console.tick().unwrap();
    }

    assert_eq!(console.cpu.get_register(&Register8::A), 0x0F);
    assert!(console.cpu.get_flag(&Flags::H));
}

#[test]
fn xor8_hl() {
    let mut console = init(vec![(0xAE, 0x100), (0b10001011, 0x200)]);
    console.cpu.set_register(0b11000001, &Register8::A);
    console.cpu.set_register_16(0x200, &Register16::Hl);

    for _ in 0..8 {
        console.tick().unwrap();
    }

    assert_eq!(console.cpu.get_register(&Register8::A), 0b01001010);
}

#[test]
fn xor8_u8() {
    let mut console = init(vec![(0xEE, 0x100), (0b10001011, 0x101)]);
    console.cpu.set_register(0b11000001, &Register8::A);

    for _ in 0..8 {
        console.tick().unwrap();
    }

    assert_eq!(console.cpu.get_register(&Register8::A), 0b01001010);
}

#[test]
fn xor8_register8() {
    let mut console = init(vec![(0xA8, 0x100)]);
    console.cpu.set_register(0b11000001, &Register8::A);
    console.cpu.set_register(0b10001011, &Register8::B);

    for _ in 0..4 {
        console.tick().unwrap();
    }

    assert_eq!(console.cpu.get_register(&Register8::A), 0b01001010);
    assert!(!console.cpu.get_flag(&Flags::Z));

    let mut console = init(vec![(0xAF, 0x100)]);
    console.cpu.set_register(0b11110001, &Register8::A);

    for _ in 0..4 {
        console.tick().unwrap();
    }

    assert_eq!(console.cpu.get_register(&Register8::A), 0b00000000);
    assert!(console.cpu.get_flag(&Flags::Z));
}

#[test]
fn bit_to_register8() {
    let mut console = init(vec![
        (0xCB, 0x100),
        (0x40, 0x101),
        (0xCB, 0x102),
        (0x41, 0x103),
        (0xCB, 0x104),
        (0x7A, 0x105),
        (0xCB, 0x106),
        (0x7B, 0x107),
    ]);
    console.cpu.set_register(0b00000000, &Register8::B);
    console.cpu.set_register(0b11111111, &Register8::C);
    console.cpu.set_register(0b10001000, &Register8::D);
    console.cpu.set_register(0b00000010, &Register8::E);

    // B
    for _ in 0..8 {
        console.tick().unwrap();
    }

    assert!(console.cpu.get_flag(&Flags::Z));

    // C
    for _ in 0..8 {
        console.tick().unwrap();
    }

    assert!(!console.cpu.get_flag(&Flags::Z));

    // D
    for _ in 0..8 {
        console.tick().unwrap();
    }

    assert!(!console.cpu.get_flag(&Flags::Z));

    // E
    for _ in 0..8 {
        console.tick().unwrap();
    }

    assert!(console.cpu.get_flag(&Flags::Z));
}

#[test]
fn bit_to_hl() {
    let mut console = init(vec![
        (0xCB, 0x100),
        (0x46, 0x101),
        (0b11111110, 0x200),
        (0xCB, 0x102),
        (0x46, 0x103),
        (0b00000001, 0x201),
        (0xCB, 0x104),
        (0x7E, 0x105),
        (0b01111111, 0x202),
    ]);

    console.cpu.set_register_16(0x200, &Register16::Hl);
    for _ in 0..12 {
        console.tick().unwrap();
    }
    assert!(console.cpu.get_flag(&Flags::Z));

    console.cpu.set_register_16(0x201, &Register16::Hl);
    for _ in 0..12 {
        console.tick().unwrap();
    }
    assert!(!console.cpu.get_flag(&Flags::Z));

    console.cpu.set_register_16(0x202, &Register16::Hl);
    for _ in 0..12 {
        console.tick().unwrap();
    }
    assert!(console.cpu.get_flag(&Flags::Z));
}

#[test]
fn reset_to_register8() {
    let mut console = init(vec![
        (0xCB, 0x100),
        (0x80, 0x101),
        (0xCB, 0x102),
        (0x89, 0x103),
        (0xCB, 0x104),
        (0x92, 0x105),
        (0xCB, 0x106),
        (0x9B, 0x107),
    ]);
    console.cpu.set_register(0b11111111, &Register8::B);
    console.cpu.set_register(0b11111111, &Register8::C);
    console.cpu.set_register(0b11111111, &Register8::D);
    console.cpu.set_register(0b11111111, &Register8::E);

    // B
    for _ in 0..8 {
        console.tick().unwrap();
    }

    assert_eq!(console.cpu.get_register(&Register8::B), 0b11111110);

    // C
    for _ in 0..8 {
        console.tick().unwrap();
    }

    assert_eq!(console.cpu.get_register(&Register8::C), 0b11111101);

    // D
    for _ in 0..8 {
        console.tick().unwrap();
    }

    assert_eq!(console.cpu.get_register(&Register8::D), 0b11111011);

    // E
    for _ in 0..8 {
        console.tick().unwrap();
    }

    assert_eq!(console.cpu.get_register(&Register8::E), 0b11110111);
}

#[test]
fn reset_to_hl() {
    let mut console = init(vec![
        (0xCB, 0x100),
        (0x86, 0x101),
        (0b11111111, 0x200),
        (0xCB, 0x102),
        (0x8E, 0x103),
        (0b11111111, 0x201),
        (0xCB, 0x104),
        (0x96, 0x105),
        (0b11111111, 0x202),
    ]);

    console.cpu.set_register_16(0x200, &Register16::Hl);
    for _ in 0..16 {
        console.tick().unwrap();
    }
    assert_eq!(console.ram.fetch(0x200), 0b11111110);

    console.cpu.set_register_16(0x201, &Register16::Hl);
    for _ in 0..16 {
        console.tick().unwrap();
    }
    assert_eq!(console.ram.fetch(0x201), 0b11111101);

    console.cpu.set_register_16(0x202, &Register16::Hl);
    for _ in 0..16 {
        console.tick().unwrap();
    }
    assert_eq!(console.ram.fetch(0x202), 0b11111011);
}

#[test]
fn rla() {
    let mut console = init(vec![(0x17, 0x100), (0x17, 0x101)]);
    console.cpu.set_register(0b10000000, &Register8::A);
    console.cpu.set_flag(true, &Flags::C);

    for _ in 0..4 {
        console.tick().unwrap();
    }

    assert_eq!(console.cpu.get_register(&Register8::A), 0b00000001);
    assert_eq!(console.cpu.get_register(&Register8::F), 0b00010000);

    console.cpu.set_register(0b10000000, &Register8::A);
    console.cpu.set_flag(false, &Flags::C);

    for _ in 0..4 {
        console.tick().unwrap();
    }

    assert_eq!(console.cpu.get_register(&Register8::A), 0b00000000);
    assert_eq!(console.cpu.get_register(&Register8::F), 0b00010000);
}

#[test]
fn call() {
    let mut console = init(vec![(0xC4, 0x100)]);
    console.cpu.set_flag(true, &Flags::Z);
    console.cpu.set_register_16(0x201, &Register16::Sp);

    for _ in 0..24 {
        console.tick().unwrap();
    }

    assert_ne!(console.ram.fetch(0x201), 0x03);
    assert_ne!(console.ram.fetch(0x200), 0x01);

    let mut console = init(vec![(0xCC, 0x100)]);
    console.cpu.set_flag(true, &Flags::Z);
    console.cpu.set_register_16(0x201, &Register16::Sp);

    for _ in 0..24 {
        console.tick().unwrap();
    }

    assert_eq!(console.ram.fetch(0x201), 0x03);
    assert_eq!(console.ram.fetch(0x200), 0x01);

    let mut console = init(vec![(0xCD, 0x100)]);
    console.cpu.set_flag(true, &Flags::Z);
    console.cpu.set_register_16(0x201, &Register16::Sp);

    for _ in 0..24 {
        console.tick().unwrap();
    }

    assert_eq!(console.ram.fetch(0x201), 0x03);
}

#[test]
fn ccf() {
    let mut console = init(vec![(0x3F, 0x100), (0x3F, 0x101)]);
    console.cpu.set_flag(false, &Flags::C);

    for _ in 0..4 {
        console.tick().unwrap();
    }

    assert!(console.cpu.get_flag(&Flags::C));

    for _ in 0..4 {
        console.tick().unwrap();
    }

    assert!(!console.cpu.get_flag(&Flags::C));
}

#[test]
fn cpl() {
    let mut console = init(vec![(0x2F, 0x100)]);
    console.cpu.set_register(0b11001100, &Register8::A);

    for _ in 0..4 {
        console.tick().unwrap();
    }

    assert_eq!(console.cpu.get_register(&Register8::A), 0b00110011);
}

#[test]
fn daa_add() {
    // Ensure nothing happens if the number is already BCD
    let console = daa_setup(0x14, false, false, false);
    assert_eq!(console.cpu.get_register(&Register8::A), 0x14);
    assert!(!console.cpu.get_flag(&Flags::C));

    // Ensure the 1s place wraps
    let console = daa_setup(0x7B, false, false, false);
    assert_eq!(console.cpu.get_register(&Register8::A), 0x81);
    assert!(!console.cpu.get_flag(&Flags::C));

    // Ensure the 10s place wraps
    let console = daa_setup(0xA8, false, false, false);
    assert_eq!(console.cpu.get_register(&Register8::A), 0x08);
    assert!(console.cpu.get_flag(&Flags::C));

    // Ensure both wrap
    let console = daa_setup(0xAB, false, false, false);
    assert_eq!(console.cpu.get_register(&Register8::A), 0x11);
    assert!(console.cpu.get_flag(&Flags::C));

    // Ensure the 1s place wraps
    let console = daa_setup(0x7B, false, false, false);
    assert_eq!(console.cpu.get_register(&Register8::A), 0x81);
    assert!(!console.cpu.get_flag(&Flags::C));

    // Ensure carry flag works
    let console = daa_setup(0x10, false, false, true);
    assert_eq!(console.cpu.get_register(&Register8::A), 0x70);
    assert!(console.cpu.get_flag(&Flags::C));

    // Ensure half carry flag works
    let console = daa_setup(0x11, false, true, false);
    assert_eq!(console.cpu.get_register(&Register8::A), 0x17);
    assert!(!console.cpu.get_flag(&Flags::C));
}

#[test]
fn daa_sub() {
    // Ensure nothing happens if the number is already BCD
    let console = daa_setup(0x14, true, false, false);
    assert_eq!(console.cpu.get_register(&Register8::A), 0x14);
    assert!(!console.cpu.get_flag(&Flags::C));

    // Ensure half carry flag works
    let console = daa_setup(0x0D, true, true, false);
    assert_eq!(console.cpu.get_register(&Register8::A), 0x07);
    assert!(!console.cpu.get_flag(&Flags::H));

    // Ensure carry flag works
    let console = daa_setup(0xE4, true, false, true);
    assert_eq!(console.cpu.get_register(&Register8::A), 0x84);
    assert!(console.cpu.get_flag(&Flags::C));
}

#[test]
fn ei() {
    let mut console = init(vec![(0xFB, 0x100)]);

    assert!(!console.cpu.get_ime());

    for _ in 0..4 {
        console.tick().unwrap();
    }

    assert!(console.cpu.get_ime());
}

#[test]
fn halt_no_ime() {
    let mut console = halt_setup(false, 0b0000000, 0b00000001);
    // LD B, C
    console.ram.set(0x41, 0x101);
    console.cpu.set_register(0x45, &Register8::C);

    // Halt and do not un-halt, no IME and IE & IF = 0
    for _ in 0..8 {
        console.tick().unwrap();
    }

    assert_ne!(console.cpu.get_register(&Register8::B), 0x45);

    // IE & IF != 0, so queue a new instruction on the next tick
    console.ram.set(0b00000001, 0xFFFF);
    for _ in 0..4 {
        console.tick().unwrap();
    }

    assert_ne!(console.cpu.get_register(&Register8::B), 0x45);

    // The LD B, C instruction can now run
    for _ in 0..4 {
        console.tick().unwrap();
    }

    assert_eq!(console.cpu.get_register(&Register8::B), 0x45);
}

#[test]
fn stop() {
    // 0x37 Sets the carry flag to 1, just used to test if the cpu resumed
    let mut console = init(vec![(0x10, 0x100), (0x37, 0x102)]);

    for _ in 0..8 {
        console.tick().unwrap();
    }

    assert!(console.cpu.get_is_stopped());

    for _ in 0..8 {
        console.tick().unwrap();
    }

    assert_eq!(console.tick_counter, 8);

    // TAG_TODO Test for joypad input
    console.cpu.set_is_stopped(false);

    for _ in 0..4 {
        console.tick().unwrap();
    }

    assert!(console.cpu.get_flag(&Flags::C));
}

#[test]
fn jr_flag() {
    let mut console = init(vec![
        (0x20, 0x100),
        (0x05, 0x101),
        (0x38, 0x107),
        (0x05, 0x108),
        (0x04, 0x109),
    ]);
    console.cpu.set_flag(false, &Flags::Z);
    console.cpu.set_flag(false, &Flags::C);
    console.cpu.set_register(0x01, &Register8::B);

    for _ in 0..24 {
        console.tick().unwrap();
    }

    assert_eq!(console.cpu.get_register(&Register8::B), 0x02);
}

#[test]
fn jr_i8() {
    let mut console = init(vec![(0x18, 0x100), (0x05, 0x101)]);

    for _ in 0..12 {
        console.tick().unwrap();
    }

    assert_eq!(console.cpu.get_register_16(&Register16::Pc), 0x107);
}

#[test]
fn jump_hl() {
    let mut console = init(vec![(0xE9, 0x100), (0x41, 0x200)]);
    console.cpu.set_register_16(0x200, &Register16::Hl);
    console.cpu.set_register(0x45, &Register8::C);

    for _ in 0..8 {
        console.tick().unwrap();
    }

    assert_eq!(console.cpu.get_register(&Register8::B), 0x45);
}

#[test]
fn jump_nc() {
    let mut console = init(vec![
        (0xD2, 0x100),
        (0x00, 0x101),
        (0x02, 0x102),
        (0x41, 0x200),
    ]);
    console.cpu.set_register(0x45, &Register8::C);
    console.cpu.set_flag(false, &Flags::C);

    for _ in 0..20 {
        console.tick().unwrap();
    }

    assert_eq!(console.cpu.get_register(&Register8::B), 0x45);

    let mut console = init(vec![
        (0xD2, 0x100),
        (0x00, 0x101),
        (0x02, 0x102),
        (0x41, 0x200),
    ]);
    console.cpu.set_register(0x45, &Register8::C);
    console.cpu.set_flag(true, &Flags::C);

    for _ in 0..20 {
        console.tick().unwrap();
    }

    assert_ne!(console.cpu.get_register(&Register8::B), 0x45);
}

#[test]
fn bc_u16() {
    // (0x01, 0x100) is bc_u16 at address 0x100
    // the other two are the values to assign to registers C(50) and B(45)
    let mut console = init(vec![(0x01, 0x100), (50, 0x101), (45, 0x102)]);

    for _ in 0..12 {
        console.tick().unwrap();
    }

    assert_eq!(console.cpu.get_register(&Register8::B), 45);
    assert_eq!(console.cpu.get_register(&Register8::C), 50);
}

#[test]
fn de_u16() {
    // (0x11, 0x100) is de_u16 at address 0x100
    // the other two are the values to assign to registers E(50) and D(45)
    let mut console = init(vec![(0x11, 0x100), (50, 0x101), (45, 0x102)]);

    for _ in 0..12 {
        console.tick().unwrap();
    }

    assert_eq!(console.cpu.get_register(&Register8::D), 45);
    assert_eq!(console.cpu.get_register(&Register8::E), 50);
}

#[test]
fn hl_u16() {
    // (0x21, 0x100) is hl_u16 at address 0x100
    // the other two are the values to assign to registers L(50) and H(45)
    let mut console = init(vec![(0x21, 0x100), (50, 0x101), (45, 0x102)]);

    for _ in 0..12 {
        console.tick().unwrap();
    }

    assert_eq!(console.cpu.get_register(&Register8::H), 45);
    assert_eq!(console.cpu.get_register(&Register8::L), 50);
}

#[test]
fn sp_u16() {
    // (0x31, 0x100) is sp_u16 at address 0x100
    // the other two are the values to assign to registers SpHigh(50) and SpLow(45)
    let mut console = init(vec![(0x31, 0x100), (50, 0x101), (45, 0x102)]);

    for _ in 0..12 {
        console.tick().unwrap();
    }

    assert_eq!(console.cpu.get_register(&Register8::SpLow), 50);
    assert_eq!(console.cpu.get_register(&Register8::SpHigh), 45);
}

#[test]
fn u16_sp() {
    // (0x08, 0x100) is u16_sp at address 0x100
    // the other two are the values to assign to registers SpHigh(08) and SpLow(20)
    let mut console = init(vec![(0x08, 0x100), (0x08, 0x101), (0x20, 0x102)]);
    console.cpu.set_register_16(0x0110, &Register16::Sp);

    for _ in 0..20 {
        console.tick().unwrap();
    }

    assert_eq!(
        console.ram.fetch_16(0x2008),
        console.cpu.get_register_16(&Register16::Sp)
    );
}

#[test]
fn sp_hl() {
    let mut console = init(vec![(0xF9, 0x100)]);
    console.cpu.set_register_16(0x0110, &Register16::Hl);

    for _ in 0..8 {
        console.tick().unwrap();
    }

    assert_eq!(console.cpu.get_register_16(&Register16::Sp), 0x0110);
}

#[test]
fn go_from_ff00_plus_c() {
    let mut console = init(vec![(0xF2, 0x100), (0x02, 0xFF03)]);
    console.cpu.set_register(0x03, &Register8::C);

    for _ in 0..8 {
        console.tick().unwrap();
    }

    assert_eq!(console.cpu.get_register(&Register8::A), 0x02);
}

#[test]
fn go_from_ff00_plus_u8() {
    let mut console = init(vec![(0xF0, 0x100), (0x01, 0x101), (0x02, 0xFF01)]);

    for _ in 0..12 {
        console.tick().unwrap();
    }

    assert_eq!(console.cpu.get_register(&Register8::A), 0x02);
}

#[test]
fn go_from_register16_to_register_8() {
    let mut console = init(vec![(0x0A, 0x100), (0x03, 0x256)]);
    console.cpu.set_register_16(0x256, &Register16::Bc);

    for _ in 0..8 {
        console.tick().unwrap();
    }

    assert_eq!(console.cpu.get_register(&Register8::A), 0x03);
}

#[test]
fn go_from_register8_to_register_8() {
    let mut console = init(vec![(0x78, 0x100)]);
    console.cpu.set_register(1, &Register8::B);
    console.cpu.set_register(0, &Register8::A);

    for _ in 0..4 {
        console.tick().unwrap();
    }

    assert_eq!(console.cpu.get_register(&Register8::A), 1);
}

#[test]
fn go_from_register8_to_register_16() {
    let mut console = init(vec![(0x02, 0x100)]);
    console.cpu.set_register(0x10, &Register8::A);
    console.cpu.set_register_16(0x256, &Register16::Bc);

    for _ in 0..8 {
        console.tick().unwrap();
    }

    assert_eq!(console.ram.fetch(0x256), 0x10);
}

#[test]
fn go_from_register8_to_hl_ldd() {
    let mut console = init(vec![(0x32, 0x100)]);
    console.cpu.set_register(0x10, &Register8::A);
    console.cpu.set_register_16(0x256, &Register16::Hl);

    for _ in 0..8 {
        console.tick().unwrap();
    }

    // Ensure the byte of ram at Hl's location is loaded with register a's value
    assert_eq!(console.ram.fetch(0x256), 0x10);

    // Ensure hl is decremented
    assert_eq!(console.cpu.get_register_16(&Register16::Hl), 0x255);
}

#[test]
fn go_from_register8_to_hl_ldi() {
    let mut console = init(vec![(0x22, 0x100)]);
    console.cpu.set_register(0x10, &Register8::A);
    console.cpu.set_register_16(0x256, &Register16::Hl);

    for _ in 0..8 {
        console.tick().unwrap();
    }

    // Ensure the byte of ram at Hl's location is loaded with register a's value
    assert_eq!(console.ram.fetch(0x256), 0x10);

    // Ensure hl is incremented
    assert_eq!(console.cpu.get_register_16(&Register16::Hl), 0x257);
}

#[test]
fn go_from_register8_to_u16() {
    // EA is the A to u16 instruction
    // the following 2 bytes are 0x01, 0x02
    // Since it is little endian, this corresponds to address 0x0201
    // This address will be set to the value of register A(0x05)
    let mut console = init(vec![(0xEA, 0x100), (0x01, 0x101), (0x02, 0x102)]);
    console.cpu.set_register(0x05, &Register8::A);

    for _ in 0..16 {
        console.tick().unwrap();
    }

    // Ensure the byte of ram at 0x0201 is loaded with register a's value
    assert_eq!(console.ram.fetch(0x0201), 0x05);
}

#[test]
fn go_from_register8_to_ff00_c() {
    // Copy the value of A into memory address 0xFF00 + register C

    // 0xE2 LD (0xFF00 + C), A
    let mut console = init(vec![(0xE2, 0x100)]);
    console.cpu.set_register(0x03, &Register8::A);
    console.cpu.set_register(0x05, &Register8::C);

    // 0xE2 is 8 ticks
    for _ in 0..8 {
        console.tick().unwrap();
    }

    // Is Ram 0xFF00 + C == A?
    assert_eq!(console.ram.fetch(0xFF05), 0x03);
}

#[test]
fn go_from_register8_to_ff00_u8() {
    // Load the value of A into memory address 0xFF00 + u8

    // 0xE0 LD (0xFF00 + u8), A
    let mut console = init(vec![(0xE0, 0x100), (0x01, 0x101)]);
    console.cpu.set_register(0x03, &Register8::A);

    // 0xE0 is 12 ticks
    for _ in 0..12 {
        console.tick().unwrap();
    }

    // Is Ram 0xFF00 + u8 == A?
    assert_eq!(console.ram.fetch(0xFF01), 0x03);
}

#[test]
fn go_from_u16_to_register_8() {
    let mut console = init(vec![
        (0xFA, 0x100),
        (0x03, 0x101),
        (0x01, 0x102),
        (0x03, 0x103),
    ]);

    for _ in 0..16 {
        console.tick().unwrap();
    }

    assert_eq!(console.cpu.get_register(&Register8::A), 0x03);
}

#[test]
fn test_go_from_ff00_plus_c() {
    let mut console = init(vec![(0xF2, 0x100), (0x02, 0xFF01)]);
    console.cpu.set_register(0x01, &Register8::C);

    for _ in 0..8 {
        console.tick().unwrap();
    }

    assert_eq!(console.cpu.get_register(&Register8::A), 0x02);
}

#[test]
fn test_go_from_ff00_plus_u8() {
    let mut console = init(vec![(0xF0, 0x100), (0x01, 0x101), (0x02, 0xFF01)]);

    for _ in 0..12 {
        console.tick().unwrap();
    }

    assert_eq!(console.cpu.get_register(&Register8::A), 0x02);
}

#[test]
fn test_go_from_hl_hl_plus() {
    let mut console = init(vec![(0x2A, 0x100), (0x05, 0x103)]);
    console.cpu.set_register_16(0x103, &Register16::Hl);

    for _ in 0..8 {
        console.tick().unwrap();
    }

    assert_eq!(console.cpu.get_register(&Register8::A), 0x05);
    assert_eq!(console.cpu.get_register_16(&Register16::Hl), 0x104);
}

#[test]
fn test_go_from_hl_hl_minus() {
    let mut console = init(vec![(0x3A, 0x100), (0x05, 0x103)]);
    console.cpu.set_register_16(0x103, &Register16::Hl);

    for _ in 0..8 {
        console.tick().unwrap();
    }

    assert_eq!(console.cpu.get_register(&Register8::A), 0x05);
    assert_eq!(console.cpu.get_register_16(&Register16::Hl), 0x102);
}

#[test]
fn test_go_from_u8_to_register_8() {
    let mut console = init(vec![(0x3E, 0x100), (0x03, 0x101)]);

    for _ in 0..8 {
        console.tick().unwrap();
    }

    assert_eq!(console.cpu.get_register(&Register8::A), 0x03);
}

#[test]
fn test_go_from_u8_to_register_16() {
    let mut console = init(vec![(0x36, 0x100), (0x03, 0x101)]);
    console.cpu.set_register_16(0x102, &Register16::Hl);

    for _ in 0..12 {
        console.tick().unwrap();
    }

    assert_eq!(console.ram.fetch(0x102), 0x03);
}

#[test]
fn test_load8_to_register_8() {
    let mut console = init(vec![(0x78, 0x100)]);
    console.cpu.set_register(1, &Register8::B);
    console.cpu.set_register(0, &Register8::A);

    for _ in 0..4 {
        console.tick().unwrap();
    }

    assert_eq!(console.cpu.get_register(&Register8::A), 1);
}

#[test]
fn test_load8_to_register_16() {
    let mut console = init(vec![(0x02, 0x100)]);
    console.cpu.set_register(0x10, &Register8::A);
    console.cpu.set_register_16(0x256, &Register16::Bc);

    for _ in 0..8 {
        console.tick().unwrap();
    }

    assert_eq!(console.ram.fetch(0x256), 0x10);
}

#[test]
fn test_load8_to_hl_ldd() {
    let mut console = init(vec![(0x32, 0x100)]);
    console.cpu.set_register(0x10, &Register8::A);
    console.cpu.set_register_16(0x256, &Register16::Hl);

    for _ in 0..8 {
        console.tick().unwrap();
    }

    // Ensure the byte of ram at Hl's location is loaded with register a's value
    assert_eq!(console.ram.fetch(0x256), 0x10);

    // Ensure hl is decremented
    assert_eq!(console.cpu.get_register_16(&Register16::Hl), 0x255);
}

#[test]
fn test_load8_to_hl_ldi() {
    let mut console = init(vec![(0x22, 0x100)]);
    console.cpu.set_register(0x10, &Register8::A);
    console.cpu.set_register_16(0x256, &Register16::Hl);

    for _ in 0..8 {
        console.tick().unwrap();
    }

    // Ensure the byte of ram at Hl's location is loaded with register a's value
    assert_eq!(console.ram.fetch(0x256), 0x10);

    // Ensure hl is incremented
    assert_eq!(console.cpu.get_register_16(&Register16::Hl), 0x257);
}

#[test]
fn test_load8_to_u16() {
    // EA is the A to u16 instruction
    // the following 2 bytes are 0x01, 0x02
    // Since it is little endian, this corresponds to address 0x0201
    // This address will be set to the value of register A(0x05)
    let mut console = init(vec![(0xEA, 0x100), (0x01, 0x101), (0x02, 0x102)]);
    console.cpu.set_register(0x05, &Register8::A);

    for _ in 0..16 {
        console.tick().unwrap();
    }

    // Ensure the byte of ram at 0x0201 is loaded with register a's value
    assert_eq!(console.ram.fetch(0x0201), 0x05);
}

#[test]
fn test_load8_to_ff00_c() {
    // Copy the value of A into memory address 0xFF00 + register C

    // 0xE2 LD (0xFF00 + C), A
    let mut console = init(vec![(0xE2, 0x100)]);
    console.cpu.set_register(0x03, &Register8::A);
    console.cpu.set_register(0x05, &Register8::C);

    // 0xE2 is 8 ticks
    for _ in 0..8 {
        console.tick().unwrap();
    }

    // Is Ram 0xFF00 + C == A?
    assert_eq!(console.ram.fetch(0xFF05), 0x03);
}

#[test]
fn test_load8_to_ff00_u8() {
    // Load the value of A into memory address 0xFF00 + u8

    // 0xE2 LD (0xFF00 + u8), A
    let mut console = init(vec![(0xE0, 0x100), (0x01, 0x101)]);
    console.cpu.set_register(0x03, &Register8::A);

    // 0xE0 is 12 ticks
    for _ in 0..12 {
        console.tick().unwrap();
    }

    // Is Ram 0xFF00 + u8 == A?
    assert_eq!(console.ram.fetch(0xFF01), 0x03);
}

#[test]
fn stack_pop() {
    let mut console = init(vec![(0xC1, 0x100), (0x45, 0x200), (0x67, 0x201)]);
    console.cpu.set_register_16(0x200, &Register16::Sp);

    for _ in 0..16 {
        console.tick().unwrap();
    }

    assert_eq!(
        console.cpu.get_register(&Register8::B),
        console.ram.fetch(0x201)
    );
    assert_eq!(
        console.cpu.get_register(&Register8::C),
        console.ram.fetch(0x200)
    );
}

#[test]
fn stack_push() {
    let mut console = init(vec![(0xC5, 0x100)]);
    console.cpu.set_register_16(0x4567, &Register16::Bc);
    console.cpu.set_register_16(0x201, &Register16::Sp);

    for _ in 0..16 {
        console.tick().unwrap();
    }

    assert_eq!(console.ram.fetch(0x200), 0x45);
    assert_eq!(console.ram.fetch(0x201), 0x67);
}

#[test]
fn restart() {
    let mut console = init(vec![(0xCF, 0x102)]);
    console.cpu.set_register_16(0x102, &Register16::Pc);
    console.cpu.set_register_16(0x201, &Register16::Sp);

    for _ in 0..16 {
        console.tick().unwrap();
    }

    assert_eq!(console.cpu.get_register_16(&Register16::Pc), 0x0008);
    assert_eq!(console.ram.fetch(0x200), 0x03);
    assert_eq!(console.ram.fetch(0x201), 0x01);
}

#[test]
fn ret_flag() {
    let mut console = init(vec![(0xC0, 0x100), (0x20, 0x201), (0x02, 0x202)]);
    console.cpu.set_register_16(0x200, &Register16::Sp);
    console.cpu.set_flag(
        true,
        &Flags::Z,
    );

    for _ in 0..16 {
        console.tick().unwrap();
    }

    assert_ne!(console.cpu.get_register_16(&Register16::Pc), 0x0220);

    let mut console = init(vec![(0xD8, 0x100), (0x20, 0x201), (0x02, 0x202)]);
    console.cpu.set_register_16(0x200, &Register16::Sp);
    console.cpu.set_flag(
        true,
        &Flags::C,
    );

    for _ in 0..16 {
        console.tick().unwrap();
    }

    assert!(!console.cpu.get_ime());
    assert_eq!(console.cpu.get_register_16(&Register16::Pc), 0x0220);
}
