use vstd::prelude::*;
use vstd::arithmetic::div_mod::lemma_small_mod;

use crate::bits::lemma_byte_fields;
use crate::state::{StateError, available, bool_byte, has_bytes, push_bytes};

verus! {

/// The byte at index `i` of `s`, or 0xFF where `s` has no such byte
/// (an open bus reads as all ones).
pub open spec fn byte_or_ff(s: Seq<u8>, i: int) -> u8 {
    if 0 <= i < s.len() {
        s[i]
    } else {
        0xFF
    }
}

/// `s` with index `i` replaced by `v`, or `s` itself where `i` is out of range.
pub open spec fn update_in_range(s: Seq<u8>, i: int, v: u8) -> Seq<u8> {
    if 0 <= i < s.len() {
        s.update(i, v)
    } else {
        s
    }
}

/// The number of whole banks of `size` bytes in `len` bytes, but at least one.
pub open spec fn bank_count(len: nat, size: nat) -> nat {
    if len / size >= 1 {
        len / size
    } else {
        1
    }
}

/// The abstract state of a cartridge's memory bank controller.
pub enum MbcState {
    /// A plain 32 KiB cartridge with no banking.
    NoMbc { rom: Seq<u8>, ram: Seq<u8> },
    /// An MBC1 controller.
    Mbc1 {
        rom: Seq<u8>,
        ram: Seq<u8>,
        rom_bank: u8,
        ram_bank: u8,
        ram_enabled: bool,
        banking_mode: bool,
    },
    /// An MBC3 controller (its clock registers are not emulated).
    Mbc3 { rom: Seq<u8>, ram: Seq<u8>, rom_bank: u8, ram_bank: u8, ram_enabled: bool },
}

/// The ROM bank mapped at 0x4000-0x7FFF by an MBC1.
pub open spec fn mbc1_rom_bank(rom_len: nat, rom_bank: u8, ram_bank: u8) -> nat {
    (((ram_bank % 4) * 32 + rom_bank % 32) as nat) % bank_count(rom_len, 0x4000)
}

/// The ROM bank mapped at 0x0000-0x3FFF by an MBC1.
pub open spec fn mbc1_bank0(rom_len: nat, ram_bank: u8, banking_mode: bool) -> nat {
    if banking_mode {
        (((ram_bank % 4) * 32) as nat) % bank_count(rom_len, 0x4000)
    } else {
        0
    }
}

/// The RAM bank mapped at 0xA000-0xBFFF by an MBC1.
pub open spec fn mbc1_ram_bank(ram_len: nat, ram_bank: u8, banking_mode: bool) -> nat {
    if banking_mode {
        ((ram_bank % 4) as nat) % bank_count(ram_len, 0x2000)
    } else {
        0
    }
}

/// The ROM bank mapped at 0x4000-0x7FFF by an MBC3.
pub open spec fn mbc3_rom_bank(rom_len: nat, rom_bank: u8) -> nat {
    if rom_len == 0 {
        0
    } else {
        ((rom_bank % 128) as nat) % bank_count(rom_len, 0x4000)
    }
}

impl MbcState {
    /// The byte a read of `address` returns.
    pub open spec fn read(self, address: u16) -> u8 {
        match self {
            MbcState::NoMbc { rom, ram } => {
                if address <= 0x7FFF {
                    byte_or_ff(rom, address as int)
                } else if 0xA000 <= address <= 0xBFFF {
                    byte_or_ff(ram, address - 0xA000)
                } else {
                    0xFF
                }
            },
            MbcState::Mbc1 { rom, ram, rom_bank, ram_bank, ram_enabled, banking_mode } => {
                if address <= 0x3FFF {
                    byte_or_ff(
                        rom,
                        mbc1_bank0(rom.len(), ram_bank, banking_mode) * 0x4000 + address,
                    )
                } else if address <= 0x7FFF {
                    byte_or_ff(
                        rom,
                        mbc1_rom_bank(rom.len(), rom_bank, ram_bank) * 0x4000 + (address
                            - 0x4000),
                    )
                } else if 0xA000 <= address <= 0xBFFF {
                    if !ram_enabled || ram.len() == 0 {
                        0xFF
                    } else {
                        byte_or_ff(
                            ram,
                            mbc1_ram_bank(ram.len(), ram_bank, banking_mode) * 0x2000 + (address
                                - 0xA000),
                        )
                    }
                } else {
                    0xFF
                }
            },
            MbcState::Mbc3 { rom, ram, rom_bank, ram_bank, ram_enabled } => {
                if address <= 0x3FFF {
                    byte_or_ff(rom, address as int)
                } else if address <= 0x7FFF {
                    byte_or_ff(rom, mbc3_rom_bank(rom.len(), rom_bank) * 0x4000 + (address - 0x4000))
                } else if 0xA000 <= address <= 0xBFFF {
                    if !ram_enabled {
                        0xFF
                    } else if ram_bank <= 0x03 {
                        byte_or_ff(ram, ram_bank * 0x2000 + (address - 0xA000))
                    } else {
                        0x00
                    }
                } else {
                    0xFF
                }
            },
        }
    }

    /// The state after `value` is written to `address`.
    pub open spec fn write(self, address: u16, value: u8) -> MbcState {
        match self {
            MbcState::NoMbc { rom, ram } => {
                if address <= 0x7FFF {
                    MbcState::NoMbc { rom: update_in_range(rom, address as int, value), ram }
                } else if 0xA000 <= address <= 0xBFFF {
                    MbcState::NoMbc { rom, ram: update_in_range(ram, address - 0xA000, value) }
                } else {
                    self
                }
            },
            MbcState::Mbc1 { rom, ram, rom_bank, ram_bank, ram_enabled, banking_mode } => {
                if address <= 0x1FFF {
                    MbcState::Mbc1 {
                        rom,
                        ram,
                        rom_bank,
                        ram_bank,
                        ram_enabled: value % 16 == 0x0A,
                        banking_mode,
                    }
                } else if address <= 0x3FFF {
                    MbcState::Mbc1 {
                        rom,
                        ram,
                        rom_bank: if value % 32 == 0 {
                            1
                        } else {
                            value % 32
                        },
                        ram_bank,
                        ram_enabled,
                        banking_mode,
                    }
                } else if address <= 0x5FFF {
                    MbcState::Mbc1 {
                        rom,
                        ram,
                        rom_bank,
                        ram_bank: value % 4,
                        ram_enabled,
                        banking_mode,
                    }
                } else if address <= 0x7FFF {
                    MbcState::Mbc1 {
                        rom,
                        ram,
                        rom_bank,
                        ram_bank,
                        ram_enabled,
                        banking_mode: value % 2 != 0,
                    }
                } else if 0xA000 <= address <= 0xBFFF && ram_enabled && ram.len() != 0 {
                    MbcState::Mbc1 {
                        rom,
                        ram: update_in_range(
                            ram,
                            mbc1_ram_bank(ram.len(), ram_bank, banking_mode) * 0x2000 + (address
                                - 0xA000),
                            value,
                        ),
                        rom_bank,
                        ram_bank,
                        ram_enabled,
                        banking_mode,
                    }
                } else {
                    self
                }
            },
            MbcState::Mbc3 { rom, ram, rom_bank, ram_bank, ram_enabled } => {
                if address <= 0x1FFF {
                    MbcState::Mbc3 { rom, ram, rom_bank, ram_bank, ram_enabled: value % 16 == 0x0A }
                } else if address <= 0x3FFF {
                    MbcState::Mbc3 {
                        rom,
                        ram,
                        rom_bank: if value % 128 == 0 {
                            1
                        } else {
                            value % 128
                        },
                        ram_bank,
                        ram_enabled,
                    }
                } else if address <= 0x5FFF {
                    MbcState::Mbc3 { rom, ram, rom_bank, ram_bank: value, ram_enabled }
                } else if 0xA000 <= address <= 0xBFFF && ram_enabled && ram_bank <= 0x03 {
                    MbcState::Mbc3 {
                        rom,
                        ram: update_in_range(ram, ram_bank * 0x2000 + (address - 0xA000), value),
                        rom_bank,
                        ram_bank,
                        ram_enabled,
                    }
                } else {
                    self
                }
            },
        }
    }

    /// The index in external RAM that `address` (0xA000-0xBFFF) reaches
    /// while RAM is accessible, if it does.
    pub open spec fn ram_index(self, address: u16) -> Option<int> {
        if !(0xA000 <= address <= 0xBFFF) {
            None
        } else {
            match self {
                MbcState::NoMbc { .. } => Some(address - 0xA000),
                MbcState::Mbc1 { ram, ram_bank, ram_enabled, banking_mode, .. } => if ram_enabled
                    && ram.len() != 0 {
                    Some(
                        mbc1_ram_bank(ram.len(), ram_bank, banking_mode) * 0x2000 + (address
                            - 0xA000),
                    )
                } else {
                    None
                },
                MbcState::Mbc3 { ram_bank, ram_enabled, .. } => if ram_enabled && ram_bank <= 0x03 {
                    Some(ram_bank * 0x2000 + (address - 0xA000))
                } else {
                    None
                },
            }
        }
    }

    /// The cartridge's ROM.
    pub open spec fn rom(self) -> Seq<u8> {
        match self {
            MbcState::NoMbc { rom, .. } => rom,
            MbcState::Mbc1 { rom, .. } => rom,
            MbcState::Mbc3 { rom, .. } => rom,
        }
    }

    /// The bytes the controller's state is saved as: its bank registers
    /// (none for a plain cartridge; ROM bank, RAM bank, RAM enable and, for
    /// an MBC1, the banking mode), then the external RAM.
    pub open spec fn state_bytes(self) -> Seq<u8> {
        match self {
            MbcState::NoMbc { ram, .. } => ram,
            MbcState::Mbc1 { ram, rom_bank, ram_bank, ram_enabled, banking_mode, .. } => seq![
                rom_bank,
                ram_bank,
                bool_byte(ram_enabled),
                bool_byte(banking_mode),
            ] + ram,
            MbcState::Mbc3 { ram, rom_bank, ram_bank, ram_enabled, .. } => seq![
                rom_bank,
                ram_bank,
                bool_byte(ram_enabled),
            ] + ram,
        }
    }

    /// How many bytes the controller's saved state takes.
    pub open spec fn state_len(self) -> nat {
        match self {
            MbcState::NoMbc { ram, .. } => ram.len(),
            MbcState::Mbc1 { ram, .. } => 4 + ram.len(),
            MbcState::Mbc3 { ram, .. } => 3 + ram.len(),
        }
    }

    /// The controller after its saved state is read from `b` at `p`: the
    /// kind, the ROM and the size of the external RAM stay.
    pub open spec fn loaded(self, b: Seq<u8>, p: int) -> MbcState {
        match self {
            MbcState::NoMbc { rom, ram } => MbcState::NoMbc {
                rom,
                ram: b.subrange(p, p + ram.len()),
            },
            MbcState::Mbc1 { rom, ram, .. } => MbcState::Mbc1 {
                rom,
                ram: b.subrange(p + 4, p + 4 + ram.len()),
                rom_bank: b[p],
                ram_bank: b[p + 1],
                ram_enabled: b[p + 2] != 0,
                banking_mode: b[p + 3] != 0,
            },
            MbcState::Mbc3 { rom, ram, .. } => MbcState::Mbc3 {
                rom,
                ram: b.subrange(p + 3, p + 3 + ram.len()),
                rom_bank: b[p],
                ram_bank: b[p + 1],
                ram_enabled: b[p + 2] != 0,
            },
        }
    }

    /// Whether two controller states are of the same cartridge: the same
    /// kind, the same ROM and the same external RAM size.
    pub open spec fn same_layout(self, other: MbcState) -> bool {
        match (self, other) {
            (MbcState::NoMbc { rom: r1, ram: a1 }, MbcState::NoMbc { rom: r2, ram: a2 }) => r1
                == r2 && a1.len() == a2.len(),
            (MbcState::Mbc1 { rom: r1, ram: a1, .. }, MbcState::Mbc1 { rom: r2, ram: a2, .. }) => r1
                == r2 && a1.len() == a2.len(),
            (MbcState::Mbc3 { rom: r1, ram: a1, .. }, MbcState::Mbc3 { rom: r2, ram: a2, .. }) => r1
                == r2 && a1.len() == a2.len(),
            _ => false,
        }
    }

    /// The cartridge's external RAM.
    pub open spec fn external_ram(self) -> Seq<u8> {
        match self {
            MbcState::NoMbc { ram, .. } => ram,
            MbcState::Mbc1 { ram, .. } => ram,
            MbcState::Mbc3 { ram, .. } => ram,
        }
    }
}

/// A memory bank controller: what the cartridge does with reads and writes
/// on the ROM (0x0000-0x7FFF) and external RAM (0xA000-0xBFFF) ranges.
pub trait Mbc {
    /// The abstract state of the controller.
    spec fn state(&self) -> MbcState;

    fn read(&self, address: u16) -> (r: u8)
        ensures
            r == self.state().read(address),
    ;

    fn write(&mut self, address: u16, value: u8)
        ensures
            final(self).state() == old(self).state().write(address, value),
    ;
}

fn read_or_ff(bytes: &Vec<u8>, index: usize) -> (r: u8)
    ensures
        r == byte_or_ff(bytes@, index as int),
{
    if index < bytes.len() {
        bytes[index]
    } else {
        0xFF
    }
}

fn write_in_range(bytes: &mut Vec<u8>, index: usize, value: u8)
    ensures
        final(bytes)@ == update_in_range(old(bytes)@, index as int, value),
{
    if index < bytes.len() {
        bytes.set(index, value);
    }
}

/// Overwrite `bytes` with as many bytes of `input`, read from `pos` on.
fn read_into(bytes: &mut Vec<u8>, input: &[u8], pos: usize)
    requires
        has_bytes(input@, pos as int, old(bytes)@.len() as int),
    ensures
        final(bytes)@ == input@.subrange(pos as int, pos + old(bytes)@.len()),
{
    let n = bytes.len();
    let len = input.len();
    let mut i: usize = 0;
    while i < n
        invariant
            i <= n,
            n == bytes@.len(),
            len == input@.len(),
            has_bytes(input@, pos as int, n as int),
            forall|j: int| 0 <= j < i ==> #[trigger] bytes@[j] == input@[pos + j],
        decreases n - i,
    {
        bytes.set(i, input[pos + i]);
        i = i + 1;
    }
    assert(bytes@ =~= input@.subrange(pos as int, pos + n));
}

fn count_banks(len: usize, size: usize) -> (r: usize)
    requires
        size > 0,
    ensures
        r == bank_count(len as nat, size as nat),
        r >= 1,
        r == 1 || r * size <= len,
{
    let n = len / size;
    if n >= 1 {
        assert(n * size <= len) by (nonlinear_arith)
            requires
                n == len / size,
                size > 0,
        ;
        n
    } else {
        1
    }
}

/// A cartridge without a bank controller.
pub struct NoMbc {
    rom: Vec<u8>,
    ram: Vec<u8>,
}

impl NoMbc {
    pub fn new(rom: Vec<u8>, ram_size: usize) -> (m: NoMbc)
        ensures
            m.state() == (MbcState::NoMbc { rom: rom@, ram: Seq::new(ram_size as nat, |i| 0u8) }),
    {
        let ram = vec![0u8; ram_size];
        proof {
            assert(ram@ =~= Seq::new(ram_size as nat, |i| 0u8));
        }
        NoMbc { rom, ram }
    }
}

impl Mbc for NoMbc {
    closed spec fn state(&self) -> MbcState {
        MbcState::NoMbc { rom: self.rom@, ram: self.ram@ }
    }

    fn read(&self, address: u16) -> (r: u8) {
        if address <= 0x7FFF {
            read_or_ff(&self.rom, address as usize)
        } else if 0xA000 <= address && address <= 0xBFFF {
            read_or_ff(&self.ram, (address - 0xA000) as usize)
        } else {
            0xFF
        }
    }

    fn write(&mut self, address: u16, value: u8) {
        if address <= 0x7FFF {
            write_in_range(&mut self.rom, address as usize, value);
        } else if 0xA000 <= address && address <= 0xBFFF {
            write_in_range(&mut self.ram, (address - 0xA000) as usize, value);
        }
    }
}


/// A cartridge with an MBC1 bank controller.
pub struct Mbc1 {
    rom: Vec<u8>,
    ram: Vec<u8>,
    rom_bank: u8,
    ram_bank: u8,
    ram_enabled: bool,
    banking_mode: bool,
}

impl Mbc1 {
    pub fn new(rom: Vec<u8>, ram_size: usize) -> (m: Mbc1)
        ensures
            m.state() == (MbcState::Mbc1 {
                rom: rom@,
                ram: Seq::new(ram_size as nat, |i| 0u8),
                rom_bank: 1,
                ram_bank: 0,
                ram_enabled: false,
                banking_mode: false,
            }),
    {
        let ram = vec![0u8; ram_size];
        proof {
            assert(ram@ =~= Seq::new(ram_size as nat, |i| 0u8));
        }
        Mbc1 { rom, ram, rom_bank: 1, ram_bank: 0, ram_enabled: false, banking_mode: false }
    }

    /// The ROM bank mapped at 0x4000-0x7FFF.
    fn rom_bank_number(&self) -> (r: usize)
        ensures
            r == mbc1_rom_bank(self.rom@.len(), self.rom_bank, self.ram_bank),
            r == 0 || r * 0x4000 + 0x4000 <= self.rom@.len(),
    {
        let rb = self.rom_bank;
        let ab = self.ram_bank;
        let lower = (rb as usize) & 0x1F;
        let upper = ((ab as usize) & 0x03) << 5;
        assert(upper | lower == (ab % 4) * 32 + rb % 32) by (bit_vector)
            requires
                lower == (rb as usize) & 0x1F,
                upper == ((ab as usize) & 0x03) << 5,
        ;
        let count = count_banks(self.rom.len(), 0x4000);
        let r = (upper | lower) % count;
        assert(r as nat == (((ab % 4) * 32 + rb % 32) as nat) % (count as nat));
        proof {
            if r != 0 {
                assert(r * 0x4000 + 0x4000 <= count * 0x4000) by (nonlinear_arith)
                    requires
                        r < count,
                ;
            }
        }
        r
    }

    /// The ROM bank mapped at 0x0000-0x3FFF.
    fn bank0_number(&self) -> (r: usize)
        ensures
            r == mbc1_bank0(self.rom@.len(), self.ram_bank, self.banking_mode),
            r == 0 || r * 0x4000 + 0x4000 <= self.rom@.len(),
    {
        if self.banking_mode {
            let upper = (self.ram_bank as usize & 0x03) << 5;
            let ab = self.ram_bank;
            proof {
                lemma_byte_fields(ab);
            }
            let count = count_banks(self.rom.len(), 0x4000);
            let r = upper % count;
            proof {
                if r != 0 {
                    assert(r * 0x4000 + 0x4000 <= count * 0x4000) by (nonlinear_arith)
                        requires
                            r < count,
                    ;
                }
            }
            r
        } else {
            0
        }
    }

    /// The RAM bank mapped at 0xA000-0xBFFF.
    fn ram_bank_number(&self) -> (r: usize)
        ensures
            r == mbc1_ram_bank(self.ram@.len(), self.ram_bank, self.banking_mode),
            r == 0 || r * 0x2000 + 0x2000 <= self.ram@.len(),
    {
        if self.banking_mode {
            let ab = self.ram_bank;
            proof {
                lemma_byte_fields(ab);
            }
            let count = count_banks(self.ram.len(), 0x2000);
            let r = (self.ram_bank as usize & 0x03) % count;
            proof {
                if r != 0 {
                    assert(r * 0x2000 + 0x2000 <= count * 0x2000) by (nonlinear_arith)
                        requires
                            r < count,
                    ;
                }
            }
            r
        } else {
            0
        }
    }
}

impl Mbc for Mbc1 {
    closed spec fn state(&self) -> MbcState {
        MbcState::Mbc1 {
            rom: self.rom@,
            ram: self.ram@,
            rom_bank: self.rom_bank,
            ram_bank: self.ram_bank,
            ram_enabled: self.ram_enabled,
            banking_mode: self.banking_mode,
        }
    }

    fn read(&self, address: u16) -> (r: u8) {
        if address <= 0x3FFF {
            let bank = self.bank0_number();
            let _len = self.rom.len();
            read_or_ff(&self.rom, bank * 0x4000 + address as usize)
        } else if address <= 0x7FFF {
            let bank = self.rom_bank_number();
            let _len = self.rom.len();
            read_or_ff(&self.rom, bank * 0x4000 + (address as usize - 0x4000))
        } else if 0xA000 <= address && address <= 0xBFFF {
            if !self.ram_enabled || self.ram.len() == 0 {
                return 0xFF;
            }
            let bank = self.ram_bank_number();
            read_or_ff(&self.ram, bank * 0x2000 + (address as usize - 0xA000))
        } else {
            0xFF
        }
    }

    fn write(&mut self, address: u16, value: u8) {
        if address <= 0x1FFF {
            proof {
                lemma_byte_fields(value);
            }
            self.ram_enabled = (value & 0x0F) == 0x0A;
        } else if address <= 0x3FFF {
            proof {
                lemma_byte_fields(value);
            }
            let mut bank = value & 0x1F;
            if bank == 0 {
                bank = 1;
            }
            self.rom_bank = bank;
        } else if address <= 0x5FFF {
            proof {
                lemma_byte_fields(value);
            }
            self.ram_bank = value & 0x03;
        } else if address <= 0x7FFF {
            proof {
                lemma_byte_fields(value);
            }
            self.banking_mode = (value & 0x01) != 0;
        } else if 0xA000 <= address && address <= 0xBFFF {
            if !self.ram_enabled || self.ram.len() == 0 {
                return;
            }
            let bank = self.ram_bank_number();
            write_in_range(&mut self.ram, bank * 0x2000 + (address as usize - 0xA000), value);
        }
    }
}

/// A cartridge with an MBC3 bank controller (without its real-time clock).
pub struct Mbc3 {
    rom: Vec<u8>,
    ram: Vec<u8>,
    rom_bank: u8,
    ram_bank: u8,
    ram_enabled: bool,
}

impl Mbc3 {
    pub fn new(rom: Vec<u8>, ram_size: usize) -> (m: Mbc3)
        ensures
            m.state() == (MbcState::Mbc3 {
                rom: rom@,
                ram: Seq::new(ram_size as nat, |i| 0u8),
                rom_bank: 1,
                ram_bank: 0,
                ram_enabled: false,
            }),
    {
        let ram = vec![0u8; ram_size];
        proof {
            assert(ram@ =~= Seq::new(ram_size as nat, |i| 0u8));
        }
        Mbc3 { rom, ram, rom_bank: 1, ram_bank: 0, ram_enabled: false }
    }

    /// The ROM bank mapped at 0x4000-0x7FFF.
    fn rom_bank_number(&self) -> (r: usize)
        ensures
            r == mbc3_rom_bank(self.rom@.len(), self.rom_bank),
            r == 0 || r * 0x4000 + 0x4000 <= self.rom@.len(),
    {
        let rb = self.rom_bank;
        proof {
            lemma_byte_fields(rb);
        }
        let bank = self.rom_bank as usize & 0x7F;
        if self.rom.len() == 0 {
            0
        } else {
            let count = count_banks(self.rom.len(), 0x4000);
            let r = bank % count;
            proof {
                if r != 0 {
                    assert(r * 0x4000 + 0x4000 <= count * 0x4000) by (nonlinear_arith)
                        requires
                            r < count,
                    ;
                }
            }
            r
        }
    }
}

impl Mbc for Mbc3 {
    closed spec fn state(&self) -> MbcState {
        MbcState::Mbc3 {
            rom: self.rom@,
            ram: self.ram@,
            rom_bank: self.rom_bank,
            ram_bank: self.ram_bank,
            ram_enabled: self.ram_enabled,
        }
    }

    fn read(&self, address: u16) -> (r: u8) {
        if address <= 0x3FFF {
            read_or_ff(&self.rom, address as usize)
        } else if address <= 0x7FFF {
            let bank = self.rom_bank_number();
            let _len = self.rom.len();
            read_or_ff(&self.rom, bank * 0x4000 + (address as usize - 0x4000))
        } else if 0xA000 <= address && address <= 0xBFFF {
            if !self.ram_enabled {
                return 0xFF;
            }
            if self.ram_bank <= 0x03 {
                read_or_ff(&self.ram, (self.ram_bank as usize) * 0x2000 + (address as usize - 0xA000))
            } else {
                0x00
            }
        } else {
            0xFF
        }
    }

    fn write(&mut self, address: u16, value: u8) {
        if address <= 0x1FFF {
            proof {
                lemma_byte_fields(value);
            }
            self.ram_enabled = (value & 0x0F) == 0x0A;
        } else if address <= 0x3FFF {
            proof {
                lemma_byte_fields(value);
            }
            let mut bank = value & 0x7F;
            if bank == 0 {
                bank = 1;
            }
            self.rom_bank = bank;
        } else if address <= 0x5FFF {
            self.ram_bank = value;
        } else if address <= 0x7FFF {
        } else if 0xA000 <= address && address <= 0xBFFF {
            if !self.ram_enabled {
                return;
            }
            if self.ram_bank <= 0x03 {
                write_in_range(
                    &mut self.ram,
                    (self.ram_bank as usize) * 0x2000 + (address as usize - 0xA000),
                    value,
                );
            }
        }
    }
}


/// The RAM size that header byte 0x0149 announces.
pub open spec fn ram_size_for_code(code: u8) -> nat {
    if code == 0x01 {
        0x800
    } else if code == 0x02 {
        0x2000
    } else if code == 0x03 {
        0x8000
    } else if code == 0x04 {
        0x20000
    } else if code == 0x05 {
        0x10000
    } else {
        0
    }
}

/// The controller state a ROM image starts in: the kind comes from header
/// byte 0x0147 and the external RAM size from header byte 0x0149; kinds that
/// are not emulated fall back to no controller.
pub open spec fn cartridge_from_rom(bytes: Seq<u8>) -> MbcState {
    let mbc_type: u8 = if bytes.len() > 0x0147 {
        bytes[0x0147]
    } else {
        0x00
    };
    let ram_size: nat = if bytes.len() > 0x0149 {
        ram_size_for_code(bytes[0x0149])
    } else {
        0
    };
    let ram = Seq::new(ram_size, |i| 0u8);
    if 0x01 <= mbc_type <= 0x03 {
        MbcState::Mbc1 {
            rom: bytes,
            ram,
            rom_bank: 1,
            ram_bank: 0,
            ram_enabled: false,
            banking_mode: false,
        }
    } else if 0x0F <= mbc_type <= 0x13 {
        MbcState::Mbc3 { rom: bytes, ram, rom_bank: 1, ram_bank: 0, ram_enabled: false }
    } else {
        MbcState::NoMbc { rom: bytes, ram }
    }
}

/// The controller a cartridge carries.
enum CartridgeMbc {
    NoMbc(NoMbc),
    Mbc1(Mbc1),
    Mbc3(Mbc3),
}

/// A game cartridge: its ROM, its external RAM and its bank controller.
pub struct Cartridge {
    mbc: CartridgeMbc,
}

impl View for Cartridge {
    type V = MbcState;

    closed spec fn view(&self) -> MbcState {
        match &self.mbc {
            CartridgeMbc::NoMbc(m) => m.state(),
            CartridgeMbc::Mbc1(m) => m.state(),
            CartridgeMbc::Mbc3(m) => m.state(),
        }
    }
}

impl Cartridge {
    /// An empty 32 KiB cartridge with 8 KiB of RAM and no bank controller.
    pub open spec fn blank() -> MbcState {
        MbcState::NoMbc { rom: Seq::new(0x8000, |i| 0u8), ram: Seq::new(0x2000, |i| 0u8) }
    }

    /// Build the cartridge a ROM image describes.
    ///
    /// The ROM size announced at 0x0148 is computed as a `usize` shift and
    /// not used afterwards; a shift by the width of `usize` or more would
    /// overflow, so such images are excluded.
    pub fn from_rom(bytes: Vec<u8>) -> (c: Cartridge)
        requires
            bytes@.len() > 0x0148 ==> (bytes@[0x0148] as u32) < usize::BITS,
        ensures
            c@ == cartridge_from_rom(bytes@),
    {
        let ghost image = bytes@;
        let mbc_type = if bytes.len() > 0x0147 {
            bytes[0x0147]
        } else {
            0x00
        };
        let ram_size: usize = if bytes.len() > 0x0149 {
            match bytes[0x0149] {
                0x00 => 0,
                0x01 => 0x800,
                0x02 => 0x2000,
                0x03 => 0x8000,
                0x04 => 0x20000,
                0x05 => 0x10000,
                _ => 0,
            }
        } else {
            0
        };
        let mbc = if 0x01 <= mbc_type && mbc_type <= 0x03 {
            CartridgeMbc::Mbc1(Mbc1::new(bytes, ram_size))
        } else if 0x0F <= mbc_type && mbc_type <= 0x13 {
            CartridgeMbc::Mbc3(Mbc3::new(bytes, ram_size))
        } else {
            CartridgeMbc::NoMbc(NoMbc::new(bytes, ram_size))
        };
        Cartridge { mbc }
    }

    /// Read a byte from the cartridge's ROM or external RAM range.
    pub fn read(&self, address: u16) -> (r: u8)
        ensures
            r == self@.read(address),
    {
        match &self.mbc {
            CartridgeMbc::NoMbc(m) => m.read(address),
            CartridgeMbc::Mbc1(m) => m.read(address),
            CartridgeMbc::Mbc3(m) => m.read(address),
        }
    }

    /// Write a byte to the cartridge's ROM or external RAM range.
    pub fn write(&mut self, address: u16, value: u8)
        ensures
            final(self)@ == old(self)@.write(address, value),
    {
        match &mut self.mbc {
            CartridgeMbc::NoMbc(m) => m.write(address, value),
            CartridgeMbc::Mbc1(m) => m.write(address, value),
            CartridgeMbc::Mbc3(m) => m.write(address, value),
        }
    }

    /// The contents of the external RAM, which a battery keeps across power cycles.
    pub fn save_ram(&self) -> (r: Vec<u8>)
        ensures
            r@ == self@.external_ram(),
    {
        let ram = match &self.mbc {
            CartridgeMbc::NoMbc(m) => &m.ram,
            CartridgeMbc::Mbc1(m) => &m.ram,
            CartridgeMbc::Mbc3(m) => &m.ram,
        };
        let mut out: Vec<u8> = Vec::new();
        let mut i: usize = 0;
        while i < ram.len()
            invariant
                i <= ram@.len(),
                out@ == ram@.subrange(0, i as int),
                ram@ == self@.external_ram(),
            decreases ram@.len() - i,
        {
            out.push(ram[i]);
            i = i + 1;
            assert(out@ =~= ram@.subrange(0, i as int));
        }
        assert(out@ =~= ram@);
        out
    }
}

impl Cartridge {
    /// Append the controller's saved state (see `MbcState::state_bytes`).
    pub fn save_state(&self, out: &mut Vec<u8>)
        ensures
            final(out)@ == old(out)@ + self@.state_bytes(),
    {
        match &self.mbc {
            CartridgeMbc::NoMbc(m) => {
                push_bytes(out, m.ram.as_slice());
            },
            CartridgeMbc::Mbc1(m) => {
                out.push(m.rom_bank);
                out.push(m.ram_bank);
                out.push(m.ram_enabled as u8);
                out.push(m.banking_mode as u8);
                push_bytes(out, m.ram.as_slice());
            },
            CartridgeMbc::Mbc3(m) => {
                out.push(m.rom_bank);
                out.push(m.ram_bank);
                out.push(m.ram_enabled as u8);
                push_bytes(out, m.ram.as_slice());
            },
        }
        assert(out@ =~= old(out)@ + self@.state_bytes());
    }

    /// Read the controller's saved state from `input` at `pos`; nothing
    /// changes when the input does not hold all of it.
    pub fn load_state(&mut self, input: &[u8], pos: usize) -> (r: Result<usize, StateError>)
        ensures
            has_bytes(input@, pos as int, old(self)@.state_len() as int) ==> r == Ok::<
                usize,
                StateError,
            >((pos + old(self)@.state_len()) as usize) && final(self)@ == old(self)@.loaded(
                input@,
                pos as int,
            ),
            !has_bytes(input@, pos as int, old(self)@.state_len() as int) ==> r == Err::<
                usize,
                StateError,
            >(StateError::UnexpectedEof) && final(self)@ == old(self)@,
    {
        let _len = input.len();
        match &mut self.mbc {
            CartridgeMbc::NoMbc(m) => {
                let n = m.ram.len();
                if !available(input, pos, n) {
                    return Err(StateError::UnexpectedEof);
                }
                read_into(&mut m.ram, input, pos);
                Ok(pos + n)
            },
            CartridgeMbc::Mbc1(m) => {
                let n = m.ram.len();
                if !available(input, pos, 4) || !available(input, pos + 4, n) {
                    return Err(StateError::UnexpectedEof);
                }
                m.rom_bank = input[pos];
                m.ram_bank = input[pos + 1];
                m.ram_enabled = input[pos + 2] != 0;
                m.banking_mode = input[pos + 3] != 0;
                read_into(&mut m.ram, input, pos + 4);
                Ok(pos + 4 + n)
            },
            CartridgeMbc::Mbc3(m) => {
                let n = m.ram.len();
                if !available(input, pos, 3) || !available(input, pos + 3, n) {
                    return Err(StateError::UnexpectedEof);
                }
                m.rom_bank = input[pos];
                m.ram_bank = input[pos + 1];
                m.ram_enabled = input[pos + 2] != 0;
                read_into(&mut m.ram, input, pos + 3);
                Ok(pos + 3 + n)
            },
        }
    }
}

impl Default for Cartridge {
    fn default() -> (c: Cartridge)
        ensures
            c@ == Cartridge::blank(),
    {
        let rom = vec![0u8; 0x8000];
        proof {
            assert(rom@ =~= Seq::new(0x8000, |i| 0u8));
        }
        Cartridge { mbc: CartridgeMbc::NoMbc(NoMbc::new(rom, 0x2000)) }
    }
}

/// A byte written to accessible external RAM reads back, and the write
/// touches only that byte of external RAM.
pub proof fn law_external_ram_read_after_write(m: MbcState, address: u16, other: u16, v: u8)
    requires
        m.ram_index(address) matches Some(i) && 0 <= i < m.external_ram().len(),
    ensures
        m.write(address, v).read(address) == v,
        m.write(address, v).external_ram() == m.external_ram().update(
            m.ram_index(address)->0,
            v,
        ),
        m.write(address, v).ram_index(other) == m.ram_index(other),
{
}

/// On a banked cartridge (MBC1, MBC3) no write changes the ROM: writes to
/// the ROM range only set the controller's registers.
pub proof fn law_banked_rom_read_only(m: MbcState, address: u16, v: u8)
    requires
        !(m is NoMbc),
    ensures
        m.write(address, v).rom() == m.rom(),
{
}

/// Selecting ROM bank 0 for the switchable area selects bank 1 instead.
pub proof fn law_bank_zero_selects_one(m: MbcState, address: u16, v: u8)
    requires
        0x2000 <= address <= 0x3FFF,
        !(m is NoMbc),
    ensures
        m.write(address, v) matches MbcState::Mbc1 { rom_bank, .. } ==> rom_bank % 32 != 0,
        m.write(address, v) matches MbcState::Mbc3 { rom_bank, .. } ==> rom_bank % 128 != 0,
{
}

/// The saved state of a controller is `state_len` bytes long.
pub proof fn lemma_cartridge_state_len(m: MbcState)
    ensures
        m.state_bytes().len() == m.state_len(),
{
}

/// Reading back a saved controller state restores it exactly, on a
/// cartridge of the same kind, ROM and RAM size.
pub proof fn law_cartridge_state_roundtrip(m: MbcState, d: MbcState, prefix: Seq<u8>, suffix: Seq<u8>)
    requires
        m.same_layout(d),
    ensures
        has_bytes(prefix + d.state_bytes() + suffix, prefix.len() as int, m.state_len() as int),
        m.loaded(prefix + d.state_bytes() + suffix, prefix.len() as int) == d,
        d.state_bytes().len() == d.state_len(),
        m.state_len() == d.state_len(),
{
    let b = prefix + d.state_bytes() + suffix;
    let p = prefix.len() as int;
    match (m, d) {
        (MbcState::NoMbc { .. }, MbcState::NoMbc { ram, .. }) => {
            assert(b.subrange(p, p + ram.len()) =~= ram);
        },
        (MbcState::Mbc1 { .. }, MbcState::Mbc1 { ram, .. }) => {
            assert(b.subrange(p + 4, p + 4 + ram.len()) =~= ram);
        },
        (MbcState::Mbc3 { .. }, MbcState::Mbc3 { ram, .. }) => {
            assert(b.subrange(p + 3, p + 3 + ram.len()) =~= ram);
        },
        _ => {},
    }
}

/// With at least `b + 1` banks of 16 KiB in a ROM of `len` bytes, bank `b`
/// is its own bank number modulo the bank count.
proof fn lemma_bank_in_range(len: nat, b: nat)
    requires
        len >= (b + 1) * 0x4000,
    ensures
        b % bank_count(len, 0x4000) == b,
        bank_count(len, 0x4000) > b,
{
    assert(len / 0x4000 >= b + 1) by (nonlinear_arith)
        requires
            len >= (b + 1) * 0x4000,
    ;
    lemma_small_mod(b, bank_count(len, 0x4000));
}

/// On an MBC3 whose ROM holds more than `v % 128` banks of 16 KiB, writing
/// `v` to 0x2000-0x3FFF maps ROM bank `v % 128` (seven bank bits; 0 selects
/// bank 1) at 0x4000-0x7FFF: the byte at 0x4000 + i is ROM byte
/// `bank * 0x4000 + i`.
pub proof fn law_mbc3_rom_bank_select(m: MbcState, address: u16, v: u8, i: u16)
    requires
        m is Mbc3,
        0x2000 <= address <= 0x3FFF,
        i < 0x4000,
        m.rom().len() >= (v % 128 + 1) * 0x4000,
        m.rom().len() >= 0x8000,
    ensures
        v % 128 != 0 ==> m.write(address, v).read((0x4000 + i) as u16) == m.rom()[(v % 128)
            * 0x4000 + i],
        v % 128 == 0 ==> m.write(address, v).read((0x4000 + i) as u16) == m.rom()[0x4000 + i],
{
    let len = m.rom().len();
    if v % 128 != 0 {
        lemma_bank_in_range(len, (v % 128) as nat);
        assert((v % 128) * 0x4000 + i < len) by (nonlinear_arith)
            requires
                len >= (v % 128 + 1) * 0x4000,
                i < 0x4000,
        ;
    } else {
        lemma_bank_in_range(len, 1);
    }
}

/// On an MBC1 whose upper bank bits are 0 and whose ROM holds more than
/// `v % 32` banks of 16 KiB, writing `v` to 0x2000-0x3FFF maps ROM bank
/// `v % 32` (five bank bits; 0 selects bank 1) at 0x4000-0x7FFF.
pub proof fn law_mbc1_rom_bank_select(m: MbcState, address: u16, v: u8, i: u16)
    requires
        m matches MbcState::Mbc1 { ram_bank, .. } && ram_bank % 4 == 0,
        0x2000 <= address <= 0x3FFF,
        i < 0x4000,
        m.rom().len() >= (v % 32 + 1) * 0x4000,
        m.rom().len() >= 0x8000,
    ensures
        v % 32 != 0 ==> m.write(address, v).read((0x4000 + i) as u16) == m.rom()[(v % 32) * 0x4000
            + i],
        v % 32 == 0 ==> m.write(address, v).read((0x4000 + i) as u16) == m.rom()[0x4000 + i],
{
    let len = m.rom().len();
    if v % 32 != 0 {
        lemma_bank_in_range(len, (v % 32) as nat);
        assert((v % 32) * 0x4000 + i < len) by (nonlinear_arith)
            requires
                len >= (v % 32 + 1) * 0x4000,
                i < 0x4000,
        ;
    } else {
        lemma_bank_in_range(len, 1);
    }
}

} // verus!
