use vstd::prelude::*;

use crate::bits::{lemma_byte_fields, lemma_byte_pair, lemma_word_fields};

use crate::cartridge::{Cartridge, MbcState};
use crate::state::{
    StateError, available, get_u16, has_bytes, le16, push_bytes, push_u16, read_le16,
};

verus! {

/// The five interrupt sources, in priority order.
#[derive(PartialEq, Eq, Structural, Clone, Copy, Debug)]
pub enum Interrupts {
    VBlank,
    Lcd,
    Timer,
    Serial,
    Joypad,
}

/// The bit of IE and IF that belongs to an interrupt source.
pub open spec fn interrupt_bit(interrupt: Interrupts) -> u8 {
    match interrupt {
        Interrupts::VBlank => 0,
        Interrupts::Lcd => 1,
        Interrupts::Timer => 2,
        Interrupts::Serial => 3,
        Interrupts::Joypad => 4,
    }
}

/// Bits of the sound registers 0xFF10-0xFF3F that always read as 1
/// (write-only bits and unused registers).
pub open spec fn apu_read_mask(index: int) -> u8 {
    if index == 0 {
        0x80
    } else if index == 1 || index == 6 {
        0x3F
    } else if index == 2 || index == 7 || index == 0x11 || index == 0x12 || index == 0x14
        || index == 0x15 || index >= 0x20 {
        0x00
    } else if index == 4 || index == 9 || index == 0x0E || index == 0x13 {
        0xBF
    } else if index == 0x0A {
        0x7F
    } else if index == 0x0C {
        0x9F
    } else if index == 0x16 {
        0x70
    } else {
        0xFF
    }
}

pub(crate) fn apu_read_mask_exec(index: u16) -> (r: u8)
    requires
        index < 48,
    ensures
        r == apu_read_mask(index as int),
{
    match index {
        0x00 => 0x80,
        0x01 => 0x3F,
        0x02 => 0x00,
        0x03 => 0xFF,
        0x04 => 0xBF,
        0x05 => 0xFF,
        0x06 => 0x3F,
        0x07 => 0x00,
        0x08 => 0xFF,
        0x09 => 0xBF,
        0x0A => 0x7F,
        0x0B => 0xFF,
        0x0C => 0x9F,
        0x0D => 0xFF,
        0x0E => 0xBF,
        0x0F => 0xFF,
        0x10 => 0xFF,
        0x11 => 0x00,
        0x12 => 0x00,
        0x13 => 0xBF,
        0x14 => 0x00,
        0x15 => 0x00,
        0x16 => 0x70,
        0x17..=0x1F => 0xFF,
        _ => 0x00,
    }
}

/// What the joypad register reads as: the two select bits, the two unused
/// top bits set, and the low nibble of the selected button group (active low).
pub open spec fn joypad_byte(joyp: u8, action: u8, direction: u8) -> u8 {
    let select = joyp & 0x30;
    let buttons: u8 = if select == 0x10 {
        action
    } else if select == 0x20 {
        direction
    } else if select == 0x00 {
        action & direction
    } else {
        0x0F
    };
    select | 0xC0 | buttons
}

/// The number of bytes of object attribute memory an OAM DMA transfer copies.
pub const OAM_DMA_LENGTH: u16 = 160;

/// The abstract state of the memory map.
pub struct RamView {
    pub memory: Seq<u8>,
    pub cartridge: MbcState,
    pub div: u16,
    pub joypad_action: u8,
    pub joypad_direction: u8,
    pub apu_register_writes: Seq<(u16, u8)>,
}

impl RamView {
    /// The byte a CPU read of `address` observes.
    pub open spec fn fetch(self, address: u16) -> u8 {
        if address == 0xFF04 {
            (self.div / 256) as u8
        } else if address == 0xFF0F {
            self.memory[0xFF0F] | 0xE0
        } else if address == 0xFF00 {
            joypad_byte(self.memory[0xFF00], self.joypad_action, self.joypad_direction)
        } else if address <= 0x7FFF || (0xA000 <= address <= 0xBFFF) {
            self.cartridge.read(address)
        } else if 0xFF10 <= address <= 0xFF3F {
            self.memory[address as int] | apu_read_mask(address - 0xFF10)
        } else if 0xE000 <= address <= 0xFDFF {
            self.memory[address - 0x2000]
        } else if 0xFF4C <= address <= 0xFF7F {
            0xFF
        } else {
            self.memory[address as int]
        }
    }

    /// The state with one memory byte replaced and nothing else changed.
    pub open spec fn poke(self, index: int, value: u8) -> RamView {
        RamView { memory: self.memory.update(index, value), ..self }
    }

    /// Object attribute memory after an OAM DMA transfer from `source`:
    /// the 160 bytes read from `source` on are copied to 0xFE00.
    pub open spec fn dma(self, source: u16) -> RamView {
        RamView {
            memory: Seq::new(
                self.memory.len(),
                |j: int|
                    if 0xFE00 <= j < 0xFE00 + OAM_DMA_LENGTH {
                        self.fetch((source + (j - 0xFE00)) as u16)
                    } else {
                        self.memory[j]
                    },
            ),
            ..self
        }
    }

    /// The state after the CPU writes `value` to `address`.
    pub open spec fn set(self, value: u8, address: u16) -> RamView {
        if address <= 0x7FFF || (0xA000 <= address <= 0xBFFF) {
            RamView { cartridge: self.cartridge.write(address, value), ..self }
        } else if address == 0xFF00 {
            self.poke(0xFF00, (self.memory[0xFF00] & 0xCF) | (value & 0x30))
        } else if 0xE000 <= address <= 0xFDFF {
            self.poke(address - 0x2000, value)
        } else {
            let s = self.poke(address as int, value);
            if 0xFF10 <= address <= 0xFF3F {
                RamView {
                    apu_register_writes: s.apu_register_writes.push((address, value)),
                    ..s
                }
            } else if address == 0xFF02 && value == 0x81 {
                // Serial transfer with no link partner: completes at once,
                // receives 0xFF and requests the serial interrupt.
                s.poke(0xFF02, 0x01).poke(0xFF01, 0xFF).poke(0xFF0F, s.memory[0xFF0F] | 0xE8)
            } else if address == 0xFF04 {
                RamView { div: 0, ..s.poke(0xFF04, 0) }
            } else if address == 0xFF46 {
                s.dma((value as u16 * 256) as u16)
            } else {
                s
            }
        }
    }

    /// The bytes the memory map's state is saved as: the memory, the
    /// divider, the two joypad nibbles and the cartridge's state.
    pub open spec fn state_bytes(self) -> Seq<u8> {
        self.memory + le16(self.div) + seq![self.joypad_action, self.joypad_direction]
            + self.cartridge.state_bytes()
    }

    /// How many bytes the memory map's saved state takes.
    pub open spec fn state_len(self) -> nat {
        0x10004 + self.cartridge.state_len()
    }

    /// The state with the memory taken from `bytes` at `p`.
    pub open spec fn with_loaded_memory(self, bytes: Seq<u8>, p: int) -> RamView {
        RamView { memory: bytes.subrange(p, p + 0x10000), ..self }
    }

    /// The state with memory and divider taken from `bytes` at `p`.
    pub open spec fn with_loaded_div(self, bytes: Seq<u8>, p: int) -> RamView {
        RamView { div: read_le16(bytes, p + 0x10000), ..self.with_loaded_memory(bytes, p) }
    }

    /// The state with memory, divider and joypad taken from `bytes` at `p`.
    pub open spec fn with_loaded_joypad(self, bytes: Seq<u8>, p: int) -> RamView {
        RamView {
            joypad_action: bytes[p + 0x10002],
            joypad_direction: bytes[p + 0x10003],
            ..self.with_loaded_div(bytes, p)
        }
    }

    /// The state after a complete saved state is read from `bytes` at `p`:
    /// memory, divider, joypad and the cartridge's banks and RAM are
    /// restored, and the queued sound register writes dropped.
    pub open spec fn loaded(self, bytes: Seq<u8>, p: int) -> RamView {
        RamView {
            cartridge: self.cartridge.loaded(bytes, p + 0x10004),
            apu_register_writes: Seq::empty(),
            ..self.with_loaded_joypad(bytes, p)
        }
    }

    /// Whether an interrupt source is enabled in IE (0xFFFF).
    pub open spec fn ie(self, interrupt: Interrupts) -> bool {
        (self.fetch(0xFFFF) >> interrupt_bit(interrupt)) & 1 != 0
    }

    /// Whether an interrupt source is requested in IF (0xFF0F).
    pub open spec fn if_flag(self, interrupt: Interrupts) -> bool {
        (self.fetch(0xFF0F) >> interrupt_bit(interrupt)) & 1 != 0
    }

    /// The byte `byte` with an interrupt's bit set to `value`.
    pub open spec fn with_interrupt(byte: u8, interrupt: Interrupts, value: bool) -> u8 {
        if value {
            byte | (1u8 << interrupt_bit(interrupt))
        } else {
            byte & !(1u8 << interrupt_bit(interrupt))
        }
    }
}



fn interrupt_shift(interrupt: Interrupts) -> (r: u8)
    ensures
        r == interrupt_bit(interrupt),
{
    match interrupt {
        Interrupts::VBlank => 0,
        Interrupts::Lcd => 1,
        Interrupts::Timer => 2,
        Interrupts::Serial => 3,
        Interrupts::Joypad => 4,
    }
}

/// During an OAM DMA transfer the byte read for position `i` is the one the
/// memory map held before the transfer began: the source never overlaps the
/// part of OAM that is already written.
proof fn lemma_dma_fetch_stable(s: RamView, t: RamView, value: u8, i: int)
    requires
        0 <= i < 160,
        s.memory.len() == 0x10000,
        t.memory.len() == 0x10000,
        t.cartridge == s.cartridge,
        t.div == s.div,
        t.joypad_action == s.joypad_action,
        t.joypad_direction == s.joypad_direction,
        forall|j: int|
            0 <= j < 0x10000 && !(0xFE00 <= j < 0xFE00 + i) ==> #[trigger] t.memory[j]
                == s.memory[j],
    ensures
        t.fetch((value as u16 * 256 + i) as u16) == s.fetch((value as u16 * 256 + i) as u16),
{
    let a = (value as u16 * 256 + i) as u16;
    assert(value as u16 * 256 + i <= 0xFFFF);
    if 0xFE00 <= a < 0xFEA0 {
        assert(value == 0xFE);
    }
    assert(t.memory[0xFF0F] == s.memory[0xFF0F]);
    assert(t.memory[0xFF00] == s.memory[0xFF00]);
    if 0xE000 <= a <= 0xFDFF {
        assert(t.memory[a - 0x2000] == s.memory[a - 0x2000]);
    }
    assert(t.memory[a as int] == s.memory[a as int]);
}

/// The 64 KiB address space: work RAM, video RAM, I/O registers and the
/// cartridge behind its bank controller.
pub struct Ram {
    memory: [u8; 0x10000],
    cartridge: Cartridge,
    div: u16,
    /// Action buttons state (active low): bit0=A, bit1=B, bit2=Select, bit3=Start
    joypad_action: u8,
    /// Direction buttons state (active low): bit0=Right, bit1=Left, bit2=Up, bit3=Down
    joypad_direction: u8,
    /// Queued APU register writes for the console to forward to the APU
    apu_register_writes: Vec<(u16, u8)>,
}

impl View for Ram {
    type V = RamView;

    closed spec fn view(&self) -> RamView {
        RamView {
            memory: self.memory@,
            cartridge: self.cartridge@,
            div: self.div,
            joypad_action: self.joypad_action,
            joypad_direction: self.joypad_direction,
            apu_register_writes: self.apu_register_writes@,
        }
    }
}

impl Ram {
    /// Every memory map has exactly 64 KiB of backing bytes.
    pub proof fn lemma_memory_len(&self)
        ensures
            self@.memory.len() == 0x10000,
    {
    }

    /// A memory map holding `cartridge`, with zeroed memory, a zero divider,
    /// no buttons pressed and no pending sound register writes.
    pub open spec fn with_cartridge(cartridge: MbcState) -> RamView {
        RamView {
            memory: Seq::new(0x10000, |i| 0u8),
            cartridge,
            div: 0,
            joypad_action: 0x0F,
            joypad_direction: 0x0F,
            apu_register_writes: Seq::empty(),
        }
    }

    /// Create a new Ram with a cartridge.
    pub fn new(cartridge: Cartridge) -> (r: Ram)
        ensures
            r@ == Ram::with_cartridge(cartridge@),
    {
        let r = Ram {
            memory: [0u8; 0x10000],
            cartridge,
            div: 0,
            joypad_action: 0x0F,
            joypad_direction: 0x0F,
            apu_register_writes: Vec::new(),
        };
        assert(r.memory@ =~= Seq::new(0x10000, |i| 0u8));
        r
    }

    /// Fetch the value of an address.
    pub fn fetch(&self, address: u16) -> (r: u8)
        ensures
            r == self@.fetch(address),
    {
        if address == 0xFF04 {
            let d = self.div;
            proof {
                lemma_word_fields(d);
            }
            return (self.div >> 8) as u8;
        }
        if address == 0xFF0F {
            return self.memory[0xFF0F] | 0xE0;
        }
        if address == 0xFF00 {
            let select = self.memory[0xFF00] & 0x30;
            let mut result = select | 0xC0;
            match select {
                0x10 => result = result | self.joypad_action,
                0x20 => result = result | self.joypad_direction,
                0x00 => result = result | (self.joypad_action & self.joypad_direction),
                _ => result = result | 0x0F,
            }
            return result;
        }
        if address <= 0x7FFF || (address >= 0xA000 && address <= 0xBFFF) {
            return self.cartridge.read(address);
        }
        if address >= 0xFF10 && address <= 0xFF3F {
            return self.memory[address as usize] | apu_read_mask_exec(address - 0xFF10);
        }
        if address >= 0xE000 && address <= 0xFDFF {
            return self.memory[(address - 0x2000) as usize];
        }
        if address >= 0xFF4C && address <= 0xFF7F {
            return 0xFF;
        }
        self.memory[address as usize]
    }

    /// Fetch the signed value of an address.
    pub fn fetch_signed(&self, address: u16) -> (r: i8)
        ensures
            r == self@.fetch(address) as i8,
    {
        self.fetch(address) as i8
    }

    /// Fetch two consecutive addresses as a little-endian word: `address`
    /// holds the low byte and `address + 1` the high byte.
    pub fn fetch_16(&self, address: u16) -> (r: u16)
        requires
            address < 0xFFFF,
        ensures
            r == self@.fetch((address + 1) as u16) as int * 256 + self@.fetch(address) as int,
    {
        let high = self.fetch(address + 1);
        let low = self.fetch(address);
        proof {
            lemma_byte_pair(high, low);
        }
        (high as u16) << 8 | (low as u16)
    }
    /// Set the value of an address.
    pub fn set(&mut self, value: u8, address: u16)
        ensures
            final(self)@ == old(self)@.set(value, address),
    {
        // ROM and external RAM: delegate to cartridge (handles MBC registers)
        if address <= 0x7FFF || (address >= 0xA000 && address <= 0xBFFF) {
            self.cartridge.write(address, value);
            return;
        }
        // JOYP: only bits 4-5 (select) are writable

        if address == 0xFF00 {
            self.memory[0xFF00] = (self.memory[0xFF00] & 0xCF) | (value & 0x30);
            assert(self@ =~= old(self)@.set(value, address));
            return;
        }
        // Echo RAM: 0xE000-0xFDFF mirrors 0xC000-0xDDFF

        if address >= 0xE000 && address <= 0xFDFF {
            self.memory[(address - 0x2000) as usize] = value;
            assert(self@ =~= old(self)@.set(value, address));
            return;
        }
        self.memory[address as usize] = value;
        let ghost s = self@;
        assert(s =~= old(self)@.poke(address as int, value));

        // APU registers: queue write notification for the console to forward to the APU
        if address >= 0xFF10 && address <= 0xFF3F {
            self.apu_register_writes.push((address, value));
            assert(self@ =~= old(self)@.set(value, address));
            return;
        }
        // Serial port: with no link partner the transfer completes at once

        if address == 0xFF02 && value == 0x81 {
            self.memory[0xFF02] = value & 0x7F;
            self.memory[0xFF01] = 0xFF;
            let flags = self.fetch(0xFF0F);
            self.memory[0xFF0F] = flags | (1u8 << 3u8);
            proof {
                lemma_io_bits(s.memory[0xFF0F], value);
            }
            assert(self@ =~= old(self)@.set(value, address));
            return;
        } else if address == 0xFF04 {
            // Div register gets reset if any value is written to it
            self.div = 0;
            self.memory[address as usize] = 0;
            assert(self@ =~= old(self)@.set(value, address));
        } else if address == 0xFF46 {
            // OAM DMA transfer
            let source_base = (value as u16) << 8;
            proof {
                lemma_byte_fields(value);
            }
            let mut i: u16 = 0;
            while i < OAM_DMA_LENGTH
                invariant
                    i <= OAM_DMA_LENGTH,
                    source_base == (value as u16 * 256) as u16,
                    self@.cartridge == s.cartridge,
                    self@.div == s.div,
                    self@.joypad_action == s.joypad_action,
                    self@.joypad_direction == s.joypad_direction,
                    self@.apu_register_writes == s.apu_register_writes,
                    self@.memory.len() == 0x10000,
                    s.memory.len() == 0x10000,
                    forall|j: int|
                        0 <= j < 0x10000 && !(0xFE00 <= j < 0xFE00 + i) ==> #[trigger] self@.memory[j]
                            == s.memory[j],
                    forall|j: int|
                        0xFE00 <= j < 0xFE00 + i ==> #[trigger] self@.memory[j] == s.fetch(
                            (source_base + (j - 0xFE00)) as u16,
                        ),
                decreases OAM_DMA_LENGTH - i,
            {
                proof {
                    lemma_dma_fetch_stable(s, self@, value, i as int);
                }
                let byte = self.fetch(source_base + i);
                self.memory[0xFE00 + i as usize] = byte;
                i = i + 1;
            }
            assert(self@.memory =~= s.dma(source_base).memory);
            assert(self@ =~= old(self)@.set(value, address));
        } else {
            assert(self@ =~= old(self)@.set(value, address));
        }
    }

    /// Set two consecutive addresses: the high byte goes to `address` and the
    /// low byte to `address + 1`, directly in memory and without side effects.
    pub fn set_16(&mut self, value: u16, address: u16)
        requires
            address < 0xFFFF,
        ensures
            final(self)@ == old(self)@.poke(address as int, (value / 256) as u8).poke(
                address + 1,
                (value % 256) as u8,
            ),
    {
        let high_byte = (value >> 8) as u8;
        let low_byte = value as u8;
        proof {
            lemma_word_fields(value);
        }
        let address = address as usize;
        self.memory[address] = high_byte;
        self.memory[address + 1] = low_byte;
        assert(self@ =~= old(self)@.poke(address as int, (value / 256) as u8).poke(
            address + 1,
            (value % 256) as u8,
        ));
    }

    /// Whether an interrupt source is enabled in IE.
    pub fn get_ie(&self, interrupt: Interrupts) -> (r: bool)
        ensures
            r == self@.ie(interrupt),
    {
        let byte = self.fetch(0xFFFF);
        let shift = interrupt_shift(interrupt);
        ((byte >> shift) & 0b00000001) != 0
    }

    /// Whether an interrupt source is requested in IF.
    pub fn get_if(&self, interrupt: Interrupts) -> (r: bool)
        ensures
            r == self@.if_flag(interrupt),
    {
        let byte = self.fetch(0xFF0F);
        let shift = interrupt_shift(interrupt);
        ((byte >> shift) & 0b00000001) != 0
    }

    /// Enable or disable an interrupt source in IE.
    pub fn set_ie(&mut self, value: bool, interrupt: Interrupts)
        ensures
            final(self)@ == old(self)@.set(
                RamView::with_interrupt(old(self)@.fetch(0xFFFF), interrupt, value),
                0xFFFF,
            ),
    {
        let byte = self.fetch(0xFFFF);
        let shift = interrupt_shift(interrupt);
        if value {
            self.set(byte | (1u8 << shift), 0xFFFF);
        } else {
            self.set(byte & !(1u8 << shift), 0xFFFF);
        }
    }

    /// Request or clear an interrupt source in IF.
    pub fn set_if(&mut self, value: bool, interrupt: Interrupts)
        ensures
            final(self)@ == old(self)@.set(
                RamView::with_interrupt(old(self)@.fetch(0xFF0F), interrupt, value),
                0xFF0F,
            ),
    {
        let byte = self.fetch(0xFF0F);
        let shift = interrupt_shift(interrupt);
        if value {
            self.set(byte | (1u8 << shift), 0xFF0F);
        } else {
            self.set(byte & !(1u8 << shift), 0xFF0F);
        }
    }

    /// Update joypad button state. Each nibble is active-low (0 = pressed).
    pub fn set_joypad(&mut self, action: u8, direction: u8)
        ensures
            final(self)@ == (RamView {
                joypad_action: action & 0x0F,
                joypad_direction: direction & 0x0F,
                ..old(self)@
            }),
    {
        self.joypad_action = action & 0x0F;
        self.joypad_direction = direction & 0x0F;
    }

    /// The action buttons (active low).
    pub fn joypad_action(&self) -> (r: u8)
        ensures
            r == self@.joypad_action,
    {
        self.joypad_action
    }

    /// The direction buttons (active low).
    pub fn joypad_direction(&self) -> (r: u8)
        ensures
            r == self@.joypad_direction,
    {
        self.joypad_direction
    }

    /// Set a value directly in memory without triggering side effects (APU notifications, etc.)
    pub fn set_raw(&mut self, value: u8, address: u16)
        ensures
            final(self)@ == old(self)@.poke(address as int, value),
    {
        self.memory[address as usize] = value;
        assert(self@ =~= old(self)@.poke(address as int, value));
    }

    pub fn get_div(&mut self) -> (r: u16)
        ensures
            r == old(self)@.div,
            final(self)@ == old(self)@,
    {
        self.div
    }

    pub fn set_div(&mut self, value: u16)
        ensures
            final(self)@ == (RamView { div: value, ..old(self)@ }),
    {
        self.div = value;
    }

    /// The sound register writes queued since they were last taken.
    pub fn apu_register_writes(&self) -> (r: &Vec<(u16, u8)>)
        ensures
            r@ == self@.apu_register_writes,
    {
        &self.apu_register_writes
    }

    /// Forget the queued sound register writes.
    pub fn clear_apu_register_writes(&mut self)
        ensures
            final(self)@ == (RamView { apu_register_writes: Seq::empty(), ..old(self)@ }),
    {
        self.apu_register_writes.clear();
    }

    /// The battery-backed external RAM of the cartridge, as it is to be persisted.
    pub fn save_ram(&self) -> (r: Vec<u8>)
        ensures
            r@ == self@.cartridge.external_ram(),
    {
        self.cartridge.save_ram()
    }

    /// Append the memory map's state: the 64 KiB of memory, the divider
    /// (little-endian), the two joypad nibbles and the cartridge's state.
    pub fn save_state(&self, out: &mut Vec<u8>)
        ensures
            final(out)@ == old(out)@ + self@.state_bytes(),
    {
        push_bytes(out, self.memory.as_slice());
        push_u16(out, self.div);
        out.push(self.joypad_action);
        out.push(self.joypad_direction);
        let ghost before = out@;
        self.cartridge.save_state(out);
        assert(out@ =~= old(out)@ + self@.state_bytes());
    }

    /// Read the memory map's state back from `input` at `pos`, returning the
    /// position after it. Each part (memory, divider, joypad, cartridge) is
    /// taken as soon as it is complete; a part that the input cuts short is
    /// an `UnexpectedEof` and leaves it and what follows unchanged. On
    /// success the queued sound register writes are dropped.
    pub fn load_state(&mut self, input: &[u8], pos: usize) -> (r: Result<usize, StateError>)
        ensures
            ({
                let s = old(self)@;
                let p = pos as int;
                if !has_bytes(input@, p, 0x10000) {
                    r == Err::<usize, StateError>(StateError::UnexpectedEof) && final(self)@ == s
                } else if !has_bytes(input@, p + 0x10000, 2) {
                    r == Err::<usize, StateError>(StateError::UnexpectedEof) && final(self)@
                        == s.with_loaded_memory(input@, p)
                } else if !has_bytes(input@, p + 0x10002, 2) {
                    r == Err::<usize, StateError>(StateError::UnexpectedEof) && final(self)@
                        == s.with_loaded_div(input@, p)
                } else if !has_bytes(input@, p + 0x10004, s.cartridge.state_len() as int) {
                    r == Err::<usize, StateError>(StateError::UnexpectedEof) && final(self)@
                        == s.with_loaded_joypad(input@, p)
                } else {
                    r == Ok::<usize, StateError>((p + s.state_len()) as usize) && final(self)@
                        == s.loaded(input@, p)
                }
            }),
    {
        let len = input.len();
        if !available(input, pos, 0x10000) {
            return Err(StateError::UnexpectedEof);
        }
        let mut i: usize = 0;
        while i < 0x10000
            invariant
                i <= 0x10000,
                len == input@.len(),
                has_bytes(input@, pos as int, 0x10000),
                self@.cartridge == old(self)@.cartridge,
                self@.div == old(self)@.div,
                self@.joypad_action == old(self)@.joypad_action,
                self@.joypad_direction == old(self)@.joypad_direction,
                self@.apu_register_writes == old(self)@.apu_register_writes,
                self@.memory.len() == 0x10000,
                forall|j: int| 0 <= j < i ==> #[trigger] self@.memory[j] == input@[pos + j],
            decreases 0x10000 - i,
        {
            self.memory[i] = input[pos + i];
            i = i + 1;
        }
        assert(self@.memory =~= input@.subrange(pos as int, pos + 0x10000));
        let pos = pos + 0x10000;
        if !available(input, pos, 2) {
            return Err(StateError::UnexpectedEof);
        }
        self.div = get_u16(input, pos);
        let pos = pos + 2;
        if !available(input, pos, 2) {
            return Err(StateError::UnexpectedEof);
        }
        self.joypad_action = input[pos];
        self.joypad_direction = input[pos + 1];
        let pos = match self.cartridge.load_state(input, pos + 2) {
            Ok(next) => next,
            Err(e) => return Err(e),
        };
        self.apu_register_writes.clear();
        Ok(pos)
    }
}


impl Default for Ram {
    fn default() -> (r: Ram)
        ensures
            r@ == Ram::with_cartridge(Cartridge::blank()),
    {
        Ram::new(Cartridge::default())
    }
}


/// Addresses that read back exactly what was last written to them: video
/// RAM, work RAM, object attribute memory and the unused area after it,
/// high RAM and the interrupt enable register.
pub open spec fn plain_address(a: u16) -> bool {
    (0x8000 <= a <= 0x9FFF) || (0xC000 <= a <= 0xDFFF) || (0xFE00 <= a <= 0xFEFF) || (0xFF80
        <= a)
}

proof fn lemma_interrupt_bits(byte: u8, b: u8, c: u8, v: bool)
    by (bit_vector)
    requires
        b < 5,
        c < 5,
    ensures
        ((if v { byte | (1u8 << b) } else { byte & !(1u8 << b) }) >> b) & 1 != 0 == v,
        b != c ==> (((if v { byte | (1u8 << b) } else { byte & !(1u8 << b) }) >> c) & 1 != 0
            == ((byte >> c) & 1 != 0)),
        ((if v { (byte | 0xE0) | (1u8 << b) } else { (byte | 0xE0) & !(1u8 << b) }) | 0xE0) >> b
            & 1 != 0 == v,
        b != c ==> ((((if v { (byte | 0xE0) | (1u8 << b) } else { (byte | 0xE0) & !(1u8 << b) })
            | 0xE0) >> c) & 1 != 0 == (((byte | 0xE0) >> c) & 1 != 0)),
{
}

/// Enabling or disabling an interrupt in IE and reading IE back gives the
/// written value for that interrupt and the old value for every other one.
pub proof fn law_ie_read_after_write(s: RamView, i: Interrupts, other: Interrupts, v: bool)
    requires
        s.memory.len() == 0x10000,
    ensures
        ({
            let t = s.set(RamView::with_interrupt(s.fetch(0xFFFF), i, v), 0xFFFF);
            &&& t.ie(i) == v
            &&& other != i ==> t.ie(other) == s.ie(other)
        }),
{
    lemma_interrupt_bits(s.memory[0xFFFF], interrupt_bit(i), interrupt_bit(other), v);
}

/// Requesting or clearing an interrupt in IF and reading IF back gives the
/// written value for that interrupt and the old value for every other one.
pub proof fn law_if_read_after_write(s: RamView, i: Interrupts, other: Interrupts, v: bool)
    requires
        s.memory.len() == 0x10000,
    ensures
        ({
            let t = s.set(RamView::with_interrupt(s.fetch(0xFF0F), i, v), 0xFF0F);
            &&& t.if_flag(i) == v
            &&& other != i ==> t.if_flag(other) == s.if_flag(other)
        }),
{
    lemma_interrupt_bits(s.memory[0xFF0F], interrupt_bit(i), interrupt_bit(other), v);
}

/// A write to a plain address reads back as the written value and leaves
/// every other plain address as it was.
pub proof fn law_read_after_write(s: RamView, a: u16, b: u16, v: u8)
    requires
        s.memory.len() == 0x10000,
        plain_address(a),
        plain_address(b),
    ensures
        s.set(v, a).fetch(a) == v,
        b != a ==> s.set(v, a).fetch(b) == s.fetch(b),
{
}

/// Echo RAM: 0xE000-0xFDFF reads and writes 0xC000-0xDDFF.
pub proof fn law_echo_ram(s: RamView, a: u16, v: u8)
    requires
        s.memory.len() == 0x10000,
        0xC000 <= a <= 0xDDFF,
    ensures
        s.fetch((a + 0x2000) as u16) == s.fetch(a),
        s.set(v, a).fetch((a + 0x2000) as u16) == v,
        s.set(v, (a + 0x2000) as u16).fetch(a) == v,
{
}

/// Any write to the divider resets it; the upper byte of the internal
/// counter is what 0xFF04 reads.
pub proof fn law_div_reset(s: RamView, v: u8)
    requires
        s.memory.len() == 0x10000,
    ensures
        s.set(v, 0xFF04).div == 0,
        s.set(v, 0xFF04).fetch(0xFF04) == 0,
{
}

/// Bit facts about the joypad, serial and interrupt flag registers.
proof fn lemma_io_bits(m: u8, v: u8)
    by (bit_vector)
    ensures
        v == 0x81 ==> v & 0x7F == 0x01,
        (m | 0xE0) | (1u8 << 3u8) == m | 0xE8,
        ((m & 0xCF) | (v & 0x30)) & 0x30 == v & 0x30,
        ((m & 0xCF) | (v & 0x30)) & 0xCF == m & 0xCF,
        0x30u8 | 0xC0 | 0x0F == 0xFF,
        0x10u8 | 0xC0 == 0xD0,
        0x20u8 | 0xC0 == 0xE0,
        ((((m | 0xE8) | 0xE0) >> 3u8) & 1) != 0,
{
}

/// Only the two select bits of the joypad register are writable, and the
/// register reads the selected button group in its low nibble.
pub proof fn law_joypad_select(s: RamView, v: u8)
    requires
        s.memory.len() == 0x10000,
    ensures
        s.set(v, 0xFF00).memory[0xFF00] & 0x30 == v & 0x30,
        s.set(v, 0xFF00).memory[0xFF00] & 0xCF == s.memory[0xFF00] & 0xCF,
        v & 0x30 == 0x10 ==> s.set(v, 0xFF00).fetch(0xFF00) == 0xD0 | s.joypad_action,
        v & 0x30 == 0x20 ==> s.set(v, 0xFF00).fetch(0xFF00) == 0xE0 | s.joypad_direction,
        v & 0x30 == 0x30 ==> s.set(v, 0xFF00).fetch(0xFF00) == 0xFF,
{
    lemma_io_bits(s.memory[0xFF00], v);
}

/// Starting a serial transfer (0x81 to 0xFF02) completes it at once with no
/// partner: 0xFF is received, the start bit clears and the serial interrupt
/// is requested.
pub proof fn law_serial_transfer(s: RamView)
    requires
        s.memory.len() == 0x10000,
    ensures
        s.set(0x81, 0xFF02).fetch(0xFF01) == 0xFF,
        s.set(0x81, 0xFF02).fetch(0xFF02) == 0x01,
        s.set(0x81, 0xFF02).if_flag(Interrupts::Serial),
{
    lemma_io_bits(s.memory[0xFF0F], 0x81);
}

/// An OAM DMA transfer copies the 160 bytes at `value * 0x100` to 0xFE00.
pub proof fn law_oam_dma(s: RamView, value: u8, i: u16)
    requires
        s.memory.len() == 0x10000,
        i < 160,
    ensures
        s.set(value, 0xFF46).fetch((0xFE00 + i) as u16) == s.poke(0xFF46, value).fetch(
            (value as u16 * 256 + i) as u16,
        ),
{
}

/// Reading back a saved memory map restores its memory, divider, joypad and
/// cartridge state, wherever in a stream the saved bytes stand, on a
/// machine holding the same cartridge.
pub proof fn law_state_roundtrip(s: RamView, t: RamView, prefix: Seq<u8>, suffix: Seq<u8>)
    requires
        s.memory.len() == 0x10000,
        t.cartridge.same_layout(s.cartridge),
    ensures
        ({
            let bytes = prefix + s.state_bytes() + suffix;
            let p = prefix.len() as int;
            &&& has_bytes(bytes, p, t.state_len() as int)
            &&& t.state_len() == s.state_len()
            &&& s.state_bytes().len() == s.state_len()
            &&& t.loaded(bytes, p) == (RamView { apu_register_writes: Seq::empty(), ..s })
        }),
{
    let bytes = prefix + s.state_bytes() + suffix;
    let p = prefix.len() as int;
    let head = seq![s.joypad_action, s.joypad_direction];
    assert(bytes.subrange(p, p + 0x10000) =~= s.memory);
    crate::state::law_le16_roundtrip(prefix + s.memory, s.div, head + s.cartridge.state_bytes() + suffix);
    assert(bytes =~= (prefix + s.memory) + le16(s.div) + (head + s.cartridge.state_bytes() + suffix));
    assert(bytes[p + 0x10002] == s.joypad_action);
    assert(bytes[p + 0x10003] == s.joypad_direction);
    crate::cartridge::law_cartridge_state_roundtrip(
        t.cartridge,
        s.cartridge,
        prefix + s.memory + le16(s.div) + head,
        suffix,
    );
    assert(bytes =~= prefix + s.memory + le16(s.div) + head + s.cartridge.state_bytes() + suffix);
    assert(t.loaded(bytes, p) =~= (RamView { apu_register_writes: Seq::empty(), ..s }));
}

} // verus!
