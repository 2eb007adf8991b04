use vstd::prelude::*;

use crate::command::{Command, Step};
use crate::console::{Console, ConsoleView};
use crate::cpu::{CPU_STATE_LEN, cpu_state_bytes, cpu_state_read, law_cpu_state_roundtrip};
use crate::execution_queue::ExecutionQueue;
use crate::ppu::{FRAMEBUFFER_LEN, PPU_STATE_LEN, PpuView, mode_from_number, mode_number};
use crate::ram::{RamView, law_state_roundtrip};
use crate::cartridge::lemma_cartridge_state_len;
use crate::apu::{APU_STATE_LEN, Apu, law_apu_state_roundtrip};
use crate::state::{
    StateError, available, bool_byte, get_u16, get_u64, has_bytes, law_le16_roundtrip, law_le64_roundtrip,
    le16, le64, push_u16, push_u64, read_le16, read_le64,
};

verus! {

/// Where the CPU's part of a saved machine state starts (after the tag and
/// the version byte).
pub const CPU_AT: usize = 5;

/// Where the memory map's part starts.
pub const RAM_AT: usize = 26;

/// Where the picture unit's part starts, behind a cartridge state of `c`
/// bytes.
pub open spec fn ppu_at(c: int) -> int {
    RAM_AT + 0x10004 + c
}

/// Where the audio unit's part starts (version 2), or the trailing timer
/// fields (version 1), behind a cartridge state of `c` bytes.
pub open spec fn apu_at(c: int) -> int {
    ppu_at(c) + PPU_STATE_LEN
}

/// Where the timer and counter fields of a saved state of `version` start,
/// behind a cartridge state of `c` bytes.
pub open spec fn trailer_at(version: u8, c: int) -> int {
    if version == 2 {
        apu_at(c) + APU_STATE_LEN
    } else {
        apu_at(c)
    }
}

/// The length of a saved state of `version` whose cartridge state takes
/// `c` bytes.
pub open spec fn snapshot_len(version: u8, c: int) -> int {
    trailer_at(version, c) + 13
}

/// The two bytes the pending TIMA reload is saved as.
pub open spec fn tima_bytes(t: Option<u8>) -> Seq<u8> {
    match t {
        Some(v) => seq![1u8, v],
        None => seq![0u8, 0u8],
    }
}

/// The bytes the picture unit's state is saved as.
pub open spec fn ppu_bytes(p: PpuView) -> Seq<u8> {
    le16(p.dots) + seq![mode_number(p.draw_mode), p.window_line, bool_byte(p.window_triggered)]
        + p.framebuffer@
}

/// Why `b` cannot be read as a saved state into a machine whose cartridge
/// state takes `c` bytes, if it cannot: it is too short (`UnexpectedEof`),
/// or it lacks the "GCSS" tag or names an unknown version (`InvalidData`).
pub open spec fn snapshot_error(b: Seq<u8>, c: int) -> Option<StateError> {
    if b.len() < 4 {
        Some(StateError::UnexpectedEof)
    } else if !(b[0] == 0x47 && b[1] == 0x43 && b[2] == 0x53 && b[3] == 0x53) {
        Some(StateError::InvalidData)
    } else if b.len() < 5 {
        Some(StateError::UnexpectedEof)
    } else if b[4] != 1 && b[4] != 2 {
        Some(StateError::InvalidData)
    } else if b.len() < snapshot_len(b[4], c) {
        Some(StateError::UnexpectedEof)
    } else {
        None
    }
}

/// Whether `t` is the picture unit `v` after its saved part is read from
/// `b` at `p`; reading stops at the first piece the input does not hold
/// entirely, and only a complete read empties the objects of the line.
pub open spec fn ppu_read(t: PpuView, v: PpuView, b: Seq<u8>, p: int) -> bool {
    if !has_bytes(b, p, 2) {
        t == v
    } else if !has_bytes(b, p + 2, 1) {
        t == PpuView { dots: read_le16(b, p), ..v }
    } else if !has_bytes(b, p + 3, 2) {
        t == PpuView { dots: read_le16(b, p), draw_mode: mode_from_number(b[p + 2]), ..v }
    } else if !has_bytes(b, p + 5, FRAMEBUFFER_LEN as int) {
        t == PpuView {
            dots: read_le16(b, p),
            draw_mode: mode_from_number(b[p + 2]),
            window_line: b[p + 3],
            window_triggered: b[p + 4] != 0,
            ..v
        }
    } else {
        &&& t.dots == read_le16(b, p)
        &&& t.draw_mode == mode_from_number(b[p + 2])
        &&& t.window_line == b[p + 3]
        &&& t.window_triggered == (b[p + 4] != 0)
        &&& t.framebuffer@ == b.subrange(p + 5, p + PPU_STATE_LEN)
        &&& t.oam_sprites.len() == 0
    }
}

/// The memory map `r` after its saved part is read from `b` at `p`;
/// reading stops at the first piece the input does not hold entirely.
pub open spec fn ram_read(r: RamView, b: Seq<u8>, p: int) -> RamView {
    if !has_bytes(b, p, 0x10000) {
        r
    } else if !has_bytes(b, p + 0x10000, 2) {
        r.with_loaded_memory(b, p)
    } else if !has_bytes(b, p + 0x10002, 2) {
        r.with_loaded_div(b, p)
    } else if !has_bytes(b, p + 0x10004, r.cartridge.state_len() as int) {
        r.with_loaded_joypad(b, p)
    } else {
        r.loaded(b, p)
    }
}

/// The machine `m` after the trailing fields of a saved state are read
/// from `b` at `q`: the tick counter, the CB flag, the last timer input and
/// the TIMA reload delay, each only if the input holds it entirely. A
/// complete read also leaves only the next instruction fetch queued.
pub open spec fn trailer_read(m: ConsoleView, b: Seq<u8>, q: int) -> ConsoleView {
    let tick = read_le64(b, q);
    if !has_bytes(b, q, 8) {
        m
    } else if !has_bytes(b, q + 8, 1) {
        ConsoleView { tick_counter: tick, ..m }
    } else if !has_bytes(b, q + 9, 2) {
        ConsoleView { tick_counter: tick, cb_flag: b[q + 8] != 0, ..m }
    } else if !has_bytes(b, q + 11, 2) {
        ConsoleView {
            tick_counter: tick,
            cb_flag: b[q + 8] != 0,
            previous_div_result: read_le16(b, q + 9),
            ..m
        }
    } else {
        ConsoleView {
            tick_counter: tick,
            cb_flag: b[q + 8] != 0,
            previous_div_result: read_le16(b, q + 9),
            tima_overflow_counter: if b[q + 11] != 0 {
                Some(b[q + 12])
            } else {
                None
            },
            queue: map![tick => seq![Command::Update(Step::FetchDecodeExecute)]],
            ..m
        }
    }
}

/// Whether `t` is the machine `s` after the body of the saved state `b`
/// (whose tag and version are valid) is read: the CPU, memory map (with
/// the cartridge's state), picture unit, audio unit (version 2) and
/// trailing fields in turn, stopping at the first part the input does not
/// hold entirely. A read memory map drops the pending sound register
/// writes. The offsets follow from the size of the cartridge's state.
pub open spec fn snapshot_read(t: ConsoleView, s: ConsoleView, b: Seq<u8>) -> bool {
    let cpu = cpu_state_read(b, CPU_AT as int);
    let c = s.ram.cartridge.state_len() as int;
    if !has_bytes(b, CPU_AT as int, CPU_STATE_LEN as int) {
        t == s
    } else if !has_bytes(b, RAM_AT as int, s.ram.state_len() as int) {
        t == ConsoleView { cpu, ram: ram_read(s.ram, b, RAM_AT as int), ..s }
    } else {
        let m = ConsoleView { cpu, ram: s.ram.loaded(b, RAM_AT as int), ppu: t.ppu, ..s };
        &&& ppu_read(t.ppu, s.ppu, b, ppu_at(c))
        &&& if !has_bytes(b, ppu_at(c), PPU_STATE_LEN as int) {
            t == m
        } else if b[4] == 2 && !has_bytes(b, apu_at(c), APU_STATE_LEN as int) {
            t == ConsoleView { apu: s.apu.loaded(b, apu_at(c)), ..m }
        } else if b[4] == 2 {
            t == trailer_read(
                ConsoleView { apu: s.apu.loaded(b, apu_at(c)), ..m },
                b,
                trailer_at(2, c),
            )
        } else {
            t == trailer_read(m, b, trailer_at(b[4], c))
        }
    }
}

impl ConsoleView {
    /// The bytes the machine's state is saved as: the tag "GCSS", version
    /// 2, the CPU, memory map, picture unit and audio unit, then the tick
    /// counter, the CB flag, the last timer input and the TIMA reload delay.
    pub open spec fn state_bytes(self) -> Seq<u8> {
        seq![0x47u8, 0x43, 0x53, 0x53, 2] + cpu_state_bytes(self.cpu) + self.ram.state_bytes()
            + ppu_bytes(self.ppu) + self.apu.state_bytes() + le64(self.tick_counter) + seq![
            bool_byte(self.cb_flag),
        ] + le16(self.previous_div_result) + tima_bytes(self.tima_overflow_counter)
    }
}

/// The lengths of the parts of a saved state.
proof fn lemma_part_lengths(d: ConsoleView)
    requires
        d.ram.memory.len() == 0x10000,
    ensures
        cpu_state_bytes(d.cpu).len() == 21,
        d.ram.state_bytes().len() == d.ram.state_len(),
        ppu_bytes(d.ppu).len() == 92165,
        d.apu.state_bytes().len() == 102,
        d.state_bytes().len() == snapshot_len(2, d.ram.cartridge.state_len() as int),
        d.state_bytes()[4] == 2,
        d.state_bytes()[0] == 0x47 && d.state_bytes()[1] == 0x43 && d.state_bytes()[2] == 0x53
            && d.state_bytes()[3] == 0x53,
{
    lemma_len_cpu(d);
    lemma_len_ram(d);
    lemma_len_apu(d);
    lemma_len_ppu(d);
    assert(d.state_bytes()[4] == 2);
}

proof fn lemma_len_cpu(d: ConsoleView)
    ensures
        cpu_state_bytes(d.cpu).len() == 21,
{
}

proof fn lemma_len_ram(d: ConsoleView)
    requires
        d.ram.memory.len() == 0x10000,
    ensures
        d.ram.state_bytes().len() == d.ram.state_len(),
{
    lemma_cartridge_state_len(d.ram.cartridge);
}

proof fn lemma_len_apu(d: ConsoleView)
    ensures
        d.apu.state_bytes().len() == 102,
{
}

proof fn lemma_len_ppu(d: ConsoleView)
    ensures
        ppu_bytes(d.ppu).len() == 92165,
{
}

/// The bytes that follow the memory map in a saved state.
spec fn after_ram(d: ConsoleView) -> Seq<u8> {
    ppu_bytes(d.ppu) + d.apu.state_bytes() + le64(d.tick_counter) + seq![bool_byte(d.cb_flag)]
        + le16(d.previous_div_result) + tima_bytes(d.tima_overflow_counter)
}

/// The bytes that follow the audio unit in a saved state.
spec fn after_apu(d: ConsoleView) -> Seq<u8> {
    le64(d.tick_counter) + seq![bool_byte(d.cb_flag)] + le16(d.previous_div_result)
        + tima_bytes(d.tima_overflow_counter)
}

proof fn lemma_front_parts(d: ConsoleView, other: RamView)
    requires
        d.ram.memory.len() == 0x10000,
        other.cartridge.same_layout(d.ram.cartridge),
    ensures
        cpu_state_read(d.state_bytes(), CPU_AT as int) == d.cpu,
        other.state_len() == d.ram.state_len(),
        other.loaded(d.state_bytes(), RAM_AT as int) == (RamView {
            apu_register_writes: Seq::empty(),
            ..d.ram
        }),
{
    let head = seq![0x47u8, 0x43, 0x53, 0x53, 2];
    let c = cpu_state_bytes(d.cpu);
    let r = d.ram.state_bytes();
    let b = d.state_bytes();
    lemma_part_lengths(d);
    assert(b =~= head + c + (r + after_ram(d)));
    law_cpu_state_roundtrip(d.cpu, head, r + after_ram(d));
    assert(b =~= (head + c) + r + after_ram(d));
    law_state_roundtrip(d.ram, other, head + c, after_ram(d));
}

proof fn lemma_ppu_part(d: ConsoleView)
    requires
        d.ram.memory.len() == 0x10000,
    ensures
        ({
            let b = d.state_bytes();
            let c = d.ram.cartridge.state_len() as int;
            &&& read_le16(b, ppu_at(c)) == d.ppu.dots
            &&& mode_from_number(b[ppu_at(c) + 2]) == d.ppu.draw_mode
            &&& b[ppu_at(c) + 3] == d.ppu.window_line
            &&& (b[ppu_at(c) + 4] != 0) == d.ppu.window_triggered
            &&& b.subrange(ppu_at(c) + 5, apu_at(c)) == d.ppu.framebuffer@
        }),
{
    let b = d.state_bytes();
    let c = d.ram.cartridge.state_len() as int;
    let before = seq![0x47u8, 0x43, 0x53, 0x53, 2] + cpu_state_bytes(d.cpu) + d.ram.state_bytes();
    let p = ppu_bytes(d.ppu);
    let rest = d.apu.state_bytes() + after_apu(d);
    lemma_part_lengths(d);
    assert(before.len() == ppu_at(c));
    assert(b =~= before + p + rest);
    let p2 = p.subrange(2, p.len() as int) + rest;
    assert(b =~= before + le16(d.ppu.dots) + p2);
    law_le16_roundtrip(before, d.ppu.dots, p2);
    assert(b[ppu_at(c) + 2] == mode_number(d.ppu.draw_mode));
    assert(b[ppu_at(c) + 4] == bool_byte(d.ppu.window_triggered));
    assert(b.subrange(ppu_at(c) + 5, apu_at(c)) =~= d.ppu.framebuffer@);
    match d.ppu.draw_mode {
        crate::ppu::PpuMode::HBlank => {},
        crate::ppu::PpuMode::VBlank => {},
        crate::ppu::PpuMode::OamScan => {},
        crate::ppu::PpuMode::Draw => {},
    }
}

/// The four fields that end a saved state, read back from behind `front`.
proof fn lemma_trailer(front: Seq<u8>, tick: u64, cb: bool, div: u16, tima: Option<u8>)
    ensures
        ({
            let b = front + (le64(tick) + seq![bool_byte(cb)] + le16(div) + tima_bytes(tima));
            let q = front.len() as int;
            &&& read_le64(b, q) == tick
            &&& (b[q + 8] != 0) == cb
            &&& read_le16(b, q + 9) == div
            &&& tima == if b[q + 11] != 0 {
                Some(b[q + 12])
            } else {
                None
            }
        }),
{
    let t1 = le64(tick);
    let t2 = seq![bool_byte(cb)];
    let t3 = le16(div);
    let t4 = tima_bytes(tima);
    let q = front.len() as int;
    let b = front + (t1 + t2 + t3 + t4);
    assert(b =~= front + t1 + (t2 + t3 + t4));
    law_le64_roundtrip(front, tick, t2 + t3 + t4);
    assert(b =~= (front + t1 + t2) + t3 + t4);
    law_le16_roundtrip(front + t1 + t2, div, t4);
    assert(b[q + 8] == bool_byte(cb));
    assert(b[q + 11] == t4[0] && b[q + 12] == t4[1]);
}

proof fn lemma_apu_part(d: ConsoleView, other: Apu)
    requires
        d.ram.memory.len() == 0x10000,
    ensures
        other.loaded(d.state_bytes(), apu_at(d.ram.cartridge.state_len() as int)) == d.apu,
{
    let front = seq![0x47u8, 0x43, 0x53, 0x53, 2] + cpu_state_bytes(d.cpu) + d.ram.state_bytes()
        + ppu_bytes(d.ppu);
    lemma_part_lengths(d);
    assert(d.state_bytes() =~= front + d.apu.state_bytes() + after_apu(d));
    law_apu_state_roundtrip(other, d.apu, front, after_apu(d));
}

proof fn lemma_back_parts(d: ConsoleView)
    requires
        d.ram.memory.len() == 0x10000,
    ensures
        ({
            let b = d.state_bytes();
            let q = trailer_at(2, d.ram.cartridge.state_len() as int);
            &&& read_le64(b, q) == d.tick_counter
            &&& (b[q + 8] != 0) == d.cb_flag
            &&& read_le16(b, q + 9) == d.previous_div_result
            &&& d.tima_overflow_counter == if b[q + 11] != 0 {
                Some(b[q + 12])
            } else {
                None
            }
        }),
{
    let front = seq![0x47u8, 0x43, 0x53, 0x53, 2] + cpu_state_bytes(d.cpu) + d.ram.state_bytes()
        + ppu_bytes(d.ppu) + d.apu.state_bytes();
    lemma_part_lengths(d);
    assert(d.state_bytes() =~= front + after_apu(d));
    lemma_trailer(front, d.tick_counter, d.cb_flag, d.previous_div_result, d.tima_overflow_counter);
}

/// Loading a saved state into a machine holding the same cartridge gives
/// back the machine that was saved, cartridge banks and RAM included, but
/// for the objects found on the current line and the sound register writes
/// not yet forwarded (dropped), and the queue (just the next fetch).
pub proof fn law_snapshot_roundtrip(s: ConsoleView, d: ConsoleView, t: ConsoleView)
    requires
        d.ram.memory.len() == 0x10000,
        s.ram.cartridge.same_layout(d.ram.cartridge),
        snapshot_read(t, s, d.state_bytes()),
    ensures
        snapshot_error(d.state_bytes(), s.ram.cartridge.state_len() as int) is None,
        t.cpu == d.cpu,
        t.ram == (RamView { apu_register_writes: Seq::empty(), ..d.ram }),
        t.ppu == (PpuView { oam_sprites: Seq::empty(), ..d.ppu }),
        t.apu == d.apu,
        t.tick_counter == d.tick_counter,
        t.cb_flag == d.cb_flag,
        t.previous_div_result == d.previous_div_result,
        t.tima_overflow_counter == d.tima_overflow_counter,
{
    lemma_part_lengths(d);
    lemma_front_parts(d, s.ram);
    lemma_ppu_part(d);
    lemma_apu_part(d, s.apu);
    lemma_back_parts(d);
    assert(t.ppu.framebuffer =~= d.ppu.framebuffer);
    assert(t.ppu.oam_sprites =~= Seq::<crate::ppu::SpriteObject>::empty());
}

impl Console {
    /// The machine's saved state (see `ConsoleView::state_bytes`).
    #[verifier::rlimit(50)]
    pub fn save_state(&self) -> (r: Vec<u8>)
        ensures
            r@ == self@.state_bytes(),
    {
        let mut out: Vec<u8> = Vec::new();
        out.push(0x47);
        out.push(0x43);
        out.push(0x53);
        out.push(0x53);
        out.push(0x02);
        self.cpu.save_state(&mut out);
        self.ram.save_state(&mut out);
        self.ppu.save_state(&mut out);
        self.apu.save_state(&mut out);
        push_u64(&mut out, self.tick_counter);
        out.push(self.cb_flag as u8);
        push_u16(&mut out, self.previous_div_result);
        match self.tima_overflow_counter {
            Some(v) => {
                out.push(1);
                out.push(v);
            },
            None => {
                out.push(0);
                out.push(0);
            },
        }
        assert(out@ =~= self@.state_bytes());
        out
    }

    /// Load a saved state (see `snapshot_read`). Nothing changes when the
    /// input lacks the tag or names an unknown version; a truncated input
    /// is read as far as it goes.
    pub fn load_state(&mut self, input: &[u8]) -> (r: Result<(), StateError>)
        ensures
            r == match snapshot_error(input@, old(self)@.ram.cartridge.state_len() as int) {
                Some(e) => Err::<(), StateError>(e),
                None => Ok::<(), StateError>(()),
            },
            input@.len() >= 5 && input@[0] == 0x47 && input@[1] == 0x43 && input@[2] == 0x53
                && input@[3] == 0x53 && (input@[4] == 1 || input@[4] == 2) ==> snapshot_read(
                final(self)@,
                old(self)@,
                input@,
            ),
            !(input@.len() >= 5 && input@[0] == 0x47 && input@[1] == 0x43 && input@[2] == 0x53
                && input@[3] == 0x53 && (input@[4] == 1 || input@[4] == 2)) ==> final(self)@ == old(
                self,
            )@,
    {
        if input.len() < 4 {
            return Err(StateError::UnexpectedEof);
        }
        if !(input[0] == 0x47 && input[1] == 0x43 && input[2] == 0x53 && input[3] == 0x53) {
            return Err(StateError::InvalidData);
        }
        if input.len() < 5 {
            return Err(StateError::UnexpectedEof);
        }
        let version = input[4];
        if version != 0x01 && version != 0x02 {
            return Err(StateError::InvalidData);
        }
        let after_ppu = match self.read_front(input) {
            Ok(next) => next,
            Err(e) => return Err(e),
        };
        let trailer = if version == 0x02 {
            match self.apu.load_state(input, after_ppu) {
                Ok(next) => next,
                Err(e) => return Err(e),
            }
        } else {
            after_ppu
        };
        self.read_trailer(input, trailer)
    }

    /// Read the CPU, memory map and picture unit parts of a saved state,
    /// stopping at the first piece the input does not hold entirely, and
    /// return where the next part starts.
    fn read_front(&mut self, input: &[u8]) -> (r: Result<usize, StateError>)
        ensures
            r == if has_bytes(
                input@,
                ppu_at(old(self)@.ram.cartridge.state_len() as int),
                PPU_STATE_LEN as int,
            ) {
                Ok::<usize, StateError>(apu_at(old(self)@.ram.cartridge.state_len() as int) as usize)
            } else {
                Err::<usize, StateError>(StateError::UnexpectedEof)
            },
            ({
                let b = input@;
                let cpu = cpu_state_read(b, CPU_AT as int);
                let s = old(self)@;
                let t = final(self)@;
                if !has_bytes(b, CPU_AT as int, CPU_STATE_LEN as int) {
                    t == s
                } else if !has_bytes(b, RAM_AT as int, s.ram.state_len() as int) {
                    t == ConsoleView { cpu, ram: ram_read(s.ram, b, RAM_AT as int), ..s }
                } else {
                    &&& ppu_read(t.ppu, s.ppu, b, ppu_at(s.ram.cartridge.state_len() as int))
                    &&& t == ConsoleView { cpu, ram: s.ram.loaded(b, RAM_AT as int), ppu: t.ppu, ..s }
                }
            }),
    {
        if let Err(e) = self.cpu.load_state(input, CPU_AT) {
            return Err(e);
        }
        let _len = input.len();
        let ghost s = old(self)@;
        let ghost c = s.ram.cartridge.state_len() as int;
        let after_ram = match self.ram.load_state(input, RAM_AT) {
            Ok(next) => next,
            Err(e) => {
                assert(!has_bytes(input@, RAM_AT as int, s.ram.state_len() as int));
                return Err(e);
            },
        };
        assert(after_ram == ppu_at(c));
        assert(self@.ppu == s.ppu);
        let r = self.ppu.load_state(input, after_ram);
        assert(ppu_read(self@.ppu, s.ppu, input@, ppu_at(c)));
        r
    }

    /// Read the trailing fields of a saved state from `q` on (see
    /// `trailer_read`).
    fn read_trailer(&mut self, input: &[u8], q: usize) -> (r: Result<(), StateError>)
        ensures
            r == if has_bytes(input@, q as int, 13) {
                Ok::<(), StateError>(())
            } else {
                Err::<(), StateError>(StateError::UnexpectedEof)
            },
            final(self)@ == trailer_read(old(self)@, input@, q as int),
    {
        let _len = input.len();
        if !available(input, q, 8) {
            return Err(StateError::UnexpectedEof);
        }
        self.tick_counter = get_u64(input, q);
        if !available(input, q + 8, 1) {
            return Err(StateError::UnexpectedEof);
        }
        self.cb_flag = input[q + 8] != 0;
        if !available(input, q + 9, 2) {
            return Err(StateError::UnexpectedEof);
        }
        self.previous_div_result = get_u16(input, q + 9);
        if !available(input, q + 11, 2) {
            return Err(StateError::UnexpectedEof);
        }
        self.tima_overflow_counter = if input[q + 11] != 0 {
            Some(input[q + 12])
        } else {
            None
        };
        self.execution_queue = ExecutionQueue::new();
        self.queue_next_instruction(0);
        proof {
            assert(self@.queue =~= map![self@.tick_counter => seq![Command::Update(Step::FetchDecodeExecute)]]);
        }
        Ok(())
    }
}

} // verus!
