use vstd::prelude::*;

use vstd::array::spec_array_fill_for_copy_type;

use crate::apu::{Apu, CPU_CLOCK, SampleEvent};
use crate::cartridge::{Cartridge, MbcState};
use crate::command::{Command, Step};
use crate::cpu::{Cpu, CpuState, hi, lo};
use crate::ppu::{
    Ppu, PpuMode, PpuView, SpriteObject, color_at, mode_number, ppu_mode_number, shade,
    shade_of, tile_color, tile_data_address, with_pixel,
};
use crate::execution_queue::ExecutionQueue;
use crate::ram::{Interrupts, Ram, RamView};
use crate::registers::{Register16, Register8};
use crate::executor::lemma_cpu_tick_keeps_counter;

verus! {

/// A state in which the emulated machine cannot go on: the T-cycle would
/// overflow a counter or index outside the frame.
#[derive(PartialEq, Eq, Structural, Clone, Copy, Debug)]
pub enum Fault {
    /// The noise channel's timer would reload with a zero period.
    NoisePeriodZero,
    /// The scanline counter LY (0xFF44) would pass 255.
    LineCounterOverflow,
    /// The window line counter would pass 255.
    WindowLineOverflow,
    /// A pixel would be drawn on a line LY at or past the bottom of the frame.
    PixelOutsideFrame,
    /// An object row would be computed outside the object's height.
    SpriteRowOutOfRange,
    /// The opcode at PC encodes no instruction.
    UnknownOpcode,
    /// The instruction decoded has no implementation in this emulator.
    UnsupportedInstruction,
    /// A scheduled update found an opcode or operand it cannot handle.
    InvalidOperand,
    /// A 16-bit register would step past 0xFFFF or below 0.
    RegisterOverflow,
}

/// The abstract state of the whole machine.
pub struct ConsoleView {
    pub cpu: CpuState,
    pub ram: RamView,
    pub ppu: PpuView,
    pub apu: Apu,
    pub tick_counter: u64,
    pub cb_flag: bool,
    pub previous_div_result: u16,
    pub tima_overflow_counter: Option<u8>,
    pub queue: Map<u64, Seq<Command>>,
}

/// The machine: CPU, memory map, picture and audio units, and the timer.
pub struct Console {
    pub cpu: Cpu,
    pub ram: Ram,
    pub ppu: Ppu,
    pub apu: Apu,
    pub tick_counter: u64,
    pub cb_flag: bool,
    pub previous_div_result: u16,
    pub tima_overflow_counter: Option<u8>,
    pub execution_queue: ExecutionQueue,
}

impl View for Console {
    type V = ConsoleView;

    open spec fn view(&self) -> ConsoleView {
        ConsoleView {
            cpu: self.cpu@,
            ram: self.ram@,
            ppu: self.ppu@,
            apu: self.apu,
            tick_counter: self.tick_counter,
            cb_flag: self.cb_flag,
            previous_div_result: self.previous_div_result,
            tima_overflow_counter: self.tima_overflow_counter,
            queue: self.execution_queue@,
        }
    }
}

/// The bit of the divider whose falling edge clocks TIMA, by the clock
/// select bits of TAC.
pub open spec fn timer_bit(tac: u8) -> u16 {
    let sel = tac & 0b11;
    if sel == 0 {
        9
    } else if sel == 1 {
        3
    } else if sel == 2 {
        5
    } else {
        7
    }
}

/// The input of the timer's falling-edge detector: TAC's enable bit and
/// the selected divider bit.
pub open spec fn timer_input(tac: u8, div: u16) -> u16 {
    (((tac as u16) >> 2u16) & 1) & ((div >> timer_bit(tac)) & 1)
}

/// The memory map after an interrupt is requested in IF.
pub open spec fn request(ram: RamView, interrupt: Interrupts) -> RamView {
    ram.set(RamView::with_interrupt(ram.fetch(0xFF0F), interrupt, true), 0xFF0F)
}

/// The interrupt vector and IF bit of the highest-priority interrupt
/// among the bits of `triggered`, if any is set.
pub open spec fn interrupt_vector(triggered: u8) -> Option<(u16, u8)> {
    if triggered & 0x01 != 0 {
        Some((0x0040u16, 0x01u8))
    } else if triggered & 0x02 != 0 {
        Some((0x0048u16, 0x02u8))
    } else if triggered & 0x04 != 0 {
        Some((0x0050u16, 0x04u8))
    } else if triggered & 0x08 != 0 {
        Some((0x0058u16, 0x08u8))
    } else if triggered & 0x10 != 0 {
        Some((0x0060u16, 0x10u8))
    } else {
        None
    }
}

/// The machine after the return address (PC) is pushed: SP moves down by
/// one for the high byte and by one for the low byte, both written through
/// the memory map.
pub open spec fn pc_pushed(s: ConsoleView) -> ConsoleView {
    let sp1 = (s.cpu.registers.sp - 1) as u16;
    let pc = s.cpu.registers.pc;
    let cpu1 = s.cpu.with_reg16(Register16::Sp, if s.cpu.registers.sp == 0 {
        0xFFFFu16
    } else {
        sp1
    });
    let ram1 = s.ram.set(hi(pc), cpu1.registers.sp);
    let cpu2 = cpu1.with_reg16(Register16::Sp, if cpu1.registers.sp == 0 {
        0xFFFFu16
    } else {
        (cpu1.registers.sp - 1) as u16
    });
    let ram2 = ram1.set(lo(pc), cpu2.registers.sp);
    ConsoleView { cpu: cpu2, ram: ram2, ..s }
}

/// The audio unit after a sequence of register writes, in order.
pub open spec fn apply_apu_writes(apu: Apu, writes: Seq<(u16, u8)>) -> Apu
    decreases writes.len(),
{
    if writes.len() == 0 {
        apu
    } else {
        apply_apu_writes(apu, writes.drop_last()).written(writes.last().0, writes.last().1)
    }
}

/// The I/O registers as the boot ROM leaves them.
pub open spec fn post_boot_io(ram: RamView) -> RamView {
    ram.set(0xCF, 0xFF00).set(0x7E, 0xFF02).set(0xF8, 0xFF07).set(0xE1, 0xFF0F).set(
        0x91,
        0xFF40,
    ).set(0x85, 0xFF41).set(0xFC, 0xFF47).set(0xFF, 0xFF48).set(0xFF, 0xFF49)
}

/// The sound registers as the boot ROM leaves them: the unit on, channels
/// 1 and 2 set up, full master volume.
pub open spec fn post_boot_apu(apu: Apu) -> Apu {
    apu.written(0xFF26, 0xF1).written(0xFF11, 0x80).written(0xFF12, 0xF3).written(
        0xFF14,
        0xBF,
    ).written(0xFF24, 0x77).written(0xFF25, 0xF3)
}

impl ConsoleView {
    /// The counters stay in range: the TIMA reload delay counts 0-3.
    pub open spec fn wf(self) -> bool {
        &&& self.apu.wf()
        &&& match self.tima_overflow_counter {
            Some(c) => c < 4,
            None => true,
        }
    }

    /// Whether an enabled interrupt is requested (IE & IF, low five bits).
    pub open spec fn interrupt_pending(self) -> bool {
        self.ram.fetch(0xFFFF) & self.ram.fetch(0xFF0F) & 0x1F != 0
    }

    /// One T-cycle of the divider and timer.
    ///
    /// While the CPU is stopped the divider is held at 0. Otherwise the
    /// divider counts up; four cycles after TIMA overflowed it is reloaded
    /// from TMA and the timer interrupt is requested (unless TIMA was
    /// written meanwhile); and a falling edge of the timer input increments
    /// TIMA, starting the reload delay when it wraps.
    pub open spec fn timers_ticked(self) -> ConsoleView {
        if self.cpu.is_stopped {
            ConsoleView { ram: self.ram.set(0, 0xFF04), ..self }
        } else {
            let div = (if self.ram.div == 0xFFFF {
                0
            } else {
                self.ram.div + 1
            }) as u16;
            let tima0 = self.ram.fetch(0xFF05);
            let tma = self.ram.fetch(0xFF06);
            let tac = self.ram.fetch(0xFF07);
            let (ram1, counter1, tima1) = match self.tima_overflow_counter {
                Some(c) => if c + 1 == 4 {
                    if tima0 == 0 {
                        (request(self.ram.set(tma, 0xFF05), Interrupts::Timer), None, tma)
                    } else {
                        (self.ram, None, tima0)
                    }
                } else {
                    (self.ram, Some((c + 1) as u8), tima0)
                },
                None => (self.ram, None, tima0),
            };
            let ram2 = RamView { div, ..ram1 };
            let input = timer_input(tac, div);
            if self.previous_div_result == 1 && input == 0 {
                ConsoleView {
                    ram: ram2.set(((tima1 + 1) % 256) as u8, 0xFF05),
                    tima_overflow_counter: if tima1 == 255 {
                        Some(0u8)
                    } else {
                        counter1
                    },
                    previous_div_result: input,
                    ..self
                }
            } else {
                ConsoleView {
                    ram: ram2,
                    tima_overflow_counter: counter1,
                    previous_div_result: input,
                    ..self
                }
            }
        }
    }

    /// One T-cycle of the audio unit: the sound register writes queued by
    /// the memory map are applied in order, the unit ticks, and NR52's
    /// channel status is copied into memory for reads.
    pub open spec fn apu_ticked(self) -> Result<(ConsoleView, SampleEvent), Fault> {
        let apu1 = apply_apu_writes(self.apu, self.ram.apu_register_writes);
        if !apu1.can_tick() {
            Err(Fault::NoisePeriodZero)
        } else {
            let (apu2, e) = apu1.ticked();
            let ram1 = RamView { apu_register_writes: Seq::empty(), ..self.ram }.poke(
                0xFF26,
                apu2.register_value(0xFF26),
            );
            Ok((ConsoleView { apu: apu2, ram: ram1, ..self }, e))
        }
    }

    /// The machine with its memory map replaced.
    pub open spec fn with_ram(self, ram: RamView) -> ConsoleView {
        ConsoleView { ram, ..self }
    }

    /// The machine with its picture unit replaced.
    pub open spec fn with_ppu(self, ppu: PpuView) -> ConsoleView {
        ConsoleView { ppu, ..self }
    }

    /// The machine after the picture unit enters `mode`: STAT bits 0-1 show
    /// it, and the LCD interrupt is requested if STAT enables it for HBlank
    /// (bit 3), VBlank (bit 4) or OAM scan (bit 5).
    pub open spec fn mode_set(self, mode: PpuMode) -> ConsoleView {
        let s1 = ConsoleView {
            ppu: PpuView { draw_mode: mode, ..self.ppu },
            ram: self.ram.set((self.ram.fetch(0xFF41) & 0xFC) | mode_number(mode), 0xFF41),
            ..self
        };
        let stat = s1.ram.fetch(0xFF41);
        let fire = match mode {
            PpuMode::HBlank => stat & 0x08 != 0,
            PpuMode::VBlank => stat & 0x10 != 0,
            PpuMode::OamScan => stat & 0x20 != 0,
            PpuMode::Draw => false,
        };
        if fire {
            s1.with_ram(request(s1.ram, Interrupts::Lcd))
        } else {
            s1
        }
    }

    /// The machine after LY is compared with LYC: STAT bit 2 shows whether
    /// they match, and a match requests the LCD interrupt if STAT bit 6 is set.
    pub open spec fn lyc_checked(self) -> ConsoleView {
        let ly = self.ram.fetch(0xFF44);
        let lyc = self.ram.fetch(0xFF45);
        let stat = self.ram.fetch(0xFF41);
        if ly == lyc {
            let st = stat | 0x04;
            let r = self.ram.set(st, 0xFF41);
            self.with_ram(
                if st & 0x40 != 0 {
                    request(r, Interrupts::Lcd)
                } else {
                    r
                },
            )
        } else {
            self.with_ram(self.ram.set(stat & !0x04u8, 0xFF41))
        }
    }

    /// One step of the OAM scan (on even dots, while fewer than ten objects
    /// were found): the object at entry `dots / 2 - 1` is kept if it covers
    /// the current line.
    pub open spec fn oam_scanned(self) -> ConsoleView {
        if self.ppu.dots % 2 == 1 || self.ppu.oam_sprites.len() == 10 {
            self
        } else {
            let index = (self.ppu.dots / 2 - 1) as u8;
            let address = (0xFE00 + index * 4) as u16;
            let height: u8 = if self.ram.fetch(0xFF40) & 0x04 != 0 {
                16
            } else {
                8
            };
            let ly = self.ram.fetch(0xFF44);
            let top = ((self.ram.fetch(address) + 240) % 256) as u8;
            if ly >= top && ly < (top + height) % 256 {
                self.with_ppu(
                    PpuView {
                        oam_sprites: self.ppu.oam_sprites.push(
                            SpriteObject {
                                y: self.ram.fetch(address),
                                x: self.ram.fetch((address + 1) as u16),
                                tile_index: self.ram.fetch((address + 2) as u16),
                                attributes: self.ram.fetch((address + 3) as u16),
                                oam_index: index,
                            },
                        ),
                        ..self.ppu
                    },
                )
            } else {
                self
            }
        }
    }

    /// Whether pixel `px` of the current line lies in the window.
    pub open spec fn in_window(self, px: u8) -> bool {
        let lcdc = self.ram.fetch(0xFF40);
        let ly = self.ram.fetch(0xFF44);
        let wx = ((self.ram.fetch(0xFF4B) + 249) % 256) as u8;
        lcdc & 0x20 != 0 && ly >= self.ram.fetch(0xFF4A) && px >= wx
    }

    /// Where pixel `px` of the current line lies in the 256 x 256 tile map:
    /// its x and y, and whether the map at 0x9C00 (rather than 0x9800) holds it.
    pub open spec fn map_position(self, px: u8) -> (u8, u8, bool) {
        let lcdc = self.ram.fetch(0xFF40);
        let ly = self.ram.fetch(0xFF44);
        let wx = ((self.ram.fetch(0xFF4B) + 249) % 256) as u8;
        if self.in_window(px) {
            ((px - wx) as u8, self.ppu.window_line, lcdc & 0x40 != 0)
        } else {
            (
                ((self.ram.fetch(0xFF43) + px) % 256) as u8,
                ((self.ram.fetch(0xFF42) + ly) % 256) as u8,
                lcdc & 0x08 != 0,
            )
        }
    }

    /// The shade of the map pixel at (`map_x`, `map_y`) of the given map.
    pub open spec fn map_shade(self, map_x: u8, map_y: u8, high_map: bool) -> u8 {
        let tilemap_base: int = if high_map {
            0x9C00
        } else {
            0x9800
        };
        let tile_index = self.ram.fetch((tilemap_base + (map_y / 8) * 32 + map_x / 8) as u16);
        let row = (tile_data_address(self.ram.fetch(0xFF40) & 0x10 != 0, tile_index) + (map_y
            % 8) * 2) as u16;
        let color = tile_color(
            self.ram.fetch(row),
            self.ram.fetch((row + 1) as u16),
            (7 - map_x % 8) as u8,
        );
        shade_of(self.ram.fetch(0xFF47), color)
    }

    /// The shade of background or window pixel `px` of the current line.
    pub open spec fn background_shade(self, px: u8) -> u8 {
        let (x, y, high) = self.map_position(px);
        self.map_shade(x, y, high)
    }

    /// The machine after background or window pixel `px` of the current
    /// line is drawn; drawing in the window marks the window as used on
    /// this line. Lines at or below the frame's bottom have no pixels.
    pub open spec fn background_drawn(self, px: u8) -> Result<ConsoleView, Fault> {
        let ly = self.ram.fetch(0xFF44);
        if ly >= 144 {
            Err(Fault::PixelOutsideFrame)
        } else {
            let fb = with_pixel(
                self.ppu.framebuffer,
                (ly * 160 + px) * 4,
                self.background_shade(px),
            );
            Ok(
                self.with_ppu(
                    PpuView {
                        framebuffer: fb,
                        window_triggered: self.ppu.window_triggered || self.in_window(px),
                        ..self.ppu
                    },
                ),
            )
        }
    }

    /// The color of object `sprite` (left edge `sx`) at pixel `px` of its
    /// tile row `row`, for objects `height` pixels tall (in 8 x 16 mode the
    /// upper tile has bit 0 of the index clear, the lower tile set).
    pub open spec fn sprite_color_at(self, sprite: SpriteObject, sx: u8, row: u16, height: u8, px: u8) -> u8 {
        let tile: u8 = if height == 16 {
            if row < 8 {
                sprite.tile_index & 0xFE
            } else {
                sprite.tile_index | 0x01
            }
        } else {
            sprite.tile_index
        };
        let row2: u16 = if height == 16 && row >= 8 {
            (row - 8) as u16
        } else {
            row
        };
        let address = (0x8000 + tile * 16 + row2 * 2) as u16;
        let tile_x = (px - sx) as u8;
        let x = if sprite.attributes & 0x20 != 0 {
            (7 - tile_x) as u8
        } else {
            tile_x
        };
        tile_color(self.ram.fetch(address), self.ram.fetch((address + 1) as u16), (7 - x) as u8)
    }

    /// The height of objects: 16 pixels when LCDC bit 2 is set, else 8.
    pub open spec fn sprite_height(self) -> u8 {
        if self.ram.fetch(0xFF40) & 0x04 != 0 {
            16
        } else {
            8
        }
    }

    /// Whether object `i` of the current line covers pixel `px`, and if so
    /// its left edge and the row of it on the current line (counted from
    /// the bottom when it is flipped vertically).
    pub open spec fn sprite_row(self, i: int, px: u8) -> Result<Option<(u8, u16)>, Fault> {
        let sprite = self.ppu.oam_sprites[i];
        let height = self.sprite_height();
        let ly = self.ram.fetch(0xFF44);
        let sx = ((sprite.x + 248) % 256) as u8;
        let sy = ((sprite.y + 240) % 256) as u8;
        if px < sx || px >= (sx + 8) % 256 {
            Ok(None)
        } else {
            let row0 = ((ly - sy) % 256) as u16;
            if sprite.attributes & 0x40 == 0 {
                Ok(Some((sx, row0)))
            } else if row0 > height - 1 {
                Err(Fault::SpriteRowOutOfRange)
            } else {
                Ok(Some((sx, (height - 1 - row0) as u16)))
            }
        }
    }

    /// What object `sprite` (left edge `sx`, tile row `row`) does to pixel
    /// `px` of the current line: nothing (`None`), or paint framebuffer byte
    /// `index` on with `shade`. Color 0 is transparent, and an object behind
    /// the background (attribute bit 7) only shows over white.
    pub open spec fn sprite_paint(self, sprite: SpriteObject, sx: u8, row: u16, px: u8) -> Result<
        Option<(int, u8)>,
        Fault,
    > {
        let ly = self.ram.fetch(0xFF44);
        let color = self.sprite_color_at(sprite, sx, row, self.sprite_height(), px);
        if color == 0 {
            Ok(None)
        } else if ly >= 144 {
            Err(Fault::PixelOutsideFrame)
        } else {
            let index = (ly * 160 + px) * 4;
            if sprite.attributes & 0x80 != 0 && self.ppu.framebuffer@[index] != 255 {
                Ok(None)
            } else {
                let palette = if sprite.attributes & 0x10 != 0 {
                    self.ram.fetch(0xFF49)
                } else {
                    self.ram.fetch(0xFF48)
                };
                Ok(Some((index, shade_of(palette, color))))
            }
        }
    }

    /// What object `i` of the current line does to pixel `px`.
    #[verifier::opaque]
    pub open spec fn sprite_target(self, i: int, px: u8) -> Result<Option<(int, u8)>, Fault> {
        match self.sprite_row(i, px) {
            Err(f) => Err(f),
            Ok(None) => Ok(None),
            Ok(Some((sx, row))) => self.sprite_paint(self.ppu.oam_sprites[i], sx, row, px),
        }
    }

    /// The machine after object `i` of the current line is drawn over pixel `px`.
    pub open spec fn sprite_drawn(self, i: int, px: u8) -> Result<ConsoleView, Fault> {
        match self.sprite_target(i, px) {
            Err(f) => Err(f),
            Ok(None) => Ok(self),
            Ok(Some((index, shade))) => Ok(
                self.with_ppu(
                    PpuView {
                        framebuffer: with_pixel(self.ppu.framebuffer, index, shade),
                        ..self.ppu
                    },
                ),
            ),
        }
    }

    /// Objects `k - 1` down to 0 of the current line drawn over pixel `px`,
    /// in that order, so that lower-numbered objects end on top.
    pub open spec fn sprites_drawn_from(self, k: nat, px: u8) -> Result<ConsoleView, Fault>
        decreases k,
    {
        if k == 0 {
            Ok(self)
        } else {
            match self.sprite_drawn(k - 1, px) {
                Ok(s) => s.sprites_drawn_from((k - 1) as nat, px),
                Err(f) => Err(f),
            }
        }
    }

    /// The machine after the objects of the current line are drawn over
    /// pixel `px`, if objects are enabled (LCDC bit 1).
    pub open spec fn sprites_drawn(self, px: u8) -> Result<ConsoleView, Fault> {
        if self.ram.fetch(0xFF40) & 0x02 == 0 {
            Ok(self)
        } else {
            self.sprites_drawn_from(self.ppu.oam_sprites.len(), px)
        }
    }

    /// The machine with the display switched off (LCDC bit 7 clear): the
    /// dot counter and LY go back to 0, the mode to HBlank (STAT bits 0-1
    /// cleared) and the frame is white.
    pub open spec fn display_off(self) -> ConsoleView {
        let s1 = ConsoleView {
            ppu: PpuView { dots: 0, draw_mode: PpuMode::HBlank, ..self.ppu },
            ram: self.ram.set(0, 0xFF44),
            ..self
        };
        let s2 = s1.with_ram(s1.ram.set(s1.ram.fetch(0xFF41) & 0xFC, 0xFF41));
        s2.with_ppu(
            PpuView { framebuffer: spec_array_fill_for_copy_type::<u8, 92160>(255u8), ..s2.ppu },
        )
    }

    /// One dot of OAM scan, the dot counter already advanced: after dot 79
    /// drawing begins.
    pub open spec fn oam_scan_dot(self) -> ConsoleView {
        let s = self.oam_scanned();
        if s.ppu.dots == 79 {
            s.mode_set(PpuMode::Draw)
        } else {
            s
        }
    }

    /// One dot of drawing, the dot counter already advanced: dots 80-239
    /// draw pixels 0-159 (background, then objects); after dot 251 the
    /// line enters HBlank.
    pub open spec fn draw_dot(self) -> Result<ConsoleView, Fault> {
        let px = (self.ppu.dots - 80) as u8;
        let drawn = if px < 160 {
            match self.background_drawn(px) {
                Ok(s) => s.sprites_drawn(px),
                Err(f) => Err(f),
            }
        } else {
            Ok(self)
        };
        match drawn {
            Ok(s) => Ok(
                if s.ppu.dots == 251 {
                    s.mode_set(PpuMode::HBlank)
                } else {
                    s
                },
            ),
            Err(f) => Err(f),
        }
    }

    /// The machine after LY moves to the next line and is compared with LYC.
    pub open spec fn next_line(self) -> Result<ConsoleView, Fault> {
        let ly = self.ram.fetch(0xFF44);
        if ly == 255 {
            Err(Fault::LineCounterOverflow)
        } else {
            Ok(self.with_ram(self.ram.set((ly + 1) as u8, 0xFF44)).lyc_checked())
        }
    }

    /// One dot of HBlank, the dot counter already advanced: at dot 456 the
    /// window line counter advances if the window was drawn, LY advances,
    /// and the next line starts, or VBlank (requesting its interrupt) after
    /// line 143.
    pub open spec fn hblank_dot(self) -> Result<ConsoleView, Fault> {
        if self.ppu.dots != 456 {
            Ok(self)
        } else {
            let counted = if self.ppu.window_triggered {
                if self.ppu.window_line == 255 {
                    Err(Fault::WindowLineOverflow)
                } else {
                    Ok(
                        self.with_ppu(
                            PpuView {
                                window_line: (self.ppu.window_line + 1) as u8,
                                window_triggered: false,
                                ..self.ppu
                            },
                        ),
                    )
                }
            } else {
                Ok(self)
            };
            match counted {
                Err(f) => Err(f),
                Ok(s1) => match s1.next_line() {
                    Err(f) => Err(f),
                    Ok(s2) => {
                        let s3 = s2.with_ppu(PpuView { dots: 0, ..s2.ppu });
                        if s3.ram.fetch(0xFF44) == 144 {
                            let s4 = s3.mode_set(PpuMode::VBlank);
                            Ok(s4.with_ram(request(s4.ram, Interrupts::VBlank)))
                        } else {
                            Ok(s3.mode_set(PpuMode::OamScan))
                        }
                    },
                },
            }
        }
    }

    /// One dot of VBlank, the dot counter already advanced: at dot 456 LY
    /// advances; after line 153 the frame starts over at line 0 with the
    /// window line counter reset.
    pub open spec fn vblank_dot(self) -> Result<ConsoleView, Fault> {
        if self.ppu.dots != 456 {
            Ok(self)
        } else {
            match self.with_ppu(PpuView { dots: 0, ..self.ppu }).next_line() {
                Err(f) => Err(f),
                Ok(s1) => if s1.ram.fetch(0xFF44) == 154 {
                    let s2 = s1.with_ram(s1.ram.set(0, 0xFF44)).lyc_checked();
                    Ok(s2.with_ppu(PpuView { window_line: 0, ..s2.ppu }).mode_set(PpuMode::OamScan))
                } else {
                    Ok(s1)
                },
            }
        }
    }

    /// One T-cycle of the picture unit. With the display off see
    /// `display_off`; otherwise the objects found are dropped at dot 0, the
    /// dot counter advances and the current mode does its work.
    pub open spec fn ppu_ticked(self) -> Result<ConsoleView, Fault> {
        if self.ram.fetch(0xFF40) & 0x80 == 0 {
            Ok(self.display_off())
        } else {
            let s0 = if self.ppu.dots == 0 {
                self.with_ppu(PpuView { oam_sprites: Seq::empty(), ..self.ppu })
            } else {
                self
            };
            let s1 = s0.with_ppu(PpuView { dots: (s0.ppu.dots + 1) as u16, ..s0.ppu });
            match s1.ppu.draw_mode {
                PpuMode::OamScan => Ok(s1.oam_scan_dot()),
                PpuMode::Draw => s1.draw_dot(),
                PpuMode::HBlank => s1.hblank_dot(),
                PpuMode::VBlank => s1.vblank_dot(),
            }
        }
    }

    /// One T-cycle of the whole machine: the timers, the picture unit and the
    /// audio unit tick in turn; unless the CPU is stopped, the CPU ticks too
    /// and the tick counter advances. The result says whether an audio
    /// sample is due.
    pub open spec fn ticked(self) -> Result<(ConsoleView, SampleEvent), Fault> {
        let s1 = self.timers_ticked();
        match s1.ppu_ticked() {
            Err(f) => Err(f),
            Ok(s2) => match s2.apu_ticked() {
                Err(f) => Err(f),
                Ok((s3, e)) => if s3.cpu.is_stopped {
                    Ok((s3, e))
                } else {
                    match s3.cpu_ticked() {
                        Err(f) => Err(f),
                        Ok(s4) => Ok((ConsoleView { tick_counter: (s4.tick_counter + 1) as u64, ..s4 }, e)),
                    }
                },
            },
        }
    }

    /// The interrupt to service now, if the master enable is set: the
    /// highest-priority one both enabled in IE and requested in IF.
    pub open spec fn pending_interrupt(self) -> Option<(u16, u8)> {
        if !self.cpu.ime {
            None
        } else {
            interrupt_vector(self.ram.fetch(0xFF0F) & self.ram.fetch(0xFFFF) & 0x1F)
        }
    }

    /// The machine after it starts servicing the interrupt with the given
    /// vector and IF bit: interrupts disabled, the request cleared, the
    /// return address pushed and PC at the vector.
    pub open spec fn interrupt_dispatched(self, address: u16, bit: u8) -> ConsoleView {
        let s1 = ConsoleView {
            cpu: CpuState { ime: false, ..self.cpu },
            ram: self.ram.set(self.ram.fetch(0xFF0F) & !bit, 0xFF0F),
            ..self
        };
        let s2 = pc_pushed(s1);
        ConsoleView { cpu: s2.cpu.with_reg16(Register16::Pc, address), ..s2 }
    }

    /// The machine after it leaves HALT to service the lowest-numbered
    /// pending interrupt.
    pub open spec fn halt_ended(self) -> ConsoleView {
        let mask = self.ram.fetch(0xFFFF) & self.ram.fetch(0xFF0F);
        let index = vstd::std_specs::bits::u8_trailing_zeros(mask);
        let flag = self.ram.fetch(0xFF0F);
        let s1 = ConsoleView {
            cpu: CpuState { is_halted: false, ime: false, ..self.cpu },
            ram: self.ram.set(flag & !(1u8 << index as u8), 0xFF0F),
            ..self
        };
        let s2 = pc_pushed(s1);
        ConsoleView { cpu: s2.cpu.with_reg16(Register16::Pc, (0x0040 + index * 8) as u16), ..s2 }
    }

    /// The machine after the joypad state changes: a button that goes from
    /// released (1) to pressed (0) requests the joypad interrupt.
    pub open spec fn joypad_updated(self, action: u8, direction: u8) -> ConsoleView {
        let ram1 = RamView {
            joypad_action: action & 0x0F,
            joypad_direction: direction & 0x0F,
            ..self.ram
        };
        let newly_pressed = (self.ram.joypad_action & !action) | (self.ram.joypad_direction
            & !direction);
        ConsoleView {
            ram: if newly_pressed != 0 {
                request(ram1, Interrupts::Joypad)
            } else {
                ram1
            },
            ..self
        }
    }
}


/// Drawing objects over a pixel changes nothing but the frame.
proof fn lemma_sprites_change_frame_only(s: ConsoleView, k: nat, px: u8)
    ensures
        s.sprites_drawn_from(k, px) matches Ok(t) ==> t == s.with_ppu(
            PpuView { framebuffer: t.ppu.framebuffer, ..s.ppu },
        ),
    decreases k,
{
    if k > 0 {
        if let Ok(s1) = s.sprite_drawn(k - 1, px) {
            lemma_sprites_change_frame_only(s1, (k - 1) as nat, px);
        }
    }
}

proof fn lemma_timers_keep_counter(s: ConsoleView)
    ensures
        s.timers_ticked().tick_counter == s.tick_counter,
        s.timers_ticked().cpu == s.cpu,
{
}

proof fn lemma_apu_tick_keeps_counter(s: ConsoleView)
    ensures
        s.apu_ticked() matches Ok((t, _)) ==> t.tick_counter == s.tick_counter && t.cpu == s.cpu,
{
}

/// Interrupt priority: among the requested and enabled interrupts (bits
/// 0-4: VBlank, LCD STAT, Timer, Serial, Joypad) the lowest-numbered one is
/// serviced, at vector 0x40 + 8k with IF bit 1 << k; with none, nothing is.
pub proof fn law_interrupt_priority(triggered: u8, k: u8)
    requires
        k < 5,
    ensures
        (triggered >> k) & 1 == 1 && triggered & ((1u8 << k) - 1) as u8 == 0 ==> interrupt_vector(
            triggered,
        ) == Some(((0x40 + 8 * k) as u16, 1u8 << k)),
        triggered & 0x1F == 0 ==> interrupt_vector(triggered) is None,
{
    let t = triggered;
    assert(t & 0x1F == 0 ==> t & 0x01 == 0 && t & 0x02 == 0 && t & 0x04 == 0 && t & 0x08 == 0
        && t & 0x10 == 0) by (bit_vector);
    if (t >> k) & 1 == 1 && t & ((1u8 << k) - 1) as u8 == 0 {
        if k == 0 {
            assert(((t >> 0u8) & 1 == 1 ==> t & 0x01 != 0) && 1u8 << 0u8 == 1) by (bit_vector);
        } else if k == 1 {
            assert(((t >> 1u8) & 1 == 1 && t & ((1u8 << 1u8) - 1) as u8 == 0 ==> t & 0x01 == 0
                && t & 0x02 != 0) && 1u8 << 1u8 == 2) by (bit_vector);
        } else if k == 2 {
            assert(((t >> 2u8) & 1 == 1 && t & ((1u8 << 2u8) - 1) as u8 == 0 ==> t & 0x01 == 0
                && t & 0x02 == 0 && t & 0x04 != 0) && 1u8 << 2u8 == 4) by (bit_vector);
        } else if k == 3 {
            assert(((t >> 3u8) & 1 == 1 && t & ((1u8 << 3u8) - 1) as u8 == 0 ==> t & 0x01 == 0
                && t & 0x02 == 0 && t & 0x04 == 0 && t & 0x08 != 0) && 1u8 << 3u8 == 8) by (bit_vector);
        } else {
            assert(((t >> 4u8) & 1 == 1 && t & ((1u8 << 4u8) - 1) as u8 == 0 ==> t & 0x01 == 0
                && t & 0x02 == 0 && t & 0x04 == 0 && t & 0x08 == 0 && t & 0x10 != 0) && 1u8 << 4u8 == 16) by (bit_vector);
        }
    }
}

/// How many T-cycles one TIMA increment takes for TAC's clock select
/// (bits 0-1): 1024 (4096 Hz), 16 (262144 Hz), 64 (65536 Hz), 256
/// (16384 Hz).
pub open spec fn timer_period(tac: u8) -> int {
    if tac % 4 == 0 {
        1024
    } else if tac % 4 == 1 {
        16
    } else if tac % 4 == 2 {
        64
    } else {
        256
    }
}

/// The timer's input is high exactly while the timer is enabled (TAC bit 2)
/// and the divider is in the second half of a period of the selected
/// length.
pub proof fn law_timer_input(tac: u8, div: u16)
    ensures
        timer_input(tac, div) == (if tac & 4 != 0 && (div as int) % timer_period(tac)
            >= timer_period(tac) / 2 {
            1u16
        } else {
            0u16
        }),
{
    assert((((tac as u16) >> 2u16) & 1) == (if tac & 4 != 0 {
        1u16
    } else {
        0u16
    })) by (bit_vector);
    assert(tac & 0b11 == tac % 4) by (bit_vector);
    assert((div >> 9u16) & 1 == (if div % 1024 >= 512 {
        1u16
    } else {
        0u16
    })) by (bit_vector);
    assert((div >> 3u16) & 1 == (if div % 16 >= 8 {
        1u16
    } else {
        0u16
    })) by (bit_vector);
    assert((div >> 5u16) & 1 == (if div % 64 >= 32 {
        1u16
    } else {
        0u16
    })) by (bit_vector);
    assert((div >> 7u16) & 1 == (if div % 256 >= 128 {
        1u16
    } else {
        0u16
    })) by (bit_vector);
    let a = ((tac as u16) >> 2u16) & 1;
    let b = (div >> timer_bit(tac)) & 1;
    assert(a <= 1 && b <= 1 ==> a & b == (if a == 1 && b == 1 {
        1u16
    } else {
        0u16
    })) by (bit_vector);
    assert(a <= 1 && b <= 1);
}

/// TIMA counts once per period: the timer input falls (high, then low once
/// the divider advances) exactly when the timer is enabled and the advanced
/// divider reaches a multiple of the selected period (1024, 16, 64 or 256
/// T-cycles).
pub proof fn law_timer_edge(tac: u8, div: u16)
    ensures
        ({
            let next = ((div + 1) % 0x10000) as u16;
            (timer_input(tac, div) == 1 && timer_input(tac, next) == 0) == (tac & 4 != 0 && (
            div + 1) % timer_period(tac) == 0)
        }),
{
    let next = ((div + 1) % 0x10000) as u16;
    law_timer_input(tac, div);
    law_timer_input(tac, next);
}

/// Every T-cycle of the picture unit keeps its dot counter within the span
/// of its mode and at most ten objects on the current line.
#[verifier::rlimit(40)]
pub proof fn law_ppu_tick_keeps_timing(s: ConsoleView)
    requires
        s.ppu.wf(),
    ensures
        s.ppu_ticked() matches Ok(t) ==> t.ppu.wf(),
{
    if s.ram.fetch(0xFF40) & 0x80 != 0 {
        let s0 = if s.ppu.dots == 0 {
            s.with_ppu(PpuView { oam_sprites: Seq::empty(), ..s.ppu })
        } else {
            s
        };
        let s1 = s0.with_ppu(PpuView { dots: (s0.ppu.dots + 1) as u16, ..s0.ppu });
        if s1.ppu.draw_mode == PpuMode::Draw {
            let px = (s1.ppu.dots - 80) as u8;
            if px < 160 {
                if let Ok(b) = s1.background_drawn(px) {
                    lemma_sprites_change_frame_only(b, b.ppu.oam_sprites.len(), px);
                }
            }
        }
    }
}

/// A T-cycle of the picture unit touches only the picture unit and memory.
#[verifier::rlimit(40)]
proof fn lemma_ppu_tick_frame(s: ConsoleView)
    ensures
        s.ppu_ticked() matches Ok(t) ==> {
            &&& t.tick_counter == s.tick_counter
            &&& t.cpu == s.cpu
            &&& t.apu == s.apu
            &&& t.queue == s.queue
            &&& t.tima_overflow_counter == s.tima_overflow_counter
        },
{
    if s.ram.fetch(0xFF40) & 0x80 != 0 {
        let s0 = if s.ppu.dots == 0 {
            s.with_ppu(PpuView { oam_sprites: Seq::empty(), ..s.ppu })
        } else {
            s
        };
        let s1 = s0.with_ppu(PpuView { dots: (s0.ppu.dots + 1) as u16, ..s0.ppu });
        if s1.ppu.draw_mode == PpuMode::Draw {
            let px = (s1.ppu.dots - 80) as u8;
            if px < 160 {
                if let Ok(b) = s1.background_drawn(px) {
                    lemma_sprites_change_frame_only(b, b.ppu.oam_sprites.len(), px);
                }
            }
        }
    }
}

/// The address of a tile's data under signed indexing: indices 0-127 from
/// 0x9000 and 128-255 (that is, -128 to -1) below it.
fn signed_tile_base(tile_index: u8) -> (r: u16)
    ensures
        r == tile_data_address(false, tile_index),
{
    let t = tile_index;
    assert(0x9000u16.wrapping_add(((t as i8) as i16 * 16) as u16) == (if t >= 128 {
        0x8000 + t * 16
    } else {
        0x9000 + t * 16
    })) by (bit_vector);
    0x9000u16.wrapping_add(((tile_index as i8) as i16 * 16) as u16)
}

impl Console {
    fn push_pc(&mut self)
        ensures
            final(self)@ == pc_pushed(old(self)@),
    {
        let sp = self.cpu.get_register_16(&Register16::Sp);
        self.cpu.set_register_16(sp.wrapping_sub(1), &Register16::Sp);
        let high = self.cpu.get_register(&Register8::PcHigh);
        let sp = self.cpu.get_register_16(&Register16::Sp);
        self.ram.set(high, sp);
        self.cpu.set_register_16(sp.wrapping_sub(1), &Register16::Sp);
        let low = self.cpu.get_register(&Register8::PcLow);
        let sp = self.cpu.get_register_16(&Register16::Sp);
        self.ram.set(low, sp);
    }

    /// One T-cycle of the divider and the timer.
    pub fn tick_timers(&mut self)
        requires
            old(self)@.wf(),
        ensures
            final(self)@ == old(self)@.timers_ticked(),
            final(self)@.wf(),
    {
        if self.cpu.get_is_stopped() {
            // Div resets if cpu is stopped
            self.ram.set(0, 0xFF04);
            return;
        }
        let div = self.ram.get_div().wrapping_add(1);
        let mut tima = self.ram.fetch(0xFF05);
        let tma = self.ram.fetch(0xFF06);
        let tac = self.ram.fetch(0xFF07);

        if let Some(count) = self.tima_overflow_counter {
            let count = count + 1;
            self.tima_overflow_counter = Some(count);
            if count == 4 {
                self.tima_overflow_counter = None;
                if tima == 0 {
                    self.ram.set(tma, 0xFF05);
                    self.ram.set_if(true, Interrupts::Timer);
                    tima = tma;
                }
            }
        }
        self.ram.set_div(div);

        let bitshift: u16 = match tac & 0b00000011 {
            0b00 => 9,
            0b01 => 3,
            0b10 => 5,
            _ => 7,
        };
        let timer_enable = ((tac as u16) >> 2u16) & 1;
        let div_bit = (div >> bitshift) & 1;
        let and_result = timer_enable & div_bit;

        if self.previous_div_result == 1 && and_result == 0 {
            let overflow = tima == 0xFF;
            let result = tima.wrapping_add(1);
            self.ram.set(result, 0xFF05);
            if overflow {
                self.tima_overflow_counter = Some(0);
            }
        }
        self.previous_div_result = and_result;
    }

    /// The highest-priority interrupt to service now, if interrupts are
    /// enabled: its vector and its IF bit.
    pub fn check_interrupts(&mut self) -> (r: Option<(u16, u8)>)
        ensures
            r == old(self)@.pending_interrupt(),
            final(self)@ == old(self)@,
    {
        if !self.cpu.get_ime() {
            return None;
        }
        let if_flag = self.ram.fetch(0xFF0F);
        let ie_flag = self.ram.fetch(0xFFFF);

        // Interrupts are only handled when both IE and IF
        // are set for the specific interrupt
        let triggered = if_flag & ie_flag & 0x1F;
        if triggered == 0 {
            assert(triggered & 0x01 == 0 && triggered & 0x02 == 0 && triggered & 0x04 == 0
                && triggered & 0x08 == 0 && triggered & 0x10 == 0) by (bit_vector)
                requires
                    triggered == 0,
            ;
            return None;
        }
        // Interrupts are handled according to priority

        if triggered & 0x01 != 0 {
            // VBlank
            Some((0x0040, 0x01))
        } else if triggered & 0x02 != 0 {
            // LCD Stat
            Some((0x0048, 0x02))
        } else if triggered & 0x04 != 0 {
            // Timer
            Some((0x0050, 0x04))
        } else if triggered & 0x08 != 0 {
            // Serial
            Some((0x0058, 0x08))
        } else if triggered & 0x10 != 0 {
            // Joypad
            Some((0x0060, 0x10))
        } else {
            None
        }
    }

    /// Start servicing an interrupt: disable interrupts, clear its request,
    /// push PC and jump to its vector; the next instruction is fetched 20
    /// T-cycles later.
    pub fn handle_interrupt(&mut self, address: u16, bit: u8)
        requires
            old(self)@.has_headroom(),
        ensures
            final(self)@ == old(self)@.interrupt_dispatched(address, bit).next_queued(20),
    {
        self.cpu.set_ime(false);

        // Clear the IF bit for this interrupt
        let flags = self.ram.fetch(0xFF0F);
        self.ram.set(flags & !bit, 0xFF0F);

        // Push the current PC onto the stack (SP--, [SP] = high, SP--, [SP] = low)
        self.push_pc();

        // Jump PC to handle the interrupt
        self.cpu.set_register_16(address, &Register16::Pc);
        self.queue_next_instruction(20);
    }

    /// Leave HALT and service the lowest-numbered pending interrupt; the
    /// next instruction is fetched 21 T-cycles later.
    pub fn end_halt(&mut self)
        requires
            old(self)@.interrupt_pending(),
            old(self)@.has_headroom(),
        ensures
            final(self)@ == old(self)@.halt_ended().next_queued(21),
    {
        self.cpu.set_halt(false);
        let interrupt_mask = self.ram.fetch(0xFFFF) & self.ram.fetch(0xFF0F);
        proof {
            let ie = self.ram@.fetch(0xFFFF);
            let f = self.ram@.fetch(0xFF0F);
            assert(ie & f & 0x1F != 0 ==> ie & f != 0) by (bit_vector);
            vstd::std_specs::bits::axiom_u8_trailing_zeros(interrupt_mask);
            let tz = vstd::std_specs::bits::u8_trailing_zeros(interrupt_mask);
            assert(forall|j: u8|
                0 <= j < tz ==> #[trigger] (interrupt_mask >> j) & 1u8 == 0u8);
            if tz >= 5 {
                assert((interrupt_mask >> 0u8) & 1u8 == 0u8);
                assert((interrupt_mask >> 1u8) & 1u8 == 0u8);
                assert((interrupt_mask >> 2u8) & 1u8 == 0u8);
                assert((interrupt_mask >> 3u8) & 1u8 == 0u8);
                assert((interrupt_mask >> 4u8) & 1u8 == 0u8);
                assert(interrupt_mask & 0x1F == 0) by (bit_vector)
                    requires
                        (interrupt_mask >> 0u8) & 1u8 == 0u8,
                        (interrupt_mask >> 1u8) & 1u8 == 0u8,
                        (interrupt_mask >> 2u8) & 1u8 == 0u8,
                        (interrupt_mask >> 3u8) & 1u8 == 0u8,
                        (interrupt_mask >> 4u8) & 1u8 == 0u8,
                ;
                assert(false);
            }
        }
        let interrupt_index = interrupt_mask.trailing_zeros() as u16;
        let interrupt_flag = self.ram.fetch(0xFF0F);
        self.ram.set(interrupt_flag & !(1u8 << interrupt_index as u8), 0xFF0F);

        self.cpu.set_ime(false);

        // Push PC onto stack (SP--, [SP] = high, SP--, [SP] = low)
        self.push_pc();

        self.cpu.set_register_16(0x0040 + interrupt_index * 8, &Register16::Pc);
        self.queue_next_instruction(21);
    }

    /// Update joypad state and request joypad interrupt if a button was newly pressed.
    pub fn update_joypad(&mut self, action: u8, direction: u8)
        ensures
            final(self)@ == old(self)@.joypad_updated(action, direction),
    {
        let old_action = self.ram.joypad_action();
        let old_direction = self.ram.joypad_direction();
        self.ram.set_joypad(action, direction);

        // A button went from released (1) to pressed (0): fire joypad interrupt
        let newly_pressed = (old_action & !action) | (old_direction & !direction);
        if newly_pressed != 0 {
            self.ram.set_if(true, Interrupts::Joypad);
        }
    }

    /// The battery-backed cartridge RAM, as it is to be persisted.
    pub fn save_ram(&self) -> (r: Vec<u8>)
        ensures
            r@ == self@.ram.cartridge.external_ram(),
    {
        self.ram.save_ram()
    }

    /// Whether an enabled interrupt is requested.
    pub fn is_interrupt_pending(&self) -> (r: bool)
        ensures
            r == self@.interrupt_pending(),
    {
        let interrupt_enabled = self.ram.fetch(0xFFFF);
        let interrupt_flag = self.ram.fetch(0xFF0F);
        (interrupt_enabled & interrupt_flag & 0x1F) != 0
    }

    /// One T-cycle of the audio unit; says whether a sample is due.
    pub fn tick_apu(&mut self) -> (r: Result<SampleEvent, Fault>)
        requires
            old(self)@.wf(),
        ensures
            match old(self)@.apu_ticked() {
                Ok((s, e)) => r == Ok::<SampleEvent, Fault>(e) && final(self)@ == s,
                Err(f) => r == Err::<SampleEvent, Fault>(f),
            },
            r is Ok ==> final(self)@.wf(),
    {
        // Forward the sound register writes queued by the memory map
        let n = self.ram.apu_register_writes().len();
        let mut i: usize = 0;
        while i < n
            invariant
                i <= n,
                n == self.ram@.apu_register_writes.len(),
                self.ram@ == old(self)@.ram,
                self.apu.wf(),
                self.apu == apply_apu_writes(
                    old(self)@.apu,
                    old(self)@.ram.apu_register_writes.take(i as int),
                ),
                self@.cpu == old(self)@.cpu,
                self@.ppu == old(self)@.ppu,
                self.tick_counter == old(self).tick_counter,
                self.cb_flag == old(self).cb_flag,
                self.previous_div_result == old(self).previous_div_result,
                self.tima_overflow_counter == old(self).tima_overflow_counter,
                self@.queue == old(self)@.queue,
            decreases n - i,
        {
            let (addr, val) = self.ram.apu_register_writes()[i];
            self.apu.write_register(addr, val);
            proof {
                let w = old(self)@.ram.apu_register_writes;
                assert(w.take(i + 1).drop_last() =~= w.take(i as int));
            }
            i = i + 1;
        }
        proof {
            let w = old(self)@.ram.apu_register_writes;
            assert(w.take(n as int) =~= w);
        }
        self.ram.clear_apu_register_writes();
        if !self.apu.tick_is_safe() {
            return Err(Fault::NoisePeriodZero);
        }
        let e = self.apu.tick();

        // Sync NR52 status back to RAM for reads
        let nr52 = self.apu.read_register(0xFF26);
        self.ram.set_raw(nr52, 0xFF26);
        Ok(e)
    }

    /// The machine as the boot ROM leaves it, with an empty cartridge.
    pub open spec fn initial() -> ConsoleView {
        ConsoleView {
            cpu: Cpu::initial(),
            ram: post_boot_io(Ram::with_cartridge(Cartridge::blank())),
            ppu: Ppu::powered_on(),
            apu: post_boot_apu(Apu::powered_on()),
            tick_counter: 0,
            cb_flag: false,
            previous_div_result: 0,
            tima_overflow_counter: None,
            queue: map![0u64 => seq![Command::Update(Step::FetchDecodeExecute)]],
        }
    }

    /// The machine as the boot ROM leaves it with `cartridge` inserted: the
    /// I/O registers are set up on the new memory map and the sound
    /// registers written a second time.
    pub open spec fn initial_with(cartridge: MbcState) -> ConsoleView {
        ConsoleView {
            ram: post_boot_io(Ram::with_cartridge(cartridge)),
            apu: post_boot_apu(post_boot_apu(Apu::powered_on())),
            ..Console::initial()
        }
    }

    /// Create a new console object.
    pub fn new() -> (c: Console)
        ensures
            c@ == Console::initial(),
            c@.wf(),
    {
        let mut console = Console {
            cpu: Cpu::new(),
            ram: Ram::default(),
            ppu: Ppu::new(),
            apu: Apu::new(),
            tick_counter: 0,
            cb_flag: false,
            previous_div_result: 0,
            tima_overflow_counter: None,
            execution_queue: ExecutionQueue::new(),
        };

        // Initialize IO registers to post-boot ROM values (DMG)
        console.ram.set(0xCF, 0xFF00);  // JOYP
        console.ram.set(0x7E, 0xFF02);  // SC
        console.ram.set(0xF8, 0xFF07);  // TAC
        console.ram.set(0xE1, 0xFF0F);  // IF
        console.ram.set(0x91, 0xFF40);  // LCDC
        console.ram.set(0x85, 0xFF41);  // STAT
        console.ram.set(0xFC, 0xFF47);  // BGP
        console.ram.set(0xFF, 0xFF48);  // OBP0
        console.ram.set(0xFF, 0xFF49);  // OBP1

        // Initialize APU registers to post-boot values
        console.apu.write_register(0xFF26, 0xF1);  // NR52: APU on, ch1+ch2 active
        console.apu.write_register(0xFF11, 0x80);  // NR11
        console.apu.write_register(0xFF12, 0xF3);  // NR12
        console.apu.write_register(0xFF14, 0xBF);  // NR14
        console.apu.write_register(0xFF24, 0x77);  // NR50
        console.apu.write_register(0xFF25, 0xF3);  // NR51

        console.queue_next_instruction(0);
        assert(console@.queue =~= Console::initial().queue);
        console
    }

    fn get_lcd_control(&self) -> (r: u8)
        ensures
            r == self@.ram.fetch(0xFF40),
    {
        self.ram.fetch(0xFF40)
    }

    fn get_lcd_status(&self) -> (r: u8)
        ensures
            r == self@.ram.fetch(0xFF41),
    {
        self.ram.fetch(0xFF41)
    }

    fn set_lcd_status(&mut self, value: u8)
        ensures
            final(self)@ == old(self)@.with_ram(old(self)@.ram.set(value, 0xFF41)),
    {
        self.ram.set(value, 0xFF41);
    }

    fn get_scroll_y(&self) -> (r: u8)
        ensures
            r == self@.ram.fetch(0xFF42),
    {
        self.ram.fetch(0xFF42)
    }

    fn get_scroll_x(&self) -> (r: u8)
        ensures
            r == self@.ram.fetch(0xFF43),
    {
        self.ram.fetch(0xFF43)
    }

    fn get_lcd_y(&self) -> (r: u8)
        ensures
            r == self@.ram.fetch(0xFF44),
    {
        self.ram.fetch(0xFF44)
    }

    fn set_lcd_y(&mut self, value: u8)
        ensures
            final(self)@ == old(self)@.with_ram(old(self)@.ram.set(value, 0xFF44)),
    {
        self.ram.set(value, 0xFF44);
    }

    fn get_lcd_y_compare(&self) -> (r: u8)
        ensures
            r == self@.ram.fetch(0xFF45),
    {
        self.ram.fetch(0xFF45)
    }

    fn get_bg_palette(&self) -> (r: u8)
        ensures
            r == self@.ram.fetch(0xFF47),
    {
        self.ram.fetch(0xFF47)
    }

    fn get_obj_palette0(&self) -> (r: u8)
        ensures
            r == self@.ram.fetch(0xFF48),
    {
        self.ram.fetch(0xFF48)
    }

    fn get_obj_palette1(&self) -> (r: u8)
        ensures
            r == self@.ram.fetch(0xFF49),
    {
        self.ram.fetch(0xFF49)
    }

    fn get_window_y(&self) -> (r: u8)
        ensures
            r == self@.ram.fetch(0xFF4A),
    {
        self.ram.fetch(0xFF4A)
    }

    fn get_window_x(&self) -> (r: u8)
        ensures
            r == self@.ram.fetch(0xFF4B),
    {
        self.ram.fetch(0xFF4B)
    }

    /// The framebuffer: 160 x 144 pixels, four bytes (RGBA) each.
    pub fn get_framebuffer(&self) -> (r: &[u8; 92160])
        ensures
            *r == self@.ppu.framebuffer,
    {
        self.ppu.get_framebuffer()
    }

    fn set_ppu_mode(&mut self, new_mode: PpuMode)
        ensures
            final(self)@ == old(self)@.mode_set(new_mode),
    {
        self.ppu.draw_mode = new_mode;
        let stat = self.get_lcd_status();
        self.set_lcd_status(stat & 0xFC | ppu_mode_number(new_mode));

        let stat = self.get_lcd_status();
        let fire = match new_mode {
            PpuMode::HBlank => stat & 0x08 != 0,
            PpuMode::VBlank => stat & 0x10 != 0,
            PpuMode::OamScan => stat & 0x20 != 0,
            PpuMode::Draw => false,
        };
        if fire {
            self.ram.set_if(true, Interrupts::Lcd);
        }
    }

    fn check_lyc(&mut self)
        ensures
            final(self)@ == old(self)@.lyc_checked(),
    {
        let ly = self.get_lcd_y();
        let lyc = self.get_lcd_y_compare();
        let mut stat = self.get_lcd_status();

        if ly == lyc {
            stat = stat | 0x04;  // Set bit 2 (coincidence flag)
            self.set_lcd_status(stat);
            if stat & 0x40 != 0 {
                self.ram.set_if(true, Interrupts::Lcd);
            }
        } else {
            stat = stat & !0x04u8;  // Clear bit 2
            self.set_lcd_status(stat);
        }
    }

    fn oam_scan(&mut self)
        requires
            old(self)@.ppu.draw_mode == PpuMode::OamScan,
            1 <= old(self)@.ppu.dots <= 79,
            old(self)@.ppu.oam_sprites.len() <= 10,
        ensures
            final(self)@ == old(self)@.oam_scanned(),
    {
        // Only execute every other T cycle
        if self.ppu.dots % 2 == 1 {
            return;
        }
        if self.ppu.oam_sprites.len() == 10 {
            return;
        }
        let index = ((self.ppu.dots / 2) as u8) - 1;
        // Objects start at 0xFE00 and take 4 bytes each
        let address = 0xFE00 + (index as u16) * 4;

        let sprite_height: u8 = if self.get_lcd_control() & 0x04 != 0 {
            16
        } else {
            8
        };
        let sprite_top = self.ram.fetch(address).wrapping_sub(16);
        let is_on_line = self.get_lcd_y() >= sprite_top && self.get_lcd_y()
            < sprite_top.wrapping_add(sprite_height);
        if is_on_line {
            let sprite = SpriteObject {
                y: self.ram.fetch(address),
                x: self.ram.fetch(address + 1),
                tile_index: self.ram.fetch(address + 2),
                attributes: self.ram.fetch(address + 3),
                oam_index: index,
            };
            self.ppu.oam_sprites.push(sprite);
        }
    }

    fn write_pixel(&mut self, index: usize, shade: u8)
        requires
            index + 3 < 92160,
        ensures
            final(self)@ == old(self)@.with_ppu(
                PpuView {
                    framebuffer: with_pixel(old(self)@.ppu.framebuffer, index as int, shade),
                    ..old(self)@.ppu
                },
            ),
    {
        let ghost fb0 = self.ppu.framebuffer;
        self.ppu.framebuffer[index] = shade;
        let ghost fb1 = self.ppu.framebuffer;
        assert(fb1 =~= vstd::array::spec_array_update(fb0, index as int, shade));
        self.ppu.framebuffer[index + 1] = shade;
        let ghost fb2 = self.ppu.framebuffer;
        assert(fb2 =~= vstd::array::spec_array_update(fb1, index + 1, shade));
        self.ppu.framebuffer[index + 2] = shade;
        let ghost fb3 = self.ppu.framebuffer;
        assert(fb3 =~= vstd::array::spec_array_update(fb2, index + 2, shade));
        self.ppu.framebuffer[index + 3] = 255;
        assert(self.ppu.framebuffer =~= vstd::array::spec_array_update(fb3, index + 3, 255u8));
    }

    fn map_position(&self, pixel_x: u8) -> (r: (u8, u8, bool, bool))
        ensures
            (r.0, r.1, r.2) == self@.map_position(pixel_x),
            r.3 == self@.in_window(pixel_x),
    {
        let lcdc = self.get_lcd_control();
        let ly = self.get_lcd_y();

        // Check if the window covers this pixel
        let wy = self.get_window_y();
        let wx = self.get_window_x().wrapping_sub(7);
        let window_enabled = lcdc & 0x20 != 0;
        let in_window = window_enabled && ly >= wy && pixel_x >= wx;
        if in_window {
            // Window tilemap selected by LCDC bit 6
            (pixel_x - wx, self.ppu.window_line, lcdc & 0x40 != 0, true)
        } else {
            // BG tilemap selected by LCDC bit 3
            (
                self.get_scroll_x().wrapping_add(pixel_x),
                self.get_scroll_y().wrapping_add(ly),
                lcdc & 0x08 != 0,
                false,
            )
        }
    }

    fn map_shade(&self, map_x: u8, map_y: u8, high_map: bool) -> (r: u8)
        ensures
            r == self@.map_shade(map_x, map_y, high_map),
    {
        let lcdc = self.get_lcd_control();
        let tilemap_base = if high_map {
            0x9C00u16
        } else {
            0x9800u16
        };
        let tile_x = (map_x / 8) as u16;
        let tile_y = (map_y / 8) as u16;
        let tile_pixel_x = map_x % 8;
        let tile_pixel_y = map_y % 8;

        let tilemap_address = tilemap_base + (tile_y * 32) + tile_x;
        let tile_index = self.ram.fetch(tilemap_address);

        let tile_data_base = if lcdc & 0x10 != 0 {
            0x8000 + (tile_index as u16) * 16
        } else {
            signed_tile_base(tile_index)
        };
        let tile_row_address = tile_data_base + (tile_pixel_y as u16) * 2;
        let byte1 = self.ram.fetch(tile_row_address);
        let byte2 = self.ram.fetch(tile_row_address + 1);

        let bit_position = 7 - tile_pixel_x;
        let color_id = color_at(byte1, byte2, bit_position);
        let palette = self.get_bg_palette();
        shade(palette, color_id)
    }

    fn draw_background(&mut self, pixel_x: u8) -> (r: Result<(), Fault>)
        requires
            pixel_x < 160,
        ensures
            match old(self)@.background_drawn(pixel_x) {
                Ok(s) => r == Ok::<(), Fault>(()) && final(self)@ == s,
                Err(f) => r == Err::<(), Fault>(f),
            },
    {
        let (map_x, map_y, high_map, in_window) = self.map_position(pixel_x);
        let shade = self.map_shade(map_x, map_y, high_map);
        let ly = self.get_lcd_y();
        if in_window {
            self.ppu.window_triggered = true;
        }
        if ly >= 144 {
            return Err(Fault::PixelOutsideFrame);
        }
        let fb_index = ((ly as usize) * 160 + (pixel_x as usize)) * 4;
        self.write_pixel(fb_index, shade);
        Ok(())
    }

    fn sprite_color(&self, sprite: SpriteObject, sprite_x: u8, row: u16, height: u8, pixel_x: u8)
        -> (r: u8)
        requires
            sprite_x <= pixel_x < sprite_x + 8,
            row <= 255,
            height == 8 || height == 16,
        ensures
            r == self@.sprite_color_at(sprite, sprite_x, row, height, pixel_x),
            r < 4,
    {
        let mut tile_row = row;
        let actual_tile = if height == 16 {
            // 8x16 mode: bit 0 of tile index is ignored
            if tile_row < 8 {
                sprite.tile_index & 0xFE
            } else {
                tile_row = tile_row - 8;
                sprite.tile_index | 0x01
            }
        } else {
            sprite.tile_index
        };
        let tile_data_address = 0x8000 + (actual_tile as u16) * 16 + tile_row * 2;
        let byte1 = self.ram.fetch(tile_data_address);
        let byte2 = self.ram.fetch(tile_data_address + 1);

        let mut tile_pixel_x = pixel_x.wrapping_sub(sprite_x);
        if sprite.attributes & 0x20 != 0 {
            tile_pixel_x = 7 - tile_pixel_x;
        }
        let bit_position = 7 - tile_pixel_x;
        color_at(byte1, byte2, bit_position)
    }

    fn sprite_height(&self) -> (r: u8)
        ensures
            r == self@.sprite_height(),
    {
        if self.get_lcd_control() & 0x04 != 0 {
            16
        } else {
            8
        }
    }

    fn sprite_row(&self, i: usize, pixel_x: u8) -> (r: Result<Option<(u8, u16)>, Fault>)
        requires
            i < self@.ppu.oam_sprites.len(),
        ensures
            r == self@.sprite_row(i as int, pixel_x),
            r matches Ok(Some((sx, row))) ==> sx <= pixel_x < sx + 8 && row <= 255,
    {
        let sprite_height = self.sprite_height();
        let ly = self.get_lcd_y();
        let sprite = self.ppu.oam_sprites[i];
        let sprite_x = sprite.x.wrapping_sub(8);
        let sprite_y = sprite.y.wrapping_sub(16);

        // Check if this sprite covers pixel_x
        if pixel_x < sprite_x || pixel_x >= sprite_x.wrapping_add(8) {
            return Ok(None);
        }
        let tile_row = ly.wrapping_sub(sprite_y) as u16;
        if sprite.attributes & 0x40 == 0 {
            return Ok(Some((sprite_x, tile_row)));
        }
        if tile_row > (sprite_height as u16 - 1) {
            return Err(Fault::SpriteRowOutOfRange);
        }
        Ok(Some((sprite_x, (sprite_height as u16 - 1) - tile_row)))
    }

    fn sprite_paint(&self, sprite: SpriteObject, sprite_x: u8, tile_row: u16, pixel_x: u8) -> (r:
        Result<Option<(usize, u8)>, Fault>)
        requires
            sprite_x <= pixel_x < sprite_x + 8,
            tile_row <= 255,
            pixel_x < 160,
        ensures
            match self@.sprite_paint(sprite, sprite_x, tile_row, pixel_x) {
                Err(f) => r == Err::<Option<(usize, u8)>, Fault>(f),
                Ok(None) => r == Ok::<Option<(usize, u8)>, Fault>(None),
                Ok(Some((index, shade))) => 0 <= index && index + 3 < 92160 && r == Ok::<
                    Option<(usize, u8)>,
                    Fault,
                >(Some((index as usize, shade))),
            },
    {
        let ly = self.get_lcd_y();
        let sprite_height = self.sprite_height();
        let color_id = self.sprite_color(sprite, sprite_x, tile_row, sprite_height, pixel_x);

        // Color 0 is transparent for sprites
        if color_id == 0 {
            return Ok(None);
        }
        if ly >= 144 {
            return Err(Fault::PixelOutsideFrame);
        }
        let fb_index = ((ly as usize) * 160 + (pixel_x as usize)) * 4;
        // If BG priority bit is set, sprite is behind non-zero BG colors
        if sprite.attributes & 0x80 != 0 {
            // Check if BG pixel is non-white (non-zero color)
            if self.ppu.framebuffer[fb_index] != 255 {
                return Ok(None);
            }
        }
        let palette = if sprite.attributes & 0x10 != 0 {
            self.get_obj_palette1()
        } else {
            self.get_obj_palette0()
        };
        Ok(Some((fb_index, shade(palette, color_id))))
    }

    fn sprite_target(&self, i: usize, pixel_x: u8) -> (r: Result<Option<(usize, u8)>, Fault>)
        requires
            i < self@.ppu.oam_sprites.len(),
            pixel_x < 160,
        ensures
            match self@.sprite_target(i as int, pixel_x) {
                Err(f) => r == Err::<Option<(usize, u8)>, Fault>(f),
                Ok(None) => r == Ok::<Option<(usize, u8)>, Fault>(None),
                Ok(Some((index, shade))) => 0 <= index && index + 3 < 92160 && r == Ok::<
                    Option<(usize, u8)>,
                    Fault,
                >(Some((index as usize, shade))),
            },
    {
        proof {
            reveal(ConsoleView::sprite_target);
        }
        match self.sprite_row(i, pixel_x) {
            Err(f) => Err(f),
            Ok(None) => Ok(None),
            Ok(Some((sprite_x, tile_row))) => {
                let sprite = self.ppu.oam_sprites[i];
                self.sprite_paint(sprite, sprite_x, tile_row, pixel_x)
            },
        }
    }

    fn draw_sprite(&mut self, i: usize, pixel_x: u8) -> (r: Result<(), Fault>)
        requires
            i < old(self)@.ppu.oam_sprites.len(),
            pixel_x < 160,
        ensures
            r is Ok ==> final(self)@.ppu.oam_sprites == old(self)@.ppu.oam_sprites,
            match old(self)@.sprite_drawn(i as int, pixel_x) {
                Ok(s) => r == Ok::<(), Fault>(()) && final(self)@ == s,
                Err(f) => r == Err::<(), Fault>(f),
            },
    {
        match self.sprite_target(i, pixel_x) {
            Err(f) => Err(f),
            Ok(None) => Ok(()),
            Ok(Some((index, shade))) => {
                self.write_pixel(index, shade);
                Ok(())
            },
        }
    }

    fn draw_sprites(&mut self, pixel_x: u8) -> (r: Result<(), Fault>)
        requires
            pixel_x < 160,
        ensures
            match old(self)@.sprites_drawn(pixel_x) {
                Ok(s) => r == Ok::<(), Fault>(()) && final(self)@ == s,
                Err(f) => r == Err::<(), Fault>(f),
            },
    {
        // Check if sprites are enabled (LCDC bit 1)
        if self.get_lcd_control() & 0x02 == 0 {
            return Ok(());
        }
        // Iterate sprites in reverse so lower-index sprites (higher priority) draw last

        let mut i = self.ppu.oam_sprites.len();
        while i > 0
            invariant
                i <= self@.ppu.oam_sprites.len(),
                self@.ppu.oam_sprites == old(self)@.ppu.oam_sprites,
                pixel_x < 160,
                old(self)@.sprites_drawn(pixel_x) == old(self)@.sprites_drawn_from(
                    old(self)@.ppu.oam_sprites.len(),
                    pixel_x,
                ),
                old(self)@.sprites_drawn_from(old(self)@.ppu.oam_sprites.len(), pixel_x)
                    == self@.sprites_drawn_from(i as nat, pixel_x),
            decreases i,
        {
            i = i - 1;
            let ghost before = self@;
            let r = self.draw_sprite(i, pixel_x);
            if r.is_err() {
                proof {
                    let k = (i + 1) as nat;
                    assert(before.sprite_drawn(i as int, pixel_x) is Err);
                    assert(before.sprites_drawn_from(k, pixel_x) == before.sprite_drawn(
                        i as int,
                        pixel_x,
                    ));
                }
                return r;
            }
        }
        Ok(())
    }

    /// Move LY to the next line and compare it with LYC.
    fn next_line(&mut self) -> (r: Result<(), Fault>)
        ensures
            match old(self)@.next_line() {
                Ok(s) => r == Ok::<(), Fault>(()) && final(self)@ == s,
                Err(f) => r == Err::<(), Fault>(f),
            },
    {
        let ly = self.get_lcd_y();
        if ly == 255 {
            return Err(Fault::LineCounterOverflow);
        }
        self.set_lcd_y(ly + 1);
        self.check_lyc();
        Ok(())
    }

    fn tick_draw(&mut self) -> (r: Result<(), Fault>)
        requires
            80 <= old(self)@.ppu.dots <= 251,
        ensures
            match old(self)@.draw_dot() {
                Ok(s) => r == Ok::<(), Fault>(()) && final(self)@ == s,
                Err(f) => r == Err::<(), Fault>(f),
            },
    {
        // Starts at 80 so we need to offset it by 80
        let pixel_x = (self.ppu.dots - 80) as u8;
        if pixel_x < 160 {
            let drawn = self.draw_background(pixel_x);
            if drawn.is_err() {
                return drawn;
            }
            let drawn = self.draw_sprites(pixel_x);
            if drawn.is_err() {
                return drawn;
            }
        }
        // Can actually be 168-291 dots
        if self.ppu.dots == 251 {
            self.set_ppu_mode(PpuMode::HBlank);
        }
        Ok(())
    }

    fn tick_hblank(&mut self) -> (r: Result<(), Fault>)
        ensures
            match old(self)@.hblank_dot() {
                Ok(s) => r == Ok::<(), Fault>(()) && final(self)@ == s,
                Err(f) => r == Err::<(), Fault>(f),
            },
    {
        if self.ppu.dots != 456 {
            return Ok(());
        }
        if self.ppu.window_triggered {
            if self.ppu.window_line == 255 {
                return Err(Fault::WindowLineOverflow);
            }
            self.ppu.window_line += 1;
            self.ppu.window_triggered = false;
        }
        let moved = self.next_line();
        if moved.is_err() {
            return moved;
        }
        self.ppu.dots = 0;
        if self.get_lcd_y() == 144 {
            self.set_ppu_mode(PpuMode::VBlank);
            self.ram.set_if(true, Interrupts::VBlank);
        } else {
            self.set_ppu_mode(PpuMode::OamScan);
        }
        Ok(())
    }

    fn tick_vblank(&mut self) -> (r: Result<(), Fault>)
        ensures
            match old(self)@.vblank_dot() {
                Ok(s) => r == Ok::<(), Fault>(()) && final(self)@ == s,
                Err(f) => r == Err::<(), Fault>(f),
            },
    {
        if self.ppu.dots != 456 {
            return Ok(());
        }
        self.ppu.dots = 0;
        let moved = self.next_line();
        if moved.is_err() {
            return moved;
        }
        if self.get_lcd_y() == 154 {
            self.set_lcd_y(0);
            self.check_lyc();
            self.ppu.window_line = 0;
            self.set_ppu_mode(PpuMode::OamScan);
        }
        Ok(())
    }

    /// One T-cycle of the picture unit (see `ConsoleView::ppu_ticked`).
    pub fn tick_ppu(&mut self) -> (r: Result<(), Fault>)
        requires
            old(self)@.ppu.wf(),
        ensures
            match old(self)@.ppu_ticked() {
                Ok(s) => r == Ok::<(), Fault>(()) && final(self)@ == s,
                Err(f) => r == Err::<(), Fault>(f),
            },
    {
        // Check if LCD is enabled (bit 7 of LCDC)
        if self.get_lcd_control() & 0x80 == 0 {
            // LCD is off - reset PPU state and show white screen
            self.ppu.dots = 0;
            self.ppu.draw_mode = PpuMode::HBlank;
            self.set_lcd_y(0);
            // Clear mode bits in STAT register (bits 0-1)
            let stat = self.get_lcd_status();
            self.set_lcd_status(stat & 0xFC);
            // Fill framebuffer with white
            self.ppu.framebuffer = [255u8; 92160];
            return Ok(());
        }
        if self.ppu.dots == 0 {
            self.ppu.oam_sprites.clear();
        }
        self.ppu.dots += 1;
        match self.ppu.draw_mode {
            PpuMode::OamScan => {
                self.oam_scan();
                if self.ppu.dots == 79 {
                    self.set_ppu_mode(PpuMode::Draw);
                }
                Ok(())
            },
            PpuMode::Draw => self.tick_draw(),
            PpuMode::HBlank => self.tick_hblank(),
            PpuMode::VBlank => self.tick_vblank(),
        }
    }

    /// Whether `tick` may run on this machine: its counters are in range (as
    /// after any tick or a state saved by this library) and the tick counter
    /// leaves room to schedule work. A state read from elsewhere is checked
    /// with this before the machine runs.
    pub fn can_tick(&self) -> (r: bool)
        ensures
            r == (self@.wf() && self@.ppu.wf() && self@.has_headroom()),
    {
        let a = &self.apu;
        let squares = a.ch1.frequency <= 2047 && a.ch1.shadow_frequency <= 2047 && a.ch1.duty <= 3
            && a.ch1.duty_position <= 7 && a.ch1.sweep_shift <= 7 && a.ch2.frequency <= 2047
            && a.ch2.shadow_frequency <= 2047 && a.ch2.duty <= 3 && a.ch2.duty_position <= 7
            && a.ch2.sweep_shift <= 7;
        let others = a.ch3.frequency <= 2047 && a.ch3.position <= 31 && a.ch4.clock_shift <= 15
            && a.frame_sequencer_step <= 7 && a.frame_sequencer_counter < 8192
            && a.sample_accumulator < CPU_CLOCK;
        let timer = match self.tima_overflow_counter {
            Some(c) => c < 4,
            None => true,
        };
        let dots = self.ppu.dots;
        let picture = match self.ppu.draw_mode {
            PpuMode::OamScan => dots < 79,
            PpuMode::Draw => 79 <= dots && dots < 251,
            _ => dots < 456,
        } && self.ppu.oam_sprites.len() <= 10;
        squares && others && timer && picture && self.tick_counter <= 0xFFFF_FFFF_FFFF_F000
    }

    /// Increment the console by one clock cycle (see `ConsoleView::ticked`).
    pub fn tick(&mut self) -> (r: Result<SampleEvent, Fault>)
        requires
            old(self)@.wf(),
            old(self)@.ppu.wf(),
            old(self)@.has_headroom(),
        ensures
            match old(self)@.ticked() {
                Ok((s, e)) => r == Ok::<SampleEvent, Fault>(e) && final(self)@ == s,
                Err(f) => r == Err::<SampleEvent, Fault>(f),
            },
            r is Ok ==> final(self)@.wf() && final(self)@.ppu.wf(),
            r is Ok ==> final(self)@.tick_counter == if old(self)@.cpu.is_stopped {
                old(self)@.tick_counter as int
            } else {
                old(self)@.tick_counter + 1
            },
    {
        proof {
            lemma_timers_keep_counter(self@);
        }
        self.tick_timers();
        proof {
            lemma_ppu_tick_frame(self@);
            law_ppu_tick_keeps_timing(self@);
        }
        let drawn = self.tick_ppu();
        if let Err(f) = drawn {
            return Err(f);
        }
        proof {
            lemma_apu_tick_keeps_counter(self@);
        }
        let event = match self.tick_apu() {
            Ok(e) => e,
            Err(f) => return Err(f),
        };
        if self.cpu.get_is_stopped() {
            return Ok(event);
        }
        proof {
            lemma_cpu_tick_keeps_counter(self@);
        }
        let ran = self.tick_cpu();
        if let Err(f) = ran {
            return Err(f);
        }
        self.tick_counter += 1;
        Ok(event)
    }

    /// Create a new console object around a cartridge (the ROM itself is
    /// read by the caller).
    pub fn new_with_cartridge(cartridge: Cartridge) -> (c: Console)
        ensures
            c@ == Console::initial_with(cartridge@),
            c@.wf(),
            c@.ppu.wf(),
    {
        let mut console = Console::new();
        console.ram = Ram::new(cartridge);

        // Re-initialize IO registers (new() sets them, but we replaced ram)
        console.ram.set(0xCF, 0xFF00);  // JOYP
        console.ram.set(0x7E, 0xFF02);  // SC
        console.ram.set(0xF8, 0xFF07);  // TAC
        console.ram.set(0xE1, 0xFF0F);  // IF
        console.ram.set(0x91, 0xFF40);  // LCDC
        console.ram.set(0x85, 0xFF41);  // STAT
        console.ram.set(0xFC, 0xFF47);  // BGP
        console.ram.set(0xFF, 0xFF48);  // OBP0
        console.ram.set(0xFF, 0xFF49);  // OBP1

        // Re-initialize APU registers
        console.apu.write_register(0xFF26, 0xF1);  // NR52
        console.apu.write_register(0xFF11, 0x80);  // NR11
        console.apu.write_register(0xFF12, 0xF3);  // NR12
        console.apu.write_register(0xFF14, 0xBF);  // NR14
        console.apu.write_register(0xFF24, 0x77);  // NR50
        console.apu.write_register(0xFF25, 0xF3);  // NR51
        console
    }
}

} // verus!
