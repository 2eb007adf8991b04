use vstd::prelude::*;

use vstd::array::{spec_array_fill_for_copy_type, spec_array_update};

use crate::state::{StateError, available, get_u16, has_bytes, le16, push_bytes, push_u16, read_le16};

verus! {

/// The four modes of the picture unit, in the order of their numbers in
/// the STAT register.
#[derive(PartialEq, Eq, Structural, Clone, Copy, Debug)]
pub enum PpuMode {
    HBlank,
    VBlank,
    OamScan,
    Draw,
}

/// The number of a mode, as STAT bits 0-1 hold it.
pub open spec fn mode_number(mode: PpuMode) -> u8 {
    match mode {
        PpuMode::HBlank => 0,
        PpuMode::VBlank => 1,
        PpuMode::OamScan => 2,
        PpuMode::Draw => 3,
    }
}

/// The number of a mode, as STAT bits 0-1 hold it.
pub fn ppu_mode_number(mode: PpuMode) -> (r: u8)
    ensures
        r == mode_number(mode),
{
    match mode {
        PpuMode::HBlank => 0,
        PpuMode::VBlank => 1,
        PpuMode::OamScan => 2,
        PpuMode::Draw => 3,
    }
}

/// The mode a saved number stands for; unknown numbers mean HBlank.
pub open spec fn mode_from_number(n: u8) -> PpuMode {
    if n == 1 {
        PpuMode::VBlank
    } else if n == 2 {
        PpuMode::OamScan
    } else if n == 3 {
        PpuMode::Draw
    } else {
        PpuMode::HBlank
    }
}

/// An object (sprite) selected for the current scanline.
#[derive(PartialEq, Eq, Structural, Clone, Copy, Debug)]
pub struct SpriteObject {
    pub x: u8,
    pub y: u8,
    pub tile_index: u8,
    pub attributes: u8,
    pub oam_index: u8,
}

/// The width of the screen in pixels.
pub const SCREEN_WIDTH: usize = 160;

/// The height of the screen in pixels.
pub const SCREEN_HEIGHT: usize = 144;

/// The number of bytes of the RGBA framebuffer.
pub const FRAMEBUFFER_LEN: usize = 92160;

/// The number of bytes the picture unit's saved state takes.
pub const PPU_STATE_LEN: usize = 92165;

/// The picture processing unit: its position on the scanline, its mode,
/// the objects found on the current line and the RGBA frame it draws.
pub struct Ppu {
    pub dots: u16,
    pub draw_mode: PpuMode,
    pub oam_sprites: Vec<SpriteObject>,
    pub framebuffer: [u8; 92160],
    /// Internal window line counter. Only increments on scanlines where the window was rendered.
    pub window_line: u8,
    /// Whether the window was rendered on the current scanline.
    pub window_triggered: bool,
}

/// The abstract state of the picture unit.
pub struct PpuView {
    pub dots: u16,
    pub draw_mode: PpuMode,
    pub oam_sprites: Seq<SpriteObject>,
    pub framebuffer: [u8; 92160],
    pub window_line: u8,
    pub window_triggered: bool,
}

impl View for Ppu {
    type V = PpuView;

    open spec fn view(&self) -> PpuView {
        PpuView {
            dots: self.dots,
            draw_mode: self.draw_mode,
            oam_sprites: self.oam_sprites@,
            framebuffer: self.framebuffer,
            window_line: self.window_line,
            window_triggered: self.window_triggered,
        }
    }
}

impl PpuView {
    /// The dot counter agrees with the mode: OAM scan takes dots 0-79, drawing
    /// dots 80-251 and a whole line 456 dots; at most ten objects per line.
    pub open spec fn wf(self) -> bool {
        &&& match self.draw_mode {
            PpuMode::OamScan => self.dots < 79,
            PpuMode::Draw => 79 <= self.dots < 251,
            _ => self.dots < 456,
        }
        &&& self.oam_sprites.len() <= 10
    }
}

/// The gray shade (255 white to 0 black) that color `color_id` (0-3) maps
/// to under a palette register.
pub open spec fn shade_of(palette: u8, color_id: u8) -> u8 {
    let c = (palette >> (color_id * 2) as u8) & 0x03;
    if c == 0 {
        255
    } else if c == 1 {
        192
    } else if c == 2 {
        96
    } else {
        0
    }
}

/// The 2-bit color of the pixel at bit `bit` of a tile row given by its
/// two bit planes.
pub open spec fn tile_color(byte1: u8, byte2: u8, bit: u8) -> u8 {
    (((byte2 >> bit) & 1) << 1u8) | ((byte1 >> bit) & 1)
}

/// The address of a background or window tile's data: unsigned indices
/// from 0x8000, or signed indices around 0x9000.
pub open spec fn tile_data_address(unsigned_mode: bool, tile_index: u8) -> u16 {
    if unsigned_mode || tile_index >= 128 {
        (0x8000 + tile_index as int * 16) as u16
    } else {
        (0x9000 + tile_index as int * 16) as u16
    }
}

/// The shade for color `color_id` under a palette.
pub fn shade(palette: u8, color_id: u8) -> (r: u8)
    requires
        color_id < 4,
    ensures
        r == shade_of(palette, color_id),
{
    let palette_color = (palette >> (color_id * 2)) & 0x03;
    match palette_color {
        0 => 255,
        1 => 192,
        2 => 96,
        _ => 0,
    }
}

/// The color of bit `bit` of a tile row.
pub fn color_at(byte1: u8, byte2: u8, bit: u8) -> (r: u8)
    requires
        bit < 8,
    ensures
        r == tile_color(byte1, byte2, bit),
        r < 4,
{
    let color_bit_0 = (byte1 >> bit) & 1;
    let color_bit_1 = (byte2 >> bit) & 1;
    assert((((byte2 >> bit) & 1) << 1u8) | ((byte1 >> bit) & 1) < 4) by (bit_vector);
    (color_bit_1 << 1u8) | color_bit_0
}

/// `fb` with the four bytes of pixel `index` set to an opaque gray `shade`.
pub open spec fn with_pixel(fb: [u8; 92160], index: int, shade: u8) -> [u8; 92160] {
    spec_array_update(
        spec_array_update(
            spec_array_update(spec_array_update(fb, index, shade), index + 1, shade),
            index + 2,
            shade,
        ),
        index + 3,
        255,
    )
}

impl Ppu {
    /// The state at power-on: scanning OAM at dot 0, with a zeroed frame.
    pub open spec fn powered_on() -> PpuView {
        PpuView {
            dots: 0,
            draw_mode: PpuMode::OamScan,
            oam_sprites: Seq::empty(),
            framebuffer: spec_array_fill_for_copy_type::<u8, 92160>(0u8),
            window_line: 0,
            window_triggered: false,
        }
    }

    pub fn new() -> (p: Ppu)
        ensures
            p@ == Ppu::powered_on(),
    {
        Ppu {
            dots: 0,
            draw_mode: PpuMode::OamScan,
            oam_sprites: Vec::new(),
            framebuffer: [0u8; 92160],
            window_line: 0,
            window_triggered: false,
        }
    }

    /// The framebuffer.
    pub fn get_framebuffer(&self) -> (r: &[u8; 92160])
        ensures
            *r == self.framebuffer,
    {
        &self.framebuffer
    }

    /// The bytes the picture unit's state is saved as: the dot counter
    /// (little-endian), the mode, the window line, the window flag and the
    /// frame. The objects of the current line are not saved.
    pub open spec fn state_bytes(self) -> Seq<u8> {
        le16(self.dots) + seq![
            mode_number(self.draw_mode),
            self.window_line,
            if self.window_triggered {
                1u8
            } else {
                0u8
            },
        ] + self.framebuffer@
    }

    pub fn save_state(&self, out: &mut Vec<u8>)
        ensures
            final(out)@ == old(out)@ + self.state_bytes(),
    {
        push_u16(out, self.dots);
        out.push(ppu_mode_number(self.draw_mode));
        out.push(self.window_line);
        out.push(self.window_triggered as u8);
        push_bytes(out, self.framebuffer.as_slice());
        assert(out@ =~= old(out)@ + self.state_bytes());
    }

    /// Read a saved state from `input` at `pos`; reading stops at the first
    /// part the input does not hold entirely. On success the list of objects
    /// on the current line is emptied.
    pub fn load_state(&mut self, input: &[u8], pos: usize) -> (r: Result<usize, StateError>)
        ensures
            ({
                let b = input@;
                let p = pos as int;
                if !has_bytes(b, p, 2) {
                    r == Err::<usize, StateError>(StateError::UnexpectedEof) && *final(self)
                        == *old(self)
                } else if !has_bytes(b, p + 2, 1) {
                    r == Err::<usize, StateError>(StateError::UnexpectedEof) && final(self).dots
                        == read_le16(b, p) && final(self).draw_mode == old(self).draw_mode
                        && final(self).window_line == old(self).window_line
                        && final(self).window_triggered == old(self).window_triggered
                        && final(self).framebuffer == old(self).framebuffer
                        && final(self).oam_sprites == old(self).oam_sprites
                } else if !has_bytes(b, p + 3, 2) {
                    r == Err::<usize, StateError>(StateError::UnexpectedEof) && final(self).dots
                        == read_le16(b, p) && final(self).draw_mode == mode_from_number(b[p + 2])
                        && final(self).window_line == old(self).window_line
                        && final(self).window_triggered == old(self).window_triggered
                        && final(self).framebuffer == old(self).framebuffer
                        && final(self).oam_sprites == old(self).oam_sprites
                } else if !has_bytes(b, p + 5, FRAMEBUFFER_LEN as int) {
                    r == Err::<usize, StateError>(StateError::UnexpectedEof) && final(self).dots
                        == read_le16(b, p) && final(self).draw_mode == mode_from_number(b[p + 2])
                        && final(self).window_line == b[p + 3] && final(self).window_triggered == (
                    b[p + 4] != 0) && final(self).framebuffer == old(self).framebuffer
                        && final(self).oam_sprites == old(self).oam_sprites
                } else {
                    r == Ok::<usize, StateError>((p + PPU_STATE_LEN) as usize) && final(self).dots
                        == read_le16(b, p) && final(self).draw_mode == mode_from_number(b[p + 2])
                        && final(self).window_line == b[p + 3] && final(self).window_triggered == (
                    b[p + 4] != 0) && final(self).framebuffer@ == b.subrange(
                        p + 5,
                        p + PPU_STATE_LEN,
                    ) && final(self).oam_sprites@.len() == 0
                }
            }),
    {
        let len = input.len();
        if !available(input, pos, 2) {
            return Err(StateError::UnexpectedEof);
        }
        self.dots = get_u16(input, pos);
        if !available(input, pos + 2, 1) {
            return Err(StateError::UnexpectedEof);
        }
        self.draw_mode = match input[pos + 2] {
            0 => PpuMode::HBlank,
            1 => PpuMode::VBlank,
            2 => PpuMode::OamScan,
            3 => PpuMode::Draw,
            _ => PpuMode::HBlank,
        };
        if !available(input, pos + 3, 2) {
            return Err(StateError::UnexpectedEof);
        }
        self.window_line = input[pos + 3];
        self.window_triggered = input[pos + 4] != 0;
        if !available(input, pos + 5, FRAMEBUFFER_LEN) {
            return Err(StateError::UnexpectedEof);
        }
        let mut i: usize = 0;
        while i < FRAMEBUFFER_LEN
            invariant
                i <= FRAMEBUFFER_LEN,
                len == input@.len(),
                has_bytes(input@, pos + 5, FRAMEBUFFER_LEN as int),
                forall|j: int| 0 <= j < i ==> #[trigger] self.framebuffer@[j] == input@[pos + 5 + j],
                self.dots == read_le16(input@, pos as int),
                self.draw_mode == mode_from_number(input@[pos + 2]),
                self.window_line == input@[pos + 3],
                self.window_triggered == (input@[pos + 4] != 0),
                self.oam_sprites == old(self).oam_sprites,
            decreases FRAMEBUFFER_LEN - i,
        {
            self.framebuffer[i] = input[pos + 5 + i];
            i = i + 1;
        }
        assert(self.framebuffer@ =~= input@.subrange(pos + 5, pos + 5 + FRAMEBUFFER_LEN));
        self.oam_sprites.clear();
        Ok(pos + PPU_STATE_LEN)
    }
}

/// The gray level of a palette entry: 0 white (255), 1 light gray (192),
/// 2 dark gray (96), 3 black (0).
pub open spec fn gray_level(entry: int) -> u8 {
    if entry == 0 {
        255
    } else if entry == 1 {
        192
    } else if entry == 2 {
        96
    } else {
        0
    }
}

/// A palette register holds four 2-bit entries, color 0 in bits 0-1 up to
/// color 3 in bits 6-7: the shade of color `c` is the gray level of entry
/// `(palette / 4^c) % 4`, and depends on no other bit of the palette.
pub proof fn law_palette_entries(palette: u8, color_id: u8)
    requires
        color_id < 4,
    ensures
        shade_of(palette, color_id) == gray_level(
            (palette as int / (if color_id == 0 {
                1int
            } else if color_id == 1 {
                4int
            } else if color_id == 2 {
                16int
            } else {
                64int
            })) % 4,
        ),
{
    let p = palette;
    if color_id == 0 {
        assert((p >> 0u8) & 0x03 == (p as int) % 4) by (bit_vector);
    } else if color_id == 1 {
        assert((p >> 2u8) & 0x03 == (p as int / 4) % 4) by (bit_vector);
    } else if color_id == 2 {
        assert((p >> 4u8) & 0x03 == (p as int / 16) % 4) by (bit_vector);
    } else {
        assert((p >> 6u8) & 0x03 == (p as int / 64) % 4) by (bit_vector);
    }
}

} // verus!
