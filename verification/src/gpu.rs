//! The picture processing unit: mode state machine, background and sprite
//! rendering into the framebuffer, one scanline at a time.

use crate::constants::{WINDOW_HEIGHT, WINDOW_WIDTH};
use crate::cpu::interrupts;
use crate::framebuffer::{pixel_shape, pixel_values, PixelData};
use crate::registers::wrap8;
use crate::text::{
    append_bin, append_bin_padded, append_bool, append_hex, bin_text, bin_width, bool_text, hex_text,
};
use vstd::prelude::*;

verus! {

pub const VRAM_START: usize = 0x8000;

pub const VRAM_END: usize = 0x9FFF;

pub const OAM_START: usize = 0xFE00;

pub const OAM_END: usize = 0xFE9F;

/// Start of the tile data in VRAM (offset from 0x8000).
pub const TILE_DATA_START: usize = 0;

/// End (exclusive) of the tile data in VRAM.
pub const TILE_DATA_END: usize = 0x1800;

/// Start of the tile maps in VRAM.
pub const MAP_DATA_START: usize = 0x1800;

/// End (exclusive) of the tile maps in VRAM.
pub const MAP_DATA_END: usize = 0x1C00;

pub const TILE_SIZE: usize = 16;

pub const DRAM_ADDR: usize = 0xFF46;

pub const VRAM_START_U16: u16 = 0x8000;

pub const VRAM_END_U16: u16 = 0x9FFF;

pub const OAM_START_U16: u16 = 0xFE00;

pub const OAM_END_U16: u16 = 0xFE9F;

pub const LCDC_ADDR: u16 = 0xFF40;

pub const STAT_ADDR: u16 = 0xFF41;

pub const SCY_ADDR: u16 = 0xFF42;

pub const SCX_ADDR: u16 = 0xFF43;

pub const LY_ADDR: u16 = 0xFF44;

pub const DMA_ADDR: u16 = 0xFF46;

pub const BGP_ADDR: u16 = 0xFF47;

pub const OBP0_ADDR: u16 = 0xFF48;

pub const OBP1_ADDR: u16 = 0xFF49;

pub const WY_ADDR: u16 = 0xFF4A;

pub const WX_ADDR: u16 = 0xFF4B;

/// Bit 0 of LCDC: background display on.
pub const BG_DISPLAY_ENABLED: u8 = 1;

/// Bit 1 of LCDC: sprites on.
pub const OBJ_ENABLED: u8 = 2;

/// Bit 2 of LCDC: 8x16 sprites.
pub const OBJ_SIZE: u8 = 4;

/// Bit 3 of LCDC: background tile map at 0x9C00.
pub const BG_TILE_MAP_DISPLAY: u8 = 8;

/// Bit 4 of LCDC: unsigned tile data addressing from 0x8000.
pub const BG_AND_WINDOW_TILES: u8 = 16;

/// Bit 5 of LCDC: window on.
pub const WINDOW_DISPLAY_ENABLED: u8 = 32;

/// Bit 6 of LCDC: window tile map at 0x9C00.
pub const WINDOW_TILE_MAP: u8 = 64;

/// Bit 7 of LCDC: LCD and PPU on.
pub const LCD_PPU_ENABLE: u8 = 128;

/// Last visible scanline plus one: reaching it starts vertical blank.
pub const END_HBLANK: u8 = 144;

/// Number of scanlines in a frame, vertical blank included.
pub const END_VBLANK: u8 = 154;

/// The LCD control register (0xFF40).
#[derive(Debug, Clone, Copy, PartialEq, Eq, Hash, Structural)]
pub struct LCDC(pub u8);

impl LCDC {
    /// No bit set.
    pub fn empty() -> (r: LCDC)
        ensures
            r.0 == 0,
    {
        LCDC(0)
    }

    /// The register byte.
    pub fn bits(&self) -> (r: u8)
        ensures
            r == self.0,
    {
        self.0
    }

    /// The register holding exactly `bits`.
    pub fn from_bits_retain(bits: u8) -> (r: LCDC)
        ensures
            r.0 == bits,
    {
        LCDC(bits)
    }

    /// Whether every bit of `mask` is set.
    pub fn contains(&self, mask: u8) -> (r: bool)
        ensures
            r == (self.0 & mask == mask),
    {
        self.0 & mask == mask
    }
}

/// PPU modes: horizontal blank, vertical blank, OAM scan, pixel transfer.
#[derive(Debug, Clone, Copy, PartialEq, Eq, Structural)]
pub enum GpuMode {
    HBlank,  // 0
    VBlank,  // 1
    Oam,  // 2
    Vram,  // 3
}

/// Sprite size: 8x8 (`Square`) or 8x16 (`Tall`).
#[derive(Debug, Clone, Copy, PartialEq, Eq, Structural)]
pub enum SpriteSize {
    Square,
    Tall,
}

/// The mode's length in dots; reaching it ends the mode.
pub open spec fn mode_length(m: GpuMode) -> usize {
    match m {
        GpuMode::Oam => 80,
        GpuMode::Vram => 172,
        GpuMode::HBlank => 204,
        GpuMode::VBlank => 456,
    }
}

/// Scanlines the mode can be on: visible lines outside vertical blank.
pub open spec fn scanline_fits(m: GpuMode, line: u8) -> bool {
    match m {
        GpuMode::VBlank => line < END_VBLANK,
        _ => line < END_HBLANK,
    }
}

/// The RGBA colour of a shade 0 (white) to 3 (black).
pub open spec fn shade(color: u8) -> u32 {
    if color == 0 {
        0xE0F8_D0FF
    } else if color == 1 {
        0x88C0_70FF
    } else if color == 2 {
        0x3468_56FF
    } else if color == 3 {
        0x0818_20FF
    } else {
        0
    }
}

/// The colour index (0-3) of bit `bit` of a tile row given by its two bytes.
/// The background palette register BGP: shades for colour indexes 3 to 0,
/// two bits each from the top.
pub struct BackgroundPalette(pub u8);

/// The name of a shade.
pub open spec fn shade_name(color: u8) -> Seq<char> {
    if color == 0 {
        "(White)"@
    } else if color == 1 {
        "(Light Gray)"@
    } else if color == 2 {
        "(Dark Gray)"@
    } else {
        "(Black)"@
    }
}

fn shade_name_str(color: u8) -> (r: &'static str)
    requires
        color < 4,
    ensures
        r@ == shade_name(color),
{
    match color {
        0b00 => "(White)",
        0b01 => "(Light Gray)",
        0b10 => "(Dark Gray)",
        _ => "(Black)",
    }
}

impl BackgroundPalette {
    /// The register as `{:#08b}` prints it (at least six binary digits
    /// after `0b`), a newline, then the four shade names from the top bits down.
    pub open spec fn text(self) -> Seq<char> {
        let v = self.0;
        let digits: nat = if v >= 128 {
            8
        } else if v >= 64 {
            7
        } else {
            6
        };
        "0b"@ + bin_text(v as nat, digits) + "\n"@ + palette_names(v, 4)
    }

    /// The register and its shades, as text.
    pub fn to_string(&self) -> (r: String)
        ensures
            r@ == self.text(),
    {
        let v = self.0;
        let digits: u8 = if v >= 128 {
            8
        } else if v >= 64 {
            7
        } else {
            6
        };
        let mut s = String::from_str("0b");
        append_bin(&mut s, v as u16, digits);
        s.append("\n");
        let mut i: u8 = 0;
        let ghost start = s@;
        while i < 4
            invariant
                i <= 4,
                v == self.0,
                s@ == start + palette_names(v, i as int),
            decreases 4 - i,
        {
            let shift: u8 = 6 - i * 2;
            let color = (v >> shift) & 0b11;
            assert(color < 4) by (bit_vector)
                requires
                    color == (v >> shift) & 0b11,
            ;
            s.append(shade_name_str(color));
            i += 1;
        }
        s
    }
}

/// The names of the first `n` shades of a palette, from the top bits down.
pub open spec fn palette_names(v: u8, n: int) -> Seq<char>
    decreases n,
{
    if n <= 0 {
        Seq::empty()
    } else {
        palette_names(v, n - 1) + shade_name((v >> ((6 - (n - 1) * 2) as u8)) & 3)
    }
}

pub open spec fn color_index(lo: u8, hi: u8, bit: u8) -> u8 {
    (((hi >> bit) & 1) << 1u8) | ((lo >> bit) & 1)
}

/// The shade a palette gives a colour index.
pub open spec fn palette_shade(palette: u8, index: u8) -> u8 {
    (palette >> (index << 1u8)) & 3
}

/// The two views of a colour index agree and stay below four.
proof fn lemma_color_index_bound(lo: u8, hi: u8, bit: u8)
    requires
        bit < 8,
    ensures
        color_index(lo, hi, bit) < 4,
        (color_index(lo, hi, bit) << 1u8) < 8,
{
    assert((((hi >> bit) & 1) << 1u8) | ((lo >> bit) & 1) < 4) by (bit_vector)
        requires
            bit < 8,
    ;
    let ci = color_index(lo, hi, bit);
    assert(ci < 4 ==> (ci << 1u8) < 8) by (bit_vector);
}

/// Abstract state of the PPU.
pub struct GpuView {
    pub mode: GpuMode,
    pub clock: usize,
    pub scanline: u8,
    pub vram: Seq<u8>,
    pub oam: Seq<u8>,
    pub lcdc: u8,
    pub lcdstat: u8,
    pub scrollx: u8,
    pub scrolly: u8,
    pub bgrdpal: u8,
    pub obj0pal: u8,
    pub obj1pal: u8,
    pub windowx: u8,
    pub windowy: u8,
    pub vblank_count: usize,
    pub framebuffer: Seq<u32>,
}

// Global GPU struct.
// Holds I/O Registers relevant to GPU. Make sure these are available from bus struct.
pub struct GPU {
    pub mode: GpuMode,
    pub clock: usize,
    pub scanline: u8,
    pub vram: Vec<u8>,
    pub oam: Vec<u8>,
    pub lcdc: LCDC,
    pub lcdstat: u8,
    pub scrollx: u8,
    pub scrolly: u8,
    pub bgrdpal: u8,  //Background Palette
    pub obj0pal: u8,  //Object0 Palette
    pub obj1pal: u8,  //Object1 Palette
    pub windowx: u8,  //
    pub windowy: u8,  //
    pub vblank_count: usize,
    pub framebuffer: PixelData,
}

impl View for GPU {
    type V = GpuView;

    open spec fn view(&self) -> GpuView {
        GpuView {
            mode: self.mode,
            clock: self.clock,
            scanline: self.scanline,
            vram: self.vram@,
            oam: self.oam@,
            lcdc: self.lcdc.0,
            lcdstat: self.lcdstat,
            scrollx: self.scrollx,
            scrolly: self.scrolly,
            bgrdpal: self.bgrdpal,
            obj0pal: self.obj0pal,
            obj1pal: self.obj1pal,
            windowx: self.windowx,
            windowy: self.windowy,
            vblank_count: self.vblank_count,
            framebuffer: pixel_values(self.framebuffer),
        }
    }
}

/// Number of pixels in the framebuffer.
pub open spec fn screen_pixels() -> nat {
    144 * 160
}

impl GpuView {
    /// The state every PPU operation keeps: memory sizes, the dot counter
    /// within a line, and a scanline that fits the mode.
    pub open spec fn inv(self) -> bool {
        self.inv_upto(456)
    }

    /// The invariant with the dot counter allowed up to `max`.
    pub open spec fn inv_upto(self, max: int) -> bool {
        &&& self.vram.len() == 0x2000
        &&& self.oam.len() == 0x100
        &&& self.framebuffer.len() == screen_pixels()
        &&& self.clock <= max
        &&& scanline_fits(self.mode, self.scanline)
    }

    /// Two states that agree on everything rendering reads.
    pub open spec fn same_drawing(self, other: GpuView) -> bool {
        &&& self.scanline == other.scanline
        &&& self.vram == other.vram
        &&& self.oam == other.oam
        &&& self.lcdc == other.lcdc
        &&& self.scrollx == other.scrollx
        &&& self.scrolly == other.scrolly
        &&& self.bgrdpal == other.bgrdpal
        &&& self.obj0pal == other.obj0pal
        &&& self.obj1pal == other.obj1pal
    }

    pub open spec fn lcdc_has(self, mask: u8) -> bool {
        self.lcdc & mask == mask
    }

    /// VRAM offset of the background tile map.
    pub open spec fn bg_tile_map_base(self) -> int {
        if self.lcdc_has(BG_TILE_MAP_DISPLAY) {
            0x1C00
        } else {
            0x1800
        }
    }

    /// VRAM offset of a background tile's 16 bytes of data.
    pub open spec fn tile_data_start(self, tile_index: u8) -> int {
        if self.lcdc_has(BG_AND_WINDOW_TILES) {
            tile_index * 16
        } else if tile_index < 128 {
            0x1000 + tile_index * 16
        } else {
            0x1000 + (tile_index - 256) * 16
        }
    }

    /// The background pixel at column `x` of the current scanline.
    pub open spec fn bg_pixel(self, x: int) -> u32 {
        let ypos = (self.scrolly + self.scanline) % 256;
        let tile_row = ypos / 8;
        let pixel_row = ypos % 8;
        let xpos = (self.scrollx + x) % 256;
        let tile_col = xpos / 8;
        let pixel_col = xpos % 8;
        let tile_index = self.vram[self.bg_tile_map_base() + (tile_row % 32) * 32 + (tile_col % 32)];
        let start = self.tile_data_start(tile_index);
        let lo = self.vram[start + pixel_row * 2];
        let hi = self.vram[start + pixel_row * 2 + 1];
        shade(palette_shade(self.bgrdpal, color_index(lo, hi, (7 - pixel_col) as u8)))
    }

    /// The framebuffer after drawing the background of the current line.
    pub open spec fn with_bg_line(self, fb: Seq<u32>) -> Seq<u32> {
        Seq::new(
            fb.len(),
            |i: int|
                if i / 160 == self.scanline as int {
                    self.bg_pixel(i % 160)
                } else {
                    fb[i]
                },
        )
    }

    /// Sprite height in lines.
    pub open spec fn sprite_height(self) -> u8 {
        if self.lcdc_has(OBJ_SIZE) {
            16
        } else {
            8
        }
    }

    /// The top line of sprite `s` on screen.
    pub open spec fn sprite_top(self, s: int) -> u8 {
        wrap8(self.oam[4 * s] - 16)
    }

    /// The leftmost column of sprite `s` on screen.
    pub open spec fn sprite_left(self, s: int) -> u8 {
        wrap8(self.oam[4 * s + 1] - 8)
    }

    /// Whether sprite `s` covers the current line.
    pub open spec fn sprite_on_line(self, s: int) -> bool {
        let top = self.sprite_top(s);
        !(self.scanline < top || self.scanline >= wrap8(top + self.sprite_height()))
    }

    /// The attribute byte of sprite `s`.
    pub open spec fn sprite_flags(self, s: int) -> u8 {
        self.oam[4 * s + 3]
    }

    /// The palette sprite `s` uses.
    pub open spec fn sprite_palette(self, s: int) -> u8 {
        if self.sprite_flags(s) & 0x10 == 0 {
            self.obj0pal
        } else {
            self.obj1pal
        }
    }

    /// The row within the drawn tile, and the tile, for sprite `s` on the current line.
    pub open spec fn sprite_row_tile(self, s: int) -> (int, u8) {
        let h = self.sprite_height();
        let raw = self.scanline - self.sprite_top(s);
        let row = if self.sprite_flags(s) & 0x40 != 0 {
            h - 1 - raw
        } else {
            raw
        };
        let tile = self.oam[4 * s + 2];
        if h == 16 {
            if row < 8 {
                (row, tile & 0xFE)
            } else {
                (row - 8, tile | 0x01)
            }
        } else {
            (row, tile)
        }
    }

    /// The colour index of pixel `pc` (0-7, left to right) of sprite `s` on the current line.
    pub open spec fn sprite_color_index(self, s: int, pc: int) -> u8 {
        let (row, tile) = self.sprite_row_tile(s);
        let start = tile * 16;
        let lo = self.vram[start + row * 2];
        let hi = self.vram[start + row * 2 + 1];
        let col = if self.sprite_flags(s) & 0x20 != 0 {
            7 - pc
        } else {
            pc
        };
        color_index(lo, hi, (7 - col) as u8)
    }

    /// The framebuffer after drawing the first `k` pixels of sprite `s`.
    pub open spec fn draw_sprite_pixels(self, fb: Seq<u32>, s: int, k: nat) -> Seq<u32>
        decreases k,
    {
        if k == 0 {
            fb
        } else {
            let prev = self.draw_sprite_pixels(fb, s, (k - 1) as nat);
            let pc = k - 1;
            let x = wrap8(self.sprite_left(s) + pc);
            let ci = self.sprite_color_index(s, pc);
            if x >= 160 || ci == 0 {
                prev
            } else {
                prev.update(
                    self.scanline * 160 + x,
                    shade(palette_shade(self.sprite_palette(s), ci)),
                )
            }
        }
    }

    /// The framebuffer after drawing sprite `s` on the current line.
    pub open spec fn draw_sprite(self, fb: Seq<u32>, s: int) -> Seq<u32> {
        if self.sprite_on_line(s) {
            self.draw_sprite_pixels(fb, s, 8)
        } else {
            fb
        }
    }

    /// The framebuffer after drawing the first `k` sprites of OAM, in order.
    pub open spec fn draw_sprites(self, fb: Seq<u32>, k: nat) -> Seq<u32>
        decreases k,
    {
        if k == 0 {
            fb
        } else {
            self.draw_sprite(self.draw_sprites(fb, (k - 1) as nat), k - 1)
        }
    }

    /// The framebuffer after rendering the current line: background, then
    /// the 64 sprite slots of OAM.
    pub open spec fn drawn_line(self) -> Seq<u32> {
        let fb = if self.lcdc_has(BG_DISPLAY_ENABLED) {
            self.with_bg_line(self.framebuffer)
        } else {
            self.framebuffer
        };
        if self.lcdc_has(OBJ_ENABLED) {
            self.draw_sprites(fb, 64)
        } else {
            fb
        }
    }

    /// One dot of the mode machine: when the dot counter reaches the mode's
    /// length it restarts and the mode moves on; returns the new state and
    /// the interrupt flags with VBLANK requested on entering vertical blank.
    pub open spec fn step_spec(self, flag: u8) -> (GpuView, u8) {
        if self.clock >= mode_length(self.mode) {
            let g = GpuView { clock: 0, ..self };
            match self.mode {
                GpuMode::Oam => (GpuView { mode: GpuMode::Vram, ..g }, flag),
                GpuMode::Vram => (
                    GpuView { mode: GpuMode::HBlank, framebuffer: self.drawn_line(), ..g },
                    flag,
                ),
                GpuMode::HBlank => {
                    let line = (self.scanline + 1) as u8;
                    if line == END_HBLANK {
                        (
                            GpuView {
                                scanline: line,
                                mode: GpuMode::VBlank,
                                vblank_count: (self.vblank_count + 1) as usize,
                                ..g
                            },
                            flag | interrupts::VBLANK,
                        )
                    } else {
                        (GpuView { scanline: line, mode: GpuMode::Oam, ..g }, flag)
                    }
                },
                GpuMode::VBlank => {
                    let line = (self.scanline + 1) as u8;
                    if line == END_VBLANK {
                        (GpuView { scanline: 0, mode: GpuMode::Oam, ..g }, flag)
                    } else {
                        (GpuView { scanline: line, ..g }, flag)
                    }
                },
            }
        } else {
            (self, flag)
        }
    }

    /// One PPU cycle: nothing while the LCD is off, else one more dot and a step.
    pub open spec fn cycle_spec(self, flag: u8) -> (GpuView, u8) {
        if !self.lcdc_has(LCD_PPU_ENABLE) {
            (self, flag)
        } else {
            GpuView { clock: (self.clock + 1) as usize, ..self }.step_spec(flag)
        }
    }
}

/// Drawing the sprite pixels keeps the framebuffer length.
proof fn lemma_draw_sprite_pixels_len(g: GpuView, fb: Seq<u32>, s: int, k: nat)
    requires
        g.scanline < 144,
        fb.len() == screen_pixels(),
    ensures
        g.draw_sprite_pixels(fb, s, k).len() == fb.len(),
    decreases k,
{
    if k > 0 {
        lemma_draw_sprite_pixels_len(g, fb, s, (k - 1) as nat);
    }
}

/// The shade that palette byte `pal` gives colour index 1, 2 or 3: the
/// index picks a pair of bits of the palette, bits 2-3, 4-5 or 6-7.
proof fn lemma_palette_pair(pal: u8, ci: u8)
    by (bit_vector)
    requires
        1 <= ci <= 3,
    ensures
        (pal >> (ci << 1u8)) & 3u8 == (pal / (if ci == 1u8 {
            4u8
        } else if ci == 2u8 {
            16u8
        } else {
            64u8
        })) % 4u8,
{
}

/// Pixel `pc` of a sprite (within a line's first `k` drawn pixels or
/// not) holds the palette shade or what was there before.
proof fn lemma_sprite_pixel_upto(g: GpuView, fb: Seq<u32>, s: int, pc: int, k: nat)
    requires
        g.scanline < 144,
        fb.len() == screen_pixels(),
        0 <= pc < 8,
        k <= 8,
        wrap8(g.sprite_left(s) + pc) < 160,
    ensures
        ({
            let idx = g.scanline * 160 + wrap8(g.sprite_left(s) + pc);
            let ci = g.sprite_color_index(s, pc);
            g.draw_sprite_pixels(fb, s, k)[idx] == if pc < k && ci != 0 {
                shade(palette_shade(g.sprite_palette(s), ci))
            } else {
                fb[idx]
            }
        }),
    decreases k,
{
    if k > 0 {
        lemma_sprite_pixel_upto(g, fb, s, pc, (k - 1) as nat);
        lemma_draw_sprite_pixels_len(g, fb, s, (k - 1) as nat);
        let l = g.sprite_left(s) as int;
        let x = wrap8(l + pc);
        let x2 = wrap8(l + k - 1);
        if k - 1 != pc {
            assert((l + pc) % 256 != (l + k - 1) % 256);
            assert(x != x2);
        }
    }
}

/// A sprite pixel on screen is drawn in the shade that the sprite's palette
/// gives its colour index: the palette is OBP0 when bit 4 of the sprite's
/// attribute byte is clear and OBP1 when it is set, and colour index `c`
/// (1 to 3) picks the pair of palette bits `2c` and `2c + 1`. A pixel of
/// colour index 0 is transparent: what was drawn there stays. No other
/// pixel of the same sprite covers it.
pub proof fn law_sprite_pixel(g: GpuView, fb: Seq<u32>, s: int, pc: int)
    requires
        g.scanline < 144,
        fb.len() == screen_pixels(),
        g.sprite_on_line(s),
        0 <= pc < 8,
        wrap8(g.sprite_left(s) + pc) < 160,
    ensures
        ({
            let idx = g.scanline * 160 + wrap8(g.sprite_left(s) + pc);
            let ci = g.sprite_color_index(s, pc);
            let pal = if g.oam[4 * s + 3] & 0x10 == 0 {
                g.obj0pal
            } else {
                g.obj1pal
            };
            let pair = if ci == 1 {
                (pal / 4) % 4
            } else if ci == 2 {
                (pal / 16) % 4
            } else {
                (pal / 64) % 4
            };
            g.draw_sprite(fb, s)[idx] == if ci == 0 {
                fb[idx]
            } else {
                shade(pair as u8)
            }
        }),
{
    lemma_sprite_pixel_upto(g, fb, s, pc, 8);
    let (row, tile) = g.sprite_row_tile(s);
    let start = tile * 16;
    let col = if g.sprite_flags(s) & 0x20 != 0 {
        7 - pc
    } else {
        pc
    };
    lemma_color_index_bound(
        g.vram[start + row * 2],
        g.vram[start + row * 2 + 1],
        (7 - col) as u8,
    );
    let ci = g.sprite_color_index(s, pc);
    if ci != 0 {
        lemma_palette_pair(g.sprite_palette(s), ci);
    }
}

/// Background tile data: with LCDC bit 4 set, tile `t` is the `t`-th block
/// of 16 bytes from 0x8000; with it clear, tiles 128-255 are the same
/// blocks as in the other mode (0x8800-0x8FFF), while tiles 0-127 lie 0x1000
/// bytes further on (0x9000-0x97FF). Either way the 16 bytes lie in the
/// tile data area 0x8000-0x97FF.
pub proof fn law_tile_data_start(g: GpuView, t: u8)
    ensures
        ({
            let unsigned = (GpuView { lcdc: g.lcdc | BG_AND_WINDOW_TILES, ..g });
            let signed = (GpuView { lcdc: g.lcdc & !BG_AND_WINDOW_TILES, ..g });
            &&& unsigned.tile_data_start(t) == 16 * t
            &&& t >= 128 ==> signed.tile_data_start(t) == unsigned.tile_data_start(t)
            &&& t < 128 ==> signed.tile_data_start(t) == unsigned.tile_data_start(t) + 0x1000
            &&& 0 <= signed.tile_data_start(t) && signed.tile_data_start(t) + 16 <= 0x1800
        }),
{
    let l = g.lcdc;
    assert((l | 16u8) & 16u8 == 16u8 && (l & !16u8) & 16u8 == 0u8) by (bit_vector);
}

/// Drawing the background of a line changes that line only: with
/// `(x0, y0)` the point of the 256 x 256 background map at the line's
/// column `x` (the scroll plus the screen position, wrapping), the pixel is
/// the palette BGP's shade of the colour index the tile under that point
/// has there; the tile number comes from the map at 0x9800 (0x9C00 with
/// LCDC bit 3 set), 32 tiles to a row of the map.
pub proof fn law_bg_line(g: GpuView, fb: Seq<u32>, i: int)
    requires
        0 <= i < fb.len(),
    ensures
        ({
            let x = i % 160;
            let x0 = (g.scrollx + x) % 256;
            let y0 = (g.scrolly + g.scanline) % 256;
            let map: int = if g.lcdc & 0x08 != 0 {
                0x9C00
            } else {
                0x9800
            };
            let tile = g.vram[map - 0x8000 + (y0 / 8) * 32 + x0 / 8];
            let start = g.tile_data_start(tile);
            let ci = color_index(
                g.vram[start + (y0 % 8) * 2],
                g.vram[start + (y0 % 8) * 2 + 1],
                (7 - x0 % 8) as u8,
            );
            let pair = if ci == 0 {
                g.bgrdpal % 4
            } else if ci == 1 {
                (g.bgrdpal / 4) % 4
            } else if ci == 2 {
                (g.bgrdpal / 16) % 4
            } else {
                (g.bgrdpal / 64) % 4
            };
            g.with_bg_line(fb)[i] == if i / 160 == g.scanline {
                shade(pair)
            } else {
                fb[i]
            }
        }),
{
    let x = i % 160;
    let x0 = (g.scrollx + x) % 256;
    let y0 = (g.scrolly + g.scanline) % 256;
    assert((y0 / 8) % 32 == y0 / 8 && (x0 / 8) % 32 == x0 / 8);
    let l = g.lcdc;
    assert((l & 8u8 == 8u8) == (l & 0x08u8 != 0u8)) by (bit_vector);
    let tile = g.vram[g.bg_tile_map_base() + (y0 / 8) * 32 + x0 / 8];
    let start = g.tile_data_start(tile);
    let lo = g.vram[start + (y0 % 8) * 2];
    let hi = g.vram[start + (y0 % 8) * 2 + 1];
    lemma_color_index_bound(lo, hi, (7 - x0 % 8) as u8);
    let ci = color_index(lo, hi, (7 - x0 % 8) as u8);
    if ci != 0 {
        lemma_palette_pair(g.bgrdpal, ci);
    } else {
        let p = g.bgrdpal;
        assert((p >> (0u8 << 1u8)) & 3u8 == p % 4u8) by (bit_vector);
    }
}

/// Sprites are 8 lines tall, or 16 with LCDC bit 2 set; a 16-line sprite
/// shows the even tile of its tile number's pair (bit 0 cleared) in its top
/// 8 lines and the odd one (bit 0 set) in its bottom 8.
pub proof fn law_sprite_height(g: GpuView, s: int)
    requires
        g.sprite_on_line(s),
        g.sprite_flags(s) & 0x40 == 0,
    ensures
        g.sprite_height() == if g.lcdc & 0x04 != 0 {
            16u8
        } else {
            8u8
        },
        g.sprite_height() == 16 ==> ({
            let raw = g.scanline - g.sprite_top(s);
            let tile = g.oam[4 * s + 2];
            g.sprite_row_tile(s) == if raw < 8 {
                (raw, tile & 0xFE)
            } else {
                (raw - 8, tile | 0x01)
            }
        }),
{
    let l = g.lcdc;
    assert((l & 4u8 == 4u8) == (l & 0x04u8 != 0u8)) by (bit_vector);
}

/// Scrolling moves the background: one more column of horizontal scroll
/// shows at column `x` what column `x + 1` showed, and one more line of
/// vertical scroll shows on a line what the next line showed (all
/// wrapping around the 256-pixel map).
pub proof fn law_scroll(g: GpuView, x: int)
    ensures
        (GpuView { scrollx: wrap8(g.scrollx + 1), ..g }).bg_pixel(x) == g.bg_pixel(x + 1),
        (GpuView { scrolly: wrap8(g.scrolly + 1), ..g }).bg_pixel(x) == (GpuView {
            scanline: wrap8(g.scanline + 1),
            ..g
        }).bg_pixel(x),
{
    assert((wrap8(g.scrollx + 1) + x) % 256 == (g.scrollx + x + 1) % 256);
    assert((wrap8(g.scrolly + 1) + g.scanline) % 256 == (g.scrolly + wrap8(g.scanline + 1)) % 256);
}

/// Sprite placement and flips: OAM holds a sprite's position offset by 16
/// lines and 8 columns, so a sprite whose first OAM byte is `L + 16` has
/// its top on line `L`; setting attribute bit 5 mirrors the sprite left to
/// right (pixel `pc` shows what pixel `7 - pc` showed), and setting bit 6
/// mirrors it top to bottom (its row `r` is the row `height - 1 - r` of the
/// unflipped sprite).
pub proof fn law_sprite_layout(g: GpuView, s: int, pc: int)
    requires
        0 <= s < 40,
        g.oam.len() == 0x100,
        0 <= pc < 8,
        g.sprite_flags(s) & 0x60 == 0,
        g.sprite_on_line(s),
    ensures
        g.sprite_top(s) + 16 == g.oam[4 * s] || g.sprite_top(s) + 16 == g.oam[4 * s] + 256,
        g.sprite_left(s) + 8 == g.oam[4 * s + 1] || g.sprite_left(s) + 8 == g.oam[4 * s + 1] + 256,
        (GpuView { oam: g.oam.update(4 * s + 3, g.sprite_flags(s) | 0x20), ..g }).sprite_color_index(
            s,
            pc,
        ) == g.sprite_color_index(s, 7 - pc),
        ({
            let f = (GpuView { oam: g.oam.update(4 * s + 3, g.sprite_flags(s) | 0x40), ..g });
            let raw = g.scanline - g.sprite_top(s);
            f.sprite_row_tile(s) == (GpuView {
                scanline: (g.sprite_top(s) + g.sprite_height() - 1 - raw) as u8,
                ..g
            }).sprite_row_tile(s)
        }),
{
    let fl = g.sprite_flags(s);
    assert((fl | 0x20u8) & 0x20u8 != 0u8 && (fl | 0x20u8) & 0x40u8 == 0u8 && (fl | 0x40u8) & 0x40u8
        != 0u8 && (fl | 0x40u8) & 0x20u8 == 0u8 && fl & 0x20u8 == 0u8 && fl & 0x40u8 == 0u8)
        by (bit_vector)
        requires
            fl & 0x60u8 == 0u8,
    ;
}

/// Drawing sprites keeps the framebuffer length.
proof fn lemma_draw_sprites_len(g: GpuView, fb: Seq<u32>, k: nat)
    requires
        g.scanline < 144,
        fb.len() == screen_pixels(),
    ensures
        g.draw_sprites(fb, k).len() == fb.len(),
    decreases k,
{
    if k > 0 {
        lemma_draw_sprites_len(g, fb, (k - 1) as nat);
        lemma_draw_sprite_pixels_len(g, g.draw_sprites(fb, (k - 1) as nat), k - 1, 8);
    }
}

/// Sprite pixels depend only on the state rendering reads.
proof fn lemma_draw_sprite_pixels_same(g: GpuView, h: GpuView, fb: Seq<u32>, s: int, k: nat)
    requires
        g.same_drawing(h),
    ensures
        g.draw_sprite_pixels(fb, s, k) == h.draw_sprite_pixels(fb, s, k),
    decreases k,
{
    if k > 0 {
        lemma_draw_sprite_pixels_same(g, h, fb, s, (k - 1) as nat);
    }
}

/// Sprite drawing depends only on the state rendering reads.
proof fn lemma_draw_sprites_same(g: GpuView, h: GpuView, fb: Seq<u32>, k: nat)
    requires
        g.same_drawing(h),
    ensures
        g.draw_sprites(fb, k) == h.draw_sprites(fb, k),
    decreases k,
{
    if k > 0 {
        lemma_draw_sprites_same(g, h, fb, (k - 1) as nat);
        lemma_draw_sprite_pixels_same(g, h, g.draw_sprites(fb, (k - 1) as nat), k - 1, 8);
    }
}

/// A rendered line depends only on the state rendering reads and the framebuffer.
proof fn lemma_drawn_line_same(g: GpuView, h: GpuView)
    requires
        g.same_drawing(h),
        g.framebuffer == h.framebuffer,
    ensures
        g.drawn_line() == h.drawn_line(),
{
    assert(g.with_bg_line(g.framebuffer) =~= h.with_bg_line(h.framebuffer));
    lemma_draw_sprites_same(g, h, g.with_bg_line(g.framebuffer), 64);
    lemma_draw_sprites_same(g, h, g.framebuffer, 64);
}

/// The PPU and the interrupt flags after `n` dots from `g` and `flag`.
pub open spec fn dots(g: GpuView, flag: u8, n: nat) -> (GpuView, u8)
    decreases n,
{
    if n == 0 {
        (g, flag)
    } else {
        let (g1, f1) = g.cycle_spec(flag);
        dots(g1, f1, (n - 1) as nat)
    }
}

/// `a + b` dots are `a` dots, then `b` more.
proof fn lemma_dots_split(g: GpuView, flag: u8, a: nat, b: nat)
    ensures
        dots(g, flag, a + b) == ({
            let (g1, f1) = dots(g, flag, a);
            dots(g1, f1, b)
        }),
    decreases a,
{
    if a > 0 {
        let (g1, f1) = g.cycle_spec(flag);
        lemma_dots_split(g1, f1, (a - 1) as nat, b);
        assert(dots(g, flag, a + b) == dots(g1, f1, (a - 1 + b) as nat));
    }
}

/// Dots that do not reach the end of the mode only count.
proof fn lemma_dots_within(g: GpuView, flag: u8, n: nat)
    requires
        g.lcdc_has(LCD_PPU_ENABLE),
        g.clock + n < mode_length(g.mode),
    ensures
        dots(g, flag, n) == (GpuView { clock: (g.clock + n) as usize, ..g }, flag),
    decreases n,
{
    if n > 0 {
        let (g1, f1) = g.cycle_spec(flag);
        lemma_dots_within(g1, f1, (n - 1) as nat);
    }
}

/// The dots of a whole mode, from its dot 0: the mode's last dot ends it.
proof fn lemma_dots_mode(g: GpuView, flag: u8)
    requires
        g.lcdc_has(LCD_PPU_ENABLE),
        g.clock == 0,
    ensures
        dots(g, flag, mode_length(g.mode) as nat) == (GpuView {
            clock: (mode_length(g.mode) - 1) as usize,
            ..g
        }).cycle_spec(flag),
{
    let n = (mode_length(g.mode) - 1) as nat;
    lemma_dots_split(g, flag, n, 1);
    lemma_dots_within(g, flag, n);
    let g1 = GpuView { clock: n as usize, ..g };
    let (g2, f2) = g1.cycle_spec(flag);
    assert(dots(g1, flag, 1) == dots(g2, f2, 0));
}

/// Each line takes 456 dots while the LCD is on. From dot 0 of a line's
/// OAM scan, 80 dots later the PPU is drawing the line (VRAM mode); 172
/// later the line is in the framebuffer (horizontal blank); 204 later the
/// next line begins: its OAM scan, for lines up to 142; after line 143,
/// vertical blank on line 144, with VBLANK requested. A line of vertical
/// blank takes 456 dots too, and after line 153 the frame starts over on
/// line 0. No other interrupt is requested on the way.
pub proof fn law_line_timing(g: GpuView, flag: u8)
    requires
        g.lcdc_has(LCD_PPU_ENABLE),
        g.clock == 0,
    ensures
        g.mode == GpuMode::Oam ==> {
            let (g80, f80) = dots(g, flag, 80);
            let (g252, f252) = dots(g, flag, 252);
            let (g456, f456) = dots(g, flag, 456);
            &&& g80.mode == GpuMode::Vram && g80.clock == 0 && f80 == flag
            &&& g252.mode == GpuMode::HBlank && g252.framebuffer == g.drawn_line() && f252 == flag
            &&& g456.clock == 0
            &&& g.scanline < 143 ==> g456.mode == GpuMode::Oam && g456.scanline == g.scanline + 1
                && f456 == flag
            &&& g.scanline == 143 ==> g456.mode == GpuMode::VBlank && g456.scanline == 144 && f456
                == flag | interrupts::VBLANK
        },
        g.mode == GpuMode::VBlank ==> {
            let (g456, f456) = dots(g, flag, 456);
            &&& g456.clock == 0 && f456 == flag
            &&& g.scanline < 153 ==> g456.mode == GpuMode::VBlank && g456.scanline == g.scanline + 1
            &&& g.scanline == 153 ==> g456.mode == GpuMode::Oam && g456.scanline == 0
        },
{
    lemma_dots_mode(g, flag);
    if g.mode == GpuMode::Oam {
        let (g80, f80) = dots(g, flag, 80);
        lemma_dots_mode(g80, f80);
        lemma_dots_split(g, flag, 80, 172);
        let (g252, f252) = dots(g, flag, 252);
        lemma_drawn_line_same(g, GpuView { clock: 172, ..g80 });
        lemma_dots_mode(g252, f252);
        lemma_dots_split(g, flag, 252, 204);
    }
}

/// A step of the PPU keeps its invariant (given room in the frame counter).
pub proof fn lemma_step_keeps_inv(g: GpuView, flag: u8)
    requires
        g.inv_upto(457),
        g.vblank_count < usize::MAX,
    ensures
        g.step_spec(flag).0.inv(),
        g.step_spec(flag).0.vblank_count <= g.vblank_count + 1,
        g.step_spec(flag).0.vblank_count >= g.vblank_count,
{
    if g.mode == GpuMode::Vram {
        lemma_draw_sprites_len(g, g.with_bg_line(g.framebuffer), 64);
        lemma_draw_sprites_len(g, g.framebuffer, 64);
    }
}

/// A PPU cycle keeps its invariant (given room in the frame counter).
pub proof fn lemma_cycle_keeps_inv(g: GpuView, flag: u8)
    requires
        g.inv(),
        g.vblank_count < usize::MAX,
    ensures
        g.cycle_spec(flag).0.inv(),
        g.cycle_spec(flag).0.vblank_count <= g.vblank_count + 1,
        g.cycle_spec(flag).0.vblank_count >= g.vblank_count,
{
    if g.lcdc_has(LCD_PPU_ENABLE) {
        let g1 = GpuView { clock: (g.clock + 1) as usize, ..g };
        lemma_step_keeps_inv(g1, flag);
    }
}

/// The attribute byte of a sprite, bit by bit.
struct SpriteAttribute {
    above: bool,
    yflip: bool,
    xflip: bool,
    obj0: bool,  //True for OBJ0, OBJ1 otherwise.
}

impl SpriteAttribute {
    /// Bits 7 (behind the background), 6 (vertical flip), 5 (horizontal
    /// flip) and 4 (palette OBJ1) of the attribute byte.
    fn from_byte(byte: u8) -> (r: Self)
        ensures
            r.above == (byte & 0x80 != 0),
            r.yflip == (byte & 0x40 != 0),
            r.xflip == (byte & 0x20 != 0),
            r.obj0 == (byte & 0x10 == 0),
    {
        SpriteAttribute {
            above: byte & 0x80 != 0,
            yflip: byte & 0x40 != 0,
            xflip: byte & 0x20 != 0,
            obj0: byte & 0x10 == 0,
        }
    }
}

impl SpriteSize {
    /// The variant's name as `{:?}` prints it.
    pub open spec fn text(self) -> Seq<char> {
        match self {
            SpriteSize::Square => "Square"@,
            SpriteSize::Tall => "Tall"@,
        }
    }
}

impl GPU {
    /// The LCDC settings and STAT, one per line.
    pub open spec fn text(&self) -> Seq<char> {
        let g = self@;
        let (w0, w1) = if g.lcdc_has(WINDOW_TILE_MAP) {
            (0x9C00nat, 0x9FFFnat)
        } else {
            (0x9800nat, 0x9BFFnat)
        };
        let (d0, d1) = if g.lcdc_has(BG_AND_WINDOW_TILES) {
            (0x0000nat, 0x0FFFnat)
        } else {
            (0x0800nat, 0x17FFnat)
        };
        let (m0, m1) = if g.lcdc_has(BG_TILE_MAP_DISPLAY) {
            (0x9C00nat, 0x9FFFnat)
        } else {
            (0x9800nat, 0x9BFFnat)
        };
        let size = if g.lcdc_has(OBJ_SIZE) {
            SpriteSize::Tall
        } else {
            SpriteSize::Square
        };
        "LCDC: "@ + bin_text(g.lcdc as nat, bin_width(g.lcdc as nat, 8)) + "\nLCD On: "@ + bool_text(
            g.lcdc_has(LCD_PPU_ENABLE),
        ) + ", \nWindow Tile Map Display Select: "@ + hex_text(w0, 4) + "-"@ + hex_text(w1, 4)
            + "\nWindow Display Enable: "@ + bool_text(g.lcdc_has(WINDOW_DISPLAY_ENABLED))
            + " \nBG+Window Tile Data Select: "@ + hex_text(d0, 4) + "-"@ + hex_text(d1, 4)
            + "\nBG Tile Map Display Select: "@ + hex_text(m0, 4) + "-"@ + hex_text(m1, 4)
            + "\nSprite Size: "@ + size.text() + " \nSprite Display Enable: "@ + bool_text(
            g.lcdc_has(OBJ_ENABLED),
        ) + " \nBG Display: "@ + bool_text(g.lcdc_has(BG_DISPLAY_ENABLED)) + "\nSTAT: "@
            + bin_text(g.lcdstat as nat, bin_width(g.lcdstat as nat, 8))
    }

    /// The PPU settings as text.
    pub fn to_string(&self) -> (r: String)
        ensures
            r@ == self.text(),
    {
        let wtmds = self.window_tile_map_display_select();
        let bgwtds = self.bg_and_window_tile_data_select();
        let bgtmds = self.bg_tile_map_display_select();
        let mut s = String::from_str("LCDC: ");
        append_bin_padded(&mut s, self.lcdc.bits() as u16, 8);
        s.append("\nLCD On: ");
        append_bool(&mut s, self.lcdc.contains(LCD_PPU_ENABLE));
        s.append(", \nWindow Tile Map Display Select: ");
        append_hex(&mut s, wtmds.0 as u16, 4);
        s.append("-");
        append_hex(&mut s, wtmds.1 as u16, 4);
        s.append("\nWindow Display Enable: ");
        append_bool(&mut s, self.lcdc.contains(WINDOW_DISPLAY_ENABLED));
        s.append(" \nBG+Window Tile Data Select: ");
        append_hex(&mut s, bgwtds.0 as u16, 4);
        s.append("-");
        append_hex(&mut s, bgwtds.1 as u16, 4);
        s.append("\nBG Tile Map Display Select: ");
        append_hex(&mut s, bgtmds.0 as u16, 4);
        s.append("-");
        append_hex(&mut s, bgtmds.1 as u16, 4);
        s.append("\nSprite Size: ");
        match self.sprite_size() {
            SpriteSize::Square => s.append("Square"),
            SpriteSize::Tall => s.append("Tall"),
        }
        s.append(" \nSprite Display Enable: ");
        append_bool(&mut s, self.lcdc.contains(OBJ_ENABLED));
        s.append(" \nBG Display: ");
        append_bool(&mut s, self.lcdc.contains(BG_DISPLAY_ENABLED));
        s.append("\nSTAT: ");
        append_bin_padded(&mut s, self.lcdstat as u16, 8);
        assert(s@ =~= self.text());
        s
    }
}

/// The RGBA colour of a shade.
fn shade_of(color: u8) -> (r: u32)
    ensures
        r == shade(color),
{
    match color {
        0 => 0xE0F8_D0FF,  // White
        1 => 0x88C0_70FF,  // Light Gray
        2 => 0x3468_56FF,  // Dark Gray
        3 => 0x0818_20FF,  // Black
        _ => 0,
    }
}

/// The PPU at power-on: OAM scan on line 0, memories and framebuffer zero, LCD off.
pub open spec fn initial_view() -> GpuView {
    GpuView {
        mode: GpuMode::Oam,
        clock: 0,
        scanline: 0,
        vram: Seq::new(0x2000, |i: int| 0u8),
        oam: Seq::new(0x100, |i: int| 0u8),
        lcdc: 0,
        lcdstat: 0,
        scrollx: 0,
        scrolly: 0,
        bgrdpal: 0,
        obj0pal: 0,
        obj1pal: 0,
        windowx: 0,
        windowy: 0,
        vblank_count: 0,
        framebuffer: Seq::new(screen_pixels(), |i: int| 0u32),
    }
}

impl Default for GPU {
    /// The same as `GPU::new`.
    fn default() -> (r: Self)
        ensures
            r.wf(),
            r@ == initial_view(),
    {
        Self::new()
    }
}

impl GPU {
    /// The PPU's memories and framebuffer have their sizes and its mode
    /// counters are in range.
    pub open spec fn wf(&self) -> bool {
        &&& self@.inv()
        &&& pixel_shape(self.framebuffer) == (144nat, 160nat)
    }

    /// A PPU in OAM scan on line 0, everything zero, LCD off.
    pub fn new() -> (r: Self)
        ensures
            r.wf(),
            r@ == initial_view(),
    {
        let vram = vec![0u8; 0x2000];
        let oam = vec![0u8; 0x100];
        assert(vram@ =~= Seq::new(0x2000, |i: int| 0u8));
        assert(oam@ =~= Seq::new(0x100, |i: int| 0u8));
        GPU {
            mode: GpuMode::Oam,
            clock: 0,
            scanline: 0,
            lcdc: LCDC::empty(),
            lcdstat: 0,
            scrolly: 0,
            scrollx: 0,
            bgrdpal: 0,
            obj0pal: 0,
            obj1pal: 0,
            windowx: 0,
            windowy: 0,
            // FFxx Values end
            vblank_count: 0,
            vram,
            oam,
            framebuffer: PixelData::zeros(WINDOW_HEIGHT as usize, WINDOW_WIDTH as usize),
        }
    }

    /// Bit 6 - Window Tile Map Display Select (0=9800-9BFF, 1=9C00-9FFF):
    /// the first and last address.
    pub fn window_tile_map_display_select(&self) -> (r: (usize, usize))
        ensures
            r == (if self@.lcdc_has(WINDOW_TILE_MAP) {
                (0x9C00usize, 0x9FFFusize)
            } else {
                (0x9800usize, 0x9BFFusize)
            }),
    {
        if self.lcdc.contains(WINDOW_TILE_MAP) {
            (0x9C00, 0x9FFF)
        } else {
            (0x9800, 0x9BFF)
        }
    }

    /// Bit 4 - BG & Window Tile Data Select (0=8800-97FF, 1=8000-8FFF):
    /// the first and last VRAM offset.
    pub fn bg_and_window_tile_data_select(&self) -> (r: (usize, usize))
        ensures
            r == (if self@.lcdc_has(BG_AND_WINDOW_TILES) {
                (0x0000usize, 0x0FFFusize)
            } else {
                (0x0800usize, 0x17FFusize)
            }),
    {
        if self.lcdc.contains(BG_AND_WINDOW_TILES) {
            (0x0000, 0x0FFF)
        } else {
            (0x0800, 0x17FF)
        }
    }

    /// Bit 3 - BG Tile Map Display Select (0=9800-9BFF, 1=9C00-9FFF):
    /// the first and last address.
    pub fn bg_tile_map_display_select(&self) -> (r: (usize, usize))
        ensures
            r == (if self@.lcdc_has(BG_TILE_MAP_DISPLAY) {
                (0x9C00usize, 0x9FFFusize)
            } else {
                (0x9800usize, 0x9BFFusize)
            }),
    {
        if self.lcdc.contains(BG_TILE_MAP_DISPLAY) {
            (0x9C00, 0x9FFF)
        } else {
            (0x9800, 0x9BFF)
        }
    }

    /// Returns the VRAM start of a tile's data, based on the tile index.
    /// When LCDC bit 4 is set: unsigned addressing from 0x8000 (tiles 0-255)
    /// When LCDC bit 4 is clear: signed addressing from 0x9000 (tiles -128 to 127)
    pub fn tile_data_address(&self, tile_index: u8) -> (r: usize)
        ensures
            r == self@.tile_data_start(tile_index),
            r + 16 <= 0x2000,
    {
        if self.lcdc.contains(BG_AND_WINDOW_TILES) {
            // Unsigned: tile_index 0-255 maps to 0x8000-0x8FFF (VRAM 0x0000-0x0FFF)
            tile_index as usize * 16
        } else if tile_index < 128 {
            // Signed: tile_index as i8, base at 0x9000 (VRAM 0x1000)
            0x1000 + tile_index as usize * 16
        } else {
            0x1000 - (256 - tile_index as usize) * 16
        }
    }

    /// Bit 2 - OBJ (Sprite) Size (0=8x8, 1=8x16): `Tall` when set, the
    /// sprite height the renderer uses.
    pub fn sprite_size(&self) -> (r: SpriteSize)
        ensures
            r == (if self@.lcdc_has(OBJ_SIZE) {
                SpriteSize::Tall
            } else {
                SpriteSize::Square
            }),
            (r is Tall) == (self@.sprite_height() == 16),
    {
        if self.lcdc.contains(OBJ_SIZE) {
            SpriteSize::Tall
        } else {
            SpriteSize::Square
        }
    }

    /// The byte the PPU maps at `i`: LY at 0x44, else VRAM at `i - 0x8000`.
    pub fn byte_at(&self, i: u16) -> (r: u8)
        requires
            self.wf(),
            i == 0x44 || 0x8000 <= i <= 0x9FFF,
        ensures
            r == (if i == 0x44 {
                self.scanline
            } else {
                self.vram@[i - 0x8000]
            }),
    {
        if i == 0x44 {
            self.scanline
        } else {
            self.vram[(i - 0x8000) as usize]
        }
    }

    /// Advance the PPU one cycle; nothing happens while the LCD is off.
    pub fn cycle(&mut self, flag: &mut u8)
        requires
            old(self).wf(),
            old(self).vblank_count < usize::MAX,
        ensures
            final(self).wf(),
            (final(self)@, *final(flag)) == old(self)@.cycle_spec(*old(flag)),
    {
        if !self.lcdc.contains(LCD_PPU_ENABLE) {
            return;
        }
        self.clock += 1;
        self.step(flag);
    }

    /// VRAM offset of the background tile map (0x1800 or 0x1C00)
    fn bg_tile_map_base(&self) -> (r: usize)
        ensures
            r == self@.bg_tile_map_base(),
    {
        if self.lcdc.contains(BG_TILE_MAP_DISPLAY) {
            0x1C00
        } else {
            0x1800
        }
    }

    /// Decode a single pixel from tile data starting at `start` in VRAM.
    /// `row` is 0-7, `col` is 0-7.
    fn decode_pixel(palette: u8, vram: &Vec<u8>, start: usize, row: usize, col: usize) -> (r: u32)
        requires
            vram@.len() == 0x2000,
            start + 16 <= 0x2000,
            row < 8,
            col < 8,
        ensures
            r == shade(
                palette_shade(
                    palette,
                    color_index(vram@[start + row * 2], vram@[start + row * 2 + 1], (7 - col) as u8),
                ),
            ),
    {
        let lo_byte = vram[start + row * 2];
        let hi_byte = vram[start + row * 2 + 1];
        let bit = (7 - col) as u8;
        let lo_bit = (lo_byte >> bit) & 1;
        let hi_bit = (hi_byte >> bit) & 1;
        let color_index = (hi_bit << 1u8) | lo_bit;
        proof {
            lemma_color_index_bound(lo_byte, hi_byte, bit);
        }
        let color = (palette >> (color_index << 1u8)) & 0b11;
        shade_of(color)
    }

    /// Draw the background of the current line into the framebuffer.
    fn draw_background(&mut self)
        requires
            old(self).wf(),
            old(self).scanline < 144,
        ensures
            final(self).wf(),
            final(self)@ == (GpuView { framebuffer: old(self)@.with_bg_line(old(self)@.framebuffer), ..old(self)@ }),
    {
        let ghost g = self@;
        let ly = self.scanline;
        let tile_map_base = self.bg_tile_map_base();
        let ypos = self.scrolly.wrapping_add(ly) as usize;
        let tile_row = ypos / 8;
        let pixel_row = ypos % 8;
        let mut screen_x: usize = 0;
        while screen_x < 160
            invariant
                0 <= screen_x <= 160,
                ly == g.scanline,
                ly < 144,
                tile_map_base == g.bg_tile_map_base(),
                ypos == (g.scrolly + g.scanline) % 256,
                tile_row == ypos / 8,
                pixel_row == ypos % 8,
                self.wf(),
                self@ == (GpuView { framebuffer: self@.framebuffer, ..g }),
                self@.framebuffer == Seq::new(
                    g.framebuffer.len(),
                    |i: int|
                        if i / 160 == ly as int && i % 160 < screen_x {
                            g.bg_pixel(i % 160)
                        } else {
                            g.framebuffer[i]
                        },
                ),
            decreases 160 - screen_x,
        {
            let xpos = (self.scrollx as usize + screen_x) % 256;
            let tile_col = xpos / 8;
            let pixel_col = xpos % 8;
            // Get tile index from tile map
            let tile_map_addr = tile_map_base + (tile_row % 32) * 32 + (tile_col % 32);
            let tile_index = self.vram[tile_map_addr];
            // Get tile data address
            let start = self.tile_data_address(tile_index);
            let pixel = Self::decode_pixel(self.bgrdpal, &self.vram, start, pixel_row, pixel_col);
            assert(pixel == g.bg_pixel(screen_x as int));
            let ghost before = self@.framebuffer;
            self.framebuffer.set(ly as usize, screen_x, pixel);
            assert(self@.framebuffer =~= Seq::new(
                g.framebuffer.len(),
                |i: int|
                    if i / 160 == ly as int && i % 160 < screen_x + 1 {
                        g.bg_pixel(i % 160)
                    } else {
                        g.framebuffer[i]
                    },
            ));
            screen_x += 1;
        }
        assert(self@.framebuffer =~= g.with_bg_line(g.framebuffer));
    }

    /// Draw one sprite slot of OAM on the current line.
    #[verifier::rlimit(60)]
    #[verifier::spinoff_prover]
    fn draw_sprite(&mut self, s: usize)
        requires
            old(self).wf(),
            old(self).scanline < 144,
            s < 64,
        ensures
            final(self).wf(),
            final(self)@ == (GpuView { framebuffer: old(self)@.draw_sprite(old(self)@.framebuffer, s as int), ..old(self)@ }),
    {
        let ghost g = self@;
        let ly = self.scanline;
        let sprite_height: u8 = if self.lcdc.contains(OBJ_SIZE) { 16 } else { 8 };
        let sprite_y = self.oam[4 * s];
        let sprite_x = self.oam[4 * s + 1];
        let tile_index = self.oam[4 * s + 2];
        let flags = self.oam[4 * s + 3];
        // Sprite Y is offset by 16, X by 8
        let screen_y = sprite_y.wrapping_sub(16);
        let screen_x = sprite_x.wrapping_sub(8);
        // Check if sprite is on this scanline
        if ly < screen_y || ly >= screen_y.wrapping_add(sprite_height) {
            return;
        }
        let attributes = SpriteAttribute::from_byte(flags);
        let above = attributes.above;
        let yflip = attributes.yflip;
        let xflip = attributes.xflip;
        let obj0 = attributes.obj0;
        let palette = if obj0 { self.obj0pal } else { self.obj1pal };
        // Calculate which row of the sprite we're drawing
        let mut sprite_row = (ly - screen_y) as usize;
        if yflip {
            sprite_row = (sprite_height as usize - 1) - sprite_row;
        }
        // Get tile data (8x16 sprites use tile_index & 0xFE for top, | 0x01 for bottom)
        let actual_tile = if sprite_height == 16 {
            if sprite_row < 8 {
                tile_index & 0xFE
            } else {
                sprite_row -= 8;
                tile_index | 0x01
            }
        } else {
            tile_index
        };
        assert((sprite_row as int, actual_tile) == g.sprite_row_tile(s as int));
        let tile_start = actual_tile as usize * 16;
        // Draw 8 pixels of the sprite
        let mut pixel_col: usize = 0;
        while pixel_col < 8
            invariant
                0 <= pixel_col <= 8,
                ly == g.scanline,
                ly < 144,
                g.sprite_on_line(s as int),
                s < 64,
                screen_x == g.sprite_left(s as int),
                palette == g.sprite_palette(s as int),
                xflip == (g.sprite_flags(s as int) & 0x20 != 0),
                (sprite_row as int, actual_tile) == g.sprite_row_tile(s as int),
                sprite_row < 8,
                tile_start == actual_tile * 16,
                self.wf(),
                self@ == (GpuView { framebuffer: self@.framebuffer, ..g }),
                self@.framebuffer == g.draw_sprite_pixels(g.framebuffer, s as int, pixel_col as nat),
            decreases 8 - pixel_col,
        {
            let dest_x = screen_x.wrapping_add(pixel_col as u8) as usize;
            if dest_x >= 160 {
                pixel_col += 1;
                continue;
            }
            let col = if xflip { 7 - pixel_col } else { pixel_col };
            let lo_byte = self.vram[tile_start + sprite_row * 2];
            let hi_byte = self.vram[tile_start + sprite_row * 2 + 1];
            let bit = (7 - col) as u8;
            let lo_bit = (lo_byte >> bit) & 1;
            let hi_bit = (hi_byte >> bit) & 1;
            let color_index = (hi_bit << 1u8) | lo_bit;
            assert(color_index == g.sprite_color_index(s as int, pixel_col as int));
            // Color index 0 is transparent for sprites
            if color_index == 0 {
                pixel_col += 1;
                continue;
            }
            // BG priority: if set, sprite only shows over BG color 0
            if above {
                // the background colour is not consulted
            }
            proof {
                lemma_color_index_bound(lo_byte, hi_byte, bit);
            }
            let color = (palette >> (color_index << 1u8)) & 0b11;
            let pixel = shade_of(color);
            self.framebuffer.set(ly as usize, dest_x, pixel);
            pixel_col += 1;
        }
    }

    fn draw_sprites_on_line(&mut self)
        requires
            old(self).wf(),
            old(self).scanline < 144,
        ensures
            final(self).wf(),
            final(self)@ == (GpuView { framebuffer: old(self)@.draw_sprites(old(self)@.framebuffer, 64), ..old(self)@ }),
    {
        let ghost g = self@;
        // Scan OAM for sprites on this scanline (max 10 per line on real hardware)
        let mut s: usize = 0;
        while s < 64
            invariant
                0 <= s <= 64,
                self.wf(),
                g.scanline < 144,
                self@ == (GpuView { framebuffer: self@.framebuffer, ..g }),
                self@.framebuffer == g.draw_sprites(g.framebuffer, s as nat),
            decreases 64 - s,
        {
            let ghost before = self@;
            self.draw_sprite(s);
            proof {
                lemma_draw_sprite_pixels_same(before, g, before.framebuffer, s as int, 8);
            }
            s += 1;
        }
    }

    fn draw_line(&mut self)
        requires
            old(self).wf(),
            old(self).scanline < 144,
        ensures
            final(self).wf(),
            final(self)@ == (GpuView { framebuffer: old(self)@.drawn_line(), ..old(self)@ }),
    {
        let ghost g = self@;
        // Draw background
        if self.lcdc.contains(BG_DISPLAY_ENABLED) {
            self.draw_background();
        }
        let ghost mid = self@;
        // Draw sprites (OBJ)
        if self.lcdc.contains(OBJ_ENABLED) {
            self.draw_sprites_on_line();
            proof {
                lemma_draw_sprites_same(mid, g, mid.framebuffer, 64);
            }
        }
    }

    // This is a huge can of worms to correct emulate the state of the scanline during emulation.
    // I would revisit this later.
    pub fn step(&mut self, flag: &mut u8)
        requires
            old(self)@.inv_upto(457),
            pixel_shape(old(self).framebuffer) == (144nat, 160nat),
            old(self).vblank_count < usize::MAX,
        ensures
            final(self).wf(),
            (final(self)@, *final(flag)) == old(self)@.step_spec(*old(flag)),
    {
        let triggered = self.clock >= match self.mode {
            GpuMode::Oam => 80,
            GpuMode::Vram => 172,
            GpuMode::HBlank => 204,
            GpuMode::VBlank => 456,
        };
        if triggered {
            self.clock = 0;
            match self.mode {
                GpuMode::Oam => self.mode = GpuMode::Vram,
                GpuMode::Vram => {
                    let ghost before = self@;
                    self.draw_line();
                    proof {
                        lemma_drawn_line_same(before, old(self)@);
                    }
                    self.mode = GpuMode::HBlank;
                },
                GpuMode::HBlank => {
                    self.scanline += 1;
                    if self.scanline == END_HBLANK {
                        self.vblank_count += 1;
                        self.mode = GpuMode::VBlank;
                        *flag |= interrupts::VBLANK;
                    } else {
                        self.mode = GpuMode::Oam;
                    }
                },
                GpuMode::VBlank => {
                    self.scanline += 1;
                    if self.scanline == END_VBLANK {
                        self.scanline = 0;
                        self.mode = GpuMode::Oam;
                    }
                },
            }
        }
    }
}

} // verus!
