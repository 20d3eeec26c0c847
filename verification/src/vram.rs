//! The LCD controller: VRAM, OAM, the LCD registers, and the scanline state
//! machine that renders the 160x144 screen under strict cycle accounting.

use crate::bytes::clone_bytes;
use crate::bytes::make_filled_vec;
use crate::bytes::make_zero_vec;
use crate::interrupt::InterruptKind;
use vstd::prelude::*;

verus! {

/// 0xFF40, LCD Control: the eight switches that steer the renderer.
pub struct Lcdc {
    /// Bit 7: the LCD runs only while set; clearing it holds LY at zero.
    pub lcd_enable: bool,
    /// Bit 6: window tile map at 0x9C00 when set, else 0x9800.
    pub window_tile_map_select: bool,
    /// Bit 5: the window overlay is drawn only while set.
    pub window_enable: bool,
    /// Bit 4: tile data at 0x8000 unsigned when set, else 0x8800 signed.
    pub tile_data_select: bool,
    /// Bit 3: background tile map at 0x9C00 when set, else 0x9800.
    pub background_tile_map_select: bool,
    /// Bit 2: sprites are 8x16 when set, else 8x8.
    pub obj_size_select: bool,
    /// Bit 1: sprites are drawn only while set.
    pub obj_enable: bool,
    /// Bit 0: the background is drawn only while set; clear means white.
    pub background_enable: bool,
}

/// The byte LCDC reads back as.
pub open spec fn lcdc_byte(l: Lcdc) -> u8 {
    (if l.lcd_enable { 0x80u8 } else { 0u8 }) | (if l.window_tile_map_select { 0x40u8 } else { 0u8 })
        | (if l.window_enable { 0x20u8 } else { 0u8 }) | (if l.tile_data_select { 0x10u8 } else { 0u8 })
        | (if l.background_tile_map_select { 0x08u8 } else { 0u8 })
        | (if l.obj_size_select { 0x04u8 } else { 0u8 }) | (if l.obj_enable { 0x02u8 } else { 0u8 })
        | (if l.background_enable { 0x01u8 } else { 0u8 })
}

impl Lcdc {
    /// Power-on value 0x91: LCD on, 0x8000 tile data, background on.
    pub fn power_on() -> (r: Self)
        ensures
            r.lcd_enable,
            !r.window_tile_map_select,
            !r.window_enable,
            r.tile_data_select,
            !r.background_tile_map_select,
            !r.obj_size_select,
            !r.obj_enable,
            r.background_enable,
    {
        Lcdc {
            lcd_enable: true,
            window_tile_map_select: false,
            window_enable: false,
            tile_data_select: true,
            background_tile_map_select: false,
            obj_size_select: false,
            obj_enable: false,
            background_enable: true,
        }
    }

    /// Read LCDC back as one byte.
    pub fn read_byte(&self, addr: u16) -> (v: u8)
        requires
            addr == 0xFF40,
        ensures
            v == lcdc_byte(*self),
    {
        (if self.lcd_enable { 0x80u8 } else { 0u8 })
            | (if self.window_tile_map_select { 0x40u8 } else { 0u8 })
            | (if self.window_enable { 0x20u8 } else { 0u8 })
            | (if self.tile_data_select { 0x10u8 } else { 0u8 })
            | (if self.background_tile_map_select { 0x08u8 } else { 0u8 })
            | (if self.obj_size_select { 0x04u8 } else { 0u8 })
            | (if self.obj_enable { 0x02u8 } else { 0u8 })
            | (if self.background_enable { 0x01u8 } else { 0u8 })
    }

    /// Write LCDC: every bit lands in its switch.
    pub fn write_byte(&mut self, addr: u16, val: u8)
        requires
            addr == 0xFF40,
        ensures
            final(self).lcd_enable == (val & 0x80 != 0),
            final(self).window_tile_map_select == (val & 0x40 != 0),
            final(self).window_enable == (val & 0x20 != 0),
            final(self).tile_data_select == (val & 0x10 != 0),
            final(self).background_tile_map_select == (val & 0x08 != 0),
            final(self).obj_size_select == (val & 0x04 != 0),
            final(self).obj_enable == (val & 0x02 != 0),
            final(self).background_enable == (val & 0x01 != 0),
    {
        self.lcd_enable = (val & 0x80) != 0;
        self.window_tile_map_select = (val & 0x40) != 0;
        self.window_enable = (val & 0x20) != 0;
        self.tile_data_select = (val & 0x10) != 0;
        self.background_tile_map_select = (val & 0x08) != 0;
        self.obj_size_select = (val & 0x04) != 0;
        self.obj_enable = (val & 0x02) != 0;
        self.background_enable = (val & 0x01) != 0;
    }
}

/// Writing LCDC and reading it back yields the written byte.
pub proof fn lemma_lcdc_round_trip(val: u8)
    ensures
        lcdc_byte(Lcdc {
            lcd_enable: val & 0x80 != 0,
            window_tile_map_select: val & 0x40 != 0,
            window_enable: val & 0x20 != 0,
            tile_data_select: val & 0x10 != 0,
            background_tile_map_select: val & 0x08 != 0,
            obj_size_select: val & 0x04 != 0,
            obj_enable: val & 0x02 != 0,
            background_enable: val & 0x01 != 0,
        }) == val,
{
    assert((if val & 0x80 != 0 { 0x80u8 } else { 0u8 }) | (if val & 0x40 != 0 { 0x40u8 } else { 0u8 })
        | (if val & 0x20 != 0 { 0x20u8 } else { 0u8 }) | (if val & 0x10 != 0 { 0x10u8 } else { 0u8 })
        | (if val & 0x08 != 0 { 0x08u8 } else { 0u8 }) | (if val & 0x04 != 0 { 0x04u8 } else { 0u8 })
        | (if val & 0x02 != 0 { 0x02u8 } else { 0u8 }) | (if val & 0x01 != 0 { 0x01u8 } else { 0u8 })
        == val) by (bit_vector);
}

/// The four LCD modes of STAT bits 1..0.
#[derive(Clone, Copy, PartialEq, Eq, Structural, Debug)]
pub enum LCDMode {
    /// Horizontal blanking; the CPU may reach VRAM and OAM.
    Mode0,
    /// Vertical blanking; the CPU may reach VRAM and OAM.
    Mode1,
    /// OAM scan; the CPU is locked out of OAM.
    Mode2,
    /// Pixel transfer; the CPU is locked out of VRAM and OAM.
    Mode3,
}

/// The two mode bits of a mode.
pub open spec fn mode_bits(m: LCDMode) -> u8 {
    match m {
        LCDMode::Mode0 => 0,
        LCDMode::Mode1 => 1,
        LCDMode::Mode2 => 2,
        LCDMode::Mode3 => 3,
    }
}

/// 0xFF41, LCDC Status: interrupt enables, the coincidence flag, and the
/// current mode.
pub struct Stat {
    /// Bit 6: raise LCDStat when LY matches LYC.
    pub lyc_ly_interrupt: bool,
    /// Bit 5: raise LCDStat on entering mode 2.
    pub oam_interrupt: bool,
    /// Bit 4: raise LCDStat on entering vertical blank.
    pub vblank_interrupt: bool,
    /// Bit 3: raise LCDStat on entering horizontal blank.
    pub hblank_interrupt: bool,
    /// Bit 2: the LY = LYC coincidence flag.
    pub lyc_ly_flag: bool,
    /// Bits 1..0: the mode the controller is in; reads reflect the current
    /// mode, never a written value.
    pub mode_flag: LCDMode,
}

/// The byte STAT reads back as; the unwired bit 7 reads one.
pub open spec fn stat_byte(s: Stat) -> u8 {
    0x80u8 | (if s.lyc_ly_interrupt { 0x40u8 } else { 0u8 })
        | (if s.oam_interrupt { 0x20u8 } else { 0u8 })
        | (if s.vblank_interrupt { 0x10u8 } else { 0u8 })
        | (if s.hblank_interrupt { 0x08u8 } else { 0u8 })
        | (if s.lyc_ly_flag { 0x04u8 } else { 0u8 }) | mode_bits(s.mode_flag)
}

impl Stat {
    /// Power-on: no interrupt source enabled, OAM scan about to begin.
    pub fn power_on() -> (r: Self)
        ensures
            !r.lyc_ly_interrupt,
            !r.oam_interrupt,
            !r.vblank_interrupt,
            !r.hblank_interrupt,
            !r.lyc_ly_flag,
            r.mode_flag == LCDMode::Mode2,
    {
        Stat {
            lyc_ly_interrupt: false,
            oam_interrupt: false,
            vblank_interrupt: false,
            hblank_interrupt: false,
            lyc_ly_flag: false,
            mode_flag: LCDMode::Mode2,
        }
    }

    /// Read STAT back as one byte, bit 7 high.
    pub fn read_byte(&self, addr: u16) -> (v: u8)
        requires
            addr == 0xFF41,
        ensures
            v == stat_byte(*self),
    {
        let m: u8 = match self.mode_flag {
            LCDMode::Mode0 => 0,
            LCDMode::Mode1 => 1,
            LCDMode::Mode2 => 2,
            LCDMode::Mode3 => 3,
        };
        0x80u8 | (if self.lyc_ly_interrupt { 0x40u8 } else { 0u8 })
            | (if self.oam_interrupt { 0x20u8 } else { 0u8 })
            | (if self.vblank_interrupt { 0x10u8 } else { 0u8 })
            | (if self.hblank_interrupt { 0x08u8 } else { 0u8 })
            | (if self.lyc_ly_flag { 0x04u8 } else { 0u8 }) | m
    }

    /// Write STAT: bits 6..2 land; the mode bits stay whatever the
    /// controller is doing.
    pub fn write_byte(&mut self, addr: u16, val: u8)
        requires
            addr == 0xFF41,
        ensures
            final(self).lyc_ly_interrupt == (val & 0x40 != 0),
            final(self).oam_interrupt == (val & 0x20 != 0),
            final(self).vblank_interrupt == (val & 0x10 != 0),
            final(self).hblank_interrupt == (val & 0x08 != 0),
            final(self).lyc_ly_flag == (val & 0x04 != 0),
            final(self).mode_flag == old(self).mode_flag,
    {
        self.lyc_ly_interrupt = (val & 0x40) != 0;
        self.oam_interrupt = (val & 0x20) != 0;
        self.vblank_interrupt = (val & 0x10) != 0;
        self.hblank_interrupt = (val & 0x08) != 0;
        self.lyc_ly_flag = (val & 0x04) != 0;
    }
}

/// Writing STAT and reading it back yields the written bits 6..2, with the
/// unwired bit 7 reading one and the mode bits reflecting the current mode.
pub proof fn lemma_stat_round_trip(val: u8, m: LCDMode)
    ensures
        stat_byte(Stat {
            lyc_ly_interrupt: val & 0x40 != 0,
            oam_interrupt: val & 0x20 != 0,
            vblank_interrupt: val & 0x10 != 0,
            hblank_interrupt: val & 0x08 != 0,
            lyc_ly_flag: val & 0x04 != 0,
            mode_flag: m,
        }) == (val & 0x7C) | 0x80 | mode_bits(m),
{
    let mb = mode_bits(m);
    assert(mb <= 3 ==> 0x80u8 | (if val & 0x40 != 0 { 0x40u8 } else { 0u8 })
        | (if val & 0x20 != 0 { 0x20u8 } else { 0u8 }) | (if val & 0x10 != 0 { 0x10u8 } else { 0u8 })
        | (if val & 0x08 != 0 { 0x08u8 } else { 0u8 }) | (if val & 0x04 != 0 { 0x04u8 } else { 0u8 })
        | mb == (val & 0x7C) | 0x80 | mb) by (bit_vector);
}

/// The four gray shades a palette can map a color number to.
#[derive(Clone, Copy, PartialEq, Eq, Structural, Debug)]
pub enum GrayShades {
    White,
    LightGray,
    DarkGray,
    Black,
}

/// The two palette bits of a shade.
pub open spec fn shade_bits(s: GrayShades) -> u8 {
    match s {
        GrayShades::White => 0,
        GrayShades::LightGray => 1,
        GrayShades::DarkGray => 2,
        GrayShades::Black => 3,
    }
}

/// The RGB channel value of a shade; every channel is equal on the
/// monochrome screen.
pub open spec fn shade_rgb(s: GrayShades) -> u8 {
    match s {
        GrayShades::White => 255,
        GrayShades::LightGray => 170,
        GrayShades::DarkGray => 85,
        GrayShades::Black => 0,
    }
}

/// The shade encoded by the low two bits of a byte.
pub open spec fn shade_of_bits(b: u8) -> GrayShades {
    if b & 0x03 == 0 {
        GrayShades::White
    } else if b & 0x03 == 1 {
        GrayShades::LightGray
    } else if b & 0x03 == 2 {
        GrayShades::DarkGray
    } else {
        GrayShades::Black
    }
}

/// A palette register: four shades, one per color number.
pub struct PaletteData {
    pub color0: GrayShades,
    pub color1: GrayShades,
    pub color2: GrayShades,
    pub color3: GrayShades,
}

/// The byte a palette register reads back as.
pub open spec fn palette_byte(p: PaletteData) -> u8 {
    (shade_bits(p.color3) * 64 + shade_bits(p.color2) * 16 + shade_bits(p.color1) * 4 + shade_bits(
        p.color0,
    )) as u8
}

/// The shade a palette assigns to a color number.
pub open spec fn palette_shade(p: PaletteData, idx: int) -> GrayShades {
    if idx == 0 {
        p.color0
    } else if idx == 1 {
        p.color1
    } else if idx == 2 {
        p.color2
    } else {
        p.color3
    }
}

impl PaletteData {
    /// All four colors white, as at power-on.
    pub fn init() -> (r: Self)
        ensures
            r.color0 == GrayShades::White,
            r.color1 == GrayShades::White,
            r.color2 == GrayShades::White,
            r.color3 == GrayShades::White,
    {
        PaletteData {
            color0: GrayShades::White,
            color1: GrayShades::White,
            color2: GrayShades::White,
            color3: GrayShades::White,
        }
    }

    /// Read the palette back as one byte, two bits per color.
    pub fn read_byte(&self, addr: u16) -> (v: u8)
        requires
            addr == 0xFF47 || addr == 0xFF48 || addr == 0xFF49,
        ensures
            v == palette_byte(*self),
    {
        let b3: u8 = match self.color3 {
            GrayShades::White => 0,
            GrayShades::LightGray => 1,
            GrayShades::DarkGray => 2,
            GrayShades::Black => 3,
        };
        let b2: u8 = match self.color2 {
            GrayShades::White => 0,
            GrayShades::LightGray => 1,
            GrayShades::DarkGray => 2,
            GrayShades::Black => 3,
        };
        let b1: u8 = match self.color1 {
            GrayShades::White => 0,
            GrayShades::LightGray => 1,
            GrayShades::DarkGray => 2,
            GrayShades::Black => 3,
        };
        let b0: u8 = match self.color0 {
            GrayShades::White => 0,
            GrayShades::LightGray => 1,
            GrayShades::DarkGray => 2,
            GrayShades::Black => 3,
        };
        b3 * 64 + b2 * 16 + b1 * 4 + b0
    }

    /// Write the palette: each pair of bits selects one color's shade.
    pub fn write_byte(&mut self, addr: u16, val: u8)
        requires
            addr == 0xFF47 || addr == 0xFF48 || addr == 0xFF49,
        ensures
            final(self).color0 == shade_of_bits(val),
            final(self).color1 == shade_of_bits(val >> 2),
            final(self).color2 == shade_of_bits(val >> 4),
            final(self).color3 == shade_of_bits(val >> 6),
    {
        self.color0 = Self::decode(val);
        self.color1 = Self::decode(val >> 2);
        self.color2 = Self::decode(val >> 4);
        self.color3 = Self::decode(val >> 6);
    }

    /// The shade named by the low two bits of a byte.
    fn decode(b: u8) -> (s: GrayShades)
        ensures
            s == shade_of_bits(b),
    {
        let low = b & 0x03;
        proof {
            assert(b & 0x03 < 4) by (bit_vector);
        }
        if low == 0 {
            GrayShades::White
        } else if low == 1 {
            GrayShades::LightGray
        } else if low == 2 {
            GrayShades::DarkGray
        } else {
            GrayShades::Black
        }
    }
}

/// Writing a palette register and reading it back yields the written byte.
pub proof fn lemma_palette_round_trip(val: u8)
    ensures
        palette_byte(PaletteData {
            color0: shade_of_bits(val),
            color1: shade_of_bits(val >> 2),
            color2: shade_of_bits(val >> 4),
            color3: shade_of_bits(val >> 6),
        }) == val,
{
    assert(((val >> 6) & 0x03) * 64 + ((val >> 4) & 0x03) * 16 + ((val >> 2) & 0x03) * 4 + (val
        & 0x03) == val) by (bit_vector);
    assert(val & 0x03 <= 3 && (val >> 2) & 0x03 <= 3 && (val >> 4) & 0x03 <= 3 && (val >> 6) & 0x03
        <= 3) by (bit_vector);
    assert(shade_bits(shade_of_bits(val)) == val & 0x03);
    assert(shade_bits(shade_of_bits(val >> 2)) == (val >> 2) & 0x03);
    assert(shade_bits(shade_of_bits(val >> 4)) == (val >> 4) & 0x03);
    assert(shade_bits(shade_of_bits(val >> 6)) == (val >> 6) & 0x03);
}

} // verus!

verus! {

/// Bytes in one rendered scanline: 160 pixels of three channels.
pub const ROW_BYTES: usize = 480;

/// Bytes in a full rendered frame: 144 scanlines.
pub const FRAME_BYTES: usize = 69120;

/// The LCD controller: video memory, sprite memory, the LCD registers, and
/// the scanline state machine.
pub struct Vram {
    /// 0xFF40: LCD control.
    pub lcdc: Lcdc,
    /// 0xFF41: LCD status.
    pub stat: Stat,
    /// (0xFF43, 0xFF42): scroll X and scroll Y of the background.
    pub scroll_coords: (u8, u8),
    /// 0xFF44: the scanline the controller is on, 0..=153; 144..=153 is the
    /// vertical blank. A write resets it to zero.
    pub ly: u8,
    /// 0xFF45: compared against LY for the coincidence flag and interrupt.
    pub lyc: u8,
    /// 0xFF47: background and window palette.
    pub bgp: PaletteData,
    /// 0xFF48: sprite palette 0; color 0 is transparent.
    pub obp0: PaletteData,
    /// 0xFF49: sprite palette 1; color 0 is transparent.
    pub obp1: PaletteData,
    /// (0xFF4B, 0xFF4A): window X (offset by 7) and window Y.
    pub window_coords: (u8, u8),
    /// The window's private line counter: it advances only on scanlines the
    /// window actually drew, and resets at the top of each frame.
    pub window_line: u8,
    /// Dots spent in the current scanline, 0..456.
    pub scanline_cycles: usize,
    /// The rendered screen, one byte per RGB channel, row by row.
    pub screen_data: Vec<u8>,
    /// 8 KiB of video memory at 0x8000.
    pub memory: Vec<u8>,
    /// 160 bytes of sprite attributes at 0xFE00.
    pub oam: Vec<u8>,
}

impl Vram {
    /// Structural invariant: buffer sizes and counter ranges.
    pub open spec fn wf(self) -> bool {
        &&& self.memory.len() == 0x2000
        &&& self.oam.len() == 160
        &&& self.screen_data.len() == FRAME_BYTES
        &&& self.ly <= 153
        &&& self.scanline_cycles < 456
        &&& (!self.lcdc.lcd_enable ==> self.ly == 0 && self.scanline_cycles == 0
            && self.stat.mode_flag == LCDMode::Mode0)
    }

    /// Height of a sprite in pixels, by LCDC bit 2.
    pub open spec fn sprite_height(self) -> int {
        if self.lcdc.obj_size_select {
            16
        } else {
            8
        }
    }
}

/// The color number, 0..=3, of a background or window tile pixel. `map_hi`
/// picks the tile map at 0x9C00 over 0x9800; `tx` and `ty` are pixel
/// coordinates in the 256x256 tile plane.
#[verifier::opaque]
pub open spec fn tile_pixel(v: Vram, map_hi: bool, tx: int, ty: int) -> int {
    let map_base: int = if map_hi {
        0x1C00
    } else {
        0x1800
    };
    let tile_idx = v.memory[map_base + (ty / 8) * 32 + tx / 8];
    let tile_off: int = if v.lcdc.tile_data_select {
        tile_idx * 16
    } else if tile_idx < 128 {
        0x1000 + tile_idx * 16
    } else {
        0x0800 + (tile_idx - 128) * 16
    };
    let lo = v.memory[tile_off + (ty % 8) * 2];
    let hi = v.memory[tile_off + (ty % 8) * 2 + 1];
    let bit = (7 - tx % 8) as u8;
    ((hi >> bit) & 1) * 2 + ((lo >> bit) & 1)
}

/// Whether the window overlay covers screen column `x` of scanline `ly`.
pub open spec fn window_covers(v: Vram, ly: int, x: int) -> bool {
    &&& v.lcdc.window_enable
    &&& ly >= v.window_coords.1
    &&& x + 7 >= v.window_coords.0
}

/// Whether the window drew any pixel at all on scanline `ly`, which is what
/// advances the window's private line counter.
pub open spec fn window_drew_row(v: Vram, ly: int) -> bool {
    v.lcdc.window_enable && ly >= v.window_coords.1 && v.window_coords.0 <= 166
}

/// The color number under the sprite layer at a screen pixel: the window
/// pixel where the window covers, else the scrolled background pixel, else
/// color 0 with the background switched off.
#[verifier::opaque]
pub open spec fn bgwin_index(v: Vram, ly: int, x: int) -> int {
    if window_covers(v, ly, x) {
        tile_pixel(v, v.lcdc.window_tile_map_select, x + 7 - v.window_coords.0, v.window_line as int)
    } else if v.lcdc.background_enable {
        tile_pixel(
            v,
            v.lcdc.background_tile_map_select,
            (x + v.scroll_coords.0) % 256,
            (ly + v.scroll_coords.1) % 256,
        )
    } else {
        0
    }
}

/// The RGB channel value of the background layer at a screen pixel; a
/// switched-off background shows white.
#[verifier::opaque]
pub open spec fn bgwin_rgb(v: Vram, ly: int, x: int) -> u8 {
    if window_covers(v, ly, x) || v.lcdc.background_enable {
        shade_rgb(palette_shade(v.bgp, bgwin_index(v, ly, x)))
    } else {
        255
    }
}

/// Whether OAM sprite `i` covers scanline `ly`.
pub open spec fn sprite_covers_row(v: Vram, i: int, ly: int) -> bool {
    let y = v.oam[4 * i];
    y - 16 <= ly < y - 16 + v.sprite_height()
}

/// Whether OAM sprite `i` covers screen column `px`.
pub open spec fn sprite_covers_col(v: Vram, i: int, px: int) -> bool {
    let sx = v.oam[4 * i + 1];
    sx - 8 <= px < sx
}

/// The OAM indices the controller selects for a scanline after scanning the
/// first `n` entries: the first ten sprites, in OAM order, whose vertical
/// range covers the line.
#[verifier::opaque]
pub open spec fn selected_upto(v: Vram, ly: int, n: int) -> Seq<int>
    decreases n,
{
    if n <= 0 {
        Seq::empty()
    } else {
        let prev = selected_upto(v, ly, n - 1);
        if prev.len() < 10 && sprite_covers_row(v, n - 1, ly) {
            prev.push(n - 1)
        } else {
            prev
        }
    }
}

/// The sprites selected for a scanline.
pub open spec fn selected_sprites(v: Vram, ly: int) -> Seq<int> {
    selected_upto(v, ly, 40)
}

/// The color number, 0..=3, of sprite `i` at screen pixel (`px`, `ly`),
/// honouring the X and Y flip attributes; 0 is transparent.
#[verifier::opaque]
pub open spec fn sprite_pixel_index(v: Vram, i: int, ly: int, px: int) -> int {
    let y = v.oam[4 * i];
    let sx = v.oam[4 * i + 1];
    let tile = v.oam[4 * i + 2];
    let attr = v.oam[4 * i + 3];
    let h = v.sprite_height();
    let r0 = ly - (y - 16);
    let r: int = if attr & 0x40 != 0 {
        h - 1 - r0
    } else {
        r0
    };
    let c0 = px - (sx - 8);
    let c: int = if attr & 0x20 != 0 {
        7 - c0
    } else {
        c0
    };
    let t: int = if h == 16 {
        (tile & 0xFE) as int
    } else {
        tile as int
    };
    let off = t * 16 + r * 2;
    let lo = v.memory[off];
    let hi = v.memory[off + 1];
    let bit = (7 - c) as u8;
    ((hi >> bit) & 1) * 2 + ((lo >> bit) & 1)
}

/// Whether selected sprite `i` contributes an opaque pixel at `px`.
pub open spec fn sprite_qualifies(v: Vram, i: int, ly: int, px: int) -> bool {
    sprite_covers_col(v, i, px) && sprite_pixel_index(v, i, ly, px) != 0
}

/// The winning sprite at a pixel after considering the first `k` selected
/// sprites: the opaque one with the smallest X, ties to the earliest OAM
/// entry.
#[verifier::opaque]
pub open spec fn winner_upto(v: Vram, ly: int, px: int, k: int) -> Option<int>
    decreases k,
{
    if k <= 0 {
        Option::None
    } else {
        let prev = winner_upto(v, ly, px, k - 1);
        let cand = selected_sprites(v, ly)[k - 1];
        if !sprite_qualifies(v, cand, ly, px) {
            prev
        } else {
            match prev {
                Option::None => Option::Some(cand),
                Option::Some(b) => if v.oam[4 * cand + 1] < v.oam[4 * b + 1] {
                    Option::Some(cand)
                } else {
                    Option::Some(b)
                },
            }
        }
    }
}

/// The sprite drawn on top at a pixel, if any.
pub open spec fn sprite_winner(v: Vram, ly: int, px: int) -> Option<int> {
    winner_upto(v, ly, px, selected_sprites(v, ly).len() as int)
}

/// The RGB channel value of the sprite layer composed over an already-drawn
/// background byte `under`: the winner's palette shade, unless its
/// behind-background attribute defers to a non-zero background pixel.
#[verifier::opaque]
pub open spec fn sprite_over_rgb(v: Vram, ly: int, px: int, under: u8) -> u8 {
    match sprite_winner(v, ly, px) {
        Option::None => under,
        Option::Some(i) => {
            let attr = v.oam[4 * i + 3];
            if attr & 0x80 != 0 && bgwin_index(v, ly, px) != 0 {
                under
            } else {
                shade_rgb(
                    palette_shade(
                        if attr & 0x10 != 0 {
                            v.obp1
                        } else {
                            v.obp0
                        },
                        sprite_pixel_index(v, i, ly, px),
                    ),
                )
            }
        },
    }
}

/// The final RGB channel value of a screen pixel on scanline `ly`: the
/// background layer with the sprite layer composed over it when sprites are
/// enabled.
#[verifier::opaque]
pub open spec fn row_pixel_rgb(v: Vram, ly: int, px: int) -> u8 {
    if v.lcdc.obj_enable {
        sprite_over_rgb(v, ly, px, bgwin_rgb(v, ly, px))
    } else {
        bgwin_rgb(v, ly, px)
    }
}

} // verus!

verus! {

/// Fields of the controller that rendering reads but never writes: a
/// scanline draw may touch only the screen buffer.
pub open spec fn same_except_screen(a: Vram, b: Vram) -> bool {
    &&& a.lcdc == b.lcdc
    &&& a.stat == b.stat
    &&& a.scroll_coords == b.scroll_coords
    &&& a.ly == b.ly
    &&& a.lyc == b.lyc
    &&& a.bgp == b.bgp
    &&& a.obp0 == b.obp0
    &&& a.obp1 == b.obp1
    &&& a.window_coords == b.window_coords
    &&& a.window_line == b.window_line
    &&& a.scanline_cycles == b.scanline_cycles
    &&& a.memory@ == b.memory@
    &&& a.oam@ == b.oam@
}

/// Sprite selection depends only on OAM and LCDC.
pub proof fn lemma_selected_congruent(a: Vram, b: Vram, ly: int, n: int)
    requires
        a.oam@ == b.oam@,
        a.lcdc == b.lcdc,
    ensures
        selected_upto(a, ly, n) == selected_upto(b, ly, n),
    decreases n,
{
    reveal(selected_upto);
    if n > 0 {
        lemma_selected_congruent(a, b, ly, n - 1);
    }
}

/// The winning sprite depends only on OAM, VRAM and LCDC.
pub proof fn lemma_winner_congruent(a: Vram, b: Vram, ly: int, px: int, k: int)
    requires
        a.oam@ == b.oam@,
        a.lcdc == b.lcdc,
        a.memory@ == b.memory@,
    ensures
        winner_upto(a, ly, px, k) == winner_upto(b, ly, px, k),
    decreases k,
{
    reveal(winner_upto);
    reveal(sprite_pixel_index);
    lemma_selected_congruent(a, b, ly, 40);
    if k > 0 {
        lemma_winner_congruent(a, b, ly, px, k - 1);
    }
}

/// A shifted-out bit is zero or one.
proof fn lemma_bit01(x: u8, b: u8)
    by (bit_vector)
    ensures
        ((x >> b) & 1) <= 1,
{
}

impl Vram {
    /// The controller at power-on: LCD running at the top of the frame,
    /// memories cleared, palettes white.
    pub fn power_on() -> (r: Self)
        ensures
            r.wf(),
            r.lcdc == (Lcdc {
                lcd_enable: true,
                window_tile_map_select: false,
                window_enable: false,
                tile_data_select: true,
                background_tile_map_select: false,
                obj_size_select: false,
                obj_enable: false,
                background_enable: true,
            }),
            r.stat.mode_flag == LCDMode::Mode2,
            !r.stat.lyc_ly_interrupt,
            !r.stat.oam_interrupt,
            !r.stat.vblank_interrupt,
            !r.stat.hblank_interrupt,
            !r.stat.lyc_ly_flag,
            r.scroll_coords == (0u8, 0u8),
            r.ly == 0,
            r.lyc == 0,
            r.bgp == (PaletteData {
                color0: GrayShades::White,
                color1: GrayShades::White,
                color2: GrayShades::White,
                color3: GrayShades::White,
            }),
            r.obp0 == r.bgp,
            r.obp1 == r.bgp,
            r.window_coords == (0u8, 0u8),
            r.window_line == 0,
            r.scanline_cycles == 0,
            r.screen_data@ == Seq::<u8>::new(FRAME_BYTES as nat, |i: int| 0u8),
            r.memory@ == Seq::<u8>::new(0x2000, |i: int| 0u8),
            r.oam@ == Seq::<u8>::new(160, |i: int| 0u8),
    {
        Vram {
            lcdc: Lcdc::power_on(),
            stat: Stat::power_on(),
            scroll_coords: (0x0, 0x0),
            ly: 0x0,
            lyc: 0x0,
            bgp: PaletteData::init(),
            obp0: PaletteData::init(),
            obp1: PaletteData::init(),
            window_coords: (0x0, 0x0),
            window_line: 0,
            scanline_cycles: 0,
            screen_data: make_zero_vec(FRAME_BYTES),
            memory: make_zero_vec(0x2000),
            oam: make_zero_vec(160),
        }
    }

    /// The color number of a background or window tile pixel, straight from
    /// video memory.
    fn tile_pixel_at(&self, map_hi: bool, tx: usize, ty: usize) -> (c: u8)
        requires
            self.wf(),
            tx < 256,
            ty < 256,
        ensures
            c == tile_pixel(*self, map_hi, tx as int, ty as int),
            c <= 3,
    {
        proof {
            reveal(tile_pixel);
        }
        let map_base: usize = if map_hi {
            0x1C00
        } else {
            0x1800
        };
        let tile_idx = self.memory[map_base + (ty / 8) * 32 + tx / 8];
        let tile_off: usize = if self.lcdc.tile_data_select {
            (tile_idx as usize) * 16
        } else if tile_idx < 128 {
            0x1000 + (tile_idx as usize) * 16
        } else {
            0x0800 + (tile_idx as usize - 128) * 16
        };
        let lo = self.memory[tile_off + (ty % 8) * 2];
        let hi = self.memory[tile_off + (ty % 8) * 2 + 1];
        let bit = (7 - (tx % 8)) as u8;
        proof {
            lemma_bit01(hi, bit);
            lemma_bit01(lo, bit);
        }
        ((hi >> bit) & 1) * 2 + ((lo >> bit) & 1)
    }

    /// The RGB value a palette maps a color number to.
    fn shade_for(p: &PaletteData, idx: u8) -> (r: u8)
        requires
            idx <= 3,
        ensures
            r == shade_rgb(palette_shade(*p, idx as int)),
    {
        let s = if idx == 0 {
            p.color0
        } else if idx == 1 {
            p.color1
        } else if idx == 2 {
            p.color2
        } else {
            p.color3
        };
        match s {
            GrayShades::White => 255,
            GrayShades::LightGray => 170,
            GrayShades::DarkGray => 85,
            GrayShades::Black => 0,
        }
    }

    /// The color number of the background layer at a screen pixel of the
    /// current scanline.
    fn bgwin_index_at(&self, px: usize) -> (c: u8)
        requires
            self.wf(),
            px < 160,
            self.ly < 144,
        ensures
            c == bgwin_index(*self, self.ly as int, px as int),
            c <= 3,
    {
        proof {
            reveal(bgwin_index);
        }
        let covers = self.lcdc.window_enable && self.ly >= self.window_coords.1 && px + 7
            >= self.window_coords.0 as usize;
        if covers {
            let tx = px + 7 - self.window_coords.0 as usize;
            self.tile_pixel_at(self.lcdc.window_tile_map_select, tx, self.window_line as usize)
        } else if self.lcdc.background_enable {
            let tx = (px + self.scroll_coords.0 as usize) % 256;
            let ty = (self.ly as usize + self.scroll_coords.1 as usize) % 256;
            self.tile_pixel_at(self.lcdc.background_tile_map_select, tx, ty)
        } else {
            0
        }
    }

    /// The RGB value of the background layer at a screen pixel of the
    /// current scanline.
    fn bgwin_rgb_at(&self, px: usize) -> (r: u8)
        requires
            self.wf(),
            px < 160,
            self.ly < 144,
        ensures
            r == bgwin_rgb(*self, self.ly as int, px as int),
    {
        proof {
            reveal(bgwin_rgb);
        }
        let covers = self.lcdc.window_enable && self.ly >= self.window_coords.1 && px + 7
            >= self.window_coords.0 as usize;
        if covers || self.lcdc.background_enable {
            let c = self.bgwin_index_at(px);
            Self::shade_for(&self.bgp, c)
        } else {
            255
        }
    }

    /// The color number of a sprite at a screen pixel it covers, honouring
    /// the flip attributes; 0 is transparent.
    fn sprite_pixel_at(&self, i: usize, px: usize) -> (c: u8)
        requires
            self.wf(),
            i < 40,
            px < 160,
            self.ly < 144,
            sprite_covers_row(*self, i as int, self.ly as int),
            sprite_covers_col(*self, i as int, px as int),
        ensures
            c == sprite_pixel_index(*self, i as int, self.ly as int, px as int),
            c <= 3,
    {
        proof {
            reveal(sprite_pixel_index);
        }
        let y = self.oam[4 * i];
        let sx = self.oam[4 * i + 1];
        let tile = self.oam[4 * i + 2];
        let attr = self.oam[4 * i + 3];
        let h: usize = if self.lcdc.obj_size_select {
            16
        } else {
            8
        };
        let r0 = self.ly as usize + 16 - y as usize;
        let r = if attr & 0x40 != 0 {
            h - 1 - r0
        } else {
            r0
        };
        let c0 = px + 8 - sx as usize;
        let c = if attr & 0x20 != 0 {
            7 - c0
        } else {
            c0
        };
        let t: usize = if h == 16 {
            (tile & 0xFE) as usize
        } else {
            tile as usize
        };
        proof {
            assert((tile & 0xFE) <= 254) by (bit_vector);
        }
        let off = t * 16 + r * 2;
        let lo = self.memory[off];
        let hi = self.memory[off + 1];
        let bit = (7 - c) as u8;
        proof {
            lemma_bit01(hi, bit);
            lemma_bit01(lo, bit);
        }
        ((hi >> bit) & 1) * 2 + ((lo >> bit) & 1)
    }

    /// Request the frame to display. During vertical blank the last
    /// completed frame comes back; with the LCD switched off the screen
    /// shows plain white; otherwise no frame is due.
    pub fn request_frame(&self) -> (r: Option<Vec<u8>>)
        requires
            self.wf(),
        ensures
            !self.lcdc.lcd_enable ==> r is Some && r->0@ == Seq::<u8>::new(
                FRAME_BYTES as nat,
                |i: int| 255u8,
            ),
            self.lcdc.lcd_enable && self.stat.mode_flag == LCDMode::Mode1 ==> r is Some && r->0@
                == self.screen_data@,
            self.lcdc.lcd_enable && self.stat.mode_flag != LCDMode::Mode1 ==> r is None,
    {
        if !self.lcdc.lcd_enable {
            Some(make_filled_vec(FRAME_BYTES, 255))
        } else if matches!(self.stat.mode_flag, LCDMode::Mode1) {
            Some(clone_bytes(&self.screen_data))
        } else {
            None
        }
    }
}

} // verus!

verus! {

impl Vram {
    /// Render the background and window layers of the current scanline into
    /// the screen buffer. Every pixel of row LY becomes the background
    /// layer's RGB value; no other byte of the screen changes.
    pub fn draw_background(&mut self)
        requires
            old(self).wf(),
            old(self).ly < 144,
        ensures
            final(self).wf(),
            same_except_screen(*old(self), *final(self)),
            final(self).screen_data@.len() == FRAME_BYTES,
            forall|i: int|
                0 <= i < FRAME_BYTES && !(old(self).ly * 480 <= i < old(self).ly * 480 + 480)
                    ==> final(self).screen_data@[i] == old(self).screen_data@[i],
            forall|i: int|
                old(self).ly * 480 <= i < old(self).ly * 480 + 480
                    ==> final(self).screen_data@[i] == bgwin_rgb(
                    *old(self),
                    old(self).ly as int,
                    (i - old(self).ly * 480) / 3,
                ),
    {
        let base: usize = (self.ly as usize) * 480;
        let mut px: usize = 0;
        while px < 160
            invariant
                self.wf(),
                self.ly < 144,
                base == self.ly * 480,
                px <= 160,
                same_except_screen(*old(self), *self),
                self.screen_data@.len() == FRAME_BYTES,
                forall|i: int|
                    0 <= i < FRAME_BYTES && !(base <= i < base + 480) ==> self.screen_data@[i]
                        == old(self).screen_data@[i],
                forall|i: int|
                    base <= i < base + 3 * px ==> self.screen_data@[i] == bgwin_rgb(
                        *old(self),
                        self.ly as int,
                        (i - base) / 3,
                    ),
                forall|i: int|
                    base + 3 * px <= i < base + 480 ==> self.screen_data@[i] == old(self).screen_data@[i],
            decreases 160 - px,
        {
            let rgb = self.bgwin_rgb_at(px);
            proof {
                reveal(bgwin_rgb);
                reveal(bgwin_index);
                reveal(tile_pixel);
                assert(bgwin_rgb(*self, self.ly as int, px as int) == bgwin_rgb(
                    *old(self),
                    self.ly as int,
                    px as int,
                ));
            }
            self.screen_data[base + 3 * px] = rgb;
            self.screen_data[base + 3 * px + 1] = rgb;
            self.screen_data[base + 3 * px + 2] = rgb;
            px = px + 1;
            proof {
                assert forall|i: int| base <= i < base + 3 * px implies self.screen_data@[i]
                    == bgwin_rgb(*old(self), self.ly as int, (i - base) / 3) by {
                    if base + 3 * (px - 1) <= i {
                        assert((i - base) / 3 == px - 1);
                    }
                }
            }
        }
    }

    /// Overlay the sprite layer on the current scanline. Each pixel of row
    /// LY either keeps the byte already drawn or takes the winning sprite's
    /// palette shade, by the X-then-OAM-order priority rule and the
    /// behind-background attribute; no other byte changes.
    pub fn draw_sprites(&mut self)
        requires
            old(self).wf(),
            old(self).ly < 144,
        ensures
            final(self).wf(),
            same_except_screen(*old(self), *final(self)),
            final(self).screen_data@.len() == FRAME_BYTES,
            forall|i: int|
                0 <= i < FRAME_BYTES && !(old(self).ly * 480 <= i < old(self).ly * 480 + 480)
                    ==> final(self).screen_data@[i] == old(self).screen_data@[i],
            forall|i: int|
                old(self).ly * 480 <= i < old(self).ly * 480 + 480
                    ==> final(self).screen_data@[i] == sprite_over_rgb(
                    *old(self),
                    old(self).ly as int,
                    (i - old(self).ly * 480) / 3,
                    old(self).screen_data@[i],
                ),
    {
        let ghost ly = self.ly as int;
        let base: usize = (self.ly as usize) * 480;
        // Scan OAM for the first ten sprites covering this scanline.
        let h: usize = if self.lcdc.obj_size_select {
            16
        } else {
            8
        };
        let mut sel: Vec<usize> = Vec::new();
        let mut i: usize = 0;
        proof {
            reveal(selected_upto);
        }
        while i < 40
            invariant
                self.wf(),
                self.ly < 144,
                *self == *old(self),
                h == old(self).sprite_height(),
                i <= 40,
                sel@.len() == selected_upto(*old(self), old(self).ly as int, i as int).len(),
                forall|j: int|
                    0 <= j < sel@.len() ==> sel@[j] == selected_upto(
                        *old(self),
                        old(self).ly as int,
                        i as int,
                    )[j] && #[trigger] sel@[j] < 40,
                sel@.len() <= 10,
            decreases 40 - i,
        {
            proof {
                reveal(selected_upto);
            }
            let y = self.oam[4 * i];
            let ly_now = self.ly as usize;
            if sel.len() < 10 && ly_now + 16 >= y as usize && ly_now + 16 < y as usize + h {
                sel.push(i);
            }
            i = i + 1;
        }
        // Compose each pixel of the row.
        let mut px: usize = 0;
        while px < 160
            invariant
                self.wf(),
                self.ly < 144,
                base == self.ly * 480,
                px <= 160,
                same_except_screen(*old(self), *self),
                self.screen_data@.len() == FRAME_BYTES,
                sel@.len() == selected_sprites(*old(self), old(self).ly as int).len(),
                forall|j: int|
                    0 <= j < sel@.len() ==> sel@[j] == selected_sprites(
                        *old(self),
                        old(self).ly as int,
                    )[j] && #[trigger] sel@[j] < 40,
                sel@.len() <= 10,
                forall|i: int|
                    0 <= i < FRAME_BYTES && !(base <= i < base + 480) ==> self.screen_data@[i]
                        == old(self).screen_data@[i],
                forall|i: int|
                    base <= i < base + 3 * px ==> self.screen_data@[i] == sprite_over_rgb(
                        *old(self),
                        old(self).ly as int,
                        (i - base) / 3,
                        old(self).screen_data@[i],
                    ),
                forall|i: int|
                    base + 3 * px <= i < base + 480 ==> self.screen_data@[i] == old(self).screen_data@[i],
            decreases 160 - px,
        {
            let ghost v0 = *old(self);
            let ghost lyi = old(self).ly as int;
            let mut found = false;
            let mut best: usize = 0;
            let mut best_sx: u8 = 0;
            let mut best_color: u8 = 0;
            let mut j: usize = 0;
            proof {
                reveal(winner_upto);
            }
            while j < sel.len()
                invariant
                    self.wf(),
                    self.ly < 144,
                    px < 160,
                    j <= sel.len(),
                    v0 == *old(self),
                    lyi == old(self).ly as int,
                    same_except_screen(*old(self), *self),
                    sel@.len() == selected_sprites(v0, lyi).len(),
                    forall|q: int|
                        0 <= q < sel@.len() ==> sel@[q] == selected_sprites(v0, lyi)[q]
                            && #[trigger] sel@[q] < 40,
                    (match winner_upto(v0, lyi, px as int, j as int) {
                        Option::None => found == false,
                        Option::Some(b) => found && best == b && best_sx == v0.oam@[4 * b + 1]
                            && best_color == sprite_pixel_index(v0, b, lyi, px as int) && 0 <= b
                            < 40 && best_color <= 3 && sprite_qualifies(v0, b, lyi, px as int),
                    }),
                decreases sel.len() - j,
            {
                let s = sel[j];
                let sx = self.oam[4 * s + 1];
                proof {
                    reveal(winner_upto);
                    assert(selected_sprites(v0, lyi)[j as int] == s);
                    lemma_selected_covers(v0, lyi, 40, j as int);
                    assert(sprite_covers_row(*self, s as int, lyi));
                }
                if px + 8 >= sx as usize && px < sx as usize {
                    let color = self.sprite_pixel_at(s, px);
                    proof {
                        reveal(sprite_pixel_index);
                        assert(sprite_pixel_index(*self, s as int, lyi, px as int)
                            == sprite_pixel_index(v0, s as int, lyi, px as int));
                    }
                    if color != 0 {
                        if !found || sx < best_sx {
                            found = true;
                            best = s;
                            best_sx = sx;
                            best_color = color;
                        }
                    }
                }
                j = j + 1;
            }
            proof {
                reveal(winner_upto);
                assert(sprite_winner(v0, lyi, px as int) == winner_upto(
                    v0,
                    lyi,
                    px as int,
                    sel@.len() as int,
                ));
            }
            if found {
                let attr = self.oam[4 * best + 3];
                let keep_under = if attr & 0x80 != 0 {
                    let bg = self.bgwin_index_at(px);
                    proof {
                        reveal(bgwin_index);
                        reveal(tile_pixel);
                        assert(bgwin_index(*self, lyi, px as int) == bgwin_index(
                            v0,
                            lyi,
                            px as int,
                        ));
                    }
                    bg != 0
                } else {
                    false
                };
                if !keep_under {
                    let pal = if attr & 0x10 != 0 {
                        &self.obp1
                    } else {
                        &self.obp0
                    };
                    let rgb = Self::shade_for(pal, best_color);
                    self.screen_data[base + 3 * px] = rgb;
                    self.screen_data[base + 3 * px + 1] = rgb;
                    self.screen_data[base + 3 * px + 2] = rgb;
                }
            }
            px = px + 1;
            proof {
                reveal(sprite_over_rgb);
                assert forall|i: int| base <= i < base + 3 * px implies self.screen_data@[i]
                    == sprite_over_rgb(v0, lyi, (i - base) / 3, old(self).screen_data@[i]) by {
                    if base + 3 * (px - 1) <= i {
                        assert((i - base) / 3 == px - 1);
                    }
                }
            }
        }
    }
}

/// Every sprite the scan selects covers the scanline.
proof fn lemma_selected_covers(v: Vram, ly: int, n: int, j: int)
    requires
        0 <= j < selected_upto(v, ly, n).len(),
    ensures
        0 <= selected_upto(v, ly, n)[j] < n,
        sprite_covers_row(v, selected_upto(v, ly, n)[j], ly),
    decreases n,
{
    reveal(selected_upto);
    if n > 0 {
        let prev = selected_upto(v, ly, n - 1);
        if j < prev.len() {
            lemma_selected_covers(v, ly, n - 1, j);
        }
    }
}

} // verus!

verus! {

impl Vram {
    /// Whether an update call does anything at all: the LCD must run and
    /// time must pass.
    pub open spec fn upd_active(self, cycles: usize) -> bool {
        self.lcdc.lcd_enable && cycles > 0
    }

    /// Whether adding `cycles` dots finishes the current scanline.
    pub open spec fn upd_wrapped(self, cycles: usize) -> bool {
        self.scanline_cycles + cycles >= 456
    }

    /// Dots into the (possibly next) scanline after the update.
    pub open spec fn upd_sc(self, cycles: usize) -> int {
        if self.upd_wrapped(cycles) {
            self.scanline_cycles + cycles - 456
        } else {
            self.scanline_cycles + cycles
        }
    }

    /// The scanline after the update; LY wraps from 153 to 0.
    pub open spec fn upd_ly(self, cycles: usize) -> int {
        if self.upd_wrapped(cycles) {
            (self.ly + 1) % 154
        } else {
            self.ly as int
        }
    }

    /// The coincidence flag after the update: recomputed against LYC
    /// whenever a new scanline begins.
    pub open spec fn upd_coincidence(self, cycles: usize) -> bool {
        if self.upd_wrapped(cycles) {
            self.upd_ly(cycles) == self.lyc
        } else {
            self.stat.lyc_ly_flag
        }
    }

    /// The mode after the update, from the scanline and its dot window:
    /// vertical blank on lines 144..=153; otherwise OAM scan for dots 0..80,
    /// pixel transfer for dots 80..252, horizontal blank for the rest.
    pub open spec fn upd_mode(self, cycles: usize) -> LCDMode {
        if self.upd_ly(cycles) >= 144 {
            LCDMode::Mode1
        } else if self.upd_sc(cycles) < 80 {
            LCDMode::Mode2
        } else if self.upd_sc(cycles) < 252 {
            LCDMode::Mode3
        } else {
            LCDMode::Mode0
        }
    }

    /// Whether this update raises the LY = LYC status interrupt.
    pub open spec fn upd_lyc_event(self, cycles: usize) -> bool {
        self.upd_wrapped(cycles) && self.upd_coincidence(cycles) && self.stat.lyc_ly_interrupt
    }

    /// Whether this update enters the vertical blank.
    pub open spec fn upd_vblank_event(self, cycles: usize) -> bool {
        self.upd_mode(cycles) == LCDMode::Mode1 && self.stat.mode_flag != LCDMode::Mode1
    }

    /// Whether this update enters OAM scan.
    pub open spec fn upd_mode2_event(self, cycles: usize) -> bool {
        self.upd_mode(cycles) == LCDMode::Mode2 && self.stat.mode_flag != LCDMode::Mode2
    }

    /// Whether this update enters horizontal blank, which renders the line.
    pub open spec fn upd_mode0_event(self, cycles: usize) -> bool {
        self.upd_mode(cycles) == LCDMode::Mode0 && self.stat.mode_flag != LCDMode::Mode0
    }

    /// The interrupts this update raises, in order. The LCDStat line is
    /// edge-triggered on the OR of its sources, so at most one LCDStat is
    /// raised per transition; entering the vertical blank always raises
    /// VBlank itself exactly once.
    pub open spec fn upd_interrupts(self, cycles: usize) -> Seq<InterruptKind> {
        (if self.upd_lyc_event(cycles) {
            seq![InterruptKind::LcdStat]
        } else {
            Seq::empty()
        }) + (if self.upd_vblank_event(cycles) {
            seq![InterruptKind::VBlank] + (if self.stat.vblank_interrupt && !self.upd_lyc_event(
                cycles,
            ) {
                seq![InterruptKind::LcdStat]
            } else {
                Seq::empty()
            })
        } else {
            Seq::empty()
        }) + (if self.upd_mode2_event(cycles) && self.stat.oam_interrupt && !self.upd_lyc_event(
            cycles,
        ) {
            seq![InterruptKind::LcdStat]
        } else {
            Seq::empty()
        }) + (if self.upd_mode0_event(cycles) && self.stat.hblank_interrupt && !self.upd_lyc_event(
            cycles,
        ) {
            seq![InterruptKind::LcdStat]
        } else {
            Seq::empty()
        })
    }

    /// The window line counter before any render of this update: it resets
    /// at the top of each frame.
    pub open spec fn upd_wl_base(self, cycles: usize) -> u8 {
        if self.upd_wrapped(cycles) && self.upd_ly(cycles) == 0 {
            0
        } else {
            self.window_line
        }
    }

    /// The window line counter after the update: it advances past a
    /// rendered scanline that the window drew on.
    pub open spec fn upd_window_line(self, cycles: usize) -> u8 {
        if self.upd_mode0_event(cycles) && window_drew_row(self, self.upd_ly(cycles)) {
            ((self.upd_wl_base(cycles) + 1) % 256) as u8
        } else {
            self.upd_wl_base(cycles)
        }
    }

    /// The register and memory state a render of this update sees.
    pub open spec fn upd_render_state(self, cycles: usize) -> Vram {
        Vram { window_line: self.upd_wl_base(cycles), ..self }
    }

    /// Advance the LCD by an instruction's dot count: walk the scanline
    /// state machine, render a line on entering horizontal blank, and
    /// report the interrupts the transitions raise.
    #[verifier::rlimit(100)]
    #[verifier::spinoff_prover]
    pub fn update(&mut self, cycles: usize) -> (r: Option<Vec<InterruptKind>>)
        requires
            old(self).wf(),
            cycles <= 455,
        ensures
            final(self).wf(),
            !old(self).upd_active(cycles) ==> *final(self) == *old(self) && r is None,
            old(self).upd_active(cycles) ==> {
                &&& final(self).scanline_cycles == old(self).upd_sc(cycles)
                &&& final(self).ly == old(self).upd_ly(cycles)
                &&& final(self).stat.mode_flag == old(self).upd_mode(cycles)
                &&& final(self).stat.lyc_ly_flag == old(self).upd_coincidence(cycles)
                &&& final(self).stat.lyc_ly_interrupt == old(self).stat.lyc_ly_interrupt
                &&& final(self).stat.oam_interrupt == old(self).stat.oam_interrupt
                &&& final(self).stat.vblank_interrupt == old(self).stat.vblank_interrupt
                &&& final(self).stat.hblank_interrupt == old(self).stat.hblank_interrupt
                &&& final(self).lcdc == old(self).lcdc
                &&& final(self).scroll_coords == old(self).scroll_coords
                &&& final(self).lyc == old(self).lyc
                &&& final(self).bgp == old(self).bgp
                &&& final(self).obp0 == old(self).obp0
                &&& final(self).obp1 == old(self).obp1
                &&& final(self).window_coords == old(self).window_coords
                &&& final(self).window_line == old(self).upd_window_line(cycles)
                &&& final(self).memory@ == old(self).memory@
                &&& final(self).oam@ == old(self).oam@
                &&& (!old(self).upd_mode0_event(cycles) ==> final(self).screen_data@ == old(self).screen_data@)
                &&& final(self).screen_data@.len() == FRAME_BYTES
                &&& (old(self).upd_mode0_event(cycles) ==> forall|i: int|
                    0 <= i < FRAME_BYTES && !(old(self).upd_ly(cycles) * 480 <= i < old(self).upd_ly(cycles) * 480 + 480) ==> final(self).screen_data@[i] == old(self).screen_data@[i])
                &&& (old(self).upd_mode0_event(cycles) ==> forall|i: int|
                    old(self).upd_ly(cycles) * 480 <= i < old(self).upd_ly(cycles) * 480 + 480
                        ==> final(self).screen_data@[i] == row_pixel_rgb(
                        old(self).upd_render_state(cycles),
                        old(self).upd_ly(cycles),
                        (i - old(self).upd_ly(cycles) * 480) / 3,
                    ))
                &&& (old(self).upd_interrupts(cycles).len() == 0 ==> r is None)
                &&& (old(self).upd_interrupts(cycles).len() > 0 ==> r is Some && r->0@ == old(self).upd_interrupts(cycles))
            },
    {
        if !self.lcdc.lcd_enable || cycles == 0 {
            return None;
        }
        let ghost pre = *old(self);
        // Counters: finish the scanline when its 456 dots are spent.
        let wrapped = self.scanline_cycles + cycles >= 456;
        self.scanline_cycles = self.scanline_cycles + cycles;
        if wrapped {
            self.scanline_cycles = self.scanline_cycles - 456;
            self.ly = (self.ly + 1) % 154;
            if self.ly == 0 {
                self.window_line = 0;
            }
            self.stat.lyc_ly_flag = self.ly == self.lyc;
        }
        let lyc_event = wrapped && self.stat.lyc_ly_flag && self.stat.lyc_ly_interrupt;
        proof {
            assert(lyc_event == pre.upd_lyc_event(cycles));
            assert(self.ly == pre.upd_ly(cycles));
            assert(self.scanline_cycles == pre.upd_sc(cycles));
            assert(self.window_line == pre.upd_wl_base(cycles));
        }
        // Mode transition for the new dot position.
        let new_mode = if self.ly >= 144 {
            LCDMode::Mode1
        } else if self.scanline_cycles < 80 {
            LCDMode::Mode2
        } else if self.scanline_cycles < 252 {
            LCDMode::Mode3
        } else {
            LCDMode::Mode0
        };
        let old_mode = self.stat.mode_flag;
        let vblank_event = new_mode == LCDMode::Mode1 && old_mode != LCDMode::Mode1;
        let mode2_event = new_mode == LCDMode::Mode2 && old_mode != LCDMode::Mode2;
        let mode0_event = new_mode == LCDMode::Mode0 && old_mode != LCDMode::Mode0;
        self.stat.mode_flag = new_mode;
        proof {
            assert(new_mode == pre.upd_mode(cycles));
            assert(vblank_event == pre.upd_vblank_event(cycles));
            assert(mode2_event == pre.upd_mode2_event(cycles));
            assert(mode0_event == pre.upd_mode0_event(cycles));
        }
        // Entering horizontal blank renders the finished scanline.
        if mode0_event {
            let ghost v1 = *self;
            self.render_scanline();
            proof {
                let rstate = pre.upd_render_state(cycles);
                let lyi = pre.upd_ly(cycles);
                let base = lyi * 480;
                assert forall|i: int| base <= i < base + 480 implies self.screen_data@[i]
                    == row_pixel_rgb(rstate, lyi, (i - base) / 3) by {
                    let px = (i - base) / 3;
                    assert(self.screen_data@[i] == row_pixel_rgb(v1, lyi, px));
                    lemma_row_pixel_congruent(v1, rstate, lyi, px);
                }
            }
            if self.lcdc.window_enable && self.ly >= self.window_coords.1 && self.window_coords.0
                <= 166 {
                self.window_line = self.window_line.wrapping_add(1);
            }
        }
        // The interrupts the transitions raised, highest edge first.
        let mut interrupts: Vec<InterruptKind> = Vec::new();
        if lyc_event {
            interrupts.push(InterruptKind::LcdStat);
        }
        if vblank_event {
            interrupts.push(InterruptKind::VBlank);
            if self.stat.vblank_interrupt && !lyc_event {
                interrupts.push(InterruptKind::LcdStat);
            }
        }
        if mode2_event && self.stat.oam_interrupt && !lyc_event {
            interrupts.push(InterruptKind::LcdStat);
        }
        if mode0_event && self.stat.hblank_interrupt && !lyc_event {
            interrupts.push(InterruptKind::LcdStat);
        }
        proof {
            assert(interrupts@ =~= pre.upd_interrupts(cycles));
        }
        if interrupts.len() == 0 {
            None
        } else {
            Some(interrupts)
        }
    }
}

} // verus!

verus! {

/// A pixel's final value depends only on the registers and memories the
/// renderer reads, never on the scanline counters or STAT.
pub proof fn lemma_row_pixel_congruent(a: Vram, b: Vram, ly: int, px: int)
    requires
        a.oam@ == b.oam@,
        a.lcdc == b.lcdc,
        a.memory@ == b.memory@,
        a.bgp == b.bgp,
        a.obp0 == b.obp0,
        a.obp1 == b.obp1,
        a.scroll_coords == b.scroll_coords,
        a.window_coords == b.window_coords,
        a.window_line == b.window_line,
    ensures
        row_pixel_rgb(a, ly, px) == row_pixel_rgb(b, ly, px),
{
    reveal(row_pixel_rgb);
    reveal(sprite_over_rgb);
    reveal(bgwin_rgb);
    reveal(bgwin_index);
    reveal(tile_pixel);
    reveal(sprite_pixel_index);
    lemma_selected_congruent(a, b, ly, 40);
    lemma_winner_congruent(a, b, ly, px, selected_sprites(a, ly).len() as int);
    assert(sprite_winner(a, ly, px) == sprite_winner(b, ly, px));
}

impl Vram {
    /// Render the current scanline into the screen buffer: the background
    /// and window layers, then the sprite layer when sprites are enabled.
    #[verifier::rlimit(60)]
    pub fn render_scanline(&mut self)
        requires
            old(self).wf(),
            old(self).ly < 144,
        ensures
            final(self).wf(),
            same_except_screen(*old(self), *final(self)),
            final(self).screen_data@.len() == FRAME_BYTES,
            forall|i: int|
                0 <= i < FRAME_BYTES && !(old(self).ly * 480 <= i < old(self).ly * 480 + 480)
                    ==> final(self).screen_data@[i] == old(self).screen_data@[i],
            forall|i: int|
                old(self).ly * 480 <= i < old(self).ly * 480 + 480
                    ==> final(self).screen_data@[i] == row_pixel_rgb(
                    *old(self),
                    old(self).ly as int,
                    (i - old(self).ly * 480) / 3,
                ),
    {
        let ghost v1 = *old(self);
        let ghost lyi = old(self).ly as int;
        let ghost base = lyi * 480;
        self.draw_background();
        let ghost v2 = *self;
        if self.lcdc.obj_enable {
            self.draw_sprites();
            proof {
                reveal(row_pixel_rgb);
                reveal(sprite_over_rgb);
                reveal(bgwin_index);
                reveal(tile_pixel);
                reveal(sprite_pixel_index);
                assert forall|i: int| base <= i < base + 480 implies self.screen_data@[i]
                    == row_pixel_rgb(v1, lyi, (i - base) / 3) by {
                    let px = (i - base) / 3;
                    assert(0 <= px < 160);
                    assert(v2.screen_data@[i] == bgwin_rgb(v1, lyi, px));
                    assert(self.screen_data@[i] == sprite_over_rgb(
                        v2,
                        lyi,
                        px,
                        v2.screen_data@[i],
                    ));
                    lemma_selected_congruent(v2, v1, lyi, 40);
                    lemma_winner_congruent(v2, v1, lyi, px, selected_sprites(v2, lyi).len() as int);
                    assert(sprite_winner(v2, lyi, px) == sprite_winner(v1, lyi, px));
                }
            }
        } else {
            proof {
                reveal(row_pixel_rgb);
                assert forall|i: int| base <= i < base + 480 implies self.screen_data@[i]
                    == row_pixel_rgb(v1, lyi, (i - base) / 3) by {
                    let px = (i - base) / 3;
                    assert(self.screen_data@[i] == bgwin_rgb(v1, lyi, px));
                }
            }
        }
    }
}

} // verus!

verus! {

/// How a write to one of the controller's addresses changes it.
pub open spec fn ppu_write_effect(pre: Vram, post: Vram, addr: u16, val: u8) -> bool {
    &&& (0x8000 <= addr < 0xA000 ==> post == (Vram {
                memory: post.memory,
                ..pre
            }) && post.memory@ == pre.memory@.update(addr - 0x8000, val))
    &&& (0xFE00 <= addr < 0xFEA0 ==> post == (Vram {
                oam: post.oam,
                ..pre
            }) && post.oam@ == pre.oam@.update(addr - 0xFE00, val))
    &&& (addr == 0xFF40 ==> {
                &&& post.lcdc == (Lcdc {
                    lcd_enable: val & 0x80 != 0,
                    window_tile_map_select: val & 0x40 != 0,
                    window_enable: val & 0x20 != 0,
                    tile_data_select: val & 0x10 != 0,
                    background_tile_map_select: val & 0x08 != 0,
                    obj_size_select: val & 0x04 != 0,
                    obj_enable: val & 0x02 != 0,
                    background_enable: val & 0x01 != 0,
                })
                &&& (val & 0x80 == 0 ==> post.ly == 0 && post.scanline_cycles == 0
                    && post.stat.mode_flag == LCDMode::Mode0 && post.window_line
                    == 0)
                &&& (val & 0x80 != 0 ==> post.ly == pre.ly && post.scanline_cycles == pre.scanline_cycles && post.stat.mode_flag
                    == pre.stat.mode_flag && post.window_line == pre.window_line)
                &&& post.stat.lyc_ly_interrupt == pre.stat.lyc_ly_interrupt
                &&& post.stat.oam_interrupt == pre.stat.oam_interrupt
                &&& post.stat.vblank_interrupt == pre.stat.vblank_interrupt
                &&& post.stat.hblank_interrupt == pre.stat.hblank_interrupt
                &&& post.stat.lyc_ly_flag == pre.stat.lyc_ly_flag
                &&& post.scroll_coords == pre.scroll_coords
                &&& post.lyc == pre.lyc
                &&& post.bgp == pre.bgp
                &&& post.obp0 == pre.obp0
                &&& post.obp1 == pre.obp1
                &&& post.window_coords == pre.window_coords
                &&& post.screen_data@ == pre.screen_data@
                &&& post.memory@ == pre.memory@
                &&& post.oam@ == pre.oam@
            })
    &&& (addr == 0xFF41 ==> post == (Vram {
                stat: (Stat {
                    lyc_ly_interrupt: val & 0x40 != 0,
                    oam_interrupt: val & 0x20 != 0,
                    vblank_interrupt: val & 0x10 != 0,
                    hblank_interrupt: val & 0x08 != 0,
                    lyc_ly_flag: val & 0x04 != 0,
                    mode_flag: pre.stat.mode_flag,
                }),
                ..pre
            }))
    &&& (addr == 0xFF42 ==> post == (Vram {
                scroll_coords: (pre.scroll_coords.0, val),
                ..pre
            }))
    &&& (addr == 0xFF43 ==> post == (Vram {
                scroll_coords: (val, pre.scroll_coords.1),
                ..pre
            }))
    &&& (addr == 0xFF44 ==> post == (Vram { ly: 0, ..pre }))
    &&& (addr == 0xFF45 ==> post == (Vram { lyc: val, ..pre }))
    &&& (addr == 0xFF47 ==> post == (Vram {
                bgp: (PaletteData {
                    color0: shade_of_bits(val),
                    color1: shade_of_bits(val >> 2),
                    color2: shade_of_bits(val >> 4),
                    color3: shade_of_bits(val >> 6),
                }),
                ..pre
            }))
    &&& (addr == 0xFF48 ==> post == (Vram {
                obp0: (PaletteData {
                    color0: shade_of_bits(val),
                    color1: shade_of_bits(val >> 2),
                    color2: shade_of_bits(val >> 4),
                    color3: shade_of_bits(val >> 6),
                }),
                ..pre
            }))
    &&& (addr == 0xFF49 ==> post == (Vram {
                obp1: (PaletteData {
                    color0: shade_of_bits(val),
                    color1: shade_of_bits(val >> 2),
                    color2: shade_of_bits(val >> 4),
                    color3: shade_of_bits(val >> 6),
                }),
                ..pre
            }))
    &&& (addr == 0xFF4A ==> post == (Vram {
                window_coords: (pre.window_coords.0, val),
                ..pre
            }))
    &&& (addr == 0xFF4B ==> post == (Vram {
                window_coords: (val, pre.window_coords.1),
                ..pre
            }))
}

/// The addresses the LCD controller decodes: video memory, sprite memory,
/// and its register file (the DMA trigger 0xFF46 belongs to the bus).
pub open spec fn ppu_addr(addr: u16) -> bool {
    ||| 0x8000 <= addr < 0xA000
    ||| 0xFE00 <= addr < 0xFEA0
    ||| 0xFF40 <= addr <= 0xFF45
    ||| 0xFF47 <= addr <= 0xFF4B
}

impl Vram {
    /// The byte a read of one of the controller's addresses yields.
    pub open spec fn spec_read_byte(self, addr: u16) -> u8 {
        if 0x8000 <= addr < 0xA000 {
            self.memory[addr - 0x8000]
        } else if 0xFE00 <= addr < 0xFEA0 {
            self.oam[addr - 0xFE00]
        } else if addr == 0xFF40 {
            lcdc_byte(self.lcdc)
        } else if addr == 0xFF41 {
            stat_byte(self.stat)
        } else if addr == 0xFF42 {
            self.scroll_coords.1
        } else if addr == 0xFF43 {
            self.scroll_coords.0
        } else if addr == 0xFF44 {
            self.ly
        } else if addr == 0xFF45 {
            self.lyc
        } else if addr == 0xFF47 {
            palette_byte(self.bgp)
        } else if addr == 0xFF48 {
            palette_byte(self.obp0)
        } else if addr == 0xFF49 {
            palette_byte(self.obp1)
        } else if addr == 0xFF4A {
            self.window_coords.1
        } else {
            self.window_coords.0
        }
    }

    /// Read a byte from video memory, sprite memory or a register.
    pub fn read_byte(&self, addr: u16) -> (v: u8)
        requires
            self.wf(),
            ppu_addr(addr),
        ensures
            v == self.spec_read_byte(addr),
    {
        if 0x8000 <= addr && addr < 0xA000 {
            self.memory[(addr - 0x8000) as usize]
        } else if 0xFE00 <= addr && addr < 0xFEA0 {
            self.oam[(addr - 0xFE00) as usize]
        } else if addr == 0xFF40 {
            self.lcdc.read_byte(addr)
        } else if addr == 0xFF41 {
            self.stat.read_byte(addr)
        } else if addr == 0xFF42 {
            self.scroll_coords.1
        } else if addr == 0xFF43 {
            self.scroll_coords.0
        } else if addr == 0xFF44 {
            self.ly
        } else if addr == 0xFF45 {
            self.lyc
        } else if addr == 0xFF47 {
            self.bgp.read_byte(addr)
        } else if addr == 0xFF48 {
            self.obp0.read_byte(addr)
        } else if addr == 0xFF49 {
            self.obp1.read_byte(addr)
        } else if addr == 0xFF4A {
            self.window_coords.1
        } else {
            self.window_coords.0
        }
    }

    /// Write a byte to video memory, sprite memory or a register. A write
    /// to LY resets it; clearing the LCD-enable bit parks the controller at
    /// the top of the frame in horizontal blank.
    pub fn write_byte(&mut self, addr: u16, val: u8)
        requires
            old(self).wf(),
            ppu_addr(addr),
        ensures
            final(self).wf(),
            ppu_write_effect(*old(self), *final(self), addr, val),
    {
        if 0x8000 <= addr && addr < 0xA000 {
            self.memory[(addr - 0x8000) as usize] = val;
        } else if 0xFE00 <= addr && addr < 0xFEA0 {
            self.oam[(addr - 0xFE00) as usize] = val;
        } else if addr == 0xFF40 {
            self.lcdc.write_byte(addr, val);
            if !self.lcdc.lcd_enable {
                self.ly = 0;
                self.scanline_cycles = 0;
                self.stat.mode_flag = LCDMode::Mode0;
                self.window_line = 0;
            }
        } else if addr == 0xFF41 {
            self.stat.write_byte(addr, val);
        } else if addr == 0xFF42 {
            self.scroll_coords.1 = val;
        } else if addr == 0xFF43 {
            self.scroll_coords.0 = val;
        } else if addr == 0xFF44 {
            self.ly = 0;
        } else if addr == 0xFF45 {
            self.lyc = val;
        } else if addr == 0xFF47 {
            self.bgp.write_byte(addr, val);
        } else if addr == 0xFF48 {
            self.obp0.write_byte(addr, val);
        } else if addr == 0xFF49 {
            self.obp1.write_byte(addr, val);
        } else if addr == 0xFF4A {
            self.window_coords.1 = val;
        } else {
            self.window_coords.0 = val;
        }
    }
}

/// Entering the vertical blank raises VBlank exactly once: the interrupts
/// of an update contain VBlank exactly when the update crosses from
/// scanline 143 into 144, and never more than one of them.
pub proof fn lemma_vblank_exactly_once(v: Vram, cycles: usize)
    ensures
        v.upd_interrupts(cycles).contains(InterruptKind::VBlank) == v.upd_vblank_event(cycles),
        forall|i: int, j: int|
            0 <= i < v.upd_interrupts(cycles).len() && 0 <= j < v.upd_interrupts(cycles).len()
                && v.upd_interrupts(cycles)[i] == InterruptKind::VBlank && v.upd_interrupts(
                cycles,
            )[j] == InterruptKind::VBlank ==> i == j,
{
    let s = v.upd_interrupts(cycles);
    if v.upd_vblank_event(cycles) {
        let pos: int = if v.upd_lyc_event(cycles) {
            1
        } else {
            0
        };
        assert(s[pos] == InterruptKind::VBlank);
        assert(s.contains(InterruptKind::VBlank));
        assert forall|i: int| 0 <= i < s.len() && s[i] == InterruptKind::VBlank implies i
            == pos by {}
    } else {
        assert forall|i: int| 0 <= i < s.len() implies s[i] != InterruptKind::VBlank by {}
    }
}

} // verus!
