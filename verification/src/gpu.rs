//! The picture unit: its registers, its memory, and the clockwork that
//! takes it through the lines of a frame.

use crate::bits::{bit, byte_of, get_bit, lemma_bits_of_byte, lemma_byte_of_bits, pack};
use crate::gbmode::GbMode;
use crate::mbc::filled;
use vstd::prelude::*;

pub mod render;

verus! {

/// Size of video memory: two banks of 8 KiB.
pub const VRAM_SIZE: usize = 0x4000;

/// Size of the sprite table: forty sprites of four bytes.
pub const OAM_SIZE: usize = 0xA0;

/// Size of a colour palette memory: eight palettes of four colours of two
/// bytes.
pub const PALETTE_SIZE: usize = 64;

/// Size of the picture: 160 by 144 points of three bytes.
pub const PICTURE_SIZE: usize = 69120;

/// What the picture unit is doing.
#[derive(Debug, Clone, Copy, PartialEq, Eq, Structural)]
pub enum GpuMode {
    HBlank,
    VBlank,
    OamSearch,
    Transfer,
}

impl GpuMode {
    /// The number of the mode in STAT.
    pub open spec fn code(self) -> u8 {
        match self {
            GpuMode::HBlank => 0,
            GpuMode::VBlank => 1,
            GpuMode::OamSearch => 2,
            GpuMode::Transfer => 3,
        }
    }

    pub fn exec_code(self) -> (c: u8)
        ensures
            c == self.code(),
    {
        match self {
            GpuMode::HBlank => 0,
            GpuMode::VBlank => 1,
            GpuMode::OamSearch => 2,
            GpuMode::Transfer => 3,
        }
    }
}

/// The register LCDC, bit by bit.
#[derive(Debug, Clone, Copy, PartialEq, Eq, Structural)]
pub struct Lcdc {
    /// Bit 7: the display is on.
    pub lcd_on: bool,
    /// Bit 6: the window's map is the one at 0x9C00.
    pub win_map_high: bool,
    /// Bit 5: the window is shown.
    pub win_on: bool,
    /// Bit 4: background tiles are numbered from 0x8000, not around 0x9000.
    pub tile_data_low: bool,
    /// Bit 3: the background's map is the one at 0x9C00.
    pub bg_map_high: bool,
    /// Bit 2: sprites are 16 lines high.
    pub obj_tall: bool,
    /// Bit 1: sprites are shown.
    pub obj_on: bool,
    /// Bit 0: the background is shown or, with colours, keeps its right of
    /// way.
    pub bg_on: bool,
}

/// The interrupt enables of STAT.
#[derive(Debug, Clone, Copy, PartialEq, Eq, Structural)]
pub struct StatEnables {
    /// Bit 6: interrupt when LY meets LYC.
    pub lyc_inte: bool,
    /// Bit 5: interrupt on entering mode 2.
    pub m2_inte: bool,
    /// Bit 4: interrupt on entering mode 1.
    pub m1_inte: bool,
    /// Bit 3: interrupt on entering mode 0.
    pub m0_inte: bool,
}

/// Where the background is scrolled to and where the window lies.
#[derive(Debug, Clone, Copy, PartialEq, Eq, Structural)]
pub struct Viewport {
    pub scy: u8,
    pub scx: u8,
    pub wy: u8,
    pub wx: u8,
}

/// The palettes of the monochrome machine.
#[derive(Debug, Clone, Copy, PartialEq, Eq, Structural)]
pub struct MonoPalettes {
    pub bgp: u8,
    pub obp0: u8,
    pub obp1: u8,
}

/// The index register of a colour palette memory.
#[derive(Debug, Clone, Copy, PartialEq, Eq, Structural)]
pub struct PaletteIndex {
    /// The index moves on with every write of data.
    pub inc: bool,
    /// The byte that the data register stands for, from 0 to 63.
    pub index: u8,
}

/// The registers of the picture unit.
#[derive(Debug, Clone, Copy, PartialEq, Eq, Structural)]
pub struct GpuRegs {
    pub gbmode: GbMode,
    /// Cycles into the current line, from 0 to 455.
    pub dots: u16,
    /// The current line, from 0 to 153.
    pub ly: u8,
    pub lyc: u8,
    pub lcdc: Lcdc,
    pub inte: StatEnables,
    pub view: Viewport,
    pub mono: MonoPalettes,
    /// The bank of video memory that the processor sees, 0 or 1.
    pub vram_bank: u8,
    pub bg_index: PaletteIndex,
    pub obj_index: PaletteIndex,
    /// A frame was completed since the flag was last cleared.
    pub updated: bool,
}

/// The memory of the picture unit.
pub struct VideoMem {
    pub vram: Vec<u8>,
    pub oam: Vec<u8>,
    pub bg_palette: Vec<u8>,
    pub obj_palette: Vec<u8>,
}

/// The memory of the picture unit as a value.
pub struct VideoMemModel {
    pub vram: Seq<u8>,
    pub oam: Seq<u8>,
    pub bg_palette: Seq<u8>,
    pub obj_palette: Seq<u8>,
}

impl View for VideoMem {
    type V = VideoMemModel;

    open spec fn view(&self) -> VideoMemModel {
        VideoMemModel {
            vram: self.vram@,
            oam: self.oam@,
            bg_palette: self.bg_palette@,
            obj_palette: self.obj_palette@,
        }
    }
}

impl VideoMemModel {
    pub open spec fn wf(self) -> bool {
        &&& self.vram.len() == VRAM_SIZE
        &&& self.oam.len() == OAM_SIZE
        &&& self.bg_palette.len() == PALETTE_SIZE
        &&& self.obj_palette.len() == PALETTE_SIZE
    }
}

/// Cycles in a line.
pub const LINE_DOTS: u16 = 456;

/// Cycles of a line spent searching the sprite table.
pub const OAM_SEARCH_DOTS: u16 = 80;

/// Cycles into a line at which the horizontal blank begins.
pub const HBLANK_START: u16 = 252;

/// Lines of the picture.
pub const VISIBLE_LINES: u8 = 144;

/// Lines in a frame, the vertical blank included.
pub const FRAME_LINES: u8 = 154;

/// Cycles in a frame.
pub const FRAME_DOTS: u32 = 70224;

/// Bytes in a line of the picture.
pub const LINE_BYTES: usize = 480;

pub const LCDC: u16 = 0xFF40;

pub const STAT: u16 = 0xFF41;

pub const SCY: u16 = 0xFF42;

pub const SCX: u16 = 0xFF43;

pub const LY: u16 = 0xFF44;

pub const LYC: u16 = 0xFF45;

pub const BGP: u16 = 0xFF47;

pub const OBP0: u16 = 0xFF48;

pub const OBP1: u16 = 0xFF49;

pub const WY: u16 = 0xFF4A;

pub const WX: u16 = 0xFF4B;

pub const VBK: u16 = 0xFF4F;

pub const BCPS: u16 = 0xFF68;

pub const BCPD: u16 = 0xFF69;

pub const OCPS: u16 = 0xFF6A;

pub const OCPD: u16 = 0xFF6B;

/// What the picture unit asks of the rest of the machine.
#[derive(Debug, Clone, Copy, PartialEq, Eq, Structural)]
pub struct GpuEvents {
    /// The vertical blank began: the VBlank interrupt is requested.
    pub vblank: bool,
    /// A source of the STAT interrupt that is enabled fired.
    pub stat: bool,
    /// A horizontal blank began.
    pub hblank: bool,
}

impl GpuEvents {
    pub open spec fn none() -> GpuEvents {
        GpuEvents { vblank: false, stat: false, hblank: false }
    }

    /// The events of two stretches of time taken together.
    pub open spec fn or(self, other: GpuEvents) -> GpuEvents {
        GpuEvents {
            vblank: self.vblank || other.vblank,
            stat: self.stat || other.stat,
            hblank: self.hblank || other.hblank,
        }
    }
}

impl GpuRegs {
    pub open spec fn wf(self) -> bool {
        &&& self.dots < LINE_DOTS
        &&& self.ly < FRAME_LINES
        &&& self.vram_bank < 2
        &&& self.bg_index.index < PALETTE_SIZE
        &&& self.obj_index.index < PALETTE_SIZE
    }

    /// The registers after power-on: display off, everything zero.
    pub open spec fn initial(gbmode: GbMode) -> GpuRegs {
        GpuRegs {
            gbmode,
            dots: 0,
            ly: 0,
            lyc: 0,
            lcdc: Lcdc {
                lcd_on: false,
                win_map_high: false,
                win_on: false,
                tile_data_low: false,
                bg_map_high: false,
                obj_tall: false,
                obj_on: false,
                bg_on: false,
            },
            inte: StatEnables { lyc_inte: false, m2_inte: false, m1_inte: false, m0_inte: false },
            view: Viewport { scy: 0, scx: 0, wy: 0, wx: 0 },
            mono: MonoPalettes { bgp: 0, obp0: 0, obp1: 0 },
            vram_bank: 0,
            bg_index: PaletteIndex { inc: false, index: 0 },
            obj_index: PaletteIndex { inc: false, index: 0 },
            updated: false,
        }
    }

    /// What the picture unit is doing. While the display is off, the mode
    /// reads 0.
    pub open spec fn mode(self) -> GpuMode {
        if !self.lcdc.lcd_on {
            GpuMode::HBlank
        } else if self.ly >= VISIBLE_LINES {
            GpuMode::VBlank
        } else if self.dots < OAM_SEARCH_DOTS {
            GpuMode::OamSearch
        } else if self.dots < HBLANK_START {
            GpuMode::Transfer
        } else {
            GpuMode::HBlank
        }
    }

    /// The register LCDC.
    pub open spec fn lcdc_byte(self) -> u8 {
        let l = self.lcdc;
        byte_of(
            l.lcd_on,
            l.win_map_high,
            l.win_on,
            l.tile_data_low,
            l.bg_map_high,
            l.obj_tall,
            l.obj_on,
            l.bg_on,
        )
    }

    /// The register STAT: bit 7 reads one, bits 6 to 3 are the interrupt
    /// enables, bit 2 tells whether LY meets LYC, bits 1 and 0 the mode.
    pub open spec fn stat(self) -> u8 {
        byte_of(
            true,
            self.inte.lyc_inte,
            self.inte.m2_inte,
            self.inte.m1_inte,
            self.inte.m0_inte,
            self.ly == self.lyc,
            self.mode().code() >= 2,
            self.mode().code() % 2 == 1,
        )
    }

    /// The bits of a value written to LCDC.
    pub open spec fn lcdc_of(v: u8) -> Lcdc {
        Lcdc {
            lcd_on: bit(v, 7),
            win_map_high: bit(v, 6),
            win_on: bit(v, 5),
            tile_data_low: bit(v, 4),
            bg_map_high: bit(v, 3),
            obj_tall: bit(v, 2),
            obj_on: bit(v, 1),
            bg_on: bit(v, 0),
        }
    }

    /// The registers after `v` was written to LCDC. Switching the display
    /// off or on puts the unit at the start of line 0.
    pub open spec fn with_lcdc(self, v: u8) -> GpuRegs {
        if bit(v, 7) != self.lcdc.lcd_on {
            GpuRegs { lcdc: Self::lcdc_of(v), ly: 0, dots: 0, ..self }
        } else {
            GpuRegs { lcdc: Self::lcdc_of(v), ..self }
        }
    }

    /// The registers after `v` was written to STAT: only the interrupt
    /// enables are taken.
    pub open spec fn with_stat(self, v: u8) -> GpuRegs {
        GpuRegs {
            inte: StatEnables {
                lyc_inte: bit(v, 6),
                m2_inte: bit(v, 5),
                m1_inte: bit(v, 4),
                m0_inte: bit(v, 3),
            },
            ..self
        }
    }

    /// The index register of a palette after `v` was written to it.
    pub open spec fn index_of(v: u8) -> PaletteIndex {
        PaletteIndex { inc: v >= 128, index: v % 64 }
    }

    /// The index register of a palette after data was written.
    pub open spec fn moved_on(i: PaletteIndex) -> PaletteIndex {
        if i.inc {
            PaletteIndex { index: ((i.index + 1) % 64) as u8, ..i }
        } else {
            i
        }
    }

    /// The registers after `v` was written to the register at `a`. LY
    /// cannot be written, and the registers that only the colour machine
    /// has cannot be written on the other. A write to the data register of
    /// a colour palette moves the index on by one, around the end, if the
    /// index register says so.
    pub open spec fn written(self, a: u16, v: u8) -> GpuRegs {
        if a == LCDC {
            self.with_lcdc(v)
        } else if a == STAT {
            self.with_stat(v)
        } else if a == SCY {
            GpuRegs { view: Viewport { scy: v, ..self.view }, ..self }
        } else if a == SCX {
            GpuRegs { view: Viewport { scx: v, ..self.view }, ..self }
        } else if a == LYC {
            GpuRegs { lyc: v, ..self }
        } else if a == BGP {
            GpuRegs { mono: MonoPalettes { bgp: v, ..self.mono }, ..self }
        } else if a == OBP0 {
            GpuRegs { mono: MonoPalettes { obp0: v, ..self.mono }, ..self }
        } else if a == OBP1 {
            GpuRegs { mono: MonoPalettes { obp1: v, ..self.mono }, ..self }
        } else if a == WY {
            GpuRegs { view: Viewport { wy: v, ..self.view }, ..self }
        } else if a == WX {
            GpuRegs { view: Viewport { wx: v, ..self.view }, ..self }
        } else if !self.color() {
            self
        } else if a == VBK {
            GpuRegs { vram_bank: v % 2, ..self }
        } else if a == BCPS {
            GpuRegs { bg_index: Self::index_of(v), ..self }
        } else if a == BCPD {
            GpuRegs { bg_index: Self::moved_on(self.bg_index), ..self }
        } else if a == OCPS {
            GpuRegs { obj_index: Self::index_of(v), ..self }
        } else if a == OCPD {
            GpuRegs { obj_index: Self::moved_on(self.obj_index), ..self }
        } else {
            self
        }
    }

    /// The registers one cycle later, and what the unit asks for in that
    /// cycle. A line begins with the search of the sprite table, mode 2;
    /// after 80 cycles the transfer begins, mode 3; after 172 more the
    /// horizontal blank, mode 0; after 204 more the line ends. Line 143 is
    /// followed by ten lines of vertical blank, mode 1, and these by line 0.
    pub open spec fn tick(self) -> (GpuRegs, GpuEvents) {
        if !self.lcdc.lcd_on {
            (self, GpuEvents::none())
        } else if self.dots + 1 >= LINE_DOTS {
            let ly = if self.ly + 1 >= FRAME_LINES {
                0u8
            } else {
                (self.ly + 1) as u8
            };
            let vblank = ly == VISIBLE_LINES;
            (
                GpuRegs { dots: 0, ly, updated: self.updated || vblank, ..self },
                GpuEvents {
                    vblank,
                    stat: (self.inte.lyc_inte && ly == self.lyc) || (vblank && self.inte.m1_inte) || (ly
                        < VISIBLE_LINES && self.inte.m2_inte),
                    hblank: false,
                },
            )
        } else {
            let hblank = self.ly < VISIBLE_LINES && self.dots + 1 == HBLANK_START;
            (
                GpuRegs { dots: (self.dots + 1) as u16, ..self },
                GpuEvents { vblank: false, stat: hblank && self.inte.m0_inte, hblank },
            )
        }
    }

    /// The registers `n` cycles later.
    pub open spec fn after(self, n: nat) -> GpuRegs
        decreases n,
    {
        if n == 0 {
            self
        } else {
            self.after((n - 1) as nat).tick().0
        }
    }

    /// How often the vertical blank begins in the next `n` cycles.
    pub open spec fn vblanks(self, n: nat) -> nat
        decreases n,
    {
        if n == 0 {
            0
        } else {
            self.vblanks((n - 1) as nat) + if self.after((n - 1) as nat).tick().1.vblank {
                1nat
            } else {
                0nat
            }
        }
    }

    fn exec_mode(&self) -> (m: GpuMode)
        ensures
            m == self.mode(),
    {
        if !self.lcdc.lcd_on {
            GpuMode::HBlank
        } else if self.ly >= VISIBLE_LINES {
            GpuMode::VBlank
        } else if self.dots < OAM_SEARCH_DOTS {
            GpuMode::OamSearch
        } else if self.dots < HBLANK_START {
            GpuMode::Transfer
        } else {
            GpuMode::HBlank
        }
    }

    fn exec_lcdc(&self) -> (v: u8)
        ensures
            v == self.lcdc_byte(),
    {
        pack(
            self.lcdc.lcd_on,
            self.lcdc.win_map_high,
            self.lcdc.win_on,
            self.lcdc.tile_data_low,
            self.lcdc.bg_map_high,
            self.lcdc.obj_tall,
            self.lcdc.obj_on,
            self.lcdc.bg_on,
        )
    }

    fn exec_stat(&self) -> (v: u8)
        ensures
            v == self.stat(),
    {
        let code = self.exec_mode().exec_code();
        pack(
            true,
            self.inte.lyc_inte,
            self.inte.m2_inte,
            self.inte.m1_inte,
            self.inte.m0_inte,
            self.ly == self.lyc,
            code >= 2,
            code % 2 == 1,
        )
    }

    fn exec_lcdc_of(v: u8) -> (l: Lcdc)
        ensures
            l == Self::lcdc_of(v),
    {
        Lcdc {
            lcd_on: get_bit(v, 7),
            win_map_high: get_bit(v, 6),
            win_on: get_bit(v, 5),
            tile_data_low: get_bit(v, 4),
            bg_map_high: get_bit(v, 3),
            obj_tall: get_bit(v, 2),
            obj_on: get_bit(v, 1),
            bg_on: get_bit(v, 0),
        }
    }

    fn exec_with_lcdc(&self, v: u8) -> (r: GpuRegs)
        requires
            self.wf(),
        ensures
            r == self.with_lcdc(v),
            r.wf(),
    {
        let lcdc = Self::exec_lcdc_of(v);
        if lcdc.lcd_on != self.lcdc.lcd_on {
            GpuRegs { lcdc, ly: 0, dots: 0, ..*self }
        } else {
            GpuRegs { lcdc, ..*self }
        }
    }

    fn exec_with_stat(&self, v: u8) -> (r: GpuRegs)
        ensures
            r == self.with_stat(v),
    {
        GpuRegs {
            inte: StatEnables {
                lyc_inte: get_bit(v, 6),
                m2_inte: get_bit(v, 5),
                m1_inte: get_bit(v, 4),
                m0_inte: get_bit(v, 3),
            },
            ..*self
        }
    }

    fn exec_moved_on(i: PaletteIndex) -> (r: PaletteIndex)
        requires
            i.index < 64,
        ensures
            r == Self::moved_on(i),
            r.index < 64,
    {
        if i.inc {
            PaletteIndex { index: (i.index + 1) % 64, ..i }
        } else {
            i
        }
    }

    fn exec_written(&self, a: u16, v: u8) -> (r: GpuRegs)
        requires
            self.wf(),
        ensures
            r == self.written(a, v),
            r.wf(),
    {
        if a == LCDC {
            self.exec_with_lcdc(v)
        } else if a == STAT {
            self.exec_with_stat(v)
        } else if a == SCY {
            GpuRegs { view: Viewport { scy: v, ..self.view }, ..*self }
        } else if a == SCX {
            GpuRegs { view: Viewport { scx: v, ..self.view }, ..*self }
        } else if a == LYC {
            GpuRegs { lyc: v, ..*self }
        } else if a == BGP {
            GpuRegs { mono: MonoPalettes { bgp: v, ..self.mono }, ..*self }
        } else if a == OBP0 {
            GpuRegs { mono: MonoPalettes { obp0: v, ..self.mono }, ..*self }
        } else if a == OBP1 {
            GpuRegs { mono: MonoPalettes { obp1: v, ..self.mono }, ..*self }
        } else if a == WY {
            GpuRegs { view: Viewport { wy: v, ..self.view }, ..*self }
        } else if a == WX {
            GpuRegs { view: Viewport { wx: v, ..self.view }, ..*self }
        } else if self.gbmode != GbMode::Color {
            *self
        } else if a == VBK {
            GpuRegs { vram_bank: v % 2, ..*self }
        } else if a == BCPS {
            GpuRegs { bg_index: PaletteIndex { inc: v >= 128, index: v % 64 }, ..*self }
        } else if a == BCPD {
            GpuRegs { bg_index: Self::exec_moved_on(self.bg_index), ..*self }
        } else if a == OCPS {
            GpuRegs { obj_index: PaletteIndex { inc: v >= 128, index: v % 64 }, ..*self }
        } else if a == OCPD {
            GpuRegs { obj_index: Self::exec_moved_on(self.obj_index), ..*self }
        } else {
            *self
        }
    }

    fn exec_tick(&self) -> (r: (GpuRegs, GpuEvents))
        requires
            self.wf(),
        ensures
            r == self.tick(),
            r.0.wf(),
    {
        if !self.lcdc.lcd_on {
            (*self, GpuEvents { vblank: false, stat: false, hblank: false })
        } else if self.dots + 1 >= LINE_DOTS {
            let ly: u8 = if self.ly + 1 >= FRAME_LINES {
                0
            } else {
                self.ly + 1
            };
            let vblank = ly == VISIBLE_LINES;
            (
                GpuRegs { dots: 0, ly, updated: self.updated || vblank, ..*self },
                GpuEvents {
                    vblank,
                    stat: (self.inte.lyc_inte && ly == self.lyc) || (vblank && self.inte.m1_inte) || (ly
                        < VISIBLE_LINES && self.inte.m2_inte),
                    hblank: false,
                },
            )
        } else {
            let hblank = self.ly < VISIBLE_LINES && self.dots + 1 == HBLANK_START;
            (
                GpuRegs { dots: self.dots + 1, ..*self },
                GpuEvents { vblank: false, stat: hblank && self.inte.m0_inte, hblank },
            )
        }
    }
}

pub struct Gpu {
    pub regs: GpuRegs,
    pub mem: VideoMem,
    /// The picture, line after line, three bytes to a point.
    pub data: Vec<u8>,
}

/// The picture unit as a value.
pub struct GpuModel {
    pub regs: GpuRegs,
    pub mem: VideoMemModel,
    pub data: Seq<u8>,
}

impl View for Gpu {
    type V = GpuModel;

    open spec fn view(&self) -> GpuModel {
        GpuModel { regs: self.regs, mem: self.mem@, data: self.data@ }
    }
}

/// The picture with line `ly` replaced.
pub open spec fn with_line(data: Seq<u8>, ly: int, line: Seq<u8>) -> Seq<u8> {
    Seq::new(
        data.len(),
        |k: int|
            if ly * LINE_BYTES <= k && k < (ly + 1) * LINE_BYTES {
                line[k - ly * LINE_BYTES]
            } else {
                data[k]
            },
    )
}

impl GpuModel {
    pub open spec fn wf(self) -> bool {
        &&& self.regs.wf()
        &&& self.mem.wf()
        &&& self.data.len() == PICTURE_SIZE
    }

    /// The unit after power-on: memory all zero, the picture white.
    pub open spec fn initial(gbmode: GbMode) -> GpuModel {
        GpuModel {
            regs: GpuRegs::initial(gbmode),
            mem: VideoMemModel {
                vram: Seq::new(VRAM_SIZE as nat, |i: int| 0u8),
                oam: Seq::new(OAM_SIZE as nat, |i: int| 0u8),
                bg_palette: Seq::new(PALETTE_SIZE as nat, |i: int| 0u8),
                obj_palette: Seq::new(PALETTE_SIZE as nat, |i: int| 0u8),
            },
            data: Seq::new(PICTURE_SIZE as nat, |i: int| 255u8),
        }
    }

    /// The place in video memory that the processor sees at `a`, an address
    /// from 0x8000 to 0x9FFF.
    pub open spec fn vram_index(self, a: u16) -> int {
        self.regs.vram_bank * 0x2000 + (a - 0x8000)
    }

    /// What a read of `a` returns. Video memory and the sprite table read
    /// as they are; registers that only the colour machine has read 0xFF on
    /// the other; so does whatever is no register of the unit.
    #[verifier::opaque]
    pub open spec fn read(self, a: u16) -> u8 {
        let r = self.regs;
        if 0x8000 <= a && a < 0xA000 {
            self.mem.vram[self.vram_index(a)]
        } else if 0xFE00 <= a && a < 0xFEA0 {
            self.mem.oam[a - 0xFE00]
        } else if a == LCDC {
            r.lcdc_byte()
        } else if a == STAT {
            r.stat()
        } else if a == SCY {
            r.view.scy
        } else if a == SCX {
            r.view.scx
        } else if a == LY {
            r.ly
        } else if a == LYC {
            r.lyc
        } else if a == BGP {
            r.mono.bgp
        } else if a == OBP0 {
            r.mono.obp0
        } else if a == OBP1 {
            r.mono.obp1
        } else if a == WY {
            r.view.wy
        } else if a == WX {
            r.view.wx
        } else if !r.color() {
            0xFF
        } else if a == VBK {
            (0xFE + r.vram_bank) as u8
        } else if a == BCPS {
            (0x40 + r.bg_index.index + if r.bg_index.inc {
                0x80int
            } else {
                0int
            }) as u8
        } else if a == BCPD {
            self.mem.bg_palette[r.bg_index.index as int]
        } else if a == OCPS {
            (0x40 + r.obj_index.index + if r.obj_index.inc {
                0x80int
            } else {
                0int
            }) as u8
        } else if a == OCPD {
            self.mem.obj_palette[r.obj_index.index as int]
        } else {
            0xFF
        }
    }

    /// The unit after `v` was written to `a`: a byte of video memory, of
    /// the sprite table or, through the data register of a colour palette,
    /// of that palette at the place that its index register points at; and
    /// the registers as `GpuRegs::written` says.
    #[verifier::opaque]
    pub open spec fn written(self, a: u16, v: u8) -> GpuModel {
        let r = self.regs;
        let m = self.mem;
        if 0x8000 <= a && a < 0xA000 {
            GpuModel {
                mem: VideoMemModel { vram: m.vram.update(self.vram_index(a), v), ..m },
                ..self
            }
        } else if 0xFE00 <= a && a < 0xFEA0 {
            GpuModel { mem: VideoMemModel { oam: m.oam.update(a - 0xFE00, v), ..m }, ..self }
        } else if r.color() && a == BCPD {
            GpuModel {
                regs: r.written(a, v),
                mem: VideoMemModel {
                    bg_palette: m.bg_palette.update(r.bg_index.index as int, v),
                    ..m
                },
                ..self
            }
        } else if r.color() && a == OCPD {
            GpuModel {
                regs: r.written(a, v),
                mem: VideoMemModel {
                    obj_palette: m.obj_palette.update(r.obj_index.index as int, v),
                    ..m
                },
                ..self
            }
        } else {
            GpuModel { regs: r.written(a, v), ..self }
        }
    }

    /// The unit one cycle later, and what it asks for in that cycle. When
    /// the horizontal blank of a line begins, the line is put into the
    /// picture as video memory and the registers then make it.
    #[verifier::opaque]
    pub open spec fn tick(self) -> (GpuModel, GpuEvents) {
        let (regs, ev) = self.regs.tick();
        (
            GpuModel {
                regs,
                data: if ev.hblank {
                    with_line(
                        self.data,
                        self.regs.ly as int,
                        self.mem.rendered_line(self.regs, self.regs.ly as int),
                    )
                } else {
                    self.data
                },
                ..self
            },
            ev,
        )
    }

    /// The unit `n` cycles later, and what it asked for in these cycles.
    pub open spec fn advance(self, n: nat) -> (GpuModel, GpuEvents)
        decreases n,
    {
        if n == 0 {
            (self, GpuEvents::none())
        } else {
            let (g, before) = self.advance((n - 1) as nat);
            let (next, now) = g.tick();
            (next, before.or(now))
        }
    }

    /// The unit with the flag for a completed frame cleared.
    pub open spec fn acknowledged(self) -> GpuModel {
        GpuModel { regs: GpuRegs { updated: false, ..self.regs }, ..self }
    }
}

impl Gpu {
    pub fn new(gbmode: GbMode) -> (g: Gpu)
        ensures
            g@ == GpuModel::initial(gbmode),
            g@.wf(),
    {
        Gpu {
            regs: GpuRegs {
                gbmode,
                dots: 0,
                ly: 0,
                lyc: 0,
                lcdc: Lcdc {
                    lcd_on: false,
                    win_map_high: false,
                    win_on: false,
                    tile_data_low: false,
                    bg_map_high: false,
                    obj_tall: false,
                    obj_on: false,
                    bg_on: false,
                },
                inte: StatEnables { lyc_inte: false, m2_inte: false, m1_inte: false, m0_inte: false },
                view: Viewport { scy: 0, scx: 0, wy: 0, wx: 0 },
                mono: MonoPalettes { bgp: 0, obp0: 0, obp1: 0 },
                vram_bank: 0,
                bg_index: PaletteIndex { inc: false, index: 0 },
                obj_index: PaletteIndex { inc: false, index: 0 },
                updated: false,
            },
            mem: VideoMem {
                vram: filled(VRAM_SIZE, 0),
                oam: filled(OAM_SIZE, 0),
                bg_palette: filled(PALETTE_SIZE, 0),
                obj_palette: filled(PALETTE_SIZE, 0),
            },
            data: filled(PICTURE_SIZE, 255),
        }
    }

    pub fn rb(&self, a: u16) -> (v: u8)
        requires
            self@.wf(),
        ensures
            v == self@.read(a),
    {
        reveal(GpuModel::read);
        if 0x8000 <= a && a < 0xA000 {
            self.mem.vram[self.regs.vram_bank as usize * 0x2000 + (a - 0x8000) as usize]
        } else if 0xFE00 <= a && a < 0xFEA0 {
            self.mem.oam[(a - 0xFE00) as usize]
        } else if a == LCDC {
            self.regs.exec_lcdc()
        } else if a == STAT {
            self.regs.exec_stat()
        } else if a == SCY {
            self.regs.view.scy
        } else if a == SCX {
            self.regs.view.scx
        } else if a == LY {
            self.regs.ly
        } else if a == LYC {
            self.regs.lyc
        } else if a == BGP {
            self.regs.mono.bgp
        } else if a == OBP0 {
            self.regs.mono.obp0
        } else if a == OBP1 {
            self.regs.mono.obp1
        } else if a == WY {
            self.regs.view.wy
        } else if a == WX {
            self.regs.view.wx
        } else if self.regs.gbmode != GbMode::Color {
            0xFF
        } else if a == VBK {
            0xFE + self.regs.vram_bank
        } else if a == BCPS {
            0x40 + self.regs.bg_index.index + if self.regs.bg_index.inc {
                0x80
            } else {
                0
            }
        } else if a == BCPD {
            self.mem.bg_palette[self.regs.bg_index.index as usize]
        } else if a == OCPS {
            0x40 + self.regs.obj_index.index + if self.regs.obj_index.inc {
                0x80
            } else {
                0
            }
        } else if a == OCPD {
            self.mem.obj_palette[self.regs.obj_index.index as usize]
        } else {
            0xFF
        }
    }

    pub fn wb(&mut self, a: u16, v: u8)
        requires
            old(self)@.wf(),
        ensures
            final(self)@ == old(self)@.written(a, v),
            final(self)@.wf(),
    {
        reveal(GpuModel::written);
        if 0x8000 <= a && a < 0xA000 {
            self.mem.vram.set(self.regs.vram_bank as usize * 0x2000 + (a - 0x8000) as usize, v);
        } else if 0xFE00 <= a && a < 0xFEA0 {
            self.mem.oam.set((a - 0xFE00) as usize, v);
        } else {
            if self.regs.gbmode == GbMode::Color && a == BCPD {
                self.mem.bg_palette.set(self.regs.bg_index.index as usize, v);
            } else if self.regs.gbmode == GbMode::Color && a == OCPD {
                self.mem.obj_palette.set(self.regs.obj_index.index as usize, v);
            }
            self.regs = self.regs.exec_written(a, v);
        }
    }

    /// Puts a rendered line into the picture.
    fn put_line(&mut self, ly: u8, line: &Vec<u8>)
        requires
            old(self)@.wf(),
            ly < VISIBLE_LINES,
            line@.len() == LINE_BYTES,
        ensures
            final(self)@ == (GpuModel {
                data: with_line(old(self)@.data, ly as int, line@),
                ..old(self)@
            }),
    {
        let start: usize = ly as usize * LINE_BYTES;
        let mut k: usize = 0;
        while k < LINE_BYTES
            invariant
                k <= LINE_BYTES,
                start == ly * LINE_BYTES,
                ly < VISIBLE_LINES,
                line@.len() == LINE_BYTES,
                self.data@.len() == PICTURE_SIZE,
                self.regs == old(self).regs,
                self.mem@ == old(self).mem@,
                forall|j: int|
                    0 <= j < PICTURE_SIZE ==> self.data@[j] == if start <= j && j < start + k {
                        line@[j - start]
                    } else {
                        old(self).data@[j]
                    },
            decreases LINE_BYTES - k,
        {
            self.data.set(start + k, line[k]);
            k += 1;
        }
        assert(self.data@ =~= with_line(old(self)@.data, ly as int, line@));
    }

    fn tick(&mut self) -> (ev: GpuEvents)
        requires
            old(self)@.wf(),
        ensures
            (final(self)@, ev) == old(self)@.tick(),
            final(self)@.wf(),
    {
        reveal(GpuModel::tick);
        let before = self.regs;
        let (regs, ev) = self.regs.exec_tick();
        self.regs = regs;
        if ev.hblank {
            let line = self.mem.render_line(&before, before.ly);
            self.put_line(before.ly, &line);
        }
        ev
    }

    /// Runs the unit for `ticks` cycles. Returns what it asked for.
    pub fn do_cycle(&mut self, ticks: u32) -> (ev: GpuEvents)
        requires
            old(self)@.wf(),
        ensures
            (final(self)@, ev) == old(self)@.advance(ticks as nat),
            final(self)@.wf(),
    {
        let mut ev = GpuEvents { vblank: false, stat: false, hblank: false };
        let mut i: u32 = 0;
        while i < ticks
            invariant
                i <= ticks,
                self@.wf(),
                (self@, ev) == old(self)@.advance(i as nat),
            decreases ticks - i,
        {
            let now = self.tick();
            ev =
            GpuEvents {
                vblank: ev.vblank || now.vblank,
                stat: ev.stat || now.stat,
                hblank: ev.hblank || now.hblank,
            };
            i += 1;
        }
        ev
    }

    /// Whether a frame was completed since this was last asked.
    pub fn check_and_reset_updated(&mut self) -> (r: bool)
        ensures
            r == old(self)@.regs.updated,
            final(self)@ == old(self)@.acknowledged(),
    {
        let r = self.regs.updated;
        self.regs.updated = false;
        r
    }
}

/// The registers of a unit that runs by itself are those of its clockwork.
pub proof fn lemma_advance_regs(g: GpuModel, n: nat)
    ensures
        g.advance(n).0.regs == g.regs.after(n),
        g.advance(n).0.mem == g.mem,
    decreases n,
{
    reveal(GpuModel::tick);
    if n > 0 {
        lemma_advance_regs(g, (n - 1) as nat);
    }
}

/// Where the clockwork stands `n` cycles after the start of a frame, with
/// the display on and nothing written to LCDC meanwhile: in line `n / 456`,
/// `n % 456` cycles into it. The vertical blank has begun once if line 144
/// was reached, and not at all before.
pub proof fn lemma_frame_position(r: GpuRegs, n: nat)
    requires
        r.lcdc.lcd_on,
        r.ly == 0,
        r.dots == 0,
        n <= FRAME_DOTS,
    ensures
        r.after(n).lcdc.lcd_on,
        n < FRAME_DOTS ==> r.after(n).ly == n / 456 && r.after(n).dots == n % 456,
        n == FRAME_DOTS ==> r.after(n).ly == 0 && r.after(n).dots == 0,
        r.vblanks(n) == if n >= 144 * 456 {
            1nat
        } else {
            0nat
        },
        r.after(n).updated == (r.updated || n >= 144 * 456),
    decreases n,
{
    if n > 0 {
        lemma_frame_position(r, (n - 1) as nat);
    }
}

/// In the 70224 cycles of a frame, every line from 0 to 153 is the current
/// line for one unbroken run of 456 cycles, the vertical blank begins
/// exactly once, and the flag for a completed frame is raised then and at no
/// other time. After the frame the clockwork stands at the start of the
/// next.
pub proof fn lemma_frame(r: GpuRegs)
    requires
        r.lcdc.lcd_on,
        r.ly == 0,
        r.dots == 0,
    ensures
        forall|line: nat, n: nat|
            line < 154 && n < FRAME_DOTS ==> ((#[trigger] r.after(n)).ly == line <==> #[trigger] (
            line * 456) <= n < line * 456 + 456),
        r.vblanks(FRAME_DOTS as nat) == 1,
        forall|n: nat|
            n < FRAME_DOTS ==> ((#[trigger] r.after(n)).tick().1.vblank <==> n + 1 == 144 * 456),
        forall|n: nat|
            n <= FRAME_DOTS ==> ((#[trigger] r.after(n)).updated <==> r.updated || n >= 144 * 456),
        r.after(FRAME_DOTS as nat).ly == 0,
        r.after(FRAME_DOTS as nat).dots == 0,
        r.after(FRAME_DOTS as nat).lcdc.lcd_on,
{
    lemma_frame_position(r, FRAME_DOTS as nat);
    assert forall|n: nat| n <= FRAME_DOTS implies ((#[trigger] r.after(n)).updated <==> r.updated
        || n >= 144 * 456) by {
        lemma_frame_position(r, n);
    }
    assert forall|line: nat, n: nat| line < 154 && n < FRAME_DOTS implies ((#[trigger] r.after(
        n,
    )).ly == line <==> #[trigger] (line * 456) <= n < line * 456 + 456) by {
        lemma_frame_position(r, n);
    }
    assert forall|n: nat| n < FRAME_DOTS implies ((#[trigger] r.after(n)).tick().1.vblank <==> n + 1
        == 144 * 456) by {
        lemma_frame_position(r, n);
    }
}

/// The registers that can be written read back what was written: all of
/// LCDC, SCY, SCX, LYC, the palettes, WY and WX, and of STAT the four
/// interrupt enables.
pub proof fn lemma_register_read_back(g: GpuModel, v: u8)
    ensures
        g.written(LCDC, v).read(LCDC) == v,
        g.written(SCY, v).read(SCY) == v,
        g.written(SCX, v).read(SCX) == v,
        g.written(LYC, v).read(LYC) == v,
        g.written(BGP, v).read(BGP) == v,
        g.written(OBP0, v).read(OBP0) == v,
        g.written(OBP1, v).read(OBP1) == v,
        g.written(WY, v).read(WY) == v,
        g.written(WX, v).read(WX) == v,
        bit(g.written(STAT, v).read(STAT), 6) == bit(v, 6),
        bit(g.written(STAT, v).read(STAT), 5) == bit(v, 5),
        bit(g.written(STAT, v).read(STAT), 4) == bit(v, 4),
        bit(g.written(STAT, v).read(STAT), 3) == bit(v, 3),
{
    reveal(GpuModel::read);
    reveal(GpuModel::written);
    lemma_byte_of_bits(v);
    let s = g.written(STAT, v).regs;
    lemma_bits_of_byte(
        true,
        s.inte.lyc_inte,
        s.inte.m2_inte,
        s.inte.m1_inte,
        s.inte.m0_inte,
        s.ly == s.lyc,
        s.mode().code() >= 2,
        s.mode().code() % 2 == 1,
    );
}

/// Video memory and the sprite table read back what was written, and a
/// write to one place leaves every other place as it was.
pub proof fn lemma_memory_read_back(g: GpuModel, a: u16, v: u8, b: u16)
    requires
        g.wf(),
        (0x8000 <= a < 0xA000) || (0xFE00 <= a < 0xFEA0),
        (0x8000 <= b < 0xA000) || (0xFE00 <= b < 0xFEA0),
    ensures
        g.written(a, v).read(a) == v,
        a != b ==> g.written(a, v).read(b) == g.read(b),
{
    reveal(GpuModel::read);
    reveal(GpuModel::written);
}

} // verus!
