//! How one line of the picture comes out of video memory.
//!
//! Each point of a line shows the background, or the window where the
//! window covers it, or a sprite. Of the first ten sprites that lie on the
//! line, in the order of the sprite table, the one that wins a point is,
//! among those that are not transparent there, the one furthest to the left
//! on the monochrome machine and the first in the table on the colour
//! machine. The winner shows unless the background has the right of way.

use crate::bits::{bit, bit_value, get_bit, get_bit_value};
use crate::gbmode::GbMode;
use crate::gpu::{GpuRegs, VideoMem, VideoMemModel, OAM_SIZE, PALETTE_SIZE, VRAM_SIZE};
use crate::screen::SCREEN_W;
use vstd::prelude::*;

verus! {

/// Sprites in the table.
pub const SPRITES: usize = 40;

/// Sprites shown on one line at most.
pub const SPRITES_PER_LINE: usize = 10;

/// A colour of the picture.
#[derive(Debug, Clone, Copy, PartialEq, Eq, Structural)]
pub struct Rgb {
    pub r: u8,
    pub g: u8,
    pub b: u8,
}

/// A point of the background or the window.
#[derive(Debug, Clone, Copy, PartialEq, Eq, Structural)]
pub struct BgPixel {
    /// The colour number in the tile, from 0 to 3.
    pub color: u8,
    /// The map gives the background the right of way here.
    pub priority: bool,
    pub rgb: Rgb,
}

/// The shade, from 0 to 3, that a monochrome palette gives colour `c`.
pub open spec fn shade_of(palette: u8, c: int) -> int {
    if c == 0 {
        palette as int % 4
    } else if c == 1 {
        (palette as int / 4) % 4
    } else if c == 2 {
        (palette as int / 16) % 4
    } else {
        palette as int / 64
    }
}

/// The grey that shows a shade: white for 0, black for 3.
pub open spec fn grey_of(shade: int) -> Rgb {
    if shade == 0 {
        Rgb { r: 255, g: 255, b: 255 }
    } else if shade == 1 {
        Rgb { r: 192, g: 192, b: 192 }
    } else if shade == 2 {
        Rgb { r: 96, g: 96, b: 96 }
    } else {
        Rgb { r: 0, g: 0, b: 0 }
    }
}

/// A channel of five bits stretched to eight.
pub open spec fn stretch(c5: int) -> u8 {
    (c5 * 8 + c5 / 4) as u8
}

/// Colour `c` of palette `n` in colour palette memory: two bytes, low byte
/// first, with five bits each of red, green and blue from bit 0 up.
pub open spec fn palette_rgb(memory: Seq<u8>, n: int, c: int) -> Rgb {
    let lo = memory[n * 8 + c * 2] as int;
    let hi = memory[n * 8 + c * 2 + 1] as int;
    Rgb {
        r: stretch(lo % 32),
        g: stretch(lo / 32 + (hi % 4) * 8),
        b: stretch((hi / 4) % 32),
    }
}

impl GpuRegs {
    /// Whether the machine shows colours.
    pub open spec fn color(self) -> bool {
        self.gbmode == GbMode::Color
    }

    /// Height of a sprite in lines.
    pub open spec fn obj_height(self) -> int {
        if self.lcdc.obj_tall {
            16
        } else {
            8
        }
    }

    /// Whether the window covers the point `x` of line `ly`.
    pub open spec fn in_window(self, x: int, ly: int) -> bool {
        self.lcdc.win_on && self.view.wy <= ly && self.view.wx <= 166 && x + 7 >= self.view.wx
    }

    /// The place in video memory of the map entry for the point `x` of line
    /// `ly`, and the column and row of the point within its tile.
    pub open spec fn map_place(self, x: int, ly: int) -> (int, int, int) {
        if self.in_window(x, ly) {
            let px = x + 7 - self.view.wx;
            let py = ly - self.view.wy;
            ((if self.lcdc.win_map_high {
                0x1C00int
            } else {
                0x1800int
            }) + (py / 8) * 32 + px / 8, px % 8, py % 8)
        } else {
            let px = (self.view.scx + x) % 256;
            let py = (self.view.scy + ly) % 256;
            ((if self.lcdc.bg_map_high {
                0x1C00int
            } else {
                0x1800int
            }) + (py / 8) * 32 + px / 8, px % 8, py % 8)
        }
    }

    /// The place in its bank of the data of background tile `tile`.
    pub open spec fn tile_data(self, tile: u8) -> int {
        if self.lcdc.tile_data_low {
            tile * 16
        } else if tile < 128 {
            0x1000 + tile * 16
        } else {
            0x800 + (tile - 128) * 16
        }
    }

    fn exec_map_place(&self, x: u8, ly: u8) -> (r: (usize, u8, u8))
        requires
            x < SCREEN_W,
        ensures
            (r.0 as int, r.1 as int, r.2 as int) == self.map_place(x as int, ly as int),
            0x1800 <= r.0 < 0x2000,
            r.1 < 8,
            r.2 < 8,
    {
        if self.lcdc.win_on && self.view.wy <= ly && self.view.wx <= 166 && x as u16 + 7 >= self.view.wx as u16 {
            let px: u16 = x as u16 + 7 - self.view.wx as u16;
            let py: u8 = ly - self.view.wy;
            let base: usize = if self.lcdc.win_map_high {
                0x1C00
            } else {
                0x1800
            };
            (base + (py / 8) as usize * 32 + (px / 8) as usize, (px % 8) as u8, py % 8)
        } else {
            let px: u16 = (self.view.scx as u16 + x as u16) % 256;
            let py: u16 = (self.view.scy as u16 + ly as u16) % 256;
            let base: usize = if self.lcdc.bg_map_high {
                0x1C00
            } else {
                0x1800
            };
            (base + (py / 8) as usize * 32 + (px / 8) as usize, (px % 8) as u8, (py % 8) as u8)
        }
    }

    fn exec_tile_data(&self, tile: u8) -> (r: usize)
        ensures
            r == self.tile_data(tile),
            r + 16 <= 0x1800,
    {
        if self.lcdc.tile_data_low {
            tile as usize * 16
        } else if tile < 128 {
            0x1000 + tile as usize * 16
        } else {
            0x800 + (tile - 128) as usize * 16
        }
    }
}

pub fn shade(palette: u8, c: u8) -> (s: u8)
    ensures
        s == shade_of(palette, c as int),
        s < 4,
{
    if c == 0 {
        palette % 4
    } else if c == 1 {
        (palette / 4) % 4
    } else if c == 2 {
        (palette / 16) % 4
    } else {
        palette / 64
    }
}

pub fn grey(shade: u8) -> (rgb: Rgb)
    ensures
        rgb == grey_of(shade as int),
{
    if shade == 0 {
        Rgb { r: 255, g: 255, b: 255 }
    } else if shade == 1 {
        Rgb { r: 192, g: 192, b: 192 }
    } else if shade == 2 {
        Rgb { r: 96, g: 96, b: 96 }
    } else {
        Rgb { r: 0, g: 0, b: 0 }
    }
}

fn exec_stretch(c5: u8) -> (c8: u8)
    requires
        c5 < 32,
    ensures
        c8 == stretch(c5 as int),
{
    c5 * 8 + c5 / 4
}

fn exec_palette_rgb(memory: &Vec<u8>, n: u8, c: u8) -> (rgb: Rgb)
    requires
        memory@.len() == PALETTE_SIZE,
        n < 8,
        c < 4,
    ensures
        rgb == palette_rgb(memory@, n as int, c as int),
{
    let lo = memory[n as usize * 8 + c as usize * 2];
    let hi = memory[n as usize * 8 + c as usize * 2 + 1];
    Rgb {
        r: exec_stretch(lo % 32),
        g: exec_stretch(lo / 32 + (hi % 4) * 8),
        b: exec_stretch((hi / 4) % 32),
    }
}

impl VideoMemModel {
    /// The colour number, from 0 to 3, of a point of a tile: the bit for
    /// the column, counted from the left, of the two bytes of the row.
    pub open spec fn tile_color(self, bank: int, data: int, row: int, col: int) -> int {
        bit_value(self.vram[bank * 0x2000 + data + 2 * row], 7 - col) + 2 * bit_value(
            self.vram[bank * 0x2000 + data + 2 * row + 1],
            7 - col,
        )
    }

    /// The background or window at the point `x` of line `ly`. Without
    /// colours, a background that is switched off is blank.
    pub open spec fn bg_pixel(self, regs: GpuRegs, x: int, ly: int) -> BgPixel {
        if !regs.color() && !regs.lcdc.bg_on {
            BgPixel { color: 0, priority: false, rgb: grey_of(0) }
        } else {
            let (entry, col0, row0) = regs.map_place(x, ly);
            let tile = self.vram[entry];
            let attr = if regs.color() {
                self.vram[0x2000 + entry]
            } else {
                0u8
            };
            let row = if bit(attr, 6) {
                7 - row0
            } else {
                row0
            };
            let col = if bit(attr, 5) {
                7 - col0
            } else {
                col0
            };
            let c = self.tile_color(bit_value(attr, 3), regs.tile_data(tile), row, col);
            BgPixel {
                color: c as u8,
                priority: bit(attr, 7),
                rgb: if regs.color() {
                    palette_rgb(self.bg_palette, attr as int % 8, c)
                } else {
                    grey_of(shade_of(regs.mono.bgp, c))
                },
            }
        }
    }

    /// The line of the picture on which sprite `i` begins. Line 0 of the
    /// picture is 16 in the table.
    pub open spec fn obj_y(self, i: int) -> int {
        self.oam[4 * i] - 16
    }

    /// The point of a line at which sprite `i` begins. Point 0 is 8 in the
    /// table.
    pub open spec fn obj_x(self, i: int) -> int {
        self.oam[4 * i + 1] - 8
    }

    pub open spec fn obj_flags(self, i: int) -> u8 {
        self.oam[4 * i + 3]
    }

    /// Whether sprite `i` lies on line `ly`.
    pub open spec fn obj_on_line(self, regs: GpuRegs, i: int, ly: int) -> bool {
        self.obj_y(i) <= ly && ly < self.obj_y(i) + regs.obj_height()
    }

    /// The sprites shown on line `ly` among the first `n` of the table: in
    /// the order of the table, and no more than ten.
    pub open spec fn selected(self, regs: GpuRegs, ly: int, n: int) -> Seq<u8>
        decreases n,
    {
        if n <= 0 {
            Seq::empty()
        } else {
            let before = self.selected(regs, ly, n - 1);
            if before.len() < SPRITES_PER_LINE && self.obj_on_line(regs, n - 1, ly) {
                before.push((n - 1) as u8)
            } else {
                before
            }
        }
    }

    /// The colour number of sprite `i` at the point `x` of line `ly`, which
    /// lies in the sprite. The flags flip the sprite; a tall sprite is made
    /// of an even tile and the one after it.
    pub open spec fn obj_color(self, regs: GpuRegs, i: int, x: int, ly: int) -> int {
        let flags = self.obj_flags(i);
        let row0 = ly - self.obj_y(i);
        let col0 = x - self.obj_x(i);
        let row = if bit(flags, 6) {
            regs.obj_height() - 1 - row0
        } else {
            row0
        };
        let col = if bit(flags, 5) {
            7 - col0
        } else {
            col0
        };
        let tile = if regs.lcdc.obj_tall {
            (self.oam[4 * i + 2] / 2) * 2
        } else {
            self.oam[4 * i + 2] as int
        };
        self.tile_color(
            if regs.color() {
                bit_value(flags, 3)
            } else {
                0
            },
            tile * 16,
            row,
            col,
        )
    }

    /// Whether sprite `i`, which lies on line `ly`, covers the point `x`
    /// with a colour other than the transparent one.
    pub open spec fn obj_shows(self, regs: GpuRegs, i: int, x: int, ly: int) -> bool {
        self.obj_x(i) <= x && x < self.obj_x(i) + 8 && self.obj_color(regs, i, x, ly) != 0
    }

    /// The sprite that wins the point `x` among the first `k` of `sel`.
    pub open spec fn winner(self, regs: GpuRegs, sel: Seq<u8>, x: int, ly: int, k: int) -> Option<
        u8,
    >
        decreases k,
    {
        if k <= 0 {
            None
        } else {
            let before = self.winner(regs, sel, x, ly, k - 1);
            let i = sel[k - 1];
            if !self.obj_shows(regs, i as int, x, ly) {
                before
            } else {
                match before {
                    None => Some(i),
                    Some(j) => if !regs.color() && self.obj_x(i as int) < self.obj_x(j as int) {
                        Some(i)
                    } else {
                        before
                    },
                }
            }
        }
    }

    /// The colour of sprite `i` at the point `x` of line `ly`.
    pub open spec fn obj_rgb(self, regs: GpuRegs, i: int, x: int, ly: int) -> Rgb {
        let flags = self.obj_flags(i);
        let c = self.obj_color(regs, i, x, ly);
        if regs.color() {
            palette_rgb(self.obj_palette, flags as int % 8, c)
        } else {
            grey_of(
                shade_of(
                    if bit(flags, 4) {
                        regs.mono.obp1
                    } else {
                        regs.mono.obp0
                    },
                    c,
                ),
            )
        }
    }

    /// Whether the background keeps the point from sprite `i`: only where
    /// the background is not of colour 0, and there if the sprite asks to go
    /// behind it or, with colours, the map gives the background the right
    /// of way. With colours, switching the background off in LCDC takes
    /// this right from it altogether.
    pub open spec fn bg_hides(self, regs: GpuRegs, bg: BgPixel, i: int) -> bool {
        bg.color != 0 && if regs.color() {
            regs.lcdc.bg_on && (bg.priority || bit(self.obj_flags(i), 7))
        } else {
            bit(self.obj_flags(i), 7)
        }
    }

    /// The colour of the point `x` of line `ly`, with the sprites of `sel`.
    pub open spec fn pixel_among(self, regs: GpuRegs, sel: Seq<u8>, x: int, ly: int) -> Rgb {
        let bg = self.bg_pixel(regs, x, ly);
        if !regs.lcdc.obj_on {
            bg.rgb
        } else {
            match self.winner(regs, sel, x, ly, sel.len() as int) {
                None => bg.rgb,
                Some(i) => if self.bg_hides(regs, bg, i as int) {
                    bg.rgb
                } else {
                    self.obj_rgb(regs, i as int, x, ly)
                },
            }
        }
    }

    /// The colour of the point `x` of line `ly`.
    pub open spec fn pixel(self, regs: GpuRegs, x: int, ly: int) -> Rgb {
        self.pixel_among(regs, self.selected(regs, ly, SPRITES as int), x, ly)
    }

    /// Line `ly` of the picture: three bytes for each point, red, green and
    /// blue.
    pub open spec fn rendered_line(self, regs: GpuRegs, ly: int) -> Seq<u8> {
        Seq::new(
            (3 * SCREEN_W) as nat,
            |k: int|
                {
                    let p = self.pixel(regs, k / 3, ly);
                    if k % 3 == 0 {
                        p.r
                    } else if k % 3 == 1 {
                        p.g
                    } else {
                        p.b
                    }
                },
        )
    }

    /// What `selected` holds: sprites of the table, in rising order, that
    /// lie on the line, and no more than ten.
    pub proof fn lemma_selected(self, regs: GpuRegs, ly: int, n: int)
        requires
            0 <= n <= SPRITES,
        ensures
            self.selected(regs, ly, n).len() <= SPRITES_PER_LINE,
            forall|k: int|
                0 <= k < self.selected(regs, ly, n).len() ==> {
                    &&& (#[trigger] self.selected(regs, ly, n)[k]) < n
                    &&& self.obj_on_line(regs, self.selected(regs, ly, n)[k] as int, ly)
                },
        decreases n,
    {
        if n > 0 {
            self.lemma_selected(regs, ly, n - 1);
        }
    }
}

impl VideoMem {
    pub open spec fn wf(&self) -> bool {
        self@.wf()
    }

    fn tile_color(&self, bank: u8, data: usize, row: u8, col: u8) -> (c: u8)
        requires
            self.wf(),
            bank < 2,
            data + 2 * row + 1 < 0x2000,
            col < 8,
        ensures
            c == self@.tile_color(bank as int, data as int, row as int, col as int),
            c < 4,
    {
        let at: usize = bank as usize * 0x2000 + data + 2 * row as usize;
        get_bit_value(self.vram[at], 7 - col) + 2 * get_bit_value(self.vram[at + 1], 7 - col)
    }

    fn bg_pixel(&self, regs: &GpuRegs, x: u8, ly: u8) -> (p: BgPixel)
        requires
            self.wf(),
            x < SCREEN_W,
        ensures
            p == self@.bg_pixel(*regs, x as int, ly as int),
    {
        let color = regs.gbmode == GbMode::Color;
        if !color && !regs.lcdc.bg_on {
            return BgPixel { color: 0, priority: false, rgb: grey(0) };
        }
        let (entry, col0, row0) = regs.exec_map_place(x, ly);
        let tile = self.vram[entry];
        let attr: u8 = if color {
            self.vram[0x2000 + entry]
        } else {
            0
        };
        let row = if get_bit(attr, 6) {
            7 - row0
        } else {
            row0
        };
        let col = if get_bit(attr, 5) {
            7 - col0
        } else {
            col0
        };
        let c = self.tile_color(get_bit_value(attr, 3), regs.exec_tile_data(tile), row, col);
        BgPixel {
            color: c,
            priority: get_bit(attr, 7),
            rgb: if color {
                exec_palette_rgb(&self.bg_palette, attr % 8, c)
            } else {
                grey(shade(regs.mono.bgp, c))
            },
        }
    }

    fn obj_on_line(&self, regs: &GpuRegs, i: u8, ly: u8) -> (r: bool)
        requires
            self.wf(),
            i < SPRITES,
        ensures
            r == self@.obj_on_line(*regs, i as int, ly as int),
    {
        let y: i16 = self.oam[4 * i as usize] as i16 - 16;
        let height: i16 = if regs.lcdc.obj_tall {
            16
        } else {
            8
        };
        y <= ly as i16 && (ly as i16) < y + height
    }

    /// The sprites shown on line `ly`.
    fn select(&self, regs: &GpuRegs, ly: u8) -> (sel: Vec<u8>)
        requires
            self.wf(),
        ensures
            sel@ == self@.selected(*regs, ly as int, SPRITES as int),
    {
        let mut sel: Vec<u8> = Vec::new();
        let mut i: u8 = 0;
        while i < 40
            invariant
                i <= 40,
                self.wf(),
                sel@ == self@.selected(*regs, ly as int, i as int),
            decreases 40 - i,
        {
            if sel.len() < SPRITES_PER_LINE && self.obj_on_line(regs, i, ly) {
                sel.push(i);
            }
            i += 1;
        }
        sel
    }

    fn obj_color(&self, regs: &GpuRegs, i: u8, x: u8, ly: u8) -> (c: u8)
        requires
            self.wf(),
            i < SPRITES,
            self@.obj_on_line(*regs, i as int, ly as int),
            self@.obj_x(i as int) <= x < self@.obj_x(i as int) + 8,
        ensures
            c == self@.obj_color(*regs, i as int, x as int, ly as int),
            c < 4,
    {
        let flags = self.oam[4 * i as usize + 3];
        let row0: u8 = (ly as i16 - (self.oam[4 * i as usize] as i16 - 16)) as u8;
        let col0: u8 = (x as i16 - (self.oam[4 * i as usize + 1] as i16 - 8)) as u8;
        let height: u8 = if regs.lcdc.obj_tall {
            16
        } else {
            8
        };
        let row = if get_bit(flags, 6) {
            height - 1 - row0
        } else {
            row0
        };
        let col = if get_bit(flags, 5) {
            7 - col0
        } else {
            col0
        };
        let tile: u8 = if regs.lcdc.obj_tall {
            (self.oam[4 * i as usize + 2] / 2) * 2
        } else {
            self.oam[4 * i as usize + 2]
        };
        let bank: u8 = if regs.gbmode == GbMode::Color {
            get_bit_value(flags, 3)
        } else {
            0
        };
        self.tile_color(bank, tile as usize * 16, row, col)
    }

    fn obj_shows(&self, regs: &GpuRegs, i: u8, x: u8, ly: u8) -> (r: bool)
        requires
            self.wf(),
            i < SPRITES,
            self@.obj_on_line(*regs, i as int, ly as int),
        ensures
            r == self@.obj_shows(*regs, i as int, x as int, ly as int),
    {
        let ox: i16 = self.oam[4 * i as usize + 1] as i16 - 8;
        ox <= x as i16 && (x as i16) < ox + 8 && self.obj_color(regs, i, x, ly) != 0
    }

    fn winner(&self, regs: &GpuRegs, sel: &Vec<u8>, x: u8, ly: u8) -> (w: Option<u8>)
        requires
            self.wf(),
            forall|k: int|
                0 <= k < sel@.len() ==> sel@[k] < SPRITES && self@.obj_on_line(
                    *regs,
                    sel@[k] as int,
                    ly as int,
                ),
        ensures
            w == self@.winner(*regs, sel@, x as int, ly as int, sel@.len() as int),
            w matches Some(i) ==> i < SPRITES && self@.obj_shows(
                *regs,
                i as int,
                x as int,
                ly as int,
            ) && self@.obj_on_line(*regs, i as int, ly as int),
    {
        let mut w: Option<u8> = None;
        let mut k: usize = 0;
        while k < sel.len()
            invariant
                k <= sel.len(),
                self.wf(),
                forall|k: int|
                    0 <= k < sel@.len() ==> sel@[k] < SPRITES && self@.obj_on_line(
                        *regs,
                        sel@[k] as int,
                        ly as int,
                    ),
                w == self@.winner(*regs, sel@, x as int, ly as int, k as int),
                w matches Some(i) ==> i < SPRITES && self@.obj_shows(
                    *regs,
                    i as int,
                    x as int,
                    ly as int,
                ) && self@.obj_on_line(*regs, i as int, ly as int),
            decreases sel.len() - k,
        {
            let i = sel[k];
            if self.obj_shows(regs, i, x, ly) {
                match w {
                    None => {
                        w = Some(i);
                    },
                    Some(j) => {
                        if regs.gbmode != GbMode::Color && self.oam[4 * i as usize + 1]
                            < self.oam[4 * j as usize + 1] {
                            w = Some(i);
                        }
                    },
                }
            }
            k += 1;
        }
        w
    }

    fn obj_rgb(&self, regs: &GpuRegs, i: u8, x: u8, ly: u8) -> (rgb: Rgb)
        requires
            self.wf(),
            i < SPRITES,
            self@.obj_on_line(*regs, i as int, ly as int),
            self@.obj_x(i as int) <= x < self@.obj_x(i as int) + 8,
        ensures
            rgb == self@.obj_rgb(*regs, i as int, x as int, ly as int),
    {
        let flags = self.oam[4 * i as usize + 3];
        let c = self.obj_color(regs, i, x, ly);
        if regs.gbmode == GbMode::Color {
            exec_palette_rgb(&self.obj_palette, flags % 8, c)
        } else {
            grey(
                shade(
                    if get_bit(flags, 4) {
                        regs.mono.obp1
                    } else {
                        regs.mono.obp0
                    },
                    c,
                ),
            )
        }
    }

    fn pixel_among(&self, regs: &GpuRegs, sel: &Vec<u8>, x: u8, ly: u8) -> (rgb: Rgb)
        requires
            self.wf(),
            x < SCREEN_W,
            forall|k: int|
                0 <= k < sel@.len() ==> sel@[k] < SPRITES && self@.obj_on_line(
                    *regs,
                    sel@[k] as int,
                    ly as int,
                ),
        ensures
            rgb == self@.pixel_among(*regs, sel@, x as int, ly as int),
    {
        let bg = self.bg_pixel(regs, x, ly);
        if !regs.lcdc.obj_on {
            return bg.rgb;
        }
        match self.winner(regs, sel, x, ly) {
            None => bg.rgb,
            Some(i) => {
                let behind = get_bit(self.oam[4 * i as usize + 3], 7);
                let hidden = bg.color != 0 && if regs.gbmode == GbMode::Color {
                    regs.lcdc.bg_on && (bg.priority || behind)
                } else {
                    behind
                };
                if hidden {
                    bg.rgb
                } else {
                    self.obj_rgb(regs, i, x, ly)
                }
            },
        }
    }

    /// Renders line `ly` of the picture.
    pub fn render_line(&self, regs: &GpuRegs, ly: u8) -> (line: Vec<u8>)
        requires
            self.wf(),
        ensures
            line@ == self@.rendered_line(*regs, ly as int),
    {
        let sel = self.select(regs, ly);
        proof {
            self@.lemma_selected(*regs, ly as int, SPRITES as int);
        }
        let mut line: Vec<u8> = Vec::new();
        let mut x: u8 = 0;
        while x < 160
            invariant
                x <= 160,
                self.wf(),
                sel@ == self@.selected(*regs, ly as int, SPRITES as int),
                forall|k: int|
                    0 <= k < sel@.len() ==> sel@[k] < SPRITES && self@.obj_on_line(
                        *regs,
                        sel@[k] as int,
                        ly as int,
                    ),
                line@ == self@.rendered_line(*regs, ly as int).take(3 * x),
            decreases 160 - x,
        {
            let p = self.pixel_among(regs, &sel, x, ly);
            line.push(p.r);
            line.push(p.g);
            line.push(p.b);
            proof {
                let whole = self@.rendered_line(*regs, ly as int);
                assert(whole[3 * x] == p.r);
                assert(whole[3 * x + 1] == p.g);
                assert(whole[3 * x + 2] == p.b);
                assert(line@ =~= whole.take(3 * (x + 1)));
            }
            x += 1;
        }
        assert(self@.rendered_line(*regs, ly as int).take(480) =~= self@.rendered_line(
            *regs,
            ly as int,
        ));
        line
    }
}

} // verus!
