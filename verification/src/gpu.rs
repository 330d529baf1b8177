//! Pixel processing unit: LCD registers, video RAM, sprite RAM, and the
//! scanline renderer.
//!
//! One render-clock step is a single M-cycle (four T-cycles); a line takes
//! 114 of them and a frame 154 lines, of which lines 144 to 153 are the
//! vertical blank. On the line that enters the blank the frame buffer is
//! complete and the `frame_ready` flag is raised for the host to collect.

use vstd::prelude::*;

verus! {

/// Masking a byte keeps it below the mask's power of two.
pub proof fn lemma_u8_mask_bounds(a: u8)
    ensures
        a & 0x01 < 0x02,
        a & 0x03 < 0x04,
        a & 0x07 < 0x08,
        a & 0x0F < 0x10,
        a & 0x1F < 0x20,
{
    assert(a & 0x01 < 0x02 && a & 0x03 < 0x04 && a & 0x07 < 0x08 && a & 0x0F < 0x10
        && a & 0x1F < 0x20) by (bit_vector);
}

/// The four display shades, palette index 0 to 3: white, light gray, dark
/// gray, black.
pub open spec fn spec_color(id: u8) -> u32 {
    if id == 0 {
        0xFFFFFF
    } else if id == 1 {
        0xAAAAAA
    } else if id == 2 {
        0x555555
    } else {
        0x000000
    }
}

/// The shade a palette byte assigns to a 2-bit color id: entry `id` of the
/// palette is its bits `2*id` and `2*id+1`.
pub open spec fn spec_shade(palette: u8, id: u8) -> u32 {
    spec_color((palette >> ((id & 3) * 2)) & 3)
}

/// Look one color id up in a palette byte.
pub fn shade(palette: u8, id: u8) -> (r: u32)
    ensures
        r == spec_shade(palette, id),
{
    proof {
        lemma_u8_mask_bounds(id);
    }
    let entry = (palette >> ((id & 3) * 2)) & 3;
    proof {
        lemma_u8_mask_bounds(palette >> ((id & 3) * 2));
    }
    if entry == 0 {
        0xFFFFFF
    } else if entry == 1 {
        0xAAAAAA
    } else if entry == 2 {
        0x555555
    } else {
        0x000000
    }
}

/// An 8-bit subtraction that wraps, for the sprite position offsets.
pub open spec fn spec_wsub8(a: u8, b: u8) -> u8 {
    (((a - b) % 256) as u8)
}

pub struct GPU {
    pub vram: Vec<u8>,
    pub oam: Vec<u8>,
    pub lcdc: u8,
    pub stat: u8,
    pub scy: u8,
    pub scx: u8,
    pub ly: u8,
    pub lyc: u8,
    pub wy: u8,
    pub wx: u8,
    pub bgp_value: u8,
    pub obp0_value: u8,
    pub obp1_value: u8,
    pub screen_buffer: Vec<u32>,
    pub interrupt: u8,
    pub render_clock: u32,
    pub frame_ready: bool,
}

impl GPU {
    pub open spec fn wf(self) -> bool {
        &&& self.vram@.len() == 0x2000
        &&& self.oam@.len() == 0xA0
        &&& self.screen_buffer@.len() == 23040
        &&& self.render_clock < 114
    }

    /// PPU at power-on: display enabled with background on, everything
    /// else zero.
    pub fn new() -> (r: GPU)
        ensures
            r.wf(),
            r.lcdc == 0x91,
            r.stat == 0 && r.scy == 0 && r.scx == 0 && r.ly == 0 && r.lyc == 0,
            r.wy == 0 && r.wx == 0,
            r.bgp_value == 0 && r.obp0_value == 0 && r.obp1_value == 0,
            r.interrupt == 0 && r.render_clock == 0 && !r.frame_ready,
            r.vram@ == Seq::new(0x2000nat, |i: int| 0u8),
            r.oam@ == Seq::new(0xA0nat, |i: int| 0u8),
            r.screen_buffer@ == Seq::new(23040nat, |i: int| 0u32),
    {
        GPU {
            vram: zero_vec_u8(0x2000),
            oam: zero_vec_u8(0xA0),
            lcdc: 0x91,
            stat: 0,
            scy: 0,
            scx: 0,
            ly: 0,
            lyc: 0,
            wy: 0,
            wx: 0,
            bgp_value: 0,
            obp0_value: 0,
            obp1_value: 0,
            screen_buffer: zero_vec_u32(23040),
            interrupt: 0,
            render_clock: 0,
            frame_ready: false,
        }
    }

    /// The byte a CPU read of an LCD register returns; the OAM-DMA trigger
    /// address is write-only and reads zero.
    pub open spec fn spec_read_lcd_reg(self, address: u16) -> u8 {
        if address == 0xFF40 {
            self.lcdc
        } else if address == 0xFF41 {
            self.stat
        } else if address == 0xFF42 {
            self.scy
        } else if address == 0xFF43 {
            self.scx
        } else if address == 0xFF44 {
            self.ly
        } else if address == 0xFF45 {
            self.lyc
        } else if address == 0xFF47 {
            self.bgp_value
        } else if address == 0xFF48 {
            self.obp0_value
        } else if address == 0xFF49 {
            self.obp1_value
        } else if address == 0xFF4A {
            self.wy
        } else if address == 0xFF4B {
            self.wx
        } else {
            0
        }
    }

    pub fn read_lcd_reg(&self, address: u16) -> (r: u8)
        requires
            0xFF40 <= address <= 0xFF4B,
        ensures
            r == self.spec_read_lcd_reg(address),
    {
        match address {
            0xFF40 => self.lcdc,
            0xFF41 => self.stat,
            0xFF42 => self.scy,
            0xFF43 => self.scx,
            0xFF44 => self.ly,
            0xFF45 => self.lyc,
            0xFF47 => self.bgp_value,
            0xFF48 => self.obp0_value,
            0xFF49 => self.obp1_value,
            0xFF4A => self.wy,
            0xFF4B => self.wx,
            _ => 0,
        }
    }

    /// The PPU after a CPU write of an LCD register; the OAM-DMA trigger
    /// address belongs to the bus and is a no-op here.
    pub open spec fn spec_write_lcd_reg(self, address: u16, value: u8) -> GPU {
        if address == 0xFF40 {
            GPU { lcdc: value, ..self }
        } else if address == 0xFF41 {
            GPU { stat: value, ..self }
        } else if address == 0xFF42 {
            GPU { scy: value, ..self }
        } else if address == 0xFF43 {
            GPU { scx: value, ..self }
        } else if address == 0xFF44 {
            GPU { ly: value, ..self }
        } else if address == 0xFF45 {
            GPU { lyc: value, ..self }
        } else if address == 0xFF47 {
            GPU { bgp_value: value, ..self }
        } else if address == 0xFF48 {
            GPU { obp0_value: value, ..self }
        } else if address == 0xFF49 {
            GPU { obp1_value: value, ..self }
        } else if address == 0xFF4A {
            GPU { wy: value, ..self }
        } else if address == 0xFF4B {
            GPU { wx: value, ..self }
        } else {
            self
        }
    }

    pub fn write_lcd_reg(&mut self, address: u16, value: u8)
        requires
            0xFF40 <= address <= 0xFF4B,
        ensures
            *final(self) == old(self).spec_write_lcd_reg(address, value),
    {
        match address {
            0xFF40 => self.lcdc = value,
            0xFF41 => self.stat = value,
            0xFF42 => self.scy = value,
            0xFF43 => self.scx = value,
            0xFF44 => self.ly = value,
            0xFF45 => self.lyc = value,
            0xFF47 => self.bgp_value = value,
            0xFF48 => self.obp0_value = value,
            0xFF49 => self.obp1_value = value,
            0xFF4A => self.wy = value,
            0xFF4B => self.wx = value,
            _ => {},
        }
    }

    pub fn read_vram(&self, addr: u16) -> (r: u8)
        requires
            self.wf(),
        ensures
            r == self.vram@[(addr & 0x1FFF) as int],
    {
        proof {
            crate::cartridge::lemma_mask_bounds(addr);
        }
        self.vram[(addr & 0x1FFF) as usize]
    }

    pub fn write_vram(&mut self, address: u16, value: u8)
        requires
            old(self).wf(),
        ensures
            final(self).wf(),
            *final(self) == (GPU { vram: final(self).vram, ..*old(self) }),
            final(self).vram@ == old(self).vram@.update((address & 0x1FFF) as int, value),
    {
        proof {
            crate::cartridge::lemma_mask_bounds(address);
        }
        self.vram.set((address & 0x1FFF) as usize, value);
    }

    pub fn read_oam(&self, addr: u16) -> (r: u8)
        requires
            self.wf(),
            addr & 0x00FF < 0xA0,
        ensures
            r == self.oam@[(addr & 0x00FF) as int],
    {
        proof {
            crate::cartridge::lemma_mask_bounds(addr);
        }
        self.oam[(addr & 0x00FF) as usize]
    }

    pub fn write_oam(&mut self, address: u16, value: u8)
        requires
            old(self).wf(),
            address & 0x00FF < 0xA0,
        ensures
            final(self).wf(),
            *final(self) == (GPU { oam: final(self).oam, ..*old(self) }),
            final(self).oam@ == old(self).oam@.update((address & 0x00FF) as int, value),
    {
        proof {
            crate::cartridge::lemma_mask_bounds(address);
        }
        self.oam.set((address & 0x00FF) as usize, value);
    }

    /// Whether the window plane covers column `x` of the current line:
    /// the window must be enabled, the line at or below `WY`, and the
    /// column at or right of `WX - 7`.
    pub open spec fn spec_window_at(self, x: int) -> bool {
        self.lcdc & 0x20 != 0 && self.ly >= self.wy && x + 7 >= self.wx
    }

    /// The vram-relative address of the tile row bytes for plane position
    /// `(tx, ty)` of the given tile map, following the signed or unsigned
    /// tile-data addressing selected by bit 4 of `LCDC`.
    pub open spec fn spec_tile_row_base(self, map_base: int, tx: int, ty: int) -> int {
        let tile_num = self.vram@[map_base + (ty / 8) * 32 + tx / 8];
        let tile_base = if self.lcdc & 0x10 != 0 {
            (tile_num as int) * 16
        } else {
            0x800 + ((tile_num as i8) + 128) * 16
        };
        tile_base + (ty % 8) * 2
    }

    /// The 2-bit color id at horizontal offset `fx` of the tile row whose
    /// two bytes start at `row_base`.
    pub open spec fn spec_row_color_id(self, row_base: int, fx: int) -> u8 {
        let d0 = self.vram@[row_base];
        let d1 = self.vram@[row_base + 1];
        let bit = (7 - fx % 8) as u8;
        (((d0 >> bit) & 1) | (((d1 >> bit) & 1) << 1)) as u8
    }

    /// The background or window pixel for column `x` of the current line:
    /// the window plane when it covers the column, else the scrolled
    /// background plane, each looked up through `BGP`.
    pub open spec fn spec_bg_pixel(self, x: int) -> u32 {
        if self.spec_window_at(x) {
            let ty = self.ly - self.wy;
            let tx = x + 7 - self.wx;
            let map_base: int = if self.lcdc & 0x40 != 0 { 0x1C00 } else { 0x1800 };
            spec_shade(self.bgp_value, self.spec_row_color_id(self.spec_tile_row_base(map_base, tx, ty), tx))
        } else {
            let ty = (self.scy + self.ly) % 256;
            let tx = (self.scx + x) % 256;
            let map_base: int = if self.lcdc & 0x08 != 0 { 0x1C00 } else { 0x1800 };
            spec_shade(self.bgp_value, self.spec_row_color_id(self.spec_tile_row_base(map_base, tx, ty), tx))
        }
    }

    /// Compute one background/window pixel of the current line.
    fn bg_pixel(&self, x: u16) -> (r: u32)
        requires
            self.wf(),
            x < 160,
            self.ly < 144,
        ensures
            r == self.spec_bg_pixel(x as int),
    {
        let window = self.lcdc & 0x20 != 0 && self.ly >= self.wy && x + 7 >= self.wx as u16;
        let (tx, ty, map_base): (u16, u16, u16) = if window {
            let ty = (self.ly - self.wy) as u16;
            let tx = x + 7 - self.wx as u16;
            let map_base: u16 = if self.lcdc & 0x40 != 0 { 0x1C00 } else { 0x1800 };
            (tx, ty, map_base)
        } else {
            let ty = ((self.scy as u16 + self.ly as u16) % 256) as u16;
            let tx = ((self.scx as u16 + x) % 256) as u16;
            let map_base: u16 = if self.lcdc & 0x08 != 0 { 0x1C00 } else { 0x1800 };
            (tx, ty, map_base)
        };
        assert(ty < 256 && tx < 256 + 7);
        let tile_num = self.vram[(map_base + (ty / 8) * 32 + tx / 8) as usize];
        let tile_base: u16 = if self.lcdc & 0x10 != 0 {
            tile_num as u16 * 16
        } else {
            0x800 + ((tile_num as i8) as i32 + 128) as u16 * 16
        };
        let row_base = tile_base + (ty % 8) * 2;
        let d0 = self.vram[row_base as usize];
        let d1 = self.vram[(row_base + 1) as usize];
        let bit = (7 - (tx % 8)) as u8;
        let id = ((d0 >> bit) & 1) | (((d1 >> bit) & 1) << 1);
        shade(self.bgp_value, id)
    }

    /// Render the background/window scanline for the current `LY`: every
    /// pixel of the row becomes its [`spec_bg_pixel`] value; nothing else
    /// changes. Skipped when the background is disabled by bit 0 of
    /// `LCDC` or the line is inside the vertical blank.
    pub fn step_bgwin(&mut self)
        requires
            old(self).wf(),
        ensures
            final(self).wf(),
            (old(self).lcdc & 0x01 == 0 || old(self).ly >= 144) ==> *final(self) == *old(self),
            (old(self).lcdc & 0x01 != 0 && old(self).ly < 144) ==> {
                &&& *final(self) == (GPU { screen_buffer: final(self).screen_buffer, ..*old(self) })
                &&& final(self).screen_buffer@.len() == 23040
                &&& forall|i: int| 0 <= i < 23040 ==> final(self).screen_buffer@[i] == (
                    if old(self).ly * 160 <= i < old(self).ly * 160 + 160 {
                        old(self).spec_bg_pixel(i - old(self).ly * 160)
                    } else {
                        old(self).screen_buffer@[i]
                    })
            },
    {
        if !(self.lcdc & 0x01 != 0) || self.ly >= 144 {
            return;
        }
        let base: usize = self.ly as usize * 160;
        let mut x: usize = 0;
        while x < 160
            invariant
                old(self).wf(),
                old(self).lcdc & 0x01 != 0,
                old(self).ly < 144,
                0 <= x <= 160,
                base == old(self).ly * 160,
                *self == (GPU { screen_buffer: self.screen_buffer, ..*old(self) }),
                self.screen_buffer@.len() == 23040,
                forall|i: int| 0 <= i < 23040 ==> self.screen_buffer@[i] == (
                    if base <= i < base + x {
                        old(self).spec_bg_pixel(i - base)
                    } else {
                        old(self).screen_buffer@[i]
                    }),
            decreases 160 - x,
        {
            let px = self.bg_pixel(x as u16);
            assert(self.spec_bg_pixel(x as int) == old(self).spec_bg_pixel(x as int));
            self.screen_buffer.set(base + x, px);
            x += 1;
        }
    }
}

impl GPU {
    /// Sprite height in pixels, 16 when bit 2 of `LCDC` is set, else 8.
    pub open spec fn spec_sprite_height(self) -> int {
        if self.lcdc & 0x04 != 0 {
            16
        } else {
            8
        }
    }

    /// Whether sprite `s` covers the current line: its top edge is the
    /// stored Y byte minus 16, and it spans the sprite height.
    pub open spec fn spec_sprite_on_line(self, s: int) -> bool {
        let sy = spec_wsub8(self.oam@[4 * s], 16);
        sy <= self.ly < sy + self.spec_sprite_height()
    }

    /// The vram-relative base of the two bytes holding the row of sprite
    /// `s` that falls on the current line, honouring vertical flip; a tall
    /// sprite ignores the low bit of its tile index.
    pub open spec fn spec_sprite_row_base(self, s: int) -> int {
        let sy = spec_wsub8(self.oam@[4 * s], 16);
        let tile = self.oam@[4 * s + 2];
        let flags = self.oam@[4 * s + 3];
        let h = self.spec_sprite_height();
        let row = if flags & 0x40 != 0 {
            h - 1 - (self.ly - sy)
        } else {
            self.ly - sy
        };
        let t: int = if h == 16 {
            (tile & 0xFE) as int
        } else {
            tile as int
        };
        t * 16 + row * 2
    }

    /// The 2-bit color id of pixel column `k` (0 to 7) of sprite `s` on
    /// the current line, honouring horizontal flip.
    pub open spec fn spec_sprite_color_id(self, s: int, k: int) -> u8 {
        let flags = self.oam@[4 * s + 3];
        let base = self.spec_sprite_row_base(s);
        let d0 = self.vram@[base];
        let d1 = self.vram@[base + 1];
        let bit = (if flags & 0x20 != 0 {
            k
        } else {
            7 - k
        }) as u8;
        (((d0 >> bit) & 1) | (((d1 >> bit) & 1) << 1)) as u8
    }

    /// The frame buffer after compositing sprite `s` over `buf` on the
    /// current line. Color id 0 is transparent; a sprite flagged as
    /// behind the background only covers pixels that currently show the
    /// lightest `BGP` entry; the palette is `OBP1` or `OBP0` by flag
    /// bit 4.
    pub open spec fn spec_draw_sprite(self, buf: Seq<u32>, s: int) -> Seq<u32> {
        if !self.spec_sprite_on_line(s) {
            buf
        } else {
            let sx = spec_wsub8(self.oam@[4 * s + 1], 8);
            let flags = self.oam@[4 * s + 3];
            Seq::new(buf.len(), |i: int| {
                if self.ly * 160 <= i < self.ly * 160 + 160 && sx <= i - self.ly * 160 < sx + 8 {
                    let id = self.spec_sprite_color_id(s, i - self.ly * 160 - sx);
                    if id == 0 {
                        buf[i]
                    } else if flags & 0x80 != 0 && buf[i] != spec_shade(self.bgp_value, 0) {
                        buf[i]
                    } else {
                        spec_shade(
                            if flags & 0x10 == 0 { self.obp0_value } else { self.obp1_value },
                            id,
                        )
                    }
                } else {
                    buf[i]
                }
            })
        }
    }

    /// The frame buffer after compositing sprites `s`, `s - 1`, ..., `0`
    /// over `buf` in that order, so that the sprite earliest in OAM is
    /// drawn last and wins overlaps.
    pub open spec fn spec_sprites_down(self, buf: Seq<u32>, s: int) -> Seq<u32>
        decreases s + 1,
    {
        if s < 0 {
            buf
        } else {
            self.spec_sprites_down(self.spec_draw_sprite(buf, s), s - 1)
        }
    }

    /// Composite one sprite onto the current line of the frame buffer.
    fn draw_sprite(&mut self, s: usize)
        requires
            old(self).wf(),
            s < 40,
            old(self).ly < 144,
        ensures
            final(self).wf(),
            *final(self) == (GPU { screen_buffer: final(self).screen_buffer, ..*old(self) }),
            final(self).screen_buffer@ == old(self).spec_draw_sprite(old(self).screen_buffer@, s as int),
    {
        let sy = self.oam[4 * s].wrapping_sub(16);
        let sx = self.oam[4 * s + 1].wrapping_sub(8);
        let tile = self.oam[4 * s + 2];
        let flags = self.oam[4 * s + 3];
        let h: u16 = if self.lcdc & 0x04 != 0 { 16 } else { 8 };
        if !(sy as u16 <= self.ly as u16 && (self.ly as u16) < sy as u16 + h) {
            assert(!old(self).spec_sprite_on_line(s as int));
            return;
        }
        assert(old(self).spec_sprite_on_line(s as int));
        let row: u16 = if flags & 0x40 != 0 {
            h - 1 - (self.ly as u16 - sy as u16)
        } else {
            self.ly as u16 - sy as u16
        };
        let t: u16 = if self.lcdc & 0x04 != 0 { (tile & 0xFE) as u16 } else { tile as u16 };
        let base: usize = (t * 16 + row * 2) as usize;
        assert(base == old(self).spec_sprite_row_base(s as int));
        let d0 = self.vram[base];
        let d1 = self.vram[base + 1];
        let ly_base: usize = self.ly as usize * 160;
        let mut k: usize = 0;
        while k < 8
            invariant
                old(self).wf(),
                old(self).ly < 144,
                s < 40,
                0 <= k <= 8,
                old(self).spec_sprite_on_line(s as int),
                sy == spec_wsub8(old(self).oam@[4 * s], 16),
                sx == spec_wsub8(old(self).oam@[4 * s + 1], 8),
                tile == old(self).oam@[4 * s + 2],
                flags == old(self).oam@[4 * s + 3],
                ly_base == old(self).ly * 160,
                d0 == old(self).vram@[old(self).spec_sprite_row_base(s as int)],
                d1 == old(self).vram@[old(self).spec_sprite_row_base(s as int) + 1],
                *self == (GPU { screen_buffer: self.screen_buffer, ..*old(self) }),
                self.screen_buffer@.len() == 23040,
                forall|i: int| 0 <= i < 23040 ==> self.screen_buffer@[i] == (
                    if ly_base <= i < ly_base + 160 && sx <= i - ly_base < sx + k {
                        old(self).spec_draw_sprite(old(self).screen_buffer@, s as int)[i]
                    } else {
                        old(self).screen_buffer@[i]
                    }),
            decreases 8 - k,
        {
            let x: usize = sx as usize + k;
            if x < 160 {
                let bit: u8 = if flags & 0x20 != 0 { k as u8 } else { (7 - k) as u8 };
                let id = ((d0 >> bit) & 1) | (((d1 >> bit) & 1) << 1);
                assert(id == old(self).spec_sprite_color_id(s as int, k as int));
                if id != 0 {
                    let idx: usize = ly_base + x;
                    let covered = if flags & 0x80 != 0 {
                        self.screen_buffer[idx] == shade(self.bgp_value, 0)
                    } else {
                        true
                    };
                    if covered {
                        let pal = if flags & 0x10 == 0 { self.obp0_value } else { self.obp1_value };
                        let px = shade(pal, id);
                        self.screen_buffer.set(idx, px);
                    }
                }
            }
            k += 1;
        }
        assert(final(self).screen_buffer@
            =~= old(self).spec_draw_sprite(old(self).screen_buffer@, s as int));
    }

    /// Composite the sprites onto the current line, last OAM entry first,
    /// so the earliest entry has priority. Skipped when sprites are
    /// disabled by bit 1 of `LCDC` or the line is inside the vertical
    /// blank.
    pub fn step_sprite(&mut self)
        requires
            old(self).wf(),
        ensures
            final(self).wf(),
            (old(self).lcdc & 0x02 == 0 || old(self).ly >= 144) ==> *final(self) == *old(self),
            (old(self).lcdc & 0x02 != 0 && old(self).ly < 144) ==> {
                &&& *final(self) == (GPU { screen_buffer: final(self).screen_buffer, ..*old(self) })
                &&& final(self).screen_buffer@ == old(self).spec_sprites_down(old(self).screen_buffer@, 39)
            },
    {
        if self.lcdc & 0x02 == 0 || self.ly >= 144 {
            return;
        }
        let ghost orig = *self;
        let mut s: usize = 40;
        while s > 0
            invariant
                orig.wf(),
                orig.ly < 144,
                0 <= s <= 40,
                *self == (GPU { screen_buffer: self.screen_buffer, ..orig }),
                self.screen_buffer@.len() == 23040,
                orig.spec_sprites_down(self.screen_buffer@, s as int - 1)
                    == orig.spec_sprites_down(orig.screen_buffer@, 39),
            decreases s,
        {
            s -= 1;
            let ghost before = self.screen_buffer@;
            self.draw_sprite(s);
            proof {
                lemma_draw_sprite_congruence(*self, orig, before, s as int);
                assert(self.screen_buffer@ == orig.spec_draw_sprite(before, s as int));
            }
        }
    }

    /// The scalar part of one line advance: the render clock folds over,
    /// `LY` steps modulo 154, the compare and vertical-blank interrupt
    /// bits latch, and entering line 144 publishes the frame.
    pub open spec fn spec_advance_scalars(self, cycle: u8) -> GPU {
        let t = self.render_clock + cycle;
        let ly2 = ((self.ly + 1) % 154) as u8;
        let intr1 = if self.stat & 0x40 != 0 && ly2 == self.lyc {
            self.interrupt | 0x02
        } else {
            self.interrupt
        };
        let intr2 = if ly2 == 144 {
            intr1 | 0x01
        } else {
            intr1
        };
        GPU {
            render_clock: (t - 114) as u32,
            ly: ly2,
            interrupt: intr2,
            frame_ready: self.frame_ready || ly2 == 144,
            ..self
        }
    }

    /// The background overlay of the current line over `buf`.
    pub open spec fn spec_bg_line_over(self, buf: Seq<u32>) -> Seq<u32> {
        Seq::new(buf.len(), |i: int| {
            if self.ly * 160 <= i < self.ly * 160 + 160 {
                self.spec_bg_pixel(i - self.ly * 160)
            } else {
                buf[i]
            }
        })
    }

    /// Whether `post` is `pre` after one full line advance by `cycle`:
    /// the scalars step per [`spec_advance_scalars`], and on a visible
    /// line the background pass and then the sprite pass rewrite the row,
    /// each only when enabled by its `LCDC` bit.
    pub open spec fn spec_line_advanced(pre: GPU, post: GPU, cycle: u8) -> bool {
        let mid = pre.spec_advance_scalars(cycle);
        let buf1 = if mid.lcdc & 0x01 != 0 && mid.ly < 144 {
            mid.spec_bg_line_over(pre.screen_buffer@)
        } else {
            pre.screen_buffer@
        };
        let buf2 = if mid.lcdc & 0x02 != 0 && mid.ly < 144 {
            mid.spec_sprites_down(buf1, 39)
        } else {
            buf1
        };
        &&& post == (GPU { screen_buffer: post.screen_buffer, ..mid })
        &&& post.screen_buffer@ == buf2
    }

    /// Whether `post` is `pre` after one render-clock advance of `cycle`
    /// M-cycles: a switched-off display does nothing; an incomplete line
    /// only accumulates; a completed line advances per
    /// [`GPU::spec_line_advanced`].
    pub open spec fn spec_run_rel(pre: GPU, post: GPU, cycle: u8) -> bool {
        if pre.lcdc & 0x80 == 0 {
            post == pre
        } else if pre.render_clock + cycle < 114 {
            post == (GPU { render_clock: (pre.render_clock + cycle) as u32, ..pre })
        } else {
            GPU::spec_line_advanced(pre, post, cycle)
        }
    }

    /// Advance the render clock by one instruction's M-cycles. A display
    /// that is switched off does nothing. Otherwise the clock accumulates,
    /// and when it completes a line the PPU advances `LY`, latches the
    /// compare and vertical-blank interrupts, and renders the new line if
    /// it is visible.
    pub fn run(&mut self, cycle: u8)
        requires
            old(self).wf(),
            cycle <= 114,
        ensures
            final(self).wf(),
            GPU::spec_run_rel(*old(self), *final(self), cycle),
    {
        if self.lcdc & 0x80 == 0 {
            return;
        }
        let t: u32 = self.render_clock + cycle as u32;
        if t >= 114 {
            self.render_clock = t - 114;
            self.ly = ((self.ly as u16 + 1) % 154) as u8;
            if self.stat & 0x40 != 0 && self.ly == self.lyc {
                self.interrupt |= 0x02;
            }
            if self.ly == 144 {
                self.interrupt |= 0x01;
                self.frame_ready = true;
            }
            let ghost mid = *self;
            assert(mid == old(self).spec_advance_scalars(cycle));
            self.step_bgwin();
            let ghost mid2 = *self;
            let ghost buf1 = self.screen_buffer@;
            proof {
                if mid.lcdc & 0x01 != 0 && mid.ly < 144 {
                    assert(buf1 =~= mid.spec_bg_line_over(old(self).screen_buffer@));
                }
            }
            self.step_sprite();
            proof {
                if mid.lcdc & 0x02 != 0 && mid.ly < 144 {
                    lemma_sprites_down_congruence(mid2, mid, buf1, 39);
                }
            }
        } else {
            self.render_clock = t;
        }
    }

    /// Hand the completed frame to the host: a copy of the frame buffer,
    /// clearing the ready flag.
    pub fn take_frame(&mut self) -> (r: Vec<u32>)
        ensures
            r@ == old(self).screen_buffer@,
            *final(self) == (GPU { frame_ready: false, ..*old(self) }),
    {
        self.frame_ready = false;
        clone_pixels(&self.screen_buffer)
    }
}

/// Drawing a sprite depends only on the OAM, the video RAM, the registers
/// and the buffer passed in, so two states that differ only in their frame
/// buffer draw alike.
proof fn lemma_draw_sprite_congruence(a: GPU, b: GPU, buf: Seq<u32>, s: int)
    requires
        a == (GPU { screen_buffer: a.screen_buffer, ..b }),
    ensures
        a.spec_draw_sprite(buf, s) == b.spec_draw_sprite(buf, s),
{
    assert(a.spec_sprite_on_line(s) == b.spec_sprite_on_line(s));
    if a.spec_sprite_on_line(s) {
        assert(a.spec_draw_sprite(buf, s) =~= b.spec_draw_sprite(buf, s)) by {
            assert(forall|i: int| 0 <= i < buf.len() ==> a.spec_draw_sprite(buf, s)[i]
                == b.spec_draw_sprite(buf, s)[i]) by {
                assert(forall|k: int| a.spec_sprite_color_id(s, k) == b.spec_sprite_color_id(s, k));
            }
        }
    }
}

/// The PPU's position inside a frame, in render-clock steps: 114 per
/// line, 154 lines per frame, 17 556 in all.
pub open spec fn spec_frame_pos(g: GPU) -> int {
    g.ly * 114 + g.render_clock
}

/// On an enabled display the frame position advances by exactly the
/// M-cycles spent, modulo the 17 556 M-cycles of one frame; in
/// particular `LY` wraps from 153 to 0 at the frame boundary. The frame
/// is published exactly when the position crosses the start of line 144,
/// which therefore happens exactly once per 17 556 M-cycles.
pub proof fn lemma_frame_position(pre: GPU, post: GPU, cycle: u8)
    requires
        pre.wf(),
        pre.ly < 154,
        pre.lcdc & 0x80 != 0,
        cycle <= 114,
        GPU::spec_run_rel(pre, post, cycle),
    ensures
        spec_frame_pos(post) == (spec_frame_pos(pre) + cycle) % 17556,
        post.frame_ready == (pre.frame_ready
            || (spec_frame_pos(pre) < 16416 <= spec_frame_pos(pre) + cycle)),
        pre.ly == 153 && pre.render_clock + cycle >= 114 ==> post.ly == 0,
{
    let pos = spec_frame_pos(pre);
    if pre.render_clock + cycle < 114 {
        assert(pos + cycle < 17556);
        assert((pos + cycle) % 17556 == pos + cycle);
        if pre.ly <= 143 {
            assert(pos + cycle < (pre.ly + 1) * 114);
            assert((pre.ly + 1) * 114 <= 144 * 114);
        }
    } else {
        let mid = pre.spec_advance_scalars(cycle);
        assert(post.ly == mid.ly && post.render_clock == mid.render_clock
            && post.frame_ready == mid.frame_ready);
        if pre.ly == 153 {
            assert(mid.ly == 0);
            assert(pos + cycle == 17556 + (pre.render_clock + cycle - 114));
            assert((pos + cycle) % 17556 == pre.render_clock + cycle - 114);
        } else {
            assert(mid.ly == pre.ly + 1);
            assert(spec_frame_pos(mid) == pos + cycle);
            assert(pos + cycle < 17556);
            assert((pos + cycle) % 17556 == pos + cycle);
        }
        if pre.ly == 143 {
            assert(mid.ly == 144);
            assert(16302 <= pos < 16416);
            assert(pos + cycle >= 16416);
        } else {
            assert(mid.ly != 144);
            if pre.ly <= 142 {
                assert(pos + cycle <= 142 * 114 + 113 + 114);
            } else {
                assert(pos >= 144 * 114);
            }
        }
    }
}

/// Compositing the sprites depends only on the OAM, the video RAM and the
/// registers, so two states that differ only in their frame buffer
/// composite alike.
proof fn lemma_sprites_down_congruence(a: GPU, b: GPU, buf: Seq<u32>, s: int)
    requires
        a == (GPU { screen_buffer: a.screen_buffer, ..b }),
    ensures
        a.spec_sprites_down(buf, s) == b.spec_sprites_down(buf, s),
    decreases s + 1,
{
    if s >= 0 {
        lemma_draw_sprite_congruence(a, b, buf, s);
        lemma_sprites_down_congruence(a, b, a.spec_draw_sprite(buf, s), s - 1);
    }
}

/// A copy of a pixel vector.
fn clone_pixels(v: &Vec<u32>) -> (r: Vec<u32>)
    ensures
        r@ == v@,
{
    let mut out: Vec<u32> = Vec::new();
    let mut i: usize = 0;
    while i < v.len()
        invariant
            0 <= i <= v@.len(),
            out@ == v@.subrange(0, i as int),
        decreases v@.len() - i,
    {
        out.push(v[i]);
        assert(out@ =~= v@.subrange(0, i + 1 as int));
        i += 1;
    }
    assert(out@ =~= v@);
    out
}

/// A zero-filled byte vector of the given length.
fn zero_vec_u8(n: usize) -> (r: Vec<u8>)
    ensures
        r@ == Seq::new(n as nat, |i: int| 0u8),
{
    let mut out: Vec<u8> = Vec::new();
    let mut i: usize = 0;
    while i < n
        invariant
            0 <= i <= n,
            out@ =~= Seq::new(i as nat, |j: int| 0u8),
        decreases n - i,
    {
        out.push(0);
        assert(out@ =~= Seq::new((i + 1) as nat, |j: int| 0u8));
        i += 1;
    }
    assert(out@ =~= Seq::new(n as nat, |j: int| 0u8));
    out
}

/// A zero-filled pixel vector of the given length.
fn zero_vec_u32(n: usize) -> (r: Vec<u32>)
    ensures
        r@ == Seq::new(n as nat, |i: int| 0u32),
{
    let mut out: Vec<u32> = Vec::new();
    let mut i: usize = 0;
    while i < n
        invariant
            0 <= i <= n,
            out@ =~= Seq::new(i as nat, |j: int| 0u32),
        decreases n - i,
    {
        out.push(0);
        assert(out@ =~= Seq::new((i + 1) as nat, |j: int| 0u32));
        i += 1;
    }
    assert(out@ =~= Seq::new(n as nat, |j: int| 0u32));
    out
}

} // verus!
