//! The per-dot rendering pipeline of the PPU: scroll-address increments,
//! background fetches, sprite evaluation, pixel composition and timing.
use vstd::prelude::*;

use crate::mapper::Cartridge;
use crate::ppu::{tick_spec, StepResult, PPU, SCREEN_WIDTH};
use crate::ppu::regs::{PPUCtrl, PPUStatus};

verus! {

broadcast use crate::bits::group_masks;

/// Coarse-X increment of a VRAM address, wrapping into the next horizontal nametable.
pub open spec fn increment_x_spec(v: u16) -> u16 {
    if v & 0x001f == 31 { (v & 0xffe0) ^ 0x0400 } else { ((v + 1) % 0x10000) as u16 }
}

/// Fine-Y increment of a VRAM address, carrying into coarse Y; row 29 wraps
/// into the next vertical nametable and rows 30-31 wrap without switching.
pub open spec fn increment_y_spec(v: u16) -> u16 {
    if v & 0x7000 != 0x7000 {
        ((v + 0x1000) % 0x10000) as u16
    } else {
        let v1 = v & 0x8fff;
        let y = (v1 & 0x03e0) >> 5;
        let v2 = if y == 29 { v1 ^ 0x0800 } else { v1 };
        let y2: u16 = if y == 29 || y == 31 { 0 } else { ((y + 1) % 0x10000) as u16 };
        (v2 & 0xfc1f) | (y2 << 5)
    }
}

/// Eight 4-bit pixels, leftmost in the top nibble, from the two bit planes of
/// a pattern row and a palette select already shifted into bits 2-3; `flip`
/// mirrors the row horizontally. `n` counts the pixels assembled so far.
pub open spec fn pattern_word(low: u8, high: u8, attr: u8, flip: bool, n: nat) -> u32
    decreases n,
{
    if n == 0 {
        0
    } else {
        let k = (n - 1) as u8;
        let bit: u8 = if flip { k } else { (7 - k) as u8 };
        let p1: u8 = (low >> bit) & 1;
        let p2: u8 = ((high >> bit) & 1) << 1u8;
        (pattern_word(low, high, attr, flip, (n - 1) as nat) << 4u32) | ((attr | p1 | p2) as u32)
    }
}

/// PPU address of the pattern row `row` of a sprite.
pub open spec fn sprite_row_address(ctrl: PPUCtrl, tile: u8, attr: u8, row: int) -> int {
    if ctrl.0 & 0x20 == 0 {
        let r = if attr & 0x80 == 0x80 { 7 - row } else { row };
        (if ctrl.0 & 0x08 == 0 { 0int } else { 0x1000int }) + tile * 16 + r
    } else {
        let r = if attr & 0x80 == 0x80 { 15 - row } else { row };
        let table = (tile & 1) as int;
        let t = (tile & 0xfe) as int;
        if r > 7 { 0x1000 * table + (t + 1) * 16 + (r - 8) } else { 0x1000 * table + t * 16 + r }
    }
}

/// Whether sprite `i` of OAM covers the scanline.
pub open spec fn sprite_visible(oam: Seq<u8>, i: int, scanline: int, height: int) -> bool {
    0 <= scanline - oam[4 * i] < height
}

/// The OAM indexes below `n` of the sprites covering the scanline, in order.
pub open spec fn visible_upto(oam: Seq<u8>, scanline: int, height: int, n: int) -> Seq<int>
    decreases n,
{
    if n <= 0 {
        Seq::empty()
    } else if sprite_visible(oam, n - 1, scanline, height) {
        visible_upto(oam, scanline, height, n - 1).push(n - 1)
    } else {
        visible_upto(oam, scanline, height, n - 1)
    }
}

/// Every index that `visible_upto` lists lies below `n`, and there are at most `n`.
pub proof fn lemma_visible_bounds(oam: Seq<u8>, scanline: int, height: int, n: int)
    ensures
        visible_upto(oam, scanline, height, n).len() <= if n < 0 { 0 } else { n },
        forall|k: int| 0 <= k < visible_upto(oam, scanline, height, n).len()
            ==> 0 <= #[trigger] visible_upto(oam, scanline, height, n)[k] < n,
    decreases n,
{
    if n > 0 {
        lemma_visible_bounds(oam, scanline, height, n - 1);
    }
}

/// Palette RAM offset chosen for a pixel from its background and sprite colour
/// indices and the sprite's priority bit (0 = in front of the background).
pub open spec fn pixel_source(bg: u8, sprite: u8, priority: u8) -> u16 {
    let b = bg % 4 != 0;
    let s = sprite % 4 != 0;
    if !b && !s {
        0
    } else if !b && s {
        (sprite | 0x10) as u16
    } else if b && !s {
        bg as u16
    } else if priority == 0 {
        (sprite | 0x10) as u16
    } else {
        bg as u16
    }
}

impl PPU {
    /// Colour index (0 to 15) of sprite slot `i` at the current dot; 0 when the
    /// slot does not cover it.
    pub open spec fn sprite_color(&self, i: int) -> u8 {
        let off = self.dot as int - 1 - self.sprite_positions@[i] as int;
        if 0 <= off <= 7 {
            ((self.sprite_patterns@[i] >> ((7 - off) * 4) as u32) & 0x0f) as u8
        } else {
            0
        }
    }

    /// The first slot from `i` on whose pixel at the current dot is opaque.
    pub open spec fn first_opaque(&self, i: int) -> Option<(int, u8)>
        decreases 8 - i,
    {
        if i >= self.sprite_count || i >= 8 || i < 0 {
            None
        } else if self.sprite_color(i) % 4 != 0 {
            Some((i, self.sprite_color(i)))
        } else {
            self.first_opaque(i + 1)
        }
    }

    pub proof fn lemma_first_opaque_bounds(&self, j: int)
        requires
            self.sprite_count <= 8,
        ensures
            self.first_opaque(j) matches Some((i, c)) ==> 0 <= j <= i < self.sprite_count,
        decreases 8 - j,
    {
        if j < self.sprite_count && j < 8 && j >= 0 && self.sprite_color(j) % 4 == 0 {
            self.lemma_first_opaque_bounds(j + 1);
        }
    }

    pub open spec fn background_spec(&self) -> Option<u8> {
        if self.regs.mask.0 & 0x08 == 0 {
            None
        } else {
            Some(((((self.tile_data >> 32u64) as u32) >> ((7 - self.regs.x) * 4) as u32) & 0x0f) as u8)
        }
    }

    pub open spec fn sprite_spec(&self) -> Option<(int, u8)> {
        if self.regs.mask.0 & 0x10 == 0 { None } else { self.first_opaque(0) }
    }

    /// Background colour index of the current pixel after left-column masking.
    pub open spec fn pixel_bg(&self) -> u8 {
        let bg = match self.background_spec() { Some(c) => c, None => 0 };
        if self.dot - 1 < 8 && self.regs.mask.0 & 0x02 == 0 { 0 } else { bg }
    }

    /// Sprite slot and colour index of the current pixel after left-column masking.
    pub open spec fn pixel_sprite(&self) -> (int, u8) {
        let (i, s) = match self.sprite_spec() { Some(p) => p, None => (0, 0) };
        (i, if self.dot - 1 < 8 && self.regs.mask.0 & 0x04 == 0 { 0 } else { s })
    }

    fn increment_x(&mut self)
        ensures
            final(self).regs.v == increment_x_spec(old(self).regs.v),
            final(self).regs == (crate::ppu::PpuRegs { v: final(self).regs.v, ..old(self).regs }),
            *final(self) == (PPU { regs: final(self).regs, ..*old(self) }),
    {
        let v = self.regs.v;
        if v & 0x001f == 31 {
            self.regs.v = (v & 0xffe0) ^ 0x0400;
        } else {
            self.regs.v = v.wrapping_add(1);
        }
    }

    fn increment_y(&mut self)
        ensures
            final(self).regs.v == increment_y_spec(old(self).regs.v),
            final(self).regs == (crate::ppu::PpuRegs { v: final(self).regs.v, ..old(self).regs }),
            *final(self) == (PPU { regs: final(self).regs, ..*old(self) }),
    {
        let v = self.regs.v;
        if v & 0x7000 != 0x7000 {
            self.regs.v = v.wrapping_add(0x1000);
        } else {
            let v1 = v & 0x8fff;
            let y = (v1 & 0x03e0) >> 5;
            let v2 = if y == 29 { v1 ^ 0x0800 } else { v1 };
            let y2: u16 = if y == 29 || y == 31 { 0 } else { y.wrapping_add(1) };
            self.regs.v = (v2 & 0xfc1f) | (y2 << 5);
        }
    }

    fn fetch_nametable_byte(&self, cart: &Cartridge) -> (r: u8)
        requires
            self.wf(),
            cart.wf(),
        ensures
            r == self.vram_spec(*cart, 0x2000 | (self.regs.v & 0x0fff)),
    {
        self.vram_read(cart, 0x2000 | (self.regs.v & 0x0fff))
    }

    /// The 2-bit palette select of the current tile, shifted into bits 2-3.
    fn fetch_attrtable_byte(&self, cart: &Cartridge) -> (r: u8)
        requires
            self.wf(),
            cart.wf(),
        ensures
            ({
                let v = self.regs.v;
                let addr = 0x23c0u16 | (v & 0x0c00) | ((v >> 4u16) & 0x38) | ((v >> 2u16) & 0x07);
                let shift = ((v >> 4u16) & 4) | (v & 2);
                r == ((self.vram_spec(*cart, addr) >> (shift as u8)) & 3) << 2u8
            }),
    {
        let v = self.regs.v;
        let addr = 0x23c0u16 | (v & 0x0c00) | ((v >> 4u16) & 0x38) | ((v >> 2u16) & 0x07);
        let attrbyte = self.vram_read(cart, addr);
        let shift = ((v >> 4u16) & 4) | (v & 2);
        assert(((v >> 4u16) & 4) | (v & 2) <= 6) by (bit_vector);
        ((attrbyte >> (shift as u8)) & 3) << 2u8
    }

    /// Address of the current background pattern row (low plane).
    fn tile_row_address(&self) -> (r: u16)
        ensures
            r == self.regs.ctrl.background_pattern_table_addr_spec() + ((self.regs.v >> 12u16) & 7)
                + 16 * self.nametable_byte,
    {
        let fine_y = (self.regs.v >> 12u16) & 7;
        self.regs.ctrl.background_pattern_table_addr() + fine_y + 16 * (self.nametable_byte as u16)
    }

    fn store_tile_data(&mut self)
        ensures
            final(self).tile_data == old(self).tile_data | (pattern_word(
                old(self).low_tile_byte,
                old(self).high_tile_byte,
                old(self).attrtable_byte,
                false,
                8,
            ) as u64),
            *final(self) == (PPU { tile_data: final(self).tile_data, ..*old(self) }),
    {
        let data = tile_pattern(self.low_tile_byte, self.high_tile_byte, self.attrtable_byte, false);
        self.tile_data = self.tile_data | (data as u64);
    }

    fn background_pixel(&self) -> (r: Option<u8>)
        requires
            self.wf(),
        ensures
            r == self.background_spec(),
    {
        if self.regs.mask.0 & 0x08 == 0 {
            return None;
        }
        let tile = ((self.tile_data >> 32u64) as u32) >> (((7 - self.regs.x) * 4) as u32);
        Some((tile & 0x0f) as u8)
    }

    fn sprite_pixel(&self) -> (r: Option<(usize, u8)>)
        requires
            self.wf(),
        ensures
            match r {
                Some((i, c)) => self.sprite_spec() == Some((i as int, c)),
                None => self.sprite_spec().is_none(),
            },
    {
        if self.regs.mask.0 & 0x10 == 0 {
            return None;
        }
        let mut i: usize = 0;
        while i < self.sprite_count
            invariant
                self.wf(),
                i <= self.sprite_count,
                self.first_opaque(0) == self.first_opaque(i as int),
                self.regs.mask.0 & 0x10 != 0,
            decreases self.sprite_count - i,
        {
            let pos = self.sprite_positions[i] as i32;
            let offset = (self.dot as i32 - 1) - pos;
            if 0 <= offset && offset <= 7 {
                let color = ((self.sprite_patterns[i] >> (((7 - offset) * 4) as u32)) & 0x0f) as u8;
                assert(color == self.sprite_color(i as int));
                if color % 4 != 0 {
                    assert(self.first_opaque(i as int) == Some((i as int, color)));
                    return Some((i, color));
                }
            }
            i = i + 1;
        }
        None
    }

    /// The pattern word of sprite `i` of OAM for its row `row` (0 to height - 1).
    #[verifier::spinoff_prover]
    fn fetch_sprite_pattern(&self, cart: &Cartridge, i: u16, row: u8) -> (r: u32)
        requires
            self.wf(),
            cart.wf(),
            i < 64,
            row < (if self.regs.ctrl.0 & 0x20 == 0 { 8u8 } else { 16u8 }),
        ensures
            ({
                let tile = self.oam.data@[4 * i + 1];
                let attr = self.oam.data@[4 * i + 2];
                let address = sprite_row_address(self.regs.ctrl, tile, attr, row as int);
                r == pattern_word(
                    self.vram_spec(*cart, address as u16),
                    self.vram_spec(*cart, (address + 8) as u16),
                    (attr & 3) << 2u8,
                    attr & 0x40 == 0x40,
                    8,
                )
            }),
            r == self.sprite_row_pattern(*cart, i as int, row as int),
    {
        let tile = self.oam.read(i * 4 + 1);
        let attr = self.oam.read(i * 4 + 2);
        let address = sprite_row_addr(self.regs.ctrl, tile, attr, row);
        let low = self.vram_read(cart, address);
        let high = self.vram_read(cart, address + 8);
        tile_pattern(low, high, (attr & 3) << 2u8, attr & 0x40 == 0x40)
    }
}

/// The pattern word of a sprite row, fetched during sprite evaluation.
fn sprite_pattern(ppu: &PPU, cart: &Cartridge, i: u16, row: u8) -> (r: u32)
    requires
        ppu.wf(),
        cart.wf(),
        i < 64,
        row < (if ppu.regs.ctrl.0 & 0x20 == 0 { 8u8 } else { 16u8 }),
    ensures
        r == ppu.sprite_row_pattern(*cart, i as int, row as int),
{
    ppu.fetch_sprite_pattern(cart, i, row)
}

/// PPU address of a sprite's pattern row; see `sprite_row_address`.
fn sprite_row_addr(ctrl: PPUCtrl, tile: u8, attr: u8, row: u8) -> (r: u16)
    requires
        row < (if ctrl.0 & 0x20 == 0 { 8u8 } else { 16u8 }),
    ensures
        r as int == sprite_row_address(ctrl, tile, attr, row as int),
        r < 0x2000,
{
    let address: u16;
    if ctrl.0 & 0x20 == 0 {
        let r: u16 = if attr & 0x80 == 0x80 { 7 - row as u16 } else { row as u16 };
        address = ctrl.sprite_pattern_table_addr() + (tile as u16) * 16 + r;
    } else {
        let r: u16 = if attr & 0x80 == 0x80 { 15 - row as u16 } else { row as u16 };
        let table = (tile & 1) as u16;
        let t = (tile & 0xfe) as u16;
        if r > 7 {
            address = 0x1000 * table + (t + 1) * 16 + (r - 8);
        } else {
            address = 0x1000 * table + t * 16 + r;
        }
    }
    address
}


impl PPU {
    /// Selects the sprites of the next scanline: the first eight OAM entries
    /// that cover it, in OAM order; more than eight sets the overflow flag.
    #[verifier::spinoff_prover]
    #[verifier::rlimit(100)]
    fn evaluate_sprites(&mut self, cart: &Cartridge)
        requires
            old(self).wf(),
            cart.wf(),
        ensures
            final(self).wf(),
            ({
                let height = if old(self).regs.ctrl.0 & 0x20 == 0 { 8int } else { 16int };
                let vis = visible_upto(old(self).oam.data@, old(self).scanline as int, height, 64);
                &&& final(self).sprite_count == (if vis.len() > 8 { 8 } else { vis.len() })
                &&& final(self).regs.status.0 == (if vis.len() > 8 {
                    old(self).regs.status.0 | 0x20
                } else {
                    old(self).regs.status.0
                })
                &&& forall|k: int| 0 <= k < final(self).sprite_count ==> {
                    &&& #[trigger] final(self).sprite_indexes@[k] as int == vis[k]
                    &&& final(self).sprite_positions@[k] == old(self).oam.data@[4 * vis[k] + 3]
                    &&& final(self).sprite_priorities@[k]
                        == (old(self).oam.data@[4 * vis[k] + 2] >> 5u8) & 1
                    &&& final(self).sprite_patterns@[k] == old(self).sprite_row_pattern(*cart, vis[k],
                        old(self).scanline - old(self).oam.data@[4 * vis[k]])
                }
                &&& forall|k: int| final(self).sprite_count <= k < 8 ==> {
                    &&& #[trigger] final(self).sprite_indexes@[k] == old(self).sprite_indexes@[k]
                    &&& final(self).sprite_positions@[k] == old(self).sprite_positions@[k]
                    &&& final(self).sprite_priorities@[k] == old(self).sprite_priorities@[k]
                    &&& final(self).sprite_patterns@[k] == old(self).sprite_patterns@[k]
                }
            }),
            *final(self) == (PPU {
                sprite_count: final(self).sprite_count,
                sprite_patterns: final(self).sprite_patterns,
                sprite_positions: final(self).sprite_positions,
                sprite_priorities: final(self).sprite_priorities,
                sprite_indexes: final(self).sprite_indexes,
                regs: final(self).regs,
                ..*old(self)
            }),
            final(self).regs == (crate::ppu::PpuRegs { status: final(self).regs.status, ..old(self).regs }),
            final(self).oam == old(self).oam,
            final(self).nametables == old(self).nametables,
            final(self).palette == old(self).palette,
            final(self).framebuffer == old(self).framebuffer,
            final(self).dot == old(self).dot,
            final(self).scanline == old(self).scanline,
            final(self).odd_frame == old(self).odd_frame,
            final(self).tile_data == old(self).tile_data,
    {
        let sz = self.regs.ctrl.sprite_size();
        let ghost height: int = if self.regs.ctrl.0 & 0x20 == 0 { 8int } else { 16int };
        let mut count: usize = 0;
        let mut i: u16 = 0;
        while i < 64
            invariant
                self.wf(),
                cart.wf(),
                i <= 64,
                sz as int == height,
                height == (if old(self).regs.ctrl.0 & 0x20 == 0 { 8int } else { 16int }),
                count as int == visible_upto(self.oam.data@, self.scanline as int, height, i as int).len(),
                count <= i,
                forall|k: int| 0 <= k < count && k < 8 ==> {
                    let vis = visible_upto(self.oam.data@, self.scanline as int, height, i as int);
                    &&& #[trigger] self.sprite_indexes@[k] as int == vis[k]
                    &&& self.sprite_positions@[k] == self.oam.data@[4 * vis[k] + 3]
                    &&& self.sprite_priorities@[k] == (self.oam.data@[4 * vis[k] + 2] >> 5u8) & 1
                    &&& self.sprite_patterns@[k] == old(self).sprite_row_pattern(*cart, vis[k],
                        old(self).scanline - old(self).oam.data@[4 * vis[k]])
                },
                forall|k: int| count <= k < 8 ==> {
                    &&& #[trigger] self.sprite_indexes@[k] == old(self).sprite_indexes@[k]
                    &&& self.sprite_positions@[k] == old(self).sprite_positions@[k]
                    &&& self.sprite_priorities@[k] == old(self).sprite_priorities@[k]
                    &&& self.sprite_patterns@[k] == old(self).sprite_patterns@[k]
                },
                *self == (PPU {
                    sprite_patterns: self.sprite_patterns,
                    sprite_positions: self.sprite_positions,
                    sprite_priorities: self.sprite_priorities,
                    sprite_indexes: self.sprite_indexes,
                    ..*old(self)
                }),
                self.regs == old(self).regs,
                self.oam == old(self).oam,
                self.nametables == old(self).nametables,
                self.palette == old(self).palette,
                self.framebuffer == old(self).framebuffer,
                self.dot == old(self).dot,
                self.scanline == old(self).scanline,
                self.odd_frame == old(self).odd_frame,
                self.tile_data == old(self).tile_data,
                self.sprite_count == old(self).sprite_count,
            decreases 64 - i,
        {
            let ghost vis0 = visible_upto(self.oam.data@, self.scanline as int, height, i as int);
            let ghost idx0 = self.sprite_indexes@;
            let ghost pos0 = self.sprite_positions@;
            let ghost pri0 = self.sprite_priorities@;
            let ghost pat0 = self.sprite_patterns@;
            let ghost count0 = count;
            let y = self.oam.read(i * 4);
            let a = self.oam.read(i * 4 + 2);
            let x = self.oam.read(i * 4 + 3);
            let row: i32 = self.scanline as i32 - y as i32;
            if 0 <= row && row < sz as i32 {
                if count < 8 {
                    let pattern = sprite_pattern(self, cart, i, row as u8);
                    assert(pattern == old(self).sprite_row_pattern(*cart, i as int, row as int));
                    self.sprite_patterns.set(count, pattern);
                    self.sprite_positions.set(count, x);
                    self.sprite_priorities.set(count, (a >> 5u8) & 1);
                    self.sprite_indexes.set(count, i as u8);
                }
                count = count + 1;
            }
            i = i + 1;
            proof {
                let vis1 = visible_upto(self.oam.data@, self.scanline as int, height, i as int);
                lemma_visible_bounds(self.oam.data@, self.scanline as int, height, i as int);
                lemma_visible_bounds(self.oam.data@, self.scanline as int, height, i - 1);
                if sprite_visible(self.oam.data@, i - 1, self.scanline as int, height) {
                    assert(vis1 == vis0.push(i - 1));
                } else {
                    assert(vis1 == vis0);
                }
                assert forall|k: int| 0 <= k < count && k < 8 implies {
                    &&& #[trigger] self.sprite_indexes@[k] as int == vis1[k]
                    &&& self.sprite_positions@[k] == self.oam.data@[4 * vis1[k] + 3]
                    &&& self.sprite_priorities@[k] == (self.oam.data@[4 * vis1[k] + 2] >> 5u8) & 1
                    &&& self.sprite_patterns@[k] == old(self).sprite_row_pattern(*cart, vis1[k],
                        old(self).scanline - old(self).oam.data@[4 * vis1[k]])
                } by {
                    if k < count0 {
                        assert(vis1[k] == vis0[k]);
                        assert(idx0[k] as int == vis0[k]);
                        assert(self.sprite_indexes@[k] == idx0[k]);
                        assert(self.sprite_positions@[k] == pos0[k]);
                        assert(self.sprite_priorities@[k] == pri0[k]);
                        assert(self.sprite_patterns@[k] == pat0[k]);
                    } else {
                        assert(k == count0);
                        assert(vis1[k] == i - 1);
                    }
                }
                assert forall|k: int| count <= k < 8 implies {
                    &&& #[trigger] self.sprite_indexes@[k] == old(self).sprite_indexes@[k]
                    &&& self.sprite_positions@[k] == old(self).sprite_positions@[k]
                    &&& self.sprite_priorities@[k] == old(self).sprite_priorities@[k]
                    &&& self.sprite_patterns@[k] == old(self).sprite_patterns@[k]
                } by {
                    assert(self.sprite_indexes@[k] == idx0[k]);
                    assert(self.sprite_positions@[k] == pos0[k]);
                    assert(self.sprite_priorities@[k] == pri0[k]);
                    assert(self.sprite_patterns@[k] == pat0[k]);
                }
            }
        }
        if count > 8 {
            count = 8;
            self.regs.status.set_sprite_overflow();
        }
        self.sprite_count = count;
    }

    /// Composes the pixel at the current dot and stores its palette index.
    #[verifier::spinoff_prover]
    fn render_pixel(&mut self, cart: &Cartridge)
        requires
            old(self).wf(),
            cart.wf(),
            1 <= old(self).dot <= 256,
            old(self).scanline < 240,
        ensures
            final(self).wf(),
            old(self).pixel_sprite().0 < 8,
            ({
                let bg = old(self).pixel_bg();
                let (i, sp) = old(self).pixel_sprite();
                let source = pixel_source(bg, sp, old(self).sprite_priorities@[i]);
                let x = old(self).dot - 1;
                let hit = bg % 4 != 0 && sp % 4 != 0 && old(self).sprite_indexes@[i] == 0 && x < 255;
                &&& final(self).framebuffer@ == old(self).framebuffer@.update(
                    old(self).scanline * 256 + x,
                    old(self).vram_spec(*cart, 0x3f00u16 | source) % 64,
                )
                &&& final(self).regs.status.0 == (if hit {
                    old(self).regs.status.0 | 0x40
                } else {
                    old(self).regs.status.0
                })
            }),
            final(self).regs == (crate::ppu::PpuRegs { status: final(self).regs.status, ..old(self).regs }),
            final(self).oam == old(self).oam,
            final(self).nametables == old(self).nametables,
            final(self).palette == old(self).palette,
            final(self).dot == old(self).dot,
            final(self).scanline == old(self).scanline,
            final(self).odd_frame == old(self).odd_frame,
            final(self).tile_data == old(self).tile_data,
            final(self).sprite_count == old(self).sprite_count,
            *final(self) == (PPU { framebuffer: final(self).framebuffer, regs: final(self).regs, ..*old(self) }),
    {
        let x = (self.dot - 1) as usize;
        let y = self.scanline as usize;
        let mut bg = match self.background_pixel() {
            Some(c) => c,
            None => 0,
        };
        let (i, mut sp) = match self.sprite_pixel() {
            Some(p) => p,
            None => (0, 0),
        };
        if x < 8 && !self.regs.mask.show_background_leftmost() {
            bg = 0;
        }
        if x < 8 && !self.regs.mask.show_sprites_leftmost() {
            sp = 0;
        }
        proof {
            self.lemma_first_opaque_bounds(0);
        }
        let priority = self.sprite_priorities[i];
        if bg % 4 != 0 && sp % 4 != 0 && self.sprite_indexes[i] == 0 && x < 255 {
            self.regs.status.set_sprite_zero_hit();
        }
        let source = choose_source(bg, sp, priority);
        let color = self.vram_read(cart, 0x3f00u16 | source) % 64;
        self.framebuffer.set(y * SCREEN_WIDTH + x, color);
    }

    /// Advances one dot; returns whether a delayed NMI falls due now.
    fn tick(&mut self) -> (nmi: bool)
        requires
            old(self).wf(),
        ensures
            final(self).wf(),
            (final(self).dot, final(self).scanline, final(self).odd_frame) == tick_spec(
                old(self).dot,
                old(self).scanline,
                old(self).odd_frame,
                old(self).rendering_enabled(),
            ),
            final(self).regs.nmi_delay == (if old(self).regs.nmi_delay > 0 {
                old(self).regs.nmi_delay - 1
            } else {
                0
            }),
            nmi == (old(self).regs.nmi_delay == 1 && old(self).regs.nmi_output
                && old(self).regs.nmi_occurred),
            final(self).regs == (crate::ppu::PpuRegs { nmi_delay: final(self).regs.nmi_delay, ..old(self).regs }),
            final(self).oam == old(self).oam,
            final(self).nametables == old(self).nametables,
            final(self).palette == old(self).palette,
            final(self).framebuffer == old(self).framebuffer,
            final(self).sprite_count == old(self).sprite_count,
            *final(self) == old(self).ticked(),
    {
        let mut nmi = false;
        if self.regs.nmi_delay > 0 {
            self.regs.nmi_delay = self.regs.nmi_delay - 1;
            if self.regs.nmi_delay == 0 && self.regs.nmi_output && self.regs.nmi_occurred {
                nmi = true;
            }
        }
        let rendering = self.regs.mask.show_background() || self.regs.mask.show_sprites();
        if rendering && self.odd_frame && self.scanline == 261 && self.dot == 339 {
            self.dot = 0;
            self.scanline = 0;
            self.odd_frame = false;
            return nmi;
        }
        self.dot = self.dot + 1;
        if self.dot == 341 {
            self.dot = 0;
            self.scanline = self.scanline + 1;
            if self.scanline > 261 {
                self.scanline = 0;
                self.odd_frame = !self.odd_frame;
            }
        }
        nmi
    }

    /// The pixel of this dot, when it outputs one.
    #[verifier::spinoff_prover]
    fn pixel_part(&mut self, cart: &Cartridge)
        requires
            old(self).wf(),
            cart.wf(),
            old(self).rendering_enabled(),
        ensures
            final(self).wf(),
            final(self).framebuffer@ == old(self).framebuffer_after(*cart),
            final(self).regs.status == (if old(self).pixel_dot() { old(self).status_after() } else {
                old(self).regs.status
            }),
            *final(self) == (PPU {
                framebuffer: final(self).framebuffer,
                regs: crate::ppu::PpuRegs { status: final(self).regs.status, ..old(self).regs },
                ..*old(self)
            }),
    {
        if self.scanline <= 239 && self.dot >= 1 && self.dot <= 256 {
            self.render_pixel(cart);
        }
    }

    /// The background fetch of this dot: one of the nametable, attribute and
    /// two pattern bytes, or the store of the assembled tile, on a shifted pipeline.
    #[verifier::spinoff_prover]
    fn fetch_part(&mut self, cart: &Cartridge)
        requires
            old(self).wf(),
            cart.wf(),
            old(self).rendering_enabled(),
        ensures
            final(self).wf(),
            (final(self).nametable_byte, final(self).attrtable_byte, final(self).low_tile_byte,
                final(self).high_tile_byte, final(self).tile_data) == old(self).fetch_after(*cart),
            *final(self) == (PPU {
                nametable_byte: final(self).nametable_byte,
                attrtable_byte: final(self).attrtable_byte,
                low_tile_byte: final(self).low_tile_byte,
                high_tile_byte: final(self).high_tile_byte,
                tile_data: final(self).tile_data,
                ..*old(self)
            }),
    {
        let render_line = self.scanline == 261 || self.scanline <= 239;
        let fetch_cycle = (self.dot >= 321 && self.dot <= 336) || (self.dot >= 1 && self.dot <= 256);
        if render_line && fetch_cycle {
            self.tile_data = self.tile_data << 4u64;
            let phase = self.dot % 8;
            if phase == 1 {
                self.nametable_byte = self.fetch_nametable_byte(cart);
            } else if phase == 3 {
                self.attrtable_byte = self.fetch_attrtable_byte(cart);
            } else if phase == 5 {
                let addr = self.tile_row_address();
                self.low_tile_byte = self.vram_read(cart, addr);
            } else if phase == 7 {
                let addr = self.tile_row_address();
                self.high_tile_byte = self.vram_read(cart, addr + 8);
            } else if phase == 0 {
                self.store_tile_data();
            }
        }
    }

    /// The scroll copies and increments of this dot.
    #[verifier::spinoff_prover]
    fn scroll_part(&mut self)
        requires
            old(self).rendering_enabled(),
        ensures
            *final(self) == (PPU {
                regs: crate::ppu::PpuRegs { v: old(self).v_after(), ..old(self).regs },
                ..*old(self)
            }),
    {
        let pre_line = self.scanline == 261;
        let render_line = pre_line || self.scanline <= 239;
        let fetch_cycle = (self.dot >= 321 && self.dot <= 336) || (self.dot >= 1 && self.dot <= 256);
        if pre_line && self.dot >= 280 && self.dot <= 304 {
            self.regs.v = (self.regs.v & 0x841f) | (self.regs.t & 0x7be0);
        }
        if render_line {
            if fetch_cycle && self.dot % 8 == 0 {
                self.increment_x();
            }
            if self.dot == 256 {
                self.increment_y();
            }
            if self.dot == 257 {
                self.regs.v = (self.regs.v & 0xfbe0) | (self.regs.t & 0x041f);
            }
        }
    }

    /// Sprite evaluation at dot 257 of a visible line; other lines drop their sprites.
    #[verifier::spinoff_prover]
    fn sprite_part(&mut self, cart: &Cartridge)
        requires
            old(self).wf(),
            cart.wf(),
            old(self).rendering_enabled(),
        ensures
            final(self).wf(),
            old(self).sprites_post(*cart, *final(self)),
            final(self).regs.status == (if old(self).sprite_dot() && old(self).scanline <= 239 {
                old(self).status_after()
            } else {
                old(self).regs.status
            }),
            *final(self) == (PPU {
                sprite_count: final(self).sprite_count,
                sprite_patterns: final(self).sprite_patterns,
                sprite_positions: final(self).sprite_positions,
                sprite_priorities: final(self).sprite_priorities,
                sprite_indexes: final(self).sprite_indexes,
                regs: crate::ppu::PpuRegs { status: final(self).regs.status, ..old(self).regs },
                ..*old(self)
            }),
    {
        if self.dot == 257 {
            if self.scanline <= 239 {
                let ghost o = *self;
                self.evaluate_sprites(cart);
                proof {
                    let vis = o.visible_sprites();
                    lemma_visible_bounds(o.oam.data@, o.scanline as int, o.sprite_height(), 64);
                    let n: int = if vis.len() > 8 { 8 } else { vis.len() as int };
                    assert(self.sprite_count == n);
                    assert forall|k: int| 0 <= k < n implies {
                        &&& #[trigger] self.sprite_indexes@[k] as int == vis[k]
                        &&& self.sprite_positions@[k] == o.oam.data@[4 * vis[k] + 3]
                        &&& self.sprite_priorities@[k] == (o.oam.data@[4 * vis[k] + 2] >> 5u8) & 1
                        &&& self.sprite_patterns@[k] == o.sprite_row_pattern(*cart, vis[k],
                            o.scanline - o.oam.data@[4 * vis[k]])
                    } by {}
                    assert forall|k: int| n <= k < 8 implies {
                        &&& #[trigger] self.sprite_indexes@[k] == o.sprite_indexes@[k]
                        &&& self.sprite_positions@[k] == o.sprite_positions@[k]
                        &&& self.sprite_priorities@[k] == o.sprite_priorities@[k]
                        &&& self.sprite_patterns@[k] == o.sprite_patterns@[k]
                    } by {
                        assert(self.sprite_count as int <= k);
                        assert(self.sprite_indexes@[k] == o.sprite_indexes@[k]);
                    }
                }
            } else {
                self.sprite_count = 0;
            }
        }
    }

    /// The rendering work of one dot while rendering is enabled: the pixel,
    /// the background fetch, the scroll copies and increments, and sprite
    /// evaluation. `render_post` gives every field after it.
    #[verifier::spinoff_prover]
    #[verifier::rlimit(100)]
    fn render_dot(&mut self, cart: &Cartridge)
        requires
            old(self).wf(),
            cart.wf(),
            old(self).rendering_enabled(),
        ensures
            final(self).wf(),
            old(self).render_post(*cart, *final(self)),
    {
        let ghost p0 = *self;
        self.pixel_part(cart);
        let ghost p1 = *self;
        self.fetch_part(cart);
        let ghost p2 = *self;
        self.scroll_part();
        let ghost p3 = *self;
        self.sprite_part(cart);
        proof {
            assert(p1.fetch_after(*cart) == p0.fetch_after(*cart));
            assert(p2.v_after() == p0.v_after());
            assert(p3.visible_sprites() == p0.visible_sprites());
            assert(p3.sprite_dot() == p0.sprite_dot());
            assert forall|i: int, row: int| #[trigger] p3.sprite_row_pattern(*cart, i, row)
                == p0.sprite_row_pattern(*cart, i, row) by {}
            assert(p3.oam == p0.oam && p3.scanline == p0.scanline && p3.dot == p0.dot);
            assert(p3.sprite_count == p0.sprite_count && p3.sprite_indexes == p0.sprite_indexes
                && p3.sprite_positions == p0.sprite_positions && p3.sprite_priorities == p0.sprite_priorities
                && p3.sprite_patterns == p0.sprite_patterns);
            assert(p0.sprites_post(*cart, *self));
        }
    }

    /// Runs one PPU dot: timing, background fetches and scroll updates, sprite
    /// evaluation, pixel output, and the vblank flag and NMI.
    #[verifier::spinoff_prover]
    #[verifier::rlimit(100)]
    pub fn step(&mut self, cart: &Cartridge) -> (res: StepResult)
        requires
            old(self).wf(),
            cart.wf(),
        ensures
            final(self).wf(),
            (final(self).dot, final(self).scanline, final(self).odd_frame) == tick_spec(
                old(self).dot,
                old(self).scanline,
                old(self).odd_frame,
                old(self).rendering_enabled(),
            ),
            res.trigger_nmi == (old(self).regs.nmi_delay == 1 && old(self).regs.nmi_output
                && old(self).regs.nmi_occurred),
            res.frame_finished == (final(self).scanline == 241 && final(self).dot == 1),
            res.trigger_irq == cart.spec_irq_flag(),
            res.signal_scanline == (old(self).rendering_enabled() && final(self).dot == 280
                && (final(self).scanline == 261 || final(self).scanline <= 239)),
            final(self).scanline == 241 && final(self).dot == 1 ==> final(self).regs.nmi_occurred,
            final(self).scanline == 261 && final(self).dot == 1 ==> {
                &&& !final(self).regs.nmi_occurred
                &&& final(self).regs.status.0 & 0x60 == 0
            },
            !(final(self).scanline == 241 && final(self).dot == 1) && !(final(self).scanline == 261
                && final(self).dot == 1) ==> final(self).regs.nmi_occurred == old(self).regs.nmi_occurred,
            final(self).regs.ctrl == old(self).regs.ctrl,
            final(self).regs.mask == old(self).regs.mask,
            final(self).regs.last_value == old(self).regs.last_value,
            old(self).step_post(*cart, *final(self)),
            !old(self).rendering_enabled() && !(final(self).scanline == 261 && final(self).dot == 1)
                ==> final(self).regs.status == old(self).regs.status,
            final(self).oam == old(self).oam,
            final(self).nametables == old(self).nametables,
            final(self).palette == old(self).palette,
    {
        let trigger_nmi = self.tick();
        let ghost m = *self;
        let mut res = StepResult {
            trigger_nmi,
            trigger_irq: false,
            frame_finished: false,
            signal_scanline: false,
        };
        let rendering = self.regs.mask.show_background() || self.regs.mask.show_sprites();
        let pre_line = self.scanline == 261;
        let render_line = pre_line || self.scanline <= 239;
        if rendering {
            self.render_dot(cart);
        }
        let ghost a = *self;
        proof {
            if !rendering {
                assert(m.regs == (crate::ppu::PpuRegs { v: m.v_after(), status: m.status_after(), ..m.regs }));
                assert(m.render_post(*cart, a));
            }
        }
        if self.scanline == 241 && self.dot == 1 {
            self.regs.nmi_occurred = true;
            self.nmi_change();
            res.frame_finished = true;
        } else {
            if render_line && rendering && self.dot == 280 {
                res.signal_scanline = true;
            }
            if pre_line && self.dot == 1 {
                let s0 = self.regs.status.0;
                self.regs.status.clear_sprite_zero_hit();
                self.regs.status.clear_sprite_overflow();
                assert(((s0 & 0xbf) & 0xdf) & 0x60 == 0) by (bit_vector);
                self.regs.nmi_occurred = false;
                self.nmi_change();
            }
        }
        res.trigger_irq = cart.irq_flag();
        proof {
            let at_pre = m.scanline == 261 && m.dot == 1;
            let normal = PPU {
                regs: crate::ppu::PpuRegs {
                    nmi_occurred: m.regs.nmi_occurred,
                    nmi_previous: m.regs.nmi_previous,
                    nmi_delay: m.regs.nmi_delay,
                    status: if at_pre { m.status_after() } else { self.regs.status },
                    ..self.regs
                },
                ..*self
            };
            assert(normal.regs == a.regs);
            assert(normal == a);
        }
        res
    }
}

impl PPU {
    /// One whole PPU dot: `ticked` for the timing, `render_post` for the
    /// rendering work, and the vblank flag, NMI line and sprite flags at
    /// scanline 241 dot 1 and scanline 261 dot 1. Every field of `a` is fixed.
    pub open spec fn step_post(&self, cart: Cartridge, a: PPU) -> bool {
        let m = self.ticked();
        let at_vblank = m.scanline == 241 && m.dot == 1;
        let at_pre = m.scanline == 261 && m.dot == 1;
        &&& m.render_post(cart, PPU {
            regs: crate::ppu::PpuRegs {
                nmi_occurred: m.regs.nmi_occurred,
                nmi_previous: m.regs.nmi_previous,
                nmi_delay: m.regs.nmi_delay,
                status: if at_pre { m.status_after() } else { a.regs.status },
                ..a.regs
            },
            ..a
        })
        &&& at_pre ==> a.regs.status.0 == (m.status_after().0 & 0xbf) & 0xdf
        &&& at_vblank ==> {
            let r2 = crate::ppu::nmi_change_spec(crate::ppu::PpuRegs { nmi_occurred: true, ..m.regs });
            &&& a.regs.nmi_occurred
            &&& a.regs.nmi_previous == r2.nmi_previous
            &&& a.regs.nmi_delay == r2.nmi_delay
        }
        &&& at_pre ==> {
            let r2 = crate::ppu::nmi_change_spec(crate::ppu::PpuRegs { nmi_occurred: false, ..m.regs });
            &&& !a.regs.nmi_occurred
            &&& a.regs.nmi_previous == r2.nmi_previous
            &&& a.regs.nmi_delay == r2.nmi_delay
        }
        &&& !at_vblank && !at_pre ==> {
            &&& a.regs.nmi_occurred == m.regs.nmi_occurred
            &&& a.regs.nmi_previous == m.regs.nmi_previous
            &&& a.regs.nmi_delay == m.regs.nmi_delay
        }
    
    }
}

/// Frame determinism: two runs of a dot from the same PPU and cartridge end
/// in the same PPU (memories compared by their contents), so a fixed ROM and
/// input sequence give the same framebuffers on every run.
pub proof fn lemma_step_deterministic(p: PPU, cart: Cartridge, a1: PPU, a2: PPU)
    requires
        p.wf(),
        a1.wf(),
        a2.wf(),
        p.step_post(cart, a1),
        p.step_post(cart, a2),
    ensures
        a1.regs == a2.regs,
        a1.dot == a2.dot && a1.scanline == a2.scanline && a1.odd_frame == a2.odd_frame,
        a1.oam == a2.oam && a1.nametables == a2.nametables && a1.palette == a2.palette,
        a1.framebuffer@ == a2.framebuffer@,
        a1.nametable_byte == a2.nametable_byte && a1.attrtable_byte == a2.attrtable_byte,
        a1.low_tile_byte == a2.low_tile_byte && a1.high_tile_byte == a2.high_tile_byte,
        a1.tile_data == a2.tile_data,
        a1.sprite_count == a2.sprite_count,
        a1.sprite_indexes@ == a2.sprite_indexes@,
        a1.sprite_positions@ == a2.sprite_positions@,
        a1.sprite_priorities@ == a2.sprite_priorities@,
        a1.sprite_patterns@ == a2.sprite_patterns@,
{
    let m = p.ticked();
    assert(a1.sprite_indexes@ =~= a2.sprite_indexes@) by {
        assert forall|k: int| 0 <= k < 8 implies a1.sprite_indexes@[k] == a2.sprite_indexes@[k] by {}
    }
    assert(a1.sprite_positions@ =~= a2.sprite_positions@) by {
        assert forall|k: int| 0 <= k < 8 implies a1.sprite_positions@[k] == a2.sprite_positions@[k] by {
            assert(a1.sprite_indexes@[k] == a2.sprite_indexes@[k]);
        }
    }
    assert(a1.sprite_priorities@ =~= a2.sprite_priorities@) by {
        assert forall|k: int| 0 <= k < 8 implies a1.sprite_priorities@[k] == a2.sprite_priorities@[k] by {
            assert(a1.sprite_indexes@[k] == a2.sprite_indexes@[k]);
        }
    }
    assert(a1.sprite_patterns@ =~= a2.sprite_patterns@) by {
        assert forall|k: int| 0 <= k < 8 implies a1.sprite_patterns@[k] == a2.sprite_patterns@[k] by {
            assert(a1.sprite_indexes@[k] == a2.sprite_indexes@[k]);
        }
    }
}

/// Palette RAM offset of a pixel; see `pixel_source`.
fn choose_source(bg: u8, sprite: u8, priority: u8) -> (r: u16)
    ensures
        r == pixel_source(bg, sprite, priority),
{
    let b = bg % 4 != 0;
    let s = sprite % 4 != 0;
    if !b && !s {
        0
    } else if !b && s {
        (sprite | 0x10) as u16
    } else if b && !s {
        bg as u16
    } else if priority == 0 {
        (sprite | 0x10) as u16
    } else {
        bg as u16
    }
}

impl PPU {
    pub open spec fn sprite_height(&self) -> int {
        if self.regs.ctrl.0 & 0x20 == 0 { 8 } else { 16 }
    }

    /// The OAM indexes of the sprites covering the current scanline.
    pub open spec fn visible_sprites(&self) -> Seq<int> {
        visible_upto(self.oam.data@, self.scanline as int, self.sprite_height(), 64)
    }

    /// The pattern word of row `row` of OAM sprite `i`.
    pub open spec fn sprite_row_pattern(&self, cart: Cartridge, i: int, row: int) -> u32 {
        let tile = self.oam.data@[4 * i + 1];
        let attr = self.oam.data@[4 * i + 2];
        let address = sprite_row_address(self.regs.ctrl, tile, attr, row);
        pattern_word(
            self.vram_spec(cart, address as u16),
            self.vram_spec(cart, (address + 8) as u16),
            (attr & 3) << 2u8,
            attr & 0x40 == 0x40,
            8,
        )
    }

    /// Whether this dot outputs a pixel.
    pub open spec fn pixel_dot(&self) -> bool {
        self.rendering_enabled() && self.scanline <= 239 && 1 <= self.dot <= 256
    }

    /// Whether the pixel of this dot sets the sprite-0 hit flag.
    pub open spec fn pixel_hit(&self) -> bool {
        let bg = self.pixel_bg();
        let (i, sp) = self.pixel_sprite();
        bg % 4 != 0 && sp % 4 != 0 && self.sprite_indexes@[i] == 0 && self.dot - 1 < 255
    }

    /// The palette index of the pixel of this dot.
    pub open spec fn pixel_color(&self, cart: Cartridge) -> u8 {
        let (i, sp) = self.pixel_sprite();
        self.vram_spec(cart, 0x3f00u16 | pixel_source(self.pixel_bg(), sp, self.sprite_priorities@[i])) % 64
    }

    pub open spec fn framebuffer_after(&self, cart: Cartridge) -> Seq<u8> {
        if self.pixel_dot() {
            self.framebuffer@.update(self.scanline * 256 + self.dot - 1, self.pixel_color(cart))
        } else {
            self.framebuffer@
        }
    }

    /// Whether this dot evaluates sprites (or, off the visible lines, clears them).
    pub open spec fn sprite_dot(&self) -> bool {
        self.rendering_enabled() && self.dot == 257
    }

    /// PPUSTATUS after the pixel (sprite-0 hit) or sprite evaluation (overflow) of this dot.
    pub open spec fn status_after(&self) -> PPUStatus {
        let s = self.regs.status.0;
        PPUStatus(
            if self.pixel_dot() {
                if self.pixel_hit() { s | 0x40 } else { s }
            } else if self.sprite_dot() && self.scanline <= 239 {
                if self.visible_sprites().len() > 8 { s | 0x20 } else { s }
            } else {
                s
            },
        )
    }

    pub open spec fn tile_row_addr_spec(&self) -> int {
        self.regs.ctrl.background_pattern_table_addr_spec() + ((self.regs.v >> 12u16) & 7)
            + 16 * self.nametable_byte
    }

    pub open spec fn attr_spec(&self, cart: Cartridge) -> u8 {
        let v = self.regs.v;
        let addr = 0x23c0u16 | (v & 0x0c00) | ((v >> 4u16) & 0x38) | ((v >> 2u16) & 0x07);
        let shift = ((v >> 4u16) & 4) | (v & 2);
        ((self.vram_spec(cart, addr) >> (shift as u8)) & 3) << 2u8
    }

    /// Nametable, attribute and pattern latches and the tile pipeline after this dot.
    pub open spec fn fetch_after(&self, cart: Cartridge) -> (u8, u8, u8, u8, u64) {
        let nt = self.nametable_byte;
        let at = self.attrtable_byte;
        let lo = self.low_tile_byte;
        let hi = self.high_tile_byte;
        if self.rendering_enabled() && (self.scanline == 261 || self.scanline <= 239)
            && ((321 <= self.dot <= 336) || (1 <= self.dot <= 256)) {
            let td = self.tile_data << 4u64;
            let phase = self.dot % 8;
            if phase == 1 {
                (self.vram_spec(cart, 0x2000u16 | (self.regs.v & 0x0fff)), at, lo, hi, td)
            } else if phase == 3 {
                (nt, self.attr_spec(cart), lo, hi, td)
            } else if phase == 5 {
                (nt, at, self.vram_spec(cart, self.tile_row_addr_spec() as u16), hi, td)
            } else if phase == 7 {
                (nt, at, lo, self.vram_spec(cart, (self.tile_row_addr_spec() + 8) as u16), td)
            } else if phase == 0 {
                (nt, at, lo, hi, td | (pattern_word(lo, hi, at, false, 8) as u64))
            } else {
                (nt, at, lo, hi, td)
            }
        } else {
            (nt, at, lo, hi, self.tile_data)
        }
    }

    /// The VRAM address after this dot's scroll copies and increments.
    pub open spec fn v_after(&self) -> u16 {
        let r = self.regs;
        let rl = self.scanline == 261 || self.scanline <= 239;
        let fc = (321 <= self.dot <= 336) || (1 <= self.dot <= 256);
        if !self.rendering_enabled() {
            r.v
        } else {
            let v1 = if self.scanline == 261 && 280 <= self.dot <= 304 {
                (r.v & 0x841f) | (r.t & 0x7be0)
            } else {
                r.v
            };
            let v2 = if rl && fc && self.dot % 8 == 0 { increment_x_spec(v1) } else { v1 };
            let v3 = if rl && self.dot == 256 { increment_y_spec(v2) } else { v2 };
            if rl && self.dot == 257 { (v3 & 0xfbe0) | (r.t & 0x041f) } else { v3 }
        }
    }

    /// The sprite slots after this dot.
    pub open spec fn sprites_post(&self, cart: Cartridge, a: PPU) -> bool {
        if self.sprite_dot() && self.scanline <= 239 {
            let vis = self.visible_sprites();
            let n = if vis.len() > 8 { 8 } else { vis.len() };
            &&& a.sprite_count == n
            &&& forall|k: int| 0 <= k < n ==> {
                &&& #[trigger] a.sprite_indexes@[k] as int == vis[k]
                &&& a.sprite_positions@[k] == self.oam.data@[4 * vis[k] + 3]
                &&& a.sprite_priorities@[k] == (self.oam.data@[4 * vis[k] + 2] >> 5u8) & 1
                &&& a.sprite_patterns@[k] == self.sprite_row_pattern(cart, vis[k],
                    self.scanline - self.oam.data@[4 * vis[k]])
            }
            &&& forall|k: int| n <= k < 8 ==> {
                &&& #[trigger] a.sprite_indexes@[k] == self.sprite_indexes@[k]
                &&& a.sprite_positions@[k] == self.sprite_positions@[k]
                &&& a.sprite_priorities@[k] == self.sprite_priorities@[k]
                &&& a.sprite_patterns@[k] == self.sprite_patterns@[k]
            }
        } else {
            &&& a.sprite_count == (if self.sprite_dot() { 0 } else { self.sprite_count })
            &&& a.sprite_indexes == self.sprite_indexes
            &&& a.sprite_positions == self.sprite_positions
            &&& a.sprite_priorities == self.sprite_priorities
            &&& a.sprite_patterns == self.sprite_patterns
        }
    }

    /// The whole rendering work of this dot: every field of the PPU after it
    /// as a function of the PPU before it and the cartridge.
    pub open spec fn render_post(&self, cart: Cartridge, a: PPU) -> bool {
        &&& a.dot == self.dot && a.scanline == self.scanline && a.odd_frame == self.odd_frame
        &&& a.oam == self.oam && a.nametables == self.nametables && a.palette == self.palette
        &&& a.regs == (crate::ppu::PpuRegs { v: self.v_after(), status: self.status_after(), ..self.regs })
        &&& a.framebuffer@ == self.framebuffer_after(cart)
        &&& (a.nametable_byte, a.attrtable_byte, a.low_tile_byte, a.high_tile_byte, a.tile_data)
            == self.fetch_after(cart)
        &&& self.sprites_post(cart, a)
    }

    /// The PPU after the timing part of a dot (see `tick_spec`).
    pub open spec fn ticked(&self) -> PPU {
        let (d, s, o) = tick_spec(self.dot, self.scanline, self.odd_frame, self.rendering_enabled());
        PPU {
            dot: d,
            scanline: s,
            odd_frame: o,
            regs: crate::ppu::PpuRegs {
                nmi_delay: if self.regs.nmi_delay > 0 { (self.regs.nmi_delay - 1) as u8 } else { 0 },
                ..self.regs
            },
            ..*self
        }
    }
}

impl PPUCtrl {
    pub open spec fn background_pattern_table_addr_spec(&self) -> u16 {
        if self.0 & 0x10 == 0 { 0x0000 } else { 0x1000 }
    }
}

/// Assembles the eight pixels of one pattern row; see `pattern_word`.
pub fn tile_pattern(low: u8, high: u8, attr: u8, flip: bool) -> (r: u32)
    ensures
        r == pattern_word(low, high, attr, flip, 8),
{
    let mut acc: u32 = 0;
    let mut k: u8 = 0;
    while k < 8
        invariant
            k <= 8,
            acc == pattern_word(low, high, attr, flip, k as nat),
        decreases 8 - k,
    {
        let bit: u8 = if flip { k } else { 7 - k };
        let p1: u8 = (low >> bit) & 1;
        let p2: u8 = ((high >> bit) & 1) << 1u8;
        acc = (acc << 4u32) | ((attr | p1 | p2) as u32);
        k = k + 1;
    }
    acc
}

} // verus!
