//! The PPU's CPU-visible control, mask and status registers and its OAM.
use vstd::prelude::*;

verus! {

broadcast use crate::bits::group_masks;

/// PPUCTRL ($2000).
#[derive(Clone, Copy, Debug, PartialEq, Eq, Structural)]
pub struct PPUCtrl(pub u8);

#[derive(Clone, Copy, Debug, PartialEq, Eq, Structural)]
pub enum SpriteSize {
    /// 8x8 pixels
    Small,
    /// 8x16 pixels
    Large,
}

impl SpriteSize {
    pub fn size(&self) -> (r: usize)
        ensures
            r == (match *self {
                SpriteSize::Small => 8usize,
                SpriteSize::Large => 16usize,
            }),
    {
        match *self {
            SpriteSize::Small => 8,
            SpriteSize::Large => 16,
        }
    }
}

impl PPUCtrl {
    pub fn generate_nmi(&self) -> (r: bool)
        ensures
            r == (self.0 & 0x80 != 0),
    {
        self.0 & 0x80 != 0
    }

    /// Sprite height in pixels: 8, or 16 when bit 5 is set.
    pub fn sprite_size(&self) -> (r: usize)
        ensures
            r == (if self.0 & 0x20 == 0 { 8usize } else { 16usize }),
    {
        if self.0 & 0x20 == 0 {
            SpriteSize::Small.size()
        } else {
            SpriteSize::Large.size()
        }
    }

    pub fn background_pattern_table_addr(&self) -> (r: u16)
        ensures
            r == (if self.0 & 0x10 == 0 { 0x0000u16 } else { 0x1000u16 }),
    {
        if self.0 & 0x10 == 0 { 0x0000 } else { 0x1000 }
    }

    pub fn sprite_pattern_table_addr(&self) -> (r: u16)
        ensures
            r == (if self.0 & 0x08 == 0 { 0x0000u16 } else { 0x1000u16 }),
    {
        if self.0 & 0x08 == 0 { 0x0000 } else { 0x1000 }
    }

    /// Step of the VRAM address after each PPUDATA access: 1 across, 32 down.
    pub fn vram_addr_increment(&self) -> (r: u16)
        ensures
            r == (if self.0 & 0x04 == 0 { 1u16 } else { 32u16 }),
    {
        if self.0 & 0x04 == 0 { 1 } else { 32 }
    }

    pub fn base_nametable_addr(&self) -> (r: u16)
        ensures
            r == 0x2000 + 0x400 * (self.0 & 3),
    {
        let n = self.0 & 3;
        0x2000 + 0x400 * (n as u16)
    }
}

/// PPUMASK ($2001).
#[derive(Clone, Copy, Debug, PartialEq, Eq, Structural)]
pub struct PPUMask(pub u8);

impl PPUMask {
    pub fn emphasize_blue(&self) -> (r: bool)
        ensures r == (self.0 & 0x80 != 0),
    {
        self.0 & 0x80 != 0
    }

    pub fn emphasize_green(&self) -> (r: bool)
        ensures r == (self.0 & 0x40 != 0),
    {
        self.0 & 0x40 != 0
    }

    pub fn emphasize_red(&self) -> (r: bool)
        ensures r == (self.0 & 0x20 != 0),
    {
        self.0 & 0x20 != 0
    }

    pub fn show_sprites(&self) -> (r: bool)
        ensures r == (self.0 & 0x10 != 0),
    {
        self.0 & 0x10 != 0
    }

    pub fn show_background(&self) -> (r: bool)
        ensures r == (self.0 & 0x08 != 0),
    {
        self.0 & 0x08 != 0
    }

    pub fn show_sprites_leftmost(&self) -> (r: bool)
        ensures r == (self.0 & 0x04 != 0),
    {
        self.0 & 0x04 != 0
    }

    pub fn show_background_leftmost(&self) -> (r: bool)
        ensures r == (self.0 & 0x02 != 0),
    {
        self.0 & 0x02 != 0
    }

    pub fn greyscale(&self) -> (r: bool)
        ensures r == (self.0 & 0x01 != 0),
    {
        self.0 & 0x01 != 0
    }
}

/// PPUSTATUS ($2002) as kept by the PPU: vblank, sprite-0 hit and overflow.
#[derive(Clone, Copy, Debug, PartialEq, Eq, Structural)]
pub struct PPUStatus(pub u8);

impl PPUStatus {
    pub fn vblank_started(&self) -> (r: bool)
        ensures r == (self.0 & 0x80 != 0),
    {
        self.0 & 0x80 != 0
    }

    pub fn set_vblank(&mut self)
        ensures final(self).0 == old(self).0 | 0x80,
    {
        self.0 = self.0 | 0x80;
    }

    pub fn clear_vblank(&mut self)
        ensures final(self).0 == old(self).0 & 0x7f,
    {
        self.0 = self.0 & 0x7f;
    }

    pub fn sprite_zero_hit(&self) -> (r: bool)
        ensures r == (self.0 & 0x40 != 0),
    {
        self.0 & 0x40 != 0
    }

    pub fn set_sprite_zero_hit(&mut self)
        ensures
            final(self).0 == old(self).0 | 0x40,
            old(self).0 & 0x80 == 0 ==> final(self).0 & 0x80 == 0,
    {
        let v = self.0;
        assert(v & 0x80 == 0 ==> (v | 0x40) & 0x80 == 0) by (bit_vector);
        self.0 = v | 0x40;
    }

    pub fn clear_sprite_zero_hit(&mut self)
        ensures
            final(self).0 == old(self).0 & 0xbf,
            old(self).0 & 0x80 == 0 ==> final(self).0 & 0x80 == 0,
    {
        let v = self.0;
        assert(v & 0x80 == 0 ==> (v & 0xbf) & 0x80 == 0) by (bit_vector);
        self.0 = v & 0xbf;
    }

    pub fn sprite_overflow(&self) -> (r: bool)
        ensures r == (self.0 & 0x20 != 0),
    {
        self.0 & 0x20 != 0
    }

    pub fn set_sprite_overflow(&mut self)
        ensures
            final(self).0 == old(self).0 | 0x20,
            old(self).0 & 0x80 == 0 ==> final(self).0 & 0x80 == 0,
    {
        let v = self.0;
        assert(v & 0x80 == 0 ==> (v | 0x20) & 0x80 == 0) by (bit_vector);
        self.0 = v | 0x20;
    }

    pub fn clear_sprite_overflow(&mut self)
        ensures
            final(self).0 == old(self).0 & 0xdf,
            old(self).0 & 0x80 == 0 ==> final(self).0 & 0x80 == 0,
    {
        let v = self.0;
        assert(v & 0x80 == 0 ==> (v & 0xdf) & 0x80 == 0) by (bit_vector);
        self.0 = v & 0xdf;
    }
}

/// Setting a status bit makes it read back set, clearing makes it read back
/// clear, and neither touches the other two flags.
pub proof fn lemma_status_bits(v: u8)
    ensures
        (v | 0x80) & 0x80 != 0,
        (v & 0x7f) & 0x80 == 0,
        (v | 0x40) & 0x40 != 0,
        (v & 0xbf) & 0x40 == 0,
        (v | 0x20) & 0x20 != 0,
        (v & 0xdf) & 0x20 == 0,
        (v | 0x80) & 0x60 == v & 0x60,
        (v & 0x7f) & 0x60 == v & 0x60,
        (v | 0x40) & 0xa0 == v & 0xa0,
        (v & 0xbf) & 0xa0 == v & 0xa0,
        (v | 0x20) & 0xc0 == v & 0xc0,
        (v & 0xdf) & 0xc0 == v & 0xc0,
{
    assert((v | 0x80) & 0x80 != 0 && (v & 0x7f) & 0x80 == 0 && (v | 0x40) & 0x40 != 0
        && (v & 0xbf) & 0x40 == 0 && (v | 0x20) & 0x20 != 0 && (v & 0xdf) & 0x20 == 0
        && (v | 0x80) & 0x60 == v & 0x60 && (v & 0x7f) & 0x60 == v & 0x60
        && (v | 0x40) & 0xa0 == v & 0xa0 && (v & 0xbf) & 0xa0 == v & 0xa0
        && (v | 0x20) & 0xc0 == v & 0xc0 && (v & 0xdf) & 0xc0 == v & 0xc0) by (bit_vector);
}

/// Object attribute memory: 64 sprites of four bytes (Y, tile, attributes, X).
pub struct OAM {
    pub data: Vec<u8>,
}

impl OAM {
    pub open spec fn wf(&self) -> bool {
        self.data@.len() == 256
    }

    pub fn new_nes_oam() -> (r: Self)
        ensures
            r.wf(),
            forall|i: int| 0 <= i < 256 ==> r.data@[i] == 0,
    {
        OAM { data: crate::mapper::zeroed(256) }
    }

    pub fn read(&self, address: u16) -> (r: u8)
        requires
            self.wf(),
        ensures
            r == self.data@[address as int % 256],
    {
        self.data[(address % 256) as usize]
    }

    pub fn write(&mut self, address: u16, val: u8)
        requires
            old(self).wf(),
        ensures
            final(self).wf(),
            final(self).data@ == old(self).data@.update(address as int % 256, val),
    {
        self.data.set((address % 256) as usize, val);
    }
}

/// A 16-bit address written high byte first through one 8-bit port.
pub struct PPUAddr {
    pub val: u16,
    /// Whether the next write supplies the low byte.
    pub low_next: bool,
}

impl PPUAddr {
    pub fn new_ppu_addr() -> (r: PPUAddr)
        ensures
            r.val == 0,
            !r.low_next,
    {
        PPUAddr { val: 0, low_next: false }
    }

    pub fn write(&mut self, val: u8)
        ensures
            final(self).low_next == !old(self).low_next,
            old(self).low_next ==> final(self).val == old(self).val / 256 * 256 + val,
            !old(self).low_next ==> final(self).val == val as int * 256 + old(self).val % 256,
    {
        if self.low_next {
            self.val = (self.val / 256) * 256 + val as u16;
            self.low_next = false;
        } else {
            self.val = (val as u16) * 256 + self.val % 256;
            self.low_next = true;
        }
    }
}

/// A pair of scroll offsets written X first then Y through one port.
pub struct PPUScroll {
    pub x: u16,
    pub y: u16,
    /// Whether the next write supplies Y.
    pub y_next: bool,
}

impl PPUScroll {
    pub fn new_ppu_scroll() -> (r: Self)
        ensures
            r.x == 0 && r.y == 0 && !r.y_next,
    {
        PPUScroll { x: 0, y: 0, y_next: false }
    }

    pub fn reset_latch(&mut self)
        ensures
            final(self).x == old(self).x,
            final(self).y == old(self).y,
            !final(self).y_next,
    {
        self.y_next = false;
    }

    pub fn write(&mut self, val: u8)
        ensures
            final(self).y_next == !old(self).y_next,
            !old(self).y_next ==> final(self).x == val && final(self).y == old(self).y,
            old(self).y_next ==> final(self).y == val && final(self).x == old(self).x,
    {
        if self.y_next {
            self.y = val as u16;
            self.y_next = false;
        } else {
            self.x = val as u16;
            self.y_next = true;
        }
    }

    /// Moves one screen width across: the offset within the byte range is kept.
    pub fn incr_x(&mut self)
        ensures
            final(self).x == (old(self).x + 256) % 256,
            final(self).y == old(self).y,
            final(self).y_next == old(self).y_next,
    {
        self.x = (self.x % 256 + 256) % 256;
    }

    /// Moves one screen height down, modulo 256.
    pub fn incr_y(&mut self)
        ensures
            final(self).y == (old(self).y + 240) % 256,
            final(self).x == old(self).x,
            final(self).y_next == old(self).y_next,
    {
        self.y = (self.y % 256 + 240) % 256;
    }
}

} // verus!
