//! Pattern-table inspection for a debugging overlay.
use vstd::prelude::*;

use crate::mapper::Cartridge;
use crate::ppu::PPU;

verus! {

broadcast use crate::bits::group_masks;

/// Pixels in one pattern table: 256 tiles of 8 by 8.
pub const PATTERN_TABLE_PIXELS: usize = 16384;

impl PPU {
    /// The 2-bit colour of pixel `k` of a pattern table, pixels listed tile
    /// by tile, each tile row by row from the left.
    pub open spec fn pattern_pixel(&self, cart: Cartridge, table: u16, k: int) -> u8 {
        let tile = k / 64;
        let row = (k / 8) % 8;
        let col = (k % 8) as u8;
        let lo = self.vram_spec(cart, (table + tile * 16 + row) as u16);
        let hi = self.vram_spec(cart, (table + tile * 16 + row + 8) as u16);
        ((lo >> (7 - col) as u8) & 1) | (((hi >> (7 - col) as u8) & 1) << 1u8)
    }

    /// Every pixel of the pattern table at `table` ($0000 or $1000).
    pub fn render_pattern_table(&self, cart: &Cartridge, table: u16) -> (r: Vec<u8>)
        requires
            self.wf(),
            cart.wf(),
            table == 0 || table == 0x1000,
        ensures
            r@.len() == PATTERN_TABLE_PIXELS,
            forall|k: int| 0 <= k < PATTERN_TABLE_PIXELS ==> #[trigger] r@[k] == self.pattern_pixel(*cart, table, k),
    {
        let mut out: Vec<u8> = Vec::new();
        let mut k: usize = 0;
        while k < PATTERN_TABLE_PIXELS
            invariant
                k <= PATTERN_TABLE_PIXELS,
                self.wf(),
                cart.wf(),
                table == 0 || table == 0x1000,
                out@.len() == k,
                forall|j: int| 0 <= j < k ==> #[trigger] out@[j] == self.pattern_pixel(*cart, table, j),
            decreases PATTERN_TABLE_PIXELS - k,
        {
            let tile = (k / 64) as u16;
            let row = ((k / 8) % 8) as u16;
            let col = (k % 8) as u8;
            let lo = self.vram_read(cart, table + tile * 16 + row);
            let hi = self.vram_read(cart, table + tile * 16 + row + 8);
            let p = ((lo >> (7 - col)) & 1) | (((hi >> (7 - col)) & 1) << 1u8);
            out.push(p);
            k = k + 1;
        }
        out
    }
}

} // verus!
