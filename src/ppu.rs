//! The picture processing unit: CPU-visible registers, the 14-bit PPU bus
//! (pattern tables through the cartridge, nametables, palette), and the
//! dot-by-dot background and sprite pipeline that fills a framebuffer of
//! palette indices.
use vstd::prelude::*;

pub mod debug;
pub mod palette;
pub mod regs;
pub mod render;

use crate::mapper::{coefficient, Cartridge, MirrorMode};
use crate::ppu::regs::{PPUCtrl, PPUMask, PPUStatus, OAM};

verus! {

broadcast use crate::bits::group_masks;

pub const SCREEN_WIDTH: usize = 256;
pub const SCREEN_HEIGHT: usize = 240;
pub const DOTS_PER_SCANLINE: u16 = 341;
pub const SCANLINES_PER_FRAME: u16 = 262;
/// PPU dots between the vblank NMI condition and its delivery to the CPU.
pub const NMI_DELAY: u8 = 15;

/// The register file and latches of the PPU.
#[derive(Clone, Copy, Debug, PartialEq, Eq, Structural)]
pub struct PpuRegs {
    pub ctrl: PPUCtrl,
    pub mask: PPUMask,
    pub status: PPUStatus,
    pub oam_addr: u8,
    /// Current VRAM address ("v").
    pub v: u16,
    /// Temporary VRAM address ("t").
    pub t: u16,
    /// Fine X scroll.
    pub x: u8,
    /// First/second write toggle.
    pub w: bool,
    pub nmi_occurred: bool,
    pub nmi_output: bool,
    pub nmi_previous: bool,
    pub nmi_delay: u8,
    pub buffered_data: u8,
    pub last_value: u8,
}

/// The register that a CPU address in $2000-$3FFF reaches.
pub open spec fn ppu_register(address: u16) -> u16 {
    (0x2000 + address % 8) as u16
}

/// Re-evaluates the NMI line; a rising edge arms the delivery delay.
pub open spec fn nmi_change_spec(r: PpuRegs) -> PpuRegs {
    let nmi = r.nmi_output && r.nmi_occurred;
    PpuRegs {
        nmi_delay: if nmi && !r.nmi_previous { NMI_DELAY } else { r.nmi_delay },
        nmi_previous: nmi,
        ..r
    }
}

/// The effect of a CPU write of `val` to register `reg` (0 to 7) on the
/// register file. Writes to OAMDATA and PPUDATA also store the byte.
pub open spec fn write_register_spec(r0: PpuRegs, reg: u16, val: u8) -> PpuRegs {
    let r = PpuRegs { last_value: val, ..r0 };
    if reg == 0 {
        nmi_change_spec(PpuRegs {
            ctrl: PPUCtrl(val),
            t: (r.t & 0xf3ff) | (((val as u16) & 0x03) << 10),
            nmi_output: (val >> 7) & 1 == 1,
            ..r
        })
    } else if reg == 1 {
        PpuRegs { mask: PPUMask(val), ..r }
    } else if reg == 3 {
        PpuRegs { oam_addr: val, ..r }
    } else if reg == 4 {
        PpuRegs { oam_addr: ((r.oam_addr + 1) % 256) as u8, ..r }
    } else if reg == 5 {
        if r.w {
            PpuRegs {
                t: (((r.t & 0x8fff) | (((val as u16) & 0x07) << 12)) & 0xfc1f)
                    | (((val as u16) & 0xf8) << 2),
                w: false,
                ..r
            }
        } else {
            PpuRegs { t: (r.t & 0xffe0) | ((val as u16) >> 3), x: val & 0x07, w: true, ..r }
        }
    } else if reg == 6 {
        if r.w {
            let t = (r.t & 0xff00) | (val as u16);
            PpuRegs { t: t, v: t, w: false, ..r }
        } else {
            PpuRegs { t: (r.t & 0x80ff) | (((val as u16) & 0x3f) << 8), w: true, ..r }
        }
    } else if reg == 7 {
        PpuRegs { v: ((r.v + r.ctrl.vram_increment()) % 0x10000) as u16, ..r }
    } else {
        r
    }
}

/// What a read of PPUSTATUS returns: the vblank line in bit 7, the sprite
/// flags in bits 6 and 5, and stale bus bits below.
pub open spec fn status_value(r: PpuRegs) -> u8 {
    let n = (r.status.0 & 0xe0) | (r.last_value & 0x1f);
    if r.nmi_occurred { n | 0x80 } else { n }
}

/// The value and new register file of a CPU read of register `reg`, given
/// the OAM byte at OAMADDR and the VRAM bytes at v and at v - $1000.
pub open spec fn read_register_spec(
    r: PpuRegs,
    reg: u16,
    oam_byte: u8,
    vram_v: u8,
    vram_below: u8,
) -> (PpuRegs, u8) {
    if reg == 0 {
        (r, r.ctrl.0)
    } else if reg == 1 {
        (r, r.mask.0)
    } else if reg == 2 {
        (nmi_change_spec(PpuRegs { nmi_occurred: false, w: false, ..r }), status_value(r))
    } else if reg == 4 {
        (r, oam_byte)
    } else if reg == 7 {
        let v2 = ((r.v + r.ctrl.vram_increment()) % 0x10000) as u16;
        if r.v % 0x4000 <= 0x3eff {
            (PpuRegs { buffered_data: vram_v, v: v2, ..r }, r.buffered_data)
        } else {
            (PpuRegs { buffered_data: vram_below, v: v2, ..r }, vram_v)
        }
    } else {
        (r, 0)
    }
}

impl PPUCtrl {
    pub open spec fn vram_increment(&self) -> u16 {
        if self.0 & 0x04 == 0 { 1 } else { 32 }
    }
}

/// Index into the 32-byte palette RAM: $3F10/$14/$18/$1C share the bytes of
/// $3F00/$04/$08/$0C.
pub open spec fn palette_index(address: u16) -> int {
    let i = address % 32;
    if i == 0x10 || i == 0x14 || i == 0x18 || i == 0x1c { i - 0x10 } else { i as int }
}

/// Index into the 2 KiB of nametable RAM of an address in $2000-$3EFF.
pub open spec fn nametable_index(address: u16, mode: MirrorMode) -> int {
    let a = (address - 0x2000) % 0x1000;
    (coefficient(mode, a / 0x400) * 0x400 + a % 0x400) % 2048
}

/// Timing of one dot: the pre-render line of an odd frame skips its last dot
/// when rendering is on.
pub open spec fn tick_spec(dot: u16, scanline: u16, odd: bool, rendering: bool) -> (u16, u16, bool) {
    if rendering && odd && scanline == 261 && dot == 339 {
        (0, 0, false)
    } else if dot + 1 == 341 {
        if scanline + 1 > 261 { (0, 0, !odd) } else { (0, (scanline + 1) as u16, odd) }
    } else {
        ((dot + 1) as u16, scanline, odd)
    }
}

/// What one PPU dot reports to the console.
#[derive(Clone, Copy, Debug, PartialEq, Eq, Structural)]
pub struct StepResult {
    pub trigger_nmi: bool,
    pub trigger_irq: bool,
    pub frame_finished: bool,
    pub signal_scanline: bool,
}

pub struct PPU {
    pub regs: PpuRegs,
    pub oam: OAM,
    pub nametables: Vec<u8>,
    pub palette: Vec<u8>,
    pub dot: u16,
    pub scanline: u16,
    pub odd_frame: bool,
    pub nametable_byte: u8,
    pub attrtable_byte: u8,
    pub low_tile_byte: u8,
    pub high_tile_byte: u8,
    pub tile_data: u64,
    pub sprite_count: usize,
    pub sprite_patterns: Vec<u32>,
    pub sprite_positions: Vec<u8>,
    pub sprite_priorities: Vec<u8>,
    pub sprite_indexes: Vec<u8>,
    /// One palette index (0 to 63) per pixel, row by row.
    pub framebuffer: Vec<u8>,
}

/// The palette RAM contents at power-on.
pub const INITIAL_PALETTE: [u8; 32] = [
    0x09, 0x01, 0x00, 0x01, 0x00, 0x02, 0x02, 0x0D,
    0x08, 0x10, 0x08, 0x24, 0x00, 0x00, 0x04, 0x2C,
    0x09, 0x01, 0x34, 0x03, 0x00, 0x04, 0x00, 0x14,
    0x08, 0x3A, 0x00, 0x02, 0x00, 0x20, 0x2C, 0x08,
];

impl PPU {
    pub open spec fn wf(&self) -> bool {
        &&& self.oam.wf()
        &&& self.nametables@.len() == 2048
        &&& self.palette@.len() == 32
        &&& self.dot < 341
        &&& self.scanline < 262
        &&& self.regs.x < 8
        &&& self.regs.status.0 & 0x80 == 0
        &&& self.regs.nmi_delay <= NMI_DELAY
        &&& self.sprite_count <= 8
        &&& self.sprite_patterns@.len() == 8
        &&& self.sprite_positions@.len() == 8
        &&& self.sprite_priorities@.len() == 8
        &&& self.sprite_indexes@.len() == 8
        &&& self.framebuffer@.len() == SCREEN_WIDTH * SCREEN_HEIGHT
    }

    /// The byte at a PPU bus address.
    pub open spec fn vram_spec(&self, cart: Cartridge, address: u16) -> u8 {
        let a = (address % 0x4000) as u16;
        if a < 0x2000 {
            cart.spec_read(a)
        } else if a < 0x3f00 {
            match cart.spec_nametable(a) {
                Some(b) => b,
                None => self.nametables@[nametable_index(a, cart.spec_mirror_mode())],
            }
        } else {
            self.palette@[palette_index(a)]
        }
    }

    pub open spec fn rendering_enabled(&self) -> bool {
        self.regs.mask.0 & 0x08 != 0 || self.regs.mask.0 & 0x10 != 0
    }

    pub fn new_nes_ppu() -> (r: Self)
        ensures
            r.wf(),
            r.dot == 0 && r.scanline == 0 && !r.odd_frame,
            r.regs.ctrl.0 == 0 && r.regs.mask.0 == 0 && r.regs.status.0 == 0,
            !r.regs.nmi_occurred && !r.regs.nmi_output && !r.regs.nmi_previous,
            r.regs.nmi_delay == 0 && !r.regs.w && r.regs.last_value == 0,
            r.sprite_count == 0,
            r.palette@ == INITIAL_PALETTE@,
    {
        let mut palette: Vec<u8> = Vec::new();
        let mut i: usize = 0;
        while i < 32
            invariant
                i <= 32,
                palette@ == INITIAL_PALETTE@.subrange(0, i as int),
            decreases 32 - i,
        {
            palette.push(INITIAL_PALETTE[i]);
            i = i + 1;
            assert(palette@ =~= INITIAL_PALETTE@.subrange(0, i as int));
        }
        assert(palette@ =~= INITIAL_PALETTE@);
        PPU {
            regs: PpuRegs {
                ctrl: PPUCtrl(0),
                mask: PPUMask(0),
                status: PPUStatus(0),
                oam_addr: 0,
                v: 0,
                t: 0,
                x: 0,
                w: false,
                nmi_occurred: false,
                nmi_output: false,
                nmi_previous: false,
                nmi_delay: 0,
                buffered_data: 0,
                last_value: 0,
            },
            oam: OAM::new_nes_oam(),
            nametables: crate::mapper::zeroed(2048),
            palette,
            dot: 0,
            scanline: 0,
            odd_frame: false,
            nametable_byte: 0,
            attrtable_byte: 0,
            low_tile_byte: 0,
            high_tile_byte: 0,
            tile_data: 0,
            sprite_count: 0,
            sprite_patterns: vec![0, 0, 0, 0, 0, 0, 0, 0],
            sprite_positions: crate::mapper::zeroed(8),
            sprite_priorities: crate::mapper::zeroed(8),
            sprite_indexes: crate::mapper::zeroed(8),
            framebuffer: crate::mapper::zeroed(SCREEN_WIDTH * SCREEN_HEIGHT),
        }
    }

    fn nmi_change(&mut self)
        requires
            old(self).wf(),
        ensures
            final(self).wf(),
            final(self).regs == nmi_change_spec(old(self).regs),
            final(self).oam == old(self).oam,
            final(self).nametables == old(self).nametables,
            final(self).palette == old(self).palette,
            final(self).dot == old(self).dot,
            final(self).scanline == old(self).scanline,
            final(self).odd_frame == old(self).odd_frame,
            final(self).framebuffer == old(self).framebuffer,
            *final(self) == (PPU { regs: final(self).regs, ..*old(self) }),
    {
        let nmi = self.regs.nmi_output && self.regs.nmi_occurred;
        if nmi && !self.regs.nmi_previous {
            self.regs.nmi_delay = NMI_DELAY;
        }
        self.regs.nmi_previous = nmi;
    }

    fn vram_increment(&self) -> (r: u16)
        ensures
            r == self.regs.ctrl.vram_increment(),
    {
        self.regs.ctrl.vram_addr_increment()
    }

    /// Reads a byte of the PPU bus.
    pub fn vram_read(&self, cart: &Cartridge, address: u16) -> (r: u8)
        requires
            self.wf(),
            cart.wf(),
        ensures
            r == self.vram_spec(*cart, address),
    {
        let a = address % 0x4000;
        if a < 0x2000 {
            cart.read(a)
        } else if a < 0x3f00 {
            match cart.nametable(a) {
                Some(b) => b,
                None => self.nametables[nametable_slot(a, cart.mirror_mode())],
            }
        } else {
            self.palette[palette_slot(a)]
        }
    }

    /// Writes a byte of the PPU bus: pattern tables go to the cartridge.
    #[verifier::spinoff_prover]
    pub fn vram_write(&mut self, cart: &mut Cartridge, address: u16, val: u8)
        requires
            old(self).wf(),
            old(cart).wf(),
        ensures
            final(self).wf(),
            final(cart).wf(),
            final(self).regs == old(self).regs,
            final(self).oam == old(self).oam,
            final(self).dot == old(self).dot,
            final(self).scanline == old(self).scanline,
            final(self).odd_frame == old(self).odd_frame,
            final(self).sprite_count == old(self).sprite_count,
            final(self).framebuffer == old(self).framebuffer,
            address % 0x4000 >= 0x2000 ==> *final(cart) == *old(cart),
            address % 0x4000 < 0x2000 ==> old(cart).write_post(&*final(cart), (address % 0x4000) as u16, val),
            address % 0x4000 < 0x3f00 ==> final(self).palette == old(self).palette,
            (address % 0x4000 < 0x2000 || address % 0x4000 >= 0x3f00)
                ==> final(self).nametables == old(self).nametables,
            0x2000 <= address % 0x4000 < 0x3f00 ==> final(self).nametables@ == (
                if old(cart).spec_nametable((address % 0x4000) as u16).is_some() {
                    old(self).nametables@
                } else {
                    old(self).nametables@.update(
                        nametable_index((address % 0x4000) as u16, old(cart).spec_mirror_mode()), val)
                }),
            address % 0x4000 >= 0x3f00 ==> final(self).palette@ == old(self).palette@.update(
                palette_index(address), val),
    {
        let a = address % 0x4000;
        if a < 0x2000 {
            cart.write(a, val);
        } else if a < 0x3f00 {
            if cart.nametable(a).is_none() {
                let i = nametable_slot(a, cart.mirror_mode());
                self.nametables.set(i, val);
            }
        } else {
            self.palette.set(palette_slot(a), val);
        }
    }

    /// A CPU read of $2000-$3FFF; only the low three address bits matter.
    #[verifier::spinoff_prover]
    pub fn read_register(&mut self, cart: &Cartridge, address: u16) -> (r: u8)
        requires
            old(self).wf(),
            cart.wf(),
        ensures
            final(self).wf(),
            (final(self).regs, r) == read_register_spec(
                old(self).regs,
                address % 8,
                old(self).oam.data@[old(self).regs.oam_addr as int],
                old(self).vram_spec(*cart, old(self).regs.v),
                old(self).vram_spec(*cart, ((old(self).regs.v + 0xf000) % 0x10000) as u16),
            ),
            *final(self) == (PPU { regs: final(self).regs, ..*old(self) }),
            final(self).oam == old(self).oam,
            final(self).nametables == old(self).nametables,
            final(self).palette == old(self).palette,
            final(self).dot == old(self).dot,
            final(self).scanline == old(self).scanline,
            final(self).odd_frame == old(self).odd_frame,
            final(self).framebuffer == old(self).framebuffer,
    {
        let reg = address % 8;
        if reg == 0 {
            self.regs.ctrl.0
        } else if reg == 1 {
            self.regs.mask.0
        } else if reg == 2 {
            let mut n = (self.regs.status.0 & 0xe0) | (self.regs.last_value & 0x1f);
            if self.regs.nmi_occurred {
                n = n | 0x80;
            }
            self.regs.nmi_occurred = false;
            self.nmi_change();
            self.regs.w = false;
            n
        } else if reg == 4 {
            self.oam.read(self.regs.oam_addr as u16)
        } else if reg == 7 {
            let v = self.regs.v;
            let rv;
            if v % 0x4000 <= 0x3eff {
                rv = self.regs.buffered_data;
                self.regs.buffered_data = self.vram_read(cart, v);
            } else {
                self.regs.buffered_data = self.vram_read(cart, v.wrapping_sub(0x1000));
                rv = self.vram_read(cart, v);
            }
            self.regs.v = v.wrapping_add(self.vram_increment());
            rv
        } else {
            0
        }
    }

    /// A CPU write to $2000-$3FFF; only the low three address bits matter.
    #[verifier::spinoff_prover]
    pub fn write_register(&mut self, cart: &mut Cartridge, address: u16, val: u8)
        requires
            old(self).wf(),
            old(cart).wf(),
        ensures
            final(self).wf(),
            final(cart).wf(),
            final(self).regs == write_register_spec(old(self).regs, address % 8, val),
            address % 8 == 4 ==> final(self).oam.data@ == old(self).oam.data@.update(
                old(self).regs.oam_addr as int,
                val,
            ),
            address % 8 != 4 ==> final(self).oam == old(self).oam,
            address % 8 != 7 ==> final(self).nametables == old(self).nametables
                && final(self).palette == old(self).palette && *final(cart) == *old(cart),
            address % 8 == 7 && old(self).regs.v % 0x4000 < 0x2000 ==> old(cart).write_post(
                &*final(cart), (old(self).regs.v % 0x4000) as u16, val),
            address % 8 == 7 && old(self).regs.v % 0x4000 >= 0x2000 ==> *final(cart) == *old(cart),
            address % 8 == 7 && old(self).regs.v % 0x4000 >= 0x3f00 ==> final(self).palette@
                == old(self).palette@.update(palette_index(old(self).regs.v), val),
            address % 8 == 7 && 0x2000 <= old(self).regs.v % 0x4000 < 0x3f00
                && old(cart).spec_nametable((old(self).regs.v % 0x4000) as u16).is_none()
                ==> final(self).nametables@ == old(self).nametables@.update(
                    nametable_index((old(self).regs.v % 0x4000) as u16, old(cart).spec_mirror_mode()), val),
            final(self).dot == old(self).dot,
            final(self).scanline == old(self).scanline,
            final(self).odd_frame == old(self).odd_frame,
            final(self).framebuffer == old(self).framebuffer,
    {
        self.regs.last_value = val;
        let reg = address % 8;
        if reg == 0 {
            self.regs.ctrl = PPUCtrl(val);
            self.regs.t = (self.regs.t & 0xf3ff) | (((val as u16) & 0x03) << 10);
            self.regs.nmi_output = (val >> 7) & 1 == 1;
            self.nmi_change();
        } else if reg == 1 {
            self.regs.mask = PPUMask(val);
        } else if reg == 3 {
            self.regs.oam_addr = val;
        } else if reg == 4 {
            self.oam.write(self.regs.oam_addr as u16, val);
            self.regs.oam_addr = self.regs.oam_addr.wrapping_add(1);
        } else if reg == 5 {
            if self.regs.w {
                self.regs.t = (self.regs.t & 0x8fff) | (((val as u16) & 0x07) << 12);
                self.regs.t = (self.regs.t & 0xfc1f) | (((val as u16) & 0xf8) << 2);
                self.regs.w = false;
            } else {
                self.regs.t = (self.regs.t & 0xffe0) | ((val as u16) >> 3);
                self.regs.x = val & 0x07;
                self.regs.w = true;
            }
        } else if reg == 6 {
            if self.regs.w {
                self.regs.t = (self.regs.t & 0xff00) | (val as u16);
                self.regs.v = self.regs.t;
                self.regs.w = false;
            } else {
                self.regs.t = (self.regs.t & 0x80ff) | (((val as u16) & 0x3f) << 8);
                self.regs.w = true;
            }
        } else if reg == 7 {
            let v = self.regs.v;
            self.vram_write(cart, v, val);
            self.regs.v = v.wrapping_add(self.vram_increment());
        }
    }
}

/// Index into the palette RAM of a PPU address in $3F00-$3FFF.
pub fn palette_slot(address: u16) -> (r: usize)
    ensures
        r as int == palette_index(address),
        r < 32,
{
    let i = (address % 32) as usize;
    if i == 0x10 || i == 0x14 || i == 0x18 || i == 0x1c { i - 0x10 } else { i }
}

/// Index into nametable RAM of an address in $2000-$3EFF under a mirror mode.
pub fn nametable_slot(address: u16, mode: MirrorMode) -> (r: usize)
    requires
        address >= 0x2000,
    ensures
        r as int == nametable_index(address, mode),
        r < 2048,
{
    let a = ((address - 0x2000) % 0x1000) as usize;
    (mode.coefficient(a / 0x400) * 0x400 + a % 0x400) % 2048
}

/// Palette mirroring: a write to $3F10, $3F14, $3F18 or $3F1C is seen at
/// $3F00, $3F04, $3F08 or $3F0C, and a write to those is seen at the former.
pub proof fn lemma_palette_mirror(palette: Seq<u8>, k: u16, val: u8)
    requires
        palette.len() == 32,
        k == 0 || k == 4 || k == 8 || k == 0x0c,
    ensures
        palette.update(palette_index((0x3f10 + k) as u16), val)[palette_index((0x3f00 + k) as u16)] == val,
        palette.update(palette_index((0x3f00 + k) as u16), val)[palette_index((0x3f10 + k) as u16)] == val,
{
}

/// Register mirroring: every CPU address in $2000-$3FFF reaches the register
/// `$2000 + (a mod 8)`, and a read or write there has the effect that the
/// base register address has.
pub proof fn lemma_register_mirroring(a: u16, r: PpuRegs, val: u8, oam_byte: u8, vv: u8, vb: u8)
    requires
        0x2000 <= a < 0x4000,
    ensures
        ppu_register(a) == 0x2000 + a % 8,
        ppu_register(a) % 8 == a % 8,
        write_register_spec(r, a % 8, val) == write_register_spec(r, ppu_register(a) % 8, val),
        read_register_spec(r, a % 8, oam_byte, vv, vb)
            == read_register_spec(r, ppu_register(a) % 8, oam_byte, vv, vb),
{
}

} // verus!
