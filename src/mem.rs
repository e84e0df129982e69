//! The CPU bus: 2 KiB of RAM mirrored through $0000-$1FFF, the PPU
//! registers mirrored through $2000-$3FFF, the APU and controller ports,
//! and the cartridge from $6000 up.
use vstd::prelude::*;

use crate::apu::APU;
use crate::controller::{next_index, read_value, Controller};
use crate::mapper::Cartridge;
use crate::ppu::{read_register_spec, write_register_spec, PPU};

verus! {

pub const RAM_SIZE: usize = 0x800;

pub struct NESMemory {
    pub ram: Vec<u8>,
    pub ppu: PPU,
    pub apu: APU,
    pub controller: Controller,
    pub cart: Cartridge,
}

/// Index into internal RAM of a CPU address below $2000.
pub open spec fn ram_index(address: u16) -> int {
    address as int % (RAM_SIZE as int)
}

/// Addresses whose reads have no side effect: RAM and the cartridge.
pub open spec fn quiet(address: u16) -> bool {
    address < 0x2000 || address >= 0x6000
}

impl NESMemory {
    pub open spec fn wf(&self) -> bool {
        &&& self.ram@.len() == RAM_SIZE
        &&& self.ppu.wf()
        &&& self.apu.wf()
        &&& self.controller.wf()
        &&& self.cart.wf()
    }

    /// The byte at a side-effect-free address.
    #[verifier::opaque]
    pub open spec fn peek(&self, address: u16) -> u8 {
        if address < 0x2000 {
            self.ram@[ram_index(address)]
        } else {
            self.cart.spec_read(address)
        }
    }

    pub fn new_nes_mem(ppu: PPU, apu: APU, controller: Controller, cart: Cartridge) -> (r: Self)
        requires
            ppu.wf(),
            apu.wf(),
            controller.wf(),
            cart.wf(),
        ensures
            r.wf(),
            forall|i: int| 0 <= i < RAM_SIZE ==> r.ram@[i] == 0,
            r.ppu == ppu,
            r.apu == apu,
            r.controller == controller,
            r.cart == cart,
    {
        NESMemory { ram: crate::mapper::zeroed(RAM_SIZE), ppu, apu, controller, cart }
    }

    /// A CPU read. Reads of PPUSTATUS, PPUDATA and the controller port change
    /// the state of the device read.
    #[verifier::spinoff_prover]
    pub fn read(&mut self, address: u16) -> (r: u8)
        requires
            old(self).wf(),
        ensures
            final(self).wf(),
            final(self).ram == old(self).ram,
            final(self).ppu.oam == old(self).ppu.oam,
            final(self).apu == old(self).apu,
            quiet(address) ==> r == old(self).peek(address) && *final(self) == *old(self),
            address < 0x2000 ==> r == old(self).ram@[ram_index(address)],
            0x2000 <= address < 0x4000 ==> {
                &&& (final(self).ppu.regs, r) == read_register_spec(
                    old(self).ppu.regs,
                    address % 8,
                    old(self).ppu.oam.data@[old(self).ppu.regs.oam_addr as int],
                    old(self).ppu.vram_spec(old(self).cart, old(self).ppu.regs.v),
                    old(self).ppu.vram_spec(old(self).cart, ((old(self).ppu.regs.v + 0xf000) % 0x10000) as u16),
                )
                &&& final(self).ram == old(self).ram
                &&& final(self).cart == old(self).cart
                &&& final(self).controller == old(self).controller
            },
            address == 0x4015 ==> r == old(self).apu.status_spec() && *final(self) == *old(self),
            address == 0x4014 || (0x4017 <= address < 0x6000) ==> r == 0 && *final(self) == *old(self),
            address == 0x4016 ==> {
                &&& r == read_value(old(self).controller.buttons@, old(self).controller.index as int,
                    old(self).controller.strobe)
                &&& final(self).controller.index == next_index(old(self).controller.index as int,
                    old(self).controller.strobe)
                &&& final(self).ram == old(self).ram
            },
    {
        proof {
            reveal(NESMemory::peek);
        }
        if address < 0x2000 {
            self.ram[(address % 0x800) as usize]
        } else if address < 0x4000 {
            self.ppu.read_register(&self.cart, address)
        } else if address <= 0x4013 || address == 0x4015 {
            self.apu.read(address)
        } else if address == 0x4016 {
            self.controller.read()
        } else if address < 0x6000 {
            0
        } else {
            self.cart.read(address)
        }
    }

    /// A CPU write. $4014 (OAM DMA) is the CPU's own business and is ignored here.
    #[verifier::spinoff_prover]
    pub fn write(&mut self, address: u16, val: u8)
        requires
            old(self).wf(),
        ensures
            final(self).wf(),
            address < 0x2000 ==> final(self).ram@ == old(self).ram@.update(ram_index(address), val)
                && final(self).ppu == old(self).ppu && final(self).apu == old(self).apu
                && final(self).controller == old(self).controller && final(self).cart == old(self).cart,
            address >= 0x2000 ==> final(self).ram == old(self).ram,
            0x2000 <= address < 0x4000 ==> final(self).ppu.regs
                == write_register_spec(old(self).ppu.regs, address % 8, val),
            address == 0x4016 ==> final(self).controller.strobe == val,
            0x2000 <= address < 0x4000 && address % 8 == 4 ==> final(self).ppu.oam.data@
                == old(self).ppu.oam.data@.update(
                    old(self).ppu.regs.oam_addr as int,
                    val,
                ),
            address == 0x4014 || (0x4018 <= address < 0x6000) ==> *final(self) == *old(self),
            address >= 0x6000 ==> final(self).ppu == old(self).ppu && final(self).apu == old(self).apu
                && final(self).controller == old(self).controller,
    {
        if address < 0x2000 {
            self.ram.set((address % 0x800) as usize, val);
        } else if address < 0x4000 {
            self.ppu.write_register(&mut self.cart, address, val);
        } else if address <= 0x4013 || address == 0x4015 || address == 0x4017 {
            self.apu.write(address, val);
        } else if address == 0x4016 {
            self.controller.write(val);
        } else if address >= 0x6000 {
            self.cart.write(address, val);
        }
    }
}

/// Cartridge bytes read the same on two buses that hold the same cartridge.
pub proof fn lemma_peek_cart(b1: NESMemory, b2: NESMemory, a: u16)
    requires
        b1.cart == b2.cart,
        a >= 0x6000,
    ensures
        b1.peek(a) == b2.peek(a),
{
    reveal(NESMemory::peek);
}

/// RAM mirroring: every address below $2000 reads the RAM byte of its
/// address modulo $800, and a write through any mirror is seen through all.
pub proof fn lemma_ram_mirroring(ram: Seq<u8>, a: u16, b: u16, val: u8)
    requires
        ram.len() == RAM_SIZE,
        a < 0x2000,
        b < 0x2000,
        a % 0x800 == b % 0x800,
    ensures
        ram_index(a) == ram_index((a % 0x800) as u16),
        ram.update(ram_index(a), val)[ram_index(b)] == val,
{
}

} // verus!
