//! AxROM: one register selects a 32 KiB PRG bank and the single-screen page.
use vstd::prelude::*;
use crate::mapper::{byte_at, read_wrapped, write_wrapped, hv01, MirrorMode};

verus! {

broadcast use crate::bits::group_masks;

pub const PRG_BANK_SIZE: usize = 32768;

pub struct Mapper7 {
    pub chr_rom: Vec<u8>,
    pub prg_rom: Vec<u8>,
    pub mirror_mode: MirrorMode,
    pub prg_bank: u8,
}

impl Mapper7 {
    pub open spec fn wf(&self) -> bool {
        &&& self.chr_rom@.len() > 0
    }

    pub open spec fn spec_read(&self, address: u16) -> u8 {
        if address < 0x2000 {
            byte_at(self.chr_rom@, address as int)
        } else if address >= 0x8000 {
            byte_at(self.prg_rom@, PRG_BANK_SIZE * self.prg_bank + (address & 0x7fff))
        } else {
            0
        }
    }

    pub fn new_mapper(rom: Vec<u8>, vrom: Vec<u8>, mirror_mode: u8) -> (r: Self)
        requires
            vrom@.len() > 0,
            mirror_mode <= 4,
        ensures
            r.wf(),
            r.prg_rom == rom,
            r.chr_rom == vrom,
            r.mirror_mode == hv01(mirror_mode),
            r.prg_bank == 0,
    {
        Mapper7 {
            chr_rom: vrom,
            prg_rom: rom,
            mirror_mode: MirrorMode::from_hv01(mirror_mode),
            prg_bank: 0,
        }
    }

    pub fn read(&self, address: u16) -> (r: u8)
        requires
            self.wf(),
        ensures
            r == self.spec_read(address),
    {
        if address < 0x2000 {
            read_wrapped(&self.chr_rom, address as usize)
        } else if address >= 0x8000 {
            read_wrapped(
                &self.prg_rom,
                PRG_BANK_SIZE * (self.prg_bank as usize) + (address & 0x7fff) as usize,
            )
        } else {
            0
        }
    }

    /// A write to $8000-$FFFF: bits 0-2 select the PRG bank, bit 4 the screen.
    /// What a CPU or PPU write of `val` at `address` does, relating the
    /// state before (`self`) and after (`new`).
    pub open spec fn write_post(&self, new: &Self, address: u16, val: u8) -> bool {
        &&& (new.prg_rom == self.prg_rom)
        &&& (address >= 0x8000 ==> new.prg_bank == val & 7 && new.mirror_mode == (
        if val & 0x10 != 0 { MirrorMode::Single0 } else { MirrorMode::Single1 }))
        &&& (address < 0x8000 ==> new.prg_bank == self.prg_bank
        && new.mirror_mode == self.mirror_mode)
        &&& (address < 0x2000 ==> new.chr_rom@ == self.chr_rom@.update(
        address as int % (self.chr_rom@.len() as int), val))
        &&& (address >= 0x2000 ==> new.chr_rom == self.chr_rom)
    }

    pub fn write(&mut self, address: u16, val: u8)
        requires
            old(self).wf(),
        ensures
            final(self).wf(),
            old(self).write_post(&*final(self), address, val),
            final(self).prg_rom == old(self).prg_rom,
            address >= 0x8000 ==> final(self).prg_bank == val & 7 && final(self).mirror_mode == (
                if val & 0x10 != 0 { MirrorMode::Single0 } else { MirrorMode::Single1 }),
            address < 0x8000 ==> final(self).prg_bank == old(self).prg_bank
                && final(self).mirror_mode == old(self).mirror_mode,
            address < 0x2000 ==> final(self).chr_rom@ == old(self).chr_rom@.update(
                address as int % (old(self).chr_rom@.len() as int), val),
            address >= 0x2000 ==> final(self).chr_rom == old(self).chr_rom,
    {
        if address < 0x2000 {
            write_wrapped(&mut self.chr_rom, address as usize, val);
        } else if address >= 0x8000 {
            self.prg_bank = val & 7;
            self.mirror_mode = if val & 0x10 != 0 { MirrorMode::Single0 } else { MirrorMode::Single1 };
        }
    }
}

} // verus!
