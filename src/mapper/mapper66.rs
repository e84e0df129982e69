//! GxROM: one register selects a 32 KiB PRG bank and an 8 KiB CHR bank.
use vstd::prelude::*;
use crate::mapper::{byte_at, read_wrapped, write_wrapped, hv01, MirrorMode};

verus! {

broadcast use crate::bits::group_masks;

pub const PRG_BANK_SIZE: usize = 32768;
pub const CHR_BANK_SIZE: usize = 8192;

pub struct Mapper66 {
    pub chr_rom: Vec<u8>,
    pub prg_rom: Vec<u8>,
    pub chr_bank: u8,
    pub prg_bank: u8,
    pub n_banks: usize,
    pub mirror_mode: MirrorMode,
}

impl Mapper66 {
    pub open spec fn wf(&self) -> bool {
        &&& self.chr_rom@.len() > 0
    }

    pub open spec fn spec_read(&self, address: u16) -> u8 {
        if address < 0x2000 {
            byte_at(self.chr_rom@, CHR_BANK_SIZE * self.chr_bank + address)
        } else if address >= 0x8000 {
            byte_at(self.prg_rom@, PRG_BANK_SIZE * self.prg_bank + (address & 0x7fff))
        } else {
            0
        }
    }

    pub fn new_mapper(rom: Vec<u8>, vrom: Vec<u8>, mirror_mode: u8) -> (r: Self)
        requires
            vrom@.len() > 0,
            mirror_mode <= 4,
        ensures
            r.wf(),
            r.prg_rom == rom,
            r.chr_rom == vrom,
            r.mirror_mode == hv01(mirror_mode),
            r.n_banks == rom@.len() as int / (PRG_BANK_SIZE as int),
            r.prg_bank == 0,
            r.chr_bank == 0,
    {
        let n_banks = rom.len() / PRG_BANK_SIZE;
        Mapper66 {
            chr_rom: vrom,
            prg_rom: rom,
            chr_bank: 0,
            prg_bank: 0,
            n_banks,
            mirror_mode: MirrorMode::from_hv01(mirror_mode),
        }
    }

    pub fn read(&self, address: u16) -> (r: u8)
        requires
            self.wf(),
        ensures
            r == self.spec_read(address),
    {
        if address < 0x2000 {
            read_wrapped(&self.chr_rom, CHR_BANK_SIZE * (self.chr_bank as usize) + address as usize)
        } else if address >= 0x8000 {
            read_wrapped(
                &self.prg_rom,
                PRG_BANK_SIZE * (self.prg_bank as usize) + (address & 0x7fff) as usize,
            )
        } else {
            0
        }
    }

    /// A write to $8000-$FFFF: bits 0-1 select CHR, bits 4-5 select PRG.
    /// What a CPU or PPU write of `val` at `address` does, relating the
    /// state before (`self`) and after (`new`).
    pub open spec fn write_post(&self, new: &Self, address: u16, val: u8) -> bool {
        &&& (new.mirror_mode == self.mirror_mode)
        &&& (new.prg_rom == self.prg_rom)
        &&& (address >= 0x8000 ==> new.chr_bank == val & 3
        && new.prg_bank == (val & 0x30) >> 4)
        &&& (address < 0x8000 ==> new.chr_bank == self.chr_bank
        && new.prg_bank == self.prg_bank)
        &&& (address < 0x2000 ==> new.chr_rom@ == self.chr_rom@.update(
        address as int % (self.chr_rom@.len() as int), val))
        &&& (address >= 0x2000 ==> new.chr_rom == self.chr_rom)
    }

    pub fn write(&mut self, address: u16, val: u8)
        requires
            old(self).wf(),
        ensures
            final(self).wf(),
            old(self).write_post(&*final(self), address, val),
            final(self).mirror_mode == old(self).mirror_mode,
            final(self).prg_rom == old(self).prg_rom,
            address >= 0x8000 ==> final(self).chr_bank == val & 3
                && final(self).prg_bank == (val & 0x30) >> 4,
            address < 0x8000 ==> final(self).chr_bank == old(self).chr_bank
                && final(self).prg_bank == old(self).prg_bank,
            address < 0x2000 ==> final(self).chr_rom@ == old(self).chr_rom@.update(
                address as int % (old(self).chr_rom@.len() as int), val),
            address >= 0x2000 ==> final(self).chr_rom == old(self).chr_rom,
    {
        if address < 0x2000 {
            write_wrapped(&mut self.chr_rom, address as usize, val);
        } else if address >= 0x8000 {
            self.chr_bank = val & 3;
            self.prg_bank = (val & 0x30) >> 4;
        }
    }
}

} // verus!
