//! UxROM: a switchable 16 KiB PRG bank at $8000, the last bank fixed at $C000.
use vstd::prelude::*;
use crate::mapper::{byte_at, read_wrapped, write_wrapped, zeroed, hv01, MirrorMode, PRG_RAM_SIZE};

verus! {

broadcast use crate::bits::group_masks;

pub const PRG_BANK_SIZE: usize = 16384;

pub struct Mapper2 {
    pub chr_rom: Vec<u8>,
    pub prg_rom: Vec<u8>,
    pub prg_ram: Vec<u8>,
    pub n_banks: usize,
    pub prg_bank1: u8,
    pub prg_bank2: u8,
    pub mirror_mode: MirrorMode,
}

impl Mapper2 {
    pub open spec fn wf(&self) -> bool {
        &&& self.chr_rom@.len() > 0
        &&& self.prg_ram@.len() == PRG_RAM_SIZE
    }

    pub open spec fn spec_read(&self, address: u16) -> u8 {
        if address < 0x2000 {
            byte_at(self.chr_rom@, address as int)
        } else if 0x6000 <= address < 0x8000 {
            self.prg_ram@[address - 0x6000]
        } else if 0x8000 <= address < 0xc000 {
            byte_at(self.prg_rom@, PRG_BANK_SIZE * self.prg_bank1 + (address & 0x3fff))
        } else if address >= 0xc000 {
            byte_at(self.prg_rom@, PRG_BANK_SIZE * self.prg_bank2 + (address & 0x3fff))
        } else {
            0
        }
    }

    pub fn new_mapper(rom: Vec<u8>, vrom: Vec<u8>, mirror_mode: u8) -> (r: Self)
        requires
            vrom@.len() > 0,
            mirror_mode <= 4,
        ensures
            r.wf(),
            r.prg_rom == rom,
            r.chr_rom == vrom,
            r.mirror_mode == hv01(mirror_mode),
            r.n_banks == rom@.len() as int / (PRG_BANK_SIZE as int),
            r.prg_bank1 == 0,
            r.prg_bank2 == (if r.n_banks == 0 { 0 } else { (r.n_banks - 1) as u8 }),
    {
        let n_banks = rom.len() / PRG_BANK_SIZE;
        let last: u8 = if n_banks == 0 { 0 } else { (n_banks - 1) as u8 };
        Mapper2 {
            chr_rom: vrom,
            prg_rom: rom,
            prg_ram: zeroed(PRG_RAM_SIZE),
            n_banks,
            prg_bank1: 0,
            prg_bank2: last,
            mirror_mode: MirrorMode::from_hv01(mirror_mode),
        }
    }

    pub fn read(&self, address: u16) -> (r: u8)
        requires
            self.wf(),
        ensures
            r == self.spec_read(address),
    {
        if address < 0x2000 {
            read_wrapped(&self.chr_rom, address as usize)
        } else if 0x6000 <= address && address < 0x8000 {
            self.prg_ram[(address - 0x6000) as usize]
        } else if 0x8000 <= address && address < 0xc000 {
            read_wrapped(
                &self.prg_rom,
                PRG_BANK_SIZE * (self.prg_bank1 as usize) + (address & 0x3fff) as usize,
            )
        } else if address >= 0xc000 {
            read_wrapped(
                &self.prg_rom,
                PRG_BANK_SIZE * (self.prg_bank2 as usize) + (address & 0x3fff) as usize,
            )
        } else {
            0
        }
    }

    /// Any write to $8000-$FFFF selects the low PRG bank, masked to the bank count.
    /// What a CPU or PPU write of `val` at `address` does, relating the
    /// state before (`self`) and after (`new`).
    pub open spec fn write_post(&self, new: &Self, address: u16, val: u8) -> bool {
        &&& (new.mirror_mode == self.mirror_mode)
        &&& (new.prg_rom == self.prg_rom)
        &&& (new.prg_bank2 == self.prg_bank2)
        &&& (address >= 0x8000 ==> new.prg_bank1 == val & (
        if self.n_banks == 0 { 0u8 } else { (self.n_banks - 1) as u8 }))
        &&& (address < 0x8000 ==> new.prg_bank1 == self.prg_bank1)
        &&& (address < 0x2000 ==> new.chr_rom@ == self.chr_rom@.update(
        address as int % (self.chr_rom@.len() as int), val))
        &&& (0x6000 <= address < 0x8000 ==> new.prg_ram@ == self.prg_ram@.update(
        address - 0x6000, val))
    }

    pub fn write(&mut self, address: u16, val: u8)
        requires
            old(self).wf(),
        ensures
            final(self).wf(),
            old(self).write_post(&*final(self), address, val),
            final(self).mirror_mode == old(self).mirror_mode,
            final(self).prg_rom == old(self).prg_rom,
            final(self).prg_bank2 == old(self).prg_bank2,
            address >= 0x8000 ==> final(self).prg_bank1 == val & (
                if old(self).n_banks == 0 { 0u8 } else { (old(self).n_banks - 1) as u8 }),
            address < 0x8000 ==> final(self).prg_bank1 == old(self).prg_bank1,
            address < 0x2000 ==> final(self).chr_rom@ == old(self).chr_rom@.update(
                address as int % (old(self).chr_rom@.len() as int), val),
            0x6000 <= address < 0x8000 ==> final(self).prg_ram@ == old(self).prg_ram@.update(
                address - 0x6000, val),
    {
        if address < 0x2000 {
            write_wrapped(&mut self.chr_rom, address as usize, val);
        } else if 0x6000 <= address && address < 0x8000 {
            self.prg_ram.set((address - 0x6000) as usize, val);
        } else if address >= 0x8000 {
            let mask: u8 = if self.n_banks == 0 { 0 } else { (self.n_banks - 1) as u8 };
            self.prg_bank1 = val & mask;
        }
    }
}

} // verus!
