//! Sunsoft-4: four 2 KiB CHR banks, a switchable 16 KiB PRG bank, gated
//! work RAM, and nametables that may be taken from CHR-ROM.
use vstd::prelude::*;
use crate::mapper::{byte_at, read_wrapped, zeroed, vh01, MirrorMode, PRG_RAM_SIZE, MAX_PRG_SIZE};

verus! {

broadcast use crate::bits::group_masks;

pub const PRG_BANK_SIZE: usize = 16384;
pub const CHR_BANK_SIZE: usize = 2048;
pub const CHR_NT_BANK_SIZE: usize = 1024;

pub struct Mapper68 {
    pub chr_rom: Vec<u8>,
    pub prg_rom: Vec<u8>,
    pub prg_ram: Vec<u8>,
    pub prg_bank0: u8,
    pub prg_bank1: u8,
    pub ram_enabled: bool,
    pub chr_banks: Vec<u8>,
    pub chr_nt_enabled: bool,
    pub chr_nt_bank0: u8,
    pub chr_nt_bank1: u8,
    pub mirror_mode: MirrorMode,
}

impl Mapper68 {
    pub open spec fn wf(&self) -> bool {
        &&& self.chr_rom@.len() > 0
        &&& self.prg_ram@.len() == PRG_RAM_SIZE
        &&& self.chr_banks@.len() == 4
    }

    /// The CHR-ROM 1 KiB bank that logical nametable `table` (0 to 3) shows.
    pub open spec fn nt_bank(&self, table: int) -> u8 {
        match self.mirror_mode {
            MirrorMode::Horizontal => if table < 2 { self.chr_nt_bank0 } else { self.chr_nt_bank1 },
            MirrorMode::Single0 => self.chr_nt_bank0,
            MirrorMode::Single1 => self.chr_nt_bank1,
            _ => if table % 2 == 0 { self.chr_nt_bank0 } else { self.chr_nt_bank1 },
        }
    }

    pub open spec fn nametable_index(&self, address: u16) -> int {
        let a = (address - 0x2000) % 0x1000;
        self.nt_bank(a / 0x400) * CHR_NT_BANK_SIZE + a % 0x400
    }

    pub open spec fn spec_read(&self, address: u16) -> u8 {
        if address < 0x2000 {
            byte_at(
                self.chr_rom@,
                self.chr_banks@[(address / 0x800) as int] * CHR_BANK_SIZE + (address & 0x7ff),
            )
        } else if address < 0x3f00 {
            if self.chr_nt_enabled { byte_at(self.chr_rom@, self.nametable_index(address)) } else { 0 }
        } else if 0x6000 <= address < 0x8000 {
            if self.ram_enabled { self.prg_ram@[address - 0x6000] } else { 0 }
        } else if 0x8000 <= address < 0xc000 {
            byte_at(self.prg_rom@, self.prg_bank0 * PRG_BANK_SIZE + (address & 0x3fff))
        } else if address >= 0xc000 {
            byte_at(self.prg_rom@, self.prg_bank1 * PRG_BANK_SIZE + (address & 0x3fff))
        } else {
            0
        }
    }

    pub fn new_mapper(rom: Vec<u8>, vrom: Vec<u8>, mirror_mode: u8) -> (r: Self)
        requires
            rom@.len() <= MAX_PRG_SIZE,
            vrom@.len() > 0,
            mirror_mode <= 4,
        ensures
            r.wf(),
            r.prg_rom == rom,
            r.chr_rom == vrom,
            r.mirror_mode == vh01(mirror_mode),
            r.prg_bank0 == 0,
            r.prg_bank1 == (if rom@.len() < PRG_BANK_SIZE { 0 } else {
                (rom@.len() as int / PRG_BANK_SIZE as int - 1) as u8 }),
            !r.ram_enabled && !r.chr_nt_enabled,
    {
        let n_banks = rom.len() / PRG_BANK_SIZE;
        let last: u8 = if n_banks == 0 { 0 } else { (n_banks - 1) as u8 };
        Mapper68 {
            chr_rom: vrom,
            prg_rom: rom,
            prg_ram: zeroed(PRG_RAM_SIZE),
            prg_bank0: 0,
            prg_bank1: last,
            ram_enabled: false,
            chr_banks: zeroed(4),
            chr_nt_enabled: false,
            chr_nt_bank0: 0,
            chr_nt_bank1: 0,
            mirror_mode: MirrorMode::from_vh01(mirror_mode),
        }
    }

    /// CHR-ROM index of a nametable address while CHR nametables are on.
    fn nametable_mirror_address(&self, address: u16) -> (r: usize)
        requires
            0x2000 <= address,
        ensures
            r as int == self.nametable_index(address),
    {
        let a = (address - 0x2000) % 0x1000;
        let table = a / 0x400;
        let bank = match self.mirror_mode {
            MirrorMode::Horizontal => if table < 2 { self.chr_nt_bank0 } else { self.chr_nt_bank1 },
            MirrorMode::Single0 => self.chr_nt_bank0,
            MirrorMode::Single1 => self.chr_nt_bank1,
            _ => if table % 2 == 0 { self.chr_nt_bank0 } else { self.chr_nt_bank1 },
        };
        (bank as usize) * CHR_NT_BANK_SIZE + (a % 0x400) as usize
    }

    pub fn read(&self, address: u16) -> (r: u8)
        requires
            self.wf(),
        ensures
            r == self.spec_read(address),
    {
        if address < 0x2000 {
            let bank = self.chr_banks[(address / 0x800) as usize] as usize;
            read_wrapped(&self.chr_rom, bank * CHR_BANK_SIZE + (address & 0x7ff) as usize)
        } else if address < 0x3f00 {
            if self.chr_nt_enabled {
                read_wrapped(&self.chr_rom, self.nametable_mirror_address(address))
            } else {
                0
            }
        } else if 0x6000 <= address && address < 0x8000 {
            if self.ram_enabled { self.prg_ram[(address - 0x6000) as usize] } else { 0 }
        } else if 0x8000 <= address && address < 0xc000 {
            read_wrapped(&self.prg_rom, self.prg_bank0 as usize * PRG_BANK_SIZE + (address & 0x3fff) as usize)
        } else if address >= 0xc000 {
            read_wrapped(&self.prg_rom, self.prg_bank1 as usize * PRG_BANK_SIZE + (address & 0x3fff) as usize)
        } else {
            0
        }
    }

    /// What a CPU or PPU write of `val` at `address` does, relating the
    /// state before (`self`) and after (`new`).
    pub open spec fn write_post(&self, new: &Self, address: u16, val: u8) -> bool {
        &&& (new.prg_rom == self.prg_rom)
        &&& (new.chr_rom == self.chr_rom)
        &&& (0x6000 <= address < 0x8000 ==> new.prg_ram@ == (if self.ram_enabled {
        self.prg_ram@.update(address - 0x6000, val)
        } else {
        self.prg_ram@
        }))
        &&& (0x8000 <= address < 0xc000 ==> new.chr_banks@
        == self.chr_banks@.update((address - 0x8000) / 0x1000, val))
        &&& (0xc000 <= address < 0xd000 ==> new.chr_nt_bank0 == val | 0x80)
        &&& (0xd000 <= address < 0xe000 ==> new.chr_nt_bank1 == val | 0x80)
        &&& (0xe000 <= address < 0xf000 ==> new.mirror_mode == vh01(val & 3)
        && new.chr_nt_enabled == (val & 0x10 != 0))
        &&& (address >= 0xf000 ==> new.prg_bank0 == val & 0x0f
        && new.ram_enabled == (val & 0x10 != 0))
        &&& (address < 0x6000 ==> *new == *self)
    }

    pub fn write(&mut self, address: u16, val: u8)
        requires
            old(self).wf(),
        ensures
            final(self).wf(),
            old(self).write_post(&*final(self), address, val),
            final(self).prg_rom == old(self).prg_rom,
            final(self).chr_rom == old(self).chr_rom,
            0x6000 <= address < 0x8000 ==> final(self).prg_ram@ == (if old(self).ram_enabled {
                old(self).prg_ram@.update(address - 0x6000, val)
            } else {
                old(self).prg_ram@
            }),
            0x8000 <= address < 0xc000 ==> final(self).chr_banks@
                == old(self).chr_banks@.update((address - 0x8000) / 0x1000, val),
            0xc000 <= address < 0xd000 ==> final(self).chr_nt_bank0 == val | 0x80,
            0xd000 <= address < 0xe000 ==> final(self).chr_nt_bank1 == val | 0x80,
            0xe000 <= address < 0xf000 ==> final(self).mirror_mode == vh01(val & 3)
                && final(self).chr_nt_enabled == (val & 0x10 != 0),
            address >= 0xf000 ==> final(self).prg_bank0 == val & 0x0f
                && final(self).ram_enabled == (val & 0x10 != 0),
            address < 0x6000 ==> *final(self) == *old(self),
    {
        if 0x6000 <= address && address < 0x8000 {
            if self.ram_enabled {
                self.prg_ram.set((address - 0x6000) as usize, val);
            }
        } else if 0x8000 <= address && address < 0xc000 {
            self.chr_banks.set(((address - 0x8000) / 0x1000) as usize, val);
        } else if 0xc000 <= address && address < 0xd000 {
            self.chr_nt_bank0 = val | 0x80;
        } else if 0xd000 <= address && address < 0xe000 {
            self.chr_nt_bank1 = val | 0x80;
        } else if 0xe000 <= address && address < 0xf000 {
            self.mirror_mode = MirrorMode::from_vh01(val & 3);
            self.chr_nt_enabled = val & 0x10 != 0;
        } else if address >= 0xf000 {
            self.prg_bank0 = val & 0x0f;
            self.ram_enabled = val & 0x10 != 0;
        }
    }
}

} // verus!
