//! Mapper 34: BxROM (32 KiB PRG switching) or NINA-001 (PRG and two 4 KiB
//! CHR banks through registers at $7FFD-$7FFF), told apart by CHR size.
use vstd::prelude::*;
use crate::mapper::{byte_at, read_wrapped, write_wrapped, zeroed, hv01, MirrorMode, PRG_RAM_SIZE};

verus! {

broadcast use crate::bits::group_masks;

pub const PRG_BANK_SIZE: usize = 32768;
pub const CHR_BANK_SIZE: usize = 4096;

#[derive(Clone, Copy, Debug, PartialEq, Eq, Structural)]
pub enum Board {
    BxROM,
    NINA001,
}

pub struct Mapper34 {
    pub chr_rom: Vec<u8>,
    pub prg_rom: Vec<u8>,
    pub prg_ram: Vec<u8>,
    pub board: Board,
    pub prg_bank: u8,
    pub chr_bank0: u8,
    pub chr_bank1: u8,
    pub mirror_mode: MirrorMode,
}

impl Mapper34 {
    pub open spec fn wf(&self) -> bool {
        &&& self.chr_rom@.len() > 0
        &&& self.prg_ram@.len() == PRG_RAM_SIZE
    }

    pub open spec fn spec_read(&self, address: u16) -> u8 {
        let prg = byte_at(self.prg_rom@, PRG_BANK_SIZE * self.prg_bank + (address & 0x7fff));
        match self.board {
            Board::NINA001 => {
                if address < 0x1000 {
                    byte_at(self.chr_rom@, CHR_BANK_SIZE * self.chr_bank0 + address)
                } else if address < 0x2000 {
                    byte_at(self.chr_rom@, CHR_BANK_SIZE * self.chr_bank1 + (address & 0x0fff))
                } else if 0x6000 <= address < 0x8000 {
                    self.prg_ram@[address - 0x6000]
                } else if address >= 0x8000 {
                    prg
                } else {
                    0
                }
            },
            Board::BxROM => {
                if address < 0x2000 {
                    byte_at(self.chr_rom@, address as int)
                } else if address >= 0x8000 {
                    prg
                } else {
                    0
                }
            },
        }
    }

    pub fn new_mapper(rom: Vec<u8>, vrom: Vec<u8>, mirror_mode: u8) -> (r: Self)
        requires
            vrom@.len() > 0,
            mirror_mode <= 4,
        ensures
            r.wf(),
            r.prg_rom == rom,
            r.chr_rom == vrom,
            r.board == (if vrom@.len() <= 8192 { Board::BxROM } else { Board::NINA001 }),
            r.mirror_mode == (if vrom@.len() <= 8192 {
                hv01(mirror_mode)
            } else {
                MirrorMode::Horizontal
            }),
            r.prg_bank == 0 && r.chr_bank0 == 0 && r.chr_bank1 == 0,
    {
        let board = if vrom.len() <= 8192 { Board::BxROM } else { Board::NINA001 };
        let mirror_mode = match board {
            Board::NINA001 => MirrorMode::Horizontal,
            Board::BxROM => MirrorMode::from_hv01(mirror_mode),
        };
        Mapper34 {
            chr_rom: vrom,
            prg_rom: rom,
            prg_ram: zeroed(PRG_RAM_SIZE),
            board,
            prg_bank: 0,
            chr_bank0: 0,
            chr_bank1: 0,
            mirror_mode,
        }
    }

    pub fn read(&self, address: u16) -> (r: u8)
        requires
            self.wf(),
        ensures
            r == self.spec_read(address),
    {
        let prg_index = PRG_BANK_SIZE * (self.prg_bank as usize) + (address & 0x7fff) as usize;
        match self.board {
            Board::NINA001 => {
                if address < 0x1000 {
                    read_wrapped(
                        &self.chr_rom,
                        CHR_BANK_SIZE * (self.chr_bank0 as usize) + address as usize,
                    )
                } else if address < 0x2000 {
                    read_wrapped(
                        &self.chr_rom,
                        CHR_BANK_SIZE * (self.chr_bank1 as usize) + (address & 0x0fff) as usize,
                    )
                } else if 0x6000 <= address && address < 0x8000 {
                    self.prg_ram[(address - 0x6000) as usize]
                } else if address >= 0x8000 {
                    read_wrapped(&self.prg_rom, prg_index)
                } else {
                    0
                }
            },
            Board::BxROM => {
                if address < 0x2000 {
                    read_wrapped(&self.chr_rom, address as usize)
                } else if address >= 0x8000 {
                    read_wrapped(&self.prg_rom, prg_index)
                } else {
                    0
                }
            },
        }
    }

    /// What a CPU or PPU write of `val` at `address` does, relating the
    /// state before (`self`) and after (`new`).
    pub open spec fn write_post(&self, new: &Self, address: u16, val: u8) -> bool {
        &&& (new.board == self.board)
        &&& (new.mirror_mode == self.mirror_mode)
        &&& (new.prg_rom == self.prg_rom)
        &&& (self.board == Board::NINA001 ==> {
        &&& 0x6000 <= address < 0x8000 ==> new.prg_ram@ == self.prg_ram@.update(
            address - 0x6000, val)
        &&& new.prg_bank == (if address == 0x7ffd { val & 1 } else { self.prg_bank })
        &&& new.chr_bank0 == (if address == 0x7ffe { val & 0x0f } else { self.chr_bank0 })
        &&& new.chr_bank1 == (if address == 0x7fff { val & 0x0f } else { self.chr_bank1 })
        &&& new.chr_rom == self.chr_rom
        })
        &&& (self.board == Board::BxROM ==> {
        &&& new.prg_bank == (if address >= 0x8000 { val } else { self.prg_bank })
        &&& address < 0x2000 ==> new.chr_rom@ == self.chr_rom@.update(
            address as int % (self.chr_rom@.len() as int), val)
        &&& address >= 0x2000 ==> new.chr_rom == self.chr_rom
        &&& new.prg_ram == self.prg_ram
        })
    }

    pub fn write(&mut self, address: u16, val: u8)
        requires
            old(self).wf(),
        ensures
            final(self).wf(),
            old(self).write_post(&*final(self), address, val),
            final(self).board == old(self).board,
            final(self).mirror_mode == old(self).mirror_mode,
            final(self).prg_rom == old(self).prg_rom,
            old(self).board == Board::NINA001 ==> {
                &&& 0x6000 <= address < 0x8000 ==> final(self).prg_ram@ == old(self).prg_ram@.update(
                    address - 0x6000, val)
                &&& final(self).prg_bank == (if address == 0x7ffd { val & 1 } else { old(self).prg_bank })
                &&& final(self).chr_bank0 == (if address == 0x7ffe { val & 0x0f } else { old(self).chr_bank0 })
                &&& final(self).chr_bank1 == (if address == 0x7fff { val & 0x0f } else { old(self).chr_bank1 })
                &&& final(self).chr_rom == old(self).chr_rom
            },
            old(self).board == Board::BxROM ==> {
                &&& final(self).prg_bank == (if address >= 0x8000 { val } else { old(self).prg_bank })
                &&& address < 0x2000 ==> final(self).chr_rom@ == old(self).chr_rom@.update(
                    address as int % (old(self).chr_rom@.len() as int), val)
                &&& address >= 0x2000 ==> final(self).chr_rom == old(self).chr_rom
                &&& final(self).prg_ram == old(self).prg_ram
            },
    {
        match self.board {
            Board::NINA001 => {
                if 0x6000 <= address && address < 0x8000 {
                    self.prg_ram.set((address - 0x6000) as usize, val);
                    if address == 0x7ffd {
                        self.prg_bank = val & 1;
                    } else if address == 0x7ffe {
                        self.chr_bank0 = val & 0x0f;
                    } else if address == 0x7fff {
                        self.chr_bank1 = val & 0x0f;
                    }
                }
            },
            Board::BxROM => {
                if address < 0x2000 {
                    write_wrapped(&mut self.chr_rom, address as usize, val);
                } else if address >= 0x8000 {
                    self.prg_bank = val;
                }
            },
        }
    }
}

} // verus!
