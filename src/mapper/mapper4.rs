//! MMC3: eight bank registers behind a select/data pair, two PRG orderings,
//! two CHR orderings and a scanline-counted IRQ.
use vstd::prelude::*;
use crate::mapper::{byte_at, read_wrapped, write_wrapped, zeroed, hv01, MirrorMode, PRG_RAM_SIZE, MAX_PRG_SIZE};

verus! {

broadcast use crate::bits::group_masks;

pub const PRG_BANK_SIZE: usize = 8192;
pub const CHR_BANK_SIZE: usize = 1024;

/// Everything an MMC3 holds but its memories and bank registers.
#[derive(Clone, Copy, Debug, PartialEq, Eq, Structural)]
pub struct Mmc3Ctl {
    pub index: u8,
    pub chr_mode: bool,
    pub prg_mode: bool,
    pub irq_counter: u8,
    pub irq_period: u8,
    pub irq_enabled: bool,
    pub irq_flag: bool,
    pub mirror_mode: MirrorMode,
}

/// The effect of a CPU write at $8000-$FFFF on the control state.
pub open spec fn ctl_write_spec(c: Mmc3Ctl, address: u16, val: u8) -> Mmc3Ctl {
    let even = address & 1 == 0;
    if address < 0xa000 {
        if even {
            Mmc3Ctl {
                index: val & 7,
                prg_mode: val & 0x40 != 0,
                chr_mode: val & 0x80 != 0,
                ..c
            }
        } else {
            c
        }
    } else if address < 0xc000 {
        if even {
            Mmc3Ctl {
                mirror_mode: if val & 1 == 0 { MirrorMode::Vertical } else { MirrorMode::Horizontal },
                ..c
            }
        } else {
            c
        }
    } else if address < 0xe000 {
        if even { Mmc3Ctl { irq_period: val, ..c } } else { Mmc3Ctl { irq_counter: 0, ..c } }
    } else {
        if even {
            Mmc3Ctl { irq_enabled: false, irq_flag: false, ..c }
        } else {
            Mmc3Ctl { irq_enabled: true, ..c }
        }
    }
}

/// The counter step taken at the end of each rendered scanline.
pub open spec fn scanline_spec(c: Mmc3Ctl) -> Mmc3Ctl {
    if c.irq_counter == 0 {
        Mmc3Ctl { irq_counter: c.irq_period, ..c }
    } else {
        let n = (c.irq_counter - 1) as u8;
        Mmc3Ctl { irq_counter: n, irq_flag: if n == 0 && c.irq_enabled { true } else { c.irq_flag }, ..c }
    }
}

pub struct Mapper4 {
    pub chr_rom: Vec<u8>,
    pub prg_rom: Vec<u8>,
    pub sram: Vec<u8>,
    pub n_prg_banks: usize,
    pub regs: Vec<u8>,
    pub ctl: Mmc3Ctl,
}

impl Mapper4 {
    pub open spec fn wf(&self) -> bool {
        &&& self.chr_rom@.len() > 0
        &&& self.sram@.len() == PRG_RAM_SIZE
        &&& self.regs@.len() == 8
        &&& self.ctl.index < 8
        &&& self.n_prg_banks <= 0x10000
    }

    /// The 1 KiB CHR bank of the slot `slot` (0 to 7) of the pattern tables.
    pub open spec fn spec_chr_bank(&self, slot: int) -> int {
        let s = if self.ctl.chr_mode { (slot + 4) % 8 } else { slot };
        if s < 4 {
            let r = self.regs@[s / 2];
            if s % 2 == 0 { (r & 0xfe) as int } else { (r | 1) as int }
        } else {
            self.regs@[s - 2] as int
        }
    }

    pub open spec fn second_last(&self) -> int {
        if self.n_prg_banks < 2 { 0 } else { self.n_prg_banks - 2 }
    }

    pub open spec fn last(&self) -> int {
        if self.n_prg_banks < 1 { 0 } else { self.n_prg_banks - 1 }
    }

    /// The 8 KiB PRG bank of the window `w` (0 to 3) at $8000 + w * $2000.
    pub open spec fn spec_prg_bank(&self, w: int) -> int {
        if w == 0 {
            if self.ctl.prg_mode { self.second_last() } else { self.regs@[6] as int }
        } else if w == 1 {
            self.regs@[7] as int
        } else if w == 2 {
            if self.ctl.prg_mode { self.regs@[6] as int } else { self.second_last() }
        } else {
            self.last()
        }
    }

    pub open spec fn spec_read(&self, address: u16) -> u8 {
        if address < 0x2000 {
            byte_at(
                self.chr_rom@,
                CHR_BANK_SIZE * self.spec_chr_bank((address / 0x400) as int) + (address % 0x400),
            )
        } else if 0x6000 <= address < 0x8000 {
            self.sram@[address - 0x6000]
        } else if address >= 0x8000 {
            byte_at(
                self.prg_rom@,
                PRG_BANK_SIZE * self.spec_prg_bank(((address - 0x8000) / 0x2000) as int) + (address & 0x1fff),
            )
        } else {
            0
        }
    }

    pub fn new_mapper(rom: Vec<u8>, vrom: Vec<u8>, mirror_mode: u8) -> (r: Self)
        requires
            rom@.len() <= MAX_PRG_SIZE,
            vrom@.len() > 0,
            mirror_mode <= 4,
        ensures
            r.wf(),
            r.prg_rom == rom,
            r.chr_rom == vrom,
            r.n_prg_banks == rom@.len() as int / (PRG_BANK_SIZE as int),
            forall|i: int| 0 <= i < 8 ==> r.regs@[i] == 0,
            r.ctl == (Mmc3Ctl {
                index: 0,
                chr_mode: false,
                prg_mode: false,
                irq_counter: 0,
                irq_period: 0,
                irq_enabled: false,
                irq_flag: false,
                mirror_mode: hv01(mirror_mode),
            }),
    {
        let n_banks = rom.len() / PRG_BANK_SIZE;
        Mapper4 {
            chr_rom: vrom,
            prg_rom: rom,
            sram: zeroed(PRG_RAM_SIZE),
            n_prg_banks: n_banks,
            regs: zeroed(8),
            ctl: Mmc3Ctl {
                index: 0,
                chr_mode: false,
                prg_mode: false,
                irq_counter: 0,
                irq_period: 0,
                irq_enabled: false,
                irq_flag: false,
                mirror_mode: MirrorMode::from_hv01(mirror_mode),
            },
        }
    }

    fn chr_bank(&self, slot: usize) -> (r: usize)
        requires
            self.wf(),
            slot < 8,
        ensures
            r as int == self.spec_chr_bank(slot as int),
            r < 256,
    {
        let s = if self.ctl.chr_mode { (slot + 4) % 8 } else { slot };
        if s < 4 {
            let r = self.regs[s / 2];
            if s % 2 == 0 { (r & 0xfe) as usize } else { (r | 1) as usize }
        } else {
            self.regs[s - 2] as usize
        }
    }

    fn prg_bank(&self, w: usize) -> (r: usize)
        requires
            self.wf(),
        ensures
            r as int == self.spec_prg_bank(w as int),
            r <= 0x10000,
    {
        let second_last = if self.n_prg_banks < 2 { 0 } else { self.n_prg_banks - 2 };
        if w == 0 {
            if self.ctl.prg_mode { second_last } else { self.regs[6] as usize }
        } else if w == 1 {
            self.regs[7] as usize
        } else if w == 2 {
            if self.ctl.prg_mode { self.regs[6] as usize } else { second_last }
        } else {
            if self.n_prg_banks < 1 { 0 } else { self.n_prg_banks - 1 }
        }
    }

    pub fn read(&self, address: u16) -> (r: u8)
        requires
            self.wf(),
        ensures
            r == self.spec_read(address),
    {
        if address < 0x2000 {
            let bank = self.chr_bank((address / 0x400) as usize);
            read_wrapped(&self.chr_rom, CHR_BANK_SIZE * bank + (address % 0x400) as usize)
        } else if 0x6000 <= address && address < 0x8000 {
            self.sram[(address - 0x6000) as usize]
        } else if address >= 0x8000 {
            let bank = self.prg_bank(((address - 0x8000) / 0x2000) as usize);
            read_wrapped(&self.prg_rom, PRG_BANK_SIZE * bank + (address & 0x1fff) as usize)
        } else {
            0
        }
    }

    /// What a CPU or PPU write of `val` at `address` does, relating the
    /// state before (`self`) and after (`new`).
    pub open spec fn write_post(&self, new: &Self, address: u16, val: u8) -> bool {
        &&& (new.prg_rom == self.prg_rom)
        &&& (new.n_prg_banks == self.n_prg_banks)
        &&& (address >= 0x8000 ==> new.ctl == ctl_write_spec(self.ctl, address, val))
        &&& (address < 0x8000 ==> new.ctl == self.ctl)
        &&& (new.regs@ == (if 0x8000 <= address < 0xa000 && address & 1 == 1 {
        self.regs@.update(self.ctl.index as int, val)
        } else {
        self.regs@
        }))
        &&& (address < 0x2000 ==> new.chr_rom@ == self.chr_rom@.update(
        address as int % (self.chr_rom@.len() as int), val))
        &&& (address >= 0x2000 ==> new.chr_rom == self.chr_rom)
        &&& (0x6000 <= address < 0x8000 ==> new.sram@ == self.sram@.update(
        address - 0x6000, val))
    }

    pub fn write(&mut self, address: u16, val: u8)
        requires
            old(self).wf(),
        ensures
            final(self).wf(),
            old(self).write_post(&*final(self), address, val),
            final(self).prg_rom == old(self).prg_rom,
            final(self).n_prg_banks == old(self).n_prg_banks,
            address >= 0x8000 ==> final(self).ctl == ctl_write_spec(old(self).ctl, address, val),
            address < 0x8000 ==> final(self).ctl == old(self).ctl,
            final(self).regs@ == (if 0x8000 <= address < 0xa000 && address & 1 == 1 {
                old(self).regs@.update(old(self).ctl.index as int, val)
            } else {
                old(self).regs@
            }),
            address < 0x2000 ==> final(self).chr_rom@ == old(self).chr_rom@.update(
                address as int % (old(self).chr_rom@.len() as int), val),
            address >= 0x2000 ==> final(self).chr_rom == old(self).chr_rom,
            0x6000 <= address < 0x8000 ==> final(self).sram@ == old(self).sram@.update(
                address - 0x6000, val),
    {
        let even = address & 1 == 0;
        if address < 0x2000 {
            write_wrapped(&mut self.chr_rom, address as usize, val);
        } else if 0x6000 <= address && address < 0x8000 {
            self.sram.set((address - 0x6000) as usize, val);
        } else if address >= 0x8000 && address < 0xa000 {
            if even {
                self.ctl.index = val & 7;
                self.ctl.prg_mode = val & 0x40 != 0;
                self.ctl.chr_mode = val & 0x80 != 0;
            } else {
                self.regs.set(self.ctl.index as usize, val);
            }
        } else if address >= 0xa000 && address < 0xc000 {
            if even {
                self.ctl.mirror_mode = if val & 1 == 0 {
                    MirrorMode::Vertical
                } else {
                    MirrorMode::Horizontal
                };
            }
        } else if address >= 0xc000 && address < 0xe000 {
            if even {
                self.ctl.irq_period = val;
            } else {
                self.ctl.irq_counter = 0;
            }
        } else if address >= 0xe000 {
            if even {
                self.ctl.irq_enabled = false;
                self.ctl.irq_flag = false;
            } else {
                self.ctl.irq_enabled = true;
            }
        }
    }

    /// End of a rendered scanline: reload or count down, and raise the IRQ
    /// flag when the counter reaches zero with IRQs enabled.
    pub fn signal_scanline(&mut self)
        requires
            old(self).wf(),
        ensures
            final(self).wf(),
            final(self).ctl == scanline_spec(old(self).ctl),
            *final(self) == (Mapper4 { ctl: scanline_spec(old(self).ctl), ..*old(self) }),
            final(self).chr_rom == old(self).chr_rom,
            final(self).prg_rom == old(self).prg_rom,
            final(self).sram == old(self).sram,
            final(self).regs == old(self).regs,
            final(self).n_prg_banks == old(self).n_prg_banks,
    {
        if self.ctl.irq_counter == 0 {
            self.ctl.irq_counter = self.ctl.irq_period;
        } else {
            self.ctl.irq_counter = self.ctl.irq_counter - 1;
            if self.ctl.irq_counter == 0 && self.ctl.irq_enabled {
                self.ctl.irq_flag = true;
            }
        }
    }
}

} // verus!
