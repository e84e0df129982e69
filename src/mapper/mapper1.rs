//! MMC1: a serial 5-bit shift register configures mirroring, PRG banking
//! (32 KiB or 16 KiB with a fixed half) and CHR banking (8 KiB or two 4 KiB).
use vstd::prelude::*;
use crate::mapper::{byte_at, read_wrapped, write_wrapped, zeroed, hv01, MirrorMode, PRG_RAM_SIZE, MAX_PRG_SIZE};

verus! {

broadcast use crate::bits::group_masks;

pub const PRG_BANK_SIZE: usize = 16384;
pub const CHR_BANK_SIZE: usize = 4096;

/// The configuration registers of an MMC1 and its serial load state.
#[derive(Clone, Copy, Debug, PartialEq, Eq, Structural)]
pub struct Mmc1Regs {
    pub control: u8,
    pub chr_bank0: u8,
    pub chr_bank1: u8,
    pub prg_bank: u8,
    pub shift_register: u8,
    pub write_count: u8,
    pub mirror_mode: MirrorMode,
}

/// Mirroring selected by the low two bits of the control register.
pub open spec fn control_mirror(val: u8) -> MirrorMode {
    if val & 3 == 0 {
        MirrorMode::Single0
    } else if val & 3 == 1 {
        MirrorMode::Single1
    } else if val & 3 == 2 {
        MirrorMode::Vertical
    } else {
        MirrorMode::Horizontal
    }
}

/// The effect of a completed five-bit value on the register that `address` selects.
pub open spec fn write_register_spec(r: Mmc1Regs, address: u16, val: u8) -> Mmc1Regs {
    if address < 0xa000 {
        Mmc1Regs { control: val, mirror_mode: control_mirror(val), ..r }
    } else if address < 0xc000 {
        Mmc1Regs { chr_bank0: val & 0x1f, ..r }
    } else if address < 0xe000 {
        Mmc1Regs { chr_bank1: val & 0x1f, ..r }
    } else {
        Mmc1Regs { prg_bank: val & 0x0f, ..r }
    }
}

/// The effect of one CPU write to $8000-$FFFF: a reset pulse (bit 7) or one
/// more bit shifted in, which on the fifth write lands in a register.
pub open spec fn load_register_spec(r: Mmc1Regs, address: u16, val: u8) -> Mmc1Regs {
    if val & 0x80 == 0x80 {
        Mmc1Regs { shift_register: 0, control: 0x0c, write_count: 0, ..r }
    } else {
        let shifted = (r.shift_register | ((val & 1) << r.write_count)) as u8;
        if r.write_count + 1 == 5 {
            Mmc1Regs {
                shift_register: 0,
                write_count: 0,
                ..write_register_spec(r, address, shifted)
            }
        } else {
            Mmc1Regs { shift_register: shifted, write_count: (r.write_count + 1) as u8, ..r }
        }
    }
}

pub struct Mapper1 {
    pub chr_rom: Vec<u8>,
    pub prg_rom: Vec<u8>,
    pub prg_ram: Vec<u8>,
    pub n_banks: usize,
    pub regs: Mmc1Regs,
}

impl Mapper1 {
    pub open spec fn wf(&self) -> bool {
        &&& self.chr_rom@.len() > 0
        &&& self.prg_ram@.len() == PRG_RAM_SIZE
        &&& self.regs.write_count < 5
        &&& self.n_banks <= 0x10000
    }

    pub open spec fn prg_mode(&self) -> u8 {
        (self.regs.control >> 2) & 3
    }

    pub open spec fn chr_mode(&self) -> u8 {
        (self.regs.control >> 4) & 1
    }

    /// Index into CHR of a pattern-table address below $2000.
    pub open spec fn spec_chr_index(&self, address: u16) -> int {
        if address < 0x1000 {
            CHR_BANK_SIZE * self.regs.chr_bank0 + address
        } else if self.chr_mode() == 0 {
            CHR_BANK_SIZE * (self.regs.chr_bank0 + 1) + (address - 0x1000)
        } else {
            CHR_BANK_SIZE * self.regs.chr_bank1 + (address - 0x1000)
        }
    }

    /// The 16 KiB PRG bank mapped at $8000 (low) or $C000 (high).
    pub open spec fn spec_prg_bank_for(&self, high: bool) -> int {
        let mode = self.prg_mode();
        let p = self.regs.prg_bank;
        if !high {
            if mode <= 1 { (p & 0xfe) as int } else if mode == 2 { 0 } else { p as int }
        } else {
            if mode <= 1 {
                ((p & 0xfe) | 1) as int
            } else if mode == 2 {
                p as int
            } else {
                if self.n_banks == 0 { 0 } else { self.n_banks - 1 }
            }
        }
    }

    pub open spec fn spec_read(&self, address: u16) -> u8 {
        if address < 0x2000 {
            byte_at(self.chr_rom@, self.spec_chr_index(address))
        } else if 0x6000 <= address < 0x8000 {
            self.prg_ram@[address - 0x6000]
        } else if address >= 0x8000 {
            byte_at(
                self.prg_rom@,
                PRG_BANK_SIZE * self.spec_prg_bank_for(address >= 0xc000) + (address & 0x3fff),
            )
        } else {
            0
        }
    }

    pub fn new_mapper(rom: Vec<u8>, vrom: Vec<u8>, mirror_mode: u8) -> (r: Self)
        requires
            rom@.len() <= MAX_PRG_SIZE,
            vrom@.len() > 0,
            mirror_mode <= 4,
        ensures
            r.wf(),
            r.prg_rom == rom,
            r.chr_rom == vrom,
            r.n_banks == rom@.len() as int / (PRG_BANK_SIZE as int),
            r.regs == (Mmc1Regs {
                control: 0x0c,
                chr_bank0: 0,
                chr_bank1: 0,
                prg_bank: 0,
                shift_register: 0,
                write_count: 0,
                mirror_mode: hv01(mirror_mode),
            }),
    {
        let n_banks = rom.len() / PRG_BANK_SIZE;
        Mapper1 {
            chr_rom: vrom,
            prg_rom: rom,
            prg_ram: zeroed(PRG_RAM_SIZE),
            n_banks,
            regs: Mmc1Regs {
                control: 0x0c,
                chr_bank0: 0,
                chr_bank1: 0,
                prg_bank: 0,
                shift_register: 0,
                write_count: 0,
                mirror_mode: MirrorMode::from_hv01(mirror_mode),
            },
        }
    }

    fn chr_index(&self, address: u16) -> (r: usize)
        requires
            self.wf(),
            address < 0x2000,
        ensures
            r as int == self.spec_chr_index(address),
    {
        if address < 0x1000 {
            CHR_BANK_SIZE * (self.regs.chr_bank0 as usize) + address as usize
        } else if (self.regs.control >> 4) & 1 == 0 {
            CHR_BANK_SIZE * (self.regs.chr_bank0 as usize + 1) + (address as usize - 0x1000)
        } else {
            CHR_BANK_SIZE * (self.regs.chr_bank1 as usize) + (address as usize - 0x1000)
        }
    }

    fn prg_bank_for(&self, high: bool) -> (r: usize)
        requires
            self.wf(),
        ensures
            r as int == self.spec_prg_bank_for(high),
            r <= 0x10000,
    {
        let mode = (self.regs.control >> 2) & 3;
        let p = self.regs.prg_bank;
        if !high {
            if mode <= 1 { (p & 0xfe) as usize } else if mode == 2 { 0 } else { p as usize }
        } else {
            if mode <= 1 {
                ((p & 0xfe) | 1) as usize
            } else if mode == 2 {
                p as usize
            } else {
                if self.n_banks == 0 { 0 } else { self.n_banks - 1 }
            }
        }
    }

    pub fn read(&self, address: u16) -> (r: u8)
        requires
            self.wf(),
        ensures
            r == self.spec_read(address),
    {
        if address < 0x2000 {
            let i = self.chr_index(address);
            read_wrapped(&self.chr_rom, i)
        } else if 0x6000 <= address && address < 0x8000 {
            self.prg_ram[(address - 0x6000) as usize]
        } else if address >= 0x8000 {
            let bank = self.prg_bank_for(address >= 0xc000);
            read_wrapped(&self.prg_rom, PRG_BANK_SIZE * bank + (address & 0x3fff) as usize)
        } else {
            0
        }
    }

    fn write_register(&mut self, address: u16, val: u8)
        requires
            old(self).wf(),
        ensures
            final(self).wf(),
            final(self).regs == write_register_spec(old(self).regs, address, val),
            final(self).chr_rom == old(self).chr_rom,
            final(self).prg_rom == old(self).prg_rom,
            final(self).prg_ram == old(self).prg_ram,
            final(self).n_banks == old(self).n_banks,
    {
        if address < 0xa000 {
            self.regs.control = val;
            self.regs.mirror_mode = match val & 3 {
                0 => MirrorMode::Single0,
                1 => MirrorMode::Single1,
                2 => MirrorMode::Vertical,
                _ => MirrorMode::Horizontal,
            };
        } else if address < 0xc000 {
            self.regs.chr_bank0 = val & 0x1f;
        } else if address < 0xe000 {
            self.regs.chr_bank1 = val & 0x1f;
        } else {
            self.regs.prg_bank = val & 0x0f;
        }
    }

    fn load_register(&mut self, address: u16, val: u8)
        requires
            old(self).wf(),
        ensures
            final(self).wf(),
            final(self).regs == load_register_spec(old(self).regs, address, val),
            final(self).chr_rom == old(self).chr_rom,
            final(self).prg_rom == old(self).prg_rom,
            final(self).prg_ram == old(self).prg_ram,
            final(self).n_banks == old(self).n_banks,
    {
        if val & 0x80 == 0x80 {
            self.regs.shift_register = 0;
            self.regs.control = 0x0c;
            self.regs.write_count = 0;
        } else {
            let shifted = self.regs.shift_register | ((val & 1) << self.regs.write_count);
            if self.regs.write_count + 1 == 5 {
                self.write_register(address, shifted);
                self.regs.shift_register = 0;
                self.regs.write_count = 0;
            } else {
                self.regs.shift_register = shifted;
                self.regs.write_count = self.regs.write_count + 1;
            }
        }
    }

    /// What a CPU or PPU write of `val` at `address` does, relating the
    /// state before (`self`) and after (`new`).
    pub open spec fn write_post(&self, new: &Self, address: u16, val: u8) -> bool {
        &&& (new.prg_rom == self.prg_rom)
        &&& (address >= 0x8000 ==> new.regs == load_register_spec(self.regs, address, val))
        &&& (address < 0x8000 ==> new.regs == self.regs)
        &&& (address < 0x2000 ==> new.chr_rom@ == self.chr_rom@.update(
        self.spec_chr_index(address) % (self.chr_rom@.len() as int), val))
        &&& (0x6000 <= address < 0x8000 ==> new.prg_ram@ == self.prg_ram@.update(
        address - 0x6000, val))
    }

    pub fn write(&mut self, address: u16, val: u8)
        requires
            old(self).wf(),
        ensures
            final(self).wf(),
            old(self).write_post(&*final(self), address, val),
            final(self).prg_rom == old(self).prg_rom,
            address >= 0x8000 ==> final(self).regs == load_register_spec(old(self).regs, address, val),
            address < 0x8000 ==> final(self).regs == old(self).regs,
            address < 0x2000 ==> final(self).chr_rom@ == old(self).chr_rom@.update(
                old(self).spec_chr_index(address) % (old(self).chr_rom@.len() as int), val),
            0x6000 <= address < 0x8000 ==> final(self).prg_ram@ == old(self).prg_ram@.update(
                address - 0x6000, val),
    {
        if address < 0x2000 {
            let i = self.chr_index(address);
            write_wrapped(&mut self.chr_rom, i, val);
        } else if 0x6000 <= address && address < 0x8000 {
            self.prg_ram.set((address - 0x6000) as usize, val);
        } else if address >= 0x8000 {
            self.load_register(address, val);
        }
    }
}


/// The control-register load sequence: from an empty shift register, five
/// writes to $8000-$9FFF with bit 7 clear and bit 0 equal to 1, 1, 0, 0, 0
/// leave the control register alone for four writes and then load it with
/// 0b00011, which selects horizontal mirroring, PRG mode 0 and CHR mode 0; the
/// bank registers do not change and the shift state is cleared.
pub proof fn lemma_mmc1_control_sequence(r: Mmc1Regs, address: u16, v0: u8, v1: u8, v2: u8, v3: u8, v4: u8)
    requires
        r.write_count == 0,
        r.shift_register == 0,
        0x8000 <= address < 0xa000,
        v0 & 0x80 == 0 && v1 & 0x80 == 0 && v2 & 0x80 == 0 && v3 & 0x80 == 0 && v4 & 0x80 == 0,
        v0 & 1 == 1 && v1 & 1 == 1 && v2 & 1 == 0 && v3 & 1 == 0 && v4 & 1 == 0,
    ensures
        ({
            let r1 = load_register_spec(r, address, v0);
            let r2 = load_register_spec(r1, address, v1);
            let r3 = load_register_spec(r2, address, v2);
            let r4 = load_register_spec(r3, address, v3);
            let r5 = load_register_spec(r4, address, v4);
            &&& r1.control == r.control && r2.control == r.control
            &&& r3.control == r.control && r4.control == r.control
            &&& r5.control == 0b00011
            &&& r5.mirror_mode == MirrorMode::Horizontal
            &&& (r5.control >> 2u8) & 3 == 0
            &&& (r5.control >> 4u8) & 1 == 0
            &&& r5.shift_register == 0 && r5.write_count == 0
            &&& r5.chr_bank0 == r.chr_bank0 && r5.chr_bank1 == r.chr_bank1 && r5.prg_bank == r.prg_bank
        }),
{
    assert((0u8 | ((v0 & 1) << 0u8)) == 1u8) by (bit_vector)
        requires v0 & 1 == 1;
    assert((1u8 | ((v1 & 1) << 1u8)) == 3u8) by (bit_vector)
        requires v1 & 1 == 1;
    assert((3u8 | ((v2 & 1) << 2u8)) == 3u8) by (bit_vector)
        requires v2 & 1 == 0;
    assert((3u8 | ((v3 & 1) << 3u8)) == 3u8) by (bit_vector)
        requires v3 & 1 == 0;
    assert((3u8 | ((v4 & 1) << 4u8)) == 3u8) by (bit_vector)
        requires v4 & 1 == 0;
    assert(3u8 & 3 == 3 && (3u8 >> 2u8) & 3 == 0 && (3u8 >> 4u8) & 1 == 0) by (bit_vector);
}

} // verus!
