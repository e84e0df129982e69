//! FME-7 (Sunsoft 5B family): a command/parameter register pair reaching
//! eight 1 KiB CHR banks, four 8 KiB PRG banks, mirroring and a 16-bit IRQ
//! counter that counts CPU cycles down.
use vstd::prelude::*;
use crate::mapper::{byte_at, read_wrapped, zeroed, hv01, vh01, MirrorMode, PRG_RAM_SIZE, MAX_PRG_SIZE};

verus! {

broadcast use crate::bits::group_masks;

pub const PRG_BANK_SIZE: usize = 8192;
pub const CHR_BANK_SIZE: usize = 1024;

#[derive(Clone, Copy, Debug, PartialEq, Eq, Structural)]
pub enum Command {
    CHRBank(u8),
    PRGBank(u8),
    Mirror,
    IRQ,
    IRQLo,
    IRQHi,
}

/// The command that a value written to $8000-$9FFF selects (low nibble).
pub open spec fn command_spec(val: u8) -> Command {
    let v = val & 0x0f;
    if v <= 7 {
        Command::CHRBank(v)
    } else if v <= 0x0b {
        Command::PRGBank(v)
    } else if v == 0x0c {
        Command::Mirror
    } else if v == 0x0d {
        Command::IRQ
    } else if v == 0x0e {
        Command::IRQLo
    } else {
        Command::IRQHi
    }
}

impl Command {
    pub fn from_nibble(val: u8) -> (r: Command)
        ensures
            r == command_spec(val),
    {
        let v = val & 0x0f;
        if v <= 7 {
            Command::CHRBank(v)
        } else if v <= 0x0b {
            Command::PRGBank(v)
        } else if v == 0x0c {
            Command::Mirror
        } else if v == 0x0d {
            Command::IRQ
        } else if v == 0x0e {
            Command::IRQLo
        } else {
            Command::IRQHi
        }
    }
}

pub struct Mapper69 {
    pub chr_rom: Vec<u8>,
    pub prg_rom: Vec<u8>,
    pub sram: Vec<u8>,
    pub mirror_mode: MirrorMode,
    pub cmd: Option<Command>,
    pub chr_banks: Vec<usize>,
    pub sram_bank: usize,
    pub prg_banks: Vec<usize>,
    pub ram_select: bool,
    pub ram_enabled: bool,
    pub irq_enabled: bool,
    pub irq_counter_enabled: bool,
    pub irq_counter_value: u16,
    pub irq_flag: bool,
}

impl Mapper69 {
    pub open spec fn wf(&self) -> bool {
        &&& self.chr_rom@.len() > 0
        &&& self.sram@.len() == PRG_RAM_SIZE
        &&& self.chr_banks@.len() == 8
        &&& self.prg_banks@.len() == 4
        &&& forall|i: int| 0 <= i < 8 ==> self.chr_banks@[i] < 0x10000
        &&& forall|i: int| 0 <= i < 4 ==> self.prg_banks@[i] < 0x10000
        &&& self.sram_bank < 0x10000
        &&& match self.cmd {
            Some(Command::CHRBank(n)) => n < 8,
            Some(Command::PRGBank(n)) => 8 <= n < 12,
            _ => true,
        }
    }

    pub open spec fn spec_read(&self, address: u16) -> u8 {
        if address < 0x2000 {
            byte_at(
                self.chr_rom@,
                self.chr_banks@[(address / 0x400) as int] * CHR_BANK_SIZE + (address & 0x03ff),
            )
        } else if 0x6000 <= address < 0x8000 {
            if self.ram_select {
                if self.ram_enabled { self.sram@[address - 0x6000] } else { 0 }
            } else {
                byte_at(self.prg_rom@, self.sram_bank * PRG_BANK_SIZE + (address & 0x1fff))
            }
        } else if address >= 0x8000 {
            byte_at(
                self.prg_rom@,
                self.prg_banks@[((address - 0x8000) / 0x2000) as int] * PRG_BANK_SIZE + (address & 0x1fff),
            )
        } else {
            0
        }
    }

    pub fn new_mapper(rom: Vec<u8>, vrom: Vec<u8>, mirror_mode: u8) -> (r: Self)
        requires
            rom@.len() <= MAX_PRG_SIZE,
            vrom@.len() > 0,
            mirror_mode <= 4,
        ensures
            r.wf(),
            r.prg_rom == rom,
            r.chr_rom == vrom,
            r.mirror_mode == hv01(mirror_mode),
            r.cmd.is_none(),
            r.prg_banks@ == seq![0usize, 0, 0,
                (if rom@.len() < PRG_BANK_SIZE { 0 } else { rom@.len() as int / (PRG_BANK_SIZE as int) - 1 }) as usize],
            !r.irq_flag && !r.irq_enabled && !r.irq_counter_enabled && r.irq_counter_value == 0,
    {
        let n_banks = rom.len() / PRG_BANK_SIZE;
        let last: usize = if n_banks == 0 { 0 } else { n_banks - 1 };
        let chr_banks: Vec<usize> = vec![0, 0, 0, 0, 0, 0, 0, 0];
        let prg_banks: Vec<usize> = vec![0, 0, 0, last];
        Mapper69 {
            chr_rom: vrom,
            prg_rom: rom,
            sram: zeroed(PRG_RAM_SIZE),
            mirror_mode: MirrorMode::from_hv01(mirror_mode),
            cmd: None,
            chr_banks,
            sram_bank: 0,
            prg_banks,
            ram_select: false,
            ram_enabled: false,
            irq_enabled: false,
            irq_counter_enabled: false,
            irq_counter_value: 0,
            irq_flag: false,
        }
    }

    pub fn read(&self, address: u16) -> (r: u8)
        requires
            self.wf(),
        ensures
            r == self.spec_read(address),
    {
        if address < 0x2000 {
            let bank = self.chr_banks[(address / 0x400) as usize];
            read_wrapped(&self.chr_rom, bank * CHR_BANK_SIZE + (address & 0x03ff) as usize)
        } else if 0x6000 <= address && address < 0x8000 {
            if self.ram_select {
                if self.ram_enabled { self.sram[(address - 0x6000) as usize] } else { 0 }
            } else {
                read_wrapped(
                    &self.prg_rom,
                    self.sram_bank * PRG_BANK_SIZE + (address & 0x1fff) as usize,
                )
            }
        } else if address >= 0x8000 {
            let bank = self.prg_banks[((address - 0x8000) / 0x2000) as usize];
            read_wrapped(&self.prg_rom, bank * PRG_BANK_SIZE + (address & 0x1fff) as usize)
        } else {
            0
        }
    }

    /// Runs the latched command with its parameter byte.
    fn run_cmd(&mut self, parameter: u8)
        requires
            old(self).wf(),
        ensures
            final(self).wf(),
            final(self).chr_rom == old(self).chr_rom,
            final(self).prg_rom == old(self).prg_rom,
            final(self).sram == old(self).sram,
            final(self).cmd == old(self).cmd,
            final(self).irq_flag == old(self).irq_flag,
            match old(self).cmd {
                Some(Command::CHRBank(n)) => final(self).chr_banks@
                    == old(self).chr_banks@.update(n as int, parameter as usize),
                Some(Command::PRGBank(n)) => if n == 8 {
                    &&& final(self).sram_bank == (parameter & 0x1f) as usize
                    &&& final(self).ram_select == (parameter & 0x40 != 0)
                    &&& final(self).ram_enabled == (parameter & 0x80 != 0)
                } else {
                    final(self).prg_banks@ == old(self).prg_banks@.update(
                        n - 9, (parameter & 0x1f) as usize)
                },
                Some(Command::Mirror) => final(self).mirror_mode == vh01(parameter & 3),
                Some(Command::IRQ) => final(self).irq_enabled == (parameter & 1 != 0)
                    && final(self).irq_counter_enabled == (parameter & 0x80 != 0),
                Some(Command::IRQLo) => final(self).irq_counter_value
                    == (old(self).irq_counter_value & 0xff00) | (parameter as u16),
                Some(Command::IRQHi) => final(self).irq_counter_value
                    == (old(self).irq_counter_value & 0x00ff) | ((parameter as u16) << 8),
                None => *final(self) == *old(self),
            },
    {
        match self.cmd {
            Some(Command::CHRBank(n)) => {
                self.chr_banks.set(n as usize, parameter as usize);
            },
            Some(Command::PRGBank(n)) => {
                if n == 8 {
                    self.sram_bank = (parameter & 0x1f) as usize;
                    self.ram_select = parameter & 0x40 != 0;
                    self.ram_enabled = parameter & 0x80 != 0;
                } else {
                    self.prg_banks.set((n - 9) as usize, (parameter & 0x1f) as usize);
                }
            },
            Some(Command::Mirror) => {
                self.mirror_mode = MirrorMode::from_vh01(parameter & 3);
            },
            Some(Command::IRQ) => {
                self.irq_enabled = parameter & 1 != 0;
                self.irq_counter_enabled = parameter & 0x80 != 0;
            },
            Some(Command::IRQLo) => {
                self.irq_counter_value = (self.irq_counter_value & 0xff00) | (parameter as u16);
            },
            Some(Command::IRQHi) => {
                self.irq_counter_value = (self.irq_counter_value & 0x00ff) | ((parameter as u16) << 8);
            },
            None => {},
        }
    }

    /// What a CPU or PPU write of `val` at `address` does, relating the
    /// state before (`self`) and after (`new`).
    pub open spec fn write_post(&self, new: &Self, address: u16, val: u8) -> bool {
        &&& (new.prg_rom == self.prg_rom)
        &&& (new.chr_rom == self.chr_rom)
        &&& (0x8000 <= address < 0xa000 ==> new.cmd == Some(command_spec(val)))
        &&& (0x6000 <= address < 0x8000 ==> new.sram@ == (
        if self.ram_select && self.ram_enabled {
            self.sram@.update(address - 0x6000, val)
        } else {
            self.sram@
        }))
        &&& ((address < 0x6000 || address >= 0xc000) ==> *new == *self)
    }

    pub fn write(&mut self, address: u16, val: u8)
        requires
            old(self).wf(),
        ensures
            final(self).wf(),
            old(self).write_post(&*final(self), address, val),
            final(self).prg_rom == old(self).prg_rom,
            final(self).chr_rom == old(self).chr_rom,
            0x8000 <= address < 0xa000 ==> final(self).cmd == Some(command_spec(val)),
            0x6000 <= address < 0x8000 ==> final(self).sram@ == (
                if old(self).ram_select && old(self).ram_enabled {
                    old(self).sram@.update(address - 0x6000, val)
                } else {
                    old(self).sram@
                }),
            (address < 0x6000 || address >= 0xc000) ==> *final(self) == *old(self),
    {
        if 0x6000 <= address && address < 0x8000 {
            if self.ram_select && self.ram_enabled {
                self.sram.set((address - 0x6000) as usize, val);
            }
        } else if 0x8000 <= address && address < 0xa000 {
            self.cmd = Some(Command::from_nibble(val));
        } else if 0xa000 <= address && address < 0xc000 {
            self.run_cmd(val);
        }
    }

    /// The counter step over `cycles` CPU cycles, relating the state before
    /// (`self`) and after (`new`).
    pub open spec fn irq_step_post(&self, new: &Self, cycles: u64) -> bool {
        &&& *new == (Mapper69 {
            irq_counter_value: new.irq_counter_value,
            irq_flag: new.irq_flag,
            ..*self
        })
        &&& self.irq_counter_enabled ==> new.irq_counter_value
            == (self.irq_counter_value - (cycles as u16)) % 0x10000
        &&& !self.irq_counter_enabled ==> new.irq_counter_value == self.irq_counter_value
        &&& new.irq_flag == (self.irq_enabled && self.irq_counter_enabled
            && (cycles as u16) > self.irq_counter_value)
    }

    /// Counts the IRQ counter down by a number of CPU cycles; the flag is
    /// raised when the count passes below zero with IRQs enabled.
    pub fn step_irq_counter(&mut self, cycles: u64)
        requires
            old(self).wf(),
        ensures
            final(self).wf(),
            old(self).irq_step_post(&*final(self), cycles),
            final(self).chr_rom == old(self).chr_rom,
            final(self).prg_rom == old(self).prg_rom,
            final(self).sram == old(self).sram,
            final(self).chr_banks == old(self).chr_banks,
            final(self).prg_banks == old(self).prg_banks,
            final(self).sram_bank == old(self).sram_bank,
            final(self).ram_select == old(self).ram_select,
            final(self).ram_enabled == old(self).ram_enabled,
            final(self).mirror_mode == old(self).mirror_mode,
            old(self).irq_counter_enabled ==> final(self).irq_counter_value
                == (old(self).irq_counter_value - (cycles as u16)) % 0x10000,
            !old(self).irq_counter_enabled ==> final(self).irq_counter_value
                == old(self).irq_counter_value,
            final(self).irq_flag == (old(self).irq_enabled && old(self).irq_counter_enabled
                && (cycles as u16) > old(self).irq_counter_value),
    {
        let mut trigger = false;
        if self.irq_counter_enabled {
            let c = cycles as u16;
            trigger = c > self.irq_counter_value;
            self.irq_counter_value = self.irq_counter_value.wrapping_sub(c);
        }
        self.irq_flag = self.irq_enabled && trigger;
    }
}

} // verus!
