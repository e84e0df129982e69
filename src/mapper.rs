//! Cartridge controllers (mappers): address translation, bank switching,
//! nametable mirroring and IRQ sources, behind one closed family of variants.
use vstd::prelude::*;

pub mod mapper0;
pub mod mapper1;
pub mod mapper2;
pub mod mapper3;
pub mod mapper4;
pub mod mapper7;
pub mod mapper34;
pub mod mapper66;
pub mod mapper68;
pub mod mapper69;








use crate::mapper::mapper0::Mapper0;
use crate::mapper::mapper1::Mapper1;
use crate::mapper::mapper2::Mapper2;
use crate::mapper::mapper3::Mapper3;
use crate::mapper::mapper4::Mapper4;
use crate::mapper::mapper7::Mapper7;
use crate::mapper::mapper34::Mapper34;
use crate::mapper::mapper66::Mapper66;
use crate::mapper::mapper68::Mapper68;
use crate::mapper::mapper69::Mapper69;

verus! {

/// Size of the battery-backed / work RAM window at $6000-$7FFF.
pub const PRG_RAM_SIZE: usize = 0x2000;

/// Largest PRG-ROM an iNES header can announce: 255 banks of 16 KiB.
pub const MAX_PRG_SIZE: usize = 0x3fc000;

#[derive(Clone, Copy, Debug, PartialEq, Eq, Structural)]
pub enum MirrorMode {
    Horizontal,
    Vertical,
    Single0,
    Single1,
    Four,
}

/// The physical 1 KiB page that each of the four logical nametables uses.
pub open spec fn coefficient(m: MirrorMode, table: int) -> int {
    match m {
        MirrorMode::Horizontal => if table < 2 { 0 } else { 1 },
        MirrorMode::Vertical => table % 2,
        MirrorMode::Single0 => 0,
        MirrorMode::Single1 => 1,
        MirrorMode::Four => table,
    }
}

/// Decoding of a mode number where 0 is horizontal and 1 vertical.
pub open spec fn hv01(mode: u8) -> MirrorMode {
    if mode == 0 {
        MirrorMode::Horizontal
    } else if mode == 1 {
        MirrorMode::Vertical
    } else if mode == 2 {
        MirrorMode::Single0
    } else if mode == 3 {
        MirrorMode::Single1
    } else {
        MirrorMode::Four
    }
}

/// Decoding of a mode number where 0 is vertical and 1 horizontal.
pub open spec fn vh01(mode: u8) -> MirrorMode {
    if mode == 0 {
        MirrorMode::Vertical
    } else if mode == 1 {
        MirrorMode::Horizontal
    } else {
        hv01(mode)
    }
}

impl MirrorMode {
    pub fn coefficients(&self) -> (r: Vec<usize>)
        ensures
            r@.len() == 4,
            forall|t: int| 0 <= t < 4 ==> r@[t] as int == coefficient(*self, t),
    {
        match *self {
            MirrorMode::Horizontal => vec![0, 0, 1, 1],
            MirrorMode::Vertical => vec![0, 1, 0, 1],
            MirrorMode::Single0 => vec![0, 0, 0, 0],
            MirrorMode::Single1 => vec![1, 1, 1, 1],
            MirrorMode::Four => vec![0, 1, 2, 3],
        }
    }

    /// The physical page of one logical nametable (0 to 3).
    pub fn coefficient(&self, table: usize) -> (r: usize)
        requires
            table < 4,
        ensures
            r as int == coefficient(*self, table as int),
            r < 4,
    {
        match *self {
            MirrorMode::Horizontal => if table < 2 { 0 } else { 1 },
            MirrorMode::Vertical => table % 2,
            MirrorMode::Single0 => 0,
            MirrorMode::Single1 => 1,
            MirrorMode::Four => table,
        }
    }

    pub fn from_hv01(mode: u8) -> (r: Self)
        requires
            mode <= 4,
        ensures
            r == hv01(mode),
    {
        match mode {
            0 => MirrorMode::Horizontal,
            1 => MirrorMode::Vertical,
            2 => MirrorMode::Single0,
            3 => MirrorMode::Single1,
            _ => MirrorMode::Four,
        }
    }

    pub fn from_vh01(mode: u8) -> (r: Self)
        requires
            mode <= 4,
        ensures
            r == vh01(mode),
    {
        match mode {
            0 => MirrorMode::Vertical,
            1 => MirrorMode::Horizontal,
            2 => MirrorMode::Single0,
            3 => MirrorMode::Single1,
            _ => MirrorMode::Four,
        }
    }
}

/// Coarse events that a cartridge is told of.
#[derive(Clone, Copy, Debug, PartialEq, Eq, Structural)]
pub enum MapperEvent {
    /// The CPU consumed this many cycles.
    CPUTick(u64),
    /// A rendered scanline ended.
    HBlank,
    VRAMAddressChange(u16),
}

/// The byte of a memory image at an index, wrapping around its end; an
/// empty image reads as zero.
pub open spec fn byte_at(data: Seq<u8>, index: int) -> u8 {
    if data.len() == 0 { 0 } else { data[index % (data.len() as int)] }
}

/// Reads a byte of a ROM or RAM image, wrapping the index around its length.
pub fn read_wrapped(data: &Vec<u8>, index: usize) -> (r: u8)
    ensures
        r == byte_at(data@, index as int),
{
    if data.len() == 0 {
        return 0;
    }
    data[index % data.len()]
}

/// Writes a byte of a RAM image, wrapping the index around its length.
pub fn write_wrapped(data: &mut Vec<u8>, index: usize, val: u8)
    requires
        old(data)@.len() > 0,
    ensures
        final(data)@ == old(data)@.update(index as int % (old(data)@.len() as int), val),
{
    let len = data.len();
    data.set(index % len, val);
}

/// A fresh zeroed RAM image.
pub fn zeroed(n: usize) -> (r: Vec<u8>)
    ensures
        r@ == Seq::new(n as nat, |i: int| 0u8),
{
    let mut v: Vec<u8> = Vec::new();
    let mut i: usize = 0;
    while i < n
        invariant
            i <= n,
            v@ == Seq::new(i as nat, |k: int| 0u8),
        decreases n - i,
    {
        v.push(0);
        i = i + 1;
        assert(v@ =~= Seq::new(i as nat, |k: int| 0u8));
    }
    v
}

/// The cartridge plugged into the console: one of the supported mappers.
pub enum Cartridge {
    Nrom(Mapper0),
    Mmc1(Mapper1),
    Uxrom(Mapper2),
    Cnrom(Mapper3),
    Mmc3(Mapper4),
    Axrom(Mapper7),
    Bnrom(Mapper34),
    Gxrom(Mapper66),
    Sunsoft4(Mapper68),
    Fme7(Mapper69),
}

impl Cartridge {
    pub open spec fn wf(&self) -> bool {
        match self {
            Cartridge::Nrom(m) => m.wf(),
            Cartridge::Mmc1(m) => m.wf(),
            Cartridge::Uxrom(m) => m.wf(),
            Cartridge::Cnrom(m) => m.wf(),
            Cartridge::Mmc3(m) => m.wf(),
            Cartridge::Axrom(m) => m.wf(),
            Cartridge::Bnrom(m) => m.wf(),
            Cartridge::Gxrom(m) => m.wf(),
            Cartridge::Sunsoft4(m) => m.wf(),
            Cartridge::Fme7(m) => m.wf(),
        }
    }

    /// The byte that a read of `address` returns.
    pub open spec fn spec_read(&self, address: u16) -> u8 {
        match self {
            Cartridge::Nrom(m) => m.spec_read(address),
            Cartridge::Mmc1(m) => m.spec_read(address),
            Cartridge::Uxrom(m) => m.spec_read(address),
            Cartridge::Cnrom(m) => m.spec_read(address),
            Cartridge::Mmc3(m) => m.spec_read(address),
            Cartridge::Axrom(m) => m.spec_read(address),
            Cartridge::Bnrom(m) => m.spec_read(address),
            Cartridge::Gxrom(m) => m.spec_read(address),
            Cartridge::Sunsoft4(m) => m.spec_read(address),
            Cartridge::Fme7(m) => m.spec_read(address),
        }
    }

    pub open spec fn spec_mirror_mode(&self) -> MirrorMode {
        match self {
            Cartridge::Nrom(m) => m.mirror_mode,
            Cartridge::Mmc1(m) => m.regs.mirror_mode,
            Cartridge::Uxrom(m) => m.mirror_mode,
            Cartridge::Cnrom(m) => m.mirror_mode,
            Cartridge::Mmc3(m) => m.ctl.mirror_mode,
            Cartridge::Axrom(m) => m.mirror_mode,
            Cartridge::Bnrom(m) => m.mirror_mode,
            Cartridge::Gxrom(m) => m.mirror_mode,
            Cartridge::Sunsoft4(m) => m.mirror_mode,
            Cartridge::Fme7(m) => m.mirror_mode,
        }
    }

    /// The PRG-ROM image the cartridge was built with.
    pub open spec fn spec_prg(&self) -> Seq<u8> {
        match self {
            Cartridge::Nrom(m) => m.prg_rom@,
            Cartridge::Mmc1(m) => m.prg_rom@,
            Cartridge::Uxrom(m) => m.prg_rom@,
            Cartridge::Cnrom(m) => m.prg_rom@,
            Cartridge::Mmc3(m) => m.prg_rom@,
            Cartridge::Axrom(m) => m.prg_rom@,
            Cartridge::Bnrom(m) => m.prg_rom@,
            Cartridge::Gxrom(m) => m.prg_rom@,
            Cartridge::Sunsoft4(m) => m.prg_rom@,
            Cartridge::Fme7(m) => m.prg_rom@,
        }
    }

    /// The CHR image (ROM or RAM) the cartridge holds.
    pub open spec fn spec_chr(&self) -> Seq<u8> {
        match self {
            Cartridge::Nrom(m) => m.chr_rom@,
            Cartridge::Mmc1(m) => m.chr_rom@,
            Cartridge::Uxrom(m) => m.chr_rom@,
            Cartridge::Cnrom(m) => m.chr_rom@,
            Cartridge::Mmc3(m) => m.chr_rom@,
            Cartridge::Axrom(m) => m.chr_rom@,
            Cartridge::Bnrom(m) => m.chr_rom@,
            Cartridge::Gxrom(m) => m.chr_rom@,
            Cartridge::Sunsoft4(m) => m.chr_rom@,
            Cartridge::Fme7(m) => m.chr_rom@,
        }
    }

    /// The iNES mapper number of the variant.
    pub open spec fn spec_number(&self) -> u8 {
        match self {
            Cartridge::Nrom(_) => 0,
            Cartridge::Mmc1(_) => 1,
            Cartridge::Uxrom(_) => 2,
            Cartridge::Cnrom(_) => 3,
            Cartridge::Mmc3(_) => 4,
            Cartridge::Axrom(_) => 7,
            Cartridge::Bnrom(_) => 34,
            Cartridge::Gxrom(_) => 66,
            Cartridge::Sunsoft4(_) => 68,
            Cartridge::Fme7(_) => 69,
        }
    }

    /// The byte at a nametable address when the cartridge supplies the
    /// nametables itself (from CHR-ROM); `None` when console RAM holds them.
    pub open spec fn spec_nametable(&self, address: u16) -> Option<u8> {
        match self {
            Cartridge::Sunsoft4(m) => if m.chr_nt_enabled { Some(m.spec_read(address)) } else { None },
            _ => None,
        }
    }

    pub fn nametable(&self, address: u16) -> (r: Option<u8>)
        requires
            self.wf(),
        ensures
            r == self.spec_nametable(address),
    {
        match self {
            Cartridge::Sunsoft4(m) => if m.chr_nt_enabled { Some(m.read(address)) } else { None },
            _ => None,
        }
    }

    /// What a write of `val` at `address` does: the mapper's own `write_post`,
    /// with the variant kept.
    pub open spec fn write_post(&self, new: &Self, address: u16, val: u8) -> bool {
        match (*self, *new) {
            (Cartridge::Nrom(a), Cartridge::Nrom(b)) => a.write_post(&b, address, val),
            (Cartridge::Mmc1(a), Cartridge::Mmc1(b)) => a.write_post(&b, address, val),
            (Cartridge::Uxrom(a), Cartridge::Uxrom(b)) => a.write_post(&b, address, val),
            (Cartridge::Cnrom(a), Cartridge::Cnrom(b)) => a.write_post(&b, address, val),
            (Cartridge::Mmc3(a), Cartridge::Mmc3(b)) => a.write_post(&b, address, val),
            (Cartridge::Axrom(a), Cartridge::Axrom(b)) => a.write_post(&b, address, val),
            (Cartridge::Bnrom(a), Cartridge::Bnrom(b)) => a.write_post(&b, address, val),
            (Cartridge::Gxrom(a), Cartridge::Gxrom(b)) => a.write_post(&b, address, val),
            (Cartridge::Sunsoft4(a), Cartridge::Sunsoft4(b)) => a.write_post(&b, address, val),
            (Cartridge::Fme7(a), Cartridge::Fme7(b)) => a.write_post(&b, address, val),
            _ => false,
        }
    }

    pub open spec fn spec_irq_flag(&self) -> bool {
        match self {
            Cartridge::Mmc3(m) => m.ctl.irq_flag,
            Cartridge::Fme7(m) => m.irq_flag,
            _ => false,
        }
    }

    pub fn read(&self, address: u16) -> (r: u8)
        requires
            self.wf(),
        ensures
            r == self.spec_read(address),
    {
        match self {
            Cartridge::Nrom(m) => m.read(address),
            Cartridge::Mmc1(m) => m.read(address),
            Cartridge::Uxrom(m) => m.read(address),
            Cartridge::Cnrom(m) => m.read(address),
            Cartridge::Mmc3(m) => m.read(address),
            Cartridge::Axrom(m) => m.read(address),
            Cartridge::Bnrom(m) => m.read(address),
            Cartridge::Gxrom(m) => m.read(address),
            Cartridge::Sunsoft4(m) => m.read(address),
            Cartridge::Fme7(m) => m.read(address),
        }
    }

    pub fn write(&mut self, address: u16, val: u8)
        requires
            old(self).wf(),
        ensures
            final(self).wf(),
            final(self).spec_prg() == old(self).spec_prg(),
            final(self).spec_number() == old(self).spec_number(),
            old(self).write_post(&*final(self), address, val),
    {
        match self {
            Cartridge::Nrom(m) => m.write(address, val),
            Cartridge::Mmc1(m) => m.write(address, val),
            Cartridge::Uxrom(m) => m.write(address, val),
            Cartridge::Cnrom(m) => m.write(address, val),
            Cartridge::Mmc3(m) => m.write(address, val),
            Cartridge::Axrom(m) => m.write(address, val),
            Cartridge::Bnrom(m) => m.write(address, val),
            Cartridge::Gxrom(m) => m.write(address, val),
            Cartridge::Sunsoft4(m) => m.write(address, val),
            Cartridge::Fme7(m) => m.write(address, val),
        }
    }

    pub fn mirror_mode(&self) -> (r: MirrorMode)
        ensures
            r == self.spec_mirror_mode(),
    {
        match self {
            Cartridge::Nrom(m) => m.mirror_mode,
            Cartridge::Mmc1(m) => m.regs.mirror_mode,
            Cartridge::Uxrom(m) => m.mirror_mode,
            Cartridge::Cnrom(m) => m.mirror_mode,
            Cartridge::Mmc3(m) => m.ctl.mirror_mode,
            Cartridge::Axrom(m) => m.mirror_mode,
            Cartridge::Bnrom(m) => m.mirror_mode,
            Cartridge::Gxrom(m) => m.mirror_mode,
            Cartridge::Sunsoft4(m) => m.mirror_mode,
            Cartridge::Fme7(m) => m.mirror_mode,
        }
    }

    /// Whether the cartridge holds its IRQ line asserted.
    pub fn irq_flag(&self) -> (r: bool)
        ensures
            r == self.spec_irq_flag(),
    {
        match self {
            Cartridge::Mmc3(m) => m.ctl.irq_flag,
            Cartridge::Fme7(m) => m.irq_flag,
            _ => false,
        }
    }

    /// Tells the cartridge of an event; only the IRQ-counting mappers react.
    pub fn notify(&mut self, event: MapperEvent)
        requires
            old(self).wf(),
        ensures
            final(self).wf(),
            final(self).spec_mirror_mode() == old(self).spec_mirror_mode(),
            forall|a: u16| #[trigger] final(self).spec_read(a) == old(self).spec_read(a),
            match (*old(self), *final(self)) {
                (Cartridge::Mmc3(a), Cartridge::Mmc3(b)) => if event == MapperEvent::HBlank {
                    b == (Mapper4 { ctl: crate::mapper::mapper4::scanline_spec(a.ctl), ..a })
                } else {
                    b == a
                },
                (Cartridge::Fme7(a), Cartridge::Fme7(b)) => match event {
                    MapperEvent::CPUTick(c) => a.irq_step_post(&b, c),
                    _ => b == a,
                },
                _ => *final(self) == *old(self),
            },
    {
        match self {
            Cartridge::Mmc3(m) => {
                if let MapperEvent::HBlank = event {
                    m.signal_scanline();
                }
            },
            Cartridge::Fme7(m) => {
                if let MapperEvent::CPUTick(cycles) = event {
                    m.step_irq_counter(cycles);
                }
            },
            _ => {},
        }
    }
}

} // verus!
