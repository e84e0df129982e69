//! The iNES cartridge image format: a 16-byte header, PRG-ROM, then CHR-ROM.
use vstd::prelude::*;

use crate::mapper::{Cartridge, MAX_PRG_SIZE};
use crate::mapper::mapper0::Mapper0;
use crate::mapper::mapper1::Mapper1;
use crate::mapper::mapper2::Mapper2;
use crate::mapper::mapper3::Mapper3;
use crate::mapper::mapper4::Mapper4;
use crate::mapper::mapper7::Mapper7;
use crate::mapper::mapper34::Mapper34;
use crate::mapper::mapper66::Mapper66;
use crate::mapper::mapper68::Mapper68;
use crate::mapper::mapper69::Mapper69;

verus! {

broadcast use crate::bits::group_masks;

pub const INES_MAGIC: [u8; 4] = [0x4e, 0x45, 0x53, 0x1a];
pub const HEADER_SIZE: usize = 16;
pub const PRG_UNIT: usize = 16384;
pub const CHR_UNIT: usize = 8192;

#[derive(Clone, Copy, Debug, PartialEq, Eq, Structural)]
pub enum CartridgeError {
    /// The image could not be read.
    IO,
    /// The image does not start with "NES" and $1A.
    InvalidMagic,
    /// A PAL image.
    UnsupportedCartridge,
    UnsupportedMapper(u8),
}

pub open spec fn magic_ok(data: Seq<u8>) -> bool {
    data.len() >= 16 && data[0] == 0x4e && data[1] == 0x45 && data[2] == 0x53 && data[3] == 0x1a
}

/// Mapper number: high nibble from byte 7, low nibble from byte 6.
pub open spec fn mapper_number(data: Seq<u8>) -> u8 {
    (data[7] & 0xf0) | (data[6] >> 4u8)
}

/// Byte 9 bit 0 marks a PAL image.
pub open spec fn is_pal(data: Seq<u8>) -> bool {
    data[9] & 1 == 1
}

/// Mirroring as numbered by `hv01`: bit 0 of byte 6, or four-screen when bit 3 is set.
pub open spec fn mirror_number(data: Seq<u8>) -> u8 {
    if data[6] & 0x08 != 0 { 4 } else { data[6] & 1 }
}

pub open spec fn supported_mapper(m: u8) -> bool {
    m == 0 || m == 1 || m == 2 || m == 3 || m == 4 || m == 7 || m == 34 || m == 66 || m == 68
        || m == 69
}

/// `len` bytes of the image from `start`, zero-filled past its end.
pub open spec fn image_slice(data: Seq<u8>, start: int, len: nat) -> Seq<u8> {
    Seq::new(len, |i: int| if start + i < data.len() { data[start + i] } else { 0u8 })
}

pub open spec fn prg_image(data: Seq<u8>) -> Seq<u8> {
    image_slice(data, 16, (data[4] * PRG_UNIT) as nat)
}

/// CHR-ROM, or 8 KiB of zeroed CHR-RAM when the header announces none.
pub open spec fn chr_image(data: Seq<u8>) -> Seq<u8> {
    if data[5] == 0 {
        Seq::new(CHR_UNIT as nat, |i: int| 0u8)
    } else {
        image_slice(data, 16 + data[4] * PRG_UNIT, (data[5] * CHR_UNIT) as nat)
    }
}

/// Copies `len` bytes of the image from `start`, zero-filling past its end.
fn copy_image(data: &Vec<u8>, start: usize, len: usize) -> (r: Vec<u8>)
    requires
        start + len <= usize::MAX,
    ensures
        r@ == image_slice(data@, start as int, len as nat),
{
    let mut out: Vec<u8> = Vec::new();
    let mut i: usize = 0;
    while i < len
        invariant
            i <= len,
            start + len <= usize::MAX,
            out@ == image_slice(data@, start as int, i as nat),
        decreases len - i,
    {
        let b = if start + i < data.len() { data[start + i] } else { 0 };
        out.push(b);
        i = i + 1;
        assert(out@ =~= image_slice(data@, start as int, i as nat));
    }
    out
}

/// Parses an iNES image into a cartridge. Reserved header bytes are not checked.
pub fn load_file_into_memory(data: &Vec<u8>) -> (r: Result<Cartridge, CartridgeError>)
    ensures
        !magic_ok(data@) ==> r == Err::<Cartridge, CartridgeError>(CartridgeError::InvalidMagic),
        magic_ok(data@) && is_pal(data@) ==> r == Err::<Cartridge, CartridgeError>(
            CartridgeError::UnsupportedCartridge),
        magic_ok(data@) && !is_pal(data@) && !supported_mapper(mapper_number(data@))
            ==> r == Err::<Cartridge, CartridgeError>(CartridgeError::UnsupportedMapper(mapper_number(data@))),
        magic_ok(data@) && !is_pal(data@) && supported_mapper(mapper_number(data@))
            ==> match r {
                Ok(c) => {
                    &&& c.wf()
                    &&& c.spec_number() == mapper_number(data@)
                    &&& c.spec_prg() == prg_image(data@)
                    &&& c.spec_chr() == chr_image(data@)
                },
                Err(_) => false,
            },
{
    if data.len() < HEADER_SIZE || data[0] != INES_MAGIC[0] || data[1] != INES_MAGIC[1]
        || data[2] != INES_MAGIC[2] || data[3] != INES_MAGIC[3] {
        return Err(CartridgeError::InvalidMagic);
    }
    let n_rom_banks = data[4] as usize;
    let n_vrom_banks = data[5] as usize;
    if data[9] & 1 == 1 {
        return Err(CartridgeError::UnsupportedCartridge);
    }
    let mirror_mode: u8 = if data[6] & 0x08 != 0 { 4 } else { data[6] & 1 };
    let mapper = (data[7] & 0xf0) | (data[6] >> 4u8);
    if !(mapper == 0 || mapper == 1 || mapper == 2 || mapper == 3 || mapper == 4 || mapper == 7
        || mapper == 34 || mapper == 66 || mapper == 68 || mapper == 69) {
        return Err(CartridgeError::UnsupportedMapper(mapper));
    }
    let rom = copy_image(data, HEADER_SIZE, n_rom_banks * PRG_UNIT);
    let vrom = if n_vrom_banks == 0 {
        let v = crate::mapper::zeroed(CHR_UNIT);
        assert(v@ =~= Seq::new(CHR_UNIT as nat, |i: int| 0u8));
        v
    } else {
        copy_image(data, HEADER_SIZE + n_rom_banks * PRG_UNIT, n_vrom_banks * CHR_UNIT)
    };
    assert(rom@.len() <= MAX_PRG_SIZE);
    let cart = if mapper == 0 {
        Cartridge::Nrom(Mapper0::new_mapper(rom, vrom, mirror_mode))
    } else if mapper == 1 {
        Cartridge::Mmc1(Mapper1::new_mapper(rom, vrom, mirror_mode))
    } else if mapper == 2 {
        Cartridge::Uxrom(Mapper2::new_mapper(rom, vrom, mirror_mode))
    } else if mapper == 3 {
        Cartridge::Cnrom(Mapper3::new_mapper(rom, vrom, mirror_mode))
    } else if mapper == 4 {
        Cartridge::Mmc3(Mapper4::new_mapper(rom, vrom, mirror_mode))
    } else if mapper == 7 {
        Cartridge::Axrom(Mapper7::new_mapper(rom, vrom, mirror_mode))
    } else if mapper == 34 {
        Cartridge::Bnrom(Mapper34::new_mapper(rom, vrom, mirror_mode))
    } else if mapper == 66 {
        Cartridge::Gxrom(Mapper66::new_mapper(rom, vrom, mirror_mode))
    } else if mapper == 68 {
        Cartridge::Sunsoft4(Mapper68::new_mapper(rom, vrom, mirror_mode))
    } else {
        Cartridge::Fme7(Mapper69::new_mapper(rom, vrom, mirror_mode))
    };
    Ok(cart)
}

} // verus!
