use nes::ines::{load_file_into_memory, CartridgeError};
use nes::mapper::Cartridge;

fn image(prg_banks: u8, chr_banks: u8, flags6: u8, flags7: u8, flags9: u8) -> Vec<u8> {
    let mut v = vec![0x4e, 0x45, 0x53, 0x1a, prg_banks, chr_banks, flags6, flags7, 0, flags9, 0, 0, 0, 0, 0, 0];
    for i in 0..(prg_banks as usize * 16384) {
        v.push((i % 251) as u8);
    }
    for _ in 0..(chr_banks as usize * 8192) {
        v.push(0x77);
    }
    v
}

#[test]
fn rejects_bad_magic() {
    let mut v = image(1, 1, 0, 0, 0);
    v[3] = 0;
    assert_eq!(load_file_into_memory(&v).err(), Some(CartridgeError::InvalidMagic));
    assert_eq!(load_file_into_memory(&vec![0x4e, 0x45]).err(), Some(CartridgeError::InvalidMagic));
}

#[test]
fn rejects_pal() {
    assert_eq!(load_file_into_memory(&image(1, 1, 0, 0, 1)).err(), Some(CartridgeError::UnsupportedCartridge));
}

#[test]
fn rejects_unknown_mapper() {
    assert_eq!(load_file_into_memory(&image(1, 1, 0x50, 0x00, 0)).err(), Some(CartridgeError::UnsupportedMapper(5)));
    assert_eq!(load_file_into_memory(&image(1, 1, 0x40, 0x20, 0)).err(), Some(CartridgeError::UnsupportedMapper(0x24)));
}

#[test]
fn loads_supported_mappers() {
    match load_file_into_memory(&image(2, 1, 0x01, 0, 0)) {
        Ok(Cartridge::Nrom(m)) => {
            assert_eq!(m.prg_rom.len(), 32768);
            assert_eq!(m.prg_rom[300], (300 % 251) as u8);
            assert_eq!(m.chr_rom[0], 0x77);
        },
        _ => panic!("expected NROM"),
    }
    match load_file_into_memory(&image(2, 0, 0x10, 0, 0)) {
        Ok(Cartridge::Mmc1(m)) => assert_eq!(m.chr_rom, vec![0; 8192]),
        _ => panic!("expected MMC1 with CHR-RAM"),
    }
    assert!(matches!(load_file_into_memory(&image(2, 1, 0x50, 0x40, 0)), Ok(Cartridge::Fme7(_))));
    assert!(matches!(load_file_into_memory(&image(2, 1, 0x20, 0x20, 0)), Ok(Cartridge::Bnrom(_))));
}

#[test]
fn accepts_image_without_prg() {
    match load_file_into_memory(&image(0, 1, 0, 0, 0)) {
        Ok(Cartridge::Nrom(m)) => {
            assert_eq!(m.prg_rom.len(), 0);
            assert_eq!(m.read(0x8000), 0);
        },
        _ => panic!("expected NROM"),
    }
}
