use nes::apu::APU;
use nes::mem::NESMemory;
use nes::controller::Controller;
use nes::mapper::mapper0::Mapper0;
use nes::mapper::Cartridge;
use nes::ppu::PPU;

fn bus() -> NESMemory {
    let mut prg = vec![0u8; 0x8000];
    prg[0] = 0xaa;
    let cart = Cartridge::Nrom(Mapper0::new_mapper(prg, vec![0; 0x2000], 0));
    NESMemory::new_nes_mem(PPU::new_nes_ppu(), APU::new_nes_apu(0xff), Controller::new_controller(), cart)
}

#[test]
fn ram_mirroring() {
    let mut b = bus();
    b.write(0x1803, 0x5c);
    for a in [0x0003u16, 0x0803, 0x1003, 0x1803] {
        assert_eq!(b.read(a), 0x5c);
    }
    b.write(0x0004, 0x11);
    assert_eq!(b.read(0x1004), 0x11);
}

#[test]
fn cartridge_and_unmapped() {
    let mut b = bus();
    assert_eq!(b.read(0x8000), 0xaa);
    assert_eq!(b.read(0xc000), 0x00);
    assert_eq!(b.read(0x5000), 0);
    b.write(0x5000, 1);
    assert_eq!(b.read(0x5000), 0);
}

#[test]
fn ppu_register_mirror_through_bus() {
    let mut b = bus();
    b.write(0x2403, 0x20);
    assert_eq!(b.ppu.regs.oam_addr, 0x20);
    b.write(0x3ffc, 0x99);
    assert_eq!(b.ppu.oam.data[0x20], 0x99);
    b.write(0x2003, 0x20);
    assert_eq!(b.read(0x3f24), 0x99);
}

#[test]
fn controller_port() {
    let mut b = bus();
    b.controller.a(true);
    b.write(0x4016, 1);
    b.write(0x4016, 0);
    assert_eq!(b.read(0x4016), 1);
    assert_eq!(b.read(0x4016), 0);
}

#[test]
fn apu_status_port() {
    let mut b = bus();
    b.write(0x4015, 0x01);
    b.write(0x4003, 0x08);
    assert_eq!(b.read(0x4015) & 1, 1);
    b.write(0x4015, 0x00);
    assert_eq!(b.read(0x4015) & 1, 0);
}

fn mem_with_prg(fill: u8) -> NESMemory {
    let cart = Cartridge::Nrom(Mapper0::new_mapper(vec![fill; 0x8000], vec![0; 0x2000], 0));
    NESMemory::new_nes_mem(PPU::new_nes_ppu(), APU::new_nes_apu(0xff), Controller::new_controller(), cart)
}

#[test]
fn mem_test_read_write() {
    let mut mem = mem_with_prg(0);
    // RAM
    assert_eq!(mem.read(0x1000), 0);
    mem.write(0x1000, 5);
    assert_eq!(mem.read(0x1000), 5);
    // ROM
    assert_eq!(mem.read(0x8000), 0);
    assert_eq!(mem.read(0x8001), 0);
    assert_eq!(mem.read(0xffff), 0);
    mem.write(0x8000, 1);
    assert_eq!(mem.read(0x8000), 0);
}

#[test]
fn mem_test_load_rom() {
    let mut mem = mem_with_prg(0);
    assert_eq!(mem.read(0x8000), 0);
    assert_eq!(mem.read(0xffff), 0);
    let mut mem = mem_with_prg(1);
    assert_eq!(mem.read(0x8000), 1);
    assert_eq!(mem.read(0xffff), 1);
}

#[test]
fn unmapped_reads_are_zero() {
    let mut b = bus();
    for a in [0x4014u16, 0x4017, 0x4018, 0x401f, 0x4020, 0x5fff] {
        assert_eq!(b.read(a), 0);
    }
}
