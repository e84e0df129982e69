use nes::mapper::mapper0::Mapper0;
use nes::mapper::mapper1::Mapper1;
use nes::mapper::mapper2::Mapper2;
use nes::mapper::mapper3::Mapper3;
use nes::mapper::mapper4::Mapper4;
use nes::mapper::mapper7::Mapper7;
use nes::mapper::mapper34::{Board, Mapper34};
use nes::mapper::mapper66::Mapper66;
use nes::mapper::mapper68::Mapper68;
use nes::mapper::mapper69::Mapper69;
use nes::mapper::{Cartridge, MapperEvent, MirrorMode};

fn banked(n_banks: usize, bank_size: usize) -> Vec<u8> {
    (0..n_banks * bank_size).map(|i| (i / bank_size) as u8).collect()
}

#[test]
fn mirror_mode_coefficients() {
    assert_eq!(MirrorMode::Horizontal.coefficients(), vec![0, 0, 1, 1]);
    assert_eq!(MirrorMode::Vertical.coefficients(), vec![0, 1, 0, 1]);
    assert_eq!(MirrorMode::Single0.coefficients(), vec![0, 0, 0, 0]);
    assert_eq!(MirrorMode::Single1.coefficients(), vec![1, 1, 1, 1]);
    assert_eq!(MirrorMode::Four.coefficients(), vec![0, 1, 2, 3]);
    assert_eq!(MirrorMode::from_hv01(0), MirrorMode::Horizontal);
    assert_eq!(MirrorMode::from_hv01(1), MirrorMode::Vertical);
    assert_eq!(MirrorMode::from_vh01(0), MirrorMode::Vertical);
    assert_eq!(MirrorMode::from_vh01(1), MirrorMode::Horizontal);
    assert_eq!(MirrorMode::from_vh01(3), MirrorMode::Single1);
}

#[test]
fn nrom_mirrors_16k_prg_and_keeps_rom() {
    let mut prg = vec![0u8; 0x4000];
    prg[0] = 0x11;
    prg[0x3fff] = 0x22;
    let mut m = Mapper0::new_mapper(prg, vec![0; 0x2000], 1);
    assert_eq!(m.read(0x8000), 0x11);
    assert_eq!(m.read(0xc000), 0x11);
    assert_eq!(m.read(0xffff), 0x22);
    m.write(0x8000, 0x99);
    assert_eq!(m.read(0x8000), 0x11);
    m.write(0x6000, 0x42);
    assert_eq!(m.read(0x6000), 0x42);
    assert_eq!(m.mirror_mode, MirrorMode::Vertical);
}

#[test]
fn mmc1_five_write_sequence_loads_control() {
    let mut m = Mapper1::new_mapper(banked(8, 0x4000), vec![0; 0x2000], 0);
    for bit in [1u8, 1, 0, 0, 0] {
        m.write(0x8000, bit);
    }
    assert_eq!(m.regs.control, 0b00011);
    assert_eq!(m.regs.mirror_mode, MirrorMode::Horizontal);
    assert_eq!((m.regs.control >> 2) & 3, 0);
    assert_eq!((m.regs.control >> 4) & 1, 0);
    assert_eq!(m.regs.write_count, 0);
    // 32 KiB mode: $8000 and $C000 map banks 0 and 1.
    assert_eq!(m.read(0x8000), 0);
    assert_eq!(m.read(0xc000), 1);
}

#[test]
fn mmc1_reset_pulse_and_prg_switch() {
    let mut m = Mapper1::new_mapper(banked(8, 0x4000), vec![0; 0x2000], 0);
    // Default mode 3: last bank fixed at $C000.
    assert_eq!(m.read(0xc000), 7);
    for bit in [1u8, 0, 1, 0, 0] {
        m.write(0xe000, bit);
    }
    assert_eq!(m.regs.prg_bank, 5);
    assert_eq!(m.read(0x8000), 5);
    m.write(0x8000, 1);
    m.write(0x8000, 0x80);
    assert_eq!(m.regs.write_count, 0);
    assert_eq!(m.regs.control, 0x0c);
}

#[test]
fn uxrom_switches_low_bank_only() {
    let mut m = Mapper2::new_mapper(banked(4, 0x4000), vec![0; 0x2000], 0);
    assert_eq!(m.read(0xc000), 3);
    m.write(0x8000, 2);
    assert_eq!(m.read(0x8000), 2);
    assert_eq!(m.read(0xc000), 3);
}

#[test]
fn cnrom_switches_chr() {
    let mut m = Mapper3::new_mapper(vec![0; 0x8000], banked(4, 0x2000), 0);
    assert_eq!(m.read(0x0000), 0);
    m.write(0x8000, 3);
    assert_eq!(m.read(0x0000), 3);
}

#[test]
fn mmc3_banks_and_scanline_irq() {
    let mut m = Mapper4::new_mapper(banked(8, 0x2000), banked(8, 0x400), 0);
    assert_eq!(m.read(0xe000), 7);
    assert_eq!(m.read(0xc000), 6);
    m.write(0x8000, 6);
    m.write(0x8001, 3);
    assert_eq!(m.read(0x8000), 3);
    m.write(0x8000, 0x46);
    assert_eq!(m.read(0x8000), 6);
    assert_eq!(m.read(0xc000), 3);
    m.write(0x8000, 2);
    m.write(0x8001, 5);
    assert_eq!(m.read(0x1000), 5);
    m.write(0xc000, 2);
    m.write(0xe001, 0);
    let mut cart = Cartridge::Mmc3(m);
    cart.notify(MapperEvent::HBlank);
    assert!(!cart.irq_flag());
    cart.notify(MapperEvent::HBlank);
    assert!(!cart.irq_flag());
    cart.notify(MapperEvent::HBlank);
    assert!(cart.irq_flag());
}

#[test]
fn axrom_selects_bank_and_screen() {
    let mut m = Mapper7::new_mapper(banked(4, 0x8000), vec![0; 0x2000], 0);
    m.write(0x8000, 0x12);
    assert_eq!(m.read(0x8000), 2);
    assert_eq!(m.mirror_mode, MirrorMode::Single0);
    m.write(0x8000, 0x01);
    assert_eq!(m.mirror_mode, MirrorMode::Single1);
}

#[test]
fn mapper34_boards() {
    let mut b = Mapper34::new_mapper(banked(2, 0x8000), vec![0; 0x2000], 1);
    assert_eq!(b.board, Board::BxROM);
    b.write(0x8000, 1);
    assert_eq!(b.read(0x8000), 1);
    let mut n = Mapper34::new_mapper(banked(2, 0x8000), banked(4, 0x1000), 1);
    assert_eq!(n.board, Board::NINA001);
    assert_eq!(n.mirror_mode, MirrorMode::Horizontal);
    n.write(0x7ffd, 1);
    n.write(0x7fff, 3);
    assert_eq!(n.read(0x8000), 1);
    assert_eq!(n.read(0x1000), 3);
    assert_eq!(n.read(0x7fff), 3);
}

#[test]
fn gxrom_selects_both() {
    let mut m = Mapper66::new_mapper(banked(4, 0x8000), banked(4, 0x2000), 0);
    m.write(0x8000, 0x21);
    assert_eq!(m.read(0x8000), 2);
    assert_eq!(m.read(0x0000), 1);
}

#[test]
fn fme7_commands_and_cycle_irq() {
    let mut m = Mapper69::new_mapper(banked(8, 0x2000), banked(8, 0x400), 0);
    assert_eq!(m.read(0xe000), 7);
    m.write(0x8000, 0x09);
    m.write(0xa000, 4);
    assert_eq!(m.read(0x8000), 4);
    m.write(0x8000, 0x0c);
    m.write(0xa000, 2);
    assert_eq!(m.mirror_mode, MirrorMode::Single0);
    m.write(0x8000, 0x0e);
    m.write(0xa000, 10);
    m.write(0x8000, 0x0d);
    m.write(0xa000, 0x81);
    let mut cart = Cartridge::Fme7(m);
    cart.notify(MapperEvent::CPUTick(8));
    assert!(!cart.irq_flag());
    cart.notify(MapperEvent::CPUTick(8));
    assert!(cart.irq_flag());
}

#[test]
fn sunsoft4_chr_nametables() {
    let mut m = Mapper68::new_mapper(banked(4, 0x4000), banked(256, 0x400), 0);
    assert_eq!(m.read(0xc000), 3);
    m.write(0xf000, 0x12);
    assert_eq!(m.read(0x8000), 2);
    m.write(0x6000, 0x44);
    assert_eq!(m.read(0x6000), 0x44);
    m.write(0x9000, 5);
    assert_eq!(m.read(0x0800), 10);
    m.write(0xc000, 0x01);
    m.write(0xe000, 0x10);
    assert!(m.chr_nt_enabled);
    assert_eq!(m.mirror_mode, MirrorMode::Vertical);
    let cart = Cartridge::Sunsoft4(m);
    assert_eq!(cart.nametable(0x2000), Some(0x81));
}
