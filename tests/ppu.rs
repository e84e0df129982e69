use nes::mapper::mapper0::Mapper0;
use nes::mapper::Cartridge;
use nes::ppu::palette::rgb;
use nes::ppu::PPU;

fn cart() -> Cartridge {
    Cartridge::Nrom(Mapper0::new_mapper(vec![0; 0x8000], vec![0; 0x2000], 1))
}

fn write_vram(ppu: &mut PPU, cart: &mut Cartridge, addr: u16, val: u8) {
    ppu.write_register(cart, 0x2006, (addr >> 8) as u8);
    ppu.write_register(cart, 0x2006, addr as u8);
    ppu.write_register(cart, 0x2007, val);
}

fn read_palette(ppu: &mut PPU, cart: &mut Cartridge, addr: u16) -> u8 {
    ppu.write_register(cart, 0x2006, (addr >> 8) as u8);
    ppu.write_register(cart, 0x2006, addr as u8);
    ppu.read_register(cart, 0x2007)
}

#[test]
fn palette_mirrors() {
    let mut ppu = PPU::new_nes_ppu();
    let mut c = cart();
    for k in [0u16, 4, 8, 0x0c] {
        write_vram(&mut ppu, &mut c, 0x3f10 + k, 0x21 + k as u8);
        assert_eq!(read_palette(&mut ppu, &mut c, 0x3f00 + k), 0x21 + k as u8);
        write_vram(&mut ppu, &mut c, 0x3f00 + k, 0x30 + k as u8);
        assert_eq!(read_palette(&mut ppu, &mut c, 0x3f10 + k), 0x30 + k as u8);
    }
    write_vram(&mut ppu, &mut c, 0x3f11, 0x05);
    assert_eq!(read_palette(&mut ppu, &mut c, 0x3f01), 0x01);
}

#[test]
fn vblank_timing() {
    let mut ppu = PPU::new_nes_ppu();
    let mut c = cart();
    assert_eq!(ppu.read_register(&c, 0x2002) & 0x80, 0);
    let mut dots = 0u32;
    loop {
        let res = ppu.step(&c);
        dots += 1;
        if ppu.scanline == 241 && ppu.dot == 1 {
            assert!(res.frame_finished);
            break;
        }
        assert!(!res.frame_finished);
        if ppu.scanline == 241 && ppu.dot == 0 {
            assert_eq!(ppu.read_register(&c, 0x2002) & 0x80, 0);
        }
    }
    assert_eq!(dots, 241 * 341 + 1);
    ppu.write_register(&mut c, 0x2005, 0x10);
    assert!(ppu.regs.w);
    assert_eq!(ppu.read_register(&c, 0x2002), 0x80 | (0x10 & 0x1f));
    assert!(!ppu.regs.w);
    assert_eq!(ppu.read_register(&c, 0x2002) & 0x80, 0);
}

#[test]
fn nmi_after_delay_when_enabled() {
    let mut ppu = PPU::new_nes_ppu();
    let mut c = cart();
    ppu.write_register(&mut c, 0x2000, 0x80);
    let mut seen_vblank = false;
    let mut after = 0;
    for _ in 0..(262 * 341) {
        let res = ppu.step(&c);
        if res.frame_finished {
            seen_vblank = true;
        }
        if seen_vblank {
            after += 1;
            if res.trigger_nmi {
                break;
            }
        }
    }
    assert_eq!(after, 16);
}

#[test]
fn register_mirroring() {
    let mut ppu = PPU::new_nes_ppu();
    let mut c = cart();
    ppu.write_register(&mut c, 0x3ff8, 0x04);
    assert_eq!(ppu.regs.ctrl.0, 0x04);
    ppu.write_register(&mut c, 0x2b03, 0x10);
    assert_eq!(ppu.regs.oam_addr, 0x10);
    ppu.write_register(&mut c, 0x3004, 0x77);
    assert_eq!(ppu.oam.data[0x10], 0x77);
    assert_eq!(ppu.regs.oam_addr, 0x11);
}

#[test]
fn nametable_mirroring_vertical() {
    let mut ppu = PPU::new_nes_ppu();
    let mut c = cart();
    write_vram(&mut ppu, &mut c, 0x2005, 0xab);
    assert_eq!(ppu.vram_read(&c, 0x2805), 0xab);
    assert_eq!(ppu.vram_read(&c, 0x2405), 0);
}

#[test]
fn palette_rgb_lookup() {
    assert_eq!(rgb(0x00), (0x66, 0x66, 0x66));
    assert_eq!(rgb(0x30), (0xff, 0xfe, 0xff));
    assert_eq!(rgb(0x0f), (0, 0, 0));
}

#[test]
fn pattern_table_pixels() {
    let mut chr = vec![0u8; 0x2000];
    chr[16] = 0b1000_0001;
    chr[24] = 0b1000_0000;
    let c = Cartridge::Nrom(Mapper0::new_mapper(vec![0; 0x8000], chr, 1));
    let ppu = PPU::new_nes_ppu();
    let px = ppu.render_pattern_table(&c, 0);
    assert_eq!(px.len(), 16384);
    assert_eq!(px[64], 3);
    assert_eq!(px[65], 0);
    assert_eq!(px[71], 1);
    assert_eq!(px[0], 0);
}
