use nes::ppu::regs::{PPUAddr, PPUCtrl, PPUScroll, PPUStatus};

#[test]
fn test_ppu_addr() {
    let mut ppu_addr = PPUAddr::new_ppu_addr();
    ppu_addr.write(0x21);
    assert!(ppu_addr.val == 0x2100);
    ppu_addr.write(0x08);
    assert!(ppu_addr.val == 0x2108);
    ppu_addr.write(0x32);
    assert!(ppu_addr.val == 0x3208);
    ppu_addr.write(0x01);
    assert!(ppu_addr.val == 0x3201);
}

#[test]
fn ctrl_test_the_thing() {
    let ctrl = PPUCtrl(1);
    assert_eq!(ctrl.base_nametable_addr(), 0x2400);
    assert_eq!(ctrl.vram_addr_increment(), 1);
    let ctrl = PPUCtrl(3);
    assert_eq!(ctrl.base_nametable_addr(), 0x2c00);
    assert_eq!(ctrl.vram_addr_increment(), 1);
    let ctrl = PPUCtrl(5);
    assert_eq!(ctrl.base_nametable_addr(), 0x2400);
    assert_eq!(ctrl.vram_addr_increment(), 32);
    let ctrl = PPUCtrl(0xff);
    assert_eq!(ctrl.generate_nmi(), true);
    assert_eq!(ctrl.vram_addr_increment(), 32);
}

#[test]
fn test_ppu_scroll() {
    let mut ppu_scroll = PPUScroll::new_ppu_scroll();
    ppu_scroll.write(0x20);
    assert!(ppu_scroll.x == 0x20);
    assert!(ppu_scroll.y == 0x00);
    ppu_scroll.write(0x4a);
    assert!(ppu_scroll.x == 0x20);
    assert!(ppu_scroll.y == 0x4a);
    ppu_scroll.write(0x32);
    assert!(ppu_scroll.x == 0x32);
    assert!(ppu_scroll.y == 0x4a);
}

#[test]
fn test_vblank() {
    let status = PPUStatus(0b10000000);
    assert!(status.vblank_started());
    let mut status = PPUStatus(0x00);
    assert!(!status.vblank_started());
    status.set_vblank();
    assert!(status.vblank_started());
    status.clear_vblank();
    assert!(!status.vblank_started());
}

#[test]
fn test_sprite_zero() {
    let status = PPUStatus(0b01000000);
    assert!(status.sprite_zero_hit());
    let mut status = PPUStatus(0x00);
    assert!(!status.sprite_zero_hit());
    status.set_sprite_zero_hit();
    assert!(status.sprite_zero_hit());
    status.clear_sprite_zero_hit();
    assert!(!status.sprite_zero_hit());
}

#[test]
fn test_sprite_overflow() {
    let status = PPUStatus(0b00100000);
    assert!(status.sprite_overflow());
    let mut status = PPUStatus(0x00);
    assert!(!status.sprite_overflow());
    status.set_sprite_overflow();
    assert!(status.sprite_overflow());
    status.clear_sprite_overflow();
    assert!(!status.sprite_overflow());
}

#[test]
fn ctrl_sprite_size_and_tables() {
    assert_eq!(PPUCtrl(0x00).sprite_size(), 8);
    assert_eq!(PPUCtrl(0x20).sprite_size(), 16);
    assert_eq!(PPUCtrl(0x10).background_pattern_table_addr(), 0x1000);
    assert_eq!(PPUCtrl(0x08).sprite_pattern_table_addr(), 0x1000);
    assert_eq!(PPUCtrl(0x00).background_pattern_table_addr(), 0x0000);
    assert_eq!(PPUCtrl(2).base_nametable_addr(), 0x2800);
}

#[test]
fn test_the_thing() {
    let ctrl = PPUCtrl(1);
    assert_eq!(ctrl.base_nametable_addr(), 0x2400);
    assert_eq!(ctrl.vram_addr_increment(), 1);
    let ctrl = PPUCtrl(3);
    assert_eq!(ctrl.base_nametable_addr(), 0x2c00);
    assert_eq!(ctrl.vram_addr_increment(), 1);
    let ctrl = PPUCtrl(5);
    assert_eq!(ctrl.base_nametable_addr(), 0x2400);
    assert_eq!(ctrl.vram_addr_increment(), 32);
    let ctrl = PPUCtrl(0xff);
    assert_eq!(ctrl.generate_nmi(), true);
    assert_eq!(ctrl.vram_addr_increment(), 32);
}
