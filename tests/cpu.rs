use nes::apu::APU;
use nes::mem::NESMemory;
use nes::controller::Controller;
use nes::cpu::{CPU, STACK_INIT};
use nes::mapper::mapper0::Mapper0;
use nes::mapper::Cartridge;
use nes::opcode::Instruction;
use nes::ppu::PPU;

fn bus_with_prg(prg: Vec<u8>) -> NESMemory {
    let cart = Cartridge::Nrom(Mapper0::new_mapper(prg, vec![0; 0x2000], 0));
    NESMemory::new_nes_mem(PPU::new_nes_ppu(), APU::new_nes_apu(0xff), Controller::new_controller(), cart)
}

fn blank_bus() -> NESMemory {
    bus_with_prg(vec![0; 0x8000])
}

#[test]
fn test_stack_pop_empty() {
    let mut bus = blank_bus();
    let mut cpu = CPU::new_cpu();
    let _ = cpu.stack_pop8(&mut bus);
    assert_eq!(cpu.sp, STACK_INIT + 1);
    let _ = cpu.stack_pop8(&mut bus);
    assert_eq!(cpu.sp, STACK_INIT + 2);
    let _ = cpu.stack_pop8(&mut bus);
    assert_eq!(cpu.sp, 0x00);
}

#[test]
fn test_stack_push_full() {
    let mut bus = blank_bus();
    let mut cpu = CPU::new_cpu();
    for _ in 0..STACK_INIT {
        cpu.stack_push8(&mut bus, 0xff);
    }
    assert_eq!(cpu.sp, 0x00);
    cpu.stack_push8(&mut bus, 0xee);
    assert_eq!(cpu.sp, 0xff);
}

#[test]
fn test_stack() {
    let mut bus = blank_bus();
    let mut cpu = CPU::new_cpu();

    cpu.stack_push8(&mut bus, 0xff);
    assert_eq!(cpu.sp, 0xfc);
    assert_eq!(bus.ram[0x0100 + (cpu.sp as usize) + 1], 0xff);

    cpu.stack_push16(&mut bus, 0xdead);
    assert_eq!(cpu.sp, 0xfa);
    assert_eq!(bus.ram[0x100 + (cpu.sp as usize) + 1], 0xad);
    assert_eq!(bus.ram[0x100 + (cpu.sp as usize) + 2], 0xde);

    let rv = cpu.stack_pop16(&mut bus);
    assert_eq!(cpu.sp, 0xfc);
    assert_eq!(rv, 0xdead);

    let rv = cpu.stack_pop8(&mut bus);
    assert_eq!(cpu.sp, 0xfd);
    assert_eq!(rv, 0xff);
}

#[test]
fn test_flags() {
    let mut cpu = CPU::new_cpu();

    assert_eq!(cpu.flags(), 0x00);

    cpu.set_flags(0x24);
    assert_eq!(cpu.flags(), 0x24);

    cpu.set_flags(0x00);
    assert_eq!(cpu.flags(), 0x00);

    cpu.c = true;
    assert_eq!(cpu.flags(), 0x01);
}

#[test]
fn test_nmi() {
    let mut rom = vec![0; 0x8000];
    rom[0x7ffa] = 0xad;
    rom[0x7ffb] = 0xde;
    let mut bus = bus_with_prg(rom);
    let mut cpu = CPU::new_cpu();
    cpu.nmi(&mut bus);
    assert_eq!(cpu.pc, 0xdead);
    assert!(cpu.i);
}

#[test]
fn flags_round_trip_every_byte() {
    let mut cpu = CPU::new_cpu();
    for p in 0..=255u8 {
        cpu.set_flags(p);
        assert_eq!(cpu.flags(), p);
        let before = cpu;
        let f = cpu.flags();
        cpu.set_flags(f);
        assert_eq!(cpu, before);
    }
}

#[test]
fn sbc_equals_adc_of_complement() {
    for a in [0u8, 1, 0x40, 0x7f, 0x80, 0xff] {
        for x in [0u8, 1, 0x40, 0x7f, 0x80, 0xfe, 0xff] {
            let mut s = CPU::new_cpu();
            s.a = a;
            s.c = true;
            let mut t = s;
            s.alu(Instruction::SBC, x);
            t.alu(Instruction::ADC, !x);
            assert_eq!((s.a, s.v, s.s, s.z, s.c), (t.a, t.v, t.s, t.z, t.c));
        }
    }
}

#[test]
fn adc_values() {
    let mut cpu = CPU::new_cpu();
    cpu.a = 0x50;
    cpu.alu(Instruction::ADC, 0x50);
    assert_eq!(cpu.a, 0xa0);
    assert!(cpu.v && cpu.s && !cpu.c && !cpu.z);
    cpu.a = 0xff;
    cpu.c = false;
    cpu.alu(Instruction::ADC, 0x01);
    assert_eq!(cpu.a, 0x00);
    assert!(cpu.c && cpu.z && !cpu.v);
    cpu.a = 0x50;
    cpu.c = true;
    cpu.alu(Instruction::SBC, 0xb0);
    assert_eq!(cpu.a, 0xa0);
    assert!(cpu.v && !cpu.c);
}

#[test]
fn asl_then_lsr_round_trip() {
    for v in 0..128u8 {
        let mut cpu = CPU::new_cpu();
        cpu.a = v;
        cpu.alu(Instruction::ASL, 0);
        assert!(!cpu.c);
        cpu.alu(Instruction::LSR, 0);
        assert_eq!(cpu.a, v);
        assert!(!cpu.c);
    }
}

#[test]
fn compare_and_bit() {
    let mut cpu = CPU::new_cpu();
    cpu.a = 0x10;
    cpu.alu(Instruction::CMP, 0x20);
    assert!(!cpu.c && cpu.s && !cpu.z);
    cpu.alu(Instruction::CMP, 0x10);
    assert!(cpu.c && cpu.z);
    cpu.alu(Instruction::BIT, 0xc0);
    assert!(cpu.s && cpu.v && cpu.z);
}

fn run_program(program: &[u8], setup: impl Fn(&mut CPU)) -> (CPU, u64) {
    let mut bus = blank_bus();
    for (i, b) in program.iter().enumerate() {
        bus.write(0x0200 + i as u16, *b);
    }
    let mut cpu = CPU::new_cpu();
    cpu.pc = 0x0200;
    setup(&mut cpu);
    let cycles = cpu.step(&mut bus);
    (cpu, cycles)
}

#[test]
fn branch_costs() {
    // BNE +2, taken, same page: 3 cycles.
    let (cpu, cycles) = run_program(&[0xd0, 0x02], |c| c.z = false);
    assert_eq!(cycles, 3);
    assert_eq!(cpu.pc, 0x0204);
    // BNE not taken: 2 cycles.
    let (cpu, cycles) = run_program(&[0xd0, 0x02], |c| c.z = true);
    assert_eq!(cycles, 2);
    assert_eq!(cpu.pc, 0x0202);
    // BNE -4, taken, into the previous page: 4 cycles.
    let (cpu, cycles) = run_program(&[0xd0, 0xfc], |c| c.z = false);
    assert_eq!(cycles, 4);
    assert_eq!(cpu.pc, 0x01fe);
}

#[test]
fn oam_dma_timing_and_contents() {
    for odd in [false, true] {
        let mut bus = blank_bus();
        for i in 0..256u16 {
            bus.write(0x0200 + i, (i as u8) ^ 0x5a);
        }
        let mut cpu = CPU::new_cpu();
        cpu.cycles = if odd { 7 } else { 8 };
        cpu.write(&mut bus, 0x4014, 0x02);
        assert_eq!(cpu.stall, if odd { 514 } else { 513 });
        for i in 0..256usize {
            assert_eq!(bus.ppu.oam.data[i], (i as u8) ^ 0x5a);
        }
        let stalled = cpu.stall;
        for _ in 0..stalled {
            assert_eq!(cpu.step(&mut bus), 1);
        }
        assert_eq!(cpu.stall, 0);
    }
}

#[test]
fn jmp_indirect_page_bug() {
    let mut bus = blank_bus();
    // JMP ($02FF): low byte from $02FF, high byte from $0200.
    bus.write(0x0300, 0x6c);
    bus.write(0x0301, 0xff);
    bus.write(0x0302, 0x02);
    bus.write(0x02ff, 0x34);
    bus.write(0x0200, 0x12);
    bus.write(0x0300 + 0x100, 0x56);
    let mut cpu = CPU::new_cpu();
    cpu.pc = 0x0300;
    let cycles = cpu.step(&mut bus);
    assert_eq!(cpu.pc, 0x1234);
    assert_eq!(cycles, 5);
}

#[test]
fn zero_page_x_wraps() {
    let mut bus = blank_bus();
    // LDA $F0,X with X = $20 reads $0010.
    bus.write(0x0300, 0xb5);
    bus.write(0x0301, 0xf0);
    bus.write(0x0010, 0x77);
    bus.write(0x0110, 0x11);
    let mut cpu = CPU::new_cpu();
    cpu.pc = 0x0300;
    cpu.x = 0x20;
    cpu.step(&mut bus);
    assert_eq!(cpu.a, 0x77);
}

#[test]
fn brk_pushes_pc_plus_one_with_break_flag() {
    let mut rom = vec![0; 0x8000];
    rom[0x7ffe] = 0x00;
    rom[0x7fff] = 0x90;
    let mut bus = bus_with_prg(rom);
    bus.write(0x0300, 0x00);
    let mut cpu = CPU::new_cpu();
    cpu.pc = 0x0300;
    let sp = cpu.sp;
    cpu.step(&mut bus);
    assert_eq!(cpu.pc, 0x9000);
    assert!(cpu.i);
    assert_eq!(bus.ram[0x100 + sp as usize], 0x03);
    assert_eq!(bus.ram[0x100 + sp as usize - 1], 0x01);
    assert_eq!(bus.ram[0x100 + sp as usize - 2] & 0x30, 0x30);
}

#[test]
fn jam_locks_the_cpu() {
    let mut bus = blank_bus();
    bus.write(0x0300, 0x02);
    let mut cpu = CPU::new_cpu();
    cpu.pc = 0x0300;
    cpu.step(&mut bus);
    assert!(cpu.jammed);
    assert_eq!(cpu.pc, 0x0300);
}

#[test]
fn test_init() {
    let cpu = CPU::new_cpu();
    assert_eq!(cpu.sp, STACK_INIT);
    assert_eq!(cpu.pc, 0);
}

#[test]
fn test_addr_mode_immediate() {
    use_immediate();
}

fn use_immediate() {
    let mut bus = blank_bus();
    let mut cpu = CPU::new_cpu();
    cpu.pc = 0x0302;
    let (addr, crossed) = nes::opcode::AddressingMode::Immediate.get_data(&cpu, &mut bus);
    assert_eq!(addr, 0x0301);
    assert!(!crossed);
}

#[test]
fn nmi_is_serviced_in_its_own_step() {
    let mut rom = vec![0xea; 0x8000];
    rom[0x7ffa] = 0x00;
    rom[0x7ffb] = 0x90;
    let mut bus = bus_with_prg(rom);
    let mut cpu = CPU::new_cpu();
    cpu.pc = 0x1234;
    cpu.c = true;
    let sp = cpu.sp;
    cpu.trigger_nmi();
    assert_eq!(cpu.step(&mut bus), 7);
    assert_eq!(cpu.pc, 0x9000);
    assert!(cpu.i);
    assert_eq!(bus.ram[0x100 + sp as usize], 0x12);
    assert_eq!(bus.ram[0x100 + sp as usize - 1], 0x34);
    assert_eq!(bus.ram[0x100 + sp as usize - 2], 0x21);
    assert_eq!(cpu.step(&mut bus), 2);
    assert_eq!(cpu.pc, 0x9001);
}
