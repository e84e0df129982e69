use nes::ines::load_file_into_memory;
use nes::console::{next_sampling, Console, AUDIO_QUEUE_HIGH_WATER_MARK};

/// A tiny NROM program: enable background rendering, then loop forever
/// incrementing a RAM byte.
fn rom() -> Vec<u8> {
    let mut v = vec![0x4e, 0x45, 0x53, 0x1a, 1, 1, 0, 0, 0, 0, 0, 0, 0, 0, 0, 0];
    let mut prg = vec![0xeau8; 16384];
    let program = [
        0xa9, 0x08, // LDA #$08
        0x8d, 0x01, 0x20, // STA $2001
        0xe6, 0x10, // INC $10
        0x4c, 0x05, 0xc0, // JMP $C005
    ];
    prg[..program.len()].copy_from_slice(&program);
    prg[0x3ffc] = 0x00;
    prg[0x3ffd] = 0xc0;
    v.extend_from_slice(&prg);
    for i in 0..8192 {
        v.push((i * 7) as u8);
    }
    v
}

fn run_frames(n: usize) -> Vec<Vec<u8>> {
    let mut nes = Console::new_nes_console(load_file_into_memory(&rom()).ok().unwrap(), 0xff);
    nes.reset();
    let mut frames = Vec::new();
    for _ in 0..n {
        let (_, done, _) = nes.run_frame(100_000);
        assert!(done);
        frames.push(nes.bus.ppu.framebuffer.clone());
    }
    frames
}

#[test]
fn frames_are_deterministic() {
    let a = run_frames(3);
    let b = run_frames(3);
    assert_eq!(a, b);
    assert_eq!(a[0].len(), 256 * 240);
}

#[test]
fn reset_loads_vector_and_runs() {
    let mut nes = Console::new_nes_console(load_file_into_memory(&rom()).ok().unwrap(), 0xff);
    nes.reset();
    assert_eq!(nes.cpu.pc, 0xc000);
    assert_eq!(nes.cpu.flags(), 0x24);
    assert_eq!(nes.cpu.sp, 0xfd);
    for _ in 0..10 {
        nes.step();
    }
    assert!(nes.bus.ram[0x10] > 0);
    assert_eq!(nes.test_status(), None);
}

#[test]
fn save_state_round_trip() {
    let mut console = Console::new_nes_console(load_file_into_memory(&rom()).ok().unwrap(), 0xff);
    console.reset();
    for _ in 0..500 {
        console.step();
    }
    let state = console.save();
    let cpu = console.cpu;
    let ram = console.bus.ram.clone();
    let dot = console.bus.ppu.dot;
    for _ in 0..500 {
        console.step();
    }
    assert!(console.load(&state).is_ok());
    assert_eq!(console.cpu, cpu);
    assert_eq!(console.bus.ram, ram);
    assert_eq!(console.bus.ppu.dot, dot);
    assert!(console.load(&state[..10].to_vec()).is_err());
}

#[test]
fn audio_back_pressure() {
    let hwm = AUDIO_QUEUE_HIGH_WATER_MARK;
    assert!(next_sampling(true, hwm));
    assert!(!next_sampling(true, hwm + 1));
    assert!(!next_sampling(false, hwm));
    assert!(next_sampling(false, hwm - 1));
}
