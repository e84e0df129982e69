use nes::apu::square::SquareWave;
use nes::apu::triangle::TriangleWave;
use nes::apu::noise::Noise;
use nes::apu::{ChannelLevels, APU};

fn audible_square() -> SquareWave {
    let mut sq = SquareWave::new_square_wave(1);
    sq.enabled = true;
    sq.write_control(0b0101_1111);
    sq.write_timer_low(0x40);
    sq.write_timer_high(0x08);
    sq
}

#[test]
fn short_period_pulse_is_silent() {
    let mut sq = audible_square();
    sq.duty_value = 1;
    assert_eq!(sq.signal(), 15);
    sq.write_timer_low(0x07);
    sq.write_timer_high(0x08);
    sq.duty_value = 1;
    assert!(sq.length_value > 0);
    assert_eq!(sq.signal(), 0);
}

#[test]
fn silent_pulse_leaves_mix_indices_to_the_others() {
    let mut apu = APU::new_nes_apu(0xff);
    apu.write(0x4015, 0x0f);
    apu.write(0x4000, 0x1f);
    apu.write(0x4002, 0x05);
    apu.write(0x4003, 0x08);
    apu.write(0x4004, 0x1f);
    apu.write(0x4006, 0x40);
    apu.write(0x4007, 0x08);
    apu.square2.duty_value = 1;
    let levels = apu.levels();
    assert_eq!(levels.square1, 0);
    assert_eq!(levels.square2, 15);
    assert_eq!(levels.pulse_index(), 15);
    let alone = ChannelLevels { square1: 0, ..levels };
    assert_eq!(alone.pulse_index(), levels.pulse_index());
    assert_eq!(alone.tnd_index(), levels.tnd_index());
}

#[test]
fn mix_indices() {
    let l = ChannelLevels { square1: 3, square2: 4, triangle: 5, noise: 6, dmc: 7 };
    assert_eq!(l.pulse_index(), 7);
    assert_eq!(l.tnd_index(), 15 + 12 + 7);
}

#[test]
fn length_counter_and_status() {
    let mut apu = APU::new_nes_apu(0xff);
    apu.write(0x4015, 0x01);
    apu.write(0x4003, 0x08);
    assert_eq!(apu.square1.length_value, 254);
    assert_eq!(apu.read(0x4015), 1);
    apu.write(0x4015, 0x00);
    assert_eq!(apu.read(0x4015), 0);
}

#[test]
fn sample_rate_and_sequencer_irq() {
    let mut apu = APU::new_nes_apu(0xff);
    apu.write(0x4017, 0x00);
    let mut samples = 0;
    let mut irqs = 0;
    for _ in 0..1789773u32 {
        let r = apu.step();
        if r.sample.is_some() {
            samples += 1;
        }
        if r.trigger_irq {
            irqs += 1;
        }
    }
    assert_eq!(samples, 44100);
    assert_eq!(irqs, 60);
}

#[test]
fn triangle_and_noise_basics() {
    let mut t = TriangleWave::new_triangle_wave();
    t.enabled = true;
    t.write_control(0x81);
    t.write_timer_high(0x08);
    t.step_counter();
    assert_eq!(t.counter_value, 1);
    assert_eq!(t.signal(), 15);
    let mut n = Noise::new_noise_channel();
    n.write_mode(0x00);
    assert_eq!(n.timer_period, 4);
    n.step_timer();
    assert_eq!(n.shift_register, 0x4000);
}
