//! The audio processing unit: two pulse channels, a triangle, a noise
//! channel, the delta-modulation channel and the frame sequencer. The APU
//! produces the five channel levels at the output sample rate; mixing them
//! into an analog-like signal is left to the host.
use vstd::prelude::*;

pub mod dmc;
pub mod noise;
pub mod square;
pub mod triangle;

use crate::apu::dmc::DMC;
use crate::apu::noise::Noise;
use crate::apu::square::SquareWave;
use crate::apu::triangle::TriangleWave;

verus! {

broadcast use crate::bits::group_masks;

pub const CPU_CLOCK: u64 = 1789773;
pub const SAMPLE_RATE: u64 = 44100;
/// Frame sequencer steps per second.
pub const SEQUENCER_RATE: u64 = 240;

#[derive(Clone, Copy, Debug, PartialEq, Eq, Structural)]
pub enum SequencerMode {
    FourStep,
    FiveStep,
}

/// The five channel outputs at one sample point.
#[derive(Clone, Copy, Debug, PartialEq, Eq, Structural)]
pub struct ChannelLevels {
    pub square1: u8,
    pub square2: u8,
    pub triangle: u8,
    pub noise: u8,
    pub dmc: u8,
}

impl ChannelLevels {
    pub open spec fn wf(&self) -> bool {
        self.square1 < 16 && self.square2 < 16 && self.triangle < 16 && self.noise < 16
            && self.dmc < 128
    }

    /// Index into the pulse mixing table: the sum of the two pulse levels.
    pub fn pulse_index(&self) -> (r: usize)
        requires
            self.wf(),
        ensures
            r == self.square1 + self.square2,
            r < 31,
    {
        self.square1 as usize + self.square2 as usize
    }

    /// Index into the triangle/noise/DMC mixing table: 3t + 2n + d.
    pub fn tnd_index(&self) -> (r: usize)
        requires
            self.wf(),
        ensures
            r == 3 * self.triangle + 2 * self.noise + self.dmc,
            r < 203,
    {
        3 * self.triangle as usize + 2 * self.noise as usize + self.dmc as usize
    }
}

/// What one APU cycle reports: an IRQ request, and the channel levels when
/// the cycle crosses an output sample boundary.
#[derive(Clone, Copy, Debug, PartialEq, Eq, Structural)]
pub struct StepResult {
    pub trigger_irq: bool,
    pub sample: Option<ChannelLevels>,
}

/// Number of whole periods of a rate (per second) elapsed after `cycles` CPU cycles.
pub open spec fn periods(cycles: u64, rate: u64) -> int {
    (cycles as int) * (rate as int) / (CPU_CLOCK as int)
}

pub struct APU {
    pub square1: SquareWave,
    pub square2: SquareWave,
    pub triangle: TriangleWave,
    pub noise: Noise,
    pub dmc: DMC,
    pub cycles: u64,
    pub sequencer_mode: SequencerMode,
    pub sequencer_value: u8,
    /// Whether the 4-step sequence raises an IRQ on its last step.
    pub irq: bool,
    /// Which channels reach the output: bit 0 pulse 1, bit 1 pulse 2,
    /// bit 2 triangle, bit 3 noise, bit 4 DMC.
    pub channel_mask: u8,
}

/// Which boundary a cycle count crosses, computed without overflow.
fn period_index(cycles: u64, rate: u64) -> (r: u128)
    requires
        rate <= SAMPLE_RATE,
    ensures
        r as int == periods(cycles, rate),
{
    assert((cycles as int) * (rate as int) <= 0xffff_ffff_ffff_ffff * 44100) by (nonlinear_arith)
        requires
            rate <= 44100,
            cycles <= 0xffff_ffff_ffff_ffff,
    ;
    (cycles as u128) * (rate as u128) / (CPU_CLOCK as u128)
}

impl APU {
    pub open spec fn wf(&self) -> bool {
        &&& self.square1.wf()
        &&& self.square2.wf()
        &&& self.triangle.wf()
        &&& self.noise.wf()
        &&& self.dmc.wf()
        &&& self.sequencer_value < 5
    }

    pub open spec fn status_spec(&self) -> u8 {
        ((if self.square1.length_value > 0 { 1int } else { 0 })
            + (if self.square2.length_value > 0 { 2int } else { 0 })
            + (if self.triangle.length_value > 0 { 4int } else { 0 })
            + (if self.noise.length_value > 0 { 8int } else { 0 })
            + (if self.dmc.buffer != 0 { 16int } else { 0 })) as u8
    }

    pub fn new_nes_apu(channel_mask: u8) -> (r: Self)
        ensures
            r.wf(),
            r.cycles == 0,
            r.sequencer_mode == SequencerMode::FourStep,
            r.sequencer_value == 0,
            !r.irq,
            r.channel_mask == channel_mask,
            r.square1 == SquareWave::new_square_wave_spec(1),
            r.square2 == SquareWave::new_square_wave_spec(2),
            r.triangle == TriangleWave::initial(),
            r.noise == Noise::initial(),
            r.dmc == DMC::initial(),
    {
        APU {
            square1: SquareWave::new_square_wave(1),
            square2: SquareWave::new_square_wave(2),
            triangle: TriangleWave::new_triangle_wave(),
            noise: Noise::new_noise_channel(),
            dmc: DMC::new_dmc_channel(),
            cycles: 0,
            sequencer_mode: SequencerMode::FourStep,
            sequencer_value: 0,
            irq: false,
            channel_mask,
        }
    }

    /// Returns the channels to their power-on state; the DMC restarts its sample.
    pub fn reset(&mut self)
        requires
            old(self).wf(),
        ensures
            final(self).wf(),
            final(self).square1 == SquareWave::new_square_wave_spec(old(self).square1.channel),
            final(self).square2 == SquareWave::new_square_wave_spec(old(self).square2.channel),
            final(self).triangle == TriangleWave::initial(),
            final(self).noise == Noise::initial(),
            final(self).dmc.current_address == old(self).dmc.sample_address,
            final(self).dmc.current_length == old(self).dmc.sample_length,
            final(self).cycles == old(self).cycles,
            final(self).sequencer_mode == old(self).sequencer_mode,
    {
        self.square1.reset();
        self.square2.reset();
        self.triangle.reset();
        self.noise.reset();
        self.dmc.reset();
    }

    /// $4015 read: which channels still have length (and DMC output) left.
    pub fn read_status(&self) -> (r: u8)
        ensures
            r == self.status_spec(),
    {
        let mut rv: u8 = 0;
        if self.square1.length_value > 0 {
            rv = rv + 1;
        }
        if self.square2.length_value > 0 {
            rv = rv + 2;
        }
        if self.triangle.length_value > 0 {
            rv = rv + 4;
        }
        if self.noise.length_value > 0 {
            rv = rv + 8;
        }
        if self.dmc.buffer != 0 {
            rv = rv + 16;
        }
        rv
    }

    pub fn read(&self, address: u16) -> (r: u8)
        ensures
            r == (if address == 0x4015 { self.status_spec() } else { 0 }),
    {
        if address == 0x4015 { self.read_status() } else { 0 }
    }

    fn step_envelopes(&mut self)
        requires
            old(self).wf(),
        ensures
            final(self).wf(),
            final(self).dmc == old(self).dmc,
            final(self).cycles == old(self).cycles,
            final(self).sequencer_mode == old(self).sequencer_mode,
            final(self).sequencer_value == old(self).sequencer_value,
            final(self).irq == old(self).irq,
            final(self).channel_mask == old(self).channel_mask,
    {
        self.square1.step_envelope();
        self.square2.step_envelope();
        self.triangle.step_counter();
        self.noise.step_envelope();
    }

    fn step_sweeps(&mut self)
        requires
            old(self).wf(),
        ensures
            final(self).wf(),
            final(self).dmc == old(self).dmc,
            final(self).cycles == old(self).cycles,
            final(self).sequencer_mode == old(self).sequencer_mode,
            final(self).sequencer_value == old(self).sequencer_value,
            final(self).irq == old(self).irq,
            final(self).channel_mask == old(self).channel_mask,
    {
        self.square1.step_sweep();
        self.square2.step_sweep();
    }

    fn step_lengths(&mut self)
        requires
            old(self).wf(),
        ensures
            final(self).wf(),
            final(self).dmc == old(self).dmc,
            final(self).cycles == old(self).cycles,
            final(self).sequencer_mode == old(self).sequencer_mode,
            final(self).sequencer_value == old(self).sequencer_value,
            final(self).irq == old(self).irq,
            final(self).channel_mask == old(self).channel_mask,
    {
        self.square1.step_length();
        self.square2.step_length();
        self.triangle.step_length();
        self.noise.step_length();
    }

    /// $4017: sequencer mode (bit 7) and IRQ inhibit (bit 6); selecting the
    /// 5-step mode clocks every unit at once.
    pub fn write_frame_counter(&mut self, val: u8)
        requires
            old(self).wf(),
        ensures
            final(self).wf(),
            final(self).sequencer_mode == (if val & 0x80 == 0 {
                SequencerMode::FourStep
            } else {
                SequencerMode::FiveStep
            }),
            final(self).irq == (val & 0x40 == 0),
            final(self).cycles == old(self).cycles,
            final(self).sequencer_value == old(self).sequencer_value,
            final(self).channel_mask == old(self).channel_mask,
    {
        self.sequencer_mode = if val & 0x80 == 0 {
            SequencerMode::FourStep
        } else {
            SequencerMode::FiveStep
        };
        self.irq = val & 0x40 == 0;
        if val & 0x80 != 0 {
            self.step_envelopes();
            self.step_sweeps();
            self.step_lengths();
        }
    }

    /// $4015 write: channel enables; a disabled channel's length drops to zero.
    pub fn write_control(&mut self, val: u8)
        requires
            old(self).wf(),
        ensures
            final(self).wf(),
            final(self).square1.enabled == (val & 1 != 0),
            final(self).square2.enabled == (val & 2 != 0),
            final(self).triangle.enabled == (val & 4 != 0),
            final(self).noise.enabled == (val & 8 != 0),
            final(self).dmc.enabled == (val & 16 != 0),
            final(self).square1.length_value == (if val & 1 != 0 { old(self).square1.length_value } else { 0 }),
            final(self).square2.length_value == (if val & 2 != 0 { old(self).square2.length_value } else { 0 }),
            final(self).triangle.length_value == (if val & 4 != 0 { old(self).triangle.length_value } else { 0 }),
            final(self).noise.length_value == (if val & 8 != 0 { old(self).noise.length_value } else { 0 }),
            final(self).cycles == old(self).cycles,
            final(self).sequencer_mode == old(self).sequencer_mode,
            final(self).sequencer_value == old(self).sequencer_value,
            final(self).irq == old(self).irq,
            final(self).channel_mask == old(self).channel_mask,
    {
        self.square1.enabled = val & 1 != 0;
        self.square2.enabled = val & 2 != 0;
        self.triangle.enabled = val & 4 != 0;
        self.noise.enabled = val & 8 != 0;
        self.dmc.enabled = val & 16 != 0;
        if !self.square1.enabled {
            self.square1.length_value = 0;
        }
        if !self.square2.enabled {
            self.square2.length_value = 0;
        }
        if !self.triangle.enabled {
            self.triangle.length_value = 0;
        }
        if !self.noise.enabled {
            self.noise.length_value = 0;
        }
    }

    /// A CPU write to $4000-$4013, $4015 or $4017.
    #[verifier::spinoff_prover]
    pub fn write(&mut self, address: u16, val: u8)
        requires
            old(self).wf(),
        ensures
            final(self).wf(),
            final(self).cycles == old(self).cycles,
            final(self).channel_mask == old(self).channel_mask,
            address == 0x4015 ==> final(self).square1.enabled == (val & 1 != 0)
                && final(self).dmc.enabled == (val & 16 != 0),
            address == 0x4017 ==> final(self).irq == (val & 0x40 == 0),
            0x4000 <= address <= 0x4003 ==> final(self).square2 == old(self).square2
                && final(self).triangle == old(self).triangle && final(self).noise == old(self).noise
                && final(self).dmc == old(self).dmc,
            0x4004 <= address <= 0x4007 ==> final(self).square1 == old(self).square1
                && final(self).triangle == old(self).triangle && final(self).noise == old(self).noise
                && final(self).dmc == old(self).dmc,
            0x4008 <= address <= 0x400b ==> final(self).square1 == old(self).square1
                && final(self).square2 == old(self).square2 && final(self).noise == old(self).noise
                && final(self).dmc == old(self).dmc,
            0x400c <= address <= 0x400f ==> final(self).square1 == old(self).square1
                && final(self).square2 == old(self).square2 && final(self).triangle == old(self).triangle
                && final(self).dmc == old(self).dmc,
            0x4010 <= address <= 0x4013 ==> final(self).square1 == old(self).square1
                && final(self).square2 == old(self).square2 && final(self).triangle == old(self).triangle
                && final(self).noise == old(self).noise,
            address == 0x4003 ==> final(self).square1.length_value
                == crate::apu::square::LENGTH_TABLE@[((val & 0xf8) >> 3u8) as int],
            address == 0x4007 ==> final(self).square2.length_value
                == crate::apu::square::LENGTH_TABLE@[((val & 0xf8) >> 3u8) as int],
            address == 0x400b ==> final(self).triangle.length_value
                == crate::apu::square::LENGTH_TABLE@[((val & 0xf8) >> 3u8) as int],
            address == 0x4011 ==> final(self).dmc.buffer == val & 0x7f,
            !(0x4000 <= address <= 0x4013 || address == 0x4015 || address == 0x4017)
                ==> *final(self) == *old(self),
    {
        if address == 0x4000 {
            self.square1.write_control(val);
        } else if address == 0x4001 {
            self.square1.write_sweep(val);
        } else if address == 0x4002 {
            self.square1.write_timer_low(val);
        } else if address == 0x4003 {
            self.square1.write_timer_high(val);
        } else if address == 0x4004 {
            self.square2.write_control(val);
        } else if address == 0x4005 {
            self.square2.write_sweep(val);
        } else if address == 0x4006 {
            self.square2.write_timer_low(val);
        } else if address == 0x4007 {
            self.square2.write_timer_high(val);
        } else if address == 0x4008 {
            self.triangle.write_control(val);
        } else if address == 0x400a {
            self.triangle.write_timer_low(val);
        } else if address == 0x400b {
            self.triangle.write_timer_high(val);
        } else if address == 0x400c {
            self.noise.write_control(val);
        } else if address == 0x400e {
            self.noise.write_mode(val);
        } else if address == 0x400f {
            self.noise.write_length_index(val);
        } else if address == 0x4010 {
            self.dmc.write_control(val);
        } else if address == 0x4011 {
            self.dmc.write_dac(val);
        } else if address == 0x4012 {
            self.dmc.write_address(val);
        } else if address == 0x4013 {
            self.dmc.write_length(val);
        } else if address == 0x4015 {
            self.write_control(val);
        } else if address == 0x4017 {
            self.write_frame_counter(val);
        }
    }

    fn step_timers(&mut self)
        requires
            old(self).wf(),
        ensures
            final(self).wf(),
            final(self).cycles == old(self).cycles,
            final(self).sequencer_mode == old(self).sequencer_mode,
            final(self).sequencer_value == old(self).sequencer_value,
            final(self).irq == old(self).irq,
            final(self).channel_mask == old(self).channel_mask,
    {
        self.triangle.step_timer();
        if self.cycles % 2 == 0 {
            self.square1.step_timer();
            self.square2.step_timer();
            self.noise.step_timer();
            self.dmc.step_timer();
        }
    }

    /// One frame sequencer step. In 4-step mode envelopes clock on every
    /// step, lengths and sweeps on steps 1 and 3, and step 3 raises the IRQ
    /// unless inhibited; the 5-step mode never raises it.
    #[verifier::spinoff_prover]
    fn step_sequencer(&mut self) -> (irq: bool)
        requires
            old(self).wf(),
        ensures
            final(self).wf(),
            final(self).sequencer_value == (match old(self).sequencer_mode {
                SequencerMode::FourStep => (old(self).sequencer_value + 1) % 4,
                SequencerMode::FiveStep => (old(self).sequencer_value + 1) % 5,
            }),
            irq == (old(self).sequencer_mode == SequencerMode::FourStep
                && final(self).sequencer_value == 3 && old(self).irq),
            final(self).cycles == old(self).cycles,
            final(self).sequencer_mode == old(self).sequencer_mode,
            final(self).irq == old(self).irq,
            final(self).channel_mask == old(self).channel_mask,
    {
        let mut irq = false;
        match self.sequencer_mode {
            SequencerMode::FiveStep => {
                self.sequencer_value = (self.sequencer_value + 1) % 5;
                if self.sequencer_value == 1 || self.sequencer_value == 3 {
                    self.step_envelopes();
                    self.step_sweeps();
                    self.step_lengths();
                } else if self.sequencer_value == 0 || self.sequencer_value == 2 {
                    self.step_envelopes();
                }
            },
            SequencerMode::FourStep => {
                self.sequencer_value = (self.sequencer_value + 1) % 4;
                if self.sequencer_value == 0 || self.sequencer_value == 2 {
                    self.step_envelopes();
                } else {
                    self.step_envelopes();
                    self.step_sweeps();
                    self.step_lengths();
                    if self.sequencer_value == 3 && self.irq {
                        irq = true;
                    }
                }
            },
        }
        irq
    }

    /// The channel levels, with channels outside the mask at zero.
    pub fn levels(&self) -> (r: ChannelLevels)
        requires
            self.wf(),
        ensures
            r.wf(),
            r.square1 == (if self.channel_mask & 1 != 0 { self.square1.signal_spec() } else { 0 }),
            r.square2 == (if self.channel_mask & 2 != 0 { self.square2.signal_spec() } else { 0 }),
            r.triangle == (if self.channel_mask & 4 != 0 { self.triangle.signal_spec() } else { 0 }),
            r.noise == (if self.channel_mask & 8 != 0 { self.noise.signal_spec() } else { 0 }),
            r.dmc == (if self.channel_mask & 16 != 0 && self.dmc.enabled { self.dmc.buffer } else { 0 }),
    {
        ChannelLevels {
            square1: if self.channel_mask & 1 != 0 { self.square1.signal() } else { 0 },
            square2: if self.channel_mask & 2 != 0 { self.square2.signal() } else { 0 },
            triangle: if self.channel_mask & 4 != 0 { self.triangle.signal() } else { 0 },
            noise: if self.channel_mask & 8 != 0 { self.noise.signal() } else { 0 },
            dmc: if self.channel_mask & 16 != 0 { self.dmc.signal() } else { 0 },
        }
    }

    /// One CPU cycle of the APU: channel timers, the frame sequencer when a
    /// 240 Hz boundary is crossed, and the channel levels when a 44.1 kHz
    /// sample boundary is crossed.
    #[verifier::spinoff_prover]
    pub fn step(&mut self) -> (res: StepResult)
        requires
            old(self).wf(),
        ensures
            final(self).wf(),
            final(self).cycles == (old(self).cycles + 1) % 0x1_0000_0000_0000_0000,
            ({
                let crossed = periods(old(self).cycles, SEQUENCER_RATE) != periods(final(self).cycles, SEQUENCER_RATE);
                let next: int = match old(self).sequencer_mode {
                    SequencerMode::FourStep => (old(self).sequencer_value + 1) % 4,
                    SequencerMode::FiveStep => (old(self).sequencer_value + 1) % 5,
                };
                &&& res.trigger_irq == (crossed && old(self).sequencer_mode == SequencerMode::FourStep
                    && old(self).irq && next == 3)
                &&& final(self).sequencer_value == (if crossed { next } else { old(self).sequencer_value as int })
                &&& final(self).sequencer_mode == old(self).sequencer_mode
                &&& final(self).irq == old(self).irq
            }),
            res.sample.is_some() == (periods(old(self).cycles, SAMPLE_RATE)
                != periods(final(self).cycles, SAMPLE_RATE)),
            match res.sample {
                Some(l) => l.wf() && l == final(self).levels_spec(),
                None => true,
            },
            final(self).channel_mask == old(self).channel_mask,
    {
        let cycle1 = self.cycles;
        self.cycles = self.cycles.wrapping_add(1);
        let cycle2 = self.cycles;
        self.step_timers();
        let mut res = StepResult { trigger_irq: false, sample: None };
        if period_index(cycle1, SEQUENCER_RATE) != period_index(cycle2, SEQUENCER_RATE) {
            res.trigger_irq = self.step_sequencer();
        }
        if period_index(cycle1, SAMPLE_RATE) != period_index(cycle2, SAMPLE_RATE) {
            res.sample = Some(self.levels());
        }
        res
    }

    pub open spec fn levels_spec(&self) -> ChannelLevels {
        ChannelLevels {
            square1: if self.channel_mask & 1 != 0 { self.square1.signal_spec() } else { 0 },
            square2: if self.channel_mask & 2 != 0 { self.square2.signal_spec() } else { 0 },
            triangle: if self.channel_mask & 4 != 0 { self.triangle.signal_spec() } else { 0 },
            noise: if self.channel_mask & 8 != 0 { self.noise.signal_spec() } else { 0 },
            dmc: if self.channel_mask & 16 != 0 && self.dmc.enabled { self.dmc.buffer } else { 0 },
        }
    }
}

/// A pulse channel whose period is below 8 is silent: the pulse mix then
/// depends on the other pulse channel alone.
pub proof fn lemma_short_period_silent(sq: SquareWave, other: u8)
    requires
        sq.timer_period < 8,
    ensures
        sq.signal_spec() == 0,
        sq.signal_spec() + other == other,
{
}

} // verus!
