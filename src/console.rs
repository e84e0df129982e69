//! The console: one CPU step drives three PPU dots and one APU cycle per CPU
//! cycle, with interrupts and DMC sample fetches routed between them.
use vstd::prelude::*;

use crate::apu::{ChannelLevels, APU};
use crate::mem::NESMemory;
use crate::controller::Controller;
use crate::cpu::CPU;
use crate::mapper::{Cartridge, MapperEvent};
use crate::ppu::PPU;

verus! {

/// What one console step produced.
pub struct StepOutcome {
    /// CPU cycles consumed.
    pub cycles: u64,
    /// Whether the PPU finished a frame (entered vblank) during the step.
    pub frame_finished: bool,
    /// Channel levels at each output sample point crossed.
    pub samples: Vec<ChannelLevels>,
}

/// Audio samples the host queue may hold before sampling pauses.
pub const AUDIO_QUEUE_HIGH_WATER_MARK: u32 = 4 * 16384;

/// Audio back-pressure: sampling pauses once the host queue holds more than
/// the high-water mark and resumes once it holds less.
pub fn next_sampling(sampling: bool, queued: u32) -> (r: bool)
    ensures
        r == (if sampling {
            queued <= AUDIO_QUEUE_HIGH_WATER_MARK
        } else {
            queued < AUDIO_QUEUE_HIGH_WATER_MARK
        }),
{
    if sampling { queued <= AUDIO_QUEUE_HIGH_WATER_MARK } else { queued < AUDIO_QUEUE_HIGH_WATER_MARK }
}

/// The zero-terminated message of at most `n` bytes from address `a` of a bus.
pub open spec fn message_at(bus: NESMemory, a: int, n: nat) -> Seq<u8>
    decreases n,
{
    if n == 0 || a > 0xffff || bus.peek(a as u16) == 0 {
        Seq::empty()
    } else {
        seq![bus.peek(a as u16)] + message_at(bus, a + 1, (n - 1) as nat)
    }
}

pub struct Console {
    pub cpu: CPU,
    pub bus: NESMemory,
}

/// Signature that blargg-style test ROMs write at $6001-$6003.
pub const TEST_SIGNATURE: [u8; 3] = [0xde, 0xb0, 0x61];
/// Longest message read back from a test ROM.
pub const MAX_MESSAGE: usize = 1024;

impl Console {
    pub open spec fn wf(&self) -> bool {
        self.bus.wf()
    }

    /// Powers the console on with a cartridge; `channel_mask` selects the
    /// APU channels that reach the output.
    pub fn new_nes_console(cart: Cartridge, channel_mask: u8) -> (r: Self)
        requires
            cart.wf(),
        ensures
            r.wf(),
            r.bus.cart == cart,
            r.bus.apu.channel_mask == channel_mask,
    {
        let bus = NESMemory::new_nes_mem(PPU::new_nes_ppu(), APU::new_nes_apu(channel_mask),
            Controller::new_controller(), cart);
        Console { cpu: CPU::new_cpu(), bus }
    }

    /// Resets the CPU (PC from the reset vector) and the APU channels.
    pub fn reset(&mut self)
        requires
            old(self).wf(),
        ensures
            final(self).wf(),
            final(self).cpu.pc == crate::cpu::word(old(self).bus, 0xfffc, 0xfffd),
            final(self).cpu.flags_spec() == 0x24,
            final(self).cpu.sp == crate::cpu::STACK_INIT,
    {
        self.cpu.reset(&mut self.bus);
        self.bus.apu.reset();
    }

    /// One CPU step, then three PPU dots and one APU cycle per CPU cycle.
    #[verifier::spinoff_prover]
    pub fn step(&mut self) -> (r: StepOutcome)
        requires
            old(self).wf(),
        ensures
            final(self).wf(),
            1 <= r.cycles <= 11,
            old(self).cpu.stall > 0 ==> r.cycles == 1,
            old(self).cpu.stall == 0 ==> final(self).cpu.cycles
                == (old(self).cpu.cycles + r.cycles) % 0x1_0000_0000_0000_0000,
            r.frame_finished ==> final(self).bus.ppu.scanline == 241
                && final(self).bus.ppu.regs.nmi_occurred,
    {
        let cycles = self.cpu.step(&mut self.bus);
        let ghost cpu_cycles = self.cpu.cycles;
        self.bus.cart.notify(MapperEvent::CPUTick(cycles));
        let mut frame_finished = false;
        let mut k: u64 = 0;
        while k < 3 * cycles
            invariant
                self.wf(),
                1 <= cycles <= 11,
                k <= 3 * cycles,
                self.cpu.cycles == cpu_cycles,
                frame_finished ==> self.bus.ppu.scanline == 241 && 1 <= self.bus.ppu.dot <= k + 1
                    && self.bus.ppu.regs.nmi_occurred,
            decreases 3 * cycles - k,
        {
            let res = self.bus.ppu.step(&self.bus.cart);
            if res.trigger_irq {
                self.cpu.trigger_irq();
            }
            if res.trigger_nmi {
                self.cpu.trigger_nmi();
            }
            if res.frame_finished {
                frame_finished = true;
            }
            if res.signal_scanline {
                self.bus.cart.notify(MapperEvent::HBlank);
            }
            k = k + 1;
        }
        let mut samples: Vec<ChannelLevels> = Vec::new();
        let mut j: u64 = 0;
        while j < cycles
            invariant
                self.wf(),
                1 <= cycles <= 11,
                self.cpu.cycles == cpu_cycles,
                frame_finished ==> self.bus.ppu.scanline == 241 && self.bus.ppu.regs.nmi_occurred,
            decreases cycles - j,
        {
            if let Some(addr) = self.bus.apu.dmc.sample_request() {
                let b = self.bus.read(addr);
                self.bus.apu.dmc.load_sample(b);
                self.cpu.stall(4);
            }
            let res = self.bus.apu.step();
            if res.trigger_irq {
                self.cpu.trigger_irq();
            }
            if let Some(l) = res.sample {
                samples.push(l);
            }
            j = j + 1;
        }
        StepOutcome { cycles, frame_finished, samples }
    }

    /// Runs until the PPU finishes a frame or `max_steps` steps have passed;
    /// returns the samples produced, whether the frame was finished, and the
    /// number of steps run.
    pub fn run_frame(&mut self, max_steps: u64) -> (r: (Vec<ChannelLevels>, bool, u64))
        requires
            old(self).wf(),
        ensures
            final(self).wf(),
            r.1 ==> final(self).bus.ppu.scanline == 241 && final(self).bus.ppu.regs.nmi_occurred
                && 1 <= r.2 <= max_steps,
            !r.1 ==> r.2 == max_steps,
    {
        let mut samples: Vec<ChannelLevels> = Vec::new();
        let mut n: u64 = 0;
        while n < max_steps
            invariant
                self.wf(),
                n <= max_steps,
            decreases max_steps - n,
        {
            let mut out = self.step();
            samples.append(&mut out.samples);
            if out.frame_finished {
                return (samples, true, n + 1);
            }
            n = n + 1;
        }
        (samples, false, max_steps)
    }

    /// The status of a test ROM that reports through $6000: once the
    /// signature is present and the status byte is below $80, the status.
    pub fn test_status(&mut self) -> (r: Option<u8>)
        requires
            old(self).wf(),
        ensures
            final(self).wf(),
            *final(self) == *old(self),
            r == (if old(self).bus.peek(0x6001) == TEST_SIGNATURE@[0]
                && old(self).bus.peek(0x6002) == TEST_SIGNATURE@[1]
                && old(self).bus.peek(0x6003) == TEST_SIGNATURE@[2]
                && old(self).bus.peek(0x6000) <= 0x7f {
                Some(old(self).bus.peek(0x6000))
            } else {
                None::<u8>
            }),
    {
        let a = self.bus.read(0x6001);
        let b = self.bus.read(0x6002);
        let c = self.bus.read(0x6003);
        if a == TEST_SIGNATURE[0] && b == TEST_SIGNATURE[1] && c == TEST_SIGNATURE[2] {
            let result = self.bus.read(0x6000);
            if result <= 0x7f {
                return Some(result);
            }
        }
        None
    }

    /// The zero-terminated message a test ROM left at an address, at most
    /// `MAX_MESSAGE` bytes; from cartridge space it is read without side effects.
    pub fn read_string(&mut self, address: u16) -> (r: Vec<u8>)
        requires
            old(self).wf(),
        ensures
            final(self).wf(),
            r@.len() <= MAX_MESSAGE,
            forall|i: int| 0 <= i < r@.len() ==> r@[i] != 0,
            address >= 0x6000 ==> *final(self) == *old(self)
                && r@ == message_at(old(self).bus, address as int, MAX_MESSAGE as nat),
    {
        let mut out: Vec<u8> = Vec::new();
        let mut a: u32 = address as u32;
        let ghost quiet_start = address >= 0x6000;
        let mut done = false;
        while out.len() < MAX_MESSAGE && a <= 0xffff && !done
            invariant
                done && quiet_start ==> message_at(self.bus, a as int, (MAX_MESSAGE - out@.len()) as nat)
                    == Seq::<u8>::empty(),
                self.wf(),
                a as int == address as int + out@.len(),
                out@.len() <= MAX_MESSAGE,
                forall|i: int| 0 <= i < out@.len() ==> out@[i] != 0,
                quiet_start == (address >= 0x6000),
                quiet_start ==> *self == *old(self),
                quiet_start ==> out@ + message_at(self.bus, a as int, (MAX_MESSAGE - out@.len()) as nat)
                    == message_at(self.bus, address as int, MAX_MESSAGE as nat),
            decreases MAX_MESSAGE - out@.len(), if done { 0int } else { 1int },
        {
            let b = self.bus.read(a as u16);
            if b == 0 {
                done = true;
                proof {
                    if quiet_start {
                        assert(message_at(self.bus, a as int, (MAX_MESSAGE - out@.len()) as nat)
                            =~= Seq::<u8>::empty());
                    }
                }
            } else {
            let ghost before = out@;
            out.push(b);
            proof {
                if quiet_start {
                    let n = (MAX_MESSAGE - before.len()) as nat;
                    assert(message_at(self.bus, a as int, n)
                        == seq![b] + message_at(self.bus, a + 1, (n - 1) as nat));
                    assert(out@ + message_at(self.bus, a + 1, (n - 1) as nat)
                        =~= before + message_at(self.bus, a as int, n));
                }
            }
            a = a + 1;
            }
        }
        proof {
            if quiet_start {
                let n = (MAX_MESSAGE - out@.len()) as nat;
                if out@.len() == MAX_MESSAGE || a > 0xffff {
                    assert(message_at(self.bus, a as int, n) =~= Seq::<u8>::empty());
                }
                assert(out@ + Seq::<u8>::empty() =~= out@);
            }
        }
        out
    }
}

} // verus!
