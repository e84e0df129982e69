//! Delta modulation channel: a 7-bit level nudged by sample bits fetched
//! from CPU memory. The fetch itself is made by the console, which asks
//! `sample_request` and answers with `load_sample`.
use vstd::prelude::*;

verus! {

broadcast use crate::bits::group_masks;

pub const TIMER_TABLE: [u16; 16] = [
    0x01AC, 0x017C, 0x0154, 0x0140,
    0x011E, 0x00FE, 0x00E2, 0x00D6,
    0x00BE, 0x00A0, 0x008E, 0x0080,
    0x006A, 0x0054, 0x0048, 0x0036,
];

pub struct DMC {
    pub enabled: bool,
    /// The output level (0 to 127).
    pub buffer: u8,
    pub irq_enabled: bool,
    pub irq_flag: bool,
    pub dmc_loop: bool,
    pub bit_count: u8,
    pub shift_register: u8,
    pub sample_address: u16,
    pub current_address: u16,
    pub sample_length: u16,
    pub current_length: u16,
    pub timer_period: u16,
    pub timer_value: u16,
}

impl DMC {
    pub open spec fn wf(&self) -> bool {
        &&& self.buffer < 128
        &&& self.bit_count <= 8
        &&& self.sample_address >= 0x8000
        &&& self.current_address >= 0x8000
    }

    pub open spec fn initial() -> Self {
        DMC {
            enabled: false,
            buffer: 0,
            irq_enabled: false,
            irq_flag: false,
            dmc_loop: false,
            bit_count: 0,
            shift_register: 0,
            sample_address: 0xc000,
            current_address: 0xc000,
            sample_length: 0,
            current_length: 0,
            timer_period: 0,
            timer_value: 0,
        }
    }

    pub fn new_dmc_channel() -> (r: Self)
        ensures
            r.wf(),
            r == Self::initial(),
    {
        DMC {
            enabled: false,
            buffer: 0,
            irq_enabled: false,
            irq_flag: false,
            dmc_loop: false,
            bit_count: 0,
            shift_register: 0,
            sample_address: 0xc000,
            current_address: 0xc000,
            sample_length: 0,
            current_length: 0,
            timer_period: 0,
            timer_value: 0,
        }
    }

    pub fn signal(&self) -> (r: u8)
        requires
            self.wf(),
        ensures
            r == (if self.enabled { self.buffer } else { 0 }),
            r < 128,
    {
        if !self.enabled {
            return 0;
        }
        self.buffer
    }

    pub fn irq_flag(&self) -> (r: bool)
        ensures
            r == self.irq_flag,
    {
        self.irq_flag
    }

    pub fn clear_irq_flag(&mut self)
        ensures
            *final(self) == (DMC { irq_flag: false, ..*old(self) }),
    {
        self.irq_flag = false;
    }

    /// Restarts the sample from its start address and length.
    pub fn reset(&mut self)
        requires
            old(self).wf(),
        ensures
            final(self).wf(),
            *final(self) == (DMC {
                current_address: old(self).sample_address,
                current_length: old(self).sample_length,
                ..*old(self)
            }),
    {
        self.current_address = self.sample_address;
        self.current_length = self.sample_length;
    }

    /// $4010: IRQ enable, loop, rate index.
    pub fn write_control(&mut self, val: u8)
        ensures
            *final(self) == (DMC {
                irq_enabled: val & 0x80 != 0,
                irq_flag: if val & 0x80 != 0 { old(self).irq_flag } else { false },
                dmc_loop: val & 0x40 != 0,
                timer_period: TIMER_TABLE@[(val & 0x0f) as int],
                ..*old(self)
            }),
    {
        let irq = val & 0x80 != 0;
        self.irq_enabled = irq;
        if !irq {
            self.irq_flag = false;
        }
        self.dmc_loop = val & 0x40 != 0;
        self.timer_period = TIMER_TABLE[(val & 0x0f) as usize];
    }

    /// $4011: direct load of the output level.
    pub fn write_dac(&mut self, val: u8)
        requires
            old(self).wf(),
        ensures
            final(self).wf(),
            *final(self) == (DMC { buffer: val & 0x7f, ..*old(self) }),
    {
        self.buffer = val & 0x7f;
    }

    /// $4012: sample start address, $C000 + 64 * val.
    pub fn write_address(&mut self, val: u8)
        requires
            old(self).wf(),
        ensures
            final(self).wf(),
            *final(self) == (DMC { sample_address: (0xc000 + 64 * val) as u16, ..*old(self) }),
    {
        self.sample_address = 0xc000 + 64 * (val as u16);
    }

    /// $4013: sample length, 16 * val + 1 bytes.
    pub fn write_length(&mut self, val: u8)
        ensures
            *final(self) == (DMC { sample_length: (16 * val + 1) as u16, ..*old(self) }),
    {
        self.sample_length = 16 * (val as u16) + 1;
    }

    /// The CPU address of the next sample byte, when the reader needs one.
    pub fn sample_request(&self) -> (r: Option<u16>)
        requires
            self.wf(),
        ensures
            r matches Some(a) ==> a >= 0x8000,
            r == (if self.enabled && self.current_length > 0 && self.bit_count == 0 {
                Some(self.current_address)
            } else {
                None
            }),
    {
        if self.enabled && self.current_length > 0 && self.bit_count == 0 {
            Some(self.current_address)
        } else {
            None
        }
    }

    /// Takes the fetched sample byte: eight bits to shift out, the address
    /// moves on (wrapping to $8000) and the remaining length counts down;
    /// at the end the sample loops or raises the IRQ flag.
    pub fn load_sample(&mut self, byte: u8)
        requires
            old(self).wf(),
            old(self).current_length > 0,
        ensures
            final(self).wf(),
            final(self).shift_register == byte,
            final(self).bit_count == 8,
            ({
                let len = (old(self).current_length - 1) as u16;
                let next = if old(self).current_address == 0xffff {
                    0x8000u16
                } else {
                    (old(self).current_address + 1) as u16
                };
                &&& final(self).current_length == (if len == 0 && old(self).dmc_loop {
                    old(self).sample_length
                } else {
                    len
                })
                &&& final(self).current_address == (if len == 0 && old(self).dmc_loop {
                    old(self).sample_address
                } else {
                    next
                })
                &&& final(self).irq_flag == (old(self).irq_flag || (len == 0 && old(self).irq_enabled))
            }),
            final(self).buffer == old(self).buffer,
            final(self).enabled == old(self).enabled,
    {
        self.shift_register = byte;
        self.bit_count = 8;
        self.current_address = if self.current_address == 0xffff {
            0x8000
        } else {
            self.current_address + 1
        };
        self.current_length = self.current_length - 1;
        if self.current_length == 0 {
            if self.dmc_loop {
                self.reset();
            }
            if self.irq_enabled {
                self.irq_flag = true;
            }
        }
    }

    /// Shifts out one sample bit: a 1 raises the level by 2, a 0 lowers it
    /// by 2, staying within 0 to 127.
    fn step_shifter(&mut self)
        requires
            old(self).wf(),
        ensures
            final(self).wf(),
            old(self).bit_count == 0 ==> *final(self) == *old(self),
            old(self).bit_count > 0 ==> *final(self) == (DMC {
                buffer: if old(self).shift_register & 1 != 0 {
                    if old(self).buffer <= 125 { (old(self).buffer + 2) as u8 } else { old(self).buffer }
                } else {
                    if old(self).buffer >= 2 { (old(self).buffer - 2) as u8 } else { old(self).buffer }
                },
                shift_register: old(self).shift_register >> 1u8,
                bit_count: (old(self).bit_count - 1) as u8,
                ..*old(self)
            }),
    {
        if self.bit_count == 0 {
            return;
        }
        if self.shift_register & 1 != 0 {
            if self.buffer <= 125 {
                self.buffer = self.buffer + 2;
            }
        } else {
            if self.buffer >= 2 {
                self.buffer = self.buffer - 2;
            }
        }
        self.shift_register = self.shift_register >> 1u8;
        self.bit_count = self.bit_count - 1;
    }

    pub fn step_timer(&mut self)
        requires
            old(self).wf(),
        ensures
            final(self).wf(),
            !old(self).enabled ==> *final(self) == *old(self),
            old(self).enabled && old(self).timer_value > 0 ==> *final(self) == (DMC {
                timer_value: (old(self).timer_value - 1) as u16,
                ..*old(self)
            }),
            old(self).enabled && old(self).timer_value == 0 ==> final(self).timer_value
                == old(self).timer_period,
    {
        if !self.enabled {
            return;
        }
        if self.timer_value == 0 {
            self.timer_value = self.timer_period;
            self.step_shifter();
        } else {
            self.timer_value = self.timer_value - 1;
        }
    }
}

} // verus!
