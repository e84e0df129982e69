//! Triangle channel: a 32-step ramp gated by a length and a linear counter.
use vstd::prelude::*;
use crate::apu::square::LENGTH_TABLE;

verus! {

broadcast use crate::bits::group_masks;

pub const TRIANGLE_WAVEFORM: [u8; 32] = [
    15, 14, 13, 12, 11, 10, 9, 8,
    7, 6, 5, 4, 3, 2, 1, 0,
    0, 1, 2, 3, 4, 5, 6, 7,
    8, 9, 10, 11, 12, 13, 14, 15,
];

pub struct TriangleWave {
    pub enabled: bool,
    pub length_enabled: bool,
    pub length_value: u8,
    pub counter_reload: bool,
    pub counter_period: u8,
    pub counter_value: u8,
    pub timer_value: u16,
    pub timer_period: u16,
    pub duty_value: u8,
}

impl TriangleWave {
    pub open spec fn wf(&self) -> bool {
        &&& self.duty_value < 32
        &&& self.timer_period <= 0x7ff
    }

    pub open spec fn signal_spec(&self) -> u8 {
        if !self.enabled || self.length_value == 0 || self.counter_value == 0 {
            0
        } else {
            TRIANGLE_WAVEFORM@[self.duty_value as int]
        }
    }

    pub open spec fn initial() -> Self {
        TriangleWave {
            enabled: false,
            length_enabled: false,
            length_value: 0,
            counter_reload: false,
            counter_period: 0,
            counter_value: 0,
            timer_value: 0,
            timer_period: 0,
            duty_value: 0,
        }
    }

    pub fn new_triangle_wave() -> (r: Self)
        ensures
            r.wf(),
            r == Self::initial(),
    {
        TriangleWave {
            enabled: false,
            length_enabled: false,
            length_value: 0,
            counter_reload: false,
            counter_period: 0,
            counter_value: 0,
            timer_value: 0,
            timer_period: 0,
            duty_value: 0,
        }
    }

    pub fn reset(&mut self)
        ensures
            final(self).wf(),
            *final(self) == Self::initial(),
    {
        *self = Self::new_triangle_wave();
    }

    /// The output level (0 to 15).
    pub fn signal(&self) -> (r: u8)
        requires
            self.wf(),
        ensures
            r == self.signal_spec(),
            r < 16,
    {
        if !self.enabled || self.length_value == 0 || self.counter_value == 0 {
            return 0;
        }
        TRIANGLE_WAVEFORM[self.duty_value as usize]
    }

    pub fn step_length(&mut self)
        ensures
            *final(self) == (if old(self).length_enabled && old(self).length_value > 0 {
                TriangleWave { length_value: (old(self).length_value - 1) as u8, ..*old(self) }
            } else {
                *old(self)
            }),
    {
        if self.length_enabled && self.length_value > 0 {
            self.length_value = self.length_value - 1;
        }
    }

    /// The sequencer advances only while both counters are non-zero.
    pub fn step_timer(&mut self)
        requires
            old(self).wf(),
        ensures
            final(self).wf(),
            *final(self) == (if old(self).timer_value == 0 {
                TriangleWave {
                    timer_value: (old(self).timer_period + 1) as u16,
                    duty_value: if old(self).length_value > 0 && old(self).counter_value > 0 {
                        ((old(self).duty_value + 1) % 32) as u8
                    } else {
                        old(self).duty_value
                    },
                    ..*old(self)
                }
            } else {
                TriangleWave { timer_value: (old(self).timer_value - 1) as u16, ..*old(self) }
            }),
    {
        if self.timer_value == 0 {
            self.timer_value = self.timer_period + 1;
            if self.length_value > 0 && self.counter_value > 0 {
                self.duty_value = (self.duty_value + 1) % 32;
            }
        } else {
            self.timer_value = self.timer_value - 1;
        }
    }

    /// Clocks the linear counter.
    pub fn step_counter(&mut self)
        ensures
            *final(self) == (TriangleWave {
                counter_value: if old(self).counter_reload {
                    old(self).counter_period
                } else if old(self).counter_value > 0 {
                    (old(self).counter_value - 1) as u8
                } else {
                    0
                },
                counter_reload: if old(self).length_enabled { false } else { old(self).counter_reload },
                ..*old(self)
            }),
    {
        if self.counter_reload {
            self.counter_value = self.counter_period;
        } else if self.counter_value > 0 {
            self.counter_value = self.counter_value - 1;
        }
        if self.length_enabled {
            self.counter_reload = false;
        }
    }

    /// $4008: length-enable flag and linear counter reload value.
    pub fn write_control(&mut self, val: u8)
        ensures
            *final(self) == (TriangleWave {
                length_enabled: val & 0x80 != 0,
                counter_period: val & 0x7f,
                ..*old(self)
            }),
    {
        self.length_enabled = val & 0x80 != 0;
        self.counter_period = val & 0x7f;
    }

    /// $400A: low eight bits of the period.
    pub fn write_timer_low(&mut self, val: u8)
        requires
            old(self).wf(),
        ensures
            final(self).wf(),
            *final(self) == (TriangleWave {
                timer_period: (old(self).timer_period & 0xff00) | (val as u16),
                ..*old(self)
            }),
    {
        let p = self.timer_period;
        assert(p <= 0x7ff ==> (p & 0xff00) | (val as u16) <= 0x7ff) by (bit_vector);
        self.timer_period = (p & 0xff00) | (val as u16);
    }

    /// $400B: length load and high three bits of the period.
    pub fn write_timer_high(&mut self, val: u8)
        requires
            old(self).wf(),
        ensures
            final(self).wf(),
            *final(self) == (TriangleWave {
                length_value: LENGTH_TABLE@[((val & 0xf8) >> 3u8) as int],
                timer_period: (old(self).timer_period & 0x00ff) | (((val & 0x07) as u16) << 8u16),
                counter_reload: true,
                ..*old(self)
            }),
    {
        let length_index = (val & 0xf8) >> 3u8;
        assert((val & 0xf8) >> 3u8 < 32) by (bit_vector);
        let period_high = (val & 0x07) as u16;
        let p = self.timer_period;
        assert(period_high <= 7 ==> (p & 0x00ff) | (period_high << 8u16) <= 0x7ff) by (bit_vector);
        self.length_value = LENGTH_TABLE[length_index as usize];
        self.timer_period = (p & 0x00ff) | (period_high << 8u16);
        self.counter_reload = true;
    }
}

} // verus!
