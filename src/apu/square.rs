//! Pulse (square wave) channel.
use vstd::prelude::*;

verus! {

broadcast use crate::bits::group_masks;

/// Length-counter load values, indexed by the 5-bit field of the fourth register.
pub const LENGTH_TABLE: [u8; 32] = [
    10, 254, 20, 2, 40, 4, 80, 6,
    160, 8, 60, 10, 14, 12, 26, 14,
    12, 16, 24, 18, 48, 20, 96, 22,
    192, 24, 72, 26, 16, 28, 32, 30,
];

/// The four duty sequences (12.5%, 25%, 50%, 75%), eight steps each.
pub const DUTY_TABLE: [u8; 32] = [
    0, 1, 0, 0, 0, 0, 0, 0,
    0, 1, 1, 0, 0, 0, 0, 0,
    0, 1, 1, 1, 1, 0, 0, 0,
    1, 0, 0, 1, 1, 1, 1, 1,
];

pub struct SquareWave {
    pub enabled: bool,
    /// 1 or 2; the first channel's sweep subtracts one more when negating.
    pub channel: u8,
    pub length_enabled: bool,
    pub length_value: u8,
    pub timer_period: u16,
    pub timer_value: u16,
    pub duty_mode: u8,
    pub duty_value: u8,
    pub sweep_enabled: bool,
    pub sweep_negate: bool,
    pub sweep_reload: bool,
    pub sweep_period: u8,
    pub sweep_shift: u8,
    pub sweep_value: u8,
    pub envelope_enabled: bool,
    pub envelope_start: bool,
    pub envelope_loop: bool,
    pub envelope_volume: u8,
    pub envelope_period: u8,
    pub envelope_value: u8,
    pub constant_volume: u8,
}

impl SquareWave {
    pub open spec fn wf(&self) -> bool {
        &&& self.duty_mode < 4
        &&& self.duty_value < 8
        &&& self.sweep_period < 8
        &&& self.sweep_shift < 8
        &&& self.envelope_period < 16
        &&& self.envelope_volume < 16
        &&& self.constant_volume < 16
    }

    /// The channel's output level (0 to 15).
    pub open spec fn signal_spec(&self) -> u8 {
        if !self.enabled || self.timer_period > 0x7ff || self.length_value == 0
            || self.timer_period < 8 || DUTY_TABLE@[self.duty_mode * 8 + self.duty_value] == 0 {
            0
        } else if self.envelope_enabled {
            self.envelope_volume
        } else {
            self.constant_volume
        }
    }

    pub fn new_square_wave(channel: u8) -> (r: Self)
        ensures
            r.wf(),
            r == Self::new_square_wave_spec(channel),
            r.signal_spec() == 0,
    {
        SquareWave {
            enabled: false,
            channel,
            length_enabled: false,
            length_value: 0,
            timer_period: 0,
            timer_value: 0,
            duty_mode: 0,
            duty_value: 0,
            sweep_enabled: false,
            sweep_negate: false,
            sweep_reload: false,
            sweep_period: 0,
            sweep_shift: 0,
            sweep_value: 0,
            envelope_enabled: false,
            envelope_start: false,
            envelope_loop: false,
            envelope_volume: 0,
            envelope_period: 0,
            envelope_value: 0,
            constant_volume: 0,
        }
    }

    /// Returns every field but the channel number to its power-on value.
    pub fn reset(&mut self)
        ensures
            *final(self) == Self::new_square_wave_spec(old(self).channel),
    {
        *self = Self::new_square_wave(self.channel);
    }

    pub open spec fn new_square_wave_spec(channel: u8) -> Self {
        SquareWave {
            enabled: false,
            channel,
            length_enabled: false,
            length_value: 0,
            timer_period: 0,
            timer_value: 0,
            duty_mode: 0,
            duty_value: 0,
            sweep_enabled: false,
            sweep_negate: false,
            sweep_reload: false,
            sweep_period: 0,
            sweep_shift: 0,
            sweep_value: 0,
            envelope_enabled: false,
            envelope_start: false,
            envelope_loop: false,
            envelope_volume: 0,
            envelope_period: 0,
            envelope_value: 0,
            constant_volume: 0,
        }
    }

    /// The output level. A period below 8 silences the channel.
    pub fn signal(&self) -> (r: u8)
        requires
            self.wf(),
        ensures
            r == self.signal_spec(),
            r < 16,
            self.timer_period < 8 ==> r == 0,
    {
        if !self.enabled || self.timer_period > 0x7ff || self.length_value == 0
            || self.timer_period < 8 {
            return 0;
        }
        if DUTY_TABLE[(self.duty_mode * 8 + self.duty_value) as usize] == 0 {
            return 0;
        }
        if self.envelope_enabled {
            self.envelope_volume
        } else {
            self.constant_volume
        }
    }

    pub fn step_envelope(&mut self)
        requires
            old(self).wf(),
        ensures
            final(self).wf(),
            *final(self) == (if old(self).envelope_start {
                SquareWave {
                    envelope_volume: 15,
                    envelope_value: (old(self).envelope_period + 1) as u8,
                    envelope_start: false,
                    ..*old(self)
                }
            } else if old(self).envelope_value > 0 {
                SquareWave { envelope_value: (old(self).envelope_value - 1) as u8, ..*old(self) }
            } else {
                SquareWave {
                    envelope_volume: if old(self).envelope_volume > 0 {
                        (old(self).envelope_volume - 1) as u8
                    } else if old(self).envelope_loop {
                        15
                    } else {
                        0
                    },
                    envelope_value: (old(self).envelope_period + 1) as u8,
                    ..*old(self)
                }
            }),
    {
        if self.envelope_start {
            self.envelope_volume = 15;
            self.envelope_value = self.envelope_period + 1;
            self.envelope_start = false;
        } else if self.envelope_value > 0 {
            self.envelope_value = self.envelope_value - 1;
        } else {
            if self.envelope_volume > 0 {
                self.envelope_volume = self.envelope_volume - 1;
            } else if self.envelope_loop {
                self.envelope_volume = 15;
            }
            self.envelope_value = self.envelope_period + 1;
        }
    }

    pub open spec fn sweep_target(&self) -> u16 {
        let delta = self.timer_period >> self.sweep_shift;
        if self.sweep_negate {
            if self.channel == 1 {
                ((self.timer_period - delta - 1) % 0x10000) as u16
            } else {
                ((self.timer_period - delta) % 0x10000) as u16
            }
        } else {
            ((self.timer_period + delta) % 0x10000) as u16
        }
    }

    /// Moves the period by itself shifted right, up or (negated) down.
    fn sweep(&mut self)
        requires
            old(self).wf(),
        ensures
            *final(self) == (SquareWave { timer_period: old(self).sweep_target(), ..*old(self) }),
    {
        let delta = self.timer_period >> self.sweep_shift;
        if self.sweep_negate {
            self.timer_period = self.timer_period.wrapping_sub(delta);
            if self.channel == 1 {
                self.timer_period = self.timer_period.wrapping_sub(1);
            }
        } else {
            self.timer_period = self.timer_period.wrapping_add(delta);
        }
    }

    pub fn step_sweep(&mut self)
        requires
            old(self).wf(),
        ensures
            final(self).wf(),
            ({
                let o = *old(self);
                let swept = SquareWave { timer_period: o.sweep_target(), ..o };
                *final(self) == (if o.sweep_reload {
                    SquareWave {
                        sweep_value: (o.sweep_period + 1) as u8,
                        sweep_reload: false,
                        ..(if o.sweep_enabled && o.sweep_value == 0 { swept } else { o })
                    }
                } else if o.sweep_value > 0 {
                    SquareWave { sweep_value: (o.sweep_value - 1) as u8, ..o }
                } else {
                    SquareWave {
                        sweep_value: (o.sweep_period + 1) as u8,
                        ..(if o.sweep_enabled { swept } else { o })
                    }
                })
            }),
    {
        if self.sweep_reload {
            if self.sweep_enabled && self.sweep_value == 0 {
                self.sweep();
            }
            self.sweep_value = self.sweep_period + 1;
            self.sweep_reload = false;
        } else if self.sweep_value > 0 {
            self.sweep_value = self.sweep_value - 1;
        } else {
            if self.sweep_enabled {
                self.sweep();
            }
            self.sweep_value = self.sweep_period + 1;
        }
    }

    pub fn step_length(&mut self)
        ensures
            *final(self) == (if old(self).length_enabled && old(self).length_value > 0 {
                SquareWave { length_value: (old(self).length_value - 1) as u8, ..*old(self) }
            } else {
                *old(self)
            }),
    {
        if self.length_enabled && self.length_value > 0 {
            self.length_value = self.length_value - 1;
        }
    }

    pub fn step_timer(&mut self)
        requires
            old(self).wf(),
        ensures
            final(self).wf(),
            *final(self) == (if old(self).timer_value == 0 {
                SquareWave {
                    timer_value: ((old(self).timer_period + 1) % 0x10000) as u16,
                    duty_value: ((old(self).duty_value + 1) % 8) as u8,
                    ..*old(self)
                }
            } else {
                SquareWave { timer_value: (old(self).timer_value - 1) as u16, ..*old(self) }
            }),
    {
        if self.timer_value == 0 {
            self.timer_value = self.timer_period.wrapping_add(1);
            self.duty_value = (self.duty_value + 1) % 8;
        } else {
            self.timer_value = self.timer_value - 1;
        }
    }

    /// $4000/$4004: duty, envelope loop / length halt, constant volume, period.
    pub fn write_control(&mut self, val: u8)
        requires
            old(self).wf(),
        ensures
            final(self).wf(),
            *final(self) == (SquareWave {
                duty_mode: (val & 0xc0) >> 6u8,
                envelope_loop: val & 0x20 != 0,
                length_enabled: val & 0x20 == 0,
                envelope_enabled: val & 0x10 == 0,
                envelope_period: val & 0x0f,
                constant_volume: val & 0x0f,
                envelope_start: true,
                ..*old(self)
            }),
    {
        self.duty_mode = (val & 0xc0) >> 6u8;
        assert((val & 0xc0) >> 6u8 < 4) by (bit_vector);
        self.envelope_loop = val & 0x20 != 0;
        self.length_enabled = val & 0x20 == 0;
        self.envelope_enabled = val & 0x10 == 0;
        self.envelope_period = val & 0x0f;
        self.constant_volume = val & 0x0f;
        self.envelope_start = true;
    }

    /// $4001/$4005: sweep enable, period, negate, shift.
    pub fn write_sweep(&mut self, val: u8)
        requires
            old(self).wf(),
        ensures
            final(self).wf(),
            *final(self) == (SquareWave {
                sweep_enabled: val & 0x80 != 0,
                sweep_period: (val & 0x70) >> 4u8,
                sweep_negate: val & 0x08 != 0,
                sweep_shift: val & 0x07,
                sweep_reload: true,
                ..*old(self)
            }),
    {
        self.sweep_enabled = val & 0x80 != 0;
        self.sweep_period = (val & 0x70) >> 4u8;
        assert((val & 0x70) >> 4u8 < 8) by (bit_vector);
        self.sweep_negate = val & 0x08 != 0;
        self.sweep_shift = val & 0x07;
        self.sweep_reload = true;
    }

    /// $4002/$4006: low eight bits of the period.
    pub fn write_timer_low(&mut self, val: u8)
        ensures
            *final(self) == (SquareWave {
                timer_period: (old(self).timer_period & 0xff00) | (val as u16),
                ..*old(self)
            }),
    {
        self.timer_period = (self.timer_period & 0xff00) | (val as u16);
    }

    /// $4003/$4007: length load and high three bits of the period; restarts
    /// the envelope and the duty sequence.
    pub fn write_timer_high(&mut self, val: u8)
        requires
            old(self).wf(),
        ensures
            final(self).wf(),
            *final(self) == (SquareWave {
                length_value: LENGTH_TABLE@[((val & 0xf8) >> 3u8) as int],
                timer_period: (old(self).timer_period & 0x00ff) | (((val & 0x07) as u16) << 8u16),
                envelope_start: true,
                duty_value: 0,
                ..*old(self)
            }),
    {
        let length_index = (val & 0xf8) >> 3u8;
        assert((val & 0xf8) >> 3u8 < 32) by (bit_vector);
        let period_high = (val & 0x07) as u16;
        self.length_value = LENGTH_TABLE[length_index as usize];
        self.timer_period = (self.timer_period & 0x00ff) | (period_high << 8u16);
        self.envelope_start = true;
        self.duty_value = 0;
    }
}

} // verus!
