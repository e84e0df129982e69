//! Noise channel: a 15-bit linear-feedback shift register with two tap modes.
use vstd::prelude::*;
use crate::apu::square::LENGTH_TABLE;

verus! {

broadcast use crate::bits::group_masks;

pub const TIMER_TABLE: [u16; 16] = [
    0x004, 0x008, 0x010, 0x020,
    0x040, 0x060, 0x080, 0x0a0,
    0x0ca, 0x0fe, 0x17c, 0x1fc,
    0x2fa, 0x3f8, 0x7f2, 0xfe4,
];

#[derive(Clone, Copy, Debug, PartialEq, Eq, Structural)]
pub enum ShiftRegisterMode {
    /// Feedback from bit 1 (long sequence).
    One,
    /// Feedback from bit 6 (short, metallic sequence).
    Six,
}

pub struct Noise {
    pub enabled: bool,
    pub mode: ShiftRegisterMode,
    pub length_enabled: bool,
    pub length_value: u8,
    pub envelope_enabled: bool,
    pub envelope_start: bool,
    pub envelope_loop: bool,
    pub envelope_volume: u8,
    pub envelope_period: u8,
    pub envelope_value: u8,
    pub constant_volume: u8,
    pub timer_period: u16,
    pub timer_value: u16,
    pub shift_register: u16,
}

/// One clock of the shift register: shift right, feeding back bit 0 XOR the tap into bit 14.
pub open spec fn lfsr_next(sr: u16, mode: ShiftRegisterMode) -> u16 {
    let shift: u16 = match mode {
        ShiftRegisterMode::One => 1,
        ShiftRegisterMode::Six => 6,
    };
    let feedback = (sr & 1) ^ ((sr >> shift) & 1);
    (sr >> 1u16) | (feedback << 14u16)
}

impl Noise {
    pub open spec fn wf(&self) -> bool {
        &&& self.envelope_period < 16
        &&& self.envelope_volume < 16
        &&& self.constant_volume < 16
    }

    pub open spec fn signal_spec(&self) -> u8 {
        if !self.enabled || self.length_value == 0 || self.shift_register & 1 == 1 {
            0
        } else if self.envelope_enabled {
            self.envelope_volume
        } else {
            self.constant_volume
        }
    }

    pub open spec fn initial() -> Self {
        Noise {
            enabled: false,
            mode: ShiftRegisterMode::One,
            length_enabled: false,
            length_value: 0,
            envelope_enabled: false,
            envelope_start: false,
            envelope_loop: false,
            envelope_volume: 0,
            envelope_period: 0,
            envelope_value: 0,
            constant_volume: 0,
            timer_period: 0,
            timer_value: 0,
            shift_register: 1,
        }
    }

    pub fn new_noise_channel() -> (r: Self)
        ensures
            r.wf(),
            r == Self::initial(),
    {
        Noise {
            enabled: false,
            mode: ShiftRegisterMode::One,
            length_enabled: false,
            length_value: 0,
            envelope_enabled: false,
            envelope_start: false,
            envelope_loop: false,
            envelope_volume: 0,
            envelope_period: 0,
            envelope_value: 0,
            constant_volume: 0,
            timer_period: 0,
            timer_value: 0,
            shift_register: 1,
        }
    }

    pub fn reset(&mut self)
        ensures
            final(self).wf(),
            *final(self) == Self::initial(),
    {
        *self = Self::new_noise_channel();
    }

    /// The output level (0 to 15): silent while bit 0 of the register is set.
    pub fn signal(&self) -> (r: u8)
        requires
            self.wf(),
        ensures
            r == self.signal_spec(),
            r < 16,
    {
        if !self.enabled || self.length_value == 0 || self.shift_register & 1 == 1 {
            0
        } else if self.envelope_enabled {
            self.envelope_volume
        } else {
            self.constant_volume
        }
    }

    pub fn step_envelope(&mut self)
        requires
            old(self).wf(),
        ensures
            final(self).wf(),
            *final(self) == (if old(self).envelope_start {
                Noise {
                    envelope_volume: 15,
                    envelope_value: (old(self).envelope_period + 1) as u8,
                    envelope_start: false,
                    ..*old(self)
                }
            } else if old(self).envelope_value > 0 {
                Noise { envelope_value: (old(self).envelope_value - 1) as u8, ..*old(self) }
            } else {
                Noise {
                    envelope_volume: if old(self).envelope_volume > 0 {
                        (old(self).envelope_volume - 1) as u8
                    } else if old(self).envelope_loop {
                        15
                    } else {
                        0
                    },
                    envelope_value: (old(self).envelope_period + 1) as u8,
                    ..*old(self)
                }
            }),
    {
        if self.envelope_start {
            self.envelope_volume = 15;
            self.envelope_value = self.envelope_period + 1;
            self.envelope_start = false;
        } else if self.envelope_value > 0 {
            self.envelope_value = self.envelope_value - 1;
        } else {
            if self.envelope_volume > 0 {
                self.envelope_volume = self.envelope_volume - 1;
            } else if self.envelope_loop {
                self.envelope_volume = 15;
            }
            self.envelope_value = self.envelope_period + 1;
        }
    }

    pub fn step_length(&mut self)
        ensures
            *final(self) == (if old(self).length_enabled && old(self).length_value > 0 {
                Noise { length_value: (old(self).length_value - 1) as u8, ..*old(self) }
            } else {
                *old(self)
            }),
    {
        if self.length_enabled && self.length_value > 0 {
            self.length_value = self.length_value - 1;
        }
    }

    pub fn step_timer(&mut self)
        ensures
            *final(self) == (if old(self).timer_value == 0 {
                Noise {
                    timer_value: old(self).timer_period,
                    shift_register: lfsr_next(old(self).shift_register, old(self).mode),
                    ..*old(self)
                }
            } else {
                Noise { timer_value: (old(self).timer_value - 1) as u16, ..*old(self) }
            }),
    {
        if self.timer_value == 0 {
            self.timer_value = self.timer_period;
            let shift: u16 = match self.mode {
                ShiftRegisterMode::One => 1,
                ShiftRegisterMode::Six => 6,
            };
            let sr = self.shift_register;
            let feedback = (sr & 1) ^ ((sr >> shift) & 1);
            self.shift_register = (sr >> 1u16) | (feedback << 14u16);
        } else {
            self.timer_value = self.timer_value - 1;
        }
    }

    /// $400C: envelope loop / length halt, constant volume, envelope period.
    pub fn write_control(&mut self, val: u8)
        requires
            old(self).wf(),
        ensures
            final(self).wf(),
            *final(self) == (Noise {
                envelope_loop: val & 0x20 != 0,
                length_enabled: val & 0x20 == 0,
                envelope_enabled: val & 0x10 == 0,
                envelope_period: val & 0x0f,
                constant_volume: val & 0x0f,
                envelope_start: true,
                ..*old(self)
            }),
    {
        self.envelope_loop = val & 0x20 != 0;
        self.length_enabled = val & 0x20 == 0;
        self.envelope_enabled = val & 0x10 == 0;
        self.envelope_period = val & 0x0f;
        self.constant_volume = val & 0x0f;
        self.envelope_start = true;
    }

    /// $400E: tap mode (bit 7) and period index (bits 0-3).
    pub fn write_mode(&mut self, val: u8)
        ensures
            *final(self) == (Noise {
                mode: if val & 0x80 != 0 { ShiftRegisterMode::Six } else { ShiftRegisterMode::One },
                timer_period: TIMER_TABLE@[(val & 0x0f) as int],
                ..*old(self)
            }),
    {
        self.mode = if val & 0x80 != 0 { ShiftRegisterMode::Six } else { ShiftRegisterMode::One };
        self.timer_period = TIMER_TABLE[(val & 0x0f) as usize];
    }

    /// $400F: length load from bits 3-7.
    pub fn write_length_index(&mut self, val: u8)
        ensures
            *final(self) == (Noise { length_value: LENGTH_TABLE@[(val >> 3u8) as int], ..*old(self) }),
    {
        let i = val >> 3u8;
        assert(val >> 3u8 < 32) by (bit_vector);
        self.length_value = LENGTH_TABLE[i as usize];
    }
}

} // verus!
