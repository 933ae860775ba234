//! The noise channel: a 15-bit linear feedback shift register.

use vstd::prelude::*;

use crate::nes::apu::{spec_convert_length_counter, APU};
use crate::nes::cpu::Fault;

verus! {

#[derive(Clone, Copy, Debug)]
pub struct APUNoise {
    pub const_volume: u8,
    pub envelope_volume: u8,
    pub const_volume_enabled: bool,
    pub loop_enabled: bool,
    pub length_counter: u8,
    pub short_mode: bool,
    pub timer: u16,
    pub shift_register: u16,
    pub timer_counter: u16,
    pub envelope_period: u8,
    pub envelope_counter: u8,
    pub envelope_reload: bool,
}

/// The timer periods of the 16 noise period indices.
pub open spec fn spec_noise_period(i: u8) -> u16 {
    let t = seq![4u16, 8, 16, 32, 64, 96, 128, 160, 202, 254, 380, 508, 762, 1016, 2034, 4068];
    t[i as int]
}

impl APUNoise {
    pub open spec fn spec_new() -> APUNoise {
        APUNoise {
                const_volume: 0,
                envelope_volume: 0,
                const_volume_enabled: false,
                loop_enabled: false,
                length_counter: 0,
                short_mode: false,
                timer: 0,
                shift_register: 1,
                timer_counter: 0,
                envelope_period: 0,
                envelope_counter: 0,
                envelope_reload: false,
            }
    }

        pub const MAX_VOLUME: u8 = 0x0F;

    fn noise_period(i: u8) -> (r: u16)
        requires
            i < 16,
        ensures
            r == spec_noise_period(i),
    {
        match i {
            0 => 4,
            1 => 8,
            2 => 16,
            3 => 32,
            4 => 64,
            5 => 96,
            6 => 128,
            7 => 160,
            8 => 202,
            9 => 254,
            10 => 380,
            11 => 508,
            12 => 762,
            13 => 1016,
            14 => 2034,
            _ => 4068,
        }
    }

    /// A silent channel whose shift register holds 1.
    pub fn new() -> (r: APUNoise)
        ensures
            r == Self::spec_new(),
    {
        APUNoise {
            const_volume: 0,
            envelope_volume: 0,
            const_volume_enabled: false,
            loop_enabled: false,
            length_counter: 0,
            short_mode: false,
            timer: 0,
            shift_register: 1,
            timer_counter: 0,
            envelope_period: 0,
            envelope_counter: 0,
            envelope_reload: false,
        }
    }

    /// Registers: loop/volume ($400C), mode and period ($400E), length
    /// ($400F, which restarts the envelope). $400D cannot be written.
    pub open spec fn spec_write_reg(self, addr: u16, data: u8) -> (Self, Result<(), Fault>) {
        if addr == 0 {
            let cv = (data / 16) % 2 == 1;
            let n = APUNoise { loop_enabled: (data / 32) % 2 == 1, const_volume_enabled: cv, ..self };
            if cv { (APUNoise { const_volume: data % 16, ..n }, Ok(())) } else { (APUNoise { envelope_period: data % 16, ..n }, Ok(())) }
        } else if addr == 2 {
            (APUNoise { short_mode: data >= 128, timer: spec_noise_period(data % 16), ..self }, Ok(()))
        } else if addr == 3 {
            (APUNoise { length_counter: spec_convert_length_counter(data / 8), envelope_reload: true, ..self }, Ok(()))
        } else {
            (self, Err(Fault::BusWrite(addr)))
        }
    }

    pub fn write_reg(&mut self, addr: u16, data: u8) -> (r: Result<(), Fault>)
        ensures
            (*final(self), r) == old(self).spec_write_reg(addr, data),
    {
        if addr == 0 {
            self.loop_enabled = (data / 32) % 2 == 1;
            self.const_volume_enabled = (data / 16) % 2 == 1;
            if self.const_volume_enabled {
                self.const_volume = data % 16;
            } else {
                self.envelope_period = data % 16;
            }
            Ok(())
        } else if addr == 2 {
            self.short_mode = data >= 128;
            self.timer = Self::noise_period(data % 16);
            Ok(())
        } else if addr == 3 {
            self.length_counter = APU::convert_length_counter(data / 8);
            self.envelope_reload = true;
            Ok(())
        } else {
            Err(Fault::BusWrite(addr))
        }
    }

    pub fn active(&self) -> (r: bool)
        ensures
            r == (self.length_counter > 0),
    {
        self.length_counter > 0
    }

    pub fn set_active(&mut self, active: bool)
        ensures
            *final(self) == (if active { *old(self) } else { APUNoise { length_counter: 0, ..*old(self) } }),
    {
        if !active {
            self.length_counter = 0;
        }
    }

    /// The envelope clock, as for the pulse channels.
    pub open spec fn spec_quarter_frame(self) -> Self {
        if self.envelope_reload {
            APUNoise { envelope_reload: false, envelope_volume: Self::MAX_VOLUME, envelope_counter: self.envelope_period, ..self }
        } else if self.envelope_counter > 0 {
            APUNoise { envelope_counter: (self.envelope_counter - 1) as u8, ..self }
        } else if self.envelope_volume > 0 {
            APUNoise { envelope_counter: self.envelope_period, envelope_volume: (self.envelope_volume - 1) as u8, ..self }
        } else if self.loop_enabled {
            APUNoise { envelope_counter: self.envelope_period, envelope_volume: Self::MAX_VOLUME, ..self }
        } else {
            APUNoise { envelope_counter: self.envelope_period, ..self }
        }
    }

    pub fn quarter_frame(&mut self)
        ensures
            *final(self) == old(self).spec_quarter_frame(),
    {
        if self.envelope_reload {
            self.envelope_reload = false;
            self.envelope_volume = Self::MAX_VOLUME;
            self.envelope_counter = self.envelope_period;
        } else if self.envelope_counter > 0 {
            self.envelope_counter = self.envelope_counter - 1;
        } else {
            self.envelope_counter = self.envelope_period;
            if self.envelope_volume > 0 {
                self.envelope_volume = self.envelope_volume - 1;
            } else if self.loop_enabled {
                self.envelope_volume = Self::MAX_VOLUME;
            }
        }
    }

    pub open spec fn spec_half_frame(self) -> Self {
        if self.length_counter > 0 && !self.loop_enabled {
            APUNoise { length_counter: (self.length_counter - 1) as u8, ..self }
        } else {
            self
        }
    }

    pub fn half_frame(&mut self)
        ensures
            *final(self) == old(self).spec_half_frame(),
    {
        if self.length_counter > 0 && !self.loop_enabled {
            self.length_counter = self.length_counter - 1;
        }
    }

    /// The feedback bit: bit 0 XOR bit 6 in short mode, bit 0 XOR bit 1 otherwise.
    pub open spec fn feedback(self) -> u16 {
        if self.short_mode {
            (self.shift_register & 1) ^ ((self.shift_register >> 6) & 1)
        } else {
            (self.shift_register & 1) ^ ((self.shift_register >> 1) & 1)
        }
    }

    /// The timer clock: when the counter reaches the period, the counter
    /// drops by the period and the register shifts right with the feedback
    /// bit entering at bit 14.
    pub open spec fn spec_clock(self, cycles: u32) -> Self {
        let tc = vstd::wrapping::u16_specs::wrapping_add(self.timer_counter, (cycles % 65536) as u16);
        if tc >= self.timer {
            APUNoise {
                timer_counter: (tc - self.timer) as u16,
                shift_register: (self.shift_register >> 1) | (self.feedback() << 14),
                ..self
            }
        } else {
            APUNoise { timer_counter: tc, ..self }
        }
    }

    pub fn clock(&mut self, cycles: u32)
        ensures
            *final(self) == old(self).spec_clock(cycles),
    {
        self.timer_counter = self.timer_counter.wrapping_add((cycles % 65536) as u16);
        if self.timer_counter >= self.timer {
            self.timer_counter = self.timer_counter - self.timer;
            let feedback = if self.short_mode {
                (self.shift_register & 1) ^ ((self.shift_register >> 6) & 1)
            } else {
                (self.shift_register & 1) ^ ((self.shift_register >> 1) & 1)
            };
            self.shift_register = (self.shift_register >> 1) | (feedback << 14);
        }
    }

    /// The sample: 0 while silent or when bit 0 of the register is set,
    /// otherwise the volume.
    pub open spec fn spec_get_output(&self) -> i16 {
        if self.length_counter == 0 || (self.shift_register & 1) != 0 {
            0
        } else if self.const_volume_enabled {
            self.const_volume as i16
        } else {
            self.envelope_volume as i16
        }
    }

    pub fn get_output(&self) -> (r: i16)
        ensures
            r == self.spec_get_output(),
    {
        if self.length_counter == 0 || (self.shift_register & 1) != 0 {
            0
        } else if self.const_volume_enabled {
            self.const_volume as i16
        } else {
            self.envelope_volume as i16
        }
    }
}

} // verus!
