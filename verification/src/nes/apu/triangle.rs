//! The triangle channel.

use vstd::prelude::*;

use crate::nes::apu::{spec_convert_length_counter, APU};

verus! {

#[derive(Clone, Copy, Debug)]
pub struct APUTriangle {
    pub linear_counter: u8,
    pub linear_counter_control: bool,
    pub timer: u16,
    pub length_counter: u8,
    pub linear_counter_reload_value: u8,
    pub linear_counter_reload: bool,
    pub timer_counter: u16,
    pub duty_step: u8,
}

impl APUTriangle {
    pub open spec fn spec_new() -> APUTriangle {
        APUTriangle {
                linear_counter: 0,
                linear_counter_control: false,
                timer: 0,
                length_counter: 0,
                linear_counter_reload_value: 0,
                linear_counter_reload: false,
                timer_counter: 0,
                duty_step: 0,
            }
    }

        pub const MAX_DUTY_STEPS: u8 = 32;

    pub fn new() -> (r: APUTriangle)
        ensures
            r == Self::spec_new(),
    {
        APUTriangle {
            linear_counter: 0,
            linear_counter_control: false,
            timer: 0,
            length_counter: 0,
            linear_counter_reload_value: 0,
            linear_counter_reload: false,
            timer_counter: 0,
            duty_step: 0,
        }
    }

    /// Registers: linear counter ($4008), timer low ($400A), timer high with
    /// length ($400B, which requests a linear counter reload). Writes to
    /// $4009 are ignored.
    pub open spec fn spec_write_reg(self, addr: u16, data: u8) -> Self {
        if addr == 0 {
            APUTriangle { linear_counter_reload_value: data % 128, linear_counter_control: data >= 128, ..self }
        } else if addr == 2 {
            APUTriangle { timer: (self.timer / 256 * 256 + data) as u16, ..self }
        } else if addr == 3 {
            APUTriangle {
                timer: (self.timer % 256 + (data % 8) * 256) as u16,
                length_counter: spec_convert_length_counter(data / 8),
                linear_counter_reload: true,
                ..self
            }
        } else {
            self
        }
    }

    pub fn write_reg(&mut self, addr: u16, data: u8)
        ensures
            *final(self) == old(self).spec_write_reg(addr, data),
    {
        if addr == 0 {
            self.linear_counter_reload_value = data % 128;
            self.linear_counter_control = data >= 128;
        } else if addr == 2 {
            self.timer = self.timer / 256 * 256 + data as u16;
        } else if addr == 3 {
            self.timer = self.timer % 256 + (data % 8) as u16 * 256;
            self.length_counter = APU::convert_length_counter(data / 8);
            self.linear_counter_reload = true;
        }
    }

    /// Playing while both the length counter and the linear counter run.
    pub fn active(&self) -> (r: bool)
        ensures
            r == (self.length_counter > 0 && self.linear_counter > 0),
    {
        self.length_counter > 0 && self.linear_counter > 0
    }

    pub fn set_active(&mut self, active: bool)
        ensures
            *final(self) == (if active { *old(self) } else { APUTriangle { length_counter: 0, linear_counter: 0, ..*old(self) } }),
    {
        if !active {
            self.length_counter = 0;
            self.linear_counter = 0;
        }
    }

    /// The linear counter clock: reloaded on request, counted down under
    /// control; the request is dropped unless the control flag holds it.
    pub open spec fn spec_quarter_frame(self) -> Self {
        let t = if self.linear_counter_reload {
            APUTriangle { linear_counter: self.linear_counter_reload_value, ..self }
        } else if self.linear_counter_control && self.linear_counter > 0 {
            APUTriangle { linear_counter: (self.linear_counter - 1) as u8, ..self }
        } else {
            self
        };
        if !t.linear_counter_control { APUTriangle { linear_counter_reload: false, ..t } } else { t }
    }

    pub fn quarter_frame(&mut self)
        ensures
            *final(self) == old(self).spec_quarter_frame(),
    {
        if self.linear_counter_reload {
            self.linear_counter = self.linear_counter_reload_value;
        } else if self.linear_counter_control && self.linear_counter > 0 {
            self.linear_counter = self.linear_counter - 1;
        }
        if !self.linear_counter_control {
            self.linear_counter_reload = false;
        }
    }

    pub open spec fn spec_half_frame(self) -> Self {
        if !self.linear_counter_control && self.length_counter > 0 {
            APUTriangle { length_counter: (self.length_counter - 1) as u8, ..self }
        } else {
            self
        }
    }

    pub fn half_frame(&mut self)
        ensures
            *final(self) == old(self).spec_half_frame(),
    {
        if !self.linear_counter_control && self.length_counter > 0 {
            self.length_counter = self.length_counter - 1;
        }
    }

    /// One timer tick per CPU cycle; every `timer + 1` ticks the sequencer
    /// moves one of its 32 steps.
    pub open spec fn spec_clock(self, cycles: u32) -> Self {
        let tc = vstd::wrapping::u16_specs::wrapping_add(self.timer_counter, (cycles % 65536) as u16);
        let period = self.timer + 1;
        APUTriangle {
            duty_step: (vstd::wrapping::u8_specs::wrapping_add(self.duty_step, ((tc as int / period) % 256) as u8) % 32) as u8,
            timer_counter: (tc as int % period) as u16,
            ..self
        }
    }

    pub fn clock(&mut self, cycles: u32)
        ensures
            *final(self) == old(self).spec_clock(cycles),
            final(self).duty_step < 32,
    {
        let tc = self.timer_counter.wrapping_add((cycles % 65536) as u16);
        let period: u32 = self.timer as u32 + 1;
        let steps = ((tc as u32 / period) % 256) as u8;
        self.duty_step = self.duty_step.wrapping_add(steps) % Self::MAX_DUTY_STEPS;
        self.timer_counter = (tc as u32 % period) as u16;
    }

    /// The sample: the sequencer step folded into a triangle 0..15..0 and
    /// centred by -7; 0 while silent or with a period below 2.
    pub open spec fn spec_get_output(&self) -> i16 {
        if self.linear_counter > 0 && self.length_counter > 0 && self.timer >= 2 {
            let out = if self.duty_step & 0x10 != 0 { self.duty_step ^ 0x1F } else { self.duty_step };
            (out - 7) as i16
        } else {
            0
        }
    }

    pub fn get_output(&self) -> (r: i16)
        requires
            self.duty_step < 32,
        ensures
            r == self.spec_get_output(),
            -7 <= r <= 8,
    {
        if self.linear_counter > 0 && self.length_counter > 0 && self.timer >= 2 {
            let d = self.duty_step;
            let out = if d & 0x10 != 0 { d ^ 0x1F } else { d };
            assert(out <= 15) by (bit_vector)
                requires out == (if d & 0x10 != 0 { d ^ 0x1F } else { d }), d < 32;
            out as i16 - 7
        } else {
            0
        }
    }
}

} // verus!
