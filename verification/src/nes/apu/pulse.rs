//! The two pulse (square wave) channels.

use vstd::prelude::*;

use crate::nes::apu::{spec_convert_length_counter, APU};
use crate::nes::cpu::Fault;

verus! {

#[derive(Clone, Copy, Debug)]
pub struct APUPulse {
    pub id: usize,
    pub const_volume: u8,
    pub envelope_volume: u8,
    pub const_volume_enabled: bool,
    pub loop_enabled: bool,
    pub duty_cycle: u8,
    pub sweep_enabled: bool,
    pub sweep_period: u8,
    pub sweep_negate: bool,
    pub sweep_shift: u8,
    pub timer: u16,
    pub length_counter: u8,
    pub envelope_period: u8,
    pub envelope_counter: u8,
    pub envelope_reload: bool,
    pub sweep_counter: u8,
    pub timer_counter: u16,
    pub duty_step: u8,
}

impl APUPulse {
    pub open spec fn spec_new(id: usize) -> APUPulse {
        APUPulse {
                id,
                const_volume: 0,
                envelope_volume: 0,
                const_volume_enabled: false,
                loop_enabled: false,
                duty_cycle: 0,
                sweep_enabled: false,
                sweep_period: 0,
                sweep_negate: false,
                sweep_shift: 0,
                timer: 0,
                length_counter: 0,
                envelope_period: 0,
                envelope_counter: 0,
                envelope_reload: false,
                sweep_counter: 0,
                timer_counter: 0,
                duty_step: 0,
            }
    }

        pub const MAX_VOLUME: u8 = 0x0F;
    pub const MAX_DUTY_STEPS: u8 = 8;

    /// The duty cycle is one of the four patterns.
    pub open spec fn wf(&self) -> bool {
        &&& self.duty_cycle < 4
        &&& self.sweep_shift < 8
        &&& self.const_volume < 16
        &&& self.envelope_volume <= Self::MAX_VOLUME
    }

    pub fn new(id: usize) -> (r: APUPulse)
        ensures
            r == Self::spec_new(id),
            r.wf(),
    {
        APUPulse {
            id,
            const_volume: 0,
            envelope_volume: 0,
            const_volume_enabled: false,
            loop_enabled: false,
            duty_cycle: 0,
            sweep_enabled: false,
            sweep_period: 0,
            sweep_negate: false,
            sweep_shift: 0,
            timer: 0,
            length_counter: 0,
            envelope_period: 0,
            envelope_counter: 0,
            envelope_reload: false,
            sweep_counter: 0,
            timer_counter: 0,
            duty_step: 0,
        }
    }

    /// The four registers of a pulse channel: duty/loop/volume, sweep, timer
    /// low, and timer high with the length counter (which restarts the
    /// envelope).
    pub open spec fn spec_write_reg(self, addr: u16, data: u8) -> (Self, Result<(), Fault>) {
        if addr == 0 {
            let cv = (data / 16) % 2 == 1;
            let p = APUPulse { duty_cycle: data / 64, loop_enabled: (data / 32) % 2 == 1, const_volume_enabled: cv, ..self };
            if cv { (APUPulse { const_volume: data % 16, ..p }, Ok(())) } else { (APUPulse { envelope_period: data % 16, ..p }, Ok(())) }
        } else if addr == 1 {
            (APUPulse {
                sweep_enabled: data >= 128,
                sweep_period: (data / 16) % 8,
                sweep_negate: (data / 8) % 2 == 1,
                sweep_shift: data % 8,
                sweep_counter: (data / 16) % 8,
                ..self
            }, Ok(()))
        } else if addr == 2 {
            (APUPulse { timer: (self.timer / 256 * 256 + data) as u16, ..self }, Ok(()))
        } else if addr == 3 {
            (APUPulse {
                timer: (self.timer % 256 + (data % 8) * 256) as u16,
                length_counter: spec_convert_length_counter(data / 8),
                envelope_reload: true,
                ..self
            }, Ok(()))
        } else {
            (self, Err(Fault::BusWrite(addr)))
        }
    }

    pub fn write_reg(&mut self, addr: u16, data: u8) -> (r: Result<(), Fault>)
        requires
            old(self).wf(),
        ensures
            (*final(self), r) == old(self).spec_write_reg(addr, data),
            final(self).wf(),
    {
        if addr == 0 {
            self.duty_cycle = data / 64;
            self.loop_enabled = (data / 32) % 2 == 1;
            self.const_volume_enabled = (data / 16) % 2 == 1;
            if self.const_volume_enabled {
                self.const_volume = data % 16;
            } else {
                self.envelope_period = data % 16;
            }
            Ok(())
        } else if addr == 1 {
            self.sweep_enabled = data >= 128;
            self.sweep_period = (data / 16) % 8;
            self.sweep_negate = (data / 8) % 2 == 1;
            self.sweep_shift = data % 8;
            self.sweep_counter = self.sweep_period;
            Ok(())
        } else if addr == 2 {
            self.timer = self.timer / 256 * 256 + data as u16;
            Ok(())
        } else if addr == 3 {
            self.timer = self.timer % 256 + (data % 8) as u16 * 256;
            self.length_counter = APU::convert_length_counter(data / 8);
            self.envelope_reload = true;
            Ok(())
        } else {
            Err(Fault::BusWrite(addr))
        }
    }

    /// Whether the channel is playing: its length counter has not run out.
    pub fn active(&self) -> (r: bool)
        ensures
            r == (self.length_counter > 0),
    {
        self.length_counter > 0
    }

    /// Silencing the channel clears its length counter.
    pub fn set_active(&mut self, active: bool)
        ensures
            *final(self) == (if active { *old(self) } else { APUPulse { length_counter: 0, ..*old(self) } }),
    {
        if !active {
            self.length_counter = 0;
        }
    }

    /// The envelope clock of a quarter frame: a restart sets the volume to 15;
    /// otherwise the divider counts down and, when it runs out, the volume
    /// drops by one (and wraps to 15 when looping).
    pub open spec fn spec_quarter_frame(self) -> Self {
        if self.envelope_reload {
            APUPulse { envelope_reload: false, envelope_volume: Self::MAX_VOLUME, envelope_counter: self.envelope_period, ..self }
        } else if self.envelope_counter > 0 {
            APUPulse { envelope_counter: (self.envelope_counter - 1) as u8, ..self }
        } else if self.envelope_volume > 0 {
            APUPulse { envelope_counter: self.envelope_period, envelope_volume: (self.envelope_volume - 1) as u8, ..self }
        } else if self.loop_enabled {
            APUPulse { envelope_counter: self.envelope_period, envelope_volume: Self::MAX_VOLUME, ..self }
        } else {
            APUPulse { envelope_counter: self.envelope_period, ..self }
        }
    }

    pub fn quarter_frame(&mut self)
        requires
            old(self).wf(),
        ensures
            *final(self) == old(self).spec_quarter_frame(),
            final(self).wf(),
    {
        if self.envelope_reload {
            self.envelope_reload = false;
            self.envelope_volume = Self::MAX_VOLUME;
            self.envelope_counter = self.envelope_period;
        } else if self.envelope_counter > 0 {
            self.envelope_counter = self.envelope_counter - 1;
        } else {
            self.envelope_counter = self.envelope_period;
            if self.envelope_volume > 0 {
                self.envelope_volume = self.envelope_volume - 1;
            } else if self.loop_enabled {
                self.envelope_volume = Self::MAX_VOLUME;
            }
        }
    }

    /// The period after one sweep step: the timer moved by itself shifted
    /// right, down (not below 0) when negating, up (wrapping) otherwise.
    pub open spec fn swept_timer(self) -> u16 {
        let change = self.timer as int / vstd::arithmetic::power2::pow2(self.sweep_shift as nat) as int;
        if self.sweep_negate {
            if self.timer >= change { (self.timer - change) as u16 } else { 0 }
        } else {
            vstd::wrapping::u16_specs::wrapping_add(self.timer, change as u16)
        }
    }

    /// The sweep and length clock of a half frame.
    pub open spec fn spec_half_frame(self) -> Self {
        let s = if self.sweep_counter > 0 {
            APUPulse { sweep_counter: (self.sweep_counter - 1) as u8, ..self }
        } else if self.sweep_enabled && self.sweep_shift > 0 && 8 <= self.timer <= 0x7FF {
            APUPulse { sweep_counter: self.sweep_period, timer: self.swept_timer(), ..self }
        } else {
            APUPulse { sweep_counter: self.sweep_period, ..self }
        };
        if !s.loop_enabled && s.length_counter > 0 {
            APUPulse { length_counter: (s.length_counter - 1) as u8, ..s }
        } else {
            s
        }
    }

    pub fn half_frame(&mut self)
        requires
            old(self).wf(),
        ensures
            *final(self) == old(self).spec_half_frame(),
            final(self).wf(),
    {
        if self.sweep_counter > 0 {
            self.sweep_counter = self.sweep_counter - 1;
        } else {
            self.sweep_counter = self.sweep_period;
            if self.sweep_enabled && self.sweep_shift > 0 && 8 <= self.timer && self.timer <= 0x7FF {
                let change = self.timer >> self.sweep_shift;
                proof {
                    vstd::bits::lemma_u16_shr_is_div(self.timer, self.sweep_shift as u16);
                }
                if self.sweep_negate {
                    self.timer = if self.timer >= change { self.timer - change } else { 0 };
                } else {
                    self.timer = self.timer.wrapping_add(change);
                }
            }
        }
        if !self.loop_enabled && self.length_counter > 0 {
            self.length_counter = self.length_counter - 1;
        }
    }

    /// The timer clock: half a timer tick per CPU cycle; every `timer + 1`
    /// ticks the duty sequencer moves one of its 8 steps.
    pub open spec fn spec_clock(self, cycles: u32) -> Self {
        let tc = vstd::wrapping::u16_specs::wrapping_add(self.timer_counter, ((cycles % 65536) / 2) as u16);
        let period = self.timer + 1;
        APUPulse {
            duty_step: (vstd::wrapping::u8_specs::wrapping_add(self.duty_step, ((tc as int / period) % 256) as u8) % 8) as u8,
            timer_counter: (tc as int % period) as u16,
            ..self
        }
    }

    pub fn clock(&mut self, cycles: u32)
        requires
            old(self).wf(),
        ensures
            *final(self) == old(self).spec_clock(cycles),
            final(self).wf(),
    {
        let tc = self.timer_counter.wrapping_add(((cycles % 65536) / 2) as u16);
        let period: u32 = self.timer as u32 + 1;
        let steps = ((tc as u32 / period) % 256) as u8;
        self.duty_step = self.duty_step.wrapping_add(steps) % Self::MAX_DUTY_STEPS;
        self.timer_counter = (tc as u32 % period) as u16;
    }

    /// Whether the current duty step is high: 1 of 8 steps, 2, 4 or 6 of 8
    /// by the duty cycle.
    pub open spec fn spec_output_duty(&self) -> bool {
        if self.duty_cycle == 0 {
            self.duty_step == 7
        } else if self.duty_cycle == 1 {
            self.duty_step >= 6
        } else if self.duty_cycle == 2 {
            self.duty_step >= 4
        } else {
            self.duty_step < 6
        }
    }

    pub fn output_duty(&self) -> (r: bool)
        requires
            self.wf(),
        ensures
            r == self.spec_output_duty(),
    {
        if self.duty_cycle == 0 {
            self.duty_step == 7
        } else if self.duty_cycle == 1 {
            self.duty_step >= 6
        } else if self.duty_cycle == 2 {
            self.duty_step >= 4
        } else {
            self.duty_step < 6
        }
    }

    /// The sample: the volume (constant or envelope) on a high duty step,
    /// 0 on a low one, centred by -7; 0 while silent or with a period
    /// outside 8..=$7FF.
    pub open spec fn spec_get_output(&self) -> i16 {
        if self.length_counter > 0 && 8 <= self.timer <= 0x7FF {
            let v = if self.spec_output_duty() {
                if self.const_volume_enabled { self.const_volume } else { self.envelope_volume }
            } else {
                0
            };
            (v - 7) as i16
        } else {
            0
        }
    }

    pub fn get_output(&self) -> (r: i16)
        requires
            self.wf(),
        ensures
            r == self.spec_get_output(),
            -7 <= r <= 8,
    {
        if self.length_counter > 0 && 8 <= self.timer && self.timer <= 0x7FF {
            let v = if self.output_duty() {
                if self.const_volume_enabled { self.const_volume } else { self.envelope_volume }
            } else {
                0
            };
            v as i16 - 7
        } else {
            0
        }
    }
}

} // verus!
