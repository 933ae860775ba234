//! The delta modulation channel.

use vstd::prelude::*;

use crate::nes::cpu::{bus_read, CpuMemory, Fault, InterruptType, CPU};

verus! {

#[derive(Clone, Copy, Debug)]
pub struct DMC {
    pub irq: bool,
    pub loop_enabled: bool,
    pub sample_address: u16,
    pub sample_length: u16,
    pub timer: u16,
    pub current_address: u16,
    pub length_counter: u16,
    pub sample_buffer: u8,
    pub sample_buffer_index: u8,
    pub timer_counter: u16,
    pub output: u8,
}

/// The timer periods of the 16 DMC rate indices.
pub open spec fn spec_dmc_rate(i: u8) -> u16 {
    let t = seq![428u16, 380, 340, 320, 286, 254, 226, 214, 190, 160, 142, 128, 106, 84, 72, 54];
    t[i as int]
}

impl DMC {
    pub open spec fn spec_new() -> DMC {
        DMC {
                irq: false,
                loop_enabled: false,
                sample_address: 0,
                sample_length: 0,
                timer: 0,
                current_address: 0,
                length_counter: 0,
                sample_buffer: 0,
                sample_buffer_index: 0,
                timer_counter: 0,
                output: 0,
            }
    }

        fn rate(i: u8) -> (r: u16)
        requires
            i < 16,
        ensures
            r == spec_dmc_rate(i),
    {
        match i {
            0 => 428,
            1 => 380,
            2 => 340,
            3 => 320,
            4 => 286,
            5 => 254,
            6 => 226,
            7 => 214,
            8 => 190,
            9 => 160,
            10 => 142,
            11 => 128,
            12 => 106,
            13 => 84,
            14 => 72,
            _ => 54,
        }
    }

    pub fn new() -> (r: DMC)
        ensures
            r == Self::spec_new(),
            r.wf(),
    {
        DMC {
            irq: false,
            loop_enabled: false,
            timer: 0,
            sample_address: 0,
            sample_length: 0,
            current_address: 0,
            length_counter: 0,
            sample_buffer: 0,
            sample_buffer_index: 0,
            timer_counter: 0,
            output: 0,
        }
    }

    /// Playing while sample bytes remain.
    pub fn active(&self) -> (r: bool)
        ensures
            r == (self.length_counter > 0),
    {
        self.length_counter > 0
    }

    pub fn set_active(&mut self, active: bool)
        ensures
            *final(self) == (if active { *old(self) } else { DMC { length_counter: 0, ..*old(self) } }),
            old(self).wf() ==> final(self).wf(),
    {
        if !active {
            self.length_counter = 0;
        }
    }

    /// Registers: IRQ/loop/rate ($4010), direct output level ($4011), sample
    /// address $C000 + 64 * n ($4012) and sample length 16 * n + 1 ($4013,
    /// which also restarts the sample).
    pub open spec fn spec_write_reg(self, addr: u16, data: u8) -> (Self, Result<(), Fault>) {
        if addr == 0 {
            (DMC { irq: data >= 128, loop_enabled: (data / 64) % 2 == 1, timer: spec_dmc_rate(data % 16), ..self }, Ok(()))
        } else if addr == 1 {
            (DMC { output: data % 128, ..self }, Ok(()))
        } else if addr == 2 {
            (DMC { sample_address: (0xC000 + data * 64) as u16, ..self }, Ok(()))
        } else if addr == 3 {
            let len = (data * 16 + 1) as u16;
            (DMC { sample_length: len, length_counter: len, ..self }, Ok(()))
        } else {
            (self, Err(Fault::BusWrite(addr)))
        }
    }

    pub fn write_reg(&mut self, addr: u16, data: u8) -> (r: Result<(), Fault>)
        ensures
            (*final(self), r) == old(self).spec_write_reg(addr, data),
            old(self).wf() ==> final(self).wf(),
    {
        if addr == 0 {
            self.irq = data >= 128;
            self.loop_enabled = (data / 64) % 2 == 1;
            self.timer = Self::rate(data % 16);
            Ok(())
        } else if addr == 1 {
            self.output = data % 128;
            Ok(())
        } else if addr == 2 {
            self.sample_address = 0xC000 + data as u16 * 64;
            Ok(())
        } else if addr == 3 {
            self.sample_length = data as u16 * 16 + 1;
            self.length_counter = self.sample_length;
            Ok(())
        } else {
            Err(Fault::BusWrite(addr))
        }
    }

    pub fn get_output(&self) -> (r: i16)
        ensures
            r == self.output as i16,
            self.wf() ==> 0 <= r <= 127,
    {
        self.output as i16
    }

    /// The output level stays a 7-bit value.
    pub open spec fn wf(&self) -> bool {
        self.output < 128
    }

    /// One period of the timer (its counter already lowered): with the sample
    /// buffer empty, the next sample byte is read (the address wrapping from
    /// $FFFF to $8000), or a finished sample restarts when looping, or raises
    /// an IRQ when enabled; otherwise the next bit of the buffer moves the
    /// output up or down by 2 within 0..=127.
    pub open spec fn spec_step<M: CpuMemory>(self, m: M::Model, c: CPU) -> (DMC, M::Model, CPU, Result<(), Fault>) {
        if self.sample_buffer_index == 0 {
            if self.length_counter > 0 {
                let rd = bus_read::<M>(m, c, self.current_address);
                let d = DMC {
                    length_counter: (self.length_counter - 1) as u16,
                    ..self
                };
                match rd.2 {
                    Ok(b) => (DMC {
                        sample_buffer: b,
                        sample_buffer_index: 8,
                        current_address: if self.current_address == 0xFFFF { 0x8000 } else { (self.current_address + 1) as u16 },
                        ..d
                    }, rd.1, rd.0, Ok(())),
                    Err(e) => (d, rd.1, rd.0, Err(e)),
                }
            } else if self.loop_enabled {
                (DMC { current_address: self.sample_address, length_counter: self.sample_length, ..self }, m, c, Ok(()))
            } else if self.irq {
                (self, m, CPU { interrupt: c.interrupt.spec_with(InterruptType::IRQ, true), ..c }, Ok(()))
            } else {
                (self, m, c, Ok(()))
            }
        } else {
            let output: u8 = if self.sample_buffer % 2 == 1 {
                if self.output < 126 { (self.output + 2) as u8 } else { self.output }
            } else {
                if self.output > 1 { (self.output - 2) as u8 } else { self.output }
            };
            (DMC {
                output,
                sample_buffer: self.sample_buffer / 2,
                sample_buffer_index: (self.sample_buffer_index - 1) as u8,
                ..self
            }, m, c, Ok(()))
        }
    }

    /// Runs timer periods while the counter holds a full period, stopping at
    /// a bus fault.
    pub open spec fn spec_run<M: CpuMemory>(self, m: M::Model, c: CPU) -> (DMC, M::Model, CPU, Result<(), Fault>)
        decreases self.timer_counter,
    {
        if self.timer == 0 || self.timer_counter < self.timer {
            (self, m, c, Ok(()))
        } else {
            let d1 = DMC { timer_counter: (self.timer_counter - self.timer) as u16, ..self };
            let s = d1.spec_step::<M>(m, c);
            if s.3 is Err || s.0.timer_counter >= self.timer_counter {
                s
            } else {
                s.0.spec_run::<M>(s.1, s.2)
            }
        }
    }

    /// A step keeps the timer and its counter, and the output level bound.
    pub proof fn lemma_step<M: CpuMemory>(self, m: M::Model, c: CPU)
        ensures
            self.spec_step::<M>(m, c).0.timer == self.timer,
            self.spec_step::<M>(m, c).0.timer_counter == self.timer_counter,
            self.wf() ==> self.spec_step::<M>(m, c).0.wf(),
    {
    }

    /// The output level stays within 0..=127 from power-on through any
    /// register write, enabling or silencing, and clocking.
    pub proof fn lemma_output_bound<M: CpuMemory>(self, addr: u16, data: u8, cycles: u32, m: M::Model, c: CPU)
        requires
            self.wf(),
        ensures
            Self::spec_new().wf(),
            self.spec_write_reg(addr, data).0.wf(),
            (DMC { length_counter: 0, ..self }).wf(),
            self.spec_clock::<M>(cycles, m, c).0.wf(),
            0 <= self.output <= 127,
    {
        if self.timer != 0 {
            let d = DMC { timer_counter: (self.timer_counter + cycles % 0x10000) as u16, ..self };
            d.lemma_run_wf::<M>(m, c);
        }
    }

    pub proof fn lemma_run_wf<M: CpuMemory>(self, m: M::Model, c: CPU)
        requires
            self.wf(),
        ensures
            self.spec_run::<M>(m, c).0.wf(),
        decreases self.timer_counter,
    {
        if !(self.timer == 0 || self.timer_counter < self.timer) {
            let d1 = DMC { timer_counter: (self.timer_counter - self.timer) as u16, ..self };
            d1.lemma_step::<M>(m, c);
            let s = d1.spec_step::<M>(m, c);
            if !(s.3 is Err || s.0.timer_counter >= self.timer_counter) {
                s.0.lemma_run_wf::<M>(s.1, s.2);
            }
        }
    }

    /// `cycles` CPU cycles (taken modulo 2^16) added to the timer counter,
    /// then the timer periods they complete; nothing while the timer is 0.
    pub open spec fn spec_clock<M: CpuMemory>(self, cycles: u32, m: M::Model, c: CPU) -> (DMC, M::Model, CPU, Result<(), Fault>) {
        if self.timer == 0 {
            (self, m, c, Ok(()))
        } else {
            DMC { timer_counter: (self.timer_counter + cycles % 0x10000) as u16, ..self }.spec_run::<M>(m, c)
        }
    }

    pub fn clock<M: CpuMemory>(&mut self, cycles: u32, cpu: &mut CPU, bus: &mut M) -> (r: Result<(), Fault>)
        requires
            old(bus).inv(),
            old(self).timer == 0 || old(self).timer_counter + cycles % 0x10000 <= 0xFFFF,
        ensures
            final(bus).inv(),
            ({
                let s = old(self).spec_clock::<M>(cycles, old(bus).model(), *old(cpu));
                *final(self) == s.0 && final(bus).model() == s.1 && *final(cpu) == s.2 && r == s.3
            }),
            old(self).wf() ==> final(self).wf(),
    {
        if self.timer == 0 {
            return Ok(());
        }
        let add: u16 = (cycles % 0x10000) as u16;
        self.timer_counter = self.timer_counter + add;
        let ghost target = (*self).spec_run::<M>(bus.model(), *cpu);
        let ghost was_wf = old(self).wf();
        while self.timer_counter >= self.timer
            invariant
                bus.inv(),
                self.timer > 0,
                self.spec_run::<M>(bus.model(), *cpu) == target,
                was_wf ==> self.wf(),
                was_wf == old(self).wf(),
                target == old(self).spec_clock::<M>(cycles, old(bus).model(), *old(cpu)),
            decreases self.timer_counter,
        {
            let ghost before = *self;
            let ghost m0 = bus.model();
            let ghost c0 = *cpu;
            self.timer_counter = self.timer_counter - self.timer;
            let ghost d1 = *self;
            proof {
                d1.lemma_step::<M>(m0, c0);
            }
            if self.sample_buffer_index == 0 {
                if self.length_counter > 0 {
                    self.length_counter = self.length_counter - 1;
                    let rd = bus.read(self.current_address, cpu);
                    match rd {
                        Ok(b) => {
                            self.sample_buffer = b;
                            self.sample_buffer_index = 8;
                            if self.current_address == 0xFFFF {
                                self.current_address = 0x8000;
                            } else {
                                self.current_address = self.current_address + 1;
                            }
                        },
                        Err(e) => {
                            proof {
                                assert(d1.spec_step::<M>(m0, c0).3 is Err);
                                assert(before.spec_run::<M>(m0, c0) == d1.spec_step::<M>(m0, c0));
                            }
                            return Err(e);
                        },
                    }
                } else if self.loop_enabled {
                    self.current_address = self.sample_address;
                    self.length_counter = self.sample_length;
                } else if self.irq {
                    cpu.interrupt(InterruptType::IRQ);
                }
            } else {
                if self.sample_buffer % 2 == 1 {
                    if self.output < 126 {
                        self.output = self.output + 2;
                    }
                } else {
                    if self.output > 1 {
                        self.output = self.output - 2;
                    }
                }
                self.sample_buffer = self.sample_buffer / 2;
                self.sample_buffer_index = self.sample_buffer_index - 1;
            }
        }
        Ok(())
    }
}

} // verus!
