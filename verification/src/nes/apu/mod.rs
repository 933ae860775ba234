//! The 2A03 APU: two pulse channels, a triangle, a noise channel, the DMC
//! and the frame counter that clocks their envelopes and lengths.

use vstd::prelude::*;

use crate::nes::apu::dmc::DMC;
use crate::nes::apu::noise::APUNoise;
use crate::nes::apu::pulse::APUPulse;
use crate::nes::apu::triangle::APUTriangle;
use crate::nes::cpu::{Fault, InterruptSet, InterruptType, CPU};

pub mod dmc;
pub mod noise;
pub mod pulse;
pub mod triangle;

verus! {

broadcast use vstd::array::group_array_axioms;

/// The length counter loads of the 32 length indices.
pub open spec fn spec_convert_length_counter(length: u8) -> u8 {
    let table = seq![
        10u8, 254, 20, 2, 40, 4, 80, 6, 160, 8, 60, 10, 14, 12, 26, 14,
        12, 16, 24, 18, 48, 20, 96, 22, 192, 24, 72, 26, 16, 28, 32, 30,
    ];
    table[length as int]
}

/// The sequence the frame counter steps through.
#[derive(Clone, Copy, PartialEq, Eq, Structural, Debug)]
pub enum APUFrameCounterMode {
    FourStep,
    FiveStep,
}

#[derive(Clone, Copy, Debug)]
pub struct APUFrameCounter {
    pub irq_disabled: bool,
    /// The frame interrupt flag: set when the four-step sequence raises its
    /// IRQ, read back in bit 6 of $4015.
    pub interrupt: bool,
    pub mode: APUFrameCounterMode,
    pub step: u32,
    pub frame: u8,
}

impl APUFrameCounter {
    pub fn new() -> (r: APUFrameCounter)
        ensures
            r == (APUFrameCounter { irq_disabled: true, interrupt: false, mode: APUFrameCounterMode::FourStep, step: 0, frame: 0 }),
    {
        APUFrameCounter { irq_disabled: true, interrupt: false, mode: APUFrameCounterMode::FourStep, step: 0, frame: 0 }
    }

    /// $4017, laid out `SD-- ----`: bit 7 (S) selects the five-step
    /// sequence, bit 6 (D) disables the frame IRQ and clears the frame
    /// interrupt flag; the sequence restarts.
    pub open spec fn spec_write_reg(self, data: u8) -> Self {
        APUFrameCounter {
            mode: if data >= 128 { APUFrameCounterMode::FiveStep } else { APUFrameCounterMode::FourStep },
            irq_disabled: (data / 64) % 2 == 1,
            interrupt: if (data / 64) % 2 == 1 { false } else { self.interrupt },
            step: 0,
            frame: 0,
        }
    }

    pub fn write_reg(&mut self, data: u8)
        ensures
            *final(self) == old(self).spec_write_reg(data),
    {
        self.mode = if data >= 128 { APUFrameCounterMode::FiveStep } else { APUFrameCounterMode::FourStep };
        self.irq_disabled = (data / 64) % 2 == 1;
        if self.irq_disabled {
            self.interrupt = false;
        }
        self.step = 0;
        self.frame = 0;
    }
}

pub type SoundSampleType = i16;

pub struct APU {
    pub squares: [APUPulse; 2],
    pub triangle: APUTriangle,
    pub noise: APUNoise,
    pub dmc: DMC,
    pub frame_counter: APUFrameCounter,
    pub sampling_clocks_counter: u32,
}

impl APU {
    /// The length counter load for a 5-bit length index.
    pub fn convert_length_counter(length: u8) -> (r: u8)
        requires
            length < 32,
        ensures
            r == spec_convert_length_counter(length),
    {
        match length {
            0x00 => 10,
            0x01 => 254,
            0x02 => 20,
            0x03 => 2,
            0x04 => 40,
            0x05 => 4,
            0x06 => 80,
            0x07 => 6,
            0x08 => 160,
            0x09 => 8,
            0x0A => 60,
            0x0B => 10,
            0x0C => 14,
            0x0D => 12,
            0x0E => 26,
            0x0F => 14,
            0x10 => 12,
            0x11 => 16,
            0x12 => 24,
            0x13 => 18,
            0x14 => 48,
            0x15 => 20,
            0x16 => 96,
            0x17 => 22,
            0x18 => 192,
            0x19 => 24,
            0x1A => 72,
            0x1B => 26,
            0x1C => 16,
            0x1D => 28,
            0x1E => 32,
            _ => 30,
        }
    }
}


impl APU {
    pub const QUARTER_FRAME_CLOCKS: u32 = 7457;
    pub const CPU_CLOCKS_PER_APU_CLOCK: u8 = 2;
    /// CPU cycles per sample at 11025 Hz.
    pub const SAMPLING_CLOCKS: u32 = 162;
    pub const VOLUME: SoundSampleType = 500;

    pub open spec fn wf(&self) -> bool {
        &&& self.squares[0].wf()
        &&& self.squares[1].wf()
        &&& self.triangle.duty_step < 32
        &&& self.frame_counter.frame < (if self.frame_counter.mode == APUFrameCounterMode::FourStep { 5u8 } else { 6u8 })
    }

    /// An APU with all channels silent, the frame counter in four-step mode
    /// with its IRQ disabled.
    pub fn new() -> (r: APU)
        ensures
            r.wf(),
            r.squares[0] == APUPulse::spec_new(0),
            r.squares[1] == APUPulse::spec_new(1),
            r.triangle == APUTriangle::spec_new(),
            r.noise == APUNoise::spec_new(),
            r.dmc == DMC::spec_new(),
            r.frame_counter == (APUFrameCounter { irq_disabled: true, interrupt: false, mode: APUFrameCounterMode::FourStep, step: 0, frame: 0 }),
            r.sampling_clocks_counter == 0,
    {
        APU {
            squares: [APUPulse::new(0), APUPulse::new(1)],
            triangle: APUTriangle::new(),
            noise: APUNoise::new(),
            dmc: DMC::new(),
            frame_counter: APUFrameCounter::new(),
            sampling_clocks_counter: 0,
        }
    }

    /// Resets the APU to the state `new` gives.
    pub fn init(&mut self)
        ensures
            final(self).wf(),
            final(self).squares[0] == APUPulse::spec_new(0),
            final(self).squares[1] == APUPulse::spec_new(1),
            final(self).triangle == APUTriangle::spec_new(),
            final(self).noise == APUNoise::spec_new(),
            final(self).dmc == DMC::spec_new(),
            final(self).frame_counter == (APUFrameCounter { irq_disabled: true, interrupt: false, mode: APUFrameCounterMode::FourStep, step: 0, frame: 0 }),
            final(self).sampling_clocks_counter == 0,
    {
        *self = APU::new();
    }

    /// The status byte read at $4015, laid out `IF-D NT21`: bits 0-4 say
    /// which channels are playing (pulse 1, pulse 2, triangle, noise, DMC),
    /// bit 6 (F) the frame interrupt flag and bit 7 (I) the DMC IRQ flag.
    pub open spec fn spec_status(&self) -> u8 {
        (
            (if self.squares[0].length_counter > 0 { 1int } else { 0 })
            + (if self.squares[1].length_counter > 0 { 2int } else { 0 })
            + (if self.triangle.length_counter > 0 && self.triangle.linear_counter > 0 { 4int } else { 0 })
            + (if self.noise.length_counter > 0 { 8int } else { 0 })
            + (if self.dmc.length_counter > 0 { 16int } else { 0 })
            + (if self.frame_counter.interrupt { 64int } else { 0 })
            + (if self.dmc.irq { 128int } else { 0 })
        ) as u8
    }

    /// The APU after its status is read: the frame interrupt flag clears.
    pub open spec fn spec_after_status_read(self) -> APU {
        APU { frame_counter: APUFrameCounter { interrupt: false, ..self.frame_counter }, ..self }
    }

    /// Reads $4015, the only readable APU register (see `spec_status`);
    /// the read acknowledges the frame interrupt.
    pub fn read_reg(&mut self, addr: u16) -> (r: u8)
        requires
            addr == 0x4015,
        ensures
            r == old(self).spec_status(),
            *final(self) == old(self).spec_after_status_read(),
    {
        let mut v: u8 = 0;
        if self.squares[0].active() { v = v + 1; }
        if self.squares[1].active() { v = v + 2; }
        if self.triangle.active() { v = v + 4; }
        if self.noise.active() { v = v + 8; }
        if self.dmc.active() { v = v + 16; }
        if self.frame_counter.interrupt { v = v + 64; }
        if self.dmc.irq { v = v + 128; }
        self.frame_counter.interrupt = false;
        v
    }

    pub open spec fn fault_at(r: Result<(), Fault>, addr: u16) -> Result<(), Fault> {
        match r {
            Ok(_) => Ok(()),
            Err(_) => Err(Fault::BusWrite(addr)),
        }
    }

    /// Register writes: $4000-$4003 pulse 1, $4004-$4007 pulse 2,
    /// $4008-$400B triangle, $400C-$400F noise, $4010-$4013 DMC, $4015 the
    /// channel enables (a cleared bit silences the channel), $4017 the frame
    /// counter. Other addresses, and registers a channel lacks, cannot be
    /// written.
    pub open spec fn spec_write_reg(self, addr: u16, data: u8) -> (APU, Result<(), Fault>) {
        if addr < 0x4000 {
            (self, Err(Fault::BusWrite(addr)))
        } else if addr < 0x4004 {
            let (p, r) = self.squares[0].spec_write_reg((addr - 0x4000) as u16, data);
            (APU { squares: vstd::array::spec_array_update(self.squares, 0, p), ..self }, Self::fault_at(r, addr))
        } else if addr < 0x4008 {
            let (p, r) = self.squares[1].spec_write_reg((addr - 0x4004) as u16, data);
            (APU { squares: vstd::array::spec_array_update(self.squares, 1, p), ..self }, Self::fault_at(r, addr))
        } else if addr < 0x400C {
            (APU { triangle: self.triangle.spec_write_reg((addr - 0x4008) as u16, data), ..self }, Ok(()))
        } else if addr < 0x4010 {
            let (n, r) = self.noise.spec_write_reg((addr - 0x400C) as u16, data);
            (APU { noise: n, ..self }, Self::fault_at(r, addr))
        } else if addr < 0x4014 {
            let (d, r) = self.dmc.spec_write_reg((addr - 0x4010) as u16, data);
            (APU { dmc: d, ..self }, Self::fault_at(r, addr))
        } else if addr == 0x4015 {
            let s0 = self.squares[0];
            let s1 = self.squares[1];
            let t = self.triangle;
            (APU {
                squares: [
                    if data % 2 == 1 { s0 } else { APUPulse { length_counter: 0, ..s0 } },
                    if (data / 2) % 2 == 1 { s1 } else { APUPulse { length_counter: 0, ..s1 } },
                ],
                triangle: if (data / 4) % 2 == 1 { t } else { APUTriangle { length_counter: 0, linear_counter: 0, ..t } },
                noise: if (data / 8) % 2 == 1 { self.noise } else { APUNoise { length_counter: 0, ..self.noise } },
                dmc: if (data / 16) % 2 == 1 { self.dmc } else { DMC { length_counter: 0, ..self.dmc } },
                ..self
            }, Ok(()))
        } else if addr == 0x4017 {
            (APU { frame_counter: self.frame_counter.spec_write_reg(data), ..self }, Ok(()))
        } else {
            (self, Err(Fault::BusWrite(addr)))
        }
    }

    pub fn write_reg(&mut self, addr: u16, data: u8) -> (r: Result<(), Fault>)
        requires
            old(self).wf(),
        ensures
            (*final(self), r) == old(self).spec_write_reg(addr, data),
            final(self).wf(),
    {
        if addr < 0x4000 {
            Err(Fault::BusWrite(addr))
        } else if addr < 0x4004 {
            let mut p = self.squares[0];
            let r = p.write_reg(addr - 0x4000, data);
            self.squares[0] = p;
            if r.is_err() { Err(Fault::BusWrite(addr)) } else { Ok(()) }
        } else if addr < 0x4008 {
            let mut p = self.squares[1];
            let r = p.write_reg(addr - 0x4004, data);
            self.squares[1] = p;
            if r.is_err() { Err(Fault::BusWrite(addr)) } else { Ok(()) }
        } else if addr < 0x400C {
            self.triangle.write_reg(addr - 0x4008, data);
            Ok(())
        } else if addr < 0x4010 {
            let r = self.noise.write_reg(addr - 0x400C, data);
            if r.is_err() { Err(Fault::BusWrite(addr)) } else { Ok(()) }
        } else if addr < 0x4014 {
            let r = self.dmc.write_reg(addr - 0x4010, data);
            if r.is_err() { Err(Fault::BusWrite(addr)) } else { Ok(()) }
        } else if addr == 0x4015 {
            let mut p0 = self.squares[0];
            p0.set_active(data % 2 == 1);
            let mut p1 = self.squares[1];
            p1.set_active((data / 2) % 2 == 1);
            self.squares = [p0, p1];
            self.triangle.set_active((data / 4) % 2 == 1);
            self.noise.set_active((data / 8) % 2 == 1);
            self.dmc.set_active((data / 16) % 2 == 1);
            Ok(())
        } else if addr == 0x4017 {
            self.frame_counter.write_reg(data);
            Ok(())
        } else {
            Err(Fault::BusWrite(addr))
        }
    }
}


/// The mix: a sample is the sum of the outputs of pulse 1, pulse 2 and the
/// triangle, each taken from that channel's own state, times 500; the two
/// pulse channels count alike, so swapping them leaves the sample as it
/// was. Every sample that `clock` returns is this mix of the channels as
/// they stand after the clock.
pub proof fn lemma_mix(a: APU, cycles: u32)
    ensures
        a.spec_output() == ((a.squares[0].spec_get_output() + a.squares[1].spec_get_output()
            + a.triangle.spec_get_output()) * 500) as i16,
        (APU { squares: [a.squares[1], a.squares[0]], ..a }).spec_output() == a.spec_output(),
        ({
            let (b, irq, samples) = a.spec_clock(cycles);
            forall|i: int| 0 <= i < samples.len() ==> #[trigger] samples[i] == ((b.squares[0].spec_get_output()
                + b.squares[1].spec_get_output() + b.triangle.spec_get_output()) * 500) as i16
        }),
{
}

/// Bit `k` (0-7) of a status byte.
pub open spec fn status_bit(v: u8, k: int) -> bool {
    (v as int / bit_weight(k)) % 2 == 1
}

/// 2 to the power `k`, for a bit `k` of a byte.
pub open spec fn bit_weight(k: int) -> int {
    if k == 0 { 1 } else if k == 1 { 2 } else if k == 2 { 4 } else if k == 3 { 8 }
    else if k == 4 { 16 } else if k == 5 { 32 } else if k == 6 { 64 } else { 128 }
}

/// The status byte's bits, from the flags that make it up.
proof fn lemma_status_bits(b0: bool, b1: bool, b2: bool, b3: bool, b4: bool, b6: bool, b7: bool)
    ensures
        ({
            let v = ((if b0 { 1int } else { 0 }) + (if b1 { 2int } else { 0 }) + (if b2 { 4int } else { 0 })
                + (if b3 { 8int } else { 0 }) + (if b4 { 16int } else { 0 }) + (if b6 { 64int } else { 0 })
                + (if b7 { 128int } else { 0 })) as u8;
            &&& status_bit(v, 0) == b0
            &&& status_bit(v, 1) == b1
            &&& status_bit(v, 2) == b2
            &&& status_bit(v, 3) == b3
            &&& status_bit(v, 4) == b4
            &&& status_bit(v, 6) == b6
            &&& status_bit(v, 7) == b7
        }),
{
    let v = (if b0 { 1int } else { 0 }) + (if b1 { 2int } else { 0 }) + (if b2 { 4int } else { 0 })
        + (if b3 { 8int } else { 0 }) + (if b4 { 16int } else { 0 }) + (if b6 { 64int } else { 0 })
        + (if b7 { 128int } else { 0 });
    assert(0 <= v < 256);
    assert((v as u8) as int == v);
}

/// Writing the channel enables at $4015, then reading $4015: each channel
/// whose bit was 0 (pulse 1, pulse 2, triangle, noise, DMC for bits 0-4)
/// reads as silent, each channel whose bit was 1 keeps its length counter
/// and reads as before, and bits 6 and 7 read as before.
#[verifier::spinoff_prover]
#[verifier::rlimit(40)]
pub proof fn lemma_enable_then_status(a: APU, data: u8)
    ensures
        ({
            let (b, w) = a.spec_write_reg(0x4015, data);
            let before = a.spec_status();
            let after = b.spec_status();
            &&& w is Ok
            &&& forall|k: int| 0 <= k < 5 && !status_bit(data, k) ==> !(#[trigger] status_bit(after, k))
            &&& forall|k: int| 0 <= k < 5 && status_bit(data, k) ==> (#[trigger] status_bit(after, k)) == status_bit(before, k)
            &&& status_bit(data, 0) ==> b.squares[0].length_counter == a.squares[0].length_counter
            &&& status_bit(data, 1) ==> b.squares[1].length_counter == a.squares[1].length_counter
            &&& status_bit(data, 2) ==> b.triangle == a.triangle
            &&& status_bit(data, 3) ==> b.noise.length_counter == a.noise.length_counter
            &&& status_bit(data, 4) ==> b.dmc.length_counter == a.dmc.length_counter
            &&& status_bit(after, 6) == status_bit(before, 6)
            &&& status_bit(after, 7) == status_bit(before, 7)
        }),
{
    let (b, w) = a.spec_write_reg(0x4015, data);
    lemma_status_bits(
        a.squares[0].length_counter > 0, a.squares[1].length_counter > 0,
        a.triangle.length_counter > 0 && a.triangle.linear_counter > 0, a.noise.length_counter > 0,
        a.dmc.length_counter > 0, a.frame_counter.interrupt, a.dmc.irq);
    lemma_status_bits(
        b.squares[0].length_counter > 0, b.squares[1].length_counter > 0,
        b.triangle.length_counter > 0 && b.triangle.linear_counter > 0, b.noise.length_counter > 0,
        b.dmc.length_counter > 0, b.frame_counter.interrupt, b.dmc.irq);
    assert(status_bit(data, 0) == (data % 2 == 1));
    assert(status_bit(data, 1) == ((data / 2) % 2 == 1));
    assert(status_bit(data, 2) == ((data / 4) % 2 == 1));
    assert(status_bit(data, 3) == ((data / 8) % 2 == 1));
    assert(status_bit(data, 4) == ((data / 16) % 2 == 1));
}


impl APU {
    /// The envelope and linear-counter clock of the pulse and triangle channels.
    pub open spec fn spec_quarter_frame(self) -> APU {
        APU {
            squares: [self.squares[0].spec_quarter_frame(), self.squares[1].spec_quarter_frame()],
            triangle: self.triangle.spec_quarter_frame(),
            ..self
        }
    }

    /// The sweep and length clock of the pulse and triangle channels.
    pub open spec fn spec_half_frame(self) -> APU {
        APU {
            squares: [self.squares[0].spec_half_frame(), self.squares[1].spec_half_frame()],
            triangle: self.triangle.spec_half_frame(),
            ..self
        }
    }

    fn quarter_frame(&mut self)
        requires
            old(self).wf(),
        ensures
            *final(self) == old(self).spec_quarter_frame(),
            final(self).wf(),
    {
        let mut p0 = self.squares[0];
        p0.quarter_frame();
        let mut p1 = self.squares[1];
        p1.quarter_frame();
        self.squares = [p0, p1];
        self.triangle.quarter_frame();
    }

    fn half_frame(&mut self)
        requires
            old(self).wf(),
        ensures
            *final(self) == old(self).spec_half_frame(),
            final(self).wf(),
    {
        let mut p0 = self.squares[0];
        p0.half_frame();
        let mut p1 = self.squares[1];
        p1.half_frame();
        self.squares = [p0, p1];
        self.triangle.half_frame();
    }

    /// One step of the frame sequencer, taken when a quarter frame has
    /// elapsed: in four-step mode steps 1..4 and 0, a half frame on the odd
    /// ones, a quarter frame on each and the frame IRQ (unless disabled) on
    /// step 0; in five-step mode steps 1..5 and 0, a half frame on 1 and 4, a
    /// quarter frame on all but 3, no IRQ. Raising the IRQ sets the frame
    /// interrupt flag; the second result says whether it was raised.
    pub open spec fn spec_frame_event(self) -> (APU, bool) {
        let fc = self.frame_counter;
        let step = (fc.step - Self::QUARTER_FRAME_CLOCKS) as u32;
        match fc.mode {
            APUFrameCounterMode::FourStep => {
                let frame: u8 = if fc.frame + 1 == 5 { 0 } else { (fc.frame + 1) as u8 };
                let raise = frame == 0 && !fc.irq_disabled;
                let a = APU { frame_counter: APUFrameCounter { step, frame, interrupt: fc.interrupt || raise, ..fc }, ..self };
                let a = if frame % 2 == 1 { a.spec_half_frame() } else { a };
                (a.spec_quarter_frame(), raise)
            },
            APUFrameCounterMode::FiveStep => {
                let frame: u8 = if fc.frame + 1 == 6 { 0 } else { (fc.frame + 1) as u8 };
                let a = APU { frame_counter: APUFrameCounter { step, frame, ..fc }, ..self };
                let a = if frame == 1 || frame == 4 { a.spec_half_frame() } else { a };
                (if frame != 3 { a.spec_quarter_frame() } else { a }, false)
            },
        }
    }

    /// The frame sequencer steps taken while a whole quarter frame of
    /// cycles is pending, and whether any of them raised the frame IRQ.
    pub open spec fn spec_run_frames(self) -> (APU, bool)
        decreases self.frame_counter.step,
    {
        if self.frame_counter.step >= Self::QUARTER_FRAME_CLOCKS {
            let (a, irq) = self.spec_frame_event();
            let (b, later) = a.spec_run_frames();
            (b, irq || later)
        } else {
            (self, false)
        }
    }

    /// The mixed sample of the two pulse channels and the triangle.
    pub open spec fn spec_output(self) -> i16 {
        ((self.squares[0].spec_get_output() + self.squares[1].spec_get_output()
            + self.triangle.spec_get_output()) * Self::VOLUME) as i16
    }

    /// Advancing the APU by `cycles` CPU cycles: the channel timers run, the
    /// frame sequencer takes every quarter frame that has elapsed, and one
    /// sample of the mix is taken for every `SAMPLING_CLOCKS` cycles pending.
    /// Gives the APU, whether the frame IRQ was raised, and the samples.
    pub open spec fn spec_clock(self, cycles: u32) -> (APU, bool, Seq<i16>) {
        let fc = self.frame_counter;
        let a0 = APU {
            frame_counter: APUFrameCounter { step: (fc.step + cycles) as u32, ..fc },
            sampling_clocks_counter: (self.sampling_clocks_counter + cycles) as u32,
            squares: [self.squares[0].spec_clock(cycles), self.squares[1].spec_clock(cycles)],
            triangle: self.triangle.spec_clock(cycles),
            ..self
        };
        let (a1, irq) = a0.spec_run_frames();
        let n = a1.sampling_clocks_counter / Self::SAMPLING_CLOCKS;
        let out = a1.spec_output();
        (
            APU { sampling_clocks_counter: a1.sampling_clocks_counter % Self::SAMPLING_CLOCKS, ..a1 },
            irq,
            Seq::new(n as nat, |i: int| out),
        )
    }

    proof fn lemma_frame_event_wf(self)
        requires
            self.wf(),
            self.frame_counter.step >= Self::QUARTER_FRAME_CLOCKS,
        ensures
            self.spec_frame_event().0.wf(),
            self.spec_frame_event().0.sampling_clocks_counter == self.sampling_clocks_counter,
            self.spec_frame_event().0.frame_counter.step == self.frame_counter.step - Self::QUARTER_FRAME_CLOCKS,
    {
    }

    proof fn lemma_run_frames_wf(self)
        requires
            self.wf(),
        ensures
            self.spec_run_frames().0.wf(),
            self.spec_run_frames().0.sampling_clocks_counter == self.sampling_clocks_counter,
        decreases self.frame_counter.step,
    {
        if self.frame_counter.step >= Self::QUARTER_FRAME_CLOCKS {
            self.lemma_frame_event_wf();
            let (a, irq) = self.spec_frame_event();
            a.lemma_run_frames_wf();
        }
    }

    /// Runs the APU for `cycles` CPU cycles (see `spec_clock`); raises the
    /// CPU's IRQ when the frame sequencer asks for it, and returns the
    /// samples to play, one per channel pair.
    pub fn clock(&mut self, cycles: u32, cpu: &mut CPU) -> (samples: Vec<SoundSampleType>)
        requires
            old(self).wf(),
            old(self).frame_counter.step + cycles <= u32::MAX,
            old(self).sampling_clocks_counter + cycles <= u32::MAX,
        ensures
            final(self).wf(),
            *final(self) == old(self).spec_clock(cycles).0,
            samples@ == old(self).spec_clock(cycles).2,
            *final(cpu) == (if old(self).spec_clock(cycles).1 {
                CPU { interrupt: old(cpu).interrupt.spec_with(InterruptType::IRQ, true), ..*old(cpu) }
            } else {
                *old(cpu)
            }),
    {
        let ghost start = *self;
        let ghost start_cpu = *cpu;
        self.frame_counter.step = self.frame_counter.step + cycles;
        self.sampling_clocks_counter = self.sampling_clocks_counter + cycles;
        let mut p0 = self.squares[0];
        p0.clock(cycles);
        let mut p1 = self.squares[1];
        p1.clock(cycles);
        self.squares = [p0, p1];
        self.triangle.clock(cycles);
        let ghost a0 = *self;
        let ghost mut raised = false;
        proof {
            a0.lemma_run_frames_wf();
        }
        while self.frame_counter.step >= Self::QUARTER_FRAME_CLOCKS
            invariant
                self.wf(),
                self.spec_run_frames().0 == a0.spec_run_frames().0,
                a0.spec_run_frames().1 == (raised || self.spec_run_frames().1),
                *cpu == (if raised {
                    CPU { interrupt: start_cpu.interrupt.spec_with(InterruptType::IRQ, true), ..start_cpu }
                } else {
                    start_cpu
                }),
            decreases self.frame_counter.step,
        {
            let ghost before = *self;
            self.frame_counter.step = self.frame_counter.step - Self::QUARTER_FRAME_CLOCKS;
            let next: u8 = self.frame_counter.frame + 1;
            match self.frame_counter.mode {
                APUFrameCounterMode::FourStep => {
                    self.frame_counter.frame = if next == 5 { 0 } else { next };
                    if self.frame_counter.frame % 2 == 1 {
                        self.half_frame();
                    }
                    self.quarter_frame();
                    if self.frame_counter.frame == 0 && !self.frame_counter.irq_disabled {
                        cpu.interrupt(InterruptType::IRQ);
                        self.frame_counter.interrupt = true;
                        proof { raised = true; }
                    }
                },
                APUFrameCounterMode::FiveStep => {
                    self.frame_counter.frame = if next == 6 { 0 } else { next };
                    if self.frame_counter.frame == 1 || self.frame_counter.frame == 4 {
                        self.half_frame();
                    }
                    if self.frame_counter.frame != 3 {
                        self.quarter_frame();
                    }
                },
            }
            assert(*self == before.spec_frame_event().0);
            proof { before.lemma_frame_event_wf(); }
        }
        let out: i16 = (self.squares[0].get_output() + self.squares[1].get_output()
            + self.triangle.get_output()) * Self::VOLUME;
        let mut samples: Vec<SoundSampleType> = Vec::new();
        let ghost a1 = *self;
        while self.sampling_clocks_counter >= Self::SAMPLING_CLOCKS
            invariant
                self.wf(),
                *self == (APU { sampling_clocks_counter: self.sampling_clocks_counter, ..a1 }),
                out == a1.spec_output(),
                samples@.len() * Self::SAMPLING_CLOCKS + self.sampling_clocks_counter == a1.sampling_clocks_counter,
                forall|i: int| 0 <= i < samples@.len() ==> samples@[i] == out,
            decreases self.sampling_clocks_counter,
        {
            self.sampling_clocks_counter = self.sampling_clocks_counter - Self::SAMPLING_CLOCKS;
            samples.push(out);
        }
        proof {
            let n = a1.sampling_clocks_counter / Self::SAMPLING_CLOCKS;
            vstd::arithmetic::div_mod::lemma_fundamental_div_mod_converse(
                a1.sampling_clocks_counter as int, Self::SAMPLING_CLOCKS as int,
                samples@.len() as int, self.sampling_clocks_counter as int);
            assert(samples@ =~= start.spec_clock(cycles).2);
        }
        samples
    }
}

} // verus!
