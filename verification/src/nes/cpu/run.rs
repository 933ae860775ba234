//! The CPU clock: stalls, interrupts, instruction fetch and the history of
//! executed instructions.

use vstd::prelude::*;

use crate::nes::cpu::alu::StatusFlags;
use crate::nes::cpu::exec::{bind, make_word, word};
use crate::logger::spec_hex;
use crate::nes::cpu::instr::{spec_instruction_text, Instruction};
use crate::text::{push_bytes, push_hex};
use crate::nes::cpu::{bus_dma, bus_read, CpuMemory, Fault, InterruptSet, InterruptType, CPU};

verus! {

/// The entries of an instruction history, oldest first.
pub uninterp spec fn history_entries(v: heapless::Vec<Option<Instruction>, 16>) -> Seq<Option<Instruction>>;

/// The history after its entry `i` is overwritten with `x`.
pub uninterp spec fn history_written(v: heapless::Vec<Option<Instruction>, 16>, i: usize, x: Option<Instruction>) -> heapless::Vec<Option<Instruction>, 16>;

/// `heapless::Vec::new`: an empty history.
#[verifier::external_body]
fn history_new() -> (r: heapless::Vec<Option<Instruction>, 16>)
    ensures
        history_entries(r) == Seq::<Option<Instruction>>::empty(),
{
    heapless::Vec::new()
}

/// `heapless::Vec::push`: appends the entry while fewer than 16 are held,
/// and otherwise hands it back and keeps the entries.
#[verifier::external_body]
fn history_push(v: &mut heapless::Vec<Option<Instruction>, 16>, item: Option<Instruction>) -> (r: Result<(), Option<Instruction>>)
    ensures
        r is Ok <==> history_entries(*old(v)).len() < 16,
        r is Ok ==> history_entries(*final(v)) == history_entries(*old(v)).push(item),
        r is Err ==> r->Err_0 == item && history_entries(*final(v)) == history_entries(*old(v)),
{
    v.push(item)
}

/// The number of entries (the length of the slice it derefs to).
#[verifier::external_body]
fn history_len(v: &heapless::Vec<Option<Instruction>, 16>) -> (r: usize)
    ensures
        r == history_entries(*v).len(),
{
    v.len()
}

/// Entry `i`, read through the slice the history derefs to.
#[verifier::external_body]
pub(crate) fn history_get(v: &heapless::Vec<Option<Instruction>, 16>, i: usize) -> (r: Option<Instruction>)
    requires
        i < history_entries(*v).len(),
    ensures
        r == history_entries(*v)[i as int],
{
    v[i]
}

/// Entry `i` overwritten with `x`, through the mutable slice the history
/// derefs to; the other entries stay.
#[verifier::external_body]
fn history_set(v: &mut heapless::Vec<Option<Instruction>, 16>, i: usize, x: Option<Instruction>)
    requires
        i < history_entries(*old(v)).len(),
    ensures
        *final(v) == history_written(*old(v), i, x),
        history_entries(*final(v)) == history_entries(*old(v)).update(i as int, x),
{
    v[i] = x;
}

/// A history of `HISTORY_SIZE` empty entries.
fn empty_history() -> (r: heapless::Vec<Option<Instruction>, 16>)
    ensures
        history_entries(r) == Seq::new(16, |i: int| None::<Instruction>),
{
    let mut h = history_new();
    let mut i: usize = 0;
    while i < CPU::HISTORY_SIZE
        invariant
            i <= 16,
            history_entries(h) == Seq::new(i as nat, |j: int| None::<Instruction>),
        decreases 16 - i,
    {
        let _ = history_push(&mut h, None);
        i = i + 1;
        assert(history_entries(h) =~= Seq::new(i as nat, |j: int| None::<Instruction>));
    }
    h
}

/// Entries i..15 of the history each take the value of the next one.
pub open spec fn spec_shift_history(h: heapless::Vec<Option<Instruction>, 16>, i: nat) -> heapless::Vec<Option<Instruction>, 16>
    decreases 15 - i,
{
    if i < 15 {
        spec_shift_history(history_written(h, i as usize, history_entries(h)[i + 1 as int]), i + 1)
    } else {
        h
    }
}

impl CPU {
    pub const CLOCK_FREQ: u32 = 1789773;
    pub const HISTORY_SIZE: usize = 16;
    pub const MAX_STALL_CYCLES: u32 = 8;
    pub const INTERRUPT_CYCLES: u32 = 7;
    /// Cycles an OAM DMA transfer stalls the CPU.
    pub const OAM_DMA_CYCLES: u32 = 513;

    /// A powered-on CPU: registers cleared, nothing pending, empty history.
    pub fn new() -> (r: CPU)
        ensures
            r.reg_a == 0 && r.reg_x == 0 && r.reg_y == 0 && r.reg_pc == 0 && r.reg_sp == 0,
            r.reg_p == StatusFlags::spec_from_bits(0),
            r.cycles == 0 && r.inst == 0 && r.stall_cycles == 0 && !r.defer_irq,
            r.interrupt == InterruptSet::empty_spec(),
            history_entries(r.history) == Seq::new(16, |i: int| None::<Instruction>),
    {
        CPU {
            reg_a: 0,
            reg_x: 0,
            reg_y: 0,
            reg_pc: 0,
            reg_sp: 0,
            reg_p: StatusFlags::from_bits_retain(0),
            cycles: 0,
            inst: 0,
            interrupt: InterruptSet::empty(),
            defer_irq: false,
            stall_cycles: 0,
            history: empty_history(),
        }
    }

    /// Clears the pending interrupts, the IRQ deferral and the history.
    pub fn init(&mut self)
        ensures
            *final(self) == (CPU {
                interrupt: InterruptSet::empty_spec(),
                defer_irq: false,
                history: final(self).history,
                ..*old(self)
            }),
            history_entries(final(self).history) == Seq::new(16, |i: int| None::<Instruction>),
    {
        self.interrupt = InterruptSet::empty();
        self.defer_irq = false;
        self.history = empty_history();
    }

    /// Raises an interrupt of the given kind.
    pub fn interrupt(&mut self, int_type: InterruptType)
        ensures
            *final(self) == (CPU { interrupt: old(self).interrupt.spec_with(int_type, true), ..*old(self) }),
    {
        self.interrupt.set(int_type, true);
    }

    /// Withdraws a pending interrupt of the given kind.
    pub fn cancel_interrupt(&mut self, int_type: InterruptType)
        ensures
            *final(self) == (CPU { interrupt: old(self).interrupt.spec_with(int_type, false), ..*old(self) }),
    {
        self.interrupt.set(int_type, false);
    }

    /// The stall counter after `n` more cycles, saturating at the top of its range.
    pub open spec fn stall_after(s: u32, n: u32) -> u32 {
        if s + n > u32::MAX { u32::MAX } else { (s + n) as u32 }
    }

    /// Stalls the CPU for an OAM DMA transfer.
    pub fn dma_stall(&mut self)
        ensures
            *final(self) == (CPU { stall_cycles: Self::stall_after(old(self).stall_cycles, Self::OAM_DMA_CYCLES), ..*old(self) }),
    {
        self.stall_cycles = self.stall_cycles.saturating_add(Self::OAM_DMA_CYCLES);
    }

    /// Stalls the CPU while the DMC fetches a sample.
    pub fn dmc_stall(&mut self)
        ensures
            *final(self) == (CPU { stall_cycles: Self::stall_after(old(self).stall_cycles, 4), ..*old(self) }),
    {
        self.stall_cycles = self.stall_cycles.saturating_add(4);
    }

    /// Pushes PC (high byte first) and the status byte, as interrupts do.
    pub open spec fn spec_push_context<B: CpuMemory>(c: CPU, m: B::Model) -> (CPU, B::Model, Result<(), Fault>) {
        bind(Self::spec_push_stack::<B>(c, m, (c.reg_pc / 256) as u8), |c1: CPU, m1: B::Model, u: ()|
            bind(Self::spec_push_stack::<B>(c1, m1, (c1.reg_pc % 256) as u8), |c2: CPU, m2: B::Model, u2: ()|
                Self::spec_push_stack::<B>(c2, m2, c2.reg_p.spec_bits())))
    }

    fn push_context<B: CpuMemory>(&mut self, bus: &mut B) -> (r: Result<(), Fault>)
        requires
            old(bus).inv(),
        ensures
            final(bus).inv(),
            (*final(self), final(bus).model(), r) == Self::spec_push_context::<B>(*old(self), old(bus).model()),
    {
        self.push_stack((self.reg_pc / 256) as u8, bus)?;
        self.push_stack((self.reg_pc % 256) as u8, bus)?;
        self.push_stack(self.reg_p.bits(), bus)
    }

    /// Reads the little-endian vector at `addr` and `addr + 1`.
    pub open spec fn spec_read_vector<B: CpuMemory>(c: CPU, m: B::Model, addr: u16) -> (CPU, B::Model, Result<u16, Fault>)
        recommends addr < 0xFFFF,
    {
        bind(bus_read::<B>(m, c, addr), |c1: CPU, m1: B::Model, lo: u8|
            bind(bus_read::<B>(m1, c1, (addr + 1) as u16), |c2: CPU, m2: B::Model, hi: u8| (c2, m2, Ok(word(lo, hi)))))
    }

    fn read_vector<B: CpuMemory>(&mut self, addr: u16, bus: &mut B) -> (r: Result<u16, Fault>)
        requires
            old(bus).inv(),
            addr < 0xFFFF,
        ensures
            final(bus).inv(),
            (*final(self), final(bus).model(), r) == Self::spec_read_vector::<B>(*old(self), old(bus).model(), addr),
    {
        let lo = bus.read(addr, self)?;
        let hi = bus.read(addr + 1, self)?;
        Ok(make_word(lo, hi))
    }

    /// Entering an interrupt handler: PC and flags pushed, PC loaded from
    /// the vector at `vec`, interrupts disabled (and the break flag cleared
    /// for BRK).
    pub open spec fn spec_serve<B: CpuMemory>(c0: CPU, m: B::Model, vec: u16, clear_brk: bool) -> (CPU, B::Model, Result<bool, Fault>) {
        bind(Self::spec_push_context::<B>(c0, m), |c1: CPU, m1: B::Model, u: ()|
            bind(Self::spec_read_vector::<B>(c1, m1, vec), |c2: CPU, m2: B::Model, v: u16|
                (CPU {
                    reg_pc: v,
                    reg_p: StatusFlags { int: true, brk: if clear_brk { false } else { c2.reg_p.brk }, ..c2.reg_p },
                    ..c2
                }, m2, Ok(true))))
    }

    fn serve<B: CpuMemory>(&mut self, vec: u16, clear_brk: bool, bus: &mut B) -> (r: Result<bool, Fault>)
        requires
            old(bus).inv(),
            vec < 0xFFFF,
        ensures
            final(bus).inv(),
            (*final(self), final(bus).model(), r) == Self::spec_serve::<B>(*old(self), old(bus).model(), vec, clear_brk),
    {
        self.push_context(bus)?;
        let v = self.read_vector(vec, bus)?;
        self.reg_pc = v;
        if clear_brk {
            self.reg_p.brk = false;
        }
        self.reg_p.int = true;
        Ok(true)
    }

    pub open spec fn spec_reset<B: CpuMemory>(c0: CPU, m: B::Model) -> (CPU, B::Model, Result<bool, Fault>) {
        bind(Self::spec_read_vector::<B>(c0, m, 0xFFFC), |c1: CPU, m1: B::Model, v: u16|
            (CPU { reg_sp: 0xFD, reg_pc: v, reg_p: StatusFlags::spec_from_bits(0x24), ..c1 }, m1, Ok(true)))
    }

    fn reset<B: CpuMemory>(&mut self, bus: &mut B) -> (r: Result<bool, Fault>)
        requires
            old(bus).inv(),
        ensures
            final(bus).inv(),
            (*final(self), final(bus).model(), r) == Self::spec_reset::<B>(*old(self), old(bus).model()),
    {
        let v = self.read_vector(0xFFFC, bus)?;
        self.reg_sp = 0xFD;
        self.reg_pc = v;
        self.reg_p = StatusFlags::from_bits_retain(0x24);
        Ok(true)
    }

    /// Serving the most urgent pending interrupt, RST first, then NMI, BRK
    /// and IRQ; BRK and IRQ wait while interrupts are disabled. The result
    /// says whether one was served.
    pub open spec fn spec_exec_pending_interrupt<B: CpuMemory>(cpu: CPU, m: B::Model) -> (CPU, B::Model, Result<bool, Fault>) {
        let i = cpu.interrupt;
        if i.rst {
            Self::spec_reset::<B>(CPU { interrupt: i.spec_with(InterruptType::RST, false), ..cpu }, m)
        } else if i.nmi {
            Self::spec_serve::<B>(CPU { interrupt: i.spec_with(InterruptType::NMI, false), reg_p: StatusFlags { brk: false, ..cpu.reg_p }, ..cpu }, m, 0xFFFA, false)
        } else if i.brk {
            if cpu.reg_p.int {
                (cpu, m, Ok(false))
            } else {
                Self::spec_serve::<B>(CPU { interrupt: i.spec_with(InterruptType::BRK, false), reg_p: StatusFlags { brk: true, ..cpu.reg_p }, ..cpu }, m, 0xFFFE, true)
            }
        } else if i.irq {
            if cpu.reg_p.int {
                (cpu, m, Ok(false))
            } else {
                Self::spec_serve::<B>(CPU { interrupt: i.spec_with(InterruptType::IRQ, false), reg_p: StatusFlags { brk: false, ..cpu.reg_p }, ..cpu }, m, 0xFFFE, false)
            }
        } else {
            (cpu, m, Ok(false))
        }
    }

    fn exec_pending_interrupt<B: CpuMemory>(&mut self, bus: &mut B) -> (r: Result<bool, Fault>)
        requires
            old(bus).inv(),
        ensures
            final(bus).inv(),
            (*final(self), final(bus).model(), r) == Self::spec_exec_pending_interrupt::<B>(*old(self), old(bus).model()),
    {
        if self.interrupt.rst {
            self.interrupt.set(InterruptType::RST, false);
            self.reset(bus)
        } else if self.interrupt.nmi {
            self.interrupt.set(InterruptType::NMI, false);
            self.reg_p.brk = false;
            self.serve(0xFFFA, false, bus)
        } else if self.interrupt.brk {
            if self.reg_p.int {
                Ok(false)
            } else {
                self.interrupt.set(InterruptType::BRK, false);
                self.reg_p.brk = true;
                self.serve(0xFFFE, true, bus)
            }
        } else if self.interrupt.irq {
            if self.reg_p.int {
                Ok(false)
            } else {
                self.interrupt.set(InterruptType::IRQ, false);
                self.reg_p.brk = false;
                self.serve(0xFFFE, false, bus)
            }
        } else {
            Ok(false)
        }
    }

    /// Burning stall cycles: at most `MAX_STALL_CYCLES` per call; when the
    /// last ones are burnt the pending OAM DMA transfer is done. No stall
    /// gives no cycles.
    pub open spec fn spec_resolve_stall<B: CpuMemory>(cpu: CPU, m: B::Model) -> (CPU, B::Model, Result<Option<u32>, Fault>) {
        if cpu.stall_cycles > Self::MAX_STALL_CYCLES {
            (CPU { stall_cycles: (cpu.stall_cycles - Self::MAX_STALL_CYCLES) as u32, ..cpu }, m, Ok(Some(Self::MAX_STALL_CYCLES)))
        } else if cpu.stall_cycles > 0 {
            let n = cpu.stall_cycles;
            bind(bus_dma::<B>(m, CPU { stall_cycles: 0, ..cpu }), |c: CPU, m1: B::Model, u: ()| (c, m1, Ok(Some(n))))
        } else {
            (cpu, m, Ok(None))
        }
    }

    pub fn resolve_stall<B: CpuMemory>(&mut self, bus: &mut B) -> (r: Result<Option<u32>, Fault>)
        requires
            old(bus).inv(),
        ensures
            final(bus).inv(),
            (*final(self), final(bus).model(), r) == Self::spec_resolve_stall::<B>(*old(self), old(bus).model()),
    {
        if self.stall_cycles > Self::MAX_STALL_CYCLES {
            self.stall_cycles = self.stall_cycles - Self::MAX_STALL_CYCLES;
            Ok(Some(Self::MAX_STALL_CYCLES))
        } else if self.stall_cycles > 0 {
            let cycles = self.stall_cycles;
            self.stall_cycles = 0;
            bus.do_dma_transfer(self)?;
            Ok(Some(cycles))
        } else {
            Ok(None)
        }
    }

    pub open spec fn served_cycles(r: Result<bool, Fault>) -> Result<Option<u32>, Fault> {
        match r {
            Ok(true) => Ok(Some(Self::INTERRUPT_CYCLES)),
            Ok(false) => Ok(None),
            Err(e) => Err(e),
        }
    }

    /// Serving a pending interrupt, taking `INTERRUPT_CYCLES` when one is
    /// served. An IRQ deferred by the last instruction (CLI, PLP or RTI that
    /// enabled interrupts) waits one more instruction but stays pending.
    pub open spec fn spec_resolve_interrupt<B: CpuMemory>(cpu: CPU, m: B::Model) -> (CPU, B::Model, Result<Option<u32>, Fault>) {
        let c1 = CPU { defer_irq: false, ..cpu };
        if cpu.defer_irq && cpu.interrupt.irq {
            let c2 = CPU { interrupt: c1.interrupt.spec_with(InterruptType::IRQ, false), ..c1 };
            let (c3, m3, r) = Self::spec_exec_pending_interrupt::<B>(c2, m);
            (CPU { interrupt: c3.interrupt.spec_with(InterruptType::IRQ, true), ..c3 }, m3, Self::served_cycles(r))
        } else {
            let (c3, m3, r) = Self::spec_exec_pending_interrupt::<B>(c1, m);
            (c3, m3, Self::served_cycles(r))
        }
    }

    pub fn resolve_interrupt<B: CpuMemory>(&mut self, bus: &mut B) -> (r: Result<Option<u32>, Fault>)
        requires
            old(bus).inv(),
        ensures
            final(bus).inv(),
            (*final(self), final(bus).model(), r) == Self::spec_resolve_interrupt::<B>(*old(self), old(bus).model()),
    {
        let suppress_irq = self.defer_irq;
        self.defer_irq = false;
        if suppress_irq && self.interrupt.irq {
            self.interrupt.set(InterruptType::IRQ, false);
            let interrupted = self.exec_pending_interrupt(bus);
            self.interrupt.set(InterruptType::IRQ, true);
            match interrupted {
                Ok(true) => Ok(Some(Self::INTERRUPT_CYCLES)),
                Ok(false) => Ok(None),
                Err(e) => Err(e),
            }
        } else {
            match self.exec_pending_interrupt(bus) {
                Ok(true) => Ok(Some(Self::INTERRUPT_CYCLES)),
                Ok(false) => Ok(None),
                Err(e) => Err(e),
            }
        }
    }

    /// The history after one more instruction: the oldest entry drops out.
    pub open spec fn spec_push_history(h: Seq<Option<Instruction>>, inst: Instruction) -> Seq<Option<Instruction>> {
        h.subrange(1, h.len() as int).push(Some(inst))
    }

    /// The history after one more instruction: each entry moves one place
    /// towards the front, the oldest dropping out, and the instruction
    /// takes the last place.
    pub open spec fn pushed_history(h: heapless::Vec<Option<Instruction>, 16>, inst: Instruction) -> heapless::Vec<Option<Instruction>, 16> {
        history_written(spec_shift_history(h, 0), 15, Some(inst))
    }

    fn update_history(&mut self, inst: &Instruction)
        requires
            history_entries(old(self).history).len() == Self::HISTORY_SIZE,
        ensures
            *final(self) == (CPU { history: Self::pushed_history(old(self).history, *inst), ..*old(self) }),
            history_entries(final(self).history) == Self::spec_push_history(history_entries(old(self).history), *inst),
    {
        let ghost h0 = self.history;
        let mut i: usize = 0;
        while i < Self::HISTORY_SIZE - 1
            invariant
                i <= 15,
                *self == (CPU { history: self.history, ..*old(self) }),
                h0 == old(self).history,
                history_entries(h0).len() == 16,
                spec_shift_history(self.history, i as nat) == spec_shift_history(h0, 0),
                history_entries(self.history).len() == 16,
                forall|j: int| 0 <= j < i ==> history_entries(self.history)[j] == history_entries(h0)[j + 1],
                forall|j: int| i <= j < 16 ==> history_entries(self.history)[j] == history_entries(h0)[j],
            decreases 15 - i,
        {
            let next = history_get(&self.history, i + 1);
            history_set(&mut self.history, i, next);
            i = i + 1;
        }
        history_set(&mut self.history, Self::HISTORY_SIZE - 1, Some(*inst));
        assert(history_entries(self.history) =~= Self::spec_push_history(history_entries(h0), *inst));
    }

    /// Fetching the next instruction at PC: the bus is told a new
    /// instruction begins, the instruction is decoded and recorded in the
    /// history.
    pub open spec fn spec_fetch_instr<B: CpuMemory>(cpu: CPU, m: B::Model) -> (CPU, B::Model, Result<Instruction, Fault>) {
        let m0 = B::spec_begin_instruction(m);
        bind(Instruction::spec_fetch::<B>(cpu.reg_pc, cpu, m0), |c: CPU, m1: B::Model, inst: Instruction|
            (CPU { history: Self::pushed_history(c.history, inst), ..c }, m1, Ok(inst)))
    }

    pub fn fetch_instr<B: CpuMemory>(&mut self, bus: &mut B) -> (r: Result<Instruction, Fault>)
        requires
            old(bus).inv(),
            history_entries(old(self).history).len() == Self::HISTORY_SIZE,
        ensures
            final(bus).inv(),
            history_entries(final(self).history).len() == Self::HISTORY_SIZE,
            (*final(self), final(bus).model(), r) == Self::spec_fetch_instr::<B>(*old(self), old(bus).model()),
    {
        bus.begin_cpu_instruction();
        let pc = self.reg_pc;
        let instr = Instruction::fetch(pc, self, bus)?;
        self.update_history(&instr);
        Ok(instr)
    }

    /// One step of the CPU: stall cycles are burnt first, then a pending
    /// interrupt is served, and otherwise one instruction is fetched and
    /// executed. The result is the number of CPU cycles taken.
    pub open spec fn spec_clock<B: CpuMemory>(cpu: CPU, m: B::Model) -> (CPU, B::Model, Result<u32, Fault>) {
        let (c1, m1, r1) = Self::spec_resolve_stall::<B>(cpu, m);
        match r1 {
            Err(e) => (c1, m1, Err(e)),
            Ok(Some(n)) => (c1, m1, Ok(n)),
            Ok(None) => {
                let (c2, m2, r2) = Self::spec_resolve_interrupt::<B>(c1, m1);
                match r2 {
                    Err(e) => (c2, m2, Err(e)),
                    Ok(Some(n)) => (c2, m2, Ok(n)),
                    Ok(None) => bind(Self::spec_fetch_instr::<B>(c2, m2), |c3: CPU, m3: B::Model, inst: Instruction|
                        bind(Self::spec_exec_instr::<B>(inst, c3, m3), |c4: CPU, m4: B::Model, add: u32|
                            (c4, m4, Ok((inst.cycles + add) as u32)))),
                }
            },
        }
    }

    pub fn clock<B: CpuMemory>(&mut self, bus: &mut B) -> (r: Result<u32, Fault>)
        requires
            old(bus).inv(),
            history_entries(old(self).history).len() == Self::HISTORY_SIZE,
        ensures
            final(bus).inv(),
            (*final(self), final(bus).model(), r) == Self::spec_clock::<B>(*old(self), old(bus).model()),
    {
        if let Some(n) = self.resolve_stall(bus)? {
            return Ok(n);
        }
        if let Some(n) = self.resolve_interrupt(bus)? {
            return Ok(n);
        }
        let instr = self.fetch_instr(bus)?;
        let add = self.exec_instr(&instr, bus)?;
        Ok(instr.cycles as u32 + add)
    }
}

impl InterruptSet {
    pub open spec fn empty_spec() -> InterruptSet {
        InterruptSet { nmi: false, brk: false, irq: false, rst: false }
    }
}

/// `t` padded with spaces on the right to 30 characters.
pub open spec fn spec_pad30(t: Seq<u8>) -> Seq<u8> {
    if t.len() < 30 { t + Seq::new((30 - t.len()) as nat, |i: int| 0x20u8) } else { t }
}

/// The trace line of an instruction about to run: `$PPPP: ` and the
/// instruction (padded to 30 characters), then ` A=`, ` X=`, ` Y=`, ` P=`
/// and ` SP=` with the registers in two hexadecimal digits, then a line
/// feed.
pub open spec fn spec_inst_log_line(cpu: CPU, inst: Instruction) -> Seq<u8> {
    seq![0x24u8] + spec_hex(inst.pc as nat, 4) + seq![0x3Au8, 0x20] + spec_pad30(spec_instruction_text(inst))
        + seq![0x20u8, 0x41, 0x3D] + spec_hex(cpu.reg_a as nat, 2)
        + seq![0x20u8, 0x58, 0x3D] + spec_hex(cpu.reg_x as nat, 2)
        + seq![0x20u8, 0x59, 0x3D] + spec_hex(cpu.reg_y as nat, 2)
        + seq![0x20u8, 0x50, 0x3D] + spec_hex(cpu.reg_p.spec_bits() as nat, 2)
        + seq![0x20u8, 0x53, 0x50, 0x3D] + spec_hex(cpu.reg_sp as nat, 2) + seq![0x0Au8]
}

impl CPU {
    /// The line sent over the serial line when instructions are traced
    /// (see `spec_inst_log_line`).
    pub fn inst_log_line(&self, inst: &Instruction) -> (r: Vec<u8>)
        ensures
            r@ == spec_inst_log_line(*self, *inst),
    {
        let mut r: Vec<u8> = vec![0x24u8];
        push_hex(&mut r, inst.pc as u64, 4);
        r.push(0x3A);
        r.push(0x20);
        let text = inst.to_string();
        let ghost before = r@;
        push_bytes(&mut r, text.as_slice());
        let mut k: usize = text.len();
        while k < 30
            invariant
                text.len() <= k <= 30 || (k == text.len() && k >= 30),
                r@ == before + text@ + Seq::new((k - text@.len()) as nat, |i: int| 0x20u8),
            decreases 30 - k,
        {
            r.push(0x20);
            k = k + 1;
            assert(r@ =~= before + text@ + Seq::new((k - text@.len()) as nat, |i: int| 0x20u8));
        }
        assert(before + text@ + Seq::new((k - text@.len()) as nat, |i: int| 0x20u8) =~= before + spec_pad30(text@));
        let a: Vec<u8> = vec![0x20u8, 0x41, 0x3D];
        push_bytes(&mut r, a.as_slice());
        push_hex(&mut r, self.reg_a as u64, 2);
        let x: Vec<u8> = vec![0x20u8, 0x58, 0x3D];
        push_bytes(&mut r, x.as_slice());
        push_hex(&mut r, self.reg_x as u64, 2);
        let y: Vec<u8> = vec![0x20u8, 0x59, 0x3D];
        push_bytes(&mut r, y.as_slice());
        push_hex(&mut r, self.reg_y as u64, 2);
        let p: Vec<u8> = vec![0x20u8, 0x50, 0x3D];
        push_bytes(&mut r, p.as_slice());
        push_hex(&mut r, self.reg_p.bits() as u64, 2);
        let sp: Vec<u8> = vec![0x20u8, 0x53, 0x50, 0x3D];
        push_bytes(&mut r, sp.as_slice());
        push_hex(&mut r, self.reg_sp as u64, 2);
        r.push(0x0A);
        assert(r@ =~= spec_inst_log_line(*self, *inst));
        r
    }
}

} // verus!
