//! The 2A03 CPU (a 6502 without decimal mode).

use vstd::prelude::*;

use crate::nes::cpu::alu::StatusFlags;
use crate::nes::cpu::instr::{AddrMode, Instruction};

pub mod alu;
pub mod bus;
pub mod exec;
pub mod instr;
pub mod ops;
pub mod ram;
pub mod run;

verus! {

/// Why the emulation stopped: what the console cannot do or was never meant
/// to be asked.
#[derive(Clone, Copy, PartialEq, Eq, Structural, Debug)]
pub enum Fault {
    /// A read from an address that nothing answers, or a register that cannot be read.
    BusRead(u16),
    /// A write to an address that nothing answers, or a register that cannot be written.
    BusWrite(u16),
    /// An instruction that cannot be executed, by the address it was fetched from.
    Instruction(u16),
    /// A palette entry outside the 64 colours the PPU can show.
    Color(u8),
}

/// The kinds of interrupt the CPU can be asked to serve.
#[derive(Clone, Copy, PartialEq, Eq, Structural, Debug)]
pub enum InterruptType {
    NMI,
    BRK,
    IRQ,
    RST,
}

/// The interrupts that are pending, one flag per kind.
#[derive(Clone, Copy, PartialEq, Eq, Structural, Debug)]
pub struct InterruptSet {
    pub nmi: bool,
    pub brk: bool,
    pub irq: bool,
    pub rst: bool,
}

impl InterruptSet {
    pub open spec fn spec_with(self, t: InterruptType, on: bool) -> InterruptSet {
        match t {
            InterruptType::NMI => InterruptSet { nmi: on, ..self },
            InterruptType::BRK => InterruptSet { brk: on, ..self },
            InterruptType::IRQ => InterruptSet { irq: on, ..self },
            InterruptType::RST => InterruptSet { rst: on, ..self },
        }
    }

    pub open spec fn spec_contains(self, t: InterruptType) -> bool {
        match t {
            InterruptType::NMI => self.nmi,
            InterruptType::BRK => self.brk,
            InterruptType::IRQ => self.irq,
            InterruptType::RST => self.rst,
        }
    }

    pub fn empty() -> (r: InterruptSet)
        ensures
            !r.nmi && !r.brk && !r.irq && !r.rst,
    {
        InterruptSet { nmi: false, brk: false, irq: false, rst: false }
    }

    pub fn contains(&self, t: InterruptType) -> (r: bool)
        ensures
            r == self.spec_contains(t),
    {
        match t {
            InterruptType::NMI => self.nmi,
            InterruptType::BRK => self.brk,
            InterruptType::IRQ => self.irq,
            InterruptType::RST => self.rst,
        }
    }

    pub fn set(&mut self, t: InterruptType, on: bool)
        ensures
            *final(self) == old(self).spec_with(t, on),
    {
        match t {
            InterruptType::NMI => { self.nmi = on; },
            InterruptType::BRK => { self.brk = on; },
            InterruptType::IRQ => { self.irq = on; },
            InterruptType::RST => { self.rst = on; },
        }
    }
}

/// The CPU registers and the state of its pipeline.
pub struct CPU {
    pub reg_a: u8,
    pub reg_x: u8,
    pub reg_y: u8,
    pub reg_pc: u16,
    pub reg_sp: u8,
    pub reg_p: StatusFlags,
    pub cycles: u64,
    pub inst: u64,
    pub interrupt: InterruptSet,
    pub defer_irq: bool,
    pub stall_cycles: u32,
    /// The last instructions fetched, the latest last.
    pub history: heapless::Vec<Option<Instruction>, 16>,
}

/// The part of the CPU that the bus may change: the pending interrupts (a
/// status read cancels an NMI) and the stall counter (a DMA write stalls).
pub type CpuSignals = (InterruptSet, u32);

/// What the CPU sees of the rest of the console: a 16-bit address space
/// whose reads and writes may raise or cancel interrupts and stall the CPU.
pub trait CpuMemory: Sized {
    type Model;

    /// The state of everything behind the bus.
    spec fn model(&self) -> Self::Model;

    /// What the devices behind the bus need of their own state to answer.
    spec fn inv(&self) -> bool;

    /// The signals, the bus and the byte after a read of `addr`.
    spec fn spec_read(m: Self::Model, sig: CpuSignals, addr: u16) -> (CpuSignals, Self::Model, Result<u8, Fault>);

    /// The signals and the bus after a write of `val` to `addr`.
    spec fn spec_write(m: Self::Model, sig: CpuSignals, addr: u16, val: u8) -> (CpuSignals, Self::Model, Result<(), Fault>);

    /// The bus after the CPU starts a new instruction.
    spec fn spec_begin_instruction(m: Self::Model) -> Self::Model;

    /// The signals and the bus after the pending OAM DMA transfer.
    spec fn spec_dma_transfer(m: Self::Model, sig: CpuSignals) -> (CpuSignals, Self::Model, Result<(), Fault>);

    fn read(&mut self, addr: u16, cpu: &mut CPU) -> (r: Result<u8, Fault>)
        requires
            old(self).inv(),
        ensures
            final(self).inv(),
            ({
                let s = Self::spec_read(old(self).model(), (old(cpu).interrupt, old(cpu).stall_cycles), addr);
                *final(cpu) == with_signals(*old(cpu), s.0) && final(self).model() == s.1 && r == s.2
            }),
    ;

    fn write(&mut self, addr: u16, val: u8, cpu: &mut CPU) -> (r: Result<(), Fault>)
        requires
            old(self).inv(),
        ensures
            final(self).inv(),
            ({
                let s = Self::spec_write(old(self).model(), (old(cpu).interrupt, old(cpu).stall_cycles), addr, val);
                *final(cpu) == with_signals(*old(cpu), s.0) && final(self).model() == s.1 && r == s.2
            }),
    ;

    fn begin_cpu_instruction(&mut self)
        requires
            old(self).inv(),
        ensures
            final(self).inv(),
            final(self).model() == Self::spec_begin_instruction(old(self).model()),
    ;

    fn do_dma_transfer(&mut self, cpu: &mut CPU) -> (r: Result<(), Fault>)
        requires
            old(self).inv(),
        ensures
            final(self).inv(),
            ({
                let s = Self::spec_dma_transfer(old(self).model(), (old(cpu).interrupt, old(cpu).stall_cycles));
                *final(cpu) == with_signals(*old(cpu), s.0) && final(self).model() == s.1 && r == s.2
            }),
    ;
}

pub open spec fn with_signals(c: CPU, s: CpuSignals) -> CPU {
    CPU { interrupt: s.0, stall_cycles: s.1, ..c }
}

/// The CPU, the bus and the byte after a read of `addr`.
pub open spec fn bus_read<B: CpuMemory>(m: B::Model, c: CPU, addr: u16) -> (CPU, B::Model, Result<u8, Fault>) {
    let r = B::spec_read(m, (c.interrupt, c.stall_cycles), addr);
    (with_signals(c, r.0), r.1, r.2)
}

/// The CPU and the bus after a write of `val` to `addr`.
pub open spec fn bus_write<B: CpuMemory>(m: B::Model, c: CPU, addr: u16, val: u8) -> (CPU, B::Model, Result<(), Fault>) {
    let r = B::spec_write(m, (c.interrupt, c.stall_cycles), addr, val);
    (with_signals(c, r.0), r.1, r.2)
}

/// The CPU and the bus after the OAM DMA transfer.
pub open spec fn bus_dma<B: CpuMemory>(m: B::Model, c: CPU) -> (CPU, B::Model, Result<(), Fault>) {
    let r = B::spec_dma_transfer(m, (c.interrupt, c.stall_cycles));
    (with_signals(c, r.0), r.1, r.2)
}

} // verus!
