//! The CPU's address space: work RAM, the PPU and APU registers, the two
//! controllers and the cartridge.

use vstd::prelude::*;

use crate::nes::apu::APU;
use crate::nes::cartridge::Cartridge;
use crate::nes::cpu::ram::RAM;
use crate::nes::cpu::alu::{lemma_status_bits_roundtrip, StatusFlags};
use crate::nes::cpu::exec::{word, wrap16, wrap8};
use crate::nes::cpu::instr::{AddrMode, InstrType, Instruction};
use crate::nes::cpu::{bus_read, bus_write, CpuMemory, CpuSignals, Fault, CPU};
use crate::nes::pad::Pad;
use crate::nes::ppu::oam::OAM;
use crate::nes::ppu::{OAM_DMA_ADDR, PPU};

verus! {

broadcast use vstd::array::group_array_axioms;

/// Everything the CPU reaches through its bus.
pub struct CPUBus {
    pub ram: RAM,
    pub ppu: PPU,
    pub apu: APU,
    pub cartridge: Cartridge,
    pub pads: [Pad; 2],
}

impl CPUBus {
    pub open spec fn wf(&self) -> bool {
        &&& self.ppu.wf()
        &&& self.apu.wf()
        &&& self.cartridge.wf()
    }

    /// A console with the given cartridge inserted: cleared RAM, a
    /// powered-on PPU and APU, and two pads (players 0 and 1) with nothing
    /// pressed.
    pub fn new(cartridge: Cartridge) -> (r: CPUBus)
        requires
            cartridge.wf(),
        ensures
            r.wf(),
            r.cartridge == cartridge,
            forall|i: int| 0 <= i < 0x800 ==> r.ram.mem[i] == 0,
            r.pads[0].player == 0 && r.pads[1].player == 1,
            forall|i: int| 0 <= i < 8 ==> !r.pads[0].pressed[i] && !r.pads[1].pressed[i],
    {
        CPUBus { ram: RAM::new(), ppu: PPU::new(), apu: APU::new(), cartridge, pads: [Pad::new(0), Pad::new(1)] }
    }

    /// A read of `addr`: $0000-$1FFF the RAM (mirrored every 2 KiB),
    /// $2000-$3FFF and $4014 the PPU registers, $4015 the APU status, the
    /// other APU registers up to $4015 read as 0, $4016 and $4017 the
    /// controllers (1 when the selected button is down), and from $4018 the
    /// cartridge.
    pub open spec fn spec_read_at(self, sig: CpuSignals, addr: u16) -> (CpuSignals, CPUBus, Result<u8, Fault>) {
        if addr < 0x2000 {
            (sig, self, Ok(self.ram.mem[(addr % 0x800) as int]))
        } else if addr < 0x4000 || addr == OAM_DMA_ADDR {
            let (p, irq, r) = self.ppu.spec_read_reg(addr, self.cartridge, sig.0);
            ((irq, sig.1), CPUBus { ppu: p, ..self }, r)
        } else if addr == 0x4015 {
            (sig, CPUBus { apu: self.apu.spec_after_status_read(), ..self }, Ok(self.apu.spec_status()))
        } else if addr < 0x4016 {
            (sig, self, Ok(0))
        } else if addr < 0x4018 {
            let i = (addr - 0x4016) as int;
            let (p, b) = self.pads[i].spec_read();
            (sig, CPUBus { pads: vstd::array::spec_array_update(self.pads, i, p), ..self }, Ok(if b { 1u8 } else { 0u8 }))
        } else {
            (sig, self, self.cartridge.spec_read_cpu(addr))
        }
    }

    /// A write of `val` to `addr`: $0000-$1FFF the RAM, $2000-$3FFF and
    /// $4014 the PPU registers (a $4014 write stalls the CPU for the OAM
    /// DMA), $4016 the strobe of both controllers (bit 0), the rest of
    /// $4000-$4017 the APU, and from $4018 the cartridge.
    pub open spec fn spec_write_at(self, sig: CpuSignals, addr: u16, val: u8) -> (CpuSignals, CPUBus, Result<(), Fault>) {
        if addr < 0x2000 {
            (sig, CPUBus { ram: self.ram.spec_write(addr % 0x800, val), ..self }, Ok(()))
        } else if addr < 0x4000 || addr == OAM_DMA_ADDR {
            let (p, c, stall, r) = self.ppu.spec_write_reg(addr, val, self.cartridge, sig.1);
            ((sig.0, stall), CPUBus { ppu: p, cartridge: c, ..self }, r)
        } else if addr == 0x4016 {
            let strobe = val % 2 == 1;
            (sig, CPUBus { pads: [self.pads[0].spec_write(strobe), self.pads[1].spec_write(strobe)], ..self }, Ok(()))
        } else if addr < 0x4018 {
            let (a, r) = self.apu.spec_write_reg(addr, val);
            (sig, CPUBus { apu: a, ..self }, r)
        } else {
            let (c, r) = self.cartridge.spec_write_cpu(addr, val);
            (sig, CPUBus { cartridge: c, ..self }, r)
        }
    }

    /// The reads of an OAM DMA transfer: bytes `base + i ..= base + 255`,
    /// in order, appended to `acc`; the first failing read ends it.
    pub open spec fn spec_dma_reads(self, sig: CpuSignals, base: u16, i: nat, acc: Seq<u8>) -> (CpuSignals, CPUBus, Result<Seq<u8>, Fault>)
        decreases 256 - i,
    {
        if i < 256 {
            let (s1, m1, r) = self.spec_read_at(sig, vstd::wrapping::u16_specs::wrapping_add(base, i as u16));
            match r {
                Ok(b) => m1.spec_dma_reads(s1, base, i + 1, acc.push(b)),
                Err(e) => (s1, m1, Err(e)),
            }
        } else {
            (sig, self, Ok(acc))
        }
    }

    /// An OAM DMA transfer: 256 bytes read from the requested page, then
    /// written to OAM in order.
    pub open spec fn spec_dma(self, sig: CpuSignals) -> (CpuSignals, CPUBus, Result<(), Fault>) {
        let (s1, m1, r) = self.spec_dma_reads(sig, self.ppu.oam.dma_request_addr, 0, Seq::empty());
        match r {
            Ok(data) => (s1, CPUBus { ppu: PPU { oam: m1.ppu.oam.spec_write_from(data, 0), ..m1.ppu }, ..m1 }, Ok(())),
            Err(e) => (s1, m1, Err(e)),
        }
    }

    proof fn lemma_dma_reads_len(self, sig: CpuSignals, base: u16, i: nat, acc: Seq<u8>)
        requires
            i <= 256,
            acc.len() == i,
        ensures
            self.spec_dma_reads(sig, base, i, acc).2 is Ok ==> self.spec_dma_reads(sig, base, i, acc).2->Ok_0.len() == 256,
        decreases 256 - i,
    {
        if i < 256 {
            let (s1, m1, r) = self.spec_read_at(sig, vstd::wrapping::u16_specs::wrapping_add(base, i as u16));
            if let Ok(b) = r {
                m1.lemma_dma_reads_len(s1, base, i + 1, acc.push(b));
            }
        }
    }

    fn read_at(&mut self, addr: u16, cpu: &mut CPU) -> (r: Result<u8, Fault>)
        requires
            old(self).wf(),
        ensures
            final(self).wf(),
            ({
                let s = old(self).spec_read_at((old(cpu).interrupt, old(cpu).stall_cycles), addr);
                *final(self) == s.1 && *final(cpu) == (CPU { interrupt: s.0.0, stall_cycles: s.0.1, ..*old(cpu) }) && r == s.2
            }),
    {
        if addr < 0x2000 {
            Ok(self.ram.read(addr % 0x800))
        } else if addr < 0x4000 || addr == OAM_DMA_ADDR {
            self.ppu.read_reg(addr, cpu, &self.cartridge)
        } else if addr == 0x4015 {
            Ok(self.apu.read_reg(addr))
        } else if addr < 0x4016 {
            Ok(0)
        } else if addr < 0x4018 {
            let i = (addr - 0x4016) as usize;
            let mut p = self.pads[i];
            let b = p.read();
            self.pads[i] = p;
            Ok(if b { 1 } else { 0 })
        } else {
            self.cartridge.read_cpu_mem(addr)
        }
    }

    fn write_at(&mut self, addr: u16, val: u8, cpu: &mut CPU) -> (r: Result<(), Fault>)
        requires
            old(self).wf(),
        ensures
            final(self).wf(),
            ({
                let s = old(self).spec_write_at((old(cpu).interrupt, old(cpu).stall_cycles), addr, val);
                *final(self) == s.1 && *final(cpu) == (CPU { interrupt: s.0.0, stall_cycles: s.0.1, ..*old(cpu) }) && r == s.2
            }),
    {
        if addr < 0x2000 {
            self.ram.write(addr % 0x800, val);
            Ok(())
        } else if addr < 0x4000 || addr == OAM_DMA_ADDR {
            self.ppu.write_reg(addr, val, cpu, &mut self.cartridge)
        } else if addr == 0x4016 {
            let strobe = val % 2 == 1;
            let mut p0 = self.pads[0];
            p0.write(strobe);
            let mut p1 = self.pads[1];
            p1.write(strobe);
            self.pads = [p0, p1];
            Ok(())
        } else if addr < 0x4018 {
            self.apu.write_reg(addr, val)
        } else {
            self.cartridge.write_cpu_mem(addr, val)
        }
    }

    fn dma(&mut self, cpu: &mut CPU) -> (r: Result<(), Fault>)
        requires
            old(self).wf(),
        ensures
            final(self).wf(),
            ({
                let s = old(self).spec_dma((old(cpu).interrupt, old(cpu).stall_cycles));
                *final(self) == s.1 && *final(cpu) == (CPU { interrupt: s.0.0, stall_cycles: s.0.1, ..*old(cpu) }) && r == s.2
            }),
    {
        let base = self.ppu.oam.dma_request_addr;
        let mut data: Vec<u8> = Vec::new();
        let mut i: u16 = 0;
        while i < 256
            invariant
                self.wf(),
                i <= 256,
                data@.len() == i,
                base == old(self).ppu.oam.dma_request_addr,
                old(self).spec_dma_reads((old(cpu).interrupt, old(cpu).stall_cycles), base, 0, Seq::empty())
                    == self.spec_dma_reads((cpu.interrupt, cpu.stall_cycles), base, i as nat, data@),
                *cpu == (CPU { interrupt: cpu.interrupt, stall_cycles: cpu.stall_cycles, ..*old(cpu) }),
            decreases 256 - i,
        {
            let ghost before = *self;
            let ghost sig = (cpu.interrupt, cpu.stall_cycles);
            let r = self.read_at(base.wrapping_add(i), cpu);
            let b = match r {
                Ok(b) => b,
                Err(e) => {
                    assert(before.spec_dma_reads(sig, base, i as nat, data@) == ((cpu.interrupt, cpu.stall_cycles), *self, Err::<Seq<u8>, Fault>(e)));
                    return Err(e);
                },
            };
            data.push(b);
            i = i + 1;
        }
        assert(self.spec_dma_reads((cpu.interrupt, cpu.stall_cycles), base, 256, data@) == ((cpu.interrupt, cpu.stall_cycles), *self, Ok::<Seq<u8>, Fault>(data@)));
        proof {
            old(self).lemma_dma_reads_len((old(cpu).interrupt, old(cpu).stall_cycles), base, 0, Seq::empty());
            self.ppu.oam.lemma_write_from(data@, 0);
        }
        let ghost oam0 = self.ppu.oam;
        let ghost bus1 = *self;
        let mut j: usize = 0;
        while j < 256
            invariant
                self.wf(),
                j <= 256,
                data@.len() == 256,
                self.ppu.oam.spec_write_from(data@, j as nat) == oam0.spec_write_from(data@, 0),
                *self == (CPUBus { ppu: PPU { oam: self.ppu.oam, ..bus1.ppu }, ..bus1 }),
            decreases 256 - j,
        {
            self.ppu.oam.write(j as u8, data[j]);
            j = j + 1;
        }
        assert(self.ppu.oam.spec_write_from(data@, 256) == self.ppu.oam);
        Ok(())
    }
}

impl CpuMemory for CPUBus {
    type Model = CPUBus;

    open spec fn model(&self) -> CPUBus {
        *self
    }

    open spec fn inv(&self) -> bool {
        self.wf()
    }

    open spec fn spec_read(m: CPUBus, sig: CpuSignals, addr: u16) -> (CpuSignals, CPUBus, Result<u8, Fault>) {
        m.spec_read_at(sig, addr)
    }

    open spec fn spec_write(m: CPUBus, sig: CpuSignals, addr: u16, val: u8) -> (CpuSignals, CPUBus, Result<(), Fault>) {
        m.spec_write_at(sig, addr, val)
    }

    open spec fn spec_begin_instruction(m: CPUBus) -> CPUBus {
        CPUBus { cartridge: m.cartridge.spec_begin_cpu_instruction(), ..m }
    }

    open spec fn spec_dma_transfer(m: CPUBus, sig: CpuSignals) -> (CpuSignals, CPUBus, Result<(), Fault>) {
        m.spec_dma(sig)
    }

    fn read(&mut self, addr: u16, cpu: &mut CPU) -> (r: Result<u8, Fault>) {
        self.read_at(addr, cpu)
    }

    fn write(&mut self, addr: u16, val: u8, cpu: &mut CPU) -> (r: Result<(), Fault>) {
        self.write_at(addr, val, cpu)
    }

    fn begin_cpu_instruction(&mut self) {
        self.cartridge.begin_cpu_instruction();
    }

    fn do_dma_transfer(&mut self, cpu: &mut CPU) -> (r: Result<(), Fault>) {
        self.dma(cpu)
    }
}

/// Pushing a byte on the stack and popping it again gives the byte back and
/// leaves the CPU exactly as it was; the pop changes nothing on the bus.
pub proof fn lemma_push_pop_roundtrip(c: CPU, m: CPUBus, data: u8)
    ensures
        ({
            let (c1, m1, r1) = CPU::spec_push_stack::<CPUBus>(c, m, data);
            let (c2, m2, r2) = CPU::spec_pop_stack::<CPUBus>(c1, m1);
            &&& r1 == Ok::<(), Fault>(())
            &&& r2 == Ok::<u8, Fault>(data)
            &&& c2 == c
            &&& m2 == m1
        }),
{
    let addr = (0x100 + c.reg_sp) as u16;
    assert(addr % 0x800 == addr);
    let (c1, m1, r1) = CPU::spec_push_stack::<CPUBus>(c, m, data);
    assert(c1.reg_sp == wrap8(c.reg_sp - 1));
    assert(wrap8(c1.reg_sp + 1) == c.reg_sp);
    assert(m1.ram.mem[addr as int] == data);
}

/// Work RAM repeats every 2 KiB below $2000: a byte written there is read
/// back at every mirror of its address, the other bytes keep their value,
/// and neither access touches the rest of the console or the CPU signals.
pub proof fn lemma_ram_write_read(m: CPUBus, sig: CpuSignals, a: u16, b: u16, val: u8)
    requires
        a < 0x2000,
        b < 0x2000,
    ensures
        ({
            let (s1, m1, w) = m.spec_write_at(sig, a, val);
            let (s2, m2, r) = m1.spec_read_at(s1, b);
            &&& w == Ok::<(), Fault>(())
            &&& s2 == sig
            &&& m2 == m1
            &&& m1 == (CPUBus { ram: m1.ram, ..m })
            &&& r == (if a % 0x800 == b % 0x800 { Ok::<u8, Fault>(val) } else { m.spec_read_at(sig, b).2 })
        }),
{
}

proof fn lemma_push_eq(c: CPU, m: CPUBus, v: u8)
    ensures
        CPU::spec_push_stack::<CPUBus>(c, m, v) == (CPU { reg_sp: wrap8(c.reg_sp - 1), ..c },
            CPUBus { ram: m.ram.spec_write((0x100 + c.reg_sp) as u16, v), ..m }, Ok::<(), Fault>(())),
{
    let a = (0x100 + c.reg_sp) as u16;
    assert(a % 0x800 == a);
}

proof fn lemma_pop_eq(c: CPU, m: CPUBus)
    ensures
        CPU::spec_pop_stack::<CPUBus>(c, m) == (CPU { reg_sp: wrap8(c.reg_sp + 1), ..c }, m,
            Ok::<u8, Fault>(m.ram.mem[0x100 + wrap8(c.reg_sp + 1)])),
{
    let a = (0x100 + wrap8(c.reg_sp + 1)) as u16;
    assert(a % 0x800 == a);
}

/// A subroutine call and its return: JSR jumps to its target, and RTS
/// then resumes after the JSR with the CPU otherwise as it was; the return
/// changes nothing on the bus.
pub proof fn lemma_call_return(c: CPU, m: CPUBus, call: Instruction, ret: Instruction, target: u16)
    requires
        call.instr_type == InstrType::JSR,
        call.addr_mode == AddrMode::Absolute(target),
        ret.instr_type == InstrType::RTS,
    ensures
        ({
            let (c1, m1, r1) = CPU::spec_exec_flow::<CPUBus>(call, c, m);
            let (c2, m2, r2) = CPU::spec_exec_flow::<CPUBus>(ret, c1, m1);
            &&& r1 == Ok::<u8, Fault>(0)
            &&& r2 == Ok::<u8, Fault>(0)
            &&& c1.reg_pc == target
            &&& c2 == (CPU { reg_pc: wrap16(c.reg_pc + 3), ..c })
            &&& m2 == m1
        }),
{
    let ret_addr = wrap16(c.reg_pc + 2);
    let hi = (ret_addr / 256) as u8;
    let lo = (ret_addr % 256) as u8;
    lemma_push_eq(c, m, hi);
    let (ca, ma, ra) = CPU::spec_push_stack::<CPUBus>(c, m, hi);
    lemma_push_eq(ca, ma, lo);
    let (cb, mb, rb) = CPU::spec_push_stack::<CPUBus>(ca, ma, lo);
    let c1 = CPU { reg_pc: target, ..cb };
    assert(CPU::spec_exec_flow::<CPUBus>(call, c, m) == (c1, mb, Ok::<u8, Fault>(0)));
    lemma_pop_eq(c1, mb);
    let (cp, mp, rp) = CPU::spec_pop_stack::<CPUBus>(c1, mb);
    lemma_pop_eq(cp, mp);
    let (cq, mq, rq) = CPU::spec_pop_stack::<CPUBus>(cp, mp);
    let a1 = (0x100 + c.reg_sp) as u16;
    let a2 = (0x100 + ca.reg_sp) as u16;
    assert(cp.reg_sp == ca.reg_sp);
    assert(cq.reg_sp == c.reg_sp);
    assert(rp == Ok::<u8, Fault>(lo));
    assert(rq == Ok::<u8, Fault>(hi));
    assert(word(lo, hi) == ret_addr);
    assert(CPU::spec_exec_flow::<CPUBus>(ret, c1, mb) == (CPU { reg_pc: wrap16(word(lo, hi) + 1), ..cq }, mq, Ok::<u8, Fault>(0)));
}

/// Entering an interrupt handler and returning from it at once with RTI:
/// PC and the stack pointer come back, and the status register is the
/// pushed one with bit 5 set and the break bit cleared; when the handler was
/// entered with interrupts enabled nothing else changes, otherwise the
/// next IRQ is deferred by one instruction as RTI enables interrupts.
pub proof fn lemma_interrupt_return(c: CPU, m: CPUBus, vec: u16, clear_brk: bool, ret: Instruction)
    requires
        vec >= 0x4018,
        vec < 0xFFFF,
        ret.instr_type == InstrType::RTI,
        CPU::spec_serve::<CPUBus>(c, m, vec, clear_brk).2 is Ok,
    ensures
        ({
            let (c1, m1, r1) = CPU::spec_serve::<CPUBus>(c, m, vec, clear_brk);
            let (c2, m2, r2) = CPU::spec_exec_flow::<CPUBus>(ret, c1, m1);
            &&& r2 == Ok::<u8, Fault>(0)
            &&& c2 == (CPU {
                reg_p: StatusFlags { one: true, brk: false, ..c.reg_p },
                defer_irq: c.defer_irq || !c.reg_p.int,
                ..c
            })
            &&& m2 == m1
        }),
{
    let hi = (c.reg_pc / 256) as u8;
    let lo = (c.reg_pc % 256) as u8;
    lemma_push_eq(c, m, hi);
    let (ca, ma, ra) = CPU::spec_push_stack::<CPUBus>(c, m, hi);
    lemma_push_eq(ca, ma, lo);
    let (cb, mb, rb) = CPU::spec_push_stack::<CPUBus>(ca, ma, lo);
    let pb = cb.reg_p.spec_bits();
    lemma_push_eq(cb, mb, pb);
    let (cc, mc, rc) = CPU::spec_push_stack::<CPUBus>(cb, mb, pb);
    assert(CPU::spec_push_context::<CPUBus>(c, m) == (cc, mc, Ok::<(), Fault>(())));
    let (cv, mv, rv) = CPU::spec_read_vector::<CPUBus>(cc, mc, vec);
    assert(cv == cc && mv == mc);
    let v = rv->Ok_0;
    let c1 = CPU {
        reg_pc: v,
        reg_p: StatusFlags { int: true, brk: if clear_brk { false } else { cc.reg_p.brk }, ..cc.reg_p },
        ..cc
    };
    assert(CPU::spec_serve::<CPUBus>(c, m, vec, clear_brk) == (c1, mc, Ok::<bool, Fault>(true)));
    lemma_pop_eq(c1, mc);
    let (cp, mp, rp) = CPU::spec_pop_stack::<CPUBus>(c1, mc);
    assert(rp == Ok::<u8, Fault>(pb));
    let cpf = CPU::after_pull_flags(cp, pb);
    lemma_pop_eq(cpf, mp);
    let (cq, mq, rq) = CPU::spec_pop_stack::<CPUBus>(cpf, mp);
    assert(rq == Ok::<u8, Fault>(lo));
    lemma_pop_eq(cq, mq);
    let (cr, mr, rr) = CPU::spec_pop_stack::<CPUBus>(cq, mq);
    assert(rr == Ok::<u8, Fault>(hi));
    assert(cr.reg_sp == c.reg_sp);
    lemma_status_bits_roundtrip(c.reg_p);
    assert(word(lo, hi) == c.reg_pc);
    assert(CPU::spec_exec_flow::<CPUBus>(ret, c1, mc) == (CPU { reg_pc: word(lo, hi), ..cr }, mr, Ok::<u8, Fault>(0)));
}


/// The address that an addressing mode stores to, on this bus: direct for
/// the zero-page and absolute modes (indexed with wrap-around), through the
/// pointer in zero-page RAM for the indirect modes; none for the modes
/// without a memory operand.
pub open spec fn spec_mode_target(mode: AddrMode, c: CPU, m: CPUBus) -> Option<u16> {
    match mode {
        AddrMode::ZeroPage(a) => Some(a as u16),
        AddrMode::ZeroPageX(a) => Some(wrap8(a + c.reg_x) as u16),
        AddrMode::ZeroPageY(a) => Some(wrap8(a + c.reg_y) as u16),
        AddrMode::Absolute(a) => Some(a),
        AddrMode::AbsoluteX(a) => Some(wrap16(a + c.reg_x)),
        AddrMode::AbsoluteY(a) => Some(wrap16(a + c.reg_y)),
        AddrMode::IndirectX(a) => {
            let p = wrap8(a + c.reg_x);
            Some(word(m.ram.mem[p as int], m.ram.mem[wrap8(p + 1) as int]))
        },
        AddrMode::IndirectY(a) => Some(wrap16(word(m.ram.mem[a as int], m.ram.mem[wrap8(a + 1) as int]) + c.reg_y)),
        _ => None,
    }
}

/// Whether the indirect mode reads its pointer from zero-page byte `k`.
pub open spec fn mode_reads_pointer_at(mode: AddrMode, c: CPU, k: int) -> bool {
    match mode {
        AddrMode::IndirectX(a) => k == wrap8(a + c.reg_x) || k == wrap8(wrap8(a + c.reg_x) + 1),
        AddrMode::IndirectY(a) => k == a || k == wrap8(a + 1),
        _ => false,
    }
}

/// What a store then a load through `mode` gives, when the store targets
/// work RAM byte `e`: the store succeeds and changes only that byte, and
/// the load gives it back, with the CPU unchanged.
pub open spec fn write_read_back(mode: AddrMode, c: CPU, m: CPUBus, e: u16, v: u8) -> bool {
    let (c1, m1, w) = mode.spec_write::<CPUBus>(v, c, m);
    let (c2, m2, r) = mode.spec_resolve::<CPUBus>(c1, m1);
    &&& w == Ok::<(), Fault>(())
    &&& c1 == c
    &&& m1 == (CPUBus { ram: m.ram.spec_write(e % 0x800, v), ..m })
    &&& r is Ok
    &&& r->Ok_0.0 == v
    &&& c2 == c
    &&& m2 == m1
}

/// A store through an addressing mode into work RAM, then a load through
/// the same mode: the store succeeds, changes only the RAM byte it targets
/// (its 2 KiB mirror) and neither the CPU nor the rest of the console, and
/// the load gives back the stored byte, provided the target is not one of
/// the pointer bytes an indirect mode reads. A mode without a memory
/// operand stores nothing at all.
pub proof fn lemma_mode_write_read(mode: AddrMode, c: CPU, m: CPUBus, v: u8)
    ensures
        spec_mode_target(mode, c, m) is None ==> mode.spec_write::<CPUBus>(v, c, m) == (c, m, Ok::<(), Fault>(())),
        spec_mode_target(mode, c, m) is Some && spec_mode_target(mode, c, m)->Some_0 < 0x2000
            && !mode_reads_pointer_at(mode, c, (spec_mode_target(mode, c, m)->Some_0 % 0x800) as int)
            ==> write_read_back(mode, c, m, spec_mode_target(mode, c, m)->Some_0, v),
{
    let t = spec_mode_target(mode, c, m);
    if t is Some && t->Some_0 < 0x2000 && !mode_reads_pointer_at(mode, c, (t->Some_0 % 0x800) as int) {
        match mode {
            AddrMode::IndirectX(a) => lemma_write_read_indirect_x(a, c, m, v),
            AddrMode::IndirectY(a) => lemma_write_read_indirect_y(a, c, m, v),
            _ => lemma_write_read_direct(mode, c, m, v),
        }
    }
}

proof fn lemma_write_read_direct(mode: AddrMode, c: CPU, m: CPUBus, v: u8)
    requires
        mode is ZeroPage || mode is ZeroPageX || mode is ZeroPageY || mode is Absolute || mode is AbsoluteX || mode is AbsoluteY,
        spec_mode_target(mode, c, m)->Some_0 < 0x2000,
    ensures
        write_read_back(mode, c, m, spec_mode_target(mode, c, m)->Some_0, v),
{
    let e = spec_mode_target(mode, c, m)->Some_0;
    let m1 = CPUBus { ram: m.ram.spec_write(e % 0x800, v), ..m };
    lemma_bus_ram(m, c, e, v);
    lemma_bus_ram(m1, c, e, v);
    assert(mode.spec_write::<CPUBus>(v, c, m) == bus_write::<CPUBus>(m, c, e, v));
}

proof fn lemma_write_read_indirect_x(a: u8, c: CPU, m: CPUBus, v: u8)
    requires
        spec_mode_target(AddrMode::IndirectX(a), c, m)->Some_0 < 0x2000,
        !mode_reads_pointer_at(AddrMode::IndirectX(a), c, (spec_mode_target(AddrMode::IndirectX(a), c, m)->Some_0 % 0x800) as int),
    ensures
        write_read_back(AddrMode::IndirectX(a), c, m, spec_mode_target(AddrMode::IndirectX(a), c, m)->Some_0, v),
{
    let e = spec_mode_target(AddrMode::IndirectX(a), c, m)->Some_0;
    let m1 = CPUBus { ram: m.ram.spec_write(e % 0x800, v), ..m };
    let p = wrap8(a + c.reg_x);
    let q = wrap8(p + 1);
    lemma_bus_ram(m, c, e, v);
    lemma_bus_ram(m1, c, e, v);
    lemma_zp_pointer_ram(c, m, p);
    lemma_zp_pointer_ram(c, m1, p);
    assert(m1.ram.mem[p as int] == m.ram.mem[p as int]);
    assert(m1.ram.mem[q as int] == m.ram.mem[q as int]);
    assert(AddrMode::IndirectX(a).spec_write::<CPUBus>(v, c, m) == bus_write::<CPUBus>(m, c, e, v));
}

/// The zero-page pointer at `p` and `p + 1`, read from work RAM.
proof fn lemma_zp_pointer_ram(c: CPU, m: CPUBus, p: u8)
    ensures
        AddrMode::spec_zp_pointer::<CPUBus>(c, m, p) == (c, m, Ok::<u16, Fault>(word(m.ram.mem[p as int], m.ram.mem[wrap8(p + 1) as int]))),
{
    let q = wrap8(p + 1);
    lemma_bus_ram(m, c, p as u16, 0);
    lemma_bus_ram(m, c, q as u16, 0);
    assert((p as u16) % 0x800 == p as u16);
    assert((q as u16) % 0x800 == q as u16);
}

proof fn lemma_write_read_indirect_y(a: u8, c: CPU, m: CPUBus, v: u8)
    requires
        spec_mode_target(AddrMode::IndirectY(a), c, m)->Some_0 < 0x2000,
        !mode_reads_pointer_at(AddrMode::IndirectY(a), c, (spec_mode_target(AddrMode::IndirectY(a), c, m)->Some_0 % 0x800) as int),
    ensures
        write_read_back(AddrMode::IndirectY(a), c, m, spec_mode_target(AddrMode::IndirectY(a), c, m)->Some_0, v),
{
    let e = spec_mode_target(AddrMode::IndirectY(a), c, m)->Some_0;
    let m1 = CPUBus { ram: m.ram.spec_write(e % 0x800, v), ..m };
    let q = wrap8(a + 1);
    lemma_bus_ram(m, c, e, v);
    lemma_bus_ram(m1, c, e, v);
    lemma_zp_pointer_ram(c, m, a);
    lemma_zp_pointer_ram(c, m1, a);
    assert(m1.ram.mem[a as int] == m.ram.mem[a as int]);
    assert(m1.ram.mem[q as int] == m.ram.mem[q as int]);
    assert(AddrMode::IndirectY(a).spec_write::<CPUBus>(v, c, m) == bus_write::<CPUBus>(m, c, e, v));
    assert(AddrMode::IndirectY(a).spec_resolve::<CPUBus>(c, m1).2 is Ok);
}

/// A byte of work RAM written or read through the bus: only that byte (its
/// 2 KiB mirror) changes, and neither access touches the CPU signals.
proof fn lemma_bus_ram(m: CPUBus, c: CPU, addr: u16, v: u8)
    requires
        addr < 0x2000,
    ensures
        bus_write::<CPUBus>(m, c, addr, v) == (c, CPUBus { ram: m.ram.spec_write(addr % 0x800, v), ..m }, Ok::<(), Fault>(())),
        bus_read::<CPUBus>(m, c, addr) == (c, m, Ok::<u8, Fault>(m.ram.mem[(addr % 0x800) as int])),
{
}

} // verus!
