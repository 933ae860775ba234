//! Instruction fetch and operand addressing.

use vstd::prelude::*;

use crate::nes::cpu::instr::{opcode_info, spec_opcode, AddrMode, Instruction, ModeKind};
use crate::nes::cpu::{bus_read, bus_write, CpuMemory, Fault, CPU};
use crate::nes::cpu::instr::{OpcodeInfo, InstrType};

verus! {

/// `x` reduced to 16 bits, for sums that leave the address space by less
/// than its size.
pub open spec fn wrap16(v: int) -> u16 {
    if v >= 0x10000 {
        (v - 0x10000) as u16
    } else if v < 0 {
        (v + 0x10000) as u16
    } else {
        v as u16
    }
}

/// `x` reduced to 8 bits (zero-page arithmetic).
pub open spec fn wrap8(v: int) -> u8 {
    if v >= 0x100 {
        (v - 0x100) as u8
    } else if v < 0 {
        (v + 0x100) as u8
    } else {
        v as u8
    }
}

/// The little-endian word made of two bytes.
pub open spec fn word(lo: u8, hi: u8) -> u16 {
    (lo as int + 256 * hi as int) as u16
}

pub fn make_word(lo: u8, hi: u8) -> (r: u16)
    ensures
        r == word(lo, hi),
{
    lo as u16 + hi as u16 * 256
}

pub fn add16(x: u16, y: u16) -> (r: u16)
    ensures
        r == wrap16(x + y),
{
    if x as u32 + y as u32 >= 0x10000 {
        (x as u32 + y as u32 - 0x10000) as u16
    } else {
        x + y
    }
}

pub fn add8(x: u8, y: u8) -> (r: u8)
    ensures
        r == wrap8(x + y),
{
    if x as u16 + y as u16 >= 0x100 {
        (x as u16 + y as u16 - 0x100) as u8
    } else {
        x + y
    }
}

/// The target of a relative branch at `pc`: the address after the two-byte
/// instruction moved by the signed offset.
pub open spec fn branch_target(pc: u16, offset: i8) -> u16 {
    wrap16(pc + offset + 2)
}

pub fn relative_target(pc: u16, offset: i8) -> (r: u16)
    ensures
        r == branch_target(pc, offset),
{
    let v: i32 = pc as i32 + offset as i32 + 2;
    if v >= 0x10000 {
        (v - 0x10000) as u16
    } else if v < 0 {
        (v + 0x10000) as u16
    } else {
        v as u16
    }
}

/// Whether two addresses lie on different 256-byte pages.
pub open spec fn page_crossed(a: u16, b: u16) -> bool {
    a / 256 != b / 256
}

/// A spec-level bind: runs `k` on the value of a successful step and
/// passes a fault on unchanged.
pub open spec fn bind<M, T, U>(st: (CPU, M, Result<T, Fault>), k: spec_fn(CPU, M, T) -> (CPU, M, Result<U, Fault>)) -> (CPU, M, Result<U, Fault>) {
    match st.2 {
        Ok(v) => k(st.0, st.1, v),
        Err(e) => (st.0, st.1, Err(e)),
    }
}

impl AddrMode {
    /// The length in bytes of an instruction with this mode.
    pub open spec fn spec_size(self) -> u16 {
        match self {
            AddrMode::Implied => 1,
            AddrMode::Immediate(_) => 2,
            AddrMode::ZeroPage(_) => 2,
            AddrMode::ZeroPageX(_) => 2,
            AddrMode::ZeroPageY(_) => 2,
            AddrMode::Absolute(_) => 3,
            AddrMode::AbsoluteX(_) => 3,
            AddrMode::AbsoluteY(_) => 3,
            AddrMode::Indirect(_) => 3,
            AddrMode::IndirectX(_) => 2,
            AddrMode::IndirectY(_) => 2,
            AddrMode::Relative(_) => 2,
        }
    }

    pub fn size(&self) -> (r: u16)
        ensures
            r == self.spec_size(),
    {
        match self {
            AddrMode::Implied => 1,
            AddrMode::Immediate(_) => 2,
            AddrMode::ZeroPage(_) => 2,
            AddrMode::ZeroPageX(_) => 2,
            AddrMode::ZeroPageY(_) => 2,
            AddrMode::Absolute(_) => 3,
            AddrMode::AbsoluteX(_) => 3,
            AddrMode::AbsoluteY(_) => 3,
            AddrMode::Indirect(_) => 3,
            AddrMode::IndirectX(_) => 2,
            AddrMode::IndirectY(_) => 2,
            AddrMode::Relative(_) => 2,
        }
    }

    /// Reads the pointer stored at zero-page `ptr` and `ptr + 1` (wrapping in
    /// the zero page).
    pub open spec fn spec_zp_pointer<B: CpuMemory>(cpu: CPU, m: B::Model, ptr: u8) -> (CPU, B::Model, Result<u16, Fault>) {
        bind(bus_read::<B>(m, cpu, ptr as u16), |c1: CPU, m1: B::Model, lo: u8|
            bind(bus_read::<B>(m1, c1, wrap8(ptr + 1) as u16), |c2: CPU, m2: B::Model, hi: u8|
                (c2, m2, Ok(word(lo, hi)))))
    }

    /// The operand of this mode and whether its address crossed a page
    /// (1) or not (0). Implied gives 0; a relative mode gives the low byte of
    /// its branch target. Reads go through the bus in the order the 6502
    /// makes them.
    pub open spec fn spec_resolve<B: CpuMemory>(self, cpu: CPU, m: B::Model) -> (CPU, B::Model, Result<(u8, u8), Fault>) {
        match self {
            AddrMode::Implied => (cpu, m, Ok((0u8, 0u8))),
            AddrMode::Immediate(v) => (cpu, m, Ok((v, 0u8))),
            AddrMode::ZeroPage(a) => bind(bus_read::<B>(m, cpu, a as u16), |c: CPU, m1: B::Model, v: u8| (c, m1, Ok((v, 0u8)))),
            AddrMode::ZeroPageX(a) => bind(bus_read::<B>(m, cpu, wrap8(a + cpu.reg_x) as u16), |c: CPU, m1: B::Model, v: u8| (c, m1, Ok((v, 0u8)))),
            AddrMode::ZeroPageY(a) => bind(bus_read::<B>(m, cpu, wrap8(a + cpu.reg_y) as u16), |c: CPU, m1: B::Model, v: u8| (c, m1, Ok((v, 0u8)))),
            AddrMode::Absolute(a) => bind(bus_read::<B>(m, cpu, a), |c: CPU, m1: B::Model, v: u8| (c, m1, Ok((v, 0u8)))),
            AddrMode::AbsoluteX(a) => {
                let t = wrap16(a + cpu.reg_x);
                bind(bus_read::<B>(m, cpu, t), |c: CPU, m1: B::Model, v: u8| (c, m1, Ok((v, if page_crossed(a, t) { 1u8 } else { 0u8 }))))
            },
            AddrMode::AbsoluteY(a) => {
                let t = wrap16(a + cpu.reg_y);
                bind(bus_read::<B>(m, cpu, t), |c: CPU, m1: B::Model, v: u8| (c, m1, Ok((v, if page_crossed(a, t) { 1u8 } else { 0u8 }))))
            },
            AddrMode::Indirect(a) => bind(bus_read::<B>(m, cpu, a), |c1: CPU, m1: B::Model, lo: u8|
                bind(bus_read::<B>(m1, c1, wrap16(a + 1)), |c2: CPU, m2: B::Model, hi: u8| (c2, m2, Ok((lo, 0u8))))),
            AddrMode::IndirectX(a) => bind(Self::spec_zp_pointer::<B>(cpu, m, wrap8(a + cpu.reg_x)), |c1: CPU, m1: B::Model, p: u16|
                bind(bus_read::<B>(m1, c1, p), |c2: CPU, m2: B::Model, v: u8| (c2, m2, Ok((v, 0u8))))),
            AddrMode::IndirectY(a) => bind(Self::spec_zp_pointer::<B>(cpu, m, a), |c1: CPU, m1: B::Model, p: u16|
                bind(bus_read::<B>(m1, c1, wrap16(p + c1.reg_y)), |c2: CPU, m2: B::Model, v: u8|
                    (c2, m2, Ok((v, if page_crossed(p, wrap16(p + c1.reg_y)) { 1u8 } else { 0u8 }))))),
            AddrMode::Relative(off) => (cpu, m, Ok(((branch_target(cpu.reg_pc, off) % 256) as u8, 0u8))),
        }
    }

    fn zp_pointer<B: CpuMemory>(ptr: u8, cpu: &mut CPU, bus: &mut B) -> (r: Result<u16, Fault>)
        requires
            old(bus).inv(),
        ensures
            final(bus).inv(),
            (*final(cpu), final(bus).model(), r) == Self::spec_zp_pointer::<B>(*old(cpu), old(bus).model(), ptr),
    {
        let lo = bus.read(ptr as u16, cpu)?;
        let hi = bus.read(add8(ptr, 1) as u16, cpu)?;
        Ok(make_word(lo, hi))
    }

    pub fn resolve<B: CpuMemory>(&self, cpu: &mut CPU, bus: &mut B) -> (r: Result<(u8, u8), Fault>)
        requires
            old(bus).inv(),
        ensures
            final(bus).inv(),
            (*final(cpu), final(bus).model(), r) == self.spec_resolve::<B>(*old(cpu), old(bus).model()),
    {
        match self {
            AddrMode::Implied => Ok((0, 0)),
            AddrMode::Immediate(v) => Ok((*v, 0)),
            AddrMode::ZeroPage(a) => {
                let v = bus.read(*a as u16, cpu)?;
                Ok((v, 0))
            },
            AddrMode::ZeroPageX(a) => {
                let addr = add8(*a, cpu.reg_x);
                let v = bus.read(addr as u16, cpu)?;
                Ok((v, 0))
            },
            AddrMode::ZeroPageY(a) => {
                let addr = add8(*a, cpu.reg_y);
                let v = bus.read(addr as u16, cpu)?;
                Ok((v, 0))
            },
            AddrMode::Absolute(a) => {
                let v = bus.read(*a, cpu)?;
                Ok((v, 0))
            },
            AddrMode::AbsoluteX(a) => {
                let t = add16(*a, cpu.reg_x as u16);
                let v = bus.read(t, cpu)?;
                Ok((v, if *a / 256 != t / 256 { 1 } else { 0 }))
            },
            AddrMode::AbsoluteY(a) => {
                let t = add16(*a, cpu.reg_y as u16);
                let v = bus.read(t, cpu)?;
                Ok((v, if *a / 256 != t / 256 { 1 } else { 0 }))
            },
            AddrMode::Indirect(a) => {
                let lo = bus.read(*a, cpu)?;
                let _hi = bus.read(add16(*a, 1), cpu)?;
                Ok((lo, 0))
            },
            AddrMode::IndirectX(a) => {
                let p = Self::zp_pointer(add8(*a, cpu.reg_x), cpu, bus)?;
                let v = bus.read(p, cpu)?;
                Ok((v, 0))
            },
            AddrMode::IndirectY(a) => {
                let p = Self::zp_pointer(*a, cpu, bus)?;
                let t = add16(p, cpu.reg_y as u16);
                let v = bus.read(t, cpu)?;
                Ok((v, if p / 256 != t / 256 { 1 } else { 0 }))
            },
            AddrMode::Relative(off) => {
                let t = relative_target(cpu.reg_pc, *off);
                Ok(((t % 256) as u8, 0))
            },
        }
    }
}

/// The mode of the given kind whose one-byte operand is `b`.
pub open spec fn mode_with_byte(k: ModeKind, b: u8) -> AddrMode {
    match k {
        ModeKind::Immediate => AddrMode::Immediate(b),
        ModeKind::ZeroPage => AddrMode::ZeroPage(b),
        ModeKind::ZeroPageX => AddrMode::ZeroPageX(b),
        ModeKind::ZeroPageY => AddrMode::ZeroPageY(b),
        ModeKind::IndirectX => AddrMode::IndirectX(b),
        ModeKind::IndirectY => AddrMode::IndirectY(b),
        ModeKind::Relative => AddrMode::Relative(b as i8),
        _ => AddrMode::Implied,
    }
}

/// The mode of the given kind whose two-byte operand is `w`.
pub open spec fn mode_with_word(k: ModeKind, w: u16) -> AddrMode {
    match k {
        ModeKind::Absolute => AddrMode::Absolute(w),
        ModeKind::AbsoluteX => AddrMode::AbsoluteX(w),
        ModeKind::AbsoluteY => AddrMode::AbsoluteY(w),
        _ => AddrMode::Indirect(w),
    }
}

/// How many operand bytes follow an opcode of the given mode.
pub open spec fn operand_len(k: ModeKind) -> int {
    match k {
        ModeKind::Implied => 0,
        ModeKind::Absolute | ModeKind::AbsoluteX | ModeKind::AbsoluteY | ModeKind::Indirect => 2,
        _ => 1,
    }
}

impl Instruction {
    /// Decoding the instruction at `pc`: the opcode is read, then as many
    /// operand bytes as its mode takes, each from the next address.
    pub open spec fn spec_fetch<B: CpuMemory>(pc: u16, cpu: CPU, m: B::Model) -> (CPU, B::Model, Result<Instruction, Fault>) {
        bind(bus_read::<B>(m, cpu, pc), |c1: CPU, m1: B::Model, op: u8| {
            let info = spec_opcode(op);
            if operand_len(info.mode) == 0 {
                (c1, m1, Ok(Instruction { pc, instr_type: info.instr_type, addr_mode: AddrMode::Implied, cycles: info.cycles }))
            } else if operand_len(info.mode) == 1 {
                bind(bus_read::<B>(m1, c1, wrap16(pc + 1)), |c2: CPU, m2: B::Model, b: u8|
                    (c2, m2, Ok(Instruction { pc, instr_type: info.instr_type, addr_mode: mode_with_byte(info.mode, b), cycles: info.cycles })))
            } else {
                bind(bus_read::<B>(m1, c1, wrap16(pc + 1)), |c2: CPU, m2: B::Model, lo: u8|
                    bind(bus_read::<B>(m2, c2, wrap16(pc + 2)), |c3: CPU, m3: B::Model, hi: u8|
                        (c3, m3, Ok(Instruction { pc, instr_type: info.instr_type, addr_mode: mode_with_word(info.mode, word(lo, hi)), cycles: info.cycles }))))
            }
        })
    }

    pub fn fetch<B: CpuMemory>(pc: u16, cpu: &mut CPU, bus: &mut B) -> (r: Result<Instruction, Fault>)
        requires
            old(bus).inv(),
        ensures
            final(bus).inv(),
            (*final(cpu), final(bus).model(), r) == Self::spec_fetch::<B>(pc, *old(cpu), old(bus).model()),
    {
        let op = bus.read(pc, cpu)?;
        let info = opcode_info(op);
        let mode = match info.mode {
            ModeKind::Implied => AddrMode::Implied,
            ModeKind::Absolute | ModeKind::AbsoluteX | ModeKind::AbsoluteY | ModeKind::Indirect => {
                let lo = bus.read(add16(pc, 1), cpu)?;
                let hi = bus.read(add16(pc, 2), cpu)?;
                let w = make_word(lo, hi);
                match info.mode {
                    ModeKind::Absolute => AddrMode::Absolute(w),
                    ModeKind::AbsoluteX => AddrMode::AbsoluteX(w),
                    ModeKind::AbsoluteY => AddrMode::AbsoluteY(w),
                    _ => AddrMode::Indirect(w),
                }
            },
            _ => {
                let b = bus.read(add16(pc, 1), cpu)?;
                match info.mode {
                    ModeKind::Immediate => AddrMode::Immediate(b),
                    ModeKind::ZeroPage => AddrMode::ZeroPage(b),
                    ModeKind::ZeroPageX => AddrMode::ZeroPageX(b),
                    ModeKind::ZeroPageY => AddrMode::ZeroPageY(b),
                    ModeKind::IndirectX => AddrMode::IndirectX(b),
                    ModeKind::IndirectY => AddrMode::IndirectY(b),
                    _ => AddrMode::Relative(b as i8),
                }
            },
        };
        Ok(Instruction { pc, instr_type: info.instr_type, addr_mode: mode, cycles: info.cycles })
    }
}

impl AddrMode {
    /// The address that a jump or branch with this mode goes to, for the
    /// absolute, indirect and relative modes; no address for the others.
    pub open spec fn spec_resolve_addr<B: CpuMemory>(self, cpu: CPU, m: B::Model) -> (CPU, B::Model, Result<Option<(u16, u8)>, Fault>) {
        match self {
            AddrMode::Absolute(a) => (cpu, m, Ok(Some((a, 0u8)))),
            AddrMode::Indirect(a) => bind(bus_read::<B>(m, cpu, a), |c1: CPU, m1: B::Model, lo: u8|
                bind(bus_read::<B>(m1, c1, wrap16(a + 1)), |c2: CPU, m2: B::Model, hi: u8| (c2, m2, Ok(Some((word(lo, hi), 0u8)))))),
            AddrMode::Relative(off) => (cpu, m, Ok(Some((branch_target(cpu.reg_pc, off), 0u8)))),
            _ => (cpu, m, Ok(None)),
        }
    }

    pub fn resolve_addr<B: CpuMemory>(&self, cpu: &mut CPU, bus: &mut B) -> (r: Result<Option<(u16, u8)>, Fault>)
        requires
            old(bus).inv(),
        ensures
            final(bus).inv(),
            (*final(cpu), final(bus).model(), r) == self.spec_resolve_addr::<B>(*old(cpu), old(bus).model()),
    {
        match self {
            AddrMode::Absolute(a) => Ok(Some((*a, 0))),
            AddrMode::Indirect(a) => {
                let lo = bus.read(*a, cpu)?;
                let hi = bus.read(add16(*a, 1), cpu)?;
                Ok(Some((make_word(lo, hi), 0)))
            },
            AddrMode::Relative(off) => Ok(Some((relative_target(cpu.reg_pc, *off), 0))),
            _ => Ok(None),
        }
    }

    /// Storing `val` at the address of this mode. Modes without a memory
    /// operand store nothing; the indirect modes first read their pointer.
    pub open spec fn spec_write<B: CpuMemory>(self, val: u8, cpu: CPU, m: B::Model) -> (CPU, B::Model, Result<(), Fault>) {
        match self {
            AddrMode::ZeroPage(a) => bus_write::<B>(m, cpu, a as u16, val),
            AddrMode::ZeroPageX(a) => bus_write::<B>(m, cpu, wrap8(a + cpu.reg_x) as u16, val),
            AddrMode::ZeroPageY(a) => bus_write::<B>(m, cpu, wrap8(a + cpu.reg_y) as u16, val),
            AddrMode::Absolute(a) => bus_write::<B>(m, cpu, a, val),
            AddrMode::AbsoluteX(a) => bus_write::<B>(m, cpu, wrap16(a + cpu.reg_x), val),
            AddrMode::AbsoluteY(a) => bus_write::<B>(m, cpu, wrap16(a + cpu.reg_y), val),
            AddrMode::IndirectX(a) => bind(Self::spec_zp_pointer::<B>(cpu, m, wrap8(a + cpu.reg_x)), |c1: CPU, m1: B::Model, p: u16|
                bus_write::<B>(m1, c1, p, val)),
            AddrMode::IndirectY(a) => bind(Self::spec_zp_pointer::<B>(cpu, m, a), |c1: CPU, m1: B::Model, p: u16|
                bus_write::<B>(m1, c1, wrap16(p + c1.reg_y), val)),
            _ => (cpu, m, Ok(())),
        }
    }

    pub fn write<B: CpuMemory>(&self, val: u8, cpu: &mut CPU, bus: &mut B) -> (r: Result<(), Fault>)
        requires
            old(bus).inv(),
        ensures
            final(bus).inv(),
            (*final(cpu), final(bus).model(), r) == self.spec_write::<B>(val, *old(cpu), old(bus).model()),
    {
        match self {
            AddrMode::ZeroPage(a) => bus.write(*a as u16, val, cpu),
            AddrMode::ZeroPageX(a) => {
                let addr = add8(*a, cpu.reg_x);
                bus.write(addr as u16, val, cpu)
            },
            AddrMode::ZeroPageY(a) => {
                let addr = add8(*a, cpu.reg_y);
                bus.write(addr as u16, val, cpu)
            },
            AddrMode::Absolute(a) => bus.write(*a, val, cpu),
            AddrMode::AbsoluteX(a) => {
                let addr = add16(*a, cpu.reg_x as u16);
                bus.write(addr, val, cpu)
            },
            AddrMode::AbsoluteY(a) => {
                let addr = add16(*a, cpu.reg_y as u16);
                bus.write(addr, val, cpu)
            },
            AddrMode::IndirectX(a) => {
                let p = Self::zp_pointer(add8(*a, cpu.reg_x), cpu, bus)?;
                bus.write(p, val, cpu)
            },
            AddrMode::IndirectY(a) => {
                let p = Self::zp_pointer(*a, cpu, bus)?;
                let addr = add16(p, cpu.reg_y as u16);
                bus.write(addr, val, cpu)
            },
            _ => Ok(()),
        }
    }

    /// The two writes of a read-modify-write instruction: the 6502 first
    /// writes back the byte it read, then the modified byte.
    pub open spec fn spec_write_read_modify<B: CpuMemory>(self, before: u8, after: u8, cpu: CPU, m: B::Model) -> (CPU, B::Model, Result<(), Fault>) {
        bind(self.spec_write::<B>(before, cpu, m), |c1: CPU, m1: B::Model, u: ()| self.spec_write::<B>(after, c1, m1))
    }

    pub fn write_read_modify<B: CpuMemory>(&self, before: u8, after: u8, cpu: &mut CPU, bus: &mut B) -> (r: Result<(), Fault>)
        requires
            old(bus).inv(),
        ensures
            final(bus).inv(),
            (*final(cpu), final(bus).model(), r) == self.spec_write_read_modify::<B>(before, after, *old(cpu), old(bus).model()),
    {
        self.write(before, cpu, bus)?;
        self.write(after, cpu, bus)
    }
}

/// The kind of an addressing mode.
pub open spec fn mode_kind(m: AddrMode) -> ModeKind {
    match m {
        AddrMode::Implied => ModeKind::Implied,
        AddrMode::Immediate(_) => ModeKind::Immediate,
        AddrMode::Absolute(_) => ModeKind::Absolute,
        AddrMode::ZeroPage(_) => ModeKind::ZeroPage,
        AddrMode::AbsoluteX(_) => ModeKind::AbsoluteX,
        AddrMode::AbsoluteY(_) => ModeKind::AbsoluteY,
        AddrMode::ZeroPageX(_) => ModeKind::ZeroPageX,
        AddrMode::ZeroPageY(_) => ModeKind::ZeroPageY,
        AddrMode::Indirect(_) => ModeKind::Indirect,
        AddrMode::IndirectX(_) => ModeKind::IndirectX,
        AddrMode::IndirectY(_) => ModeKind::IndirectY,
        AddrMode::Relative(_) => ModeKind::Relative,
    }
}

/// The one-byte operand of a mode that has one (a branch offset aside).
pub open spec fn byte_operand(m: AddrMode) -> Option<u8> {
    match m {
        AddrMode::Immediate(b) => Some(b),
        AddrMode::ZeroPage(b) => Some(b),
        AddrMode::ZeroPageX(b) => Some(b),
        AddrMode::ZeroPageY(b) => Some(b),
        AddrMode::IndirectX(b) => Some(b),
        AddrMode::IndirectY(b) => Some(b),
        _ => None,
    }
}

/// The two-byte operand of a mode that has one.
pub open spec fn word_operand(m: AddrMode) -> Option<u16> {
    match m {
        AddrMode::Absolute(w) => Some(w),
        AddrMode::AbsoluteX(w) => Some(w),
        AddrMode::AbsoluteY(w) => Some(w),
        AddrMode::Indirect(w) => Some(w),
        _ => None,
    }
}

/// Decoding: the instruction fetched at `pc` has the operation, cycles and
/// addressing-mode kind that the opcode table gives the byte at `pc`; a
/// one-byte operand is the byte at `pc + 1`, a two-byte operand the
/// little-endian word at `pc + 1` and `pc + 2`. In particular the
/// Y-indexed zero-page opcodes $96, $97, $B6 and $B7 decode to
/// `ZeroPageY` of the byte at `pc + 1`.
pub proof fn lemma_fetch_decodes<B: CpuMemory>(pc: u16, cpu: CPU, m: B::Model)
    ensures
        ({
            let (c1, m1, r1) = bus_read::<B>(m, cpu, pc);
            let op = r1->Ok_0;
            let info = spec_opcode(op);
            let (c2, m2, r2) = bus_read::<B>(m1, c1, wrap16(pc + 1));
            let (c3, m3, r3) = bus_read::<B>(m2, c2, wrap16(pc + 2));
            let r = Instruction::spec_fetch::<B>(pc, cpu, m).2;
            r is Ok ==> {
                let inst = r->Ok_0;
                &&& r1 is Ok
                &&& inst.pc == pc
                &&& inst.instr_type == info.instr_type
                &&& inst.cycles == info.cycles
                &&& mode_kind(inst.addr_mode) == info.mode
                &&& info.mode != ModeKind::Relative && operand_len(info.mode) == 1 ==> byte_operand(inst.addr_mode) == Some(r2->Ok_0)
                &&& operand_len(info.mode) == 2 ==> word_operand(inst.addr_mode) == Some((r2->Ok_0 + 256 * r3->Ok_0) as u16)
                &&& (op == 0x96 || op == 0x97 || op == 0xB6 || op == 0xB7) ==> inst.addr_mode == AddrMode::ZeroPageY(r2->Ok_0)
            }
        }),
{
}

} // verus!
