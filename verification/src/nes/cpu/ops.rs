//! What each instruction does to the registers, the flags and the bus.

use vstd::prelude::*;

use crate::nes::cpu::alu::{
    adc, compare, sbc, shl, shr, spec_adc, spec_compare, spec_sbc, spec_shl, spec_shr,
    StatusFlags,
};
use crate::nes::cpu::exec::{add16, add8, bind, make_word, wrap16, wrap8, word};
use crate::nes::cpu::instr::{AddrMode, InstrType, Instruction};
use crate::nes::cpu::{bus_dma, bus_read, bus_write, CpuMemory, Fault, InterruptSet, InterruptType, CPU};

verus! {

/// The flags after a result: zero when it is 0, negative when bit 7 is set.
pub open spec fn with_zn(p: StatusFlags, v: u8) -> StatusFlags {
    StatusFlags { zero: v == 0, neg: v >= 128, ..p }
}

/// The CPU with its program counter moved past `n` bytes.
pub open spec fn advance(c: CPU, n: u16) -> CPU {
    CPU { reg_pc: wrap16(c.reg_pc + n), ..c }
}

impl CPU {
    fn set_zn(&mut self, v: u8)
        ensures
            *final(self) == (CPU { reg_p: with_zn(old(self).reg_p, v), ..*old(self) }),
    {
        self.reg_p.zero = v == 0;
        self.reg_p.neg = v >= 128;
    }

    fn advance_pc(&mut self, instr: &Instruction)
        ensures
            *final(self) == advance(*old(self), instr.addr_mode.spec_size()),
    {
        self.reg_pc = add16(self.reg_pc, instr.addr_mode.size());
    }

    /// Pushing a byte: written at `$0100 + SP`, then SP moves down (wrapping).
    pub open spec fn spec_push_stack<B: CpuMemory>(c: CPU, m: B::Model, data: u8) -> (CPU, B::Model, Result<(), Fault>) {
        bind(bus_write::<B>(m, c, (0x100 + c.reg_sp) as u16, data), |c1: CPU, m1: B::Model, u: ()|
            (CPU { reg_sp: wrap8(c1.reg_sp - 1), ..c1 }, m1, Ok(())))
    }

    /// Popping a byte: SP moves up (wrapping), then `$0100 + SP` is read.
    pub open spec fn spec_pop_stack<B: CpuMemory>(c: CPU, m: B::Model) -> (CPU, B::Model, Result<u8, Fault>) {
        let c1 = CPU { reg_sp: wrap8(c.reg_sp + 1), ..c };
        bus_read::<B>(m, c1, (0x100 + c1.reg_sp) as u16)
    }

    pub fn push_stack<B: CpuMemory>(&mut self, data: u8, bus: &mut B) -> (r: Result<(), Fault>)
        requires
            old(bus).inv(),
        ensures
            final(bus).inv(),
            (*final(self), final(bus).model(), r) == Self::spec_push_stack::<B>(*old(self), old(bus).model(), data),
    {
        let addr: u16 = 0x100 + self.reg_sp as u16;
        bus.write(addr, data, self)?;
        self.reg_sp = if self.reg_sp == 0 { 255 } else { self.reg_sp - 1 };
        Ok(())
    }

    pub fn pop_stack<B: CpuMemory>(&mut self, bus: &mut B) -> (r: Result<u8, Fault>)
        requires
            old(bus).inv(),
        ensures
            final(bus).inv(),
            (*final(self), final(bus).model(), r) == Self::spec_pop_stack::<B>(*old(self), old(bus).model()),
    {
        self.reg_sp = add8(self.reg_sp, 1);
        let addr: u16 = 0x100 + self.reg_sp as u16;
        bus.read(addr, self)
    }

    // ---------------------------------------------------------------- loads

    pub open spec fn spec_exec_load<B: CpuMemory>(instr: Instruction, cpu: CPU, m: B::Model) -> (CPU, B::Model, Result<u8, Fault>) {
        bind(instr.addr_mode.spec_resolve::<B>(cpu, m), |c: CPU, m1: B::Model, r: (u8, u8)| {
            let v = r.0;
            let c2 = match instr.instr_type {
                InstrType::LDA => CPU { reg_a: v, reg_p: with_zn(c.reg_p, v), ..c },
                InstrType::LDX => CPU { reg_x: v, reg_p: with_zn(c.reg_p, v), ..c },
                InstrType::LDY => CPU { reg_y: v, reg_p: with_zn(c.reg_p, v), ..c },
                InstrType::LAX => CPU { reg_a: v, reg_x: v, reg_p: with_zn(c.reg_p, v), ..c },
                _ => {
                    let t = v & c.reg_sp;
                    CPU { reg_a: t, reg_x: t, reg_sp: t, reg_p: with_zn(c.reg_p, t), ..c }
                },
            };
            (advance(c2, instr.addr_mode.spec_size()), m1, Ok(r.1))
        })
    }

    fn exec_load<B: CpuMemory>(&mut self, instr: &Instruction, bus: &mut B) -> (r: Result<u8, Fault>)
        requires
            old(bus).inv(),
            matches!(instr.instr_type, InstrType::LDA | InstrType::LDX | InstrType::LDY | InstrType::LAX | InstrType::LAS),
        ensures
            final(bus).inv(),
            (*final(self), final(bus).model(), r) == Self::spec_exec_load::<B>(*instr, *old(self), old(bus).model()),
    {
        let (v, add) = instr.addr_mode.resolve(self, bus)?;
        match instr.instr_type {
            InstrType::LDA => { self.reg_a = v; self.set_zn(v); },
            InstrType::LDX => { self.reg_x = v; self.set_zn(v); },
            InstrType::LDY => { self.reg_y = v; self.set_zn(v); },
            InstrType::LAX => { self.reg_a = v; self.reg_x = v; self.set_zn(v); },
            _ => {
                let t = v & self.reg_sp;
                self.reg_a = t;
                self.reg_x = t;
                self.reg_sp = t;
                self.set_zn(t);
            },
        }
        self.advance_pc(instr);
        Ok(add)
    }

    // ------------------------------------------------- logic and arithmetic

    pub open spec fn spec_exec_alu<B: CpuMemory>(instr: Instruction, cpu: CPU, m: B::Model) -> (CPU, B::Model, Result<u8, Fault>) {
        let sbx_val = cpu.reg_a & cpu.reg_x;
        bind(instr.addr_mode.spec_resolve::<B>(cpu, m), |c: CPU, m1: B::Model, r: (u8, u8)| {
            let v = r.0;
            let size = instr.addr_mode.spec_size();
            match instr.instr_type {
                InstrType::AND => (advance(CPU { reg_a: c.reg_a & v, reg_p: with_zn(c.reg_p, c.reg_a & v), ..c }, size), m1, Ok(r.1)),
                InstrType::EOR => (advance(CPU { reg_a: c.reg_a ^ v, reg_p: with_zn(c.reg_p, c.reg_a ^ v), ..c }, size), m1, Ok(r.1)),
                InstrType::ORA => (advance(CPU { reg_a: c.reg_a | v, reg_p: with_zn(c.reg_p, c.reg_a | v), ..c }, size), m1, Ok(r.1)),
                InstrType::BIT => (advance(CPU {
                    reg_p: StatusFlags { neg: v & 0x80 != 0, overflow: v & 0x40 != 0, zero: c.reg_a & v == 0, ..c.reg_p },
                    ..c
                }, size), m1, Ok(0u8)),
                InstrType::ADC => {
                    let s = spec_adc(c.reg_a, v, c.reg_p.carry);
                    (advance(CPU {
                        reg_a: s.value,
                        reg_p: StatusFlags { overflow: s.overflow, carry: s.carry, zero: s.value == 0, neg: s.value >= 128, ..c.reg_p },
                        ..c
                    }, size), m1, Ok(r.1))
                },
                InstrType::CMP | InstrType::CPX | InstrType::CPY => {
                    let reg = match instr.instr_type {
                        InstrType::CMP => c.reg_a,
                        InstrType::CPX => c.reg_x,
                        _ => c.reg_y,
                    };
                    let k = spec_compare(reg, v);
                    (advance(CPU {
                        reg_p: StatusFlags { carry: k.carry, zero: k.zero, neg: k.neg, ..c.reg_p },
                        ..c
                    }, size), m1, Ok(if instr.instr_type == InstrType::CMP { r.1 } else { 0u8 }))
                },
                InstrType::SBX => {
                    let k = spec_compare(sbx_val, v);
                    (advance(CPU {
                        reg_x: wrap8(sbx_val - v),
                        reg_p: StatusFlags { carry: k.carry, zero: k.zero, neg: k.neg, ..c.reg_p },
                        ..c
                    }, size), m1, Ok(0u8))
                },
                // SBC and its illegal twin USBC
                _ => {
                    let s = spec_sbc(c.reg_a, v, c.reg_p.carry);
                    (advance(CPU {
                        reg_a: s.value,
                        reg_p: StatusFlags { overflow: s.overflow, carry: s.carry, zero: s.value == 0, neg: s.value >= 128, ..c.reg_p },
                        ..c
                    }, size), m1, Ok(r.1))
                },
            }
        })
    }

    fn exec_alu<B: CpuMemory>(&mut self, instr: &Instruction, bus: &mut B) -> (r: Result<u8, Fault>)
        requires
            old(bus).inv(),
            matches!(instr.instr_type, InstrType::AND | InstrType::EOR | InstrType::ORA | InstrType::BIT
                | InstrType::ADC | InstrType::SBC | InstrType::USBC | InstrType::CMP | InstrType::CPX
                | InstrType::CPY | InstrType::SBX),
        ensures
            final(bus).inv(),
            (*final(self), final(bus).model(), r) == Self::spec_exec_alu::<B>(*instr, *old(self), old(bus).model()),
    {
        let sbx_val = self.reg_a & self.reg_x;
        let (v, add) = instr.addr_mode.resolve(self, bus)?;
        let ret = match instr.instr_type {
            InstrType::AND => { self.reg_a = self.reg_a & v; self.set_zn(self.reg_a); add },
            InstrType::EOR => { self.reg_a = self.reg_a ^ v; self.set_zn(self.reg_a); add },
            InstrType::ORA => { self.reg_a = self.reg_a | v; self.set_zn(self.reg_a); add },
            InstrType::BIT => {
                self.reg_p.neg = v & 0x80 != 0;
                self.reg_p.overflow = v & 0x40 != 0;
                self.reg_p.zero = self.reg_a & v == 0;
                0
            },
            InstrType::ADC => {
                let s = adc(self.reg_a, v, self.reg_p.carry);
                self.reg_p.overflow = s.overflow;
                self.reg_p.carry = s.carry;
                self.reg_p.zero = s.value == 0;
                self.reg_p.neg = s.value >= 128;
                self.reg_a = s.value;
                add
            },
            InstrType::CMP | InstrType::CPX | InstrType::CPY => {
                let reg = match instr.instr_type {
                    InstrType::CMP => self.reg_a,
                    InstrType::CPX => self.reg_x,
                    _ => self.reg_y,
                };
                let k = compare(reg, v);
                self.reg_p.carry = k.carry;
                self.reg_p.zero = k.zero;
                self.reg_p.neg = k.neg;
                if instr.instr_type == InstrType::CMP { add } else { 0 }
            },
            InstrType::SBX => {
                let k = compare(sbx_val, v);
                self.reg_x = sbx_val.wrapping_sub(v);
                self.reg_p.carry = k.carry;
                self.reg_p.zero = k.zero;
                self.reg_p.neg = k.neg;
                0
            },
            _ => {
                let s = sbc(self.reg_a, v, self.reg_p.carry);
                self.reg_p.overflow = s.overflow;
                self.reg_p.carry = s.carry;
                self.reg_p.zero = s.value == 0;
                self.reg_p.neg = s.value >= 128;
                self.reg_a = s.value;
                add
            },
        };
        self.advance_pc(instr);
        Ok(ret)
    }

    // ------------------------------------------------------ shifts and RMW

    /// The result of a shift or rotation of `val` and the carry it leaves.
    pub open spec fn shift_result(t: InstrType, val: u8, carry: bool) -> (u8, bool) {
        match t {
            InstrType::ASL => (spec_shl(val, false), val >= 128),
            InstrType::LSR => (spec_shr(val, false), val % 2 == 1),
            InstrType::ROL => (spec_shl(val, carry), val >= 128),
            _ => (spec_shr(val, carry), val % 2 == 1),
        }
    }

    pub open spec fn spec_exec_shift<B: CpuMemory>(instr: Instruction, cpu: CPU, m: B::Model) -> (CPU, B::Model, Result<u8, Fault>) {
        let size = instr.addr_mode.spec_size();
        match instr.addr_mode {
            AddrMode::Implied => {
                let sr = Self::shift_result(instr.instr_type, cpu.reg_a, cpu.reg_p.carry);
                (advance(CPU { reg_a: sr.0, reg_p: StatusFlags { carry: sr.1, zero: sr.0 == 0, neg: sr.0 >= 128, ..cpu.reg_p }, ..cpu }, size), m, Ok(0u8))
            },
            _ => bind(instr.addr_mode.spec_resolve::<B>(cpu, m), |c: CPU, m1: B::Model, r: (u8, u8)|
                Self::spec_shift_mem::<B>(instr, r.0, c, m1)),
        }
    }

    pub open spec fn spec_shift_mem<B: CpuMemory>(instr: Instruction, val: u8, c: CPU, m1: B::Model) -> (CPU, B::Model, Result<u8, Fault>) {
        let sr = Self::shift_result(instr.instr_type, val, c.reg_p.carry);
        let c2 = CPU { reg_p: StatusFlags { carry: sr.1, zero: sr.0 == 0, neg: sr.0 >= 128, ..c.reg_p }, ..c };
        bind(instr.addr_mode.spec_write_read_modify::<B>(val, sr.0, c2, m1), |c3: CPU, m3: B::Model, u: ()|
            (advance(c3, instr.addr_mode.spec_size()), m3, Ok(0u8)))
    }

    fn shift_op(t: InstrType, val: u8, carry: bool) -> (r: (u8, bool))
        ensures
            r == Self::shift_result(t, val, carry),
    {
        match t {
            InstrType::ASL => (shl(val, false), val >= 128),
            InstrType::LSR => (shr(val, false), val % 2 == 1),
            InstrType::ROL => (shl(val, carry), val >= 128),
            _ => (shr(val, carry), val % 2 == 1),
        }
    }

    fn exec_shift_mem<B: CpuMemory>(&mut self, instr: &Instruction, val: u8, bus: &mut B) -> (r: Result<u8, Fault>)
        requires
            old(bus).inv(),
        ensures
            final(bus).inv(),
            (*final(self), final(bus).model(), r) == Self::spec_shift_mem::<B>(*instr, val, *old(self), old(bus).model()),
    {
        let (res, carry) = Self::shift_op(instr.instr_type, val, self.reg_p.carry);
        self.reg_p.carry = carry;
        self.reg_p.zero = res == 0;
        self.reg_p.neg = res >= 128;
        instr.addr_mode.write_read_modify(val, res, self, bus)?;
        self.advance_pc(instr);
        Ok(0)
    }

    fn exec_shift<B: CpuMemory>(&mut self, instr: &Instruction, bus: &mut B) -> (r: Result<u8, Fault>)
        requires
            old(bus).inv(),
            matches!(instr.instr_type, InstrType::ASL | InstrType::LSR | InstrType::ROL | InstrType::ROR),
        ensures
            final(bus).inv(),
            (*final(self), final(bus).model(), r) == Self::spec_exec_shift::<B>(*instr, *old(self), old(bus).model()),
    {
        if let AddrMode::Implied = instr.addr_mode {
            let (res, carry) = Self::shift_op(instr.instr_type, self.reg_a, self.reg_p.carry);
            self.reg_p.carry = carry;
            self.reg_p.zero = res == 0;
            self.reg_p.neg = res >= 128;
            self.reg_a = res;
            self.advance_pc(instr);
            Ok(0)
        } else {
            let (val, _) = instr.addr_mode.resolve(self, bus)?;
            self.exec_shift_mem(instr, val, bus)
        }
    }

    pub open spec fn spec_exec_rmw<B: CpuMemory>(instr: Instruction, cpu: CPU, m: B::Model) -> (CPU, B::Model, Result<u8, Fault>) {
        let size = instr.addr_mode.spec_size();
        let mode = instr.addr_mode;
        bind(mode.spec_resolve::<B>(cpu, m), |c: CPU, m1: B::Model, r: (u8, u8)| {
            let val = r.0;
            match instr.instr_type {
                InstrType::INC | InstrType::DEC => {
                    let res = if instr.instr_type == InstrType::INC { wrap8(val + 1) } else { wrap8(val - 1) };
                    let c2 = CPU { reg_p: with_zn(c.reg_p, res), ..c };
                    bind(mode.spec_write_read_modify::<B>(val, res, c2, m1), |c3: CPU, m3: B::Model, u: ()|
                        (advance(c3, size), m3, Ok(0u8)))
                },
                InstrType::DCP => {
                    let res = wrap8(val - 1);
                    bind(mode.spec_write_read_modify::<B>(wrap8(res + 1), res, c, m1), |c3: CPU, m3: B::Model, u: ()| {
                        let k = spec_compare(c3.reg_a, res);
                        (advance(CPU { reg_p: StatusFlags { carry: k.carry, zero: k.zero, neg: k.neg, ..c3.reg_p }, ..c3 }, size), m3, Ok(0u8))
                    })
                },
                InstrType::ISC => {
                    let res = wrap8(val + 1);
                    bind(mode.spec_write_read_modify::<B>(wrap8(res - 1), res, c, m1), |c3: CPU, m3: B::Model, u: ()| {
                        let d = spec_sbc(c3.reg_a, res, c3.reg_p.carry);
                        (advance(CPU {
                            reg_a: d.value,
                            reg_p: StatusFlags { overflow: d.overflow, carry: d.carry, zero: d.value == 0, neg: d.value >= 128, ..c3.reg_p },
                            ..c3
                        }, size), m3, Ok(0u8))
                    })
                },
                InstrType::RLA => {
                    let res = spec_shl(val, c.reg_p.carry);
                    bind(mode.spec_write_read_modify::<B>(val, res, c, m1), |c3: CPU, m3: B::Model, u: ()| {
                        let a = c3.reg_a & res;
                        (advance(CPU { reg_a: a, reg_p: with_zn(StatusFlags { carry: val >= 128, ..c3.reg_p }, a), ..c3 }, size), m3, Ok(0u8))
                    })
                },
                InstrType::RRA => {
                    let res = spec_shr(val, c.reg_p.carry);
                    bind(mode.spec_write_read_modify::<B>(val, res, c, m1), |c3: CPU, m3: B::Model, u: ()| {
                        let s = spec_adc(res, c3.reg_a, val % 2 == 1);
                        (advance(CPU {
                            reg_a: s.value,
                            reg_p: StatusFlags { overflow: s.overflow, carry: s.carry, zero: s.value == 0, neg: s.value >= 128, ..c3.reg_p },
                            ..c3
                        }, size), m3, Ok(0u8))
                    })
                },
                InstrType::SLO => {
                    let res = spec_shl(val, false);
                    bind(mode.spec_write_read_modify::<B>(val, res, c, m1), |c3: CPU, m3: B::Model, u: ()| {
                        let a = c3.reg_a | res;
                        (advance(CPU { reg_a: a, reg_p: with_zn(StatusFlags { carry: val >= 128, ..c3.reg_p }, a), ..c3 }, size), m3, Ok(0u8))
                    })
                },
                // SRE
                _ => {
                    let res = spec_shr(val, false);
                    bind(mode.spec_write_read_modify::<B>(val, res, c, m1), |c3: CPU, m3: B::Model, u: ()| {
                        let a = c3.reg_a ^ res;
                        (advance(CPU { reg_a: a, reg_p: with_zn(StatusFlags { carry: val % 2 == 1, ..c3.reg_p }, a), ..c3 }, size), m3, Ok(0u8))
                    })
                },
            }
        })
    }

    fn exec_rmw<B: CpuMemory>(&mut self, instr: &Instruction, bus: &mut B) -> (r: Result<u8, Fault>)
        requires
            old(bus).inv(),
            matches!(instr.instr_type, InstrType::INC | InstrType::DEC | InstrType::DCP | InstrType::ISC
                | InstrType::RLA | InstrType::RRA | InstrType::SLO | InstrType::SRE),
        ensures
            final(bus).inv(),
            (*final(self), final(bus).model(), r) == Self::spec_exec_rmw::<B>(*instr, *old(self), old(bus).model()),
    {
        let mode = instr.addr_mode;
        let (val, _) = mode.resolve(self, bus)?;
        match instr.instr_type {
            InstrType::INC | InstrType::DEC => {
                let res = if instr.instr_type == InstrType::INC { add8(val, 1) } else { val.wrapping_sub(1) };
                self.set_zn(res);
                mode.write_read_modify(val, res, self, bus)?;
            },
            InstrType::DCP => {
                let res = val.wrapping_sub(1);
                mode.write_read_modify(add8(res, 1), res, self, bus)?;
                let k = compare(self.reg_a, res);
                self.reg_p.carry = k.carry;
                self.reg_p.zero = k.zero;
                self.reg_p.neg = k.neg;
            },
            InstrType::ISC => {
                let res = add8(val, 1);
                mode.write_read_modify(res.wrapping_sub(1), res, self, bus)?;
                let d = sbc(self.reg_a, res, self.reg_p.carry);
                self.reg_p.overflow = d.overflow;
                self.reg_p.carry = d.carry;
                self.reg_p.zero = d.value == 0;
                self.reg_p.neg = d.value >= 128;
                self.reg_a = d.value;
            },
            InstrType::RLA => {
                let res = shl(val, self.reg_p.carry);
                mode.write_read_modify(val, res, self, bus)?;
                self.reg_p.carry = val >= 128;
                self.reg_a = self.reg_a & res;
                self.set_zn(self.reg_a);
            },
            InstrType::RRA => {
                let res = shr(val, self.reg_p.carry);
                mode.write_read_modify(val, res, self, bus)?;
                let s = adc(res, self.reg_a, val % 2 == 1);
                self.reg_p.overflow = s.overflow;
                self.reg_p.carry = s.carry;
                self.reg_p.zero = s.value == 0;
                self.reg_p.neg = s.value >= 128;
                self.reg_a = s.value;
            },
            InstrType::SLO => {
                let res = shl(val, false);
                mode.write_read_modify(val, res, self, bus)?;
                self.reg_p.carry = val >= 128;
                self.reg_a = self.reg_a | res;
                self.set_zn(self.reg_a);
            },
            _ => {
                let res = shr(val, false);
                mode.write_read_modify(val, res, self, bus)?;
                self.reg_p.carry = val % 2 == 1;
                self.reg_a = self.reg_a ^ res;
                self.set_zn(self.reg_a);
            },
        }
        self.advance_pc(instr);
        Ok(0)
    }

    // ------------------------------------------------------ stores, branches

    pub open spec fn spec_exec_store<B: CpuMemory>(instr: Instruction, cpu: CPU, m: B::Model) -> (CPU, B::Model, Result<u8, Fault>) {
        let v = match instr.instr_type {
            InstrType::STA => cpu.reg_a,
            InstrType::STX => cpu.reg_x,
            InstrType::STY => cpu.reg_y,
            _ => cpu.reg_a & cpu.reg_x,
        };
        bind(instr.addr_mode.spec_write::<B>(v, cpu, m), |c: CPU, m1: B::Model, u: ()|
            (advance(c, instr.addr_mode.spec_size()), m1, Ok(0u8)))
    }

    fn exec_store<B: CpuMemory>(&mut self, instr: &Instruction, bus: &mut B) -> (r: Result<u8, Fault>)
        requires
            old(bus).inv(),
            matches!(instr.instr_type, InstrType::STA | InstrType::STX | InstrType::STY | InstrType::SAX),
        ensures
            final(bus).inv(),
            (*final(self), final(bus).model(), r) == Self::spec_exec_store::<B>(*instr, *old(self), old(bus).model()),
    {
        let v = match instr.instr_type {
            InstrType::STA => self.reg_a,
            InstrType::STX => self.reg_x,
            InstrType::STY => self.reg_y,
            _ => self.reg_a & self.reg_x,
        };
        instr.addr_mode.write(v, self, bus)?;
        self.advance_pc(instr);
        Ok(0)
    }

    /// Whether a conditional branch is taken under the given flags.
    pub open spec fn branch_taken(t: InstrType, p: StatusFlags) -> bool {
        match t {
            InstrType::BCC => !p.carry,
            InstrType::BCS => p.carry,
            InstrType::BEQ => p.zero,
            InstrType::BMI => p.neg,
            InstrType::BNE => !p.zero,
            InstrType::BPL => !p.neg,
            InstrType::BVC => !p.overflow,
            _ => p.overflow,
        }
    }

    pub open spec fn spec_exec_branch<B: CpuMemory>(instr: Instruction, cpu: CPU, m: B::Model) -> (CPU, B::Model, Result<u8, Fault>) {
        bind(instr.addr_mode.spec_resolve_addr::<B>(cpu, m), |c: CPU, m1: B::Model, r: Option<(u16, u8)>|
            match r {
                None => (c, m1, Err(Fault::Instruction(instr.pc))),
                Some(t) => if Self::branch_taken(instr.instr_type, c.reg_p) {
                    (CPU { reg_pc: t.0, ..c }, m1, Ok(wrap8(t.1 + 1)))
                } else {
                    (advance(c, instr.addr_mode.spec_size()), m1, Ok(0u8))
                },
            })
    }

    fn exec_branch<B: CpuMemory>(&mut self, instr: &Instruction, bus: &mut B) -> (r: Result<u8, Fault>)
        requires
            old(bus).inv(),
            matches!(instr.instr_type, InstrType::BCC | InstrType::BCS | InstrType::BEQ | InstrType::BMI
                | InstrType::BNE | InstrType::BPL | InstrType::BVC | InstrType::BVS),
        ensures
            final(bus).inv(),
            (*final(self), final(bus).model(), r) == Self::spec_exec_branch::<B>(*instr, *old(self), old(bus).model()),
    {
        let target = instr.addr_mode.resolve_addr(self, bus)?;
        match target {
            None => Err(Fault::Instruction(instr.pc)),
            Some((addr, add)) => {
                let taken = match instr.instr_type {
                    InstrType::BCC => !self.reg_p.carry,
                    InstrType::BCS => self.reg_p.carry,
                    InstrType::BEQ => self.reg_p.zero,
                    InstrType::BMI => self.reg_p.neg,
                    InstrType::BNE => !self.reg_p.zero,
                    InstrType::BPL => !self.reg_p.neg,
                    InstrType::BVC => !self.reg_p.overflow,
                    _ => self.reg_p.overflow,
                };
                if taken {
                    self.reg_pc = addr;
                    Ok(add8(add, 1))
                } else {
                    self.advance_pc(instr);
                    Ok(0)
                }
            },
        }
    }

    // ------------------------------------------- register and flag transfers

    /// Instructions that touch only registers and flags (apart from the
    /// operand read of NOP, ALR, ANC and ARR).
    pub open spec fn spec_reg_only(t: InstrType, c: CPU) -> CPU {
        match t {
            InstrType::TAX => CPU { reg_x: c.reg_a, reg_p: with_zn(c.reg_p, c.reg_a), ..c },
            InstrType::TAY => CPU { reg_y: c.reg_a, reg_p: with_zn(c.reg_p, c.reg_a), ..c },
            InstrType::TSX => CPU { reg_x: c.reg_sp, reg_p: with_zn(c.reg_p, c.reg_sp), ..c },
            InstrType::TXA => CPU { reg_a: c.reg_x, reg_p: with_zn(c.reg_p, c.reg_x), ..c },
            InstrType::TXS => CPU { reg_sp: c.reg_x, ..c },
            InstrType::TYA => CPU { reg_a: c.reg_y, reg_p: with_zn(c.reg_p, c.reg_y), ..c },
            InstrType::INX => CPU { reg_x: wrap8(c.reg_x + 1), reg_p: with_zn(c.reg_p, wrap8(c.reg_x + 1)), ..c },
            InstrType::INY => CPU { reg_y: wrap8(c.reg_y + 1), reg_p: with_zn(c.reg_p, wrap8(c.reg_y + 1)), ..c },
            InstrType::DEX => CPU { reg_x: wrap8(c.reg_x - 1), reg_p: with_zn(c.reg_p, wrap8(c.reg_x - 1)), ..c },
            InstrType::DEY => CPU { reg_y: wrap8(c.reg_y - 1), reg_p: with_zn(c.reg_p, wrap8(c.reg_y - 1)), ..c },
            InstrType::CLC => CPU { reg_p: StatusFlags { carry: false, ..c.reg_p }, ..c },
            InstrType::CLD => CPU { reg_p: StatusFlags { decimal: false, ..c.reg_p }, ..c },
            InstrType::CLI => CPU { reg_p: StatusFlags { int: false, ..c.reg_p }, defer_irq: c.defer_irq || c.reg_p.int, ..c },
            InstrType::CLV => CPU { reg_p: StatusFlags { overflow: false, ..c.reg_p }, ..c },
            InstrType::SEC => CPU { reg_p: StatusFlags { carry: true, ..c.reg_p }, ..c },
            InstrType::SED => CPU { reg_p: StatusFlags { decimal: true, ..c.reg_p }, ..c },
            InstrType::SEI => CPU { reg_p: StatusFlags { int: true, ..c.reg_p }, ..c },
            // SHA, SHX, SHY, TAS are unstable on hardware and skipped.
            _ => c,
        }
    }

    fn exec_reg_only(&mut self, t: InstrType)
        requires
            matches!(t, InstrType::TAX | InstrType::TAY | InstrType::TSX | InstrType::TXA | InstrType::TXS
                | InstrType::TYA | InstrType::INX | InstrType::INY | InstrType::DEX | InstrType::DEY
                | InstrType::CLC | InstrType::CLD | InstrType::CLI | InstrType::CLV | InstrType::SEC
                | InstrType::SED | InstrType::SEI | InstrType::SHA | InstrType::SHX | InstrType::SHY
                | InstrType::TAS),
        ensures
            *final(self) == Self::spec_reg_only(t, *old(self)),
    {
        match t {
            InstrType::TAX => { self.reg_x = self.reg_a; self.set_zn(self.reg_x); },
            InstrType::TAY => { self.reg_y = self.reg_a; self.set_zn(self.reg_y); },
            InstrType::TSX => { self.reg_x = self.reg_sp; self.set_zn(self.reg_x); },
            InstrType::TXA => { self.reg_a = self.reg_x; self.set_zn(self.reg_a); },
            InstrType::TXS => { self.reg_sp = self.reg_x; },
            InstrType::TYA => { self.reg_a = self.reg_y; self.set_zn(self.reg_a); },
            InstrType::INX => { self.reg_x = add8(self.reg_x, 1); self.set_zn(self.reg_x); },
            InstrType::INY => { self.reg_y = add8(self.reg_y, 1); self.set_zn(self.reg_y); },
            InstrType::DEX => { self.reg_x = self.reg_x.wrapping_sub(1); self.set_zn(self.reg_x); },
            InstrType::DEY => { self.reg_y = self.reg_y.wrapping_sub(1); self.set_zn(self.reg_y); },
            InstrType::CLC => { self.reg_p.carry = false; },
            InstrType::CLD => { self.reg_p.decimal = false; },
            InstrType::CLI => {
                if self.reg_p.int {
                    self.defer_irq = true;
                }
                self.reg_p.int = false;
            },
            InstrType::CLV => { self.reg_p.overflow = false; },
            InstrType::SEC => { self.reg_p.carry = true; },
            InstrType::SED => { self.reg_p.decimal = true; },
            InstrType::SEI => { self.reg_p.int = true; },
            _ => {},
        }
    }

    /// NOP and the illegal immediate-operand combinations ALR, ANC, ARR.
    pub open spec fn spec_exec_misc<B: CpuMemory>(instr: Instruction, cpu: CPU, m: B::Model) -> (CPU, B::Model, Result<u8, Fault>) {
        bind(instr.addr_mode.spec_resolve::<B>(cpu, m), |c: CPU, m1: B::Model, r: (u8, u8)| {
            let v = r.0;
            let size = instr.addr_mode.spec_size();
            let t = c.reg_a & v;
            match instr.instr_type {
                InstrType::NOP => (advance(c, size), m1, Ok(r.1)),
                InstrType::ALR => (advance(CPU {
                    reg_a: t / 2,
                    reg_p: StatusFlags { neg: t / 2 >= 128, zero: t / 2 == 0, carry: t % 2 == 1, ..c.reg_p },
                    ..c
                }, size), m1, Ok(0u8)),
                InstrType::ANC => (advance(CPU {
                    reg_a: t,
                    reg_p: StatusFlags { neg: t >= 128, zero: t == 0, carry: c.reg_a >= 128, ..c.reg_p },
                    ..c
                }, size), m1, Ok(0u8)),
                // ARR
                _ => {
                    let a = (t / 2) & (if t % 2 == 1 { 128u8 } else { 0u8 });
                    (advance(CPU {
                        reg_a: a,
                        reg_p: StatusFlags { overflow: t + v > 127, neg: a >= 128, zero: a == 0, carry: t % 2 == 1, ..c.reg_p },
                        ..c
                    }, size), m1, Ok(0u8))
                },
            }
        })
    }

    fn exec_misc<B: CpuMemory>(&mut self, instr: &Instruction, bus: &mut B) -> (r: Result<u8, Fault>)
        requires
            old(bus).inv(),
            matches!(instr.instr_type, InstrType::NOP | InstrType::ALR | InstrType::ANC | InstrType::ARR),
        ensures
            final(bus).inv(),
            (*final(self), final(bus).model(), r) == Self::spec_exec_misc::<B>(*instr, *old(self), old(bus).model()),
    {
        let (v, add) = instr.addr_mode.resolve(self, bus)?;
        let t = self.reg_a & v;
        let ret = match instr.instr_type {
            InstrType::NOP => add,
            InstrType::ALR => {
                self.reg_a = t / 2;
                self.reg_p.neg = self.reg_a >= 128;
                self.reg_p.zero = self.reg_a == 0;
                self.reg_p.carry = t % 2 == 1;
                0
            },
            InstrType::ANC => {
                let carry = self.reg_a >= 128;
                self.reg_a = t;
                self.reg_p.neg = t >= 128;
                self.reg_p.zero = t == 0;
                self.reg_p.carry = carry;
                0
            },
            _ => {
                let ans: u16 = t as u16 + v as u16;
                self.reg_p.overflow = ans > 127;
                let carry = t % 2 == 1;
                self.reg_a = (t / 2) & (if carry { 128u8 } else { 0u8 });
                self.reg_p.neg = self.reg_a >= 128;
                self.reg_p.zero = self.reg_a == 0;
                self.reg_p.carry = carry;
                0
            },
        };
        self.advance_pc(instr);
        Ok(ret)
    }

    // ---------------------------------------------------------------- stack

    /// The status register as PLP and RTI restore it from a pulled byte: bit 5
    /// set, the break bit cleared.
    pub open spec fn pulled_flags(b: u8) -> StatusFlags {
        StatusFlags { one: true, brk: false, ..StatusFlags::spec_from_bits(b) }
    }

    /// The CPU after pulling the status byte `b`: an interrupt enable that the
    /// pull causes defers the next IRQ by one instruction.
    pub open spec fn after_pull_flags(c: CPU, b: u8) -> CPU {
        let p = Self::pulled_flags(b);
        CPU { reg_p: p, defer_irq: c.defer_irq || (c.reg_p.int && !p.int), ..c }
    }

    fn pull_flags(&mut self, b: u8)
        ensures
            *final(self) == Self::after_pull_flags(*old(self), b),
    {
        let prev_int = self.reg_p.int;
        let mut p = StatusFlags::from_bits_retain(b);
        p.one = true;
        p.brk = false;
        self.reg_p = p;
        if prev_int && !self.reg_p.int {
            self.defer_irq = true;
        }
    }

    pub open spec fn spec_exec_stack<B: CpuMemory>(instr: Instruction, cpu: CPU, m: B::Model) -> (CPU, B::Model, Result<u8, Fault>) {
        let size = instr.addr_mode.spec_size();
        match instr.instr_type {
            InstrType::PHA => bind(Self::spec_push_stack::<B>(cpu, m, cpu.reg_a), |c: CPU, m1: B::Model, u: ()| (advance(c, size), m1, Ok(0u8))),
            InstrType::PHP => bind(Self::spec_push_stack::<B>(cpu, m, StatusFlags { brk: true, one: true, ..cpu.reg_p }.spec_bits()),
                |c: CPU, m1: B::Model, u: ()| (advance(c, size), m1, Ok(0u8))),
            InstrType::PLA => bind(Self::spec_pop_stack::<B>(cpu, m), |c: CPU, m1: B::Model, v: u8|
                (advance(CPU { reg_a: v, reg_p: with_zn(c.reg_p, v), ..c }, size), m1, Ok(0u8))),
            // PLP
            _ => bind(Self::spec_pop_stack::<B>(cpu, m), |c: CPU, m1: B::Model, v: u8|
                (advance(Self::after_pull_flags(c, v), size), m1, Ok(0u8))),
        }
    }

    fn exec_stack<B: CpuMemory>(&mut self, instr: &Instruction, bus: &mut B) -> (r: Result<u8, Fault>)
        requires
            old(bus).inv(),
            matches!(instr.instr_type, InstrType::PHA | InstrType::PHP | InstrType::PLA | InstrType::PLP),
        ensures
            final(bus).inv(),
            (*final(self), final(bus).model(), r) == Self::spec_exec_stack::<B>(*instr, *old(self), old(bus).model()),
    {
        match instr.instr_type {
            InstrType::PHA => { self.push_stack(self.reg_a, bus)?; },
            InstrType::PHP => {
                let mut p = self.reg_p;
                p.brk = true;
                p.one = true;
                self.push_stack(p.bits(), bus)?;
            },
            InstrType::PLA => {
                let v = self.pop_stack(bus)?;
                self.reg_a = v;
                self.set_zn(v);
            },
            _ => {
                let v = self.pop_stack(bus)?;
                self.pull_flags(v);
            },
        }
        self.advance_pc(instr);
        Ok(0)
    }

    // ----------------------------------------------------------- control flow

    /// The address JMP ($xxFF) reads its high byte from: the 6502 does not
    /// carry into the page, so it wraps within the page.
    pub open spec fn indirect_hi_addr(a: u16) -> u16 {
        (a / 256 * 256 + wrap8(a % 256 + 1)) as u16
    }

    pub open spec fn spec_exec_flow<B: CpuMemory>(instr: Instruction, cpu: CPU, m: B::Model) -> (CPU, B::Model, Result<u8, Fault>) {
        match instr.instr_type {
            InstrType::JMP => match instr.addr_mode {
                AddrMode::Absolute(a) => (CPU { reg_pc: a, ..cpu }, m, Ok(0u8)),
                AddrMode::Indirect(a) => bind(bus_read::<B>(m, cpu, a), |c1: CPU, m1: B::Model, lo: u8|
                    bind(bus_read::<B>(m1, c1, Self::indirect_hi_addr(a)), |c2: CPU, m2: B::Model, hi: u8|
                        (CPU { reg_pc: word(lo, hi), ..c2 }, m2, Ok(0u8)))),
                _ => (cpu, m, Err(Fault::Instruction(cpu.reg_pc))),
            },
            InstrType::JSR => match instr.addr_mode {
                AddrMode::Absolute(a) => {
                    let ret = wrap16(cpu.reg_pc + 2);
                    bind(Self::spec_push_stack::<B>(cpu, m, (ret / 256) as u8), |c1: CPU, m1: B::Model, u: ()|
                        bind(Self::spec_push_stack::<B>(c1, m1, (ret % 256) as u8), |c2: CPU, m2: B::Model, u2: ()|
                            (CPU { reg_pc: a, ..c2 }, m2, Ok(0u8))))
                },
                _ => (cpu, m, Err(Fault::Instruction(cpu.reg_pc))),
            },
            InstrType::RTS => bind(Self::spec_pop_stack::<B>(cpu, m), |c1: CPU, m1: B::Model, lo: u8|
                bind(Self::spec_pop_stack::<B>(c1, m1), |c2: CPU, m2: B::Model, hi: u8|
                    (CPU { reg_pc: wrap16(word(lo, hi) + 1), ..c2 }, m2, Ok(0u8)))),
            InstrType::RTI => bind(Self::spec_pop_stack::<B>(cpu, m), |c1: CPU, m1: B::Model, b: u8|
                bind(Self::spec_pop_stack::<B>(Self::after_pull_flags(c1, b), m1), |c2: CPU, m2: B::Model, lo: u8|
                    bind(Self::spec_pop_stack::<B>(c2, m2), |c3: CPU, m3: B::Model, hi: u8|
                        (CPU { reg_pc: word(lo, hi), ..c3 }, m3, Ok(0u8))))),
            // BRK
            _ => (CPU { interrupt: cpu.interrupt.spec_with(InterruptType::BRK, true), reg_pc: wrap16(cpu.reg_pc + 2), ..cpu }, m, Ok(0u8)),
        }
    }

    fn exec_flow<B: CpuMemory>(&mut self, instr: &Instruction, bus: &mut B) -> (r: Result<u8, Fault>)
        requires
            old(bus).inv(),
            matches!(instr.instr_type, InstrType::JMP | InstrType::JSR | InstrType::RTS | InstrType::RTI | InstrType::BRK),
        ensures
            final(bus).inv(),
            (*final(self), final(bus).model(), r) == Self::spec_exec_flow::<B>(*instr, *old(self), old(bus).model()),
    {
        match instr.instr_type {
            InstrType::JMP => match instr.addr_mode {
                AddrMode::Absolute(a) => {
                    self.reg_pc = a;
                    Ok(0)
                },
                AddrMode::Indirect(a) => {
                    let lo = bus.read(a, self)?;
                    let hi_addr: u16 = a / 256 * 256 + add8((a % 256) as u8, 1) as u16;
                    let hi = bus.read(hi_addr, self)?;
                    self.reg_pc = make_word(lo, hi);
                    Ok(0)
                },
                _ => Err(Fault::Instruction(self.reg_pc)),
            },
            InstrType::JSR => match instr.addr_mode {
                AddrMode::Absolute(a) => {
                    let ret = add16(self.reg_pc, 2);
                    self.push_stack((ret / 256) as u8, bus)?;
                    self.push_stack((ret % 256) as u8, bus)?;
                    self.reg_pc = a;
                    Ok(0)
                },
                _ => Err(Fault::Instruction(self.reg_pc)),
            },
            InstrType::RTS => {
                let lo = self.pop_stack(bus)?;
                let hi = self.pop_stack(bus)?;
                self.reg_pc = add16(make_word(lo, hi), 1);
                Ok(0)
            },
            InstrType::RTI => {
                let b = self.pop_stack(bus)?;
                self.pull_flags(b);
                let lo = self.pop_stack(bus)?;
                let hi = self.pop_stack(bus)?;
                self.reg_pc = make_word(lo, hi);
                Ok(0)
            },
            _ => {
                self.interrupt.set(InterruptType::BRK, true);
                self.reg_pc = add16(self.reg_pc, 2);
                Ok(0)
            },
        }
    }

    // ------------------------------------------------------------ dispatch

    /// What an instruction does, before the cycle and instruction counters
    /// are updated: the additional cycles it took, or the fault it hit.
    pub open spec fn spec_exec_body<B: CpuMemory>(instr: Instruction, cpu: CPU, m: B::Model) -> (CPU, B::Model, Result<u8, Fault>) {
        match instr.instr_type {
            InstrType::LDA | InstrType::LDX | InstrType::LDY | InstrType::LAX | InstrType::LAS =>
                Self::spec_exec_load::<B>(instr, cpu, m),
            InstrType::AND | InstrType::EOR | InstrType::ORA | InstrType::BIT | InstrType::ADC | InstrType::SBC
            | InstrType::USBC | InstrType::CMP | InstrType::CPX | InstrType::CPY | InstrType::SBX =>
                Self::spec_exec_alu::<B>(instr, cpu, m),
            InstrType::ASL | InstrType::LSR | InstrType::ROL | InstrType::ROR => Self::spec_exec_shift::<B>(instr, cpu, m),
            InstrType::INC | InstrType::DEC | InstrType::DCP | InstrType::ISC | InstrType::RLA | InstrType::RRA
            | InstrType::SLO | InstrType::SRE => Self::spec_exec_rmw::<B>(instr, cpu, m),
            InstrType::STA | InstrType::STX | InstrType::STY | InstrType::SAX => Self::spec_exec_store::<B>(instr, cpu, m),
            InstrType::BCC | InstrType::BCS | InstrType::BEQ | InstrType::BMI | InstrType::BNE | InstrType::BPL
            | InstrType::BVC | InstrType::BVS => Self::spec_exec_branch::<B>(instr, cpu, m),
            InstrType::NOP | InstrType::ALR | InstrType::ANC | InstrType::ARR => Self::spec_exec_misc::<B>(instr, cpu, m),
            InstrType::PHA | InstrType::PHP | InstrType::PLA | InstrType::PLP => Self::spec_exec_stack::<B>(instr, cpu, m),
            InstrType::JMP | InstrType::JSR | InstrType::RTS | InstrType::RTI | InstrType::BRK => Self::spec_exec_flow::<B>(instr, cpu, m),
            // ANE and LXA are too unstable to emulate, JAM halts the CPU.
            InstrType::ANE | InstrType::LXA | InstrType::JAM => (cpu, m, Err(Fault::Instruction(cpu.reg_pc))),
            _ => (advance(Self::spec_reg_only(instr.instr_type, cpu), instr.addr_mode.spec_size()), m, Ok(0u8)),
        }
    }

    /// Executing an instruction: its effect, then one more instruction and
    /// its base plus additional cycles counted. The additional cycles are
    /// returned.
    pub open spec fn spec_exec_instr<B: CpuMemory>(instr: Instruction, cpu: CPU, m: B::Model) -> (CPU, B::Model, Result<u32, Fault>) {
        bind(Self::spec_exec_body::<B>(instr, cpu, m), |c: CPU, m1: B::Model, add: u8|
            (CPU {
                inst: vstd::wrapping::u64_specs::wrapping_add(c.inst, 1),
                cycles: vstd::wrapping::u64_specs::wrapping_add(c.cycles, (instr.cycles + add) as u64),
                ..c
            }, m1, Ok(add as u32)))
    }

    pub fn exec_instr<B: CpuMemory>(&mut self, instr: &Instruction, bus: &mut B) -> (r: Result<u32, Fault>)
        requires
            old(bus).inv(),
        ensures
            final(bus).inv(),
            (*final(self), final(bus).model(), r) == Self::spec_exec_instr::<B>(*instr, *old(self), old(bus).model()),
    {
        let add = match instr.instr_type {
            InstrType::LDA | InstrType::LDX | InstrType::LDY | InstrType::LAX | InstrType::LAS =>
                self.exec_load(instr, bus)?,
            InstrType::AND | InstrType::EOR | InstrType::ORA | InstrType::BIT | InstrType::ADC | InstrType::SBC
            | InstrType::USBC | InstrType::CMP | InstrType::CPX | InstrType::CPY | InstrType::SBX =>
                self.exec_alu(instr, bus)?,
            InstrType::ASL | InstrType::LSR | InstrType::ROL | InstrType::ROR => self.exec_shift(instr, bus)?,
            InstrType::INC | InstrType::DEC | InstrType::DCP | InstrType::ISC | InstrType::RLA | InstrType::RRA
            | InstrType::SLO | InstrType::SRE => self.exec_rmw(instr, bus)?,
            InstrType::STA | InstrType::STX | InstrType::STY | InstrType::SAX => self.exec_store(instr, bus)?,
            InstrType::BCC | InstrType::BCS | InstrType::BEQ | InstrType::BMI | InstrType::BNE | InstrType::BPL
            | InstrType::BVC | InstrType::BVS => self.exec_branch(instr, bus)?,
            InstrType::NOP | InstrType::ALR | InstrType::ANC | InstrType::ARR => self.exec_misc(instr, bus)?,
            InstrType::PHA | InstrType::PHP | InstrType::PLA | InstrType::PLP => self.exec_stack(instr, bus)?,
            InstrType::JMP | InstrType::JSR | InstrType::RTS | InstrType::RTI | InstrType::BRK => self.exec_flow(instr, bus)?,
            InstrType::ANE | InstrType::LXA | InstrType::JAM => {
                return Err(Fault::Instruction(self.reg_pc));
            },
            _ => {
                self.exec_reg_only(instr.instr_type);
                self.advance_pc(instr);
                0
            },
        };
        self.inst = self.inst.wrapping_add(1);
        self.cycles = self.cycles.wrapping_add((instr.cycles as u16 + add as u16) as u64);
        Ok(add as u32)
    }
}

/// Resolving an operand reads the bus and may only change the CPU's
/// signals, never its registers.
proof fn lemma_resolve_keeps_registers<B: CpuMemory>(mode: AddrMode, cpu: CPU, m: B::Model)
    ensures
        ({
            let c = mode.spec_resolve::<B>(cpu, m).0;
            c.reg_a == cpu.reg_a && c.reg_x == cpu.reg_x && c.reg_y == cpu.reg_y && c.reg_p == cpu.reg_p
        }),
{
}

/// Comparing: CMP, CPX and CPY compare A, X and Y (as they were before the
/// instruction) with the operand `v` the addressing mode gives, setting
/// carry when the register is at least `v`, zero when they are equal and
/// negative when bit 7 of the register minus `v` (mod 256) is set; the
/// registers keep their values.
pub proof fn lemma_compare_flags<B: CpuMemory>(t: InstrType, mode: AddrMode, pc: u16, cycles: u8, cpu: CPU, m: B::Model)
    requires
        t == InstrType::CMP || t == InstrType::CPX || t == InstrType::CPY,
    ensures
        ({
            let instr = Instruction { pc, instr_type: t, addr_mode: mode, cycles };
            let rr = mode.spec_resolve::<B>(cpu, m).2;
            let (c, m1, r) = CPU::spec_exec_instr::<B>(instr, cpu, m);
            let reg = if t == InstrType::CMP { cpu.reg_a } else if t == InstrType::CPX { cpu.reg_x } else { cpu.reg_y };
            let v = rr->Ok_0.0;
            rr is Ok ==> {
                &&& r is Ok
                &&& c.reg_p.carry == (reg >= v)
                &&& c.reg_p.zero == (reg == v)
                &&& c.reg_p.neg == ((reg as int - v as int + 256) % 256 >= 128)
                &&& c.reg_a == cpu.reg_a
                &&& c.reg_x == cpu.reg_x
                &&& c.reg_y == cpu.reg_y
            }
        }),
{
    lemma_resolve_keeps_registers::<B>(mode, cpu, m);
}

} // verus!
