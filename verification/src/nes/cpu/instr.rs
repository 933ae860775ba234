//! 6502 instructions: their kinds, addressing modes and the opcode table.
//! Reference: https://www.masswerk.at/6502/6502_instruction_set.html

use vstd::prelude::*;

use crate::logger::spec_hex;
use crate::text::push_hex;

verus! {

/// The operation of an instruction, legal and illegal opcodes alike.
#[derive(Clone, Copy, PartialEq, Eq, Structural, Debug)]
pub enum InstrType {
    LDA,
    LDX,
    LDY,
    STA,
    STX,
    STY,
    TAX,
    TAY,
    TSX,
    TXA,
    TXS,
    TYA,
    PHA,
    PHP,
    PLA,
    PLP,
    DEC,
    DEX,
    DEY,
    INC,
    INX,
    INY,
    ADC,
    SBC,
    AND,
    EOR,
    ORA,
    ASL,
    LSR,
    ROL,
    ROR,
    CLC,
    CLD,
    CLI,
    CLV,
    SEC,
    SED,
    SEI,
    CMP,
    CPX,
    CPY,
    BCC,
    BCS,
    BEQ,
    BMI,
    BNE,
    BPL,
    BVC,
    BVS,
    JMP,
    JSR,
    RTS,
    BRK,
    RTI,
    BIT,
    NOP,
    ALR,
    ANC,
    ANE,
    ARR,
    DCP,
    ISC,
    LAS,
    LAX,
    LXA,
    RLA,
    RRA,
    SAX,
    SBX,
    SHA,
    SHX,
    SHY,
    SLO,
    SRE,
    TAS,
    USBC,
    JAM,
}

/// The addressing mode of an instruction with the operand bytes that follow
/// the opcode.
#[derive(Clone, Copy, PartialEq, Eq, Structural, Debug)]
pub enum AddrMode {
    Implied,
    Immediate(u8),
    Absolute(u16),
    ZeroPage(u8),
    AbsoluteX(u16),
    AbsoluteY(u16),
    ZeroPageX(u8),
    ZeroPageY(u8),
    Indirect(u16),
    IndirectX(u8),
    IndirectY(u8),
    Relative(i8),
}

/// An addressing mode without its operand.
#[derive(Clone, Copy, PartialEq, Eq, Structural, Debug)]
pub enum ModeKind {
    Implied,
    Immediate,
    Absolute,
    ZeroPage,
    AbsoluteX,
    AbsoluteY,
    ZeroPageX,
    ZeroPageY,
    Indirect,
    IndirectX,
    IndirectY,
    Relative,
}

/// What the opcode byte alone determines: operation, mode and base cycles.
#[derive(Clone, Copy, PartialEq, Eq, Structural, Debug)]
pub struct OpcodeInfo {
    pub instr_type: InstrType,
    pub mode: ModeKind,
    pub cycles: u8,
}

/// A decoded instruction with the address it was fetched from.
#[derive(Clone, Copy, PartialEq, Eq, Structural, Debug)]
pub struct Instruction {
    pub pc: u16,
    pub instr_type: InstrType,
    pub addr_mode: AddrMode,
    pub cycles: u8,
}

/// The opcode table of the 2A03, all 256 opcodes.
pub open spec fn spec_opcode(op: u8) -> OpcodeInfo {
    match op {
        0x00 => OpcodeInfo { instr_type: InstrType::BRK, mode: ModeKind::Implied, cycles: 7 },
        0x01 => OpcodeInfo { instr_type: InstrType::ORA, mode: ModeKind::IndirectX, cycles: 6 },
        0x02 => OpcodeInfo { instr_type: InstrType::JAM, mode: ModeKind::Implied, cycles: 0 },
        0x03 => OpcodeInfo { instr_type: InstrType::SLO, mode: ModeKind::IndirectX, cycles: 8 },
        0x04 => OpcodeInfo { instr_type: InstrType::NOP, mode: ModeKind::ZeroPage, cycles: 3 },
        0x05 => OpcodeInfo { instr_type: InstrType::ORA, mode: ModeKind::ZeroPage, cycles: 3 },
        0x06 => OpcodeInfo { instr_type: InstrType::ASL, mode: ModeKind::ZeroPage, cycles: 5 },
        0x07 => OpcodeInfo { instr_type: InstrType::SLO, mode: ModeKind::ZeroPage, cycles: 5 },
        0x08 => OpcodeInfo { instr_type: InstrType::PHP, mode: ModeKind::Implied, cycles: 3 },
        0x09 => OpcodeInfo { instr_type: InstrType::ORA, mode: ModeKind::Immediate, cycles: 2 },
        0x0A => OpcodeInfo { instr_type: InstrType::ASL, mode: ModeKind::Implied, cycles: 2 },
        0x0B => OpcodeInfo { instr_type: InstrType::ANC, mode: ModeKind::Immediate, cycles: 2 },
        0x0C => OpcodeInfo { instr_type: InstrType::NOP, mode: ModeKind::Absolute, cycles: 4 },
        0x0D => OpcodeInfo { instr_type: InstrType::ORA, mode: ModeKind::Absolute, cycles: 4 },
        0x0E => OpcodeInfo { instr_type: InstrType::ASL, mode: ModeKind::Absolute, cycles: 6 },
        0x0F => OpcodeInfo { instr_type: InstrType::SLO, mode: ModeKind::Absolute, cycles: 6 },
        0x10 => OpcodeInfo { instr_type: InstrType::BPL, mode: ModeKind::Relative, cycles: 2 },
        0x11 => OpcodeInfo { instr_type: InstrType::ORA, mode: ModeKind::IndirectY, cycles: 5 },
        0x12 => OpcodeInfo { instr_type: InstrType::JAM, mode: ModeKind::Implied, cycles: 0 },
        0x13 => OpcodeInfo { instr_type: InstrType::SLO, mode: ModeKind::IndirectY, cycles: 8 },
        0x14 => OpcodeInfo { instr_type: InstrType::NOP, mode: ModeKind::ZeroPageX, cycles: 4 },
        0x15 => OpcodeInfo { instr_type: InstrType::ORA, mode: ModeKind::ZeroPageX, cycles: 4 },
        0x16 => OpcodeInfo { instr_type: InstrType::ASL, mode: ModeKind::ZeroPageX, cycles: 6 },
        0x17 => OpcodeInfo { instr_type: InstrType::SLO, mode: ModeKind::ZeroPageX, cycles: 6 },
        0x18 => OpcodeInfo { instr_type: InstrType::CLC, mode: ModeKind::Implied, cycles: 2 },
        0x19 => OpcodeInfo { instr_type: InstrType::ORA, mode: ModeKind::AbsoluteY, cycles: 4 },
        0x1A => OpcodeInfo { instr_type: InstrType::NOP, mode: ModeKind::Implied, cycles: 2 },
        0x1B => OpcodeInfo { instr_type: InstrType::SLO, mode: ModeKind::AbsoluteY, cycles: 7 },
        0x1C => OpcodeInfo { instr_type: InstrType::NOP, mode: ModeKind::AbsoluteX, cycles: 4 },
        0x1D => OpcodeInfo { instr_type: InstrType::ORA, mode: ModeKind::AbsoluteX, cycles: 4 },
        0x1E => OpcodeInfo { instr_type: InstrType::ASL, mode: ModeKind::AbsoluteX, cycles: 6 },
        0x1F => OpcodeInfo { instr_type: InstrType::SLO, mode: ModeKind::AbsoluteX, cycles: 7 },
        0x20 => OpcodeInfo { instr_type: InstrType::JSR, mode: ModeKind::Absolute, cycles: 6 },
        0x21 => OpcodeInfo { instr_type: InstrType::AND, mode: ModeKind::IndirectX, cycles: 6 },
        0x22 => OpcodeInfo { instr_type: InstrType::JAM, mode: ModeKind::Implied, cycles: 0 },
        0x23 => OpcodeInfo { instr_type: InstrType::RLA, mode: ModeKind::IndirectX, cycles: 8 },
        0x24 => OpcodeInfo { instr_type: InstrType::BIT, mode: ModeKind::ZeroPage, cycles: 3 },
        0x25 => OpcodeInfo { instr_type: InstrType::AND, mode: ModeKind::ZeroPage, cycles: 3 },
        0x26 => OpcodeInfo { instr_type: InstrType::ROL, mode: ModeKind::ZeroPage, cycles: 5 },
        0x27 => OpcodeInfo { instr_type: InstrType::RLA, mode: ModeKind::ZeroPage, cycles: 5 },
        0x28 => OpcodeInfo { instr_type: InstrType::PLP, mode: ModeKind::Implied, cycles: 4 },
        0x29 => OpcodeInfo { instr_type: InstrType::AND, mode: ModeKind::Immediate, cycles: 2 },
        0x2A => OpcodeInfo { instr_type: InstrType::ROL, mode: ModeKind::Implied, cycles: 2 },
        0x2B => OpcodeInfo { instr_type: InstrType::ANC, mode: ModeKind::Immediate, cycles: 2 },
        0x2C => OpcodeInfo { instr_type: InstrType::BIT, mode: ModeKind::Absolute, cycles: 4 },
        0x2D => OpcodeInfo { instr_type: InstrType::AND, mode: ModeKind::Absolute, cycles: 4 },
        0x2E => OpcodeInfo { instr_type: InstrType::ROL, mode: ModeKind::Absolute, cycles: 6 },
        0x2F => OpcodeInfo { instr_type: InstrType::RLA, mode: ModeKind::Absolute, cycles: 6 },
        0x30 => OpcodeInfo { instr_type: InstrType::BMI, mode: ModeKind::Relative, cycles: 2 },
        0x31 => OpcodeInfo { instr_type: InstrType::AND, mode: ModeKind::IndirectY, cycles: 5 },
        0x32 => OpcodeInfo { instr_type: InstrType::JAM, mode: ModeKind::Implied, cycles: 0 },
        0x33 => OpcodeInfo { instr_type: InstrType::RLA, mode: ModeKind::IndirectY, cycles: 8 },
        0x34 => OpcodeInfo { instr_type: InstrType::NOP, mode: ModeKind::ZeroPageX, cycles: 4 },
        0x35 => OpcodeInfo { instr_type: InstrType::AND, mode: ModeKind::ZeroPageX, cycles: 4 },
        0x36 => OpcodeInfo { instr_type: InstrType::ROL, mode: ModeKind::ZeroPageX, cycles: 6 },
        0x37 => OpcodeInfo { instr_type: InstrType::RLA, mode: ModeKind::ZeroPageX, cycles: 6 },
        0x38 => OpcodeInfo { instr_type: InstrType::SEC, mode: ModeKind::Implied, cycles: 2 },
        0x39 => OpcodeInfo { instr_type: InstrType::AND, mode: ModeKind::AbsoluteY, cycles: 4 },
        0x3A => OpcodeInfo { instr_type: InstrType::NOP, mode: ModeKind::Implied, cycles: 2 },
        0x3B => OpcodeInfo { instr_type: InstrType::RLA, mode: ModeKind::AbsoluteY, cycles: 7 },
        0x3C => OpcodeInfo { instr_type: InstrType::NOP, mode: ModeKind::AbsoluteX, cycles: 4 },
        0x3D => OpcodeInfo { instr_type: InstrType::AND, mode: ModeKind::AbsoluteX, cycles: 4 },
        0x3E => OpcodeInfo { instr_type: InstrType::ROL, mode: ModeKind::AbsoluteX, cycles: 6 },
        0x3F => OpcodeInfo { instr_type: InstrType::RLA, mode: ModeKind::AbsoluteX, cycles: 7 },
        0x40 => OpcodeInfo { instr_type: InstrType::RTI, mode: ModeKind::Implied, cycles: 6 },
        0x41 => OpcodeInfo { instr_type: InstrType::EOR, mode: ModeKind::IndirectX, cycles: 6 },
        0x42 => OpcodeInfo { instr_type: InstrType::JAM, mode: ModeKind::Implied, cycles: 0 },
        0x43 => OpcodeInfo { instr_type: InstrType::SRE, mode: ModeKind::IndirectX, cycles: 8 },
        0x44 => OpcodeInfo { instr_type: InstrType::NOP, mode: ModeKind::ZeroPage, cycles: 3 },
        0x45 => OpcodeInfo { instr_type: InstrType::EOR, mode: ModeKind::ZeroPage, cycles: 3 },
        0x46 => OpcodeInfo { instr_type: InstrType::LSR, mode: ModeKind::ZeroPage, cycles: 5 },
        0x47 => OpcodeInfo { instr_type: InstrType::SRE, mode: ModeKind::ZeroPage, cycles: 5 },
        0x48 => OpcodeInfo { instr_type: InstrType::PHA, mode: ModeKind::Implied, cycles: 3 },
        0x49 => OpcodeInfo { instr_type: InstrType::EOR, mode: ModeKind::Immediate, cycles: 2 },
        0x4A => OpcodeInfo { instr_type: InstrType::LSR, mode: ModeKind::Implied, cycles: 2 },
        0x4B => OpcodeInfo { instr_type: InstrType::ALR, mode: ModeKind::Immediate, cycles: 2 },
        0x4C => OpcodeInfo { instr_type: InstrType::JMP, mode: ModeKind::Absolute, cycles: 3 },
        0x4D => OpcodeInfo { instr_type: InstrType::EOR, mode: ModeKind::Absolute, cycles: 4 },
        0x4E => OpcodeInfo { instr_type: InstrType::LSR, mode: ModeKind::Absolute, cycles: 6 },
        0x4F => OpcodeInfo { instr_type: InstrType::SRE, mode: ModeKind::Absolute, cycles: 6 },
        0x50 => OpcodeInfo { instr_type: InstrType::BVC, mode: ModeKind::Relative, cycles: 2 },
        0x51 => OpcodeInfo { instr_type: InstrType::EOR, mode: ModeKind::IndirectY, cycles: 5 },
        0x52 => OpcodeInfo { instr_type: InstrType::JAM, mode: ModeKind::Implied, cycles: 0 },
        0x53 => OpcodeInfo { instr_type: InstrType::SRE, mode: ModeKind::IndirectY, cycles: 8 },
        0x54 => OpcodeInfo { instr_type: InstrType::NOP, mode: ModeKind::ZeroPageX, cycles: 4 },
        0x55 => OpcodeInfo { instr_type: InstrType::EOR, mode: ModeKind::ZeroPageX, cycles: 4 },
        0x56 => OpcodeInfo { instr_type: InstrType::LSR, mode: ModeKind::ZeroPageX, cycles: 6 },
        0x57 => OpcodeInfo { instr_type: InstrType::SRE, mode: ModeKind::ZeroPageX, cycles: 6 },
        0x58 => OpcodeInfo { instr_type: InstrType::CLI, mode: ModeKind::Implied, cycles: 2 },
        0x59 => OpcodeInfo { instr_type: InstrType::EOR, mode: ModeKind::AbsoluteY, cycles: 4 },
        0x5A => OpcodeInfo { instr_type: InstrType::NOP, mode: ModeKind::Implied, cycles: 2 },
        0x5B => OpcodeInfo { instr_type: InstrType::SRE, mode: ModeKind::AbsoluteY, cycles: 7 },
        0x5C => OpcodeInfo { instr_type: InstrType::NOP, mode: ModeKind::AbsoluteX, cycles: 4 },
        0x5D => OpcodeInfo { instr_type: InstrType::EOR, mode: ModeKind::AbsoluteX, cycles: 4 },
        0x5E => OpcodeInfo { instr_type: InstrType::LSR, mode: ModeKind::AbsoluteX, cycles: 6 },
        0x5F => OpcodeInfo { instr_type: InstrType::SRE, mode: ModeKind::AbsoluteX, cycles: 7 },
        0x60 => OpcodeInfo { instr_type: InstrType::RTS, mode: ModeKind::Implied, cycles: 6 },
        0x61 => OpcodeInfo { instr_type: InstrType::ADC, mode: ModeKind::IndirectX, cycles: 6 },
        0x62 => OpcodeInfo { instr_type: InstrType::JAM, mode: ModeKind::Implied, cycles: 0 },
        0x63 => OpcodeInfo { instr_type: InstrType::RRA, mode: ModeKind::IndirectX, cycles: 8 },
        0x64 => OpcodeInfo { instr_type: InstrType::NOP, mode: ModeKind::ZeroPage, cycles: 3 },
        0x65 => OpcodeInfo { instr_type: InstrType::ADC, mode: ModeKind::ZeroPage, cycles: 3 },
        0x66 => OpcodeInfo { instr_type: InstrType::ROR, mode: ModeKind::ZeroPage, cycles: 5 },
        0x67 => OpcodeInfo { instr_type: InstrType::RRA, mode: ModeKind::ZeroPage, cycles: 5 },
        0x68 => OpcodeInfo { instr_type: InstrType::PLA, mode: ModeKind::Implied, cycles: 4 },
        0x69 => OpcodeInfo { instr_type: InstrType::ADC, mode: ModeKind::Immediate, cycles: 2 },
        0x6A => OpcodeInfo { instr_type: InstrType::ROR, mode: ModeKind::Implied, cycles: 2 },
        0x6B => OpcodeInfo { instr_type: InstrType::ARR, mode: ModeKind::Immediate, cycles: 2 },
        0x6C => OpcodeInfo { instr_type: InstrType::JMP, mode: ModeKind::Indirect, cycles: 5 },
        0x6D => OpcodeInfo { instr_type: InstrType::ADC, mode: ModeKind::Absolute, cycles: 4 },
        0x6E => OpcodeInfo { instr_type: InstrType::ROR, mode: ModeKind::Absolute, cycles: 6 },
        0x6F => OpcodeInfo { instr_type: InstrType::RRA, mode: ModeKind::Absolute, cycles: 6 },
        0x70 => OpcodeInfo { instr_type: InstrType::BVS, mode: ModeKind::Relative, cycles: 2 },
        0x71 => OpcodeInfo { instr_type: InstrType::ADC, mode: ModeKind::IndirectY, cycles: 5 },
        0x72 => OpcodeInfo { instr_type: InstrType::JAM, mode: ModeKind::Implied, cycles: 0 },
        0x73 => OpcodeInfo { instr_type: InstrType::RRA, mode: ModeKind::IndirectY, cycles: 8 },
        0x74 => OpcodeInfo { instr_type: InstrType::NOP, mode: ModeKind::ZeroPageX, cycles: 4 },
        0x75 => OpcodeInfo { instr_type: InstrType::ADC, mode: ModeKind::ZeroPageX, cycles: 4 },
        0x76 => OpcodeInfo { instr_type: InstrType::ROR, mode: ModeKind::ZeroPageX, cycles: 6 },
        0x77 => OpcodeInfo { instr_type: InstrType::RRA, mode: ModeKind::ZeroPageX, cycles: 6 },
        0x78 => OpcodeInfo { instr_type: InstrType::SEI, mode: ModeKind::Implied, cycles: 2 },
        0x79 => OpcodeInfo { instr_type: InstrType::ADC, mode: ModeKind::AbsoluteY, cycles: 4 },
        0x7A => OpcodeInfo { instr_type: InstrType::NOP, mode: ModeKind::Implied, cycles: 2 },
        0x7B => OpcodeInfo { instr_type: InstrType::RRA, mode: ModeKind::AbsoluteY, cycles: 7 },
        0x7C => OpcodeInfo { instr_type: InstrType::NOP, mode: ModeKind::AbsoluteX, cycles: 4 },
        0x7D => OpcodeInfo { instr_type: InstrType::ADC, mode: ModeKind::AbsoluteX, cycles: 4 },
        0x7E => OpcodeInfo { instr_type: InstrType::ROR, mode: ModeKind::AbsoluteX, cycles: 6 },
        0x7F => OpcodeInfo { instr_type: InstrType::RRA, mode: ModeKind::AbsoluteX, cycles: 7 },
        0x80 => OpcodeInfo { instr_type: InstrType::NOP, mode: ModeKind::Immediate, cycles: 2 },
        0x81 => OpcodeInfo { instr_type: InstrType::STA, mode: ModeKind::IndirectX, cycles: 6 },
        0x82 => OpcodeInfo { instr_type: InstrType::NOP, mode: ModeKind::Immediate, cycles: 2 },
        0x83 => OpcodeInfo { instr_type: InstrType::SAX, mode: ModeKind::IndirectX, cycles: 6 },
        0x84 => OpcodeInfo { instr_type: InstrType::STY, mode: ModeKind::ZeroPage, cycles: 3 },
        0x85 => OpcodeInfo { instr_type: InstrType::STA, mode: ModeKind::ZeroPage, cycles: 3 },
        0x86 => OpcodeInfo { instr_type: InstrType::STX, mode: ModeKind::ZeroPage, cycles: 3 },
        0x87 => OpcodeInfo { instr_type: InstrType::SAX, mode: ModeKind::ZeroPage, cycles: 3 },
        0x88 => OpcodeInfo { instr_type: InstrType::DEY, mode: ModeKind::Implied, cycles: 2 },
        0x89 => OpcodeInfo { instr_type: InstrType::NOP, mode: ModeKind::Immediate, cycles: 2 },
        0x8A => OpcodeInfo { instr_type: InstrType::TXA, mode: ModeKind::Implied, cycles: 2 },
        0x8B => OpcodeInfo { instr_type: InstrType::ANE, mode: ModeKind::Immediate, cycles: 2 },
        0x8C => OpcodeInfo { instr_type: InstrType::STY, mode: ModeKind::Absolute, cycles: 4 },
        0x8D => OpcodeInfo { instr_type: InstrType::STA, mode: ModeKind::Absolute, cycles: 4 },
        0x8E => OpcodeInfo { instr_type: InstrType::STX, mode: ModeKind::Absolute, cycles: 4 },
        0x8F => OpcodeInfo { instr_type: InstrType::SAX, mode: ModeKind::Absolute, cycles: 4 },
        0x90 => OpcodeInfo { instr_type: InstrType::BCC, mode: ModeKind::Relative, cycles: 2 },
        0x91 => OpcodeInfo { instr_type: InstrType::STA, mode: ModeKind::IndirectY, cycles: 5 },
        0x92 => OpcodeInfo { instr_type: InstrType::JAM, mode: ModeKind::Implied, cycles: 0 },
        0x93 => OpcodeInfo { instr_type: InstrType::SHA, mode: ModeKind::IndirectY, cycles: 6 },
        0x94 => OpcodeInfo { instr_type: InstrType::STY, mode: ModeKind::ZeroPageX, cycles: 4 },
        0x95 => OpcodeInfo { instr_type: InstrType::STA, mode: ModeKind::ZeroPageX, cycles: 4 },
        0x96 => OpcodeInfo { instr_type: InstrType::STX, mode: ModeKind::ZeroPageY, cycles: 4 },
        0x97 => OpcodeInfo { instr_type: InstrType::SAX, mode: ModeKind::ZeroPageY, cycles: 4 },
        0x98 => OpcodeInfo { instr_type: InstrType::TYA, mode: ModeKind::Implied, cycles: 2 },
        0x99 => OpcodeInfo { instr_type: InstrType::STA, mode: ModeKind::AbsoluteY, cycles: 4 },
        0x9A => OpcodeInfo { instr_type: InstrType::TXS, mode: ModeKind::Implied, cycles: 2 },
        0x9B => OpcodeInfo { instr_type: InstrType::TAS, mode: ModeKind::AbsoluteY, cycles: 5 },
        0x9C => OpcodeInfo { instr_type: InstrType::SHY, mode: ModeKind::AbsoluteX, cycles: 5 },
        0x9D => OpcodeInfo { instr_type: InstrType::STA, mode: ModeKind::AbsoluteX, cycles: 5 },
        0x9E => OpcodeInfo { instr_type: InstrType::SHX, mode: ModeKind::AbsoluteY, cycles: 5 },
        0x9F => OpcodeInfo { instr_type: InstrType::SHA, mode: ModeKind::AbsoluteY, cycles: 5 },
        0xA0 => OpcodeInfo { instr_type: InstrType::LDY, mode: ModeKind::Immediate, cycles: 2 },
        0xA1 => OpcodeInfo { instr_type: InstrType::LDA, mode: ModeKind::IndirectX, cycles: 6 },
        0xA2 => OpcodeInfo { instr_type: InstrType::LDX, mode: ModeKind::Immediate, cycles: 2 },
        0xA3 => OpcodeInfo { instr_type: InstrType::LAX, mode: ModeKind::IndirectX, cycles: 6 },
        0xA4 => OpcodeInfo { instr_type: InstrType::LDY, mode: ModeKind::ZeroPage, cycles: 3 },
        0xA5 => OpcodeInfo { instr_type: InstrType::LDA, mode: ModeKind::ZeroPage, cycles: 3 },
        0xA6 => OpcodeInfo { instr_type: InstrType::LDX, mode: ModeKind::ZeroPage, cycles: 3 },
        0xA7 => OpcodeInfo { instr_type: InstrType::LAX, mode: ModeKind::ZeroPage, cycles: 3 },
        0xA8 => OpcodeInfo { instr_type: InstrType::TAY, mode: ModeKind::Implied, cycles: 2 },
        0xA9 => OpcodeInfo { instr_type: InstrType::LDA, mode: ModeKind::Immediate, cycles: 2 },
        0xAA => OpcodeInfo { instr_type: InstrType::TAX, mode: ModeKind::Implied, cycles: 2 },
        0xAB => OpcodeInfo { instr_type: InstrType::LXA, mode: ModeKind::Immediate, cycles: 2 },
        0xAC => OpcodeInfo { instr_type: InstrType::LDY, mode: ModeKind::Absolute, cycles: 4 },
        0xAD => OpcodeInfo { instr_type: InstrType::LDA, mode: ModeKind::Absolute, cycles: 4 },
        0xAE => OpcodeInfo { instr_type: InstrType::LDX, mode: ModeKind::Absolute, cycles: 4 },
        0xAF => OpcodeInfo { instr_type: InstrType::LAX, mode: ModeKind::Absolute, cycles: 4 },
        0xB0 => OpcodeInfo { instr_type: InstrType::BCS, mode: ModeKind::Relative, cycles: 2 },
        0xB1 => OpcodeInfo { instr_type: InstrType::LDA, mode: ModeKind::IndirectY, cycles: 5 },
        0xB2 => OpcodeInfo { instr_type: InstrType::JAM, mode: ModeKind::Implied, cycles: 0 },
        0xB3 => OpcodeInfo { instr_type: InstrType::LAX, mode: ModeKind::IndirectY, cycles: 5 },
        0xB4 => OpcodeInfo { instr_type: InstrType::LDY, mode: ModeKind::ZeroPageX, cycles: 3 },
        0xB5 => OpcodeInfo { instr_type: InstrType::LDA, mode: ModeKind::ZeroPageX, cycles: 3 },
        0xB6 => OpcodeInfo { instr_type: InstrType::LDX, mode: ModeKind::ZeroPageY, cycles: 3 },
        0xB7 => OpcodeInfo { instr_type: InstrType::LAX, mode: ModeKind::ZeroPageY, cycles: 4 },
        0xB8 => OpcodeInfo { instr_type: InstrType::CLV, mode: ModeKind::Implied, cycles: 2 },
        0xB9 => OpcodeInfo { instr_type: InstrType::LDA, mode: ModeKind::AbsoluteY, cycles: 4 },
        0xBA => OpcodeInfo { instr_type: InstrType::TSX, mode: ModeKind::Implied, cycles: 2 },
        0xBC => OpcodeInfo { instr_type: InstrType::LDY, mode: ModeKind::AbsoluteX, cycles: 4 },
        0xBB => OpcodeInfo { instr_type: InstrType::LAS, mode: ModeKind::AbsoluteY, cycles: 4 },
        0xBD => OpcodeInfo { instr_type: InstrType::LDA, mode: ModeKind::AbsoluteX, cycles: 4 },
        0xBE => OpcodeInfo { instr_type: InstrType::LDX, mode: ModeKind::AbsoluteY, cycles: 4 },
        0xBF => OpcodeInfo { instr_type: InstrType::LAX, mode: ModeKind::AbsoluteY, cycles: 4 },
        0xC0 => OpcodeInfo { instr_type: InstrType::CPY, mode: ModeKind::Immediate, cycles: 2 },
        0xC1 => OpcodeInfo { instr_type: InstrType::CMP, mode: ModeKind::IndirectX, cycles: 6 },
        0xC2 => OpcodeInfo { instr_type: InstrType::NOP, mode: ModeKind::Immediate, cycles: 2 },
        0xC3 => OpcodeInfo { instr_type: InstrType::DCP, mode: ModeKind::IndirectX, cycles: 8 },
        0xC4 => OpcodeInfo { instr_type: InstrType::CPY, mode: ModeKind::ZeroPage, cycles: 3 },
        0xC5 => OpcodeInfo { instr_type: InstrType::CMP, mode: ModeKind::ZeroPage, cycles: 3 },
        0xC6 => OpcodeInfo { instr_type: InstrType::DEC, mode: ModeKind::ZeroPage, cycles: 5 },
        0xC7 => OpcodeInfo { instr_type: InstrType::DCP, mode: ModeKind::ZeroPage, cycles: 5 },
        0xC8 => OpcodeInfo { instr_type: InstrType::INY, mode: ModeKind::Implied, cycles: 2 },
        0xC9 => OpcodeInfo { instr_type: InstrType::CMP, mode: ModeKind::Immediate, cycles: 2 },
        0xCA => OpcodeInfo { instr_type: InstrType::DEX, mode: ModeKind::Implied, cycles: 2 },
        0xCB => OpcodeInfo { instr_type: InstrType::SBX, mode: ModeKind::Immediate, cycles: 2 },
        0xCC => OpcodeInfo { instr_type: InstrType::CPY, mode: ModeKind::Absolute, cycles: 4 },
        0xCD => OpcodeInfo { instr_type: InstrType::CMP, mode: ModeKind::Absolute, cycles: 4 },
        0xCE => OpcodeInfo { instr_type: InstrType::DEC, mode: ModeKind::Absolute, cycles: 6 },
        0xCF => OpcodeInfo { instr_type: InstrType::DCP, mode: ModeKind::Absolute, cycles: 6 },
        0xD0 => OpcodeInfo { instr_type: InstrType::BNE, mode: ModeKind::Relative, cycles: 2 },
        0xD1 => OpcodeInfo { instr_type: InstrType::CMP, mode: ModeKind::IndirectY, cycles: 5 },
        0xD2 => OpcodeInfo { instr_type: InstrType::JAM, mode: ModeKind::Implied, cycles: 0 },
        0xD3 => OpcodeInfo { instr_type: InstrType::DCP, mode: ModeKind::IndirectY, cycles: 8 },
        0xD4 => OpcodeInfo { instr_type: InstrType::NOP, mode: ModeKind::ZeroPageX, cycles: 4 },
        0xD5 => OpcodeInfo { instr_type: InstrType::CMP, mode: ModeKind::ZeroPageX, cycles: 4 },
        0xD6 => OpcodeInfo { instr_type: InstrType::DEC, mode: ModeKind::ZeroPageX, cycles: 6 },
        0xD7 => OpcodeInfo { instr_type: InstrType::DCP, mode: ModeKind::ZeroPageX, cycles: 6 },
        0xD8 => OpcodeInfo { instr_type: InstrType::CLD, mode: ModeKind::Implied, cycles: 2 },
        0xD9 => OpcodeInfo { instr_type: InstrType::CMP, mode: ModeKind::AbsoluteY, cycles: 4 },
        0xDA => OpcodeInfo { instr_type: InstrType::NOP, mode: ModeKind::Implied, cycles: 2 },
        0xDB => OpcodeInfo { instr_type: InstrType::DCP, mode: ModeKind::AbsoluteY, cycles: 7 },
        0xDC => OpcodeInfo { instr_type: InstrType::NOP, mode: ModeKind::AbsoluteX, cycles: 4 },
        0xDD => OpcodeInfo { instr_type: InstrType::CMP, mode: ModeKind::AbsoluteX, cycles: 4 },
        0xDE => OpcodeInfo { instr_type: InstrType::DEC, mode: ModeKind::AbsoluteX, cycles: 6 },
        0xDF => OpcodeInfo { instr_type: InstrType::DCP, mode: ModeKind::AbsoluteX, cycles: 7 },
        0xE0 => OpcodeInfo { instr_type: InstrType::CPX, mode: ModeKind::Immediate, cycles: 2 },
        0xE1 => OpcodeInfo { instr_type: InstrType::SBC, mode: ModeKind::IndirectX, cycles: 6 },
        0xE2 => OpcodeInfo { instr_type: InstrType::NOP, mode: ModeKind::Immediate, cycles: 2 },
        0xE3 => OpcodeInfo { instr_type: InstrType::ISC, mode: ModeKind::IndirectX, cycles: 8 },
        0xE4 => OpcodeInfo { instr_type: InstrType::CPX, mode: ModeKind::ZeroPage, cycles: 3 },
        0xE5 => OpcodeInfo { instr_type: InstrType::SBC, mode: ModeKind::ZeroPage, cycles: 3 },
        0xE6 => OpcodeInfo { instr_type: InstrType::INC, mode: ModeKind::ZeroPage, cycles: 5 },
        0xE7 => OpcodeInfo { instr_type: InstrType::ISC, mode: ModeKind::ZeroPage, cycles: 5 },
        0xE8 => OpcodeInfo { instr_type: InstrType::INX, mode: ModeKind::Implied, cycles: 2 },
        0xE9 => OpcodeInfo { instr_type: InstrType::SBC, mode: ModeKind::Immediate, cycles: 2 },
        0xEA => OpcodeInfo { instr_type: InstrType::NOP, mode: ModeKind::Implied, cycles: 2 },
        0xEB => OpcodeInfo { instr_type: InstrType::USBC, mode: ModeKind::Immediate, cycles: 2 },
        0xEC => OpcodeInfo { instr_type: InstrType::CPX, mode: ModeKind::Absolute, cycles: 4 },
        0xED => OpcodeInfo { instr_type: InstrType::SBC, mode: ModeKind::Absolute, cycles: 4 },
        0xEE => OpcodeInfo { instr_type: InstrType::INC, mode: ModeKind::Absolute, cycles: 6 },
        0xEF => OpcodeInfo { instr_type: InstrType::ISC, mode: ModeKind::Absolute, cycles: 6 },
        0xF0 => OpcodeInfo { instr_type: InstrType::BEQ, mode: ModeKind::Relative, cycles: 2 },
        0xF1 => OpcodeInfo { instr_type: InstrType::SBC, mode: ModeKind::IndirectY, cycles: 5 },
        0xF2 => OpcodeInfo { instr_type: InstrType::JAM, mode: ModeKind::Implied, cycles: 0 },
        0xF3 => OpcodeInfo { instr_type: InstrType::ISC, mode: ModeKind::IndirectY, cycles: 8 },
        0xF4 => OpcodeInfo { instr_type: InstrType::NOP, mode: ModeKind::ZeroPageX, cycles: 4 },
        0xF5 => OpcodeInfo { instr_type: InstrType::SBC, mode: ModeKind::ZeroPageX, cycles: 4 },
        0xF6 => OpcodeInfo { instr_type: InstrType::INC, mode: ModeKind::ZeroPageX, cycles: 6 },
        0xF7 => OpcodeInfo { instr_type: InstrType::ISC, mode: ModeKind::ZeroPageX, cycles: 6 },
        0xF8 => OpcodeInfo { instr_type: InstrType::SED, mode: ModeKind::Implied, cycles: 2 },
        0xF9 => OpcodeInfo { instr_type: InstrType::SBC, mode: ModeKind::AbsoluteY, cycles: 4 },
        0xFA => OpcodeInfo { instr_type: InstrType::NOP, mode: ModeKind::Implied, cycles: 2 },
        0xFB => OpcodeInfo { instr_type: InstrType::ISC, mode: ModeKind::AbsoluteY, cycles: 7 },
        0xFC => OpcodeInfo { instr_type: InstrType::NOP, mode: ModeKind::AbsoluteX, cycles: 4 },
        0xFD => OpcodeInfo { instr_type: InstrType::SBC, mode: ModeKind::AbsoluteX, cycles: 4 },
        0xFE => OpcodeInfo { instr_type: InstrType::INC, mode: ModeKind::AbsoluteX, cycles: 6 },
        0xFF => OpcodeInfo { instr_type: InstrType::ISC, mode: ModeKind::AbsoluteX, cycles: 7 },
    }
}

/// Looks an opcode up in the opcode table.
pub fn opcode_info(op: u8) -> (r: OpcodeInfo)
    ensures
        r == spec_opcode(op),
{
    match op {
        0x00 => OpcodeInfo { instr_type: InstrType::BRK, mode: ModeKind::Implied, cycles: 7 },
        0x01 => OpcodeInfo { instr_type: InstrType::ORA, mode: ModeKind::IndirectX, cycles: 6 },
        0x02 => OpcodeInfo { instr_type: InstrType::JAM, mode: ModeKind::Implied, cycles: 0 },
        0x03 => OpcodeInfo { instr_type: InstrType::SLO, mode: ModeKind::IndirectX, cycles: 8 },
        0x04 => OpcodeInfo { instr_type: InstrType::NOP, mode: ModeKind::ZeroPage, cycles: 3 },
        0x05 => OpcodeInfo { instr_type: InstrType::ORA, mode: ModeKind::ZeroPage, cycles: 3 },
        0x06 => OpcodeInfo { instr_type: InstrType::ASL, mode: ModeKind::ZeroPage, cycles: 5 },
        0x07 => OpcodeInfo { instr_type: InstrType::SLO, mode: ModeKind::ZeroPage, cycles: 5 },
        0x08 => OpcodeInfo { instr_type: InstrType::PHP, mode: ModeKind::Implied, cycles: 3 },
        0x09 => OpcodeInfo { instr_type: InstrType::ORA, mode: ModeKind::Immediate, cycles: 2 },
        0x0A => OpcodeInfo { instr_type: InstrType::ASL, mode: ModeKind::Implied, cycles: 2 },
        0x0B => OpcodeInfo { instr_type: InstrType::ANC, mode: ModeKind::Immediate, cycles: 2 },
        0x0C => OpcodeInfo { instr_type: InstrType::NOP, mode: ModeKind::Absolute, cycles: 4 },
        0x0D => OpcodeInfo { instr_type: InstrType::ORA, mode: ModeKind::Absolute, cycles: 4 },
        0x0E => OpcodeInfo { instr_type: InstrType::ASL, mode: ModeKind::Absolute, cycles: 6 },
        0x0F => OpcodeInfo { instr_type: InstrType::SLO, mode: ModeKind::Absolute, cycles: 6 },
        0x10 => OpcodeInfo { instr_type: InstrType::BPL, mode: ModeKind::Relative, cycles: 2 },
        0x11 => OpcodeInfo { instr_type: InstrType::ORA, mode: ModeKind::IndirectY, cycles: 5 },
        0x12 => OpcodeInfo { instr_type: InstrType::JAM, mode: ModeKind::Implied, cycles: 0 },
        0x13 => OpcodeInfo { instr_type: InstrType::SLO, mode: ModeKind::IndirectY, cycles: 8 },
        0x14 => OpcodeInfo { instr_type: InstrType::NOP, mode: ModeKind::ZeroPageX, cycles: 4 },
        0x15 => OpcodeInfo { instr_type: InstrType::ORA, mode: ModeKind::ZeroPageX, cycles: 4 },
        0x16 => OpcodeInfo { instr_type: InstrType::ASL, mode: ModeKind::ZeroPageX, cycles: 6 },
        0x17 => OpcodeInfo { instr_type: InstrType::SLO, mode: ModeKind::ZeroPageX, cycles: 6 },
        0x18 => OpcodeInfo { instr_type: InstrType::CLC, mode: ModeKind::Implied, cycles: 2 },
        0x19 => OpcodeInfo { instr_type: InstrType::ORA, mode: ModeKind::AbsoluteY, cycles: 4 },
        0x1A => OpcodeInfo { instr_type: InstrType::NOP, mode: ModeKind::Implied, cycles: 2 },
        0x1B => OpcodeInfo { instr_type: InstrType::SLO, mode: ModeKind::AbsoluteY, cycles: 7 },
        0x1C => OpcodeInfo { instr_type: InstrType::NOP, mode: ModeKind::AbsoluteX, cycles: 4 },
        0x1D => OpcodeInfo { instr_type: InstrType::ORA, mode: ModeKind::AbsoluteX, cycles: 4 },
        0x1E => OpcodeInfo { instr_type: InstrType::ASL, mode: ModeKind::AbsoluteX, cycles: 6 },
        0x1F => OpcodeInfo { instr_type: InstrType::SLO, mode: ModeKind::AbsoluteX, cycles: 7 },
        0x20 => OpcodeInfo { instr_type: InstrType::JSR, mode: ModeKind::Absolute, cycles: 6 },
        0x21 => OpcodeInfo { instr_type: InstrType::AND, mode: ModeKind::IndirectX, cycles: 6 },
        0x22 => OpcodeInfo { instr_type: InstrType::JAM, mode: ModeKind::Implied, cycles: 0 },
        0x23 => OpcodeInfo { instr_type: InstrType::RLA, mode: ModeKind::IndirectX, cycles: 8 },
        0x24 => OpcodeInfo { instr_type: InstrType::BIT, mode: ModeKind::ZeroPage, cycles: 3 },
        0x25 => OpcodeInfo { instr_type: InstrType::AND, mode: ModeKind::ZeroPage, cycles: 3 },
        0x26 => OpcodeInfo { instr_type: InstrType::ROL, mode: ModeKind::ZeroPage, cycles: 5 },
        0x27 => OpcodeInfo { instr_type: InstrType::RLA, mode: ModeKind::ZeroPage, cycles: 5 },
        0x28 => OpcodeInfo { instr_type: InstrType::PLP, mode: ModeKind::Implied, cycles: 4 },
        0x29 => OpcodeInfo { instr_type: InstrType::AND, mode: ModeKind::Immediate, cycles: 2 },
        0x2A => OpcodeInfo { instr_type: InstrType::ROL, mode: ModeKind::Implied, cycles: 2 },
        0x2B => OpcodeInfo { instr_type: InstrType::ANC, mode: ModeKind::Immediate, cycles: 2 },
        0x2C => OpcodeInfo { instr_type: InstrType::BIT, mode: ModeKind::Absolute, cycles: 4 },
        0x2D => OpcodeInfo { instr_type: InstrType::AND, mode: ModeKind::Absolute, cycles: 4 },
        0x2E => OpcodeInfo { instr_type: InstrType::ROL, mode: ModeKind::Absolute, cycles: 6 },
        0x2F => OpcodeInfo { instr_type: InstrType::RLA, mode: ModeKind::Absolute, cycles: 6 },
        0x30 => OpcodeInfo { instr_type: InstrType::BMI, mode: ModeKind::Relative, cycles: 2 },
        0x31 => OpcodeInfo { instr_type: InstrType::AND, mode: ModeKind::IndirectY, cycles: 5 },
        0x32 => OpcodeInfo { instr_type: InstrType::JAM, mode: ModeKind::Implied, cycles: 0 },
        0x33 => OpcodeInfo { instr_type: InstrType::RLA, mode: ModeKind::IndirectY, cycles: 8 },
        0x34 => OpcodeInfo { instr_type: InstrType::NOP, mode: ModeKind::ZeroPageX, cycles: 4 },
        0x35 => OpcodeInfo { instr_type: InstrType::AND, mode: ModeKind::ZeroPageX, cycles: 4 },
        0x36 => OpcodeInfo { instr_type: InstrType::ROL, mode: ModeKind::ZeroPageX, cycles: 6 },
        0x37 => OpcodeInfo { instr_type: InstrType::RLA, mode: ModeKind::ZeroPageX, cycles: 6 },
        0x38 => OpcodeInfo { instr_type: InstrType::SEC, mode: ModeKind::Implied, cycles: 2 },
        0x39 => OpcodeInfo { instr_type: InstrType::AND, mode: ModeKind::AbsoluteY, cycles: 4 },
        0x3A => OpcodeInfo { instr_type: InstrType::NOP, mode: ModeKind::Implied, cycles: 2 },
        0x3B => OpcodeInfo { instr_type: InstrType::RLA, mode: ModeKind::AbsoluteY, cycles: 7 },
        0x3C => OpcodeInfo { instr_type: InstrType::NOP, mode: ModeKind::AbsoluteX, cycles: 4 },
        0x3D => OpcodeInfo { instr_type: InstrType::AND, mode: ModeKind::AbsoluteX, cycles: 4 },
        0x3E => OpcodeInfo { instr_type: InstrType::ROL, mode: ModeKind::AbsoluteX, cycles: 6 },
        0x3F => OpcodeInfo { instr_type: InstrType::RLA, mode: ModeKind::AbsoluteX, cycles: 7 },
        0x40 => OpcodeInfo { instr_type: InstrType::RTI, mode: ModeKind::Implied, cycles: 6 },
        0x41 => OpcodeInfo { instr_type: InstrType::EOR, mode: ModeKind::IndirectX, cycles: 6 },
        0x42 => OpcodeInfo { instr_type: InstrType::JAM, mode: ModeKind::Implied, cycles: 0 },
        0x43 => OpcodeInfo { instr_type: InstrType::SRE, mode: ModeKind::IndirectX, cycles: 8 },
        0x44 => OpcodeInfo { instr_type: InstrType::NOP, mode: ModeKind::ZeroPage, cycles: 3 },
        0x45 => OpcodeInfo { instr_type: InstrType::EOR, mode: ModeKind::ZeroPage, cycles: 3 },
        0x46 => OpcodeInfo { instr_type: InstrType::LSR, mode: ModeKind::ZeroPage, cycles: 5 },
        0x47 => OpcodeInfo { instr_type: InstrType::SRE, mode: ModeKind::ZeroPage, cycles: 5 },
        0x48 => OpcodeInfo { instr_type: InstrType::PHA, mode: ModeKind::Implied, cycles: 3 },
        0x49 => OpcodeInfo { instr_type: InstrType::EOR, mode: ModeKind::Immediate, cycles: 2 },
        0x4A => OpcodeInfo { instr_type: InstrType::LSR, mode: ModeKind::Implied, cycles: 2 },
        0x4B => OpcodeInfo { instr_type: InstrType::ALR, mode: ModeKind::Immediate, cycles: 2 },
        0x4C => OpcodeInfo { instr_type: InstrType::JMP, mode: ModeKind::Absolute, cycles: 3 },
        0x4D => OpcodeInfo { instr_type: InstrType::EOR, mode: ModeKind::Absolute, cycles: 4 },
        0x4E => OpcodeInfo { instr_type: InstrType::LSR, mode: ModeKind::Absolute, cycles: 6 },
        0x4F => OpcodeInfo { instr_type: InstrType::SRE, mode: ModeKind::Absolute, cycles: 6 },
        0x50 => OpcodeInfo { instr_type: InstrType::BVC, mode: ModeKind::Relative, cycles: 2 },
        0x51 => OpcodeInfo { instr_type: InstrType::EOR, mode: ModeKind::IndirectY, cycles: 5 },
        0x52 => OpcodeInfo { instr_type: InstrType::JAM, mode: ModeKind::Implied, cycles: 0 },
        0x53 => OpcodeInfo { instr_type: InstrType::SRE, mode: ModeKind::IndirectY, cycles: 8 },
        0x54 => OpcodeInfo { instr_type: InstrType::NOP, mode: ModeKind::ZeroPageX, cycles: 4 },
        0x55 => OpcodeInfo { instr_type: InstrType::EOR, mode: ModeKind::ZeroPageX, cycles: 4 },
        0x56 => OpcodeInfo { instr_type: InstrType::LSR, mode: ModeKind::ZeroPageX, cycles: 6 },
        0x57 => OpcodeInfo { instr_type: InstrType::SRE, mode: ModeKind::ZeroPageX, cycles: 6 },
        0x58 => OpcodeInfo { instr_type: InstrType::CLI, mode: ModeKind::Implied, cycles: 2 },
        0x59 => OpcodeInfo { instr_type: InstrType::EOR, mode: ModeKind::AbsoluteY, cycles: 4 },
        0x5A => OpcodeInfo { instr_type: InstrType::NOP, mode: ModeKind::Implied, cycles: 2 },
        0x5B => OpcodeInfo { instr_type: InstrType::SRE, mode: ModeKind::AbsoluteY, cycles: 7 },
        0x5C => OpcodeInfo { instr_type: InstrType::NOP, mode: ModeKind::AbsoluteX, cycles: 4 },
        0x5D => OpcodeInfo { instr_type: InstrType::EOR, mode: ModeKind::AbsoluteX, cycles: 4 },
        0x5E => OpcodeInfo { instr_type: InstrType::LSR, mode: ModeKind::AbsoluteX, cycles: 6 },
        0x5F => OpcodeInfo { instr_type: InstrType::SRE, mode: ModeKind::AbsoluteX, cycles: 7 },
        0x60 => OpcodeInfo { instr_type: InstrType::RTS, mode: ModeKind::Implied, cycles: 6 },
        0x61 => OpcodeInfo { instr_type: InstrType::ADC, mode: ModeKind::IndirectX, cycles: 6 },
        0x62 => OpcodeInfo { instr_type: InstrType::JAM, mode: ModeKind::Implied, cycles: 0 },
        0x63 => OpcodeInfo { instr_type: InstrType::RRA, mode: ModeKind::IndirectX, cycles: 8 },
        0x64 => OpcodeInfo { instr_type: InstrType::NOP, mode: ModeKind::ZeroPage, cycles: 3 },
        0x65 => OpcodeInfo { instr_type: InstrType::ADC, mode: ModeKind::ZeroPage, cycles: 3 },
        0x66 => OpcodeInfo { instr_type: InstrType::ROR, mode: ModeKind::ZeroPage, cycles: 5 },
        0x67 => OpcodeInfo { instr_type: InstrType::RRA, mode: ModeKind::ZeroPage, cycles: 5 },
        0x68 => OpcodeInfo { instr_type: InstrType::PLA, mode: ModeKind::Implied, cycles: 4 },
        0x69 => OpcodeInfo { instr_type: InstrType::ADC, mode: ModeKind::Immediate, cycles: 2 },
        0x6A => OpcodeInfo { instr_type: InstrType::ROR, mode: ModeKind::Implied, cycles: 2 },
        0x6B => OpcodeInfo { instr_type: InstrType::ARR, mode: ModeKind::Immediate, cycles: 2 },
        0x6C => OpcodeInfo { instr_type: InstrType::JMP, mode: ModeKind::Indirect, cycles: 5 },
        0x6D => OpcodeInfo { instr_type: InstrType::ADC, mode: ModeKind::Absolute, cycles: 4 },
        0x6E => OpcodeInfo { instr_type: InstrType::ROR, mode: ModeKind::Absolute, cycles: 6 },
        0x6F => OpcodeInfo { instr_type: InstrType::RRA, mode: ModeKind::Absolute, cycles: 6 },
        0x70 => OpcodeInfo { instr_type: InstrType::BVS, mode: ModeKind::Relative, cycles: 2 },
        0x71 => OpcodeInfo { instr_type: InstrType::ADC, mode: ModeKind::IndirectY, cycles: 5 },
        0x72 => OpcodeInfo { instr_type: InstrType::JAM, mode: ModeKind::Implied, cycles: 0 },
        0x73 => OpcodeInfo { instr_type: InstrType::RRA, mode: ModeKind::IndirectY, cycles: 8 },
        0x74 => OpcodeInfo { instr_type: InstrType::NOP, mode: ModeKind::ZeroPageX, cycles: 4 },
        0x75 => OpcodeInfo { instr_type: InstrType::ADC, mode: ModeKind::ZeroPageX, cycles: 4 },
        0x76 => OpcodeInfo { instr_type: InstrType::ROR, mode: ModeKind::ZeroPageX, cycles: 6 },
        0x77 => OpcodeInfo { instr_type: InstrType::RRA, mode: ModeKind::ZeroPageX, cycles: 6 },
        0x78 => OpcodeInfo { instr_type: InstrType::SEI, mode: ModeKind::Implied, cycles: 2 },
        0x79 => OpcodeInfo { instr_type: InstrType::ADC, mode: ModeKind::AbsoluteY, cycles: 4 },
        0x7A => OpcodeInfo { instr_type: InstrType::NOP, mode: ModeKind::Implied, cycles: 2 },
        0x7B => OpcodeInfo { instr_type: InstrType::RRA, mode: ModeKind::AbsoluteY, cycles: 7 },
        0x7C => OpcodeInfo { instr_type: InstrType::NOP, mode: ModeKind::AbsoluteX, cycles: 4 },
        0x7D => OpcodeInfo { instr_type: InstrType::ADC, mode: ModeKind::AbsoluteX, cycles: 4 },
        0x7E => OpcodeInfo { instr_type: InstrType::ROR, mode: ModeKind::AbsoluteX, cycles: 6 },
        0x7F => OpcodeInfo { instr_type: InstrType::RRA, mode: ModeKind::AbsoluteX, cycles: 7 },
        0x80 => OpcodeInfo { instr_type: InstrType::NOP, mode: ModeKind::Immediate, cycles: 2 },
        0x81 => OpcodeInfo { instr_type: InstrType::STA, mode: ModeKind::IndirectX, cycles: 6 },
        0x82 => OpcodeInfo { instr_type: InstrType::NOP, mode: ModeKind::Immediate, cycles: 2 },
        0x83 => OpcodeInfo { instr_type: InstrType::SAX, mode: ModeKind::IndirectX, cycles: 6 },
        0x84 => OpcodeInfo { instr_type: InstrType::STY, mode: ModeKind::ZeroPage, cycles: 3 },
        0x85 => OpcodeInfo { instr_type: InstrType::STA, mode: ModeKind::ZeroPage, cycles: 3 },
        0x86 => OpcodeInfo { instr_type: InstrType::STX, mode: ModeKind::ZeroPage, cycles: 3 },
        0x87 => OpcodeInfo { instr_type: InstrType::SAX, mode: ModeKind::ZeroPage, cycles: 3 },
        0x88 => OpcodeInfo { instr_type: InstrType::DEY, mode: ModeKind::Implied, cycles: 2 },
        0x89 => OpcodeInfo { instr_type: InstrType::NOP, mode: ModeKind::Immediate, cycles: 2 },
        0x8A => OpcodeInfo { instr_type: InstrType::TXA, mode: ModeKind::Implied, cycles: 2 },
        0x8B => OpcodeInfo { instr_type: InstrType::ANE, mode: ModeKind::Immediate, cycles: 2 },
        0x8C => OpcodeInfo { instr_type: InstrType::STY, mode: ModeKind::Absolute, cycles: 4 },
        0x8D => OpcodeInfo { instr_type: InstrType::STA, mode: ModeKind::Absolute, cycles: 4 },
        0x8E => OpcodeInfo { instr_type: InstrType::STX, mode: ModeKind::Absolute, cycles: 4 },
        0x8F => OpcodeInfo { instr_type: InstrType::SAX, mode: ModeKind::Absolute, cycles: 4 },
        0x90 => OpcodeInfo { instr_type: InstrType::BCC, mode: ModeKind::Relative, cycles: 2 },
        0x91 => OpcodeInfo { instr_type: InstrType::STA, mode: ModeKind::IndirectY, cycles: 5 },
        0x92 => OpcodeInfo { instr_type: InstrType::JAM, mode: ModeKind::Implied, cycles: 0 },
        0x93 => OpcodeInfo { instr_type: InstrType::SHA, mode: ModeKind::IndirectY, cycles: 6 },
        0x94 => OpcodeInfo { instr_type: InstrType::STY, mode: ModeKind::ZeroPageX, cycles: 4 },
        0x95 => OpcodeInfo { instr_type: InstrType::STA, mode: ModeKind::ZeroPageX, cycles: 4 },
        0x96 => OpcodeInfo { instr_type: InstrType::STX, mode: ModeKind::ZeroPageY, cycles: 4 },
        0x97 => OpcodeInfo { instr_type: InstrType::SAX, mode: ModeKind::ZeroPageY, cycles: 4 },
        0x98 => OpcodeInfo { instr_type: InstrType::TYA, mode: ModeKind::Implied, cycles: 2 },
        0x99 => OpcodeInfo { instr_type: InstrType::STA, mode: ModeKind::AbsoluteY, cycles: 4 },
        0x9A => OpcodeInfo { instr_type: InstrType::TXS, mode: ModeKind::Implied, cycles: 2 },
        0x9B => OpcodeInfo { instr_type: InstrType::TAS, mode: ModeKind::AbsoluteY, cycles: 5 },
        0x9C => OpcodeInfo { instr_type: InstrType::SHY, mode: ModeKind::AbsoluteX, cycles: 5 },
        0x9D => OpcodeInfo { instr_type: InstrType::STA, mode: ModeKind::AbsoluteX, cycles: 5 },
        0x9E => OpcodeInfo { instr_type: InstrType::SHX, mode: ModeKind::AbsoluteY, cycles: 5 },
        0x9F => OpcodeInfo { instr_type: InstrType::SHA, mode: ModeKind::AbsoluteY, cycles: 5 },
        0xA0 => OpcodeInfo { instr_type: InstrType::LDY, mode: ModeKind::Immediate, cycles: 2 },
        0xA1 => OpcodeInfo { instr_type: InstrType::LDA, mode: ModeKind::IndirectX, cycles: 6 },
        0xA2 => OpcodeInfo { instr_type: InstrType::LDX, mode: ModeKind::Immediate, cycles: 2 },
        0xA3 => OpcodeInfo { instr_type: InstrType::LAX, mode: ModeKind::IndirectX, cycles: 6 },
        0xA4 => OpcodeInfo { instr_type: InstrType::LDY, mode: ModeKind::ZeroPage, cycles: 3 },
        0xA5 => OpcodeInfo { instr_type: InstrType::LDA, mode: ModeKind::ZeroPage, cycles: 3 },
        0xA6 => OpcodeInfo { instr_type: InstrType::LDX, mode: ModeKind::ZeroPage, cycles: 3 },
        0xA7 => OpcodeInfo { instr_type: InstrType::LAX, mode: ModeKind::ZeroPage, cycles: 3 },
        0xA8 => OpcodeInfo { instr_type: InstrType::TAY, mode: ModeKind::Implied, cycles: 2 },
        0xA9 => OpcodeInfo { instr_type: InstrType::LDA, mode: ModeKind::Immediate, cycles: 2 },
        0xAA => OpcodeInfo { instr_type: InstrType::TAX, mode: ModeKind::Implied, cycles: 2 },
        0xAB => OpcodeInfo { instr_type: InstrType::LXA, mode: ModeKind::Immediate, cycles: 2 },
        0xAC => OpcodeInfo { instr_type: InstrType::LDY, mode: ModeKind::Absolute, cycles: 4 },
        0xAD => OpcodeInfo { instr_type: InstrType::LDA, mode: ModeKind::Absolute, cycles: 4 },
        0xAE => OpcodeInfo { instr_type: InstrType::LDX, mode: ModeKind::Absolute, cycles: 4 },
        0xAF => OpcodeInfo { instr_type: InstrType::LAX, mode: ModeKind::Absolute, cycles: 4 },
        0xB0 => OpcodeInfo { instr_type: InstrType::BCS, mode: ModeKind::Relative, cycles: 2 },
        0xB1 => OpcodeInfo { instr_type: InstrType::LDA, mode: ModeKind::IndirectY, cycles: 5 },
        0xB2 => OpcodeInfo { instr_type: InstrType::JAM, mode: ModeKind::Implied, cycles: 0 },
        0xB3 => OpcodeInfo { instr_type: InstrType::LAX, mode: ModeKind::IndirectY, cycles: 5 },
        0xB4 => OpcodeInfo { instr_type: InstrType::LDY, mode: ModeKind::ZeroPageX, cycles: 3 },
        0xB5 => OpcodeInfo { instr_type: InstrType::LDA, mode: ModeKind::ZeroPageX, cycles: 3 },
        0xB6 => OpcodeInfo { instr_type: InstrType::LDX, mode: ModeKind::ZeroPageY, cycles: 3 },
        0xB7 => OpcodeInfo { instr_type: InstrType::LAX, mode: ModeKind::ZeroPageY, cycles: 4 },
        0xB8 => OpcodeInfo { instr_type: InstrType::CLV, mode: ModeKind::Implied, cycles: 2 },
        0xB9 => OpcodeInfo { instr_type: InstrType::LDA, mode: ModeKind::AbsoluteY, cycles: 4 },
        0xBA => OpcodeInfo { instr_type: InstrType::TSX, mode: ModeKind::Implied, cycles: 2 },
        0xBC => OpcodeInfo { instr_type: InstrType::LDY, mode: ModeKind::AbsoluteX, cycles: 4 },
        0xBB => OpcodeInfo { instr_type: InstrType::LAS, mode: ModeKind::AbsoluteY, cycles: 4 },
        0xBD => OpcodeInfo { instr_type: InstrType::LDA, mode: ModeKind::AbsoluteX, cycles: 4 },
        0xBE => OpcodeInfo { instr_type: InstrType::LDX, mode: ModeKind::AbsoluteY, cycles: 4 },
        0xBF => OpcodeInfo { instr_type: InstrType::LAX, mode: ModeKind::AbsoluteY, cycles: 4 },
        0xC0 => OpcodeInfo { instr_type: InstrType::CPY, mode: ModeKind::Immediate, cycles: 2 },
        0xC1 => OpcodeInfo { instr_type: InstrType::CMP, mode: ModeKind::IndirectX, cycles: 6 },
        0xC2 => OpcodeInfo { instr_type: InstrType::NOP, mode: ModeKind::Immediate, cycles: 2 },
        0xC3 => OpcodeInfo { instr_type: InstrType::DCP, mode: ModeKind::IndirectX, cycles: 8 },
        0xC4 => OpcodeInfo { instr_type: InstrType::CPY, mode: ModeKind::ZeroPage, cycles: 3 },
        0xC5 => OpcodeInfo { instr_type: InstrType::CMP, mode: ModeKind::ZeroPage, cycles: 3 },
        0xC6 => OpcodeInfo { instr_type: InstrType::DEC, mode: ModeKind::ZeroPage, cycles: 5 },
        0xC7 => OpcodeInfo { instr_type: InstrType::DCP, mode: ModeKind::ZeroPage, cycles: 5 },
        0xC8 => OpcodeInfo { instr_type: InstrType::INY, mode: ModeKind::Implied, cycles: 2 },
        0xC9 => OpcodeInfo { instr_type: InstrType::CMP, mode: ModeKind::Immediate, cycles: 2 },
        0xCA => OpcodeInfo { instr_type: InstrType::DEX, mode: ModeKind::Implied, cycles: 2 },
        0xCB => OpcodeInfo { instr_type: InstrType::SBX, mode: ModeKind::Immediate, cycles: 2 },
        0xCC => OpcodeInfo { instr_type: InstrType::CPY, mode: ModeKind::Absolute, cycles: 4 },
        0xCD => OpcodeInfo { instr_type: InstrType::CMP, mode: ModeKind::Absolute, cycles: 4 },
        0xCE => OpcodeInfo { instr_type: InstrType::DEC, mode: ModeKind::Absolute, cycles: 6 },
        0xCF => OpcodeInfo { instr_type: InstrType::DCP, mode: ModeKind::Absolute, cycles: 6 },
        0xD0 => OpcodeInfo { instr_type: InstrType::BNE, mode: ModeKind::Relative, cycles: 2 },
        0xD1 => OpcodeInfo { instr_type: InstrType::CMP, mode: ModeKind::IndirectY, cycles: 5 },
        0xD2 => OpcodeInfo { instr_type: InstrType::JAM, mode: ModeKind::Implied, cycles: 0 },
        0xD3 => OpcodeInfo { instr_type: InstrType::DCP, mode: ModeKind::IndirectY, cycles: 8 },
        0xD4 => OpcodeInfo { instr_type: InstrType::NOP, mode: ModeKind::ZeroPageX, cycles: 4 },
        0xD5 => OpcodeInfo { instr_type: InstrType::CMP, mode: ModeKind::ZeroPageX, cycles: 4 },
        0xD6 => OpcodeInfo { instr_type: InstrType::DEC, mode: ModeKind::ZeroPageX, cycles: 6 },
        0xD7 => OpcodeInfo { instr_type: InstrType::DCP, mode: ModeKind::ZeroPageX, cycles: 6 },
        0xD8 => OpcodeInfo { instr_type: InstrType::CLD, mode: ModeKind::Implied, cycles: 2 },
        0xD9 => OpcodeInfo { instr_type: InstrType::CMP, mode: ModeKind::AbsoluteY, cycles: 4 },
        0xDA => OpcodeInfo { instr_type: InstrType::NOP, mode: ModeKind::Implied, cycles: 2 },
        0xDB => OpcodeInfo { instr_type: InstrType::DCP, mode: ModeKind::AbsoluteY, cycles: 7 },
        0xDC => OpcodeInfo { instr_type: InstrType::NOP, mode: ModeKind::AbsoluteX, cycles: 4 },
        0xDD => OpcodeInfo { instr_type: InstrType::CMP, mode: ModeKind::AbsoluteX, cycles: 4 },
        0xDE => OpcodeInfo { instr_type: InstrType::DEC, mode: ModeKind::AbsoluteX, cycles: 6 },
        0xDF => OpcodeInfo { instr_type: InstrType::DCP, mode: ModeKind::AbsoluteX, cycles: 7 },
        0xE0 => OpcodeInfo { instr_type: InstrType::CPX, mode: ModeKind::Immediate, cycles: 2 },
        0xE1 => OpcodeInfo { instr_type: InstrType::SBC, mode: ModeKind::IndirectX, cycles: 6 },
        0xE2 => OpcodeInfo { instr_type: InstrType::NOP, mode: ModeKind::Immediate, cycles: 2 },
        0xE3 => OpcodeInfo { instr_type: InstrType::ISC, mode: ModeKind::IndirectX, cycles: 8 },
        0xE4 => OpcodeInfo { instr_type: InstrType::CPX, mode: ModeKind::ZeroPage, cycles: 3 },
        0xE5 => OpcodeInfo { instr_type: InstrType::SBC, mode: ModeKind::ZeroPage, cycles: 3 },
        0xE6 => OpcodeInfo { instr_type: InstrType::INC, mode: ModeKind::ZeroPage, cycles: 5 },
        0xE7 => OpcodeInfo { instr_type: InstrType::ISC, mode: ModeKind::ZeroPage, cycles: 5 },
        0xE8 => OpcodeInfo { instr_type: InstrType::INX, mode: ModeKind::Implied, cycles: 2 },
        0xE9 => OpcodeInfo { instr_type: InstrType::SBC, mode: ModeKind::Immediate, cycles: 2 },
        0xEA => OpcodeInfo { instr_type: InstrType::NOP, mode: ModeKind::Implied, cycles: 2 },
        0xEB => OpcodeInfo { instr_type: InstrType::USBC, mode: ModeKind::Immediate, cycles: 2 },
        0xEC => OpcodeInfo { instr_type: InstrType::CPX, mode: ModeKind::Absolute, cycles: 4 },
        0xED => OpcodeInfo { instr_type: InstrType::SBC, mode: ModeKind::Absolute, cycles: 4 },
        0xEE => OpcodeInfo { instr_type: InstrType::INC, mode: ModeKind::Absolute, cycles: 6 },
        0xEF => OpcodeInfo { instr_type: InstrType::ISC, mode: ModeKind::Absolute, cycles: 6 },
        0xF0 => OpcodeInfo { instr_type: InstrType::BEQ, mode: ModeKind::Relative, cycles: 2 },
        0xF1 => OpcodeInfo { instr_type: InstrType::SBC, mode: ModeKind::IndirectY, cycles: 5 },
        0xF2 => OpcodeInfo { instr_type: InstrType::JAM, mode: ModeKind::Implied, cycles: 0 },
        0xF3 => OpcodeInfo { instr_type: InstrType::ISC, mode: ModeKind::IndirectY, cycles: 8 },
        0xF4 => OpcodeInfo { instr_type: InstrType::NOP, mode: ModeKind::ZeroPageX, cycles: 4 },
        0xF5 => OpcodeInfo { instr_type: InstrType::SBC, mode: ModeKind::ZeroPageX, cycles: 4 },
        0xF6 => OpcodeInfo { instr_type: InstrType::INC, mode: ModeKind::ZeroPageX, cycles: 6 },
        0xF7 => OpcodeInfo { instr_type: InstrType::ISC, mode: ModeKind::ZeroPageX, cycles: 6 },
        0xF8 => OpcodeInfo { instr_type: InstrType::SED, mode: ModeKind::Implied, cycles: 2 },
        0xF9 => OpcodeInfo { instr_type: InstrType::SBC, mode: ModeKind::AbsoluteY, cycles: 4 },
        0xFA => OpcodeInfo { instr_type: InstrType::NOP, mode: ModeKind::Implied, cycles: 2 },
        0xFB => OpcodeInfo { instr_type: InstrType::ISC, mode: ModeKind::AbsoluteY, cycles: 7 },
        0xFC => OpcodeInfo { instr_type: InstrType::NOP, mode: ModeKind::AbsoluteX, cycles: 4 },
        0xFD => OpcodeInfo { instr_type: InstrType::SBC, mode: ModeKind::AbsoluteX, cycles: 4 },
        0xFE => OpcodeInfo { instr_type: InstrType::INC, mode: ModeKind::AbsoluteX, cycles: 6 },
        0xFF => OpcodeInfo { instr_type: InstrType::ISC, mode: ModeKind::AbsoluteX, cycles: 7 },
    }
}

/// The mnemonic of an operation.
pub open spec fn spec_mnemonic(t: InstrType) -> Seq<char> {
    match t {
        InstrType::LDA => "LDA"@,
        InstrType::LDX => "LDX"@,
        InstrType::LDY => "LDY"@,
        InstrType::STA => "STA"@,
        InstrType::STX => "STX"@,
        InstrType::STY => "STY"@,
        InstrType::TAX => "TAX"@,
        InstrType::TAY => "TAY"@,
        InstrType::TSX => "TSX"@,
        InstrType::TXA => "TXA"@,
        InstrType::TXS => "TXS"@,
        InstrType::TYA => "TYA"@,
        InstrType::PHA => "PHA"@,
        InstrType::PHP => "PHP"@,
        InstrType::PLA => "PLA"@,
        InstrType::PLP => "PLP"@,
        InstrType::DEC => "DEC"@,
        InstrType::DEX => "DEX"@,
        InstrType::DEY => "DEY"@,
        InstrType::INC => "INC"@,
        InstrType::INX => "INX"@,
        InstrType::INY => "INY"@,
        InstrType::ADC => "ADC"@,
        InstrType::SBC => "SBC"@,
        InstrType::AND => "AND"@,
        InstrType::EOR => "EOR"@,
        InstrType::ORA => "ORA"@,
        InstrType::ASL => "ASL"@,
        InstrType::LSR => "LSR"@,
        InstrType::ROL => "ROL"@,
        InstrType::ROR => "ROR"@,
        InstrType::CLC => "CLC"@,
        InstrType::CLD => "CLD"@,
        InstrType::CLI => "CLI"@,
        InstrType::CLV => "CLV"@,
        InstrType::SEC => "SEC"@,
        InstrType::SED => "SED"@,
        InstrType::SEI => "SEI"@,
        InstrType::CMP => "CMP"@,
        InstrType::CPX => "CPX"@,
        InstrType::CPY => "CPY"@,
        InstrType::BCC => "BCC"@,
        InstrType::BCS => "BCS"@,
        InstrType::BEQ => "BEQ"@,
        InstrType::BMI => "BMI"@,
        InstrType::BNE => "BNE"@,
        InstrType::BPL => "BPL"@,
        InstrType::BVC => "BVC"@,
        InstrType::BVS => "BVS"@,
        InstrType::JMP => "JMP"@,
        InstrType::JSR => "JSR"@,
        InstrType::RTS => "RTS"@,
        InstrType::BRK => "BRK"@,
        InstrType::RTI => "RTI"@,
        InstrType::BIT => "BIT"@,
        InstrType::NOP => "NOP"@,
        InstrType::ALR => "ALR"@,
        InstrType::ANC => "ANC"@,
        InstrType::ANE => "ANE"@,
        InstrType::ARR => "ARR"@,
        InstrType::DCP => "DCP"@,
        InstrType::ISC => "ISC"@,
        InstrType::LAS => "LAS"@,
        InstrType::LAX => "LAX"@,
        InstrType::LXA => "LXA"@,
        InstrType::RLA => "RLA"@,
        InstrType::RRA => "RRA"@,
        InstrType::SAX => "SAX"@,
        InstrType::SBX => "SBX"@,
        InstrType::SHA => "SHA"@,
        InstrType::SHX => "SHX"@,
        InstrType::SHY => "SHY"@,
        InstrType::SLO => "SLO"@,
        InstrType::SRE => "SRE"@,
        InstrType::TAS => "TAS"@,
        InstrType::USBC => "USBC"@,
        InstrType::JAM => "JAM"@,
    }
}

impl InstrType {
    /// The three-or-four letter mnemonic of the operation.
    pub fn to_str(&self) -> (r: &'static str)
        ensures
            r@ == spec_mnemonic(*self),
    {
        match self {
            InstrType::LDA => "LDA",
            InstrType::LDX => "LDX",
            InstrType::LDY => "LDY",
            InstrType::STA => "STA",
            InstrType::STX => "STX",
            InstrType::STY => "STY",
            InstrType::TAX => "TAX",
            InstrType::TAY => "TAY",
            InstrType::TSX => "TSX",
            InstrType::TXA => "TXA",
            InstrType::TXS => "TXS",
            InstrType::TYA => "TYA",
            InstrType::PHA => "PHA",
            InstrType::PHP => "PHP",
            InstrType::PLA => "PLA",
            InstrType::PLP => "PLP",
            InstrType::DEC => "DEC",
            InstrType::DEX => "DEX",
            InstrType::DEY => "DEY",
            InstrType::INC => "INC",
            InstrType::INX => "INX",
            InstrType::INY => "INY",
            InstrType::ADC => "ADC",
            InstrType::SBC => "SBC",
            InstrType::AND => "AND",
            InstrType::EOR => "EOR",
            InstrType::ORA => "ORA",
            InstrType::ASL => "ASL",
            InstrType::LSR => "LSR",
            InstrType::ROL => "ROL",
            InstrType::ROR => "ROR",
            InstrType::CLC => "CLC",
            InstrType::CLD => "CLD",
            InstrType::CLI => "CLI",
            InstrType::CLV => "CLV",
            InstrType::SEC => "SEC",
            InstrType::SED => "SED",
            InstrType::SEI => "SEI",
            InstrType::CMP => "CMP",
            InstrType::CPX => "CPX",
            InstrType::CPY => "CPY",
            InstrType::BCC => "BCC",
            InstrType::BCS => "BCS",
            InstrType::BEQ => "BEQ",
            InstrType::BMI => "BMI",
            InstrType::BNE => "BNE",
            InstrType::BPL => "BPL",
            InstrType::BVC => "BVC",
            InstrType::BVS => "BVS",
            InstrType::JMP => "JMP",
            InstrType::JSR => "JSR",
            InstrType::RTS => "RTS",
            InstrType::BRK => "BRK",
            InstrType::RTI => "RTI",
            InstrType::BIT => "BIT",
            InstrType::NOP => "NOP",
            InstrType::ALR => "ALR",
            InstrType::ANC => "ANC",
            InstrType::ANE => "ANE",
            InstrType::ARR => "ARR",
            InstrType::DCP => "DCP",
            InstrType::ISC => "ISC",
            InstrType::LAS => "LAS",
            InstrType::LAX => "LAX",
            InstrType::LXA => "LXA",
            InstrType::RLA => "RLA",
            InstrType::RRA => "RRA",
            InstrType::SAX => "SAX",
            InstrType::SBX => "SBX",
            InstrType::SHA => "SHA",
            InstrType::SHX => "SHX",
            InstrType::SHY => "SHY",
            InstrType::SLO => "SLO",
            InstrType::SRE => "SRE",
            InstrType::TAS => "TAS",
            InstrType::USBC => "USBC",
            InstrType::JAM => "JAM",
        }
    }
}

/// The mnemonic as ASCII bytes.
pub open spec fn spec_mnemonic_bytes(t: InstrType) -> Seq<u8> {
    match t {
        InstrType::LDA => seq![0x4Cu8, 0x44, 0x41],
        InstrType::LDX => seq![0x4Cu8, 0x44, 0x58],
        InstrType::LDY => seq![0x4Cu8, 0x44, 0x59],
        InstrType::STA => seq![0x53u8, 0x54, 0x41],
        InstrType::STX => seq![0x53u8, 0x54, 0x58],
        InstrType::STY => seq![0x53u8, 0x54, 0x59],
        InstrType::TAX => seq![0x54u8, 0x41, 0x58],
        InstrType::TAY => seq![0x54u8, 0x41, 0x59],
        InstrType::TSX => seq![0x54u8, 0x53, 0x58],
        InstrType::TXA => seq![0x54u8, 0x58, 0x41],
        InstrType::TXS => seq![0x54u8, 0x58, 0x53],
        InstrType::TYA => seq![0x54u8, 0x59, 0x41],
        InstrType::PHA => seq![0x50u8, 0x48, 0x41],
        InstrType::PHP => seq![0x50u8, 0x48, 0x50],
        InstrType::PLA => seq![0x50u8, 0x4C, 0x41],
        InstrType::PLP => seq![0x50u8, 0x4C, 0x50],
        InstrType::DEC => seq![0x44u8, 0x45, 0x43],
        InstrType::DEX => seq![0x44u8, 0x45, 0x58],
        InstrType::DEY => seq![0x44u8, 0x45, 0x59],
        InstrType::INC => seq![0x49u8, 0x4E, 0x43],
        InstrType::INX => seq![0x49u8, 0x4E, 0x58],
        InstrType::INY => seq![0x49u8, 0x4E, 0x59],
        InstrType::ADC => seq![0x41u8, 0x44, 0x43],
        InstrType::SBC => seq![0x53u8, 0x42, 0x43],
        InstrType::AND => seq![0x41u8, 0x4E, 0x44],
        InstrType::EOR => seq![0x45u8, 0x4F, 0x52],
        InstrType::ORA => seq![0x4Fu8, 0x52, 0x41],
        InstrType::ASL => seq![0x41u8, 0x53, 0x4C],
        InstrType::LSR => seq![0x4Cu8, 0x53, 0x52],
        InstrType::ROL => seq![0x52u8, 0x4F, 0x4C],
        InstrType::ROR => seq![0x52u8, 0x4F, 0x52],
        InstrType::CLC => seq![0x43u8, 0x4C, 0x43],
        InstrType::CLD => seq![0x43u8, 0x4C, 0x44],
        InstrType::CLI => seq![0x43u8, 0x4C, 0x49],
        InstrType::CLV => seq![0x43u8, 0x4C, 0x56],
        InstrType::SEC => seq![0x53u8, 0x45, 0x43],
        InstrType::SED => seq![0x53u8, 0x45, 0x44],
        InstrType::SEI => seq![0x53u8, 0x45, 0x49],
        InstrType::CMP => seq![0x43u8, 0x4D, 0x50],
        InstrType::CPX => seq![0x43u8, 0x50, 0x58],
        InstrType::CPY => seq![0x43u8, 0x50, 0x59],
        InstrType::BCC => seq![0x42u8, 0x43, 0x43],
        InstrType::BCS => seq![0x42u8, 0x43, 0x53],
        InstrType::BEQ => seq![0x42u8, 0x45, 0x51],
        InstrType::BMI => seq![0x42u8, 0x4D, 0x49],
        InstrType::BNE => seq![0x42u8, 0x4E, 0x45],
        InstrType::BPL => seq![0x42u8, 0x50, 0x4C],
        InstrType::BVC => seq![0x42u8, 0x56, 0x43],
        InstrType::BVS => seq![0x42u8, 0x56, 0x53],
        InstrType::JMP => seq![0x4Au8, 0x4D, 0x50],
        InstrType::JSR => seq![0x4Au8, 0x53, 0x52],
        InstrType::RTS => seq![0x52u8, 0x54, 0x53],
        InstrType::BRK => seq![0x42u8, 0x52, 0x4B],
        InstrType::RTI => seq![0x52u8, 0x54, 0x49],
        InstrType::BIT => seq![0x42u8, 0x49, 0x54],
        InstrType::NOP => seq![0x4Eu8, 0x4F, 0x50],
        InstrType::ALR => seq![0x41u8, 0x4C, 0x52],
        InstrType::ANC => seq![0x41u8, 0x4E, 0x43],
        InstrType::ANE => seq![0x41u8, 0x4E, 0x45],
        InstrType::ARR => seq![0x41u8, 0x52, 0x52],
        InstrType::DCP => seq![0x44u8, 0x43, 0x50],
        InstrType::ISC => seq![0x49u8, 0x53, 0x43],
        InstrType::LAS => seq![0x4Cu8, 0x41, 0x53],
        InstrType::LAX => seq![0x4Cu8, 0x41, 0x58],
        InstrType::LXA => seq![0x4Cu8, 0x58, 0x41],
        InstrType::RLA => seq![0x52u8, 0x4C, 0x41],
        InstrType::RRA => seq![0x52u8, 0x52, 0x41],
        InstrType::SAX => seq![0x53u8, 0x41, 0x58],
        InstrType::SBX => seq![0x53u8, 0x42, 0x58],
        InstrType::SHA => seq![0x53u8, 0x48, 0x41],
        InstrType::SHX => seq![0x53u8, 0x48, 0x58],
        InstrType::SHY => seq![0x53u8, 0x48, 0x59],
        InstrType::SLO => seq![0x53u8, 0x4C, 0x4F],
        InstrType::SRE => seq![0x53u8, 0x52, 0x45],
        InstrType::TAS => seq![0x54u8, 0x41, 0x53],
        InstrType::USBC => seq![0x55u8, 0x53, 0x42, 0x43],
        InstrType::JAM => seq![0x4Au8, 0x41, 0x4D],
    }
}

impl InstrType {
    pub fn mnemonic_bytes(&self) -> (r: Vec<u8>)
        ensures
            r@ == spec_mnemonic_bytes(*self),
    {
        let r = match self {
            InstrType::LDA => vec![0x4Cu8, 0x44, 0x41],
            InstrType::LDX => vec![0x4Cu8, 0x44, 0x58],
            InstrType::LDY => vec![0x4Cu8, 0x44, 0x59],
            InstrType::STA => vec![0x53u8, 0x54, 0x41],
            InstrType::STX => vec![0x53u8, 0x54, 0x58],
            InstrType::STY => vec![0x53u8, 0x54, 0x59],
            InstrType::TAX => vec![0x54u8, 0x41, 0x58],
            InstrType::TAY => vec![0x54u8, 0x41, 0x59],
            InstrType::TSX => vec![0x54u8, 0x53, 0x58],
            InstrType::TXA => vec![0x54u8, 0x58, 0x41],
            InstrType::TXS => vec![0x54u8, 0x58, 0x53],
            InstrType::TYA => vec![0x54u8, 0x59, 0x41],
            InstrType::PHA => vec![0x50u8, 0x48, 0x41],
            InstrType::PHP => vec![0x50u8, 0x48, 0x50],
            InstrType::PLA => vec![0x50u8, 0x4C, 0x41],
            InstrType::PLP => vec![0x50u8, 0x4C, 0x50],
            InstrType::DEC => vec![0x44u8, 0x45, 0x43],
            InstrType::DEX => vec![0x44u8, 0x45, 0x58],
            InstrType::DEY => vec![0x44u8, 0x45, 0x59],
            InstrType::INC => vec![0x49u8, 0x4E, 0x43],
            InstrType::INX => vec![0x49u8, 0x4E, 0x58],
            InstrType::INY => vec![0x49u8, 0x4E, 0x59],
            InstrType::ADC => vec![0x41u8, 0x44, 0x43],
            InstrType::SBC => vec![0x53u8, 0x42, 0x43],
            InstrType::AND => vec![0x41u8, 0x4E, 0x44],
            InstrType::EOR => vec![0x45u8, 0x4F, 0x52],
            InstrType::ORA => vec![0x4Fu8, 0x52, 0x41],
            InstrType::ASL => vec![0x41u8, 0x53, 0x4C],
            InstrType::LSR => vec![0x4Cu8, 0x53, 0x52],
            InstrType::ROL => vec![0x52u8, 0x4F, 0x4C],
            InstrType::ROR => vec![0x52u8, 0x4F, 0x52],
            InstrType::CLC => vec![0x43u8, 0x4C, 0x43],
            InstrType::CLD => vec![0x43u8, 0x4C, 0x44],
            InstrType::CLI => vec![0x43u8, 0x4C, 0x49],
            InstrType::CLV => vec![0x43u8, 0x4C, 0x56],
            InstrType::SEC => vec![0x53u8, 0x45, 0x43],
            InstrType::SED => vec![0x53u8, 0x45, 0x44],
            InstrType::SEI => vec![0x53u8, 0x45, 0x49],
            InstrType::CMP => vec![0x43u8, 0x4D, 0x50],
            InstrType::CPX => vec![0x43u8, 0x50, 0x58],
            InstrType::CPY => vec![0x43u8, 0x50, 0x59],
            InstrType::BCC => vec![0x42u8, 0x43, 0x43],
            InstrType::BCS => vec![0x42u8, 0x43, 0x53],
            InstrType::BEQ => vec![0x42u8, 0x45, 0x51],
            InstrType::BMI => vec![0x42u8, 0x4D, 0x49],
            InstrType::BNE => vec![0x42u8, 0x4E, 0x45],
            InstrType::BPL => vec![0x42u8, 0x50, 0x4C],
            InstrType::BVC => vec![0x42u8, 0x56, 0x43],
            InstrType::BVS => vec![0x42u8, 0x56, 0x53],
            InstrType::JMP => vec![0x4Au8, 0x4D, 0x50],
            InstrType::JSR => vec![0x4Au8, 0x53, 0x52],
            InstrType::RTS => vec![0x52u8, 0x54, 0x53],
            InstrType::BRK => vec![0x42u8, 0x52, 0x4B],
            InstrType::RTI => vec![0x52u8, 0x54, 0x49],
            InstrType::BIT => vec![0x42u8, 0x49, 0x54],
            InstrType::NOP => vec![0x4Eu8, 0x4F, 0x50],
            InstrType::ALR => vec![0x41u8, 0x4C, 0x52],
            InstrType::ANC => vec![0x41u8, 0x4E, 0x43],
            InstrType::ANE => vec![0x41u8, 0x4E, 0x45],
            InstrType::ARR => vec![0x41u8, 0x52, 0x52],
            InstrType::DCP => vec![0x44u8, 0x43, 0x50],
            InstrType::ISC => vec![0x49u8, 0x53, 0x43],
            InstrType::LAS => vec![0x4Cu8, 0x41, 0x53],
            InstrType::LAX => vec![0x4Cu8, 0x41, 0x58],
            InstrType::LXA => vec![0x4Cu8, 0x58, 0x41],
            InstrType::RLA => vec![0x52u8, 0x4C, 0x41],
            InstrType::RRA => vec![0x52u8, 0x52, 0x41],
            InstrType::SAX => vec![0x53u8, 0x41, 0x58],
            InstrType::SBX => vec![0x53u8, 0x42, 0x58],
            InstrType::SHA => vec![0x53u8, 0x48, 0x41],
            InstrType::SHX => vec![0x53u8, 0x48, 0x58],
            InstrType::SHY => vec![0x53u8, 0x48, 0x59],
            InstrType::SLO => vec![0x53u8, 0x4C, 0x4F],
            InstrType::SRE => vec![0x53u8, 0x52, 0x45],
            InstrType::TAS => vec![0x54u8, 0x41, 0x53],
            InstrType::USBC => vec![0x55u8, 0x53, 0x42, 0x43],
            InstrType::JAM => vec![0x4Au8, 0x41, 0x4D],
        };
        proof {
            assert(r@ =~= spec_mnemonic_bytes(*self));
        }
        r
    }
}

/// An instruction in assembler syntax: the mnemonic, then the operand in
/// hexadecimal with its addressing mode's decoration (`#$nn`, `$nn`,
/// `$nnnn`, `,X`, `,Y`, `($nnnn)`, `($nn,X)`, `($nn),Y`, or a signed
/// branch offset `+$nn` / `-$nn`).
pub open spec fn spec_instruction_text(inst: Instruction) -> Seq<u8> {
    let m = spec_mnemonic_bytes(inst.instr_type);
    let dollar = seq![0x20u8, 0x24];
    match inst.addr_mode {
        AddrMode::Implied => m,
        AddrMode::Immediate(v) => m + seq![0x20u8, 0x23, 0x24] + spec_hex(v as nat, 2),
        AddrMode::ZeroPage(a) => m + dollar + spec_hex(a as nat, 2),
        AddrMode::ZeroPageX(a) => m + dollar + spec_hex(a as nat, 2) + seq![0x2Cu8, 0x58],
        AddrMode::ZeroPageY(a) => m + dollar + spec_hex(a as nat, 2) + seq![0x2Cu8, 0x59],
        AddrMode::Absolute(a) => m + dollar + spec_hex(a as nat, 4),
        AddrMode::AbsoluteX(a) => m + dollar + spec_hex(a as nat, 4) + seq![0x2Cu8, 0x58],
        AddrMode::AbsoluteY(a) => m + dollar + spec_hex(a as nat, 4) + seq![0x2Cu8, 0x59],
        AddrMode::Indirect(a) => m + seq![0x20u8, 0x28, 0x24] + spec_hex(a as nat, 4) + seq![0x29u8],
        AddrMode::IndirectX(a) => m + seq![0x20u8, 0x28, 0x24] + spec_hex(a as nat, 2) + seq![0x2Cu8, 0x58, 0x29],
        AddrMode::IndirectY(a) => m + seq![0x20u8, 0x28, 0x24] + spec_hex(a as nat, 2) + seq![0x29u8, 0x2C, 0x59],
        AddrMode::Relative(o) => if o >= 0 {
            m + seq![0x20u8, 0x2B, 0x24] + spec_hex(o as nat, 2)
        } else {
            m + seq![0x20u8, 0x2D, 0x24] + spec_hex((0 - o) as nat, 2)
        },
    }
}

impl Instruction {
    /// The instruction in assembler syntax, as ASCII (see
    /// `spec_instruction_text`).
    pub fn to_string(&self) -> (r: Vec<u8>)
        ensures
            r@ == spec_instruction_text(*self),
    {
        let mut r = self.instr_type.mnemonic_bytes();
        match self.addr_mode {
            AddrMode::Implied => {},
            AddrMode::Immediate(v) => {
                r.push(0x20);
                r.push(0x23);
                r.push(0x24);
                push_hex(&mut r, v as u64, 2);
            },
            AddrMode::ZeroPage(a) => {
                r.push(0x20);
                r.push(0x24);
                push_hex(&mut r, a as u64, 2);
            },
            AddrMode::ZeroPageX(a) => {
                r.push(0x20);
                r.push(0x24);
                push_hex(&mut r, a as u64, 2);
                r.push(0x2C);
                r.push(0x58);
            },
            AddrMode::ZeroPageY(a) => {
                r.push(0x20);
                r.push(0x24);
                push_hex(&mut r, a as u64, 2);
                r.push(0x2C);
                r.push(0x59);
            },
            AddrMode::Absolute(a) => {
                r.push(0x20);
                r.push(0x24);
                push_hex(&mut r, a as u64, 4);
            },
            AddrMode::AbsoluteX(a) => {
                r.push(0x20);
                r.push(0x24);
                push_hex(&mut r, a as u64, 4);
                r.push(0x2C);
                r.push(0x58);
            },
            AddrMode::AbsoluteY(a) => {
                r.push(0x20);
                r.push(0x24);
                push_hex(&mut r, a as u64, 4);
                r.push(0x2C);
                r.push(0x59);
            },
            AddrMode::Indirect(a) => {
                r.push(0x20);
                r.push(0x28);
                r.push(0x24);
                push_hex(&mut r, a as u64, 4);
                r.push(0x29);
            },
            AddrMode::IndirectX(a) => {
                r.push(0x20);
                r.push(0x28);
                r.push(0x24);
                push_hex(&mut r, a as u64, 2);
                r.push(0x2C);
                r.push(0x58);
                r.push(0x29);
            },
            AddrMode::IndirectY(a) => {
                r.push(0x20);
                r.push(0x28);
                r.push(0x24);
                push_hex(&mut r, a as u64, 2);
                r.push(0x29);
                r.push(0x2C);
                r.push(0x59);
            },
            AddrMode::Relative(o) => {
                r.push(0x20);
                if o >= 0 {
                    r.push(0x2B);
                    r.push(0x24);
                    push_hex(&mut r, o as u64, 2);
                } else {
                    r.push(0x2D);
                    r.push(0x24);
                    push_hex(&mut r, (0 - o as i16) as u64, 2);
                }
            },
        }
        proof {
            assert(r@ =~= spec_instruction_text(*self));
        }
        r
    }
}

} // verus!
