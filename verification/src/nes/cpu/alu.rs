//! The processor status register and the arithmetic of the 6502.

use vstd::prelude::*;

verus! {

/// The value of a byte read as a two's-complement signed number.
pub open spec fn signed(x: u8) -> int {
    if x < 128 { x as int } else { x as int - 256 }
}

/// The processor status register `P`, one field per flag.
#[derive(Clone, Copy, PartialEq, Eq, Structural, Debug)]
pub struct StatusFlags {
    pub carry: bool,
    pub zero: bool,
    pub int: bool,
    pub decimal: bool,
    pub brk: bool,
    pub one: bool,
    pub overflow: bool,
    pub neg: bool,
}

pub open spec fn bit(b: bool, v: u8) -> u8 {
    if b { v } else { 0 }
}

impl StatusFlags {
    /// The flags packed into the byte that the CPU pushes on the stack.
    pub open spec fn spec_bits(self) -> u8 {
        (bit(self.carry, 1) + bit(self.zero, 2) + bit(self.int, 4) + bit(self.decimal, 8)
            + bit(self.brk, 16) + bit(self.one, 32) + bit(self.overflow, 64) + bit(
            self.neg,
            128,
        )) as u8
    }

    /// The flags that a byte encodes, bit 0 being carry and bit 7 negative.
    pub open spec fn spec_from_bits(b: u8) -> StatusFlags {
        StatusFlags {
            carry: b & 1 != 0,
            zero: b & 2 != 0,
            int: b & 4 != 0,
            decimal: b & 8 != 0,
            brk: b & 16 != 0,
            one: b & 32 != 0,
            overflow: b & 64 != 0,
            neg: b & 128 != 0,
        }
    }

    pub fn bits(&self) -> (r: u8)
        ensures
            r == self.spec_bits(),
    {
        let mut r: u8 = 0;
        if self.carry { r = r + 1; }
        if self.zero { r = r + 2; }
        if self.int { r = r + 4; }
        if self.decimal { r = r + 8; }
        if self.brk { r = r + 16; }
        if self.one { r = r + 32; }
        if self.overflow { r = r + 64; }
        if self.neg { r = r + 128; }
        r
    }

    pub fn from_bits_retain(b: u8) -> (r: StatusFlags)
        ensures
            r == StatusFlags::spec_from_bits(b),
    {
        StatusFlags {
            carry: b & 1 != 0,
            zero: b & 2 != 0,
            int: b & 4 != 0,
            decimal: b & 8 != 0,
            brk: b & 16 != 0,
            one: b & 32 != 0,
            overflow: b & 64 != 0,
            neg: b & 128 != 0,
        }
    }
}

/// Reading back the byte that a status register packs into gives that register.
pub proof fn lemma_status_bits_roundtrip(f: StatusFlags)
    ensures
        StatusFlags::spec_from_bits(f.spec_bits()) == f,
{
    let (c, z, i, d, b, o, v, n) = (f.carry, f.zero, f.int, f.decimal, f.brk, f.one, f.overflow, f.neg);
    let x: u8 = f.spec_bits();
    assert(x == ((if c { 1u8 } else { 0u8 }) | (if z { 2u8 } else { 0u8 }) | (if i { 4u8 } else { 0u8 }) | (if d { 8u8 } else { 0u8 }) | (if b { 16u8 } else { 0u8 }) | (if o { 32u8 } else { 0u8 }) | (if v { 64u8 } else { 0u8 }) | (if n { 128u8 } else { 0u8 }))) by (bit_vector)
        requires x == ((if c { 1u8 } else { 0u8 }) + (if z { 2u8 } else { 0u8 }) + (if i { 4u8 } else { 0u8 }) + (if d { 8u8 } else { 0u8 }) + (if b { 16u8 } else { 0u8 }) + (if o { 32u8 } else { 0u8 }) + (if v { 64u8 } else { 0u8 }) + (if n { 128u8 } else { 0u8 })) as u8;
    assert((x & 1 != 0) == c && (x & 2 != 0) == z && (x & 4 != 0) == i && (x & 8 != 0) == d
        && (x & 16 != 0) == b && (x & 32 != 0) == o && (x & 64 != 0) == v && (x & 128 != 0) == n) by (bit_vector)
        requires x == ((if c { 1u8 } else { 0u8 }) | (if z { 2u8 } else { 0u8 }) | (if i { 4u8 } else { 0u8 }) | (if d { 8u8 } else { 0u8 }) | (if b { 16u8 } else { 0u8 }) | (if o { 32u8 } else { 0u8 }) | (if v { 64u8 } else { 0u8 }) | (if n { 128u8 } else { 0u8 }));
}


/// The outcome of an addition or a subtraction: the result byte, the carry
/// flag and the signed overflow flag.
#[derive(Clone, Copy, PartialEq, Eq, Structural, Debug)]
pub struct ArithResult {
    pub value: u8,
    pub carry: bool,
    pub overflow: bool,
}

pub open spec fn carry_in(c: bool) -> int {
    if c { 1 } else { 0 }
}

/// `ADC`: `a + m + c`, the carry set when the unsigned sum exceeds a byte and
/// the overflow set when the signed sum leaves -128..=127.
pub open spec fn spec_adc(a: u8, m: u8, c: bool) -> ArithResult {
    let sum = a as int + m as int + carry_in(c);
    let ssum = signed(a) + signed(m) + carry_in(c);
    ArithResult { value: (sum % 256) as u8, carry: sum > 255, overflow: !(-128 <= ssum <= 127) }
}

/// `SBC`: `a - m - (1 - c)`, the carry cleared exactly when a borrow occurs.
pub open spec fn spec_sbc(a: u8, m: u8, c: bool) -> ArithResult {
    let diff = a as int - m as int - (1 - carry_in(c));
    let sdiff = signed(a) - signed(m) - (1 - carry_in(c));
    ArithResult {
        value: ((diff + 256) % 256) as u8,
        carry: diff >= 0,
        overflow: !(-128 <= sdiff <= 127),
    }
}

pub fn adc(a: u8, m: u8, c: bool) -> (r: ArithResult)
    ensures
        r == spec_adc(a, m, c),
{
    let cin: u16 = if c { 1 } else { 0 };
    let sum: u16 = a as u16 + m as u16 + cin;
    let sa: i16 = if a < 128 { a as i16 } else { a as i16 - 256 };
    let sm: i16 = if m < 128 { m as i16 } else { m as i16 - 256 };
    let ssum: i16 = sa + sm + cin as i16;
    ArithResult { value: (sum % 256) as u8, carry: sum > 255, overflow: !(-128 <= ssum && ssum <= 127) }
}

pub fn sbc(a: u8, m: u8, c: bool) -> (r: ArithResult)
    ensures
        r == spec_sbc(a, m, c),
{
    let bin: i16 = if c { 0 } else { 1 };
    let diff: i16 = a as i16 - m as i16 - bin;
    let sa: i16 = if a < 128 { a as i16 } else { a as i16 - 256 };
    let sm: i16 = if m < 128 { m as i16 } else { m as i16 - 256 };
    let sdiff: i16 = sa - sm - bin;
    ArithResult {
        value: ((diff + 256) % 256) as u8,
        carry: diff >= 0,
        overflow: !(-128 <= sdiff && sdiff <= 127),
    }
}

/// Subtraction with borrow is addition of the complemented operand: for every
/// accumulator, operand and carry, `SBC m` gives what `ADC !m` gives.
pub proof fn lemma_sbc_is_adc_of_complement(a: u8, m: u8, c: bool)
    ensures
        spec_sbc(a, m, c) == spec_adc(a, (255 - m) as u8, c),
{
}

/// The outcome of a comparison `r - m` (`CMP`, `CPX`, `CPY`).
#[derive(Clone, Copy, PartialEq, Eq, Structural, Debug)]
pub struct CompareResult {
    pub carry: bool,
    pub zero: bool,
    pub neg: bool,
}

pub open spec fn spec_compare(r: u8, m: u8) -> CompareResult {
    let diff = ((r as int - m as int + 256) % 256) as u8;
    CompareResult { carry: r >= m, zero: r == m, neg: diff >= 128 }
}

pub fn compare(r: u8, m: u8) -> (res: CompareResult)
    ensures
        res == spec_compare(r, m),
{
    let diff: u8 = r.wrapping_sub(m);
    CompareResult { carry: r >= m, zero: r == m, neg: diff >= 128 }
}

/// Shift left by one: the result and the bit shifted out (`ASL`, `ROL`).
pub open spec fn spec_shl(v: u8, bit0: bool) -> u8 {
    ((v as int * 2) % 256 + carry_in(bit0)) as u8
}

/// Shift right by one: the result with `bit7` shifted in (`LSR`, `ROR`).
pub open spec fn spec_shr(v: u8, bit7: bool) -> u8 {
    (v as int / 2 + 128 * carry_in(bit7)) as u8
}

pub fn shl(v: u8, bit0: bool) -> (r: u8)
    ensures
        r == spec_shl(v, bit0),
{
    let low: u8 = if v >= 128 { v - 128 } else { v };
    low * 2 + if bit0 { 1 } else { 0 }
}

pub fn shr(v: u8, bit7: bool) -> (r: u8)
    ensures
        r == spec_shr(v, bit7),
{
    v / 2 + if bit7 { 128 } else { 0 }
}

/// A rotation left through the carry is undone by a rotation right through
/// the carry: `ROR` after `ROL` gives back the byte and the carry.
pub proof fn lemma_rotate_roundtrip(v: u8, c: bool)
    ensures
        spec_shr(spec_shl(v, c), v >= 128) == v,
        (spec_shl(v, c) % 2 == 1) == c,
        spec_shl(spec_shr(v, c), v % 2 == 1) == v,
        (spec_shr(v, c) >= 128) == c,
{
}

} // verus!
