//! Numbers as ASCII text, for the screens that show them.

use vstd::prelude::*;

use crate::logger::{spec_hex, spec_hex_digit};

verus! {

/// The decimal digits of `v`, without leading zeros ("0" for 0).
pub open spec fn spec_dec(v: nat) -> Seq<u8>
    decreases v,
{
    if v < 10 {
        seq![(0x30 + v) as u8]
    } else {
        spec_dec(v / 10).push((0x30 + v % 10) as u8)
    }
}

/// `v` in decimal, padded with zeros on the left to `width` digits.
pub open spec fn spec_dec_padded(v: nat, width: nat) -> Seq<u8> {
    let d = spec_dec(v);
    if d.len() < width { Seq::new((width - d.len()) as nat, |i: int| 0x30u8) + d } else { d }
}

/// `v` in binary, `n` digits.
pub open spec fn spec_bin(v: nat, n: nat) -> Seq<u8>
    decreases n,
{
    if n == 0 {
        Seq::empty()
    } else {
        spec_bin(v / 2, (n - 1) as nat).push((0x30 + v % 2) as u8)
    }
}

/// Appends the decimal digits of `v`.
pub fn push_dec(out: &mut Vec<u8>, v: u64)
    ensures
        final(out)@ == old(out)@ + spec_dec(v as nat),
    decreases v,
{
    if v >= 10 {
        push_dec(out, v / 10);
        out.push((0x30 + v % 10) as u8);
        assert(spec_dec(v as nat) == spec_dec((v / 10) as nat).push((0x30 + v % 10) as u8));
    } else {
        out.push((0x30 + v) as u8);
    }
}

/// Appends `v` in decimal, zero-padded to `width` digits.
pub fn push_dec_padded(out: &mut Vec<u8>, v: u64, width: usize)
    ensures
        final(out)@ == old(out)@ + spec_dec_padded(v as nat, width as nat),
{
    let mut digits: Vec<u8> = Vec::new();
    push_dec(&mut digits, v);
    assert(digits@ =~= spec_dec(v as nat));
    let ghost start = out@;
    if digits.len() < width {
        let mut k: usize = 0;
        while k < width - digits.len()
            invariant
                k <= width - digits@.len(),
                digits@.len() < width,
                out@ == start + Seq::new(k as nat, |i: int| 0x30u8),
            decreases width - digits@.len() - k,
        {
            out.push(0x30);
            k = k + 1;
            assert(out@ =~= start + Seq::new(k as nat, |i: int| 0x30u8));
        }
    }
    let ghost mid = out@;
    let mut j: usize = 0;
    while j < digits.len()
        invariant
            j <= digits@.len(),
            out@ == mid + digits@.subrange(0, j as int),
        decreases digits@.len() - j,
    {
        out.push(digits[j]);
        j = j + 1;
        assert(out@ =~= mid + digits@.subrange(0, j as int));
    }
    assert(digits@.subrange(0, digits@.len() as int) =~= digits@);
    assert(out@ =~= old(out)@ + spec_dec_padded(v as nat, width as nat));
}

/// Appends `n` upper-case hexadecimal digits of `v`.
pub fn push_hex(out: &mut Vec<u8>, v: u64, n: u32)
    ensures
        final(out)@ == old(out)@ + spec_hex(v as nat, n as nat),
    decreases n,
{
    if n > 0 {
        push_hex(out, v / 16, n - 1);
        let d = (v % 16) as u8;
        let c: u8 = if d < 10 { 0x30 + d } else { 0x41 + d - 10 };
        out.push(c);
        assert(spec_hex(v as nat, n as nat) == spec_hex((v / 16) as nat, (n - 1) as nat).push(spec_hex_digit((v % 16) as int)));
        assert(out@ =~= old(out)@ + spec_hex(v as nat, n as nat));
    } else {
        assert(out@ =~= old(out)@ + spec_hex(v as nat, n as nat));
    }
}

/// Appends `n` binary digits of `v`.
pub fn push_bin(out: &mut Vec<u8>, v: u64, n: u32)
    ensures
        final(out)@ == old(out)@ + spec_bin(v as nat, n as nat),
    decreases n,
{
    if n > 0 {
        push_bin(out, v / 2, n - 1);
        out.push((0x30 + v % 2) as u8);
        assert(out@ =~= old(out)@ + spec_bin(v as nat, n as nat));
    } else {
        assert(out@ =~= old(out)@ + spec_bin(v as nat, n as nat));
    }
}

/// Appends the bytes of `s`.
pub fn push_bytes(out: &mut Vec<u8>, s: &[u8])
    ensures
        final(out)@ == old(out)@ + s@,
{
    let mut i: usize = 0;
    while i < s.len()
        invariant
            i <= s@.len(),
            out@ == old(out)@ + s@.subrange(0, i as int),
        decreases s@.len() - i,
    {
        out.push(s[i]);
        i = i + 1;
        assert(out@ =~= old(out)@ + s@.subrange(0, i as int));
    }
    assert(s@.subrange(0, s@.len() as int) =~= s@);
}

/// "true" or "false".
pub open spec fn spec_bool_text(b: bool) -> Seq<u8> {
    if b { seq![0x74u8, 0x72, 0x75, 0x65] } else { seq![0x66u8, 0x61, 0x6C, 0x73, 0x65] }
}

pub fn push_bool(out: &mut Vec<u8>, b: bool)
    ensures
        final(out)@ == old(out)@ + spec_bool_text(b),
{
    if b {
        out.push(0x74);
        out.push(0x72);
        out.push(0x75);
        out.push(0x65);
    } else {
        out.push(0x66);
        out.push(0x61);
        out.push(0x6C);
        out.push(0x73);
        out.push(0x65);
    }
    assert(out@ =~= old(out)@ + spec_bool_text(b));
}

proof fn lemma_dec_printable(v: nat)
    ensures
        forall|i: int| 0 <= i < spec_dec(v).len() ==> 0x30 <= #[trigger] spec_dec(v)[i] <= 0x39,
        spec_dec(v).len() >= 1,
    decreases v,
{
    if v >= 10 {
        lemma_dec_printable(v / 10);
    }
}

/// Every digit of a decimal number is an ASCII digit.
pub proof fn lemma_dec_padded_printable(v: nat, width: nat)
    ensures
        forall|i: int| 0 <= i < spec_dec_padded(v, width).len() ==> 0x30 <= #[trigger] spec_dec_padded(v, width)[i] <= 0x39,
{
    lemma_dec_printable(v);
}

/// Every digit of a hexadecimal number is an ASCII digit or A-F.
pub proof fn lemma_hex_printable(v: nat, n: nat)
    ensures
        spec_hex(v, n).len() == n,
        forall|i: int| 0 <= i < n ==> 0x30 <= #[trigger] spec_hex(v, n)[i] <= 0x46,
    decreases n,
{
    if n > 0 {
        lemma_hex_printable(v / 16, (n - 1) as nat);
    }
}

/// Every digit of a binary number is 0 or 1.
pub proof fn lemma_bin_printable(v: nat, n: nat)
    ensures
        spec_bin(v, n).len() == n,
        forall|i: int| 0 <= i < n ==> 0x30 <= #[trigger] spec_bin(v, n)[i] <= 0x31,
    decreases n,
{
    if n > 0 {
        lemma_bin_printable(v / 2, (n - 1) as nat);
    }
}

} // verus!
