//! Little-endian integers in byte strings, as the x86-64 machine lays them
//! out in memory and in the files it writes.

use vstd::prelude::*;

verus! {

/// The 16-bit little-endian integer at `off`.
pub open spec fn spec_le16(s: Seq<u8>, off: int) -> nat {
    (s[off] + s[off + 1] * 0x100) as nat
}

/// The 32-bit little-endian integer at `off`.
pub open spec fn spec_le32(s: Seq<u8>, off: int) -> nat {
    (spec_le16(s, off) + spec_le16(s, off + 2) * 0x10000) as nat
}

/// The 64-bit little-endian integer at `off`.
pub open spec fn spec_le64(s: Seq<u8>, off: int) -> nat {
    (spec_le32(s, off) + spec_le32(s, off + 4) * 0x1_0000_0000) as nat
}

/// The eight bytes of `v`, least significant first.
pub open spec fn spec_le64_bytes(v: u64) -> Seq<u8> {
    seq![
        (v % 0x100) as u8,
        ((v / 0x100) % 0x100) as u8,
        ((v / 0x1_0000) % 0x100) as u8,
        ((v / 0x100_0000) % 0x100) as u8,
        ((v / 0x1_0000_0000) % 0x100) as u8,
        ((v / 0x100_0000_0000) % 0x100) as u8,
        ((v / 0x1_0000_0000_0000) % 0x100) as u8,
        ((v / 0x100_0000_0000_0000) % 0x100) as u8,
    ]
}

pub fn read_le16(buf: &[u8], off: usize) -> (r: u16)
    requires
        off + 2 <= buf@.len(),
    ensures
        r == spec_le16(buf@, off as int),
{
    buf[off] as u16 + buf[off + 1] as u16 * 0x100
}

pub fn read_le32(buf: &[u8], off: usize) -> (r: u32)
    requires
        off + 4 <= buf@.len(),
    ensures
        r == spec_le32(buf@, off as int),
{
    let _len = buf.len();
    let lo = read_le16(buf, off);
    let hi = read_le16(buf, off + 2);
    lo as u32 + hi as u32 * 0x10000
}

pub fn read_le64(buf: &[u8], off: usize) -> (r: u64)
    requires
        off + 8 <= buf@.len(),
    ensures
        r == spec_le64(buf@, off as int),
{
    let _len = buf.len();
    let lo = read_le32(buf, off);
    let hi = read_le32(buf, off + 4);
    lo as u64 + hi as u64 * 0x1_0000_0000
}

/// Appends the eight bytes of `v`, least significant first.
pub fn push_le64(out: &mut Vec<u8>, v: u64)
    ensures
        final(out)@ == old(out)@ + spec_le64_bytes(v),
{
    out.push((v % 0x100) as u8);
    out.push(((v / 0x100) % 0x100) as u8);
    out.push(((v / 0x1_0000) % 0x100) as u8);
    out.push(((v / 0x100_0000) % 0x100) as u8);
    out.push(((v / 0x1_0000_0000) % 0x100) as u8);
    out.push(((v / 0x100_0000_0000) % 0x100) as u8);
    out.push(((v / 0x1_0000_0000_0000) % 0x100) as u8);
    out.push(((v / 0x100_0000_0000_0000) % 0x100) as u8);
    assert(final(out)@ =~= old(out)@ + spec_le64_bytes(v));
}

/// Reading back the eight bytes of `v` gives `v`.
pub proof fn lemma_le64_roundtrip(v: u64)
    ensures
        spec_le64(spec_le64_bytes(v), 0) == v,
{
    let b = spec_le64_bytes(v);
    assert(v == (v % 0x100) + ((v / 0x100) % 0x100) * 0x100 + ((v / 0x1_0000) % 0x100) * 0x1_0000
        + ((v / 0x100_0000) % 0x100) * 0x100_0000 + ((v / 0x1_0000_0000) % 0x100) * 0x1_0000_0000
        + ((v / 0x100_0000_0000) % 0x100) * 0x100_0000_0000 + ((v / 0x1_0000_0000_0000) % 0x100) * 0x1_0000_0000_0000
        + ((v / 0x100_0000_0000_0000) % 0x100) * 0x100_0000_0000_0000) by (bit_vector);
}

} // verus!
