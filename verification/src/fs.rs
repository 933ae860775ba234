//! The files kept for a game: its save state and its battery-backed RAM,
//! named after the cartridge, and the layout of a save state file.

use vstd::prelude::*;

use crate::bytes::{lemma_le64_roundtrip, push_le64, read_le64, spec_le64, spec_le64_bytes};
use crate::proc::system::{CartridgeInfo, System};

verus! {

/// The extension of save state files.
pub open spec fn spec_savedata_ext() -> Seq<u8> {
    seq![0x42u8, 0x52, 0x53]
}

/// The extension of RAM files.
pub open spec fn spec_ram_ext() -> Seq<u8> {
    seq![0x42u8, 0x52, 0x52]
}

/// `name.ext`.
pub open spec fn spec_file_name(name: Seq<u8>, ext: Seq<u8>) -> Seq<u8> {
    name + seq![0x2Eu8] + ext
}

/// `name.ext`, the name of a file kept beside a cartridge.
pub fn file_name(name: &[u8], ext: &[u8]) -> (r: Vec<u8>)
    ensures
        r@ == spec_file_name(name@, ext@),
{
    let mut r: Vec<u8> = Vec::new();
    let mut i: usize = 0;
    while i < name.len()
        invariant
            i <= name@.len(),
            r@ == name@.subrange(0, i as int),
        decreases name@.len() - i,
    {
        r.push(name[i]);
        i = i + 1;
        assert(r@ =~= name@.subrange(0, i as int));
    }
    r.push(0x2E);
    let mut j: usize = 0;
    while j < ext.len()
        invariant
            j <= ext@.len(),
            r@ == name@ + seq![0x2Eu8] + ext@.subrange(0, j as int),
        decreases ext@.len() - j,
    {
        r.push(ext[j]);
        j = j + 1;
        assert(r@ =~= name@ + seq![0x2Eu8] + ext@.subrange(0, j as int));
    }
    assert(ext@.subrange(0, ext@.len() as int) =~= ext@);
    r
}

/// The save state file of the running game, `<short name>.BRS`; none when
/// no game runs.
pub fn state_file_name(sys: &System) -> (r: Option<Vec<u8>>)
    ensures
        sys.running_cartridge is None ==> r is None,
        sys.running_cartridge matches Some(c) ==> (r matches Some(n) && n@ == spec_file_name(c.short_name@, spec_savedata_ext())),
{
    match sys.running_cartridge_name() {
        Some(name) => {
            let ext: [u8; 3] = [0x42, 0x52, 0x53];
            let r = file_name(name, ext.as_slice());
            assert(ext@ =~= spec_savedata_ext());
            Some(r)
        },
        None => None,
    }
}

/// The RAM file of the running game, `<short name>.BRR`; none when no game
/// runs.
pub fn ram_file_name(sys: &System) -> (r: Option<Vec<u8>>)
    ensures
        sys.running_cartridge is None ==> r is None,
        sys.running_cartridge matches Some(c) ==> (r matches Some(n) && n@ == spec_file_name(c.short_name@, spec_ram_ext())),
{
    match sys.running_cartridge_name() {
        Some(name) => {
            let ext: [u8; 3] = [0x42, 0x52, 0x52];
            let r = file_name(name, ext.as_slice());
            assert(ext@ =~= spec_ram_ext());
            Some(r)
        },
        None => None,
    }
}

/// A segment of a save state: its length in eight little-endian bytes, then
/// its bytes.
pub open spec fn spec_segment(data: Seq<u8>) -> Seq<u8> {
    spec_le64_bytes(data.len() as u64) + data
}

/// A save state file: the CPU, PPU, cartridge and APU segments in turn.
pub open spec fn spec_state_file(cpu: Seq<u8>, ppu: Seq<u8>, cartridge: Seq<u8>, apu: Seq<u8>) -> Seq<u8> {
    spec_segment(cpu) + spec_segment(ppu) + spec_segment(cartridge) + spec_segment(apu)
}

/// The segment read at `pos`: its bytes and where the next one starts; none
/// when the file ends before its length or its bytes.
#[verifier::opaque]
pub open spec fn spec_read_segment(s: Seq<u8>, pos: int) -> Option<(Seq<u8>, int)> {
    if pos + 8 > s.len() {
        None
    } else {
        let n = spec_le64(s, pos);
        if pos + 8 + n > s.len() {
            None
        } else {
            Some((s.subrange(pos + 8, pos + 8 + n), pos + 8 + n))
        }
    }
}

/// The segments of a save state.
pub struct StateSegments {
    pub cpu: Vec<u8>,
    pub ppu: Vec<u8>,
    pub cartridge: Vec<u8>,
    /// None in a file of an older layout, which ends after the cartridge.
    pub apu: Option<Vec<u8>>,
}

/// The segments of the file `s`: the CPU, PPU and cartridge ones must be
/// whole; the file may end before the APU one's length (an older layout),
/// but not inside it. Bytes after the APU segment are not read.
pub open spec fn spec_state_segments(s: Seq<u8>) -> Option<(Seq<u8>, Seq<u8>, Seq<u8>, Option<Seq<u8>>)> {
    match spec_read_segment(s, 0) {
        None => None,
        Some((cpu, p1)) => match spec_read_segment(s, p1) {
            None => None,
            Some((ppu, p2)) => match spec_read_segment(s, p2) {
                None => None,
                Some((cart, p3)) => if p3 + 8 > s.len() {
                    Some((cpu, ppu, cart, None))
                } else {
                    match spec_read_segment(s, p3) {
                        None => None,
                        Some((apu, p4)) => Some((cpu, ppu, cart, Some(apu))),
                    }
                },
            },
        },
    }
}

fn write_segment(out: &mut Vec<u8>, data: &[u8])
    ensures
        final(out)@ == old(out)@ + spec_segment(data@),
{
    push_le64(out, data.len() as u64);
    let ghost mid = out@;
    let mut i: usize = 0;
    while i < data.len()
        invariant
            i <= data@.len(),
            out@ == mid + data@.subrange(0, i as int),
        decreases data@.len() - i,
    {
        out.push(data[i]);
        i = i + 1;
        assert(out@ =~= mid + data@.subrange(0, i as int));
    }
    assert(data@.subrange(0, data@.len() as int) =~= data@);
    assert(final(out)@ =~= old(out)@ + spec_segment(data@));
}

/// The bytes of a save state file holding the four serialised parts.
pub fn encode_state(cpu: &[u8], ppu: &[u8], cartridge: &[u8], apu: &[u8]) -> (r: Vec<u8>)
    ensures
        r@ == spec_state_file(cpu@, ppu@, cartridge@, apu@),
{
    let mut r: Vec<u8> = Vec::new();
    write_segment(&mut r, cpu);
    write_segment(&mut r, ppu);
    write_segment(&mut r, cartridge);
    write_segment(&mut r, apu);
    assert(r@ =~= spec_state_file(cpu@, ppu@, cartridge@, apu@));
    r
}

fn slice_to_vec(s: &[u8], from: usize, to: usize) -> (r: Vec<u8>)
    requires
        from <= to <= s@.len(),
    ensures
        r@ == s@.subrange(from as int, to as int),
{
    let mut r: Vec<u8> = Vec::new();
    let mut i: usize = from;
    while i < to
        invariant
            from <= i <= to,
            to <= s@.len(),
            r@ == s@.subrange(from as int, i as int),
        decreases to - i,
    {
        r.push(s[i]);
        i = i + 1;
        assert(r@ =~= s@.subrange(from as int, i as int));
    }
    r
}

fn read_segment(s: &[u8], pos: usize) -> (r: Option<(Vec<u8>, usize)>)
    requires
        pos <= s@.len(),
    ensures
        match spec_read_segment(s@, pos as int) {
            None => r is None,
            Some((d, p)) => r matches Some((v, q)) && v@ == d && q == p,
        },
        r matches Some((v, q)) ==> q <= s@.len(),
{
    proof {
        reveal(spec_read_segment);
    }
    let len = s.len();
    if len - pos < 8 {
        return None;
    }
    let n = read_le64(s, pos);
    if n > (len - pos - 8) as u64 {
        return None;
    }
    let end = pos + 8 + n as usize;
    Some((slice_to_vec(s, pos + 8, end), end))
}

/// Splits a save state file into its segments (see `spec_state_segments`);
/// `Err` when one of them is cut short.
pub fn decode_state(s: &[u8]) -> (r: Result<StateSegments, ()>)
    ensures
        match spec_state_segments(s@) {
            None => r is Err,
            Some((c, p, k, a)) => r matches Ok(seg) && seg.cpu@ == c && seg.ppu@ == p && seg.cartridge@ == k
                && match a {
                    None => seg.apu is None,
                    Some(x) => seg.apu matches Some(y) && y@ == x,
                },
        },
{
    let (cpu, p1) = match read_segment(s, 0) {
        Some(x) => x,
        None => return Err(()),
    };
    let (ppu, p2) = match read_segment(s, p1) {
        Some(x) => x,
        None => return Err(()),
    };
    let (cartridge, p3) = match read_segment(s, p2) {
        Some(x) => x,
        None => return Err(()),
    };
    if s.len() - p3 < 8 {
        return Ok(StateSegments { cpu, ppu, cartridge, apu: None });
    }
    match read_segment(s, p3) {
        Some((apu, _)) => Ok(StateSegments { cpu, ppu, cartridge, apu: Some(apu) }),
        None => Err(()),
    }
}

proof fn lemma_read_written_segment(pre: Seq<u8>, data: Seq<u8>, post: Seq<u8>)
    requires
        data.len() <= u64::MAX,
    ensures
        spec_read_segment(pre + spec_segment(data) + post, pre.len() as int)
            == Some((data, (pre.len() + 8 + data.len()) as int)),
{
    reveal(spec_read_segment);
    let s = pre + spec_segment(data) + post;
    let b = spec_le64_bytes(data.len() as u64);
    lemma_le64_roundtrip(data.len() as u64);
    let p = pre.len() as int;
    assert forall|i: int| 0 <= i < 8 implies s[p + i] == b[i] by {}
    assert(spec_le64(s, p) == spec_le64(b, 0));
    assert(s.subrange(p + 8, p + 8 + data.len()) =~= data);
}

/// A file written by `encode_state` is read back as the same four parts.
pub proof fn lemma_state_roundtrip(cpu: Seq<u8>, ppu: Seq<u8>, cartridge: Seq<u8>, apu: Seq<u8>)
    requires
        cpu.len() <= u64::MAX,
        ppu.len() <= u64::MAX,
        cartridge.len() <= u64::MAX,
        apu.len() <= u64::MAX,
    ensures
        spec_state_segments(spec_state_file(cpu, ppu, cartridge, apu)) == Some((cpu, ppu, cartridge, Some(apu))),
{
    let s1 = spec_segment(cpu);
    let s2 = spec_segment(ppu);
    let s3 = spec_segment(cartridge);
    let s4 = spec_segment(apu);
    let e = Seq::<u8>::empty();
    let f = spec_state_file(cpu, ppu, cartridge, apu);
    let p1 = (8 + cpu.len()) as int;
    let p2 = p1 + 8 + ppu.len();
    let p3 = p2 + 8 + cartridge.len();
    assert(spec_read_segment(f, 0) == Some((cpu, p1))) by {
        assert(f =~= e + s1 + (s2 + s3 + s4));
        lemma_read_written_segment(e, cpu, s2 + s3 + s4);
    }
    assert(spec_read_segment(f, p1) == Some((ppu, p2))) by {
        assert(f =~= s1 + s2 + (s3 + s4));
        lemma_read_written_segment(s1, ppu, s3 + s4);
    }
    assert(spec_read_segment(f, p2) == Some((cartridge, p3))) by {
        assert(f =~= (s1 + s2) + s3 + s4);
        lemma_read_written_segment(s1 + s2, cartridge, s4);
    }
    assert(spec_read_segment(f, p3) == Some((apu, p3 + 8 + apu.len()))) by {
        assert(f =~= (s1 + s2 + s3) + s4 + e);
        lemma_read_written_segment(s1 + s2 + s3, apu, e);
    }
    assert(f.len() == p3 + 8 + apu.len());
    reveal(spec_read_segment);
}

/// A file of the older layout, which ends after the cartridge segment, is
/// read with no APU part.
pub proof fn lemma_legacy_state(cpu: Seq<u8>, ppu: Seq<u8>, cartridge: Seq<u8>)
    requires
        cpu.len() <= u64::MAX,
        ppu.len() <= u64::MAX,
        cartridge.len() <= u64::MAX,
    ensures
        spec_state_segments(spec_segment(cpu) + spec_segment(ppu) + spec_segment(cartridge)) == Some((cpu, ppu, cartridge, None::<Seq<u8>>)),
{
    let s1 = spec_segment(cpu);
    let s2 = spec_segment(ppu);
    let s3 = spec_segment(cartridge);
    let e = Seq::<u8>::empty();
    let f = s1 + s2 + s3;
    let p1 = (8 + cpu.len()) as int;
    let p2 = p1 + 8 + ppu.len();
    let p3 = p2 + 8 + cartridge.len();
    assert(spec_read_segment(f, 0) == Some((cpu, p1))) by {
        assert(f =~= e + s1 + (s2 + s3));
        lemma_read_written_segment(e, cpu, s2 + s3);
    }
    assert(spec_read_segment(f, p1) == Some((ppu, p2))) by {
        lemma_read_written_segment(s1, ppu, s3);
    }
    assert(spec_read_segment(f, p2) == Some((cartridge, p3))) by {
        assert(f =~= (s1 + s2) + s3 + e);
        lemma_read_written_segment(s1 + s2, cartridge, e);
    }
    assert(f.len() == p3);
}

/// A cartridge file's name without its `.NES` extension; none for another
/// file.
pub open spec fn spec_cartridge_stem(name: Seq<u8>) -> Option<Seq<u8>> {
    if name.len() >= 4 && name.subrange(name.len() - 4, name.len() as int) == seq![0x2Eu8, 0x4E, 0x45, 0x53] {
        Some(name.subrange(0, name.len() - 4))
    } else {
        None
    }
}

/// The short name of a cartridge file (see `spec_cartridge_stem`).
pub fn cartridge_stem(short_file_name: &[u8]) -> (r: Option<Vec<u8>>)
    ensures
        match spec_cartridge_stem(short_file_name@) {
            None => r is None,
            Some(s) => r matches Some(v) && v@ == s,
        },
{
    let n = short_file_name.len();
    if n < 4 {
        return None;
    }
    if !(short_file_name[n - 4] == 0x2E && short_file_name[n - 3] == 0x4E && short_file_name[n - 2] == 0x45
        && short_file_name[n - 1] == 0x53) {
        proof {
            let t = short_file_name@.subrange(n - 4, n as int);
            assert(t[0] == short_file_name@[n - 4] && t[1] == short_file_name@[n - 3] && t[2] == short_file_name@[n - 2]
                && t[3] == short_file_name@[n - 1]);
        }
        return None;
    }
    assert(short_file_name@.subrange(n - 4, n as int) =~= seq![0x2Eu8, 0x4E, 0x45, 0x53]);
    let mut r: Vec<u8> = Vec::new();
    let mut i: usize = 0;
    while i < n - 4
        invariant
            n == short_file_name@.len(),
            n >= 4,
            i <= n - 4,
            r@ == short_file_name@.subrange(0, i as int),
        decreases n - 4 - i,
    {
        r.push(short_file_name[i]);
        i = i + 1;
        assert(r@ =~= short_file_name@.subrange(0, i as int));
    }
    Some(r)
}

/// What the cartridge menu lists for a file of the cartridge directory: for
/// a `.NES` file, its short name, the long name (the text file's contents
/// when there is one, else the short name), and whether a save state and a
/// RAM file exist; nothing for other files.
pub fn cartridge_info(short_file_name: &[u8], long_name: Option<Vec<u8>>, has_savedata: bool, has_ram: bool)
    -> (r: Option<CartridgeInfo>)
    ensures
        match spec_cartridge_stem(short_file_name@) {
            None => r is None,
            Some(s) => r matches Some(c) && c.short_name@ == s && c.has_savedata == has_savedata && c.has_ram == has_ram
                && c.long_name@ == (match long_name {
                    Some(l) => l@,
                    None => s,
                }),
        },
{
    match cartridge_stem(short_file_name) {
        None => None,
        Some(stem) => {
            let long = match long_name {
                Some(l) => l,
                None => {
                    let mut copy: Vec<u8> = Vec::new();
                    crate::text::push_bytes(&mut copy, stem.as_slice());
                    assert(copy@ =~= stem@);
                    copy
                },
            };
            Some(CartridgeInfo { short_name: stem, long_name: long, has_savedata, has_ram })
        },
    }
}

} // verus!
