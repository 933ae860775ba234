//! The kernel image as the boot loader reads it: an ELF64 file whose header
//! locates the loadable segments and the relocations to apply once they are
//! in place.

use vstd::prelude::*;

use crate::bytes::{read_le16, read_le32, read_le64, spec_le16, spec_le32, spec_le64};

verus! {

broadcast use vstd::array::group_array_axioms;

pub const ELF_HEADER_SIZE: usize = 64;
pub const PROGRAM_HEADER_SIZE: usize = 56;
pub const SECTION_HEADER_SIZE: usize = 64;
pub const RELOCATION_SIZE: usize = 24;
pub const SYMBOL_SIZE: usize = 24;
pub const PT_LOAD: u16 = 1;
pub const PAGE_SIZE: u64 = 0x1000;

/// The ELF file header.
#[derive(Clone, Copy, Debug)]
pub struct ELFHeader {
    pub e_ident: [u8; 16],
    pub e_type: u16,
    pub e_machine: u16,
    pub e_version: u32,
    pub e_entry: u64,
    pub e_phoff: u64,
    pub e_shoff: u64,
    pub e_flags: u32,
    pub e_ehsize: u16,
    pub e_phentsize: u16,
    pub e_phnum: u16,
    pub e_shentsize: u16,
    pub e_shnum: u16,
    pub e_shstrndx: u16,
}

/// `h` is the header laid out at the start of `s`.
pub open spec fn header_of(h: ELFHeader, s: Seq<u8>) -> bool {
    &&& h.e_ident@ == s.subrange(0, 16)
    &&& h.e_type == spec_le16(s, 16)
    &&& h.e_machine == spec_le16(s, 18)
    &&& h.e_version == spec_le32(s, 20)
    &&& h.e_entry == spec_le64(s, 24)
    &&& h.e_phoff == spec_le64(s, 32)
    &&& h.e_shoff == spec_le64(s, 40)
    &&& h.e_flags == spec_le32(s, 48)
    &&& h.e_ehsize == spec_le16(s, 52)
    &&& h.e_phentsize == spec_le16(s, 54)
    &&& h.e_phnum == spec_le16(s, 56)
    &&& h.e_shentsize == spec_le16(s, 58)
    &&& h.e_shnum == spec_le16(s, 60)
    &&& h.e_shstrndx == spec_le16(s, 62)
}

/// The file starts with a whole header and the ELF magic number.
pub open spec fn spec_is_elf(s: Seq<u8>) -> bool {
    s.len() >= ELF_HEADER_SIZE && s[0] == 0x7F && s[1] == 0x45 && s[2] == 0x4C && s[3] == 0x46
}

/// The header of an ELF file; none for a file too short for one or without
/// the magic number.
pub fn load_elf_header(buffer: &[u8]) -> (r: Option<ELFHeader>)
    ensures
        r is Some <==> spec_is_elf(buffer@),
        r matches Some(h) ==> header_of(h, buffer@),
{
    if buffer.len() < ELF_HEADER_SIZE {
        return None;
    }
    if !(buffer[0] == 0x7F && buffer[1] == 0x45 && buffer[2] == 0x4C && buffer[3] == 0x46) {
        return None;
    }
    let mut e_ident = [0u8; 16];
    let mut i: usize = 0;
    while i < 16
        invariant
            i <= 16,
            buffer@.len() >= ELF_HEADER_SIZE,
            forall|j: int| 0 <= j < i ==> e_ident[j] == buffer@[j],
        decreases 16 - i,
    {
        e_ident[i] = buffer[i];
        i = i + 1;
    }
    assert(e_ident@ =~= buffer@.subrange(0, 16));
    Some(ELFHeader {
        e_ident,
        e_type: read_le16(buffer, 16),
        e_machine: read_le16(buffer, 18),
        e_version: read_le32(buffer, 20),
        e_entry: read_le64(buffer, 24),
        e_phoff: read_le64(buffer, 32),
        e_shoff: read_le64(buffer, 40),
        e_flags: read_le32(buffer, 48),
        e_ehsize: read_le16(buffer, 52),
        e_phentsize: read_le16(buffer, 54),
        e_phnum: read_le16(buffer, 56),
        e_shentsize: read_le16(buffer, 58),
        e_shnum: read_le16(buffer, 60),
        e_shstrndx: read_le16(buffer, 62),
    })
}

/// A loadable segment: `size` bytes of the file from `offset`, copied to
/// `vaddr`.
#[derive(Clone, Copy, PartialEq, Eq, Structural, Debug)]
pub struct LoadSegment {
    pub offset: u64,
    pub vaddr: u64,
    pub size: u64,
}

/// Where the kernel goes: `page_num` pages from `start_addr`, and the
/// segments to copy there, in file order.
pub struct LoadPlan {
    pub start_addr: u64,
    pub page_num: u64,
    pub segments: Vec<LoadSegment>,
}

/// Where program header `idx` lies in the file.
pub open spec fn ph_entry_off(h: ELFHeader, idx: int) -> int {
    h.e_phoff + h.e_phentsize * idx
}

/// The loadable segments among the first `n` program headers (type
/// `PT_LOAD`, read from the low half of the type word); none when one of
/// those headers lies past the end of the file.
pub open spec fn spec_loads(s: Seq<u8>, h: ELFHeader, n: nat) -> Option<Seq<LoadSegment>>
    decreases n,
{
    if n == 0 {
        Some(Seq::empty())
    } else {
        match spec_loads(s, h, (n - 1) as nat) {
            None => None,
            Some(l) => {
                let off = ph_entry_off(h, n - 1);
                if off + PROGRAM_HEADER_SIZE > s.len() {
                    None
                } else if spec_le16(s, off) == PT_LOAD {
                    Some(l.push(LoadSegment {
                        offset: spec_le64(s, off + 8) as u64,
                        vaddr: spec_le64(s, off + 16) as u64,
                        size: spec_le64(s, off + 40) as u64,
                    }))
                } else {
                    Some(l)
                }
            },
        }
    }
}

/// The lowest address of the segments (`u64::MAX` for none).
pub open spec fn spec_min_vaddr(l: Seq<LoadSegment>) -> nat
    decreases l.len(),
{
    if l.len() == 0 {
        u64::MAX as nat
    } else {
        let m = spec_min_vaddr(l.drop_last());
        if l.last().vaddr < m { l.last().vaddr as nat } else { m }
    }
}

/// The end of the highest segment (0 for none).
pub open spec fn spec_max_end(l: Seq<LoadSegment>) -> nat
    decreases l.len(),
{
    if l.len() == 0 {
        0
    } else {
        let m = spec_max_end(l.drop_last());
        let e = (l.last().vaddr + l.last().size) as nat;
        if e > m { e } else { m }
    }
}

/// How the kernel is loaded: the pages from the one holding the lowest
/// segment start up to the one holding the highest segment end, and each
/// loadable segment copied whole. None when a program header lies outside
/// the file, there is no loadable segment, the pages end past the 64-bit
/// address space, or a segment's bytes lie outside the file.
pub open spec fn spec_load_plan(s: Seq<u8>, h: ELFHeader) -> Option<(u64, u64, Seq<LoadSegment>)> {
    match spec_loads(s, h, h.e_phnum as nat) {
        None => None,
        Some(l) => {
            if l.len() == 0 || spec_max_end(l) + 0xFFF > u64::MAX || exists|i: int|
                0 <= i < l.len() && #[trigger] l[i].offset + l[i].size > s.len() {
                None
            } else {
                let start = spec_min_vaddr(l) - spec_min_vaddr(l) % 0x1000;
                Some((start as u64, ((spec_max_end(l) + 0xFFF) / 0x1000 - start / 0x1000) as u64, l))
            }
        },
    }
}

proof fn lemma_loads_none(s: Seq<u8>, h: ELFHeader, i: nat, n: nat)
    requires
        i <= n,
        spec_loads(s, h, i) is None,
    ensures
        spec_loads(s, h, n) is None,
    decreases n,
{
    if n > i {
        lemma_loads_none(s, h, i, (n - 1) as nat);
    }
}

proof fn lemma_min_vaddr_bound(l: Seq<LoadSegment>)
    ensures
        spec_min_vaddr(l) <= u64::MAX,
        spec_max_end(l) >= 0,
    decreases l.len(),
{
    if l.len() > 0 {
        lemma_min_vaddr_bound(l.drop_last());
    }
}

/// `base + size * idx`, the offset of entry `idx` of a table.
fn entry_offset(base: u64, size: u16, idx: u16) -> (r: u128)
    ensures
        r == base + size * idx,
        r < 0x2_0000_0000_0000_0000,
{
    assert(size * idx <= 0xFFFF * 0xFFFF) by (nonlinear_arith)
        requires size <= 0xFFFF, idx <= 0xFFFF;
    base as u128 + size as u128 * idx as u128
}

/// Reads the program headers and plans the loading (see `spec_load_plan`).
pub fn extract_elf_program(buffer: &[u8], elf_header: &ELFHeader) -> (r: Option<LoadPlan>)
    ensures
        match spec_load_plan(buffer@, *elf_header) {
            None => r is None,
            Some((start, pages, l)) => r matches Some(p) && p.start_addr == start && p.page_num == pages && p.segments@ == l,
        },
{
    let len = buffer.len();
    let h = elf_header;
    let mut segments: Vec<LoadSegment> = Vec::new();
    let mut ml_addr: u64 = u64::MAX;
    let mut ms_end: u128 = 0;
    let mut idx: u16 = 0;
    while idx < h.e_phnum
        invariant
            idx <= h.e_phnum,
            h == elf_header,
            len == buffer@.len(),
            spec_loads(buffer@, *h, idx as nat) == Some(segments@),
            ml_addr == spec_min_vaddr(segments@),
            ms_end == spec_max_end(segments@),
            ms_end <= 2 * (u64::MAX as int),
        decreases h.e_phnum - idx,
    {
        let off: u128 = entry_offset(h.e_phoff, h.e_phentsize, idx);
        if off + PROGRAM_HEADER_SIZE as u128 > len as u128 {
            proof {
                lemma_loads_none(buffer@, *h, (idx + 1) as nat, h.e_phnum as nat);
            }
            return None;
        }
        let o = off as usize;
        let p_type = read_le16(buffer, o);
        if p_type == PT_LOAD {
            let seg = LoadSegment { offset: read_le64(buffer, o + 8), vaddr: read_le64(buffer, o + 16), size: read_le64(buffer, o + 40) };
            let ghost prev = segments@;
            segments.push(seg);
            assert(segments@.drop_last() =~= prev);
            if seg.vaddr < ml_addr {
                ml_addr = seg.vaddr;
            }
            let end: u128 = seg.vaddr as u128 + seg.size as u128;
            if end > ms_end {
                ms_end = end;
            }
        }
        idx = idx + 1;
    }
    proof {
        lemma_min_vaddr_bound(segments@);
    }
    if segments.len() == 0 || ms_end + 0xFFF > u64::MAX as u128 {
        return None;
    }
    let mut k: usize = 0;
    while k < segments.len()
        invariant
            k <= segments@.len(),
            len == buffer@.len(),
            spec_loads(buffer@, *elf_header, elf_header.e_phnum as nat) == Some(segments@),
            forall|j: int| 0 <= j < k ==> segments@[j].offset + segments@[j].size <= len,
        decreases segments@.len() - k,
    {
        let seg = segments[k];
        if seg.offset as u128 + seg.size as u128 > len as u128 {
            assert(segments@[k as int].offset + segments@[k as int].size > buffer@.len());
            return None;
        }
        k = k + 1;
    }
    let start_addr = ml_addr - ml_addr % 0x1000;
    let end_page = ((ms_end + 0xFFF) / 0x1000) as u64;
    let page_num = end_page - start_addr / 0x1000;
    Some(LoadPlan { start_addr, page_num, segments })
}

/// Where section header `idx` lies in the file.
pub open spec fn sh_entry_off(h: ELFHeader, idx: int) -> int {
    h.e_shoff + h.e_shentsize * idx
}

/// The NUL-terminated name at `pos` is `name` (which holds no NUL); false
/// when the file ends before the name's terminator.
pub open spec fn spec_name_is(s: Seq<u8>, pos: int, name: Seq<u8>) -> bool {
    &&& 0 <= pos
    &&& pos + name.len() < s.len()
    &&& forall|i: int| 0 <= i < name.len() ==> s[pos + i] != 0 && #[trigger] s[pos + i] == name[i]
    &&& s[pos + name.len()] == 0
}

/// Compares the NUL-terminated name at `pos` of the file with `name2` (see
/// `spec_name_is`).
pub fn compare_section_name(buffer: &[u8], pos: u128, name2: &[u8]) -> (r: bool)
    ensures
        r == spec_name_is(buffer@, pos as int, name2@),
{
    let len = buffer.len();
    if pos >= len as u128 || pos + name2.len() as u128 >= len as u128 {
        return false;
    }
    let p = pos as usize;
    let mut i: usize = 0;
    while i < name2.len()
        invariant
            i <= name2@.len(),
            p == pos,
            len == buffer@.len(),
            p + name2@.len() < buffer@.len(),
            forall|j: int| 0 <= j < i ==> buffer@[p + j] != 0 && #[trigger] buffer@[p + j] == name2@[j],
        decreases name2@.len() - i,
    {
        let b = buffer[p + i];
        if b == 0 || b != name2[i] {
            return false;
        }
        i = i + 1;
    }
    buffer[p + name2.len()] == 0
}

pub open spec fn spec_rela_dyn() -> Seq<u8> {
    seq![0x2Eu8, 0x72, 0x65, 0x6C, 0x61, 0x2E, 0x64, 0x79, 0x6E]
}

pub open spec fn spec_rela_plt() -> Seq<u8> {
    seq![0x2Eu8, 0x72, 0x65, 0x6C, 0x61, 0x2E, 0x70, 0x6C, 0x74]
}

pub open spec fn spec_dynsym() -> Seq<u8> {
    seq![0x2Eu8, 0x64, 0x79, 0x6E, 0x73, 0x79, 0x6D]
}

/// What the first `n` sections give: the `.rela.dyn` and `.rela.plt`
/// tables (file offset and number of entries) and the `.dynsym` table's
/// offset, the last section of each name winning; names are read from
/// `names`. None when a section header lies past the end of the file.
pub open spec fn spec_sections(s: Seq<u8>, h: ELFHeader, names: int, n: nat)
    -> Option<(Option<(u64, u64)>, Option<(u64, u64)>, Option<u64>)>
    decreases n,
{
    if n == 0 {
        Some((None, None, None))
    } else {
        match spec_sections(s, h, names, (n - 1) as nat) {
            None => None,
            Some((d, p, y)) => {
                let off = sh_entry_off(h, n - 1);
                if off + SECTION_HEADER_SIZE > s.len() {
                    None
                } else {
                    let pos = names + spec_le32(s, off);
                    let table = (spec_le64(s, off + 24) as u64, (spec_le64(s, off + 32) / RELOCATION_SIZE as nat) as u64);
                    if spec_name_is(s, pos, spec_rela_dyn()) {
                        Some((Some(table), p, y))
                    } else if spec_name_is(s, pos, spec_rela_plt()) {
                        Some((d, Some(table), y))
                    } else if spec_name_is(s, pos, spec_dynsym()) {
                        Some((d, p, Some(table.0)))
                    } else {
                        Some((d, p, y))
                    }
                }
            },
        }
    }
}

/// The writes of the first `count` relocations of the table at `off`: at
/// each one's offset, the value of its symbol (the high half of its info
/// word indexes the symbol table at `symbols`). None when an entry or a
/// symbol lies past the end of the file.
pub open spec fn spec_relocs(s: Seq<u8>, off: int, count: nat, symbols: int) -> Option<Seq<(u64, u64)>>
    decreases count,
{
    if count == 0 {
        Some(Seq::empty())
    } else {
        match spec_relocs(s, off, (count - 1) as nat, symbols) {
            None => None,
            Some(w) => {
                let e = off + RELOCATION_SIZE * (count - 1);
                if e + RELOCATION_SIZE > s.len() {
                    None
                } else {
                    let sym = symbols + SYMBOL_SIZE * (spec_le64(s, e + 8) / 0x1_0000_0000);
                    if sym + SYMBOL_SIZE > s.len() {
                        None
                    } else {
                        Some(w.push((spec_le64(s, e) as u64, spec_le64(s, sym + 8) as u64)))
                    }
                }
            },
        }
    }
}

pub open spec fn spec_table_relocs(s: Seq<u8>, t: Option<(u64, u64)>, symbols: int) -> Option<Seq<(u64, u64)>> {
    match t {
        None => Some(Seq::empty()),
        Some((off, count)) => spec_relocs(s, off as int, count as nat, symbols),
    }
}

/// The writes that resolve the global offset table: those of `.rela.dyn`,
/// then those of `.rela.plt`; none to do without `.dynsym`. None when a
/// header, entry or symbol they need lies past the end of the file.
pub open spec fn spec_got_writes(s: Seq<u8>, h: ELFHeader) -> Option<Seq<(u64, u64)>> {
    let so = sh_entry_off(h, h.e_shstrndx as int);
    if so + SECTION_HEADER_SIZE > s.len() {
        None
    } else {
        match spec_sections(s, h, spec_le64(s, so + 24) as int, h.e_shnum as nat) {
            None => None,
            Some((d, p, y)) => match y {
                None => Some(Seq::empty()),
                Some(b) => match (spec_table_relocs(s, d, b as int), spec_table_relocs(s, p, b as int)) {
                    (Some(a), Some(c)) => Some(a + c),
                    _ => None,
                },
            },
        }
    }
}

proof fn lemma_sections_none(s: Seq<u8>, h: ELFHeader, names: int, i: nat, n: nat)
    requires
        i <= n,
        spec_sections(s, h, names, i) is None,
    ensures
        spec_sections(s, h, names, n) is None,
    decreases n,
{
    if n > i {
        lemma_sections_none(s, h, names, i, (n - 1) as nat);
    }
}

proof fn lemma_relocs_none(s: Seq<u8>, off: int, i: nat, n: nat, symbols: int)
    requires
        i <= n,
        spec_relocs(s, off, i, symbols) is None,
    ensures
        spec_relocs(s, off, n, symbols) is None,
    decreases n,
{
    if n > i {
        lemma_relocs_none(s, off, i, (n - 1) as nat, symbols);
    }
}

/// Appends the writes of a relocation table (see `spec_relocs`); false when
/// an entry or a symbol lies past the end of the file.
fn push_relocs(buffer: &[u8], off: u64, count: u64, symbols: u64, out: &mut Vec<(u64, u64)>) -> (ok: bool)
    ensures
        match spec_relocs(buffer@, off as int, count as nat, symbols as int) {
            None => !ok,
            Some(w) => ok && final(out)@ == old(out)@ + w,
        },
{
    let len = buffer.len();
    let ghost start = out@;
    let mut k: u64 = 0;
    while k < count
        invariant
            k <= count,
            len == buffer@.len(),
            spec_relocs(buffer@, off as int, k as nat, symbols as int) matches Some(w) && out@ == start + w,
        decreases count - k,
    {
        let e: u128 = off as u128 + RELOCATION_SIZE as u128 * k as u128;
        if e + RELOCATION_SIZE as u128 > len as u128 {
            proof {
                lemma_relocs_none(buffer@, off as int, (k + 1) as nat, count as nat, symbols as int);
            }
            return false;
        }
        let eo = e as usize;
        let r_offset = read_le64(buffer, eo);
        let r_info = read_le64(buffer, eo + 8);
        let index = r_info >> 32;
        assert(r_info >> 32 == r_info / 0x1_0000_0000) by (bit_vector);
        let sym: u128 = symbols as u128 + SYMBOL_SIZE as u128 * index as u128;
        if sym + SYMBOL_SIZE as u128 > len as u128 {
            proof {
                lemma_relocs_none(buffer@, off as int, (k + 1) as nat, count as nat, symbols as int);
            }
            return false;
        }
        let value = read_le64(buffer, sym as usize + 8);
        let ghost w = spec_relocs(buffer@, off as int, k as nat, symbols as int)->Some_0;
        out.push((r_offset, value));
        assert(out@ =~= start + w.push((r_offset, value)));
        k = k + 1;
    }
    true
}

/// The writes that resolve the global offset table, in order (see
/// `spec_got_writes`): the boot loader stores each value at its address.
pub fn resolve_global_offset_table(buffer: &[u8], elf_header: &ELFHeader) -> (r: Option<Vec<(u64, u64)>>)
    ensures
        match spec_got_writes(buffer@, *elf_header) {
            None => r is None,
            Some(w) => r matches Some(v) && v@ == w,
        },
{
    let len = buffer.len();
    let h = elf_header;
    let so: u128 = entry_offset(h.e_shoff, h.e_shentsize, h.e_shstrndx);
    if so + SECTION_HEADER_SIZE as u128 > len as u128 {
        return None;
    }
    let names = read_le64(buffer, so as usize + 24);
    let rela_dyn_name: [u8; 9] = [0x2E, 0x72, 0x65, 0x6C, 0x61, 0x2E, 0x64, 0x79, 0x6E];
    let rela_plt_name: [u8; 9] = [0x2E, 0x72, 0x65, 0x6C, 0x61, 0x2E, 0x70, 0x6C, 0x74];
    let dynsym_name: [u8; 7] = [0x2E, 0x64, 0x79, 0x6E, 0x73, 0x79, 0x6D];
    assert(rela_dyn_name@ =~= spec_rela_dyn());
    assert(rela_plt_name@ =~= spec_rela_plt());
    assert(dynsym_name@ =~= spec_dynsym());
    let mut rela_dyn: Option<(u64, u64)> = None;
    let mut rela_plt: Option<(u64, u64)> = None;
    let mut symbols: Option<u64> = None;
    let mut idx: u16 = 0;
    while idx < h.e_shnum
        invariant
            idx <= h.e_shnum,
            h == elf_header,
            so + SECTION_HEADER_SIZE <= len,
            so == sh_entry_off(*h, h.e_shstrndx as int),
            names == spec_le64(buffer@, so + 24),
            len == buffer@.len(),
            rela_dyn_name@ == spec_rela_dyn(),
            rela_plt_name@ == spec_rela_plt(),
            dynsym_name@ == spec_dynsym(),
            spec_sections(buffer@, *h, names as int, idx as nat) == Some((rela_dyn, rela_plt, symbols)),
        decreases h.e_shnum - idx,
    {
        let off: u128 = entry_offset(h.e_shoff, h.e_shentsize, idx);
        if off + SECTION_HEADER_SIZE as u128 > len as u128 {
            proof {
                lemma_sections_none(buffer@, *h, names as int, (idx + 1) as nat, h.e_shnum as nat);
            }
            return None;
        }
        let o = off as usize;
        let pos: u128 = names as u128 + read_le32(buffer, o) as u128;
        let table = (read_le64(buffer, o + 24), read_le64(buffer, o + 32) / RELOCATION_SIZE as u64);
        if compare_section_name(buffer, pos, rela_dyn_name.as_slice()) {
            rela_dyn = Some(table);
        } else if compare_section_name(buffer, pos, rela_plt_name.as_slice()) {
            rela_plt = Some(table);
        } else if compare_section_name(buffer, pos, dynsym_name.as_slice()) {
            symbols = Some(table.0);
        }
        idx = idx + 1;
    }
    let mut writes: Vec<(u64, u64)> = Vec::new();
    match symbols {
        None => Some(writes),
        Some(b) => {
            if let Some((o, c)) = rela_dyn {
                if !push_relocs(buffer, o, c, b, &mut writes) {
                    return None;
                }
            }
            assert(writes@ == spec_table_relocs(buffer@, rela_dyn, b as int)->Some_0);
            let ghost a = writes@;
            if let Some((o, c)) = rela_plt {
                if !push_relocs(buffer, o, c, b, &mut writes) {
                    return None;
                }
            }
            assert(writes@ =~= a + spec_table_relocs(buffer@, rela_plt, b as int)->Some_0);
            Some(writes)
        },
    }
}

} // verus!
