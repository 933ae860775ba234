//! The console font: a PSF2 file of 8x16 glyphs with its Unicode table,
//! from which a byte-to-glyph index is built for the single-byte
//! characters.

use vstd::prelude::*;

verus! {

broadcast use vstd::array::group_array_axioms;

pub const FONT_WIDTH: u32 = 8;
pub const FONT_HEIGHT: u32 = 16;
/// The size of a PSF2 header.
pub const PSF_HEADER_SIZE: usize = 0x20;
/// The longest multi-byte sequence skipped in the Unicode table.
pub const MAX_SEQUENCE_LEN: usize = 0x10;

/// The header of a PSF2 font, as stored little-endian at its start.
#[derive(Clone, Copy, Debug)]
pub struct PSFHeader {
    pub magic: [u8; 4],
    pub version: u32,
    pub header_size: u32,
    pub flags: u32,
    pub num_glyph: u32,
    pub bytes_per_glyph: u32,
    pub height: u32,
    pub width: u32,
}

/// Why the Unicode table of a font could not be read.
#[derive(Clone, Copy, PartialEq, Eq, Structural, Debug)]
pub enum FontError {
    /// A multi-byte sequence runs longer than `MAX_SEQUENCE_LEN`.
    CorruptedUnicodeTable,
    /// The table runs past the end of the font.
    Truncated,
}

/// The little-endian u32 at `b[i..i + 4]`.
pub open spec fn le_u32(b: Seq<u8>, i: int) -> u32 {
    (b[i] + b[i + 1] * 0x100 + b[i + 2] * 0x10000 + b[i + 3] * 0x1000000) as u32
}

fn read_le_u32(b: &[u8], i: usize) -> (r: u32)
    requires
        i + 4 <= b@.len(),
    ensures
        r == le_u32(b@, i as int),
{
    b[i] as u32 + (b[i + 1] as u32) * 0x100 + (b[i + 2] as u32) * 0x10000 + (b[i + 3] as u32) * 0x1000000
}

/// Where the skipped multi-byte sequence starting at `current` ends: the
/// index of its 0xFF terminator, found within `MAX_SEQUENCE_LEN` bytes.
pub open spec fn spec_skip_sequence(t: Seq<u8>, current: int, count: int) -> Result<int, FontError>
    decreases MAX_SEQUENCE_LEN - count,
{
    if current >= t.len() {
        Err(FontError::Truncated)
    } else if t[current] == 0xFF {
        Ok(current)
    } else if count + 1 >= MAX_SEQUENCE_LEN {
        Err(FontError::CorruptedUnicodeTable)
    } else {
        spec_skip_sequence(t, current + 1, count + 1)
    }
}

/// The glyph index table built from the Unicode table `t` for glyphs
/// `glyph..num_glyph`, the entry for glyph `g` starting at `current`: an
/// entry that starts with 0xFF has no character; a single byte followed
/// by 0xFF maps that byte to the glyph; a longer sequence is skipped up to
/// its 0xFF.
pub open spec fn spec_index_table(t: Seq<u8>, num_glyph: int, glyph: int, current: int, table: Seq<usize>) -> Result<Seq<usize>, FontError>
    decreases num_glyph - glyph,
{
    if glyph >= num_glyph {
        Ok(table)
    } else if current + 1 >= t.len() {
        Err(FontError::Truncated)
    } else if t[current] == 0xFF {
        spec_index_table(t, num_glyph, glyph + 1, current + 1, table)
    } else if t[current + 1] != 0xFF {
        match spec_skip_sequence(t, current + 2, 0) {
            Ok(end) => spec_index_table(t, num_glyph, glyph + 1, end + 1, table),
            Err(e) => Err(e),
        }
    } else {
        spec_index_table(t, num_glyph, glyph + 1, current + 2, table.update(t[current] as int, glyph as usize))
    }
}

proof fn lemma_skip_sequence_bounds(t: Seq<u8>, current: int, count: int)
    requires
        0 <= count,
    ensures
        spec_skip_sequence(t, current, count) matches Ok(e) ==> current <= e < t.len(),
    decreases MAX_SEQUENCE_LEN - count,
{
    if current < t.len() && t[current] != 0xFF && count + 1 < MAX_SEQUENCE_LEN {
        lemma_skip_sequence_bounds(t, current + 1, count + 1);
    }
}

proof fn lemma_index_table_len(t: Seq<u8>, num_glyph: int, glyph: int, current: int, table: Seq<usize>)
    requires
        current >= 0,
        table.len() == 256,
    ensures
        spec_index_table(t, num_glyph, glyph, current, table) matches Ok(r) ==> r.len() == table.len(),
    decreases num_glyph - glyph,
{
    if glyph < num_glyph && current + 1 < t.len() {
        if t[current] == 0xFF {
            lemma_index_table_len(t, num_glyph, glyph + 1, current + 1, table);
        } else if t[current + 1] != 0xFF {
            lemma_skip_sequence_bounds(t, current + 2, 0);
            if let Ok(end) = spec_skip_sequence(t, current + 2, 0) {
                lemma_index_table_len(t, num_glyph, glyph + 1, end + 1, table);
            }
        } else {
            lemma_index_table_len(t, num_glyph, glyph + 1, current + 2, table.update(t[current] as int, glyph as usize));
        }
    }
}

/// The font and the glyph of each single-byte character (0: none).
pub struct FontManager {
    pub font: Vec<u8>,
    pub header: PSFHeader,
    pub glyph_index_table: [usize; 256],
}

impl FontManager {
    /// The header stored at the start of a font.
    pub open spec fn spec_read_header(b: Seq<u8>) -> PSFHeader {
        PSFHeader {
            magic: [b[0], b[1], b[2], b[3]],
            version: le_u32(b, 4),
            header_size: le_u32(b, 8),
            flags: le_u32(b, 12),
            num_glyph: le_u32(b, 16),
            bytes_per_glyph: le_u32(b, 20),
            height: le_u32(b, 24),
            width: le_u32(b, 28),
        }
    }

    pub fn read_header(b: &[u8]) -> (r: PSFHeader)
        requires
            b@.len() >= PSF_HEADER_SIZE,
        ensures
            r == Self::spec_read_header(b@),
    {
        PSFHeader {
            magic: [b[0], b[1], b[2], b[3]],
            version: read_le_u32(b, 4),
            header_size: read_le_u32(b, 8),
            flags: read_le_u32(b, 12),
            num_glyph: read_le_u32(b, 16),
            bytes_per_glyph: read_le_u32(b, 20),
            height: read_le_u32(b, 24),
            width: read_le_u32(b, 28),
        }
    }

    /// A PSF2 header of a font with a Unicode table and 16-byte, 8x16 glyphs.
    pub open spec fn spec_valid_header(h: PSFHeader) -> bool {
        &&& h.magic[0] == 0x72 && h.magic[1] == 0xb5 && h.magic[2] == 0x4a && h.magic[3] == 0x86
        &&& h.version == 0
        &&& h.header_size == 0x20
        &&& h.flags == 1
        &&& h.bytes_per_glyph == 0x10
        &&& h.height == 0x10
        &&& h.width == 0x8
    }

    pub fn validate_psf_header(header: &PSFHeader) -> (r: bool)
        ensures
            r == Self::spec_valid_header(*header),
    {
        header.magic[0] == 0x72 && header.magic[1] == 0xb5 && header.magic[2] == 0x4a && header.magic[3] == 0x86
            && header.version == 0 && header.header_size == 0x20 && header.flags == 1
            && header.bytes_per_glyph == 0x10 && header.height == 0x10 && header.width == 0x8
    }

    /// Where the glyphs end and the Unicode table starts.
    pub open spec fn spec_table_start(&self) -> int {
        self.header.header_size + self.header.bytes_per_glyph * self.header.num_glyph
    }

    /// The font's own header holds the geometry it is read with, and its
    /// glyphs lie within it.
    pub open spec fn wf(&self) -> bool {
        &&& self.font@.len() >= PSF_HEADER_SIZE
        &&& self.header == Self::spec_read_header(self.font@)
        &&& Self::spec_valid_header(self.header)
        &&& self.spec_table_start() <= self.font@.len()
    }

    /// A font with an empty character index.
    pub fn new(font: Vec<u8>) -> (r: Option<FontManager>)
        ensures
            r is Some <==> font@.len() >= PSF_HEADER_SIZE
                && Self::spec_valid_header(Self::spec_read_header(font@))
                && ({
                    let h = Self::spec_read_header(font@);
                    h.header_size + h.bytes_per_glyph * h.num_glyph <= font@.len()
                }),
            r matches Some(f) ==> f.wf() && f.font@ == font@ && (forall|i: int| 0 <= i < 256 ==> f.glyph_index_table[i] == 0),
    {
        if font.len() < PSF_HEADER_SIZE {
            return None;
        }
        let header = Self::read_header(font.as_slice());
        if !Self::validate_psf_header(&header) {
            return None;
        }
        let glyphs: u64 = header.num_glyph as u64 * 0x10;
        if glyphs + 0x20 > font.len() as u64 {
            return None;
        }
        Some(FontManager { font, header, glyph_index_table: [0; 256] })
    }

    /// Builds the character index from the Unicode table that follows the
    /// glyphs (see `spec_index_table`). On an error the index is unchanged.
    pub fn init_glyph_index_table(&mut self) -> (r: Result<(), FontError>)
        requires
            old(self).wf(),
        ensures
            final(self).wf(),
            final(self).font == old(self).font,
            final(self).header == old(self).header,
            ({
                let t = old(self).font@.subrange(old(self).spec_table_start(), old(self).font@.len() as int);
                match spec_index_table(t, old(self).header.num_glyph as int, 0, 0, old(self).glyph_index_table@) {
                    Ok(table) => r is Ok && final(self).glyph_index_table@ == table,
                    Err(e) => r == Err::<(), FontError>(e) && final(self).glyph_index_table == old(self).glyph_index_table,
                }
            }),
    {
        proof {
            let h = self.header;
            assert(self.wf());
            assert(h.bytes_per_glyph == 0x10);
            assert(h.bytes_per_glyph * h.num_glyph == 0x10 * h.num_glyph) by (nonlinear_arith)
                requires h.bytes_per_glyph == 0x10;
            assert(self.spec_table_start() == 0x20 + 0x10 * h.num_glyph);
            assert(0x20 + 0x10 * h.num_glyph <= self.font@.len());
        }
        let _n = self.font.len();
        let start: usize = 0x20 + 0x10 * self.header.num_glyph as usize;
        let t = vstd::slice::slice_subrange(self.font.as_slice(), start, self.font.len());
        let ghost t0 = t@;
        let tl = t.len();
        let num = self.header.num_glyph;
        let mut table = self.glyph_index_table;
        let mut glyph: u32 = 0;
        let mut current: usize = 0;
        proof {
            lemma_index_table_len(t0, num as int, 0, 0, table@);
        }
        while glyph < num
            invariant
                t@ == t0,
                tl == t0.len(),
                *self == *old(self),
                self.wf(),
                table@.len() == 256,
                num == self.header.num_glyph,
                t0 == self.font@.subrange(self.spec_table_start(), self.font@.len() as int),
                glyph <= num,
                current <= t0.len(),
                spec_index_table(t0, num as int, 0, 0, self.glyph_index_table@)
                    == spec_index_table(t0, num as int, glyph as int, current as int, table@),
            decreases num - glyph,
        {
            if t.len() - current < 2 {
                return Err(FontError::Truncated);
            }
            let first = t[current];
            let next = t[current + 1];
            if first == 0xFF {
                glyph = glyph + 1;
                current = current + 1;
            } else if next != 0xFF {
                let mut pos = current + 2;
                let mut count: usize = 0;
                proof {
                    lemma_skip_sequence_bounds(t0, current + 2, 0);
                }
                loop
                    invariant
                        t@ == t0,
                        tl == t0.len(),
                        *self == *old(self),
                        self.wf(),
                        current + 2 <= t0.len(),
                        glyph < num,
                        num == self.header.num_glyph,
                        t0 == self.font@.subrange(self.spec_table_start(), self.font@.len() as int),
                        t0[current as int] != 0xFF,
                        t0[current + 1] != 0xFF,
                        spec_index_table(t0, num as int, 0, 0, self.glyph_index_table@)
                            == spec_index_table(t0, num as int, glyph as int, current as int, table@),
                        pos == current + 2 + count,
                        count < MAX_SEQUENCE_LEN,
                        spec_skip_sequence(t0, current + 2, 0) == spec_skip_sequence(t0, pos as int, count as int),
                    ensures
                        pos < t0.len(),
                        spec_skip_sequence(t0, current + 2, 0) == Ok::<int, FontError>(pos as int),
                    decreases MAX_SEQUENCE_LEN - count,
                {
                    if pos >= t.len() {
                        return Err(FontError::Truncated);
                    }
                    if t[pos] == 0xFF {
                        break;
                    }
                    if count + 1 >= MAX_SEQUENCE_LEN {
                        return Err(FontError::CorruptedUnicodeTable);
                    }
                    pos = pos + 1;
                    count = count + 1;
                }
                glyph = glyph + 1;
                current = pos + 1;
            } else {
                table[first as usize] = glyph as usize;
                glyph = glyph + 1;
                current = current + 2;
            }
        }
        self.glyph_index_table = table;
        Ok(())
    }

    /// Whether character `c` has a glyph.
    pub open spec fn spec_has_glyph(&self, c: u8) -> bool {
        let i = self.glyph_index_table[c as int];
        i != 0 && i < self.header.num_glyph
    }

    pub fn has_glyph(&self, c: u8) -> (r: bool)
        ensures
            r == self.spec_has_glyph(c),
    {
        let i = self.glyph_index_table[c as usize];
        i != 0 && i < self.header.num_glyph as usize
    }

    /// The 16 bytes of glyph `index`, one per row, the leftmost pixel in bit 7.
    pub open spec fn spec_glyph(&self, index: int) -> Seq<u8> {
        let off = self.header.header_size + self.header.bytes_per_glyph * index;
        self.font@.subrange(off, off + 16)
    }

    pub fn get_glyph(&self, index: usize) -> (r: &[u8])
        requires
            self.wf(),
            index < self.header.num_glyph,
        ensures
            r@ == self.spec_glyph(index as int),
    {
        proof {
            let h = self.header;
            assert(0x10 * index + 0x10 <= 0x10 * h.num_glyph) by (nonlinear_arith)
                requires index < h.num_glyph;
            assert(h.bytes_per_glyph * h.num_glyph == 0x10 * h.num_glyph) by (nonlinear_arith)
                requires h.bytes_per_glyph == 0x10;
            assert(h.bytes_per_glyph * index == 0x10 * index) by (nonlinear_arith)
                requires h.bytes_per_glyph == 0x10;
        }
        let _n = self.font.len();
        let off: usize = 0x20 + 0x10 * index;
        vstd::slice::slice_subrange(self.font.as_slice(), off, off + 16)
    }

    /// The glyph of character `c`.
    pub fn get_glyph_by_char(&self, c: u8) -> (r: &[u8])
        requires
            self.wf(),
            self.spec_has_glyph(c),
        ensures
            r@ == self.spec_glyph(self.glyph_index_table[c as int] as int),
    {
        let index = self.glyph_index_table[c as usize];
        self.get_glyph(index)
    }
}

} // verus!
