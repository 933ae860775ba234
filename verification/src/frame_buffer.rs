//! An off-screen frame buffer of "chunks": each logical pixel is
//! `chunk_size` physical pixels wide, so that a line can be copied to the
//! screen in one go. Lines that changed are marked dirty.

use vstd::prelude::*;

use crate::font::{FontManager, FONT_HEIGHT, FONT_WIDTH};

verus! {

pub type PixelColor = u32;

pub const COLOR_BLACK: PixelColor = 0;

/// The byte order of the screen's pixels.
#[derive(Clone, Copy, PartialEq, Eq, Structural, Debug)]
pub enum PixelColorMode {
    Rgb,
    Bgr,
}

pub struct FrameBuffer {
    pub offset_x: usize,
    pub offset_y: usize,
    pub width: usize,
    pub height: usize,
    /// `width * chunk_size` physical pixels per line, `height` lines.
    pub buffer: Vec<PixelColor>,
    /// Whether each line changed since it was last copied to the screen.
    pub dirty: Vec<bool>,
    pub chunk_size: usize,
    pub mode: PixelColorMode,
}

/// The pixels and dirty flags after `set_chunk(x, y, color)` on a buffer
/// whose lines are `pw` pixels wide and chunks `cs` pixels wide: if the
/// chunk's first pixel already has the colour nothing changes; otherwise
/// the whole chunk takes the colour and the line becomes dirty.
pub open spec fn spec_set_chunk(v: (Seq<PixelColor>, Seq<bool>), pw: int, cs: int, x: int, y: int, color: PixelColor) -> (Seq<PixelColor>, Seq<bool>) {
    let start = y * pw + x * cs;
    if v.0[start] != color {
        (Seq::new(v.0.len(), |i: int| if start <= i < start + cs { color } else { v.0[i] }), v.1.update(y, true))
    } else {
        v
    }
}

/// `set_chunk` on chunks x..x_end of line y, left to right.
pub open spec fn spec_fill_line(v: (Seq<PixelColor>, Seq<bool>), pw: int, cs: int, x: int, x_end: int, y: int, color: PixelColor) -> (Seq<PixelColor>, Seq<bool>)
    decreases x_end - x,
{
    if x < x_end {
        spec_fill_line(spec_set_chunk(v, pw, cs, x, y, color), pw, cs, x + 1, x_end, y, color)
    } else {
        v
    }
}

/// `set_chunk` on chunks x..x_end of lines y..y_end, line by line.
pub open spec fn spec_fill_rect(v: (Seq<PixelColor>, Seq<bool>), pw: int, cs: int, x: int, x_end: int, y: int, y_end: int, color: PixelColor) -> (Seq<PixelColor>, Seq<bool>)
    decreases y_end - y,
{
    if y < y_end {
        spec_fill_rect(spec_fill_line(v, pw, cs, x, x_end, y, color), pw, cs, x, x_end, y + 1, y_end, color)
    } else {
        v
    }
}

/// One row of a glyph: chunks x + i for i in i..8 take `color` where bit
/// 7 - i of `bits` is set and `background` elsewhere.
pub open spec fn spec_glyph_line(v: (Seq<PixelColor>, Seq<bool>), pw: int, cs: int, x: int, y: int, bits: u8, i: int, color: PixelColor, background: PixelColor) -> (Seq<PixelColor>, Seq<bool>)
    decreases 8 - i,
{
    if i < 8 {
        let c = if (bits >> ((7 - i) as u8)) & 1 == 1 { color } else { background };
        spec_glyph_line(spec_set_chunk(v, pw, cs, x + i, y, c), pw, cs, x, y, bits, i + 1, color, background)
    } else {
        v
    }
}

/// Rows `row..` of a glyph (at most 16) drawn with its top-left chunk at (x, y).
pub open spec fn spec_glyph_rows(v: (Seq<PixelColor>, Seq<bool>), pw: int, cs: int, x: int, y: int, glyph: Seq<u8>, row: int, color: PixelColor, background: PixelColor) -> (Seq<PixelColor>, Seq<bool>)
    decreases glyph.len() - row,
{
    if row < glyph.len() && row < FONT_HEIGHT {
        spec_glyph_rows(spec_glyph_line(v, pw, cs, x, y + row, glyph[row], 0, color, background), pw, cs, x, y, glyph, row + 1, color, background)
    } else {
        v
    }
}

/// The characters `text[i..]`, each glyph 8 chunks right of the one before.
pub open spec fn spec_text(v: (Seq<PixelColor>, Seq<bool>), pw: int, cs: int, x: int, y: int, text: Seq<u8>, i: int, font: FontManager, color: PixelColor, background: PixelColor) -> (Seq<PixelColor>, Seq<bool>)
    decreases text.len() - i,
{
    if 0 <= i < text.len() {
        let glyph = font.spec_glyph(font.glyph_index_table[text[i] as int] as int);
        spec_text(spec_glyph_rows(v, pw, cs, x + i * FONT_WIDTH, y, glyph, 0, color, background), pw, cs, x, y, text, i + 1, font, color, background)
    } else {
        v
    }
}

/// The chunk (x, y) starts at y * (w * cs) + x * cs and ends within the
/// line, and so within a buffer of `h` lines.
pub proof fn lemma_chunk_in_bounds(w: int, h: int, cs: int, x: int, y: int)
    requires
        0 <= x < w,
        0 <= y < h,
        cs > 0,
    ensures
        0 <= y * (w * cs) + x * cs,
        y * (w * cs) + (x + 1) * cs <= (y + 1) * (w * cs),
        (y + 1) * (w * cs) <= h * (w * cs),
        w * cs * h == h * (w * cs),
        0 <= x * cs,
        y * (w * cs) + x * cs + cs <= w * cs * h,
{
    assert((x + 1) * cs == x * cs + cs) by (nonlinear_arith);
    assert(0 <= x * cs) by (nonlinear_arith) requires 0 <= x, cs > 0;
    assert(0 <= y * (w * cs)) by (nonlinear_arith) requires 0 <= y, w > 0, cs > 0;
    assert((x + 1) * cs <= w * cs) by (nonlinear_arith) requires x + 1 <= w, cs > 0;
    assert(y * (w * cs) + (x + 1) * cs <= (y + 1) * (w * cs)) by (nonlinear_arith)
        requires (x + 1) * cs <= w * cs;
    assert((y + 1) * (w * cs) <= h * (w * cs)) by (nonlinear_arith) requires y + 1 <= h, w > 0, cs > 0;
    assert(w * cs * h == h * (w * cs)) by (nonlinear_arith);
}

impl View for FrameBuffer {
    type V = (Seq<PixelColor>, Seq<bool>);

    open spec fn view(&self) -> (Seq<PixelColor>, Seq<bool>) {
        (self.buffer@, self.dirty@)
    }
}

impl FrameBuffer {
    pub open spec fn spec_pixel_width(&self) -> int {
        self.width * self.chunk_size
    }

    /// The buffer holds `height` lines of `width` chunks.
    pub open spec fn wf(&self) -> bool {
        &&& self.buffer@.len() == self.width * self.chunk_size * self.height
        &&& self.dirty@.len() == self.height
        &&& self.chunk_size > 0
    }

    /// The same geometry and screen placement as `other`.
    pub open spec fn same_frame(&self, other: &FrameBuffer) -> bool {
        &&& self.offset_x == other.offset_x
        &&& self.offset_y == other.offset_y
        &&& self.width == other.width
        &&& self.height == other.height
        &&& self.chunk_size == other.chunk_size
        &&& self.mode == other.mode
    }

    /// Chunk (x, y) lies within the buffer and line y exists; x may run
    /// past the line's end, into the lines below.
    pub open spec fn chunk_fits(&self, x: int, y: int) -> bool {
        &&& 0 <= x
        &&& 0 <= y < self.height
        &&& y * self.spec_pixel_width() + x * self.chunk_size + self.chunk_size <= self.buffer@.len()
    }

    /// `n` glyph columns from chunk (x, y), over `rows` lines, lie within
    /// the buffer.
    pub open spec fn block_fits(&self, x: int, y: int, n: int, rows: int) -> bool {
        rows > 0 && n > 0 ==> self.chunk_fits(x + n - 1, y + rows - 1)
    }

    /// A chunk left of and above the last chunk of a block fits too.
    pub proof fn lemma_block_chunk(&self, x: int, y: int, n: int, rows: int, i: int, r: int)
        requires
            self.wf(),
            x >= 0,
            y >= 0,
            0 <= i < n,
            0 <= r < rows,
            self.block_fits(x, y, n, rows),
        ensures
            self.chunk_fits(x + i, y + r),
    {
        let pw = self.spec_pixel_width();
        let cs = self.chunk_size as int;
        assert((y + r) * pw <= (y + rows - 1) * pw) by (nonlinear_arith) requires r <= rows - 1, pw >= 0;
        assert((x + i) * cs <= (x + n - 1) * cs) by (nonlinear_arith) requires i <= n - 1, cs >= 0;
    }

    /// A block within the lines and columns of the buffer fits.
    pub proof fn lemma_block_in_frame(&self, x: int, y: int, n: int, rows: int)
        requires
            self.wf(),
            x >= 0,
            y >= 0,
            n >= 0,
            rows >= 0,
            x + n <= self.width,
            y + rows <= self.height,
        ensures
            self.block_fits(x, y, n, rows),
    {
        if n > 0 && rows > 0 {
            lemma_chunk_in_bounds(self.width as int, self.height as int, self.chunk_size as int, x + n - 1, y + rows - 1);
        }
    }

    /// This buffer's pixels and dirty flags after `set_chunk(x, y, color)`.
    pub open spec fn after_set_chunk(&self, v: (Seq<PixelColor>, Seq<bool>), x: int, y: int, color: PixelColor) -> (Seq<PixelColor>, Seq<bool>) {
        spec_set_chunk(v, self.spec_pixel_width(), self.chunk_size as int, x, y, color)
    }

    /// A black buffer of `height` lines of `width` chunks, all lines dirty.
    pub fn new(offset_x: usize, offset_y: usize, width: usize, height: usize, chunk_size: usize, mode: PixelColorMode) -> (r: FrameBuffer)
        requires
            width * chunk_size * height <= usize::MAX,
        ensures
            r.offset_x == offset_x && r.offset_y == offset_y,
            r.width == width && r.height == height && r.chunk_size == chunk_size && r.mode == mode,
            r.buffer@ == Seq::new((width * chunk_size * height) as nat, |i: int| COLOR_BLACK),
            r.dirty@ == Seq::new(height as nat, |i: int| true),
            chunk_size > 0 ==> r.wf(),
    {
        let n: usize = if height == 0 {
            0
        } else {
            assert(width * chunk_size <= width * chunk_size * height) by (nonlinear_arith)
                requires height >= 1;
            (width * chunk_size) * height
        };
        assert(n == width * chunk_size * height) by (nonlinear_arith)
            requires height == 0 ==> n == 0, height != 0 ==> n == width * chunk_size * height;
        let buffer: Vec<PixelColor> = vec![COLOR_BLACK; n];
        let dirty: Vec<bool> = vec![true; height];
        let r = FrameBuffer { offset_x, offset_y, width, height, buffer, dirty, chunk_size, mode };
        assert(r.buffer@ =~= Seq::new((width * chunk_size * height) as nat, |i: int| COLOR_BLACK));
        assert(r.dirty@ =~= Seq::new(height as nat, |i: int| true));
        r
    }

    /// The screen's pixel value for a colour (the screen is little-endian):
    /// red in the low byte for RGB, blue in the low byte for BGR.
    pub open spec fn spec_make_color(r: u8, g: u8, b: u8, mode: PixelColorMode) -> PixelColor {
        match mode {
            PixelColorMode::Rgb => (r + g * 0x100 + b * 0x10000) as u32,
            PixelColorMode::Bgr => (b + g * 0x100 + r * 0x10000) as u32,
        }
    }

    pub fn make_color(r: u8, g: u8, b: u8, mode: PixelColorMode) -> (c: PixelColor)
        ensures
            c == Self::spec_make_color(r, g, b, mode),
    {
        match mode {
            PixelColorMode::Rgb => r as u32 + (g as u32) * 0x100 + (b as u32) * 0x10000,
            PixelColorMode::Bgr => b as u32 + (g as u32) * 0x100 + (r as u32) * 0x10000,
        }
    }

    /// Physical pixels per line.
    pub fn pixel_width(&self) -> (r: usize)
        requires
            self.width * self.chunk_size <= usize::MAX,
        ensures
            r == self.width * self.chunk_size,
    {
        self.width * self.chunk_size
    }

    /// Characters that fit on a line.
    pub fn max_text_length(&self) -> (r: usize)
        ensures
            r == self.width / FONT_WIDTH as usize,
    {
        self.width / FONT_WIDTH as usize
    }

    /// Lines of text that fit.
    pub fn max_text_lines(&self) -> (r: usize)
        ensures
            r == self.height / FONT_HEIGHT as usize,
    {
        self.height / FONT_HEIGHT as usize
    }

    /// Paints chunk (x, y); see `spec_set_chunk`.
    pub fn set_chunk(&mut self, x: usize, y: usize, color: PixelColor)
        requires
            old(self).wf(),
            old(self).chunk_fits(x as int, y as int),
        ensures
            final(self).wf(),
            final(self).same_frame(old(self)),
            final(self)@ == old(self).after_set_chunk(old(self)@, x as int, y as int, color),
    {
        proof {
            let pw = self.width * self.chunk_size;
            assert(0 <= y * pw) by (nonlinear_arith) requires y >= 0, pw >= 0;
            assert(0 <= x * self.chunk_size) by (nonlinear_arith) requires x >= 0, self.chunk_size >= 0;
            assert(pw <= self.width * self.chunk_size * self.height) by (nonlinear_arith)
                requires self.height >= 1, pw == self.width * self.chunk_size;
        }
        let _len = self.buffer.len();
        let pw = self.width * self.chunk_size;
        let start = y * pw + x * self.chunk_size;
        let end = start + self.chunk_size;
        if self.buffer[start] != color {
            self.dirty.set(y, true);
            let ghost before = self.buffer@;
            let mut i = start;
            while i < end
                invariant
                    self.same_frame(old(self)),
                    self.dirty@ == old(self).dirty@.update(y as int, true),
                    old(self).wf(),
                    y < old(self).height,
                    start <= i <= end,
                    end == start + self.chunk_size,
                    end <= before.len(),
                    self.buffer@.len() == before.len(),
                    forall|j: int| 0 <= j < before.len() ==> #[trigger] self.buffer@[j] == (if start <= j < i { color } else { before[j] }),
                decreases end - i,
            {
                self.buffer.set(i, color);
                i = i + 1;
            }
            assert(self.buffer@ =~= Seq::new(before.len(), |j: int| if start <= j < end { color } else { before[j] }));
        }
    }

    /// Paints the chunks x..x + width of lines y..y + height, line by line.
    pub fn draw_rect(&mut self, x: usize, y: usize, width: usize, height: usize, color: PixelColor)
        requires
            old(self).wf(),
            x + width <= old(self).width,
            y + height <= old(self).height,
        ensures
            final(self).wf(),
            final(self).same_frame(old(self)),
            final(self)@ == spec_fill_rect(old(self)@, old(self).spec_pixel_width(), old(self).chunk_size as int,
                x as int, x + width, y as int, y + height, color),
    {
        let ghost pw = self.spec_pixel_width();
        let ghost cs = self.chunk_size as int;
        let mut yi = y;
        while yi < y + height
            invariant
                self.wf(),
                self.same_frame(old(self)),
                pw == old(self).spec_pixel_width(),
                cs == old(self).chunk_size,
                y <= yi <= y + height,
                x + width <= self.width,
                y + height <= self.height,
                spec_fill_rect(old(self)@, pw, cs, x as int, x + width, y as int, y + height, color)
                    == spec_fill_rect(self@, pw, cs, x as int, x + width, yi as int, y + height, color),
            decreases y + height - yi,
        {
            let ghost row_start = self@;
            let mut xi = x;
            while xi < x + width
                invariant
                    self.wf(),
                    self.same_frame(old(self)),
                    pw == old(self).spec_pixel_width(),
                    cs == old(self).chunk_size,
                    x <= xi <= x + width,
                    x + width <= self.width,
                    yi < self.height,
                    spec_fill_line(row_start, pw, cs, x as int, x + width, yi as int, color)
                        == spec_fill_line(self@, pw, cs, xi as int, x + width, yi as int, color),
                decreases x + width - xi,
            {
                proof {
                    lemma_chunk_in_bounds(self.width as int, self.height as int, self.chunk_size as int, xi as int, yi as int);
                }
                self.set_chunk(xi, yi, color);
                xi = xi + 1;
            }
            yi = yi + 1;
        }
    }

    /// Paints every chunk.
    pub fn clear(&mut self, color: PixelColor)
        requires
            old(self).wf(),
        ensures
            final(self).wf(),
            final(self).same_frame(old(self)),
            final(self)@ == spec_fill_rect(old(self)@, old(self).spec_pixel_width(), old(self).chunk_size as int,
                0, old(self).width as int, 0, old(self).height as int, color),
    {
        let w = self.width;
        let h = self.height;
        self.draw_rect(0, 0, w, h, color);
    }

    /// Draws the rows of a glyph (at most 16) with its top-left chunk at
    /// (x, y): `color` where a bit is set, `background` elsewhere.
    pub fn draw_glyph(&mut self, x: usize, y: usize, glyph: &[u8], color: PixelColor, background: PixelColor)
        requires
            old(self).wf(),
            old(self).block_fits(x as int, y as int, FONT_WIDTH as int,
                if glyph@.len() < FONT_HEIGHT { glyph@.len() as int } else { FONT_HEIGHT as int }),
        ensures
            final(self).wf(),
            final(self).same_frame(old(self)),
            final(self)@ == spec_glyph_rows(old(self)@, old(self).spec_pixel_width(), old(self).chunk_size as int,
                x as int, y as int, glyph@, 0, color, background),
    {
        let ghost pw = self.spec_pixel_width();
        let ghost cs = self.chunk_size as int;
        let rows: usize = if glyph.len() < FONT_HEIGHT as usize { glyph.len() } else { FONT_HEIGHT as usize };
        let blen = self.buffer.len();
        let mut row: usize = 0;
        while row < rows
            invariant
                blen == self.buffer@.len(),
                self.wf(),
                self.same_frame(old(self)),
                pw == old(self).spec_pixel_width(),
                cs == old(self).chunk_size,
                rows == (if glyph@.len() < FONT_HEIGHT { glyph@.len() as int } else { FONT_HEIGHT as int }),
                row <= rows,
                self.block_fits(x as int, y as int, FONT_WIDTH as int, rows as int),
                spec_glyph_rows(old(self)@, pw, cs, x as int, y as int, glyph@, 0, color, background)
                    == spec_glyph_rows(self@, pw, cs, x as int, y as int, glyph@, row as int, color, background),
            decreases rows - row,
        {
            let g = glyph[row];
            let ghost line_start = self@;
            let mut i: usize = 0;
            while i < 8
                invariant
                    blen == self.buffer@.len(),
                    self.wf(),
                    self.same_frame(old(self)),
                    pw == old(self).spec_pixel_width(),
                    cs == old(self).chunk_size,
                    i <= 8,
                    row < rows,
                    self.block_fits(x as int, y as int, FONT_WIDTH as int, rows as int),
                    spec_glyph_line(line_start, pw, cs, x as int, y + row, g, 0, color, background)
                        == spec_glyph_line(self@, pw, cs, x as int, y + row, g, i as int, color, background),
                decreases 8 - i,
            {
                let c = if (g >> ((7 - i) as u8)) & 1 == 1 { color } else { background };
                proof {
                    self.lemma_block_chunk(x as int, y as int, 8, rows as int, i as int, row as int);
                    let ppw = self.spec_pixel_width();
                    let ccs = self.chunk_size as int;
                    assert(x + i < blen) by (nonlinear_arith)
                        requires (y + row) * ppw + (x + i) * ccs + ccs <= blen, ccs >= 1, ppw >= 0, y + row >= 0, x + i >= 0;
                }
                self.set_chunk(x + i, y + row, c);
                i = i + 1;
            }
            row = row + 1;
        }
    }

    /// Draws `text` from chunk (x, y), one 8x16 glyph per character.
    pub fn draw_text(&mut self, x: usize, y: usize, text: &[u8], color: PixelColor, background: PixelColor, font: &FontManager)
        requires
            old(self).wf(),
            font.wf(),
            forall|i: int| 0 <= i < text@.len() ==> font.spec_has_glyph(#[trigger] text@[i]),
            old(self).block_fits(x as int, y as int, text@.len() * FONT_WIDTH, FONT_HEIGHT as int),
        ensures
            final(self).wf(),
            final(self).same_frame(old(self)),
            final(self)@ == spec_text(old(self)@, old(self).spec_pixel_width(), old(self).chunk_size as int,
                x as int, y as int, text@, 0, *font, color, background),
    {
        let ghost pw = self.spec_pixel_width();
        let ghost cs = self.chunk_size as int;
        let blen = self.buffer.len();
        let mut i: usize = 0;
        while i < text.len()
            invariant
                blen == self.buffer@.len(),
                self.wf(),
                self.same_frame(old(self)),
                font.wf(),
                forall|j: int| 0 <= j < text@.len() ==> font.spec_has_glyph(#[trigger] text@[j]),
                pw == old(self).spec_pixel_width(),
                cs == old(self).chunk_size,
                i <= text@.len(),
                self.block_fits(x as int, y as int, text@.len() * FONT_WIDTH, FONT_HEIGHT as int),
                spec_text(old(self)@, pw, cs, x as int, y as int, text@, 0, *font, color, background)
                    == spec_text(self@, pw, cs, x as int, y as int, text@, i as int, *font, color, background),
            decreases text@.len() - i,
        {
            let glyph = font.get_glyph_by_char(text[i]);
            proof {
                assert(i * FONT_WIDTH + FONT_WIDTH <= text@.len() * FONT_WIDTH) by (nonlinear_arith)
                    requires i < text@.len();
                let pw = self.spec_pixel_width();
                let cs = self.chunk_size as int;
                assert(self.chunk_fits(x + i * FONT_WIDTH + 7, y + 15)) by {
                    self.lemma_block_chunk(x as int, y as int, text@.len() * FONT_WIDTH, 16, i * FONT_WIDTH + 7, 15);
                }
                assert(x + i * FONT_WIDTH + FONT_WIDTH <= usize::MAX) by (nonlinear_arith)
                    requires (y + 15) * pw + (x + i * 8 + 7) * cs + cs <= blen, cs >= 1, pw >= 0, y >= 0;
            }
            self.draw_glyph(x + i * FONT_WIDTH as usize, y, glyph, color, background);
            i = i + 1;
        }
    }

    /// The lines to copy to the screen (the dirty ones, or all when
    /// `force`), in order; every line is clean afterwards.
    pub fn flush_lines(&mut self, force: bool) -> (lines: Vec<usize>)
        requires
            old(self).wf(),
        ensures
            final(self).wf(),
            final(self).same_frame(old(self)),
            final(self).buffer@ == old(self).buffer@,
            final(self).dirty@ == Seq::new(old(self).height as nat, |i: int| false),
            lines@ == spec_flushed_lines(old(self).dirty@, force),
    {
        let mut lines: Vec<usize> = Vec::new();
        let mut y: usize = 0;
        let ghost all = Seq::new(old(self).height as nat, |i: int| i as usize);
        let ghost keep = flushed(old(self).dirty@, force);
        while y < self.height
            invariant
                self.wf(),
                self.same_frame(old(self)),
                self.buffer@ == old(self).buffer@,
                y <= self.height,
                all == Seq::new(old(self).height as nat, |i: int| i as usize),
                keep == flushed(old(self).dirty@, force),
                forall|i: int| 0 <= i < y ==> !#[trigger] self.dirty@[i],
                forall|i: int| y <= i < self.height ==> #[trigger] self.dirty@[i] == old(self).dirty@[i],
                lines@ == all.subrange(0, y as int).filter(keep),
            decreases self.height - y,
        {
            proof {
                assert(all.subrange(0, y + 1).drop_last() == all.subrange(0, y as int));
                all.subrange(0, y as int).lemma_filter_push(all[y as int], keep);
                assert(all.subrange(0, y + 1) == all.subrange(0, y as int).push(all[y as int]));
            }
            if self.dirty[y] || force {
                lines.push(y);
            }
            self.dirty.set(y, false);
            y = y + 1;
        }
        assert(all.subrange(0, self.height as int) == all);
        assert(self.dirty@ =~= Seq::new(old(self).height as nat, |i: int| false));
        lines
    }
}

/// The lines a flush copies: the dirty ones, or all when forced, in order.
pub open spec fn spec_flushed_lines(dirty: Seq<bool>, force: bool) -> Seq<usize> {
    Seq::new(dirty.len(), |i: int| i as usize).filter(flushed(dirty, force))
}

/// Whether a flush copies line `l`.
pub open spec fn flushed(dirty: Seq<bool>, force: bool) -> spec_fn(usize) -> bool {
    |l: usize| force || dirty[l as int]
}

/// After a flush every line is clean, so flushing again copies nothing
/// unless forced; a forced flush copies every line.
pub proof fn lemma_flush_twice(height: nat)
    ensures
        spec_flushed_lines(Seq::new(height, |i: int| false), false) == Seq::<usize>::empty(),
        spec_flushed_lines(Seq::new(height, |i: int| false), true) == Seq::new(height, |i: int| i as usize),
{
    let all = Seq::new(height, |i: int| i as usize);
    let d = Seq::new(height, |i: int| false);
    assert(d.len() == height);
    let none = flushed(d, false);
    let every = flushed(d, true);
    assert forall|k: int| 0 <= k < all.len() implies !none(#[trigger] all[k]) by {}
    lemma_filter_none(all, none);
    assert forall|k: int| 0 <= k < all.len() implies every(#[trigger] all[k]) by {}
    lemma_filter_all(all, every);
}

proof fn lemma_filter_none(s: Seq<usize>, p: spec_fn(usize) -> bool)
    requires
        forall|k: int| 0 <= k < s.len() ==> !p(#[trigger] s[k]),
    ensures
        s.filter(p) == Seq::<usize>::empty(),
    decreases s.len(),
{
    reveal(Seq::filter);
    if s.len() > 0 {
        lemma_filter_none(s.drop_last(), p);
    }
}

proof fn lemma_filter_all(s: Seq<usize>, p: spec_fn(usize) -> bool)
    requires
        forall|k: int| 0 <= k < s.len() ==> p(#[trigger] s[k]),
    ensures
        s.filter(p) == s,
    decreases s.len(),
{
    reveal(Seq::filter);
    if s.len() > 0 {
        lemma_filter_all(s.drop_last(), p);
        assert(s.drop_last().push(s.last()) =~= s);
    }
}


/// Where chunk (x, y) starts in a buffer of lines `pw` pixels wide.
pub open spec fn chunk_start(pw: int, cs: int, x: int, y: int) -> int {
    y * pw + x * cs
}

/// `set_chunk` gives the chunk's first pixel the colour and leaves every
/// pixel outside the chunk, and the lengths, as they were.
proof fn lemma_set_chunk_frame(v: (Seq<PixelColor>, Seq<bool>), pw: int, cs: int, x: int, y: int, c: PixelColor)
    requires
        0 <= chunk_start(pw, cs, x, y),
        chunk_start(pw, cs, x, y) + cs <= v.0.len(),
        cs > 0,
        0 <= y < v.1.len(),
    ensures
        ({
            let r = spec_set_chunk(v, pw, cs, x, y, c);
            let st = chunk_start(pw, cs, x, y);
            &&& r.0.len() == v.0.len()
            &&& r.1.len() == v.1.len()
            &&& r.0[st] == c
            &&& forall|p: int| 0 <= p < v.0.len() && !(st <= p < st + cs) ==> #[trigger] r.0[p] == v.0[p]
        }),
{
}

/// After `fill_line` every chunk x..x_end of line y starts with the colour,
/// and no pixel outside those chunks changed.
proof fn lemma_fill_line_post(v: (Seq<PixelColor>, Seq<bool>), pw: int, cs: int, x: int, x_end: int, y: int, c: PixelColor)
    requires
        0 <= x <= x_end,
        cs > 0,
        0 <= y < v.1.len(),
        0 <= y * pw,
        y * pw + x_end * cs <= v.0.len(),
    ensures
        ({
            let r = spec_fill_line(v, pw, cs, x, x_end, y, c);
            &&& r.0.len() == v.0.len()
            &&& r.1.len() == v.1.len()
            &&& forall|p: int| 0 <= p < v.0.len() && (p < y * pw + x * cs || p >= y * pw + x_end * cs) ==> #[trigger] r.0[p] == v.0[p]
            &&& forall|i: int| x <= i < x_end ==> r.0[#[trigger] chunk_start(pw, cs, i, y)] == c
        }),
    decreases x_end - x,
{
    if x < x_end {
        assert((x + 1) * cs == x * cs + cs) by (nonlinear_arith);
        assert((x + 1) * cs <= x_end * cs) by (nonlinear_arith) requires x + 1 <= x_end, cs > 0;
        assert(0 <= x * cs) by (nonlinear_arith) requires 0 <= x, cs > 0;
        lemma_set_chunk_frame(v, pw, cs, x, y, c);
        let v1 = spec_set_chunk(v, pw, cs, x, y, c);
        lemma_fill_line_post(v1, pw, cs, x + 1, x_end, y, c);
        let r = spec_fill_line(v, pw, cs, x, x_end, y, c);
        assert(r == spec_fill_line(v1, pw, cs, x + 1, x_end, y, c));
        assert forall|i: int| x <= i < x_end implies r.0[#[trigger] chunk_start(pw, cs, i, y)] == c by {
            if i == x {
                assert(r.0[chunk_start(pw, cs, x, y)] == v1.0[chunk_start(pw, cs, x, y)]);
            }
        }
    }
}

/// After `fill_rect` every chunk of the rectangle starts with the colour,
/// and no pixel outside lines y..y_end changed.
proof fn lemma_fill_rect_post(v: (Seq<PixelColor>, Seq<bool>), pw: int, cs: int, x: int, x_end: int, y: int, y_end: int, c: PixelColor)
    requires
        0 <= x <= x_end,
        x_end * cs <= pw,
        cs > 0,
        0 <= y <= y_end,
        y_end <= v.1.len(),
        y_end * pw <= v.0.len(),
    ensures
        ({
            let r = spec_fill_rect(v, pw, cs, x, x_end, y, y_end, c);
            &&& r.0.len() == v.0.len()
            &&& r.1.len() == v.1.len()
            &&& forall|p: int| 0 <= p < v.0.len() && (p < y * pw || p >= y_end * pw) ==> #[trigger] r.0[p] == v.0[p]
            &&& forall|i: int, j: int| x <= i < x_end && y <= j < y_end ==> r.0[#[trigger] chunk_start(pw, cs, i, j)] == c
        }),
    decreases y_end - y,
{
    if y < y_end {
        assert((y + 1) * pw == y * pw + pw) by (nonlinear_arith);
        assert((y + 1) * pw <= y_end * pw) by (nonlinear_arith) requires y + 1 <= y_end, pw >= 0;
        assert(0 <= y * pw) by (nonlinear_arith) requires 0 <= y, pw >= 0;
        assert(0 <= x * cs) by (nonlinear_arith) requires 0 <= x, cs > 0;
        assert(x * cs <= x_end * cs) by (nonlinear_arith) requires x <= x_end, cs > 0;
        lemma_fill_line_post(v, pw, cs, x, x_end, y, c);
        let v1 = spec_fill_line(v, pw, cs, x, x_end, y, c);
        lemma_fill_rect_post(v1, pw, cs, x, x_end, y + 1, y_end, c);
        let r = spec_fill_rect(v, pw, cs, x, x_end, y, y_end, c);
        assert(r == spec_fill_rect(v1, pw, cs, x, x_end, y + 1, y_end, c));
        assert forall|i: int, j: int| x <= i < x_end && y <= j < y_end implies r.0[#[trigger] chunk_start(pw, cs, i, j)] == c by {
            if j == y {
                assert(0 <= i * cs < x_end * cs) by (nonlinear_arith) requires 0 <= i < x_end, cs > 0;
                assert(r.0[chunk_start(pw, cs, i, y)] == v1.0[chunk_start(pw, cs, i, y)]);
            }
        }
    }
}

/// `fill_line` changes nothing when every chunk it paints already starts
/// with the colour.
proof fn lemma_fill_line_noop(v: (Seq<PixelColor>, Seq<bool>), pw: int, cs: int, x: int, x_end: int, y: int, c: PixelColor)
    requires
        forall|i: int| x <= i < x_end ==> v.0[#[trigger] chunk_start(pw, cs, i, y)] == c,
    ensures
        spec_fill_line(v, pw, cs, x, x_end, y, c) == v,
    decreases x_end - x,
{
    if x < x_end {
        assert(v.0[chunk_start(pw, cs, x, y)] == c);
        assert(spec_set_chunk(v, pw, cs, x, y, c) == v);
        lemma_fill_line_noop(v, pw, cs, x + 1, x_end, y, c);
    }
}

/// `fill_rect` changes nothing when every chunk it paints already starts
/// with the colour.
proof fn lemma_fill_rect_noop(v: (Seq<PixelColor>, Seq<bool>), pw: int, cs: int, x: int, x_end: int, y: int, y_end: int, c: PixelColor)
    requires
        forall|i: int, j: int| x <= i < x_end && y <= j < y_end ==> v.0[#[trigger] chunk_start(pw, cs, i, j)] == c,
    ensures
        spec_fill_rect(v, pw, cs, x, x_end, y, y_end, c) == v,
    decreases y_end - y,
{
    if y < y_end {
        assert forall|i: int| x <= i < x_end implies v.0[#[trigger] chunk_start(pw, cs, i, y)] == c by {
            assert(v.0[chunk_start(pw, cs, i, y)] == c);
        }
        lemma_fill_line_noop(v, pw, cs, x, x_end, y, c);
        lemma_fill_rect_noop(v, pw, cs, x, x_end, y + 1, y_end, c);
    }
}

/// Clearing a buffer to one colour leaves every chunk starting with that
/// colour, and a second clear to the same colour changes neither the pixels
/// nor the dirty flags.
pub proof fn lemma_clear_twice(fb: FrameBuffer, color: PixelColor)
    requires
        fb.wf(),
    ensures
        ({
            let pw = fb.spec_pixel_width();
            let cs = fb.chunk_size as int;
            let once = spec_fill_rect(fb@, pw, cs, 0, fb.width as int, 0, fb.height as int, color);
            &&& forall|i: int, j: int| 0 <= i < fb.width && 0 <= j < fb.height ==> once.0[#[trigger] chunk_start(pw, cs, i, j)] == color
            &&& spec_fill_rect(once, pw, cs, 0, fb.width as int, 0, fb.height as int, color) == once
        }),
{
    let pw = fb.spec_pixel_width();
    let cs = fb.chunk_size as int;
    assert(fb.height * pw == fb.width * fb.chunk_size * fb.height) by (nonlinear_arith)
        requires pw == fb.width * fb.chunk_size;
    lemma_fill_rect_post(fb@, pw, cs, 0, fb.width as int, 0, fb.height as int, color);
    let once = spec_fill_rect(fb@, pw, cs, 0, fb.width as int, 0, fb.height as int, color);
    lemma_fill_rect_noop(once, pw, cs, 0, fb.width as int, 0, fb.height as int, color);
}

} // verus!
