//! The heap monitor: a bar split by how the heap is used, and a line per
//! figure with its colour, its size in bytes and its share of the heap.

use vstd::prelude::*;

use crate::font::{FontManager, FONT_HEIGHT, FONT_WIDTH};
use crate::frame_buffer::{spec_fill_rect, spec_text, FrameBuffer, PixelColor, PixelColorMode};
use crate::logger::covers_ascii;
use crate::mem::{MemStatistics, HEAP_SIZE};
use crate::text::{push_bytes, push_dec, spec_dec};

verus! {

pub struct Monitor;

/// The text of a figure: its name, its size in bytes and, when given, its
/// share of the heap in percent (already formatted).
pub open spec fn spec_size_message(text: Seq<u8>, size: nat, percent: Option<Seq<u8>>) -> Seq<u8> {
    let base = text + seq![0x3Au8, 0x20] + spec_dec(size) + seq![0x20u8, 0x62, 0x79, 0x74, 0x65, 0x73];
    match percent {
        Some(p) => base + seq![0x20u8, 0x28] + p + seq![0x20u8, 0x25, 0x29],
        None => base,
    }
}

impl Monitor {
    pub const PADDING: usize = 10;
    pub const LINE_HEIGHT: usize = 50;
    pub const MESSAGE_PADDING: usize = 3;
    pub const TEXT_HEIGHT: usize = 22;

    pub fn in_use_color(mode: PixelColorMode) -> (c: PixelColor)
        ensures
            c == FrameBuffer::spec_make_color(28, 255, 81, mode),
    {
        FrameBuffer::make_color(28, 255, 81, mode)
    }

    pub fn cached_color(mode: PixelColorMode) -> (c: PixelColor)
        ensures
            c == FrameBuffer::spec_make_color(71, 166, 255, mode),
    {
        FrameBuffer::make_color(71, 166, 255, mode)
    }

    pub fn dead_color(mode: PixelColorMode) -> (c: PixelColor)
        ensures
            c == FrameBuffer::spec_make_color(255, 149, 28, mode),
    {
        FrameBuffer::make_color(255, 149, 28, mode)
    }

    pub fn padding_color(mode: PixelColorMode) -> (c: PixelColor)
        ensures
            c == FrameBuffer::spec_make_color(196, 211, 255, mode),
    {
        FrameBuffer::make_color(196, 211, 255, mode)
    }

    pub fn unused_color(mode: PixelColorMode) -> (c: PixelColor)
        ensures
            c == FrameBuffer::spec_make_color(128, 128, 128, mode),
    {
        FrameBuffer::make_color(128, 128, 128, mode)
    }

    pub fn font_color(mode: PixelColorMode) -> (c: PixelColor)
        ensures
            c == FrameBuffer::spec_make_color(255, 255, 255, mode),
    {
        FrameBuffer::make_color(255, 255, 255, mode)
    }

    pub fn bg_color(mode: PixelColorMode) -> (c: PixelColor)
        ensures
            c == FrameBuffer::spec_make_color(0, 0, 0, mode),
    {
        FrameBuffer::make_color(0, 0, 0, mode)
    }

    /// The width of a part of the bar: its share of the heap, rounded down.
    pub open spec fn spec_part(bar_width: int, size: int) -> int {
        bar_width * size / HEAP_SIZE as int
    }

    /// The bar: from pixel 10, parts for the bytes in use, cached, dead
    /// and lost to padding, each as wide as its share of the heap (rounded
    /// down), then the unused rest up to 10 pixels from the right; 50
    /// pixels tall, 10 from the top.
    pub open spec fn spec_render_bar(fb: &FrameBuffer, in_use: int, cached: int, dead: int, padding: int) -> (Seq<PixelColor>, Seq<bool>) {
        let pw = fb.spec_pixel_width();
        let cs = fb.chunk_size as int;
        let mode = fb.mode;
        let bw = pw - 20;
        let w1 = Self::spec_part(bw, in_use);
        let w2 = Self::spec_part(bw, cached);
        let w3 = Self::spec_part(bw, dead);
        let w4 = Self::spec_part(bw, padding);
        let top = 10;
        let bottom = 60;
        let v1 = spec_fill_rect(fb@, pw, cs, 10, 10 + w1, top, bottom, FrameBuffer::spec_make_color(28, 255, 81, mode));
        let v2 = spec_fill_rect(v1, pw, cs, 10 + w1, 10 + w1 + w2, top, bottom, FrameBuffer::spec_make_color(71, 166, 255, mode));
        let v3 = spec_fill_rect(v2, pw, cs, 10 + w1 + w2, 10 + w1 + w2 + w3, top, bottom, FrameBuffer::spec_make_color(255, 149, 28, mode));
        let v4 = spec_fill_rect(v3, pw, cs, 10 + w1 + w2 + w3, 10 + w1 + w2 + w3 + w4, top, bottom, FrameBuffer::spec_make_color(196, 211, 255, mode));
        spec_fill_rect(v4, pw, cs, 10 + w1 + w2 + w3 + w4, 10 + bw, top, bottom, FrameBuffer::spec_make_color(128, 128, 128, mode))
    }

    /// The bar fits the buffer: 20 pixels of margin, the bar's pixels within
    /// its chunks, 60 lines, and its parts' products within a `usize`.
    pub open spec fn bar_fits(fb: &FrameBuffer) -> bool {
        &&& fb.wf()
        &&& fb.spec_pixel_width() >= 20
        &&& fb.spec_pixel_width() - 10 <= fb.width
        &&& fb.height >= 60
        &&& (fb.spec_pixel_width() - 20) * HEAP_SIZE <= usize::MAX
    }

    proof fn lemma_parts(bw: int, a: int, b: int, c: int, d: int)
        requires
            bw >= 0,
            a >= 0,
            b >= 0,
            c >= 0,
            d >= 0,
            a + b + c + d <= HEAP_SIZE,
        ensures
            Self::spec_part(bw, a) + Self::spec_part(bw, b) + Self::spec_part(bw, c) + Self::spec_part(bw, d) <= bw,
            Self::spec_part(bw, a) >= 0,
            Self::spec_part(bw, b) >= 0,
            Self::spec_part(bw, c) >= 0,
            Self::spec_part(bw, d) >= 0,
    {
        let h = HEAP_SIZE as int;
        assert(Self::spec_part(bw, a) * h <= bw * a) by (nonlinear_arith)
            requires h > 0, bw * a >= 0, Self::spec_part(bw, a) == bw * a / h;
        assert(Self::spec_part(bw, b) * h <= bw * b) by (nonlinear_arith)
            requires h > 0, bw * b >= 0, Self::spec_part(bw, b) == bw * b / h;
        assert(Self::spec_part(bw, c) * h <= bw * c) by (nonlinear_arith)
            requires h > 0, bw * c >= 0, Self::spec_part(bw, c) == bw * c / h;
        assert(Self::spec_part(bw, d) * h <= bw * d) by (nonlinear_arith)
            requires h > 0, bw * d >= 0, Self::spec_part(bw, d) == bw * d / h;
        assert(bw * a + bw * b + bw * c + bw * d <= bw * h) by (nonlinear_arith)
            requires a + b + c + d <= h, bw >= 0;
        assert(0 <= bw * a && 0 <= bw * b && 0 <= bw * c && 0 <= bw * d) by (nonlinear_arith)
            requires bw >= 0, a >= 0, b >= 0, c >= 0, d >= 0;
        assert((Self::spec_part(bw, a) + Self::spec_part(bw, b) + Self::spec_part(bw, c) + Self::spec_part(bw, d)) * h <= bw * h) by (nonlinear_arith)
            requires Self::spec_part(bw, a) * h <= bw * a, Self::spec_part(bw, b) * h <= bw * b,
                Self::spec_part(bw, c) * h <= bw * c, Self::spec_part(bw, d) * h <= bw * d,
                bw * a + bw * b + bw * c + bw * d <= bw * h;
        assert(Self::spec_part(bw, a) + Self::spec_part(bw, b) + Self::spec_part(bw, c) + Self::spec_part(bw, d) <= bw) by (nonlinear_arith)
            requires (Self::spec_part(bw, a) + Self::spec_part(bw, b) + Self::spec_part(bw, c) + Self::spec_part(bw, d)) * h <= bw * h, h > 0;
    }

    /// Draws the bar (see `spec_render_bar`).
    pub fn render_bar(buffer: &mut FrameBuffer, in_use: usize, cached: usize, dead: usize, padding: usize)
        requires
            Self::bar_fits(old(buffer)),
            in_use + cached + dead + padding <= HEAP_SIZE,
        ensures
            final(buffer).wf(),
            final(buffer).same_frame(old(buffer)),
            final(buffer)@ == Self::spec_render_bar(old(buffer), in_use as int, cached as int, dead as int, padding as int),
    {
        let mode = buffer.mode;
        let pw = buffer.pixel_width();
        let bar_width = pw - Self::PADDING * 2;
        proof {
            Self::lemma_parts(bar_width as int, in_use as int, cached as int, dead as int, padding as int);
            assert(bar_width * in_use <= bar_width * HEAP_SIZE) by (nonlinear_arith) requires in_use <= HEAP_SIZE, bar_width >= 0;
            assert(bar_width * cached <= bar_width * HEAP_SIZE) by (nonlinear_arith) requires cached <= HEAP_SIZE, bar_width >= 0;
            assert(bar_width * dead <= bar_width * HEAP_SIZE) by (nonlinear_arith) requires dead <= HEAP_SIZE, bar_width >= 0;
            assert(bar_width * padding <= bar_width * HEAP_SIZE) by (nonlinear_arith) requires padding <= HEAP_SIZE, bar_width >= 0;
        }
        let in_use_width = bar_width * in_use / HEAP_SIZE;
        let cached_width = bar_width * cached / HEAP_SIZE;
        let dead_width = bar_width * dead / HEAP_SIZE;
        let padding_width = bar_width * padding / HEAP_SIZE;
        let mut x = Self::PADDING;
        buffer.draw_rect(x, Self::PADDING, in_use_width, Self::LINE_HEIGHT, Self::in_use_color(mode));
        x = x + in_use_width;
        buffer.draw_rect(x, Self::PADDING, cached_width, Self::LINE_HEIGHT, Self::cached_color(mode));
        x = x + cached_width;
        buffer.draw_rect(x, Self::PADDING, dead_width, Self::LINE_HEIGHT, Self::dead_color(mode));
        x = x + dead_width;
        buffer.draw_rect(x, Self::PADDING, padding_width, Self::LINE_HEIGHT, Self::padding_color(mode));
        x = x + padding_width;
        buffer.draw_rect(x, Self::PADDING, bar_width - (x - Self::PADDING), Self::LINE_HEIGHT, Self::unused_color(mode));
    }

    /// A figure's line at pixel row y: a 16-pixel square of its colour,
    /// then its text (see `spec_size_message`).
    pub open spec fn spec_render_size(v: (Seq<PixelColor>, Seq<bool>), fb: &FrameBuffer, font: FontManager, y: int,
        text: Seq<u8>, size: nat, color: PixelColor, percent: Option<Seq<u8>>) -> (Seq<PixelColor>, Seq<bool>)
    {
        let pw = fb.spec_pixel_width();
        let cs = fb.chunk_size as int;
        let v1 = spec_fill_rect(v, pw, cs, 10, 10 + FONT_HEIGHT, y + 3, y + 3 + FONT_HEIGHT, color);
        spec_text(v1, pw, cs, 10 + FONT_HEIGHT + 3, y + 3, spec_size_message(text, size, percent), 0, font,
            FrameBuffer::spec_make_color(255, 255, 255, fb.mode), FrameBuffer::spec_make_color(0, 0, 0, fb.mode))
    }

    /// A figure's line fits at pixel row y, and the font can draw it.
    pub open spec fn size_fits(fb: &FrameBuffer, font: &FontManager, y: int, text: Seq<u8>, size: nat, percent: Option<Seq<u8>>) -> bool {
        let m = spec_size_message(text, size, percent);
        &&& fb.wf()
        &&& font.wf()
        &&& covers_ascii(font)
        &&& fb.width >= 26
        &&& y + 3 + FONT_HEIGHT <= fb.height
        &&& fb.block_fits(29, y + 3, m.len() * FONT_WIDTH, FONT_HEIGHT as int)
        &&& forall|j: int| 0 <= j < m.len() ==> #[trigger] font.spec_has_glyph(m[j])
    }

    /// Draws a figure's line (see `spec_render_size`); its percentage comes
    /// formatted.
    pub fn render_size(buffer: &mut FrameBuffer, y: usize, text: &[u8], size: usize, color: PixelColor, percent: Option<&[u8]>, font: &FontManager)
        requires
            Self::size_fits(old(buffer), font, y as int, text@, size as nat, match percent { Some(p) => Some(p@), None => None }),
        ensures
            final(buffer).wf(),
            final(buffer).same_frame(old(buffer)),
            final(buffer)@ == Self::spec_render_size(old(buffer)@, old(buffer), *font, y as int, text@, size as nat, color,
                match percent { Some(p) => Some(p@), None => None }),
    {
        let mode = buffer.mode;
        buffer.draw_rect(Self::PADDING, y + Self::MESSAGE_PADDING, FONT_HEIGHT as usize, FONT_HEIGHT as usize, color);
        let mut message: Vec<u8> = Vec::new();
        push_bytes(&mut message, text);
        message.push(0x3A);
        message.push(0x20);
        push_dec(&mut message, size as u64);
        let bytes_word: Vec<u8> = vec![0x20u8, 0x62, 0x79, 0x74, 0x65, 0x73];
        push_bytes(&mut message, bytes_word.as_slice());
        match percent {
            Some(p) => {
                message.push(0x20);
                message.push(0x28);
                push_bytes(&mut message, p);
                message.push(0x20);
                message.push(0x25);
                message.push(0x29);
            },
            None => {},
        }
        assert(message@ =~= spec_size_message(text@, size as nat, match percent { Some(p) => Some(p@), None => None }));
        buffer.draw_text(Self::PADDING + FONT_HEIGHT as usize + Self::MESSAGE_PADDING, y + Self::MESSAGE_PADDING, message.as_slice(),
            Self::font_color(mode), Self::bg_color(mode), font);
    }
    pub open spec fn label(k: int) -> Seq<u8> {
        if k == 0 {
            seq![0x54u8, 0x6F, 0x74, 0x61, 0x6C]
        } else if k == 1 {
            seq![0x49u8, 0x6E, 0x20, 0x55, 0x73, 0x65]
        } else if k == 2 {
            seq![0x43u8, 0x61, 0x63, 0x68, 0x65, 0x64]
        } else if k == 3 {
            seq![0x44u8, 0x65, 0x61, 0x64]
        } else if k == 4 {
            seq![0x50u8, 0x61, 0x64, 0x64, 0x69, 0x6E, 0x67]
        } else if k == 5 {
            seq![0x55u8, 0x6E, 0x75, 0x73, 0x65, 0x64]
        } else {
            seq![0x52u8, 0x65, 0x75, 0x73, 0x65, 0x64]
        }
    }

    fn label_bytes(k: usize) -> (r: Vec<u8>)
        requires
            k < 7,
        ensures
            r@ == Self::label(k as int),
    {
        let r = if k == 0 {
            vec![0x54u8, 0x6F, 0x74, 0x61, 0x6C]
        } else if k == 1 {
            vec![0x49u8, 0x6E, 0x20, 0x55, 0x73, 0x65]
        } else if k == 2 {
            vec![0x43u8, 0x61, 0x63, 0x68, 0x65, 0x64]
        } else if k == 3 {
            vec![0x44u8, 0x65, 0x61, 0x64]
        } else if k == 4 {
            vec![0x50u8, 0x61, 0x64, 0x64, 0x69, 0x6E, 0x67]
        } else if k == 5 {
            vec![0x55u8, 0x6E, 0x75, 0x73, 0x65, 0x64]
        } else {
            vec![0x52u8, 0x65, 0x75, 0x73, 0x65, 0x64]
        };
        assert(r@ =~= Self::label(k as int));
        r
    }

    /// The figures in order: the heap size, the bytes in use, cached, dead,
    /// lost to padding, unused, and reused so far.
    pub open spec fn figure(stats: MemStatistics, k: int) -> nat {
        if k == 0 {
            HEAP_SIZE as nat
        } else if k == 1 {
            stats.in_use as nat
        } else if k == 2 {
            stats.cached as nat
        } else if k == 3 {
            stats.dead as nat
        } else if k == 4 {
            stats.padding as nat
        } else if k == 5 {
            (HEAP_SIZE - (stats.in_use + stats.cached + stats.dead + stats.padding)) as nat
        } else {
            stats.reused_total as nat
        }
    }

    /// The colour of a figure's square: black for the heap size and the
    /// reuse total, otherwise the colour of its part of the bar.
    pub open spec fn figure_color(k: int, mode: PixelColorMode) -> PixelColor {
        if k == 1 {
            FrameBuffer::spec_make_color(28, 255, 81, mode)
        } else if k == 2 {
            FrameBuffer::spec_make_color(71, 166, 255, mode)
        } else if k == 3 {
            FrameBuffer::spec_make_color(255, 149, 28, mode)
        } else if k == 4 {
            FrameBuffer::spec_make_color(196, 211, 255, mode)
        } else if k == 5 {
            FrameBuffer::spec_make_color(128, 128, 128, mode)
        } else {
            FrameBuffer::spec_make_color(0, 0, 0, mode)
        }
    }

    /// The percentage text of a figure: the five parts of the heap have
    /// theirs (given formatted, in order), the heap size and reuse total none.
    pub open spec fn figure_percent(percents: Seq<Seq<u8>>, k: int) -> Option<Seq<u8>> {
        if 1 <= k <= 5 { Some(percents[k - 1]) } else { None }
    }

    /// Lines `k..7` of figures, line k at row 70 + 22 k.
    pub open spec fn spec_figures(v: (Seq<PixelColor>, Seq<bool>), fb: &FrameBuffer, font: FontManager, stats: MemStatistics,
        percents: Seq<Seq<u8>>, k: int) -> (Seq<PixelColor>, Seq<bool>)
        decreases 7 - k,
    {
        if 0 <= k < 7 {
            let y = Self::LINE_HEIGHT + Self::PADDING * 2 + k * Self::TEXT_HEIGHT;
            let v1 = Self::spec_render_size(v, fb, font, y, Self::label(k), Self::figure(stats, k), Self::figure_color(k, fb.mode),
                Self::figure_percent(percents, k));
            Self::spec_figures(v1, fb, font, stats, percents, k + 1)
        } else {
            v
        }
    }

    /// Draws the whole monitor: the bar, then the seven figures.
    pub fn render_all(buffer: &mut FrameBuffer, stats: &MemStatistics, percents: &Vec<Vec<u8>>, font: &FontManager)
        requires
            Self::bar_fits(old(buffer)),
            stats.in_use + stats.cached + stats.dead + stats.padding <= HEAP_SIZE,
            percents@.len() == 5,
            forall|k: int| 0 <= k < 7 ==> Self::size_fits(old(buffer), font, Self::LINE_HEIGHT + Self::PADDING * 2 + k * Self::TEXT_HEIGHT,
                Self::label(k), #[trigger] Self::figure(*stats, k), match Self::figure_percent(percents@.map_values(|p: Vec<u8>| p@), k) { Some(p) => Some(p), None => None }),
        ensures
            final(buffer).wf(),
            final(buffer).same_frame(old(buffer)),
            final(buffer)@ == Self::spec_figures(
                Self::spec_render_bar(old(buffer), stats.in_use as int, stats.cached as int, stats.dead as int, stats.padding as int),
                old(buffer), *font, *stats, percents@.map_values(|p: Vec<u8>| p@), 0),
    {
        let mode = buffer.mode;
        Self::render_bar(buffer, stats.in_use, stats.cached, stats.dead, stats.padding);
        let unused = HEAP_SIZE - (stats.in_use + stats.cached + stats.dead + stats.padding);
        let ghost ps = percents@.map_values(|p: Vec<u8>| p@);
        let ghost v0 = buffer@;
        let mut k: usize = 0;
        while k < 7
            invariant
                k <= 7,
                buffer.wf(),
                buffer.same_frame(old(buffer)),
                mode == buffer.mode,
                unused == HEAP_SIZE - (stats.in_use + stats.cached + stats.dead + stats.padding),
                percents@.len() == 5,
                ps == percents@.map_values(|p: Vec<u8>| p@),
                forall|j: int| 0 <= j < 7 ==> Self::size_fits(old(buffer), font, Self::LINE_HEIGHT + Self::PADDING * 2 + j * Self::TEXT_HEIGHT,
                    Self::label(j), #[trigger] Self::figure(*stats, j), match Self::figure_percent(ps, j) { Some(p) => Some(p), None => None }),
                Self::spec_figures(v0, old(buffer), *font, *stats, ps, 0) == Self::spec_figures(buffer@, old(buffer), *font, *stats, ps, k as int),
            decreases 7 - k,
        {
            let y = Self::LINE_HEIGHT + Self::PADDING * 2 + k * Self::TEXT_HEIGHT;
            let label = Self::label_bytes(k);
            let size = if k == 0 {
                HEAP_SIZE
            } else if k == 1 {
                stats.in_use
            } else if k == 2 {
                stats.cached
            } else if k == 3 {
                stats.dead
            } else if k == 4 {
                stats.padding
            } else if k == 5 {
                unused
            } else {
                stats.reused_total
            };
            let color = if k == 1 {
                Self::in_use_color(mode)
            } else if k == 2 {
                Self::cached_color(mode)
            } else if k == 3 {
                Self::dead_color(mode)
            } else if k == 4 {
                Self::padding_color(mode)
            } else if k == 5 {
                Self::unused_color(mode)
            } else {
                Self::bg_color(mode)
            };
            let percent: Option<&[u8]> = if 1 <= k && k <= 5 { Some(percents[k - 1].as_slice()) } else { None };
            proof {
                assert(size == Self::figure(*stats, k as int));
                assert((match percent { Some(p) => Some(p@), None => None }) == Self::figure_percent(ps, k as int));
                let _ = Self::figure(*stats, k as int);
            }
            Self::render_size(buffer, y, label.as_slice(), size, color, percent, font);
            k = k + 1;
        }
    }

}

} // verus!
