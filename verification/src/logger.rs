//! The kernel log: entries that fit a line of the log screen, a scroll
//! position, and their drawing (a hexadecimal line number, the location
//! and the message) into the log's frame buffer.

use vstd::prelude::*;

use crate::font::{FontManager, FONT_HEIGHT, FONT_WIDTH};
use crate::frame_buffer::{spec_fill_rect, spec_text, FrameBuffer, PixelColor, PixelColorMode};

verus! {

/// The part of the system a log entry comes from.
#[derive(Clone, Copy, PartialEq, Eq, Structural, Debug)]
pub enum LogLocation {
    SYS,
    DRV,
    CPU,
    PPU,
    APU,
    CAT,
    BUS,
}

impl LogLocation {
    pub open spec fn spec_str(self) -> Seq<char> {
        match self {
            LogLocation::SYS => "SYS"@,
            LogLocation::DRV => "DRV"@,
            LogLocation::CPU => "CPU"@,
            LogLocation::PPU => "PPU"@,
            LogLocation::APU => "APU"@,
            LogLocation::CAT => "CAT"@,
            LogLocation::BUS => "BUS"@,
        }
    }

    /// The location's three-letter name.
    pub fn to_str(&self) -> (r: &'static str)
        ensures
            r@ == self.spec_str(),
    {
        match self {
            LogLocation::SYS => "SYS",
            LogLocation::DRV => "DRV",
            LogLocation::CPU => "CPU",
            LogLocation::PPU => "PPU",
            LogLocation::APU => "APU",
            LogLocation::CAT => "CAT",
            LogLocation::BUS => "BUS",
        }
    }

    /// The location's name as ASCII bytes.
    pub open spec fn spec_bytes(self) -> Seq<u8> {
        match self {
            LogLocation::SYS => seq![0x53u8, 0x59, 0x53],
            LogLocation::DRV => seq![0x44u8, 0x52, 0x56],
            LogLocation::CPU => seq![0x43u8, 0x50, 0x55],
            LogLocation::PPU => seq![0x50u8, 0x50, 0x55],
            LogLocation::APU => seq![0x41u8, 0x50, 0x55],
            LogLocation::CAT => seq![0x43u8, 0x41, 0x54],
            LogLocation::BUS => seq![0x42u8, 0x55, 0x53],
        }
    }

    pub fn to_bytes(&self) -> (r: Vec<u8>)
        ensures
            r@ == self.spec_bytes(),
    {
        match self {
            LogLocation::SYS => vec![0x53u8, 0x59, 0x53],
            LogLocation::DRV => vec![0x44u8, 0x52, 0x56],
            LogLocation::CPU => vec![0x43u8, 0x50, 0x55],
            LogLocation::PPU => vec![0x50u8, 0x50, 0x55],
            LogLocation::APU => vec![0x41u8, 0x50, 0x55],
            LogLocation::CAT => vec![0x43u8, 0x41, 0x54],
            LogLocation::BUS => vec![0x42u8, 0x55, 0x53],
        }
    }
}

#[derive(Clone, Copy, PartialEq, Eq, Structural, Debug)]
pub enum LogLevel {
    Log,
    Info,
    Warn,
    Error,
}

/// One line of the log.
pub struct LogEntry {
    pub location: LogLocation,
    pub level: LogLevel,
    pub message: Vec<u8>,
}

/// The colours of the log screen.
pub struct LoggerColor;

impl LoggerColor {
    pub fn bg_color(mode: PixelColorMode) -> (c: PixelColor)
        ensures
            c == FrameBuffer::spec_make_color(0x20, 0x20, 0x20, mode),
    {
        FrameBuffer::make_color(0x20, 0x20, 0x20, mode)
    }

    pub fn fg_color(mode: PixelColorMode) -> (c: PixelColor)
        ensures
            c == FrameBuffer::spec_make_color(0xFF, 0xFF, 0xFF, mode),
    {
        FrameBuffer::make_color(0xFF, 0xFF, 0xFF, mode)
    }

    pub fn prefix_color(mode: PixelColorMode) -> (c: PixelColor)
        ensures
            c == FrameBuffer::spec_make_color(0xA0, 0xA0, 0xA0, mode),
    {
        FrameBuffer::make_color(0xA0, 0xA0, 0xA0, mode)
    }

    pub fn log_color(mode: PixelColorMode) -> (c: PixelColor)
        ensures
            c == FrameBuffer::spec_make_color(0xC0, 0xC0, 0xC0, mode),
    {
        FrameBuffer::make_color(0xC0, 0xC0, 0xC0, mode)
    }

    pub fn warn_color(mode: PixelColorMode) -> (c: PixelColor)
        ensures
            c == FrameBuffer::spec_make_color(0xFF, 0xFF, 0x00, mode),
    {
        FrameBuffer::make_color(0xFF, 0xFF, 0x00, mode)
    }

    pub fn error_color(mode: PixelColorMode) -> (c: PixelColor)
        ensures
            c == FrameBuffer::spec_make_color(0xFF, 0x00, 0x00, mode),
    {
        FrameBuffer::make_color(0xFF, 0x00, 0x00, mode)
    }

    /// The colour of a level's location tag: log grey, info white, warnings
    /// yellow, errors red.
    pub open spec fn spec_level_color(level: LogLevel, mode: PixelColorMode) -> PixelColor {
        match level {
            LogLevel::Log => FrameBuffer::spec_make_color(0xC0, 0xC0, 0xC0, mode),
            LogLevel::Info => FrameBuffer::spec_make_color(0xFF, 0xFF, 0xFF, mode),
            LogLevel::Warn => FrameBuffer::spec_make_color(0xFF, 0xFF, 0x00, mode),
            LogLevel::Error => FrameBuffer::spec_make_color(0xFF, 0x00, 0x00, mode),
        }
    }

    pub fn level_color(level: LogLevel, mode: PixelColorMode) -> (c: PixelColor)
        ensures
            c == Self::spec_level_color(level, mode),
    {
        match level {
            LogLevel::Log => Self::log_color(mode),
            LogLevel::Info => Self::fg_color(mode),
            LogLevel::Warn => Self::warn_color(mode),
            LogLevel::Error => Self::error_color(mode),
        }
    }
}

/// The ASCII upper-case hexadecimal digit of `d` (< 16).
pub open spec fn spec_hex_digit(d: int) -> u8 {
    if d < 10 { (0x30 + d) as u8 } else { (0x41 + d - 10) as u8 }
}

/// `v` in upper-case hexadecimal, `n` digits, leading zeros included.
pub open spec fn spec_hex(v: nat, n: nat) -> Seq<u8>
    decreases n,
{
    if n == 0 {
        Seq::empty()
    } else {
        spec_hex(v / 16, (n - 1) as nat).push(spec_hex_digit((v % 16) as int))
    }
}

/// `v` as 8 upper-case hexadecimal digits.
pub fn hex8(v: u32) -> (r: Vec<u8>)
    ensures
        r@ == spec_hex(v as nat, 8),
{
    let mut r: Vec<u8> = Vec::new();
    let mut k: u32 = 8;
    while k > 0
        invariant
            k <= 8,
            r@ == spec_hex((v as int / vstd::arithmetic::power2::pow2((4 * k) as nat) as int) as nat, (8 - k) as nat),
        decreases k,
    {
        k = k - 1;
        let d = ((v >> (4 * k)) & 0xF) as u8;
        proof {
            let p = vstd::arithmetic::power2::pow2((4 * k) as nat);
            let q = v as int / p as int;
            vstd::arithmetic::power2::lemma_pow2_adds((4 * k) as nat, 4);
            vstd::arithmetic::power2::lemma2_to64();
            vstd::arithmetic::power2::lemma_pow2_pos((4 * k) as nat);
            vstd::bits::lemma_u32_shr_is_div(v, (4 * k) as u32);
            let sh = v >> (4 * k);
            assert(sh == q);
            assert(d == sh % 16) by (bit_vector)
                requires d == ((v >> (4 * k)) & 0xF) as u8, sh == v >> (4 * k), k < 8;
            vstd::arithmetic::div_mod::lemma_div_denominator(v as int, p as int, 16);
            assert(v as int / vstd::arithmetic::power2::pow2((4 * (k + 1)) as nat) as int == q / 16);
        }
        let c: u8 = if d < 10 { 0x30 + d } else { 0x41 + d - 10 };
        r.push(c);
    }
    proof {
        vstd::arithmetic::power2::lemma2_to64();
    }
    r
}

/// The log and how far it is scrolled: the entries before `scroll` are
/// those up to the last line on screen.
pub struct Logger {
    pub buffer: Vec<LogEntry>,
    pub scroll: usize,
}

/// The entries as location, level and message bytes.
pub open spec fn entries_of(b: Seq<LogEntry>) -> Seq<(LogLocation, LogLevel, Seq<u8>)> {
    Seq::new(b.len(), |i: int| (b[i].location, b[i].level, b[i].message@))
}

/// The lines of one message: split at line feeds, each piece cut into
/// chunks of `width` bytes (an empty piece stays an empty line).
pub open spec fn spec_message_lines(m: Seq<u8>, width: nat) -> Seq<Seq<u8>> {
    spec_lines_from(m, Seq::empty(), width)
}

/// The lines of `m`, the bytes `cur` of its first piece already read.
pub open spec fn spec_lines_from(m: Seq<u8>, cur: Seq<u8>, width: nat) -> Seq<Seq<u8>>
    decreases m.len(),
{
    if m.len() == 0 {
        spec_chunks(cur, width)
    } else if m[0] == 0x0A {
        spec_chunks(cur, width) + spec_lines_from(m.drop_first(), Seq::empty(), width)
    } else {
        spec_lines_from(m.drop_first(), cur.push(m[0]), width)
    }
}

/// A line cut into pieces of `width` bytes; an empty line is one empty piece.
pub open spec fn spec_chunks(l: Seq<u8>, width: nat) -> Seq<Seq<u8>>
    decreases l.len(),
{
    if l.len() == 0 || width == 0 {
        seq![l]
    } else if l.len() <= width {
        seq![l]
    } else {
        seq![l.subrange(0, width as int)] + spec_chunks(l.subrange(width as int, l.len() as int), width)
    }
}

/// Lines tagged with a location and a level.
pub open spec fn tag(lines: Seq<Seq<u8>>, location: LogLocation, level: LogLevel) -> Seq<(LogLocation, LogLevel, Seq<u8>)> {
    Seq::new(lines.len(), |j: int| (location, level, lines[j]))
}

proof fn lemma_tag_add(a: Seq<Seq<u8>>, b: Seq<Seq<u8>>, location: LogLocation, level: LogLevel)
    ensures
        tag(a + b, location, level) == tag(a, location, level) + tag(b, location, level),
{
    assert(tag(a + b, location, level) =~= tag(a, location, level) + tag(b, location, level));
}

proof fn lemma_chunk_lens(l: Seq<u8>, width: nat)
    requires
        width > 0,
    ensures
        forall|j: int| 0 <= j < spec_chunks(l, width).len() ==> #[trigger] spec_chunks(l, width)[j].len() <= width || l.len() == 0,
    decreases l.len(),
{
    if l.len() > width {
        lemma_chunk_lens(l.subrange(width as int, l.len() as int), width);
        let rest = spec_chunks(l.subrange(width as int, l.len() as int), width);
        assert forall|j: int| 0 <= j < spec_chunks(l, width).len() implies #[trigger] spec_chunks(l, width)[j].len() <= width || l.len() == 0 by {
            if j > 0 {
                assert(spec_chunks(l, width)[j] == rest[j - 1]);
            }
        }
    }
}

/// Where the scroll position ends up after an entry is added: it follows
/// the end of the log when it was there.
pub open spec fn scroll_after(scroll: usize, old_len: int, new_len: int) -> usize {
    if scroll == old_len { new_len as usize } else { scroll }
}

proof fn lemma_scroll_after_twice(s: usize, a: int, b: int, c: int)
    requires
        s <= a <= b <= c,
        c <= usize::MAX,
    ensures
        scroll_after(scroll_after(s, a, b), b, c) == scroll_after(s, a, c),
{
}

impl Logger {
    /// The number of columns of the location tag and line number before a
    /// message.
    pub const PREFIX_LEN: usize = 15;

    pub fn new() -> (r: Logger)
        ensures
            r.buffer@.len() == 0,
            r.scroll == 0,
    {
        Logger { buffer: Vec::new(), scroll: 0 }
    }

    /// The scroll position lies within the log.
    pub open spec fn wf(&self) -> bool {
        self.scroll <= self.buffer@.len()
    }

    /// Appends an entry; a log scrolled to its end stays at its end.
    pub fn add_buffer(&mut self, location: LogLocation, level: LogLevel, message: Vec<u8>)
        requires
            old(self).wf(),
            old(self).buffer@.len() < usize::MAX,
        ensures
            final(self).wf(),
            entries_of(final(self).buffer@) == entries_of(old(self).buffer@).push((location, level, message@)),
            final(self).buffer@.len() == old(self).buffer@.len() + 1,
            final(self).scroll == scroll_after(old(self).scroll, old(self).buffer@.len() as int, final(self).buffer@.len() as int),
    {
        if self.buffer.len() == self.scroll {
            self.scroll = self.scroll + 1;
        }
        self.buffer.push(LogEntry { location, level, message });
        assert(entries_of(self.buffer@) =~= entries_of(old(self).buffer@).push((location, level, message@)));
    }

    /// Appends one line cut into chunks of `width` bytes.
    fn add_line(&mut self, location: LogLocation, level: LogLevel, line: &[u8], width: usize)
        requires
            old(self).wf(),
            width > 0,
            old(self).buffer@.len() + line@.len() + 1 < usize::MAX,
        ensures
            final(self).wf(),
            entries_of(final(self).buffer@) == entries_of(old(self).buffer@) + tag(spec_chunks(line@, width as nat), location, level),
            final(self).buffer@.len() <= old(self).buffer@.len() + line@.len() + 1,
            final(self).buffer@.len() >= old(self).buffer@.len(),
            final(self).scroll == scroll_after(old(self).scroll, old(self).buffer@.len() as int, final(self).buffer@.len() as int),
    {
        let ln = line.len();
        if ln == 0 {
            self.add_buffer(location, level, Vec::new());
            assert(line@ =~= Seq::<u8>::empty());
            assert(tag(spec_chunks(line@, width as nat), location, level) =~= seq![(location, level, Seq::<u8>::empty())]);
            return;
        }
        let mut pos: usize = 0;
        assert(line@.subrange(0, line@.len() as int) =~= line@);
        while pos < ln
            invariant
                self.wf(),
                old(self).wf(),
                ln == line@.len(),
                width > 0,
                line@.len() > 0,
                pos <= line@.len(),
                self.buffer@.len() <= old(self).buffer@.len() + pos,
                old(self).buffer@.len() + line@.len() + 1 < usize::MAX,
                pos == 0 ==> entries_of(self.buffer@) == entries_of(old(self).buffer@),
                pos > 0 ==> self.buffer@.len() > old(self).buffer@.len(),
                entries_of(self.buffer@) + tag(if pos < line@.len() { spec_chunks(line@.subrange(pos as int, line@.len() as int), width as nat) } else { Seq::empty() }, location, level)
                    == entries_of(old(self).buffer@) + tag(spec_chunks(line@, width as nat), location, level),
                self.scroll == scroll_after(old(self).scroll, old(self).buffer@.len() as int, self.buffer@.len() as int),
            decreases line@.len() - pos,
        {
            let rest = ln - pos;
            let n = if rest < width { rest } else { width };
            let mut chunk: Vec<u8> = Vec::new();
            let mut j: usize = 0;
            while j < n
                invariant
                    j <= n,
                    ln == line@.len(),
                    pos + n <= line@.len(),
                    chunk@ == line@.subrange(pos as int, pos + j),
                decreases n - j,
            {
                chunk.push(line[pos + j]);
                j = j + 1;
                assert(chunk@ =~= line@.subrange(pos as int, pos + j));
            }
            let ghost before = entries_of(self.buffer@);
            let ghost piece = line@.subrange(pos as int, line@.len() as int);
            let ghost len0 = self.buffer@.len();
            self.add_buffer(location, level, chunk);
            proof {
                lemma_scroll_after_twice(old(self).scroll, old(self).buffer@.len() as int, len0 as int, self.buffer@.len() as int);
                let w = width as nat;
                if piece.len() <= w {
                    assert(spec_chunks(piece, w) == seq![piece]);
                    assert(chunk@ =~= piece);
                    assert(tag(seq![piece], location, level) =~= seq![(location, level, piece)]);
                    assert(tag(Seq::<Seq<u8>>::empty(), location, level) =~= Seq::empty());
                } else {
                    let rest_piece = piece.subrange(w as int, piece.len() as int);
                    assert(rest_piece =~= line@.subrange(pos + n, line@.len() as int));
                    assert(chunk@ =~= piece.subrange(0, w as int));
                    lemma_tag_add(seq![piece.subrange(0, w as int)], spec_chunks(rest_piece, w), location, level);
                    assert(tag(seq![piece.subrange(0, w as int)], location, level) =~= seq![(location, level, chunk@)]);
                }
            }
            pos = pos + n;
        }
    }

    /// Logs a message: one entry per line (split at line feeds), long
    /// lines cut into entries of `width` bytes.
    pub fn log_internal(&mut self, location: LogLocation, level: LogLevel, message: &[u8], width: usize)
        requires
            old(self).wf(),
            width > 0,
            old(self).buffer@.len() + 2 * message@.len() + 2 < usize::MAX,
        ensures
            final(self).wf(),
            entries_of(final(self).buffer@) == entries_of(old(self).buffer@) + tag(spec_message_lines(message@, width as nat), location, level),
            final(self).scroll == scroll_after(old(self).scroll, old(self).buffer@.len() as int, final(self).buffer@.len() as int),
    {
        let n = message.len();
        let mut start: usize = 0;
        let mut i: usize = 0;
        assert(message@.subrange(0, n as int) =~= message@);
        assert(message@.subrange(0, 0) =~= Seq::<u8>::empty());
        while i < n
            invariant
                self.wf(),
                old(self).wf(),
                width > 0,
                n == message@.len(),
                start <= i <= n,
                self.buffer@.len() <= old(self).buffer@.len() + start + i,
                self.buffer@.len() >= old(self).buffer@.len(),
                old(self).buffer@.len() + 2 * message@.len() + 2 < usize::MAX,
                entries_of(self.buffer@) + tag(spec_lines_from(message@.subrange(i as int, n as int), message@.subrange(start as int, i as int), width as nat), location, level)
                    == entries_of(old(self).buffer@) + tag(spec_message_lines(message@, width as nat), location, level),
                self.scroll == scroll_after(old(self).scroll, old(self).buffer@.len() as int, self.buffer@.len() as int),
            decreases n - i,
        {
            let ghost rest = message@.subrange(i as int, n as int);
            assert(rest.drop_first() =~= message@.subrange(i + 1, n as int));
            if message[i] == 0x0A {
                let line = vstd::slice::slice_subrange(message, start, i);
                let ghost before = entries_of(self.buffer@);
                let ghost len0 = self.buffer@.len();
                self.add_line(location, level, line, width);
                proof {
                    lemma_scroll_after_twice(old(self).scroll, old(self).buffer@.len() as int, len0 as int, self.buffer@.len() as int);
                    lemma_tag_add(spec_chunks(line@, width as nat), spec_lines_from(message@.subrange(i + 1, n as int), Seq::empty(), width as nat), location, level);
                    assert(message@.subrange(i + 1, i + 1) =~= Seq::<u8>::empty());
                }
                start = i + 1;
            } else {
                assert(message@.subrange(start as int, i as int).push(message@[i as int]) =~= message@.subrange(start as int, i + 1));
            }
            i = i + 1;
        }
        let line = vstd::slice::slice_subrange(message, start, n);
        let ghost len0 = self.buffer@.len();
        self.add_line(location, level, line, width);
        proof {
            lemma_scroll_after_twice(old(self).scroll, old(self).buffer@.len() as int, len0 as int, self.buffer@.len() as int);
            assert(message@.subrange(n as int, n as int) =~= Seq::<u8>::empty());
            assert(tag(spec_lines_from(message@.subrange(n as int, n as int), line@, width as nat), location, level) == tag(spec_chunks(line@, width as nat), location, level));
        }
    }
}

/// The scroll position after scrolling `lines` (down when positive) on a
/// screen of `text_height` lines: within the log, never above a full
/// screen.
pub open spec fn spec_scrolled(scroll: usize, len: int, lines: i32, text_height: usize) -> usize {
    let s = if lines > 0 {
        if scroll + lines > len { len } else { scroll + lines }
    } else if lines < 0 {
        if scroll + lines < 0 { 0 } else { scroll + lines }
    } else {
        scroll as int
    };
    (if s < text_height { text_height as int } else { s }) as usize
}

/// Line `row` of the log screen showing entry `index`: its number in 8
/// hexadecimal digits, its location tag in its level's colour and its
/// message (grey for plain log lines, white otherwise).
pub open spec fn spec_entry_row(v: (Seq<PixelColor>, Seq<bool>), pw: int, cs: int, font: FontManager, mode: PixelColorMode,
    e: (LogLocation, LogLevel, Seq<u8>), index: nat, row: int) -> (Seq<PixelColor>, Seq<bool>)
{
    let y = row * FONT_HEIGHT;
    let bg = FrameBuffer::spec_make_color(0x20, 0x20, 0x20, mode);
    let v1 = spec_text(v, pw, cs, 0, y, spec_hex(index, 8).push(0x20), 0, font,
        FrameBuffer::spec_make_color(0xA0, 0xA0, 0xA0, mode), bg);
    let v2 = spec_text(v1, pw, cs, 9 * FONT_WIDTH, y, seq![0x5Bu8] + e.0.spec_bytes() + seq![0x5Du8, 0x20], 0, font,
        LoggerColor::spec_level_color(e.1, mode), bg);
    spec_text(v2, pw, cs, Logger::PREFIX_LEN * FONT_WIDTH, y, e.2, 0, font,
        if e.1 == LogLevel::Log { FrameBuffer::spec_make_color(0xC0, 0xC0, 0xC0, mode) } else { FrameBuffer::spec_make_color(0xFF, 0xFF, 0xFF, mode) }, bg)
}

/// While the screen fills: entries `idx..after` on their own lines.
pub open spec fn spec_grow_rows(es: Seq<(LogLocation, LogLevel, Seq<u8>)>, v: (Seq<PixelColor>, Seq<bool>), pw: int, cs: int,
    font: FontManager, mode: PixelColorMode, idx: int, after: int) -> (Seq<PixelColor>, Seq<bool>)
    decreases after - idx,
{
    if idx < after {
        spec_grow_rows(es, spec_entry_row(v, pw, cs, font, mode, es[idx], idx as nat, idx), pw, cs, font, mode, idx + 1, after)
    } else {
        v
    }
}

/// A full screen ending with entry `after - 1`, lines `idx..height`; where
/// the entry shown before (scrolled to `before`) was longer, the rest of
/// its text is painted over.
pub open spec fn spec_full_rows(es: Seq<(LogLocation, LogLevel, Seq<u8>)>, v: (Seq<PixelColor>, Seq<bool>), pw: int, cs: int,
    font: FontManager, mode: PixelColorMode, idx: int, height: int, before: int, after: int) -> (Seq<PixelColor>, Seq<bool>)
    decreases height - idx,
{
    if idx < height {
        let e = idx + after - height;
        let v1 = spec_entry_row(v, pw, cs, font, mode, es[e], e as nat, idx);
        let v2 = if idx + before >= height {
            let cur = es[e].2.len() + Logger::PREFIX_LEN;
            let prev = es[idx + before - height].2.len() + Logger::PREFIX_LEN;
            if prev > cur {
                spec_fill_rect(v1, pw, cs, cur * FONT_WIDTH, prev * FONT_WIDTH, idx * FONT_HEIGHT, idx * FONT_HEIGHT + FONT_HEIGHT,
                    FrameBuffer::spec_make_color(0x20, 0x20, 0x20, mode))
            } else {
                v1
            }
        } else {
            v1
        };
        spec_full_rows(es, v2, pw, cs, font, mode, idx + 1, height, before, after)
    } else {
        v
    }
}

/// Redrawing the log screen after the scroll position moved from `before`
/// to `after`, on a screen of `height` lines.
pub open spec fn spec_render_log(es: Seq<(LogLocation, LogLevel, Seq<u8>)>, v: (Seq<PixelColor>, Seq<bool>), pw: int, cs: int,
    font: FontManager, mode: PixelColorMode, before: int, after: int, height: int) -> (Seq<PixelColor>, Seq<bool>)
{
    if before == after {
        v
    } else if after < height {
        spec_grow_rows(es, v, pw, cs, font, mode, before, after)
    } else {
        spec_full_rows(es, v, pw, cs, font, mode, 0, height, before, after)
    }
}

/// The font has a glyph for every printable ASCII character.
pub open spec fn covers_ascii(font: &FontManager) -> bool {
    forall|c: u8| 0x20 <= c <= 0x7E ==> #[trigger] font.spec_has_glyph(c)
}

impl Logger {
    /// Every message fits its line of a `columns`-wide screen, and the font
    /// can draw it.
    pub open spec fn fits(&self, columns: int, font: &FontManager) -> bool {
        &&& forall|i: int| 0 <= i < self.buffer@.len() ==> #[trigger] self.buffer@[i].message@.len() + Self::PREFIX_LEN <= columns
        &&& forall|i: int, j: int| 0 <= i < self.buffer@.len() && 0 <= j < self.buffer@[i].message@.len()
            ==> font.spec_has_glyph(#[trigger] self.buffer@[i].message@[j])
    }

    /// Scrolls by `lines` (see `spec_scrolled`) once the screen is full;
    /// gives the position scrolled from, or nothing while the screen is not
    /// full.
    pub fn scroll_internal(&mut self, lines: i32, text_height: usize) -> (r: Option<usize>)
        requires
            old(self).wf(),
            lines > i32::MIN,
            old(self).scroll + lines <= usize::MAX,
        ensures
            final(self).wf(),
            final(self).buffer == old(self).buffer,
            old(self).scroll < text_height ==> r is None && final(self).scroll == old(self).scroll,
            old(self).scroll >= text_height ==> r == Some(old(self).scroll)
                && final(self).scroll == spec_scrolled(old(self).scroll, old(self).buffer@.len() as int, lines, text_height),
    {
        if self.scroll < text_height {
            return None;
        }
        let before = self.scroll;
        let len = self.buffer.len();
        if lines > 0 {
            let s = self.scroll + lines as usize;
            self.scroll = if s > len { len } else { s };
        } else if lines < 0 {
            let d = (-lines) as usize;
            self.scroll = if self.scroll < d { 0 } else { self.scroll - d };
        }
        if self.scroll < text_height {
            self.scroll = text_height;
        }
        Some(before)
    }

    /// Scrolls to the end of the log.
    pub fn reset_scroll(&mut self, text_height: usize) -> (r: Option<usize>)
        requires
            old(self).wf(),
            old(self).buffer@.len() - old(self).scroll <= i32::MAX,
        ensures
            final(self).wf(),
            final(self).buffer == old(self).buffer,
            old(self).scroll < text_height ==> r is None && final(self).scroll == old(self).scroll,
            old(self).scroll >= text_height ==> r == Some(old(self).scroll) && final(self).scroll == old(self).buffer@.len(),
    {
        let lines = (self.buffer.len() - self.scroll) as i32;
        self.scroll_internal(lines, text_height)
    }

    fn draw_entry(&self, fb: &mut FrameBuffer, font: &FontManager, index: usize, row: usize)
        requires
            fb_log_ready(old(fb), font),
            index < self.buffer@.len(),
            index <= u32::MAX,
            (row + 1) * FONT_HEIGHT <= old(fb).height,
            self.fits((old(fb).width / 8) as int, font),
        ensures
            fb_log_ready(final(fb), font),
            final(fb).same_frame(old(fb)),
            final(fb)@ == spec_entry_row(old(fb)@, old(fb).spec_pixel_width(), old(fb).chunk_size as int, *font, old(fb).mode,
                entries_of(self.buffer@)[index as int], index as nat, row as int),
    {
        let mode = fb.mode;
        let bg = LoggerColor::bg_color(mode);
        let y = row * FONT_HEIGHT as usize;
        let entry = &self.buffer[index];
        let mut number = hex8(index as u32);
        number.push(0x20);
        proof {
            lemma_hex_len((index as u32) as nat, 8);
            assert(9 * FONT_WIDTH <= fb.width);
            assert forall|i: int| 0 <= i < number@.len() implies font.spec_has_glyph(#[trigger] number@[i]) by {
                if i < 8 {
                    lemma_hex_printable((index as u32) as nat, 8, i);
                }
            }
        }
        proof {
            fb.lemma_block_in_frame(0, y as int, 9 * FONT_WIDTH, FONT_HEIGHT as int);
        }
        fb.draw_text(0, y, number.as_slice(), LoggerColor::prefix_color(mode), bg, font);
        let mut tag_text: Vec<u8> = Vec::new();
        tag_text.push(0x5B);
        let loc = entry.location.to_bytes();
        tag_text.push(loc[0]);
        tag_text.push(loc[1]);
        tag_text.push(loc[2]);
        tag_text.push(0x5D);
        tag_text.push(0x20);
        proof {
            assert(tag_text@ =~= seq![0x5Bu8] + entry.location.spec_bytes() + seq![0x5Du8, 0x20]);
            assert forall|i: int| 0 <= i < tag_text@.len() implies font.spec_has_glyph(#[trigger] tag_text@[i]) by {
                assert(0x20 <= tag_text@[i] <= 0x7E);
            }
        }
        proof {
            fb.lemma_block_in_frame(9 * FONT_WIDTH, y as int, 6 * FONT_WIDTH, FONT_HEIGHT as int);
        }
        fb.draw_text(9 * FONT_WIDTH as usize, y, tag_text.as_slice(), LoggerColor::level_color(entry.level, mode), bg, font);
        let color = if entry.level == LogLevel::Log { LoggerColor::log_color(mode) } else { LoggerColor::fg_color(mode) };
        proof {
            assert(entry.message@.len() + Self::PREFIX_LEN <= (fb.width / 8) as int);
            assert forall|j: int| 0 <= j < entry.message@.len() implies font.spec_has_glyph(#[trigger] entry.message@[j]) by {
                assert(self.buffer@[index as int].message@[j] == entry.message@[j]);
            }
        }
        proof {
            assert((entry.message@.len() + Self::PREFIX_LEN) * FONT_WIDTH <= fb.width) by (nonlinear_arith)
                requires entry.message@.len() + Self::PREFIX_LEN <= fb.width / 8;
            fb.lemma_block_in_frame(Self::PREFIX_LEN * FONT_WIDTH, y as int, entry.message@.len() * FONT_WIDTH, FONT_HEIGHT as int);
        }
        fb.draw_text(Self::PREFIX_LEN * FONT_WIDTH as usize, y, entry.message.as_slice(), color, bg, font);
    }

    /// Redraws the log screen after the scroll position moved from
    /// `before` to `after` (see `spec_render_log`).
    pub fn render_internal(&self, before: usize, after: usize, fb: &mut FrameBuffer, font: &FontManager)
        requires
            fb_log_ready(old(fb), font),
            self.fits((old(fb).width / 8) as int, font),
            before <= self.buffer@.len(),
            after <= self.buffer@.len(),
            self.buffer@.len() <= u32::MAX,
            after < (old(fb).height / 16) as int ==> before <= after,
        ensures
            fb_log_ready(final(fb), font),
            final(fb).same_frame(old(fb)),
            final(fb)@ == spec_render_log(entries_of(self.buffer@), old(fb)@, old(fb).spec_pixel_width(), old(fb).chunk_size as int,
                *font, old(fb).mode, before as int, after as int, (old(fb).height / 16) as int),
    {
        if before == after {
            return;
        }
        let ghost pw = fb.spec_pixel_width();
        let ghost cs = fb.chunk_size as int;
        let ghost es = entries_of(self.buffer@);
        let mode = fb.mode;
        let height = fb.max_text_lines();
        if after < height {
            let mut idx = before;
            while idx < after
                invariant
                    before <= idx <= after,
                    after < height,
                    height == (old(fb).height / 16) as int,
                    after <= self.buffer@.len(),
                    self.buffer@.len() <= u32::MAX,
                    es == entries_of(self.buffer@),
                    fb_log_ready(fb, font),
                    fb.same_frame(old(fb)),
                    pw == old(fb).spec_pixel_width(),
                    cs == old(fb).chunk_size,
                    mode == old(fb).mode,
                    self.fits((old(fb).width / 8) as int, font),
                    spec_grow_rows(es, old(fb)@, pw, cs, *font, mode, before as int, after as int)
                        == spec_grow_rows(es, fb@, pw, cs, *font, mode, idx as int, after as int),
                decreases after - idx,
            {
                proof {
                    assert((idx + 1) * FONT_HEIGHT <= height * FONT_HEIGHT) by (nonlinear_arith) requires idx < height;
                    assert(height * FONT_HEIGHT <= fb.height) by (nonlinear_arith) requires height == fb.height / 16;
                }
                self.draw_entry(fb, font, idx, idx);
                idx = idx + 1;
            }
        } else {
            let bg = LoggerColor::bg_color(mode);
            let mut idx: usize = 0;
            while idx < height
                invariant
                    idx <= height,
                    height <= after,
                    height == (old(fb).height / 16) as int,
                    before <= self.buffer@.len(),
                    after <= self.buffer@.len(),
                    self.buffer@.len() <= u32::MAX,
                    es == entries_of(self.buffer@),
                    bg == FrameBuffer::spec_make_color(0x20, 0x20, 0x20, mode),
                    fb_log_ready(fb, font),
                    fb.same_frame(old(fb)),
                    pw == old(fb).spec_pixel_width(),
                    cs == old(fb).chunk_size,
                    mode == old(fb).mode,
                    self.fits((old(fb).width / 8) as int, font),
                    spec_full_rows(es, old(fb)@, pw, cs, *font, mode, 0, height as int, before as int, after as int)
                        == spec_full_rows(es, fb@, pw, cs, *font, mode, idx as int, height as int, before as int, after as int),
                decreases height - idx,
            {
                proof {
                    assert((idx + 1) * FONT_HEIGHT <= height * FONT_HEIGHT) by (nonlinear_arith) requires idx < height;
                    assert(height * FONT_HEIGHT <= fb.height) by (nonlinear_arith) requires height == fb.height / 16;
                }
                let e = after - height + idx;
                self.draw_entry(fb, font, e, idx);
                if before >= height - idx {
                    let cur = self.buffer[e].message.len() + Self::PREFIX_LEN;
                    let prev = self.buffer[before - (height - idx)].message.len() + Self::PREFIX_LEN;
                    if prev > cur {
                        proof {
                            assert(prev * FONT_WIDTH <= fb.width) by (nonlinear_arith)
                                requires prev <= fb.width / 8;
                        }
                        fb.draw_rect(cur * FONT_WIDTH as usize, idx * FONT_HEIGHT as usize, (prev - cur) * FONT_WIDTH as usize, FONT_HEIGHT as usize, bg);
                    }
                }
                idx = idx + 1;
            }
        }
    }
}

/// A frame buffer the log can be drawn into: 15 columns of prefix fit, and
/// the font draws every printable character.
pub open spec fn fb_log_ready(fb: &FrameBuffer, font: &FontManager) -> bool {
    &&& fb.wf()
    &&& font.wf()
    &&& covers_ascii(font)
    &&& Logger::PREFIX_LEN * FONT_WIDTH <= fb.width
}

proof fn lemma_hex_printable(v: nat, n: nat, i: int)
    requires
        0 <= i < n,
    ensures
        0x30 <= spec_hex(v, n)[i] <= 0x46,
        spec_hex(v, n).len() == n,
    decreases n,
{
    lemma_hex_len(v, n);
    if i < n - 1 {
        lemma_hex_printable(v / 16, (n - 1) as nat, i);
    }
}

proof fn lemma_hex_len(v: nat, n: nat)
    ensures
        spec_hex(v, n).len() == n,
    decreases n,
{
    if n > 0 {
        lemma_hex_len(v / 16, (n - 1) as nat);
    }
}

/// The word after the location in a log line sent over the serial line.
pub open spec fn spec_level_word(level: LogLevel) -> Seq<u8> {
    match level {
        LogLevel::Log => seq![0x5Du8, 0x20, 0x20, 0x4C, 0x4F, 0x47, 0x3A, 0x20],
        LogLevel::Info => seq![0x5Du8, 0x20, 0x49, 0x4E, 0x46, 0x4F, 0x3A, 0x20],
        LogLevel::Warn => seq![0x5Du8, 0x20, 0x57, 0x41, 0x52, 0x4E, 0x3A, 0x20],
        LogLevel::Error => seq![0x5Du8, 0x20, 0x20, 0x45, 0x52, 0x52, 0x3A, 0x20],
    }
}

/// A log line as sent over the serial line: `[LOC]  LOG: text` (the level
/// word right-aligned), then a line feed.
pub open spec fn spec_serial_line(location: LogLocation, level: LogLevel, chunk: Seq<u8>) -> Seq<u8> {
    seq![0x5Bu8] + location.spec_bytes() + spec_level_word(level) + chunk + seq![0x0Au8]
}

impl Logger {
    /// The bytes sent over the serial line for a piece of a log message
    /// (see `spec_serial_line`).
    pub fn serial_line(location: LogLocation, level: LogLevel, chunk: &[u8]) -> (r: Vec<u8>)
        ensures
            r@ == spec_serial_line(location, level, chunk@),
    {
        let mut r: Vec<u8> = vec![0x5Bu8];
        let loc = location.to_bytes();
        crate::text::push_bytes(&mut r, loc.as_slice());
        let word: Vec<u8> = match level {
            LogLevel::Log => vec![0x5Du8, 0x20, 0x20, 0x4C, 0x4F, 0x47, 0x3A, 0x20],
            LogLevel::Info => vec![0x5Du8, 0x20, 0x49, 0x4E, 0x46, 0x4F, 0x3A, 0x20],
            LogLevel::Warn => vec![0x5Du8, 0x20, 0x57, 0x41, 0x52, 0x4E, 0x3A, 0x20],
            LogLevel::Error => vec![0x5Du8, 0x20, 0x20, 0x45, 0x52, 0x52, 0x3A, 0x20],
        };
        crate::text::push_bytes(&mut r, word.as_slice());
        crate::text::push_bytes(&mut r, chunk);
        r.push(0x0A);
        assert(r@ =~= spec_serial_line(location, level, chunk@));
        r
    }
}

} // verus!
