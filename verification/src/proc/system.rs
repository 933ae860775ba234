//! The cartridge menu: the cartridges found on disk, a cursor over them
//! (shown a page of 12 at a time) and the one that is running.

use vstd::prelude::*;

use crate::font::{FontManager, FONT_HEIGHT, FONT_WIDTH};
use crate::frame_buffer::{spec_fill_rect, spec_text, FrameBuffer, PixelColor, PixelColorMode};
use crate::logger::covers_ascii;
use crate::text::{lemma_dec_padded_printable, push_bytes, push_dec_padded, spec_dec_padded};

verus! {

/// A cartridge file: its 8.3 name (without extension), its long name,
/// whether a saved state and battery RAM data exist for it.
pub struct CartridgeInfo {
    pub short_name: Vec<u8>,
    pub long_name: Vec<u8>,
    pub has_savedata: bool,
    pub has_ram: bool,
}

impl View for CartridgeInfo {
    type V = (Seq<u8>, Seq<u8>, bool, bool);

    open spec fn view(&self) -> (Seq<u8>, Seq<u8>, bool, bool) {
        (self.short_name@, self.long_name@, self.has_savedata, self.has_ram)
    }
}

fn copy_bytes(v: &Vec<u8>) -> (r: Vec<u8>)
    ensures
        r@ == v@,
{
    let mut r: Vec<u8> = Vec::new();
    push_bytes(&mut r, v.as_slice());
    assert(r@ =~= v@);
    r
}

impl CartridgeInfo {
    /// A copy of the information.
    pub fn duplicate(&self) -> (r: CartridgeInfo)
        ensures
            r@ == self@,
    {
        CartridgeInfo {
            short_name: copy_bytes(&self.short_name),
            long_name: copy_bytes(&self.long_name),
            has_savedata: self.has_savedata,
            has_ram: self.has_ram,
        }
    }
}

/// "Running: " and the long name, or the invitation to pick a cartridge.
pub open spec fn spec_title(running: Option<(Seq<u8>, Seq<u8>, bool, bool)>) -> Seq<u8> {
    match running {
        Some(c) => seq![0x52u8, 0x75, 0x6E, 0x6E, 0x69, 0x6E, 0x67, 0x3A, 0x20] + c.1,
        None => seq![0x53u8, 0x65, 0x6C, 0x65, 0x63, 0x74, 0x20, 0x61, 0x20, 0x63, 0x61, 0x72, 0x74, 0x72, 0x69, 0x64,
            0x67, 0x65, 0x20, 0x74, 0x6F, 0x20, 0x72, 0x75, 0x6E, 0x2E],
    }
}

/// A line of the list: the cartridge's number (from 1, at least two
/// digits), a colon and its long name.
pub open spec fn spec_entry_text(index: nat, c: (Seq<u8>, Seq<u8>, bool, bool)) -> Seq<u8> {
    spec_dec_padded(index + 1, 2) + seq![0x3Au8, 0x20] + c.1
}

/// The lines `k..` of the page starting at cartridge `first`, line `k` at
/// pixel row y: a green mark for a saved state, a blue one for battery
/// RAM, and the entry text, inverted under the cursor.
pub open spec fn spec_list_rows(carts: Seq<(Seq<u8>, Seq<u8>, bool, bool)>, cursor: int, v: (Seq<PixelColor>, Seq<bool>), pw: int, cs: int,
    font: FontManager, mode: PixelColorMode, first: int, k: int) -> (Seq<PixelColor>, Seq<bool>)
    decreases System::CARTRIDGE_LIST_MAX - k,
{
    if k < System::CARTRIDGE_LIST_MAX && first + k < carts.len() {
        let i = first + k;
        let c = carts[i];
        let y = 2 * FONT_HEIGHT + k * FONT_HEIGHT;
        let v1 = if c.2 { spec_fill_rect(v, pw, cs, 4, 12, y + 4, y + 12, FrameBuffer::spec_make_color(0x00, 0xFF, 0x00, mode)) } else { v };
        let v2 = if c.3 { spec_fill_rect(v1, pw, cs, 20, 28, y + 4, y + 12, FrameBuffer::spec_make_color(0x00, 0x00, 0xFF, mode)) } else { v1 };
        let white = FrameBuffer::spec_make_color(0xFF, 0xFF, 0xFF, mode);
        let black = FrameBuffer::spec_make_color(0x00, 0x00, 0x00, mode);
        let (fg, bg) = if i == cursor { (black, white) } else { (white, black) };
        let v3 = spec_text(v2, pw, cs, 32, y, spec_entry_text(i as nat, c), 0, font, fg, bg);
        spec_list_rows(carts, cursor, v3, pw, cs, font, mode, first, k + 1)
    } else {
        v
    }
}

pub struct System {
    pub running_cartridge: Option<CartridgeInfo>,
    pub cartridges: Vec<CartridgeInfo>,
    pub cursor: usize,
}

impl System {
    /// The lines of the cartridge list: the screen's 15 lines but the title
    /// and the gap below it and one at the bottom.
    pub const CARTRIDGE_LIST_MAX: usize = 12;

    pub open spec fn carts(&self) -> Seq<(Seq<u8>, Seq<u8>, bool, bool)> {
        Seq::new(self.cartridges@.len(), |i: int| self.cartridges@[i]@)
    }

    pub open spec fn running(&self) -> Option<(Seq<u8>, Seq<u8>, bool, bool)> {
        match self.running_cartridge {
            Some(c) => Some(c@),
            None => None,
        }
    }

    /// The cursor points at a cartridge, or is 0 when there is none.
    pub open spec fn wf(&self) -> bool {
        if self.cartridges@.len() == 0 { self.cursor == 0 } else { self.cursor < self.cartridges@.len() }
    }

    pub fn new() -> (r: System)
        ensures
            r.wf(),
            r.running_cartridge is None,
            r.cartridges@.len() == 0,
            r.cursor == 0,
    {
        System { running_cartridge: None, cartridges: Vec::new(), cursor: 0 }
    }

    /// Whether the running cartridge has battery RAM; nothing when none runs.
    pub fn has_ram(&self) -> (r: Option<bool>)
        ensures
            r == (match self.running_cartridge { Some(c) => Some(c.has_ram), None => None::<bool> }),
    {
        match &self.running_cartridge {
            Some(c) => Some(c.has_ram),
            None => None,
        }
    }

    /// The short name of the running cartridge.
    pub fn running_cartridge_name(&self) -> (r: Option<&[u8]>)
        ensures
            self.running_cartridge is None ==> r is None,
            self.running_cartridge matches Some(c) ==> (r matches Some(s) && s@ == c.short_name@),
    {
        match &self.running_cartridge {
            Some(c) => Some(c.short_name.as_slice()),
            None => None,
        }
    }

    pub fn game_initialized(&self) -> (r: bool)
        ensures
            r == self.running_cartridge is Some,
    {
        self.running_cartridge.is_some()
    }

    /// Takes the cartridges found on disk; the cursor goes to the first.
    pub fn update_cartridges(&mut self, infos: Vec<CartridgeInfo>)
        ensures
            final(self).wf(),
            final(self).cartridges@ == infos@,
            final(self).cursor == 0,
            final(self).running_cartridge == old(self).running_cartridge,
    {
        self.cartridges = infos;
        self.cursor = 0;
    }

    /// Marks the cartridge under the cursor as running and gives it, to be
    /// loaded; with no cartridge, nothing runs.
    pub fn load_selected_cartridge(&mut self) -> (r: Option<CartridgeInfo>)
        requires
            old(self).wf(),
        ensures
            final(self).wf(),
            final(self).cartridges == old(self).cartridges,
            final(self).cursor == old(self).cursor,
            old(self).cartridges@.len() == 0 ==> r is None && final(self).running_cartridge is None,
            old(self).cartridges@.len() > 0 ==> (r matches Some(c) && c@ == old(self).cartridges@[old(self).cursor as int]@
                && final(self).running() == Some(c@)),
    {
        if self.cartridges.len() == 0 {
            self.running_cartridge = None;
            None
        } else {
            let cart = self.cartridges[self.cursor].duplicate();
            self.running_cartridge = Some(cart.duplicate());
            Some(cart)
        }
    }

    /// The cursor moved down, wrapping to the first cartridge.
    pub open spec fn spec_cursor_forward(cursor: usize, len: int) -> usize {
        if cursor + 1 >= len { 0 } else { (cursor + 1) as usize }
    }

    /// The cursor moved up, wrapping to the last cartridge.
    pub open spec fn spec_cursor_back(cursor: usize, len: int) -> usize {
        if len == 0 { 0 } else if cursor == 0 { (len - 1) as usize } else { (cursor - 1) as usize }
    }

    /// With `n` cartridges and the cursor on one of them, moving up goes to
    /// (cursor + n - 1) mod n and moving down to (cursor + 1) mod n; moving
    /// down then up, or up then down, comes back to the same cartridge.
    pub proof fn lemma_cursor_moves(cursor: usize, n: int)
        requires
            0 < n <= usize::MAX,
            cursor < n,
        ensures
            Self::spec_cursor_back(cursor, n) == (cursor + n - 1) % n,
            Self::spec_cursor_forward(cursor, n) == (cursor + 1) % n,
            Self::spec_cursor_back(Self::spec_cursor_forward(cursor, n), n) == cursor,
            Self::spec_cursor_forward(Self::spec_cursor_back(cursor, n), n) == cursor,
    {
        if cursor == 0 {
            assert((cursor + n - 1) % n == n - 1) by {
                vstd::arithmetic::div_mod::lemma_small_mod((n - 1) as nat, n as nat);
            }
        } else {
            vstd::arithmetic::div_mod::lemma_mod_add_multiples_vanish(cursor - 1, n);
            vstd::arithmetic::div_mod::lemma_small_mod((cursor - 1) as nat, n as nat);
        }
        if cursor + 1 == n {
            vstd::arithmetic::div_mod::lemma_mod_self_0(n);
        } else {
            vstd::arithmetic::div_mod::lemma_small_mod((cursor + 1) as nat, n as nat);
        }
    }

    /// The menu with its cursor at `cursor`.
    pub open spec fn with_cursor(&self, cursor: usize) -> System {
        System { cursor, ..*self }
    }

    pub fn move_cursor_forward(&mut self, fb: &mut FrameBuffer, font: &FontManager)
        requires
            old(self).wf(),
            old(self).with_cursor(Self::spec_cursor_forward(old(self).cursor, old(self).cartridges@.len() as int)).shows_on(old(fb), font),
        ensures
            final(self).wf(),
            final(self).cartridges == old(self).cartridges,
            final(self).running_cartridge == old(self).running_cartridge,
            final(self).cursor == Self::spec_cursor_forward(old(self).cursor, old(self).cartridges@.len() as int),
            final(fb).wf(),
            final(fb).same_frame(old(fb)),
            final(fb)@ == final(self).spec_render(old(fb), *font, false),
    {
        let len = self.cartridges.len();
        self.cursor = if len == 0 || self.cursor >= len - 1 { 0 } else { self.cursor + 1 };
        assert(*self == old(self).with_cursor(self.cursor));
        self.render(fb, font, false);
    }

    pub fn move_cursor_back(&mut self, fb: &mut FrameBuffer, font: &FontManager)
        requires
            old(self).wf(),
            old(self).with_cursor(Self::spec_cursor_back(old(self).cursor, old(self).cartridges@.len() as int)).shows_on(old(fb), font),
        ensures
            final(self).wf(),
            final(self).cartridges == old(self).cartridges,
            final(self).running_cartridge == old(self).running_cartridge,
            final(self).cursor == Self::spec_cursor_back(old(self).cursor, old(self).cartridges@.len() as int),
            final(fb).wf(),
            final(fb).same_frame(old(fb)),
            final(fb)@ == final(self).spec_render(old(fb), *font, false),
    {
        if self.cartridges.len() == 0 {
            self.cursor = 0;
        } else {
            if self.cursor == 0 {
                self.cursor = self.cartridges.len();
            }
            self.cursor = self.cursor - 1;
        }
        assert(*self == old(self).with_cursor(self.cursor));
        self.render(fb, font, false);
    }

    pub open spec fn text_fits(fb: &FrameBuffer, x: int, y: int, n: int) -> bool {
        fb.block_fits(x, y, n * FONT_WIDTH, FONT_HEIGHT as int)
    }

    /// The menu can be drawn on `fb` with `font`: the screen has the NES
    /// picture's 240 lines and room for the marks, the title and the
    /// entries of the cursor's page fit in the buffer, and the font has
    /// their glyphs.
    pub open spec fn shows_on(&self, fb: &FrameBuffer, font: &FontManager) -> bool {
        let first = (self.cursor / Self::CARTRIDGE_LIST_MAX * Self::CARTRIDGE_LIST_MAX) as int;
        &&& fb.wf()
        &&& font.wf()
        &&& covers_ascii(font)
        &&& fb.width >= 32
        &&& fb.height >= 240
        &&& Self::text_fits(fb, 0, 0, spec_title(self.running()).len() as int)
        &&& forall|j: int| 0 <= j < spec_title(self.running()).len() ==> #[trigger] font.spec_has_glyph(spec_title(self.running())[j])
        &&& forall|k: int| 0 <= k < Self::CARTRIDGE_LIST_MAX && first + k < self.cartridges@.len() ==> {
            let c = #[trigger] self.carts()[first + k];
            &&& Self::text_fits(fb, 32, 2 * FONT_HEIGHT + k * FONT_HEIGHT, spec_entry_text((first + k) as nat, c).len() as int)
            &&& forall|j: int| 0 <= j < c.1.len() ==> #[trigger] font.spec_has_glyph(c.1[j])
        }
    }

    /// The menu: the title on the first line, then the cursor's page of
    /// the list from the third line (see `spec_list_rows`); the whole
    /// screen painted black first when `clear`.
    pub open spec fn spec_render(&self, fb: &FrameBuffer, font: FontManager, clear: bool) -> (Seq<PixelColor>, Seq<bool>) {
        let pw = fb.spec_pixel_width();
        let cs = fb.chunk_size as int;
        let mode = fb.mode;
        let white = FrameBuffer::spec_make_color(0xFF, 0xFF, 0xFF, mode);
        let black = FrameBuffer::spec_make_color(0x00, 0x00, 0x00, mode);
        let v0 = if clear { spec_fill_rect(fb@, pw, cs, 0, fb.width as int, 0, fb.height as int, black) } else { fb@ };
        let v1 = spec_text(v0, pw, cs, 0, 0, spec_title(self.running()), 0, font, white, black);
        let first = (self.cursor / Self::CARTRIDGE_LIST_MAX * Self::CARTRIDGE_LIST_MAX) as int;
        spec_list_rows(self.carts(), self.cursor as int, v1, pw, cs, font, mode, first, 0)
    }

    fn title_text(&self) -> (r: Vec<u8>)
        ensures
            r@ == spec_title(self.running()),
    {
        let mut t: Vec<u8> = Vec::new();
        match &self.running_cartridge {
            Some(c) => {
                let prefix: Vec<u8> = vec![0x52u8, 0x75, 0x6E, 0x6E, 0x69, 0x6E, 0x67, 0x3A, 0x20];
                push_bytes(&mut t, prefix.as_slice());
                push_bytes(&mut t, c.long_name.as_slice());
            },
            None => {
                let msg: Vec<u8> = vec![0x53u8, 0x65, 0x6C, 0x65, 0x63, 0x74, 0x20, 0x61, 0x20, 0x63, 0x61, 0x72, 0x74, 0x72, 0x69, 0x64,
                    0x67, 0x65, 0x20, 0x74, 0x6F, 0x20, 0x72, 0x75, 0x6E, 0x2E];
                push_bytes(&mut t, msg.as_slice());
            },
        }
        assert(t@ =~= spec_title(self.running()));
        t
    }

    /// Draws the menu (see `spec_render`).
    pub fn render(&self, fb: &mut FrameBuffer, font: &FontManager, clear: bool)
        requires
            self.wf(),
            self.shows_on(old(fb), font),
        ensures
            final(fb).wf(),
            final(fb).same_frame(old(fb)),
            final(fb)@ == self.spec_render(old(fb), *font, clear),
    {
        let ghost pw = fb.spec_pixel_width();
        let ghost cs = fb.chunk_size as int;
        let mode = fb.mode;
        let white = Self::text_color(mode);
        let black = Self::bg_color(mode);
        if clear {
            fb.clear(black);
        }
        let title = self.title_text();
        fb.draw_text(0, 0, title.as_slice(), white, black, font);
        let first = self.cursor / Self::CARTRIDGE_LIST_MAX * Self::CARTRIDGE_LIST_MAX;
        let ghost v1 = fb@;
        let mut k: usize = 0;
        let len = self.cartridges.len();
        while k < Self::CARTRIDGE_LIST_MAX && k < len - first
            invariant
                len == self.cartridges@.len(),
                first <= len,
                k <= Self::CARTRIDGE_LIST_MAX,
                self.wf(),
                self.shows_on(old(fb), font),
                first == self.cursor / Self::CARTRIDGE_LIST_MAX * Self::CARTRIDGE_LIST_MAX,
                first <= self.cursor,
                fb.wf(),
                fb.same_frame(old(fb)),
                pw == old(fb).spec_pixel_width(),
                cs == old(fb).chunk_size,
                mode == old(fb).mode,
                white == FrameBuffer::spec_make_color(0xFF, 0xFF, 0xFF, mode),
                black == FrameBuffer::spec_make_color(0x00, 0x00, 0x00, mode),
                spec_list_rows(self.carts(), self.cursor as int, v1, pw, cs, *font, mode, first as int, 0)
                    == spec_list_rows(self.carts(), self.cursor as int, fb@, pw, cs, *font, mode, first as int, k as int),
            decreases Self::CARTRIDGE_LIST_MAX - k,
        {
            let i = first + k;
            let cart = &self.cartridges[i];
            let y = 2 * FONT_HEIGHT as usize + k * FONT_HEIGHT as usize;
            if cart.has_savedata {
                fb.draw_rect(4, y + 4, 8, 8, FrameBuffer::make_color(0x00, 0xFF, 0x00, mode));
            }
            if cart.has_ram {
                fb.draw_rect(20, y + 4, 8, 8, FrameBuffer::make_color(0x00, 0x00, 0xFF, mode));
            }
            let (fg, bg) = if i == self.cursor { (black, white) } else { (white, black) };
            let mut text: Vec<u8> = Vec::new();
            push_dec_padded(&mut text, (i + 1) as u64, 2);
            text.push(0x3A);
            text.push(0x20);
            push_bytes(&mut text, cart.long_name.as_slice());
            proof {
                let c = self.carts()[i as int];
                assert(c == cart@);
                assert(text@ =~= spec_entry_text(i as nat, c));
                lemma_dec_padded_printable((i + 1) as nat, 2);
                assert forall|j: int| 0 <= j < text@.len() implies #[trigger] font.spec_has_glyph(text@[j]) by {
                    let d = spec_dec_padded((i + 1) as nat, 2);
                    if j < d.len() {
                        assert(text@[j] == d[j]);
                    } else if j < d.len() + 2 {
                    } else {
                        assert(text@[j] == c.1[j - d.len() - 2]);
                    }
                }
            }
            fb.draw_text(32, y, text.as_slice(), fg, bg, font);
            k = k + 1;
        }
    }

    pub fn text_color(mode: PixelColorMode) -> (c: PixelColor)
        ensures
            c == FrameBuffer::spec_make_color(0xFF, 0xFF, 0xFF, mode),
    {
        FrameBuffer::make_color(0xFF, 0xFF, 0xFF, mode)
    }

    pub fn bg_color(mode: PixelColorMode) -> (c: PixelColor)
        ensures
            c == FrameBuffer::spec_make_color(0x00, 0x00, 0x00, mode),
    {
        FrameBuffer::make_color(0x00, 0x00, 0x00, mode)
    }
}

} // verus!
