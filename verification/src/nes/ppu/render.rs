//! Rendering: the PPU runs cycle by cycle over a 341 x 262 frame, drawing
//! the background and the sprites that the previous line prepared into a
//! frame buffer, and moving its VRAM address as the scroll logic does.

use vstd::prelude::*;

use crate::frame_buffer::{lemma_chunk_in_bounds, spec_set_chunk, FrameBuffer, PixelColor, PixelColorMode};
use crate::nes::cartridge::Cartridge;
use crate::nes::cpu::{Fault, InterruptType, CPU};
use crate::nes::ppu::bus::PPUBus;
use crate::nes::ppu::oam::Sprite;
use crate::nes::ppu::color::{from_nes_color, spec_from_nes_color};
use crate::nes::ppu::{PPUCtrl, PPUMask, PPUStatus, PPU_CYCLE, PPU_VBLANK, SpriteRequest, NES_FRAME_HEIGHT, NES_FRAME_WIDTH, PPU, PALETTE_BASE_ADDR, PATTERN_SIZE};

verus! {

/// The name table byte of the tile that V points at.
pub open spec fn spec_tile_addr(v: u16) -> u16 {
    0x2000 | (v & 0x0FFF)
}

/// The attribute byte covering the tile that V points at.
pub open spec fn spec_attribute_addr(v: u16) -> u16 {
    0x23C0 | (v & 0x0C00) | ((v >> 4u16) & 0x38) | ((v >> 2u16) & 0x07)
}

/// V after moving one tile right: past column 31 it wraps to column 0 of
/// the horizontally adjacent name table.
pub open spec fn spec_coarse_x_inc(v: u16) -> u16 {
    if v & 0x1F == 31 {
        (v & !0x1Fu16) ^ 0x0400
    } else {
        (v + 1) as u16
    }
}

/// V after moving one pixel down: the fine Y counts 0..7, then the coarse Y
/// moves on; past row 29 it wraps to row 0 of the vertically adjacent name
/// table, and rows 30 and 31 (attribute data) wrap to row 0 of the same one.
pub open spec fn spec_y_inc(v: u16) -> u16 {
    if v & 0x7000 != 0x7000 {
        (v + 0x1000) as u16
    } else {
        let v1 = v & !0x7000u16;
        let y = (v1 & 0x03E0) >> 5u16;
        let (v2, y2) = if y == 29 {
            (v1 ^ 0x0800, 0u16)
        } else if y == 31 {
            (v1, 0u16)
        } else {
            (v1, (y + 1) as u16)
        };
        (v2 & !0x03E0u16) | (y2 << 5u16)
    }
}

/// V with its horizontal bits (coarse X and the name table X bit) from T.
pub open spec fn spec_horizontal_v(v: u16, t: u16) -> u16 {
    (v & 0b01111011_11100000) | (t & 0b00000100_00011111)
}

/// V with its vertical bits (fine Y, coarse Y, the name table Y bit) from T.
pub open spec fn spec_vertical_v(v: u16, t: u16) -> u16 {
    (v & 0b00000100_00011111) | (t & 0b01111011_11100000)
}

/// The palette of a tile: the 2 bits of its attribute byte for the
/// quadrant (bit 1 of its row and of its column) that it lies in.
pub open spec fn spec_palette_idx(tile_id: u16, attribute: u8) -> u8 {
    let offset = (((tile_id >> 6u16) & 1) << 1u16) | ((tile_id >> 1u16) & 1);
    (attribute >> ((offset * 2) as u8)) & 3
}

/// The 2-bit colour of pixel `rel` (0 leftmost) of a pattern row.
pub open spec fn spec_pattern_pixel(lo: u8, hi: u8, rel: u16) -> u8 {
    (((hi >> ((7 - rel) as u8)) & 1) << 1u8) | ((lo >> ((7 - rel) as u8)) & 1)
}

/// Bit `k` of a byte, as 0 or 1.
pub open spec fn byte_bit(b: u8, k: nat) -> int {
    (b as int / vstd::arithmetic::power2::pow2(k) as int) % 2
}

/// Pixel `x` (0 leftmost) of a pattern row takes bit 7 - x of each plane:
/// the plane at the pattern address gives bit 0 of the colour, the plane 8
/// bytes further bit 1.
pub proof fn lemma_pattern_pixel_planes(lo: u8, hi: u8, x: u16)
    requires
        x < 8,
    ensures
        spec_pattern_pixel(lo, hi, x) as int == 2 * byte_bit(hi, (7 - x) as nat) + byte_bit(lo, (7 - x) as nat),
{
    let s = (7 - x) as u8;
    vstd::bits::lemma_u8_shr_is_div(hi, s);
    vstd::bits::lemma_u8_shr_is_div(lo, s);
    let a = hi >> s;
    let b = lo >> s;
    assert((((a & 1) << 1u8) | (b & 1)) as int == 2 * (a % 2) + b % 2) by (bit_vector);
}

/// The screen colour of a palette entry, which must be one of the 64.
pub open spec fn spec_color(c: u8, grey_scale: bool, mode: PixelColorMode) -> Result<PixelColor, Fault> {
    if c < 0x40 {
        Ok(spec_from_nes_color(c, grey_scale, mode))
    } else {
        Err(Fault::Color(c))
    }
}

fn color(c: u8, grey_scale: bool, mode: PixelColorMode) -> (r: Result<PixelColor, Fault>)
    ensures
        r == spec_color(c, grey_scale, mode),
{
    if c < 0x40 {
        Ok(from_nes_color(c, grey_scale, mode))
    } else {
        Err(Fault::Color(c))
    }
}

fn pattern_pixel(lo: u8, hi: u8, rel: u16) -> (r: u8)
    requires
        rel < 8,
    ensures
        r == spec_pattern_pixel(lo, hi, rel),
        r < 4,
{
    let s = (7 - rel) as u8;
    let r = (((hi >> s) & 1) << 1u8) | ((lo >> s) & 1);
    assert((((hi >> s) & 1) << 1u8) | ((lo >> s) & 1) < 4) by (bit_vector);
    r
}

impl PPU {
    pub fn tile_addr(&self) -> (r: u16)
        ensures
            r == spec_tile_addr(self.reg_v),
    {
        0x2000 | (self.reg_v & 0x0FFF)
    }

    pub fn attribute_addr(&self) -> (r: u16)
        ensures
            r == spec_attribute_addr(self.reg_v),
    {
        0x23C0 | (self.reg_v & 0x0C00) | ((self.reg_v >> 4u16) & 0x38) | ((self.reg_v >> 2u16) & 0x07)
    }

    pub fn coarse_x_inc(&mut self)
        ensures
            *final(self) == (PPU { reg_v: spec_coarse_x_inc(old(self).reg_v), ..*old(self) }),
    {
        let v = self.reg_v;
        if (v & Self::COARSE_X_MASK) == 31 {
            self.reg_v = (v & !Self::COARSE_X_MASK) ^ 0x0400;
        } else {
            assert(v & 0x1F != 31 ==> v < 0xFFFF) by (bit_vector);
            self.reg_v = v + 1;
        }
    }

    pub fn y_inc(&mut self)
        ensures
            *final(self) == (PPU { reg_v: spec_y_inc(old(self).reg_v), ..*old(self) }),
    {
        let v = self.reg_v;
        if (v & Self::FINE_Y_MASK) != Self::FINE_Y_MASK {
            assert(v & 0x7000 != 0x7000 ==> v <= 0xEFFF) by (bit_vector);
            self.reg_v = v + 0x1000;
        } else {
            let v1 = v & !Self::FINE_Y_MASK;
            let y = (v1 & Self::COARSE_Y_MASK) >> 5u16;
            assert((v1 & 0x03E0) >> 5u16 <= 31) by (bit_vector);
            let (v2, y2) = if y == 29 {
                (v1 ^ 0x0800, 0u16)
            } else if y == 31 {
                (v1, 0u16)
            } else {
                (v1, y + 1)
            };
            self.reg_v = (v2 & !Self::COARSE_Y_MASK) | (y2 << 5u16);
        }
    }

    pub fn update_horizontal_v(&mut self)
        ensures
            *final(self) == (PPU { reg_v: spec_horizontal_v(old(self).reg_v, old(self).reg_t), ..*old(self) }),
    {
        self.reg_v = (self.reg_v & 0b01111011_11100000) | (self.reg_t & 0b00000100_00011111);
    }

    pub fn update_vertical_v(&mut self)
        ensures
            *final(self) == (PPU { reg_v: spec_vertical_v(old(self).reg_v, old(self).reg_t), ..*old(self) }),
    {
        self.reg_v = (self.reg_v & 0b00000100_00011111) | (self.reg_t & 0b01111011_11100000);
    }

    pub fn get_palette_idx(&self, tile_id: u16, attribute: u8) -> (r: u8)
        ensures
            r == spec_palette_idx(tile_id, attribute),
            r < 4,
    {
        let offset = (((tile_id >> 6u16) & 1) << 1u16) | ((tile_id >> 1u16) & 1);
        assert((((tile_id >> 6u16) & 1) << 1u16) | ((tile_id >> 1u16) & 1) < 4) by (bit_vector);
        let r = (attribute >> ((offset * 2) as u8)) & 3;
        assert((attribute >> ((offset * 2) as u8)) & 3 < 4) by (bit_vector);
        r
    }
}

/// The background pixel under the beam, if it is drawn and not
/// transparent: the tile V points at, its palette from the attribute
/// table, the pattern row of the fine Y and the pixel of the fine X.
#[verifier::opaque]
pub open spec fn spec_bg_color(p: PPU, c: Cartridge, mode: PixelColorMode) -> Result<Option<PixelColor>, Fault> {
    if !p.reg_mask.has(PPUMask::BG_VISIBLE) || (p.x < 8 && !p.reg_mask.has(PPUMask::BG_VISIBLE_LEFT8)) {
        Ok(None)
    } else {
        let tile = spec_tile_addr(p.reg_v);
        match PPUBus::spec_read(spec_attribute_addr(p.reg_v), p.vram, c) {
            Err(e) => Err(e),
            Ok(attribute) => {
                let palette = spec_palette_idx(tile, attribute);
                let fine_y = (p.reg_v & 0x7000) >> 12u16;
                match PPUBus::spec_read(tile, p.vram, c) {
                    Err(e) => Err(e),
                    Ok(pattern) => {
                        let base = (p.reg_ctrl.spec_bg_pattern_table() + pattern * PATTERN_SIZE) as u16;
                        match PPUBus::spec_read((base + fine_y) as u16, p.vram, c) {
                            Err(e) => Err(e),
                            Ok(lo) => match PPUBus::spec_read((base + PATTERN_SIZE / 2 + fine_y) as u16, p.vram, c) {
                                Err(e) => Err(e),
                                Ok(hi) => {
                                    let ci = spec_pattern_pixel(lo, hi, p.relative_x);
                                    if ci == 0 {
                                        Ok(None)
                                    } else {
                                        match PPUBus::spec_read((PALETTE_BASE_ADDR + palette * 4 + ci) as u16, p.vram, c) {
                                            Err(e) => Err(e),
                                            Ok(nes) => match spec_color(nes, p.reg_mask.has(PPUMask::GREY_SCALE), mode) {
                                                Err(e) => Err(e),
                                                Ok(col) => Ok(Some(col)),
                                            },
                                        }
                                    }
                                },
                            },
                        }
                    },
                }
            },
        }
    }
}

impl PPU {
    pub fn get_bg_color(&self, cartridge: &Cartridge, mode: PixelColorMode) -> (r: Result<Option<PixelColor>, Fault>)
        requires
            self.wf(),
            cartridge.wf(),
        ensures
            r == spec_bg_color(registers(*self), *cartridge, mode),
    {
        reveal(spec_bg_color);
        if !self.reg_mask.contains(PPUMask::BG_VISIBLE) || (self.x < 8 && !self.reg_mask.contains(PPUMask::BG_VISIBLE_LEFT8)) {
            return Ok(None);
        }
        let tile = self.tile_addr();
        let attribute = PPUBus::read(self.attribute_addr(), &self.vram, cartridge)?;
        let palette = self.get_palette_idx(tile, attribute);
        let v = self.reg_v;
        let fine_y = (v & Self::FINE_Y_MASK) >> 12u16;
        assert((v & 0x7000) >> 12u16 <= 7) by (bit_vector);
        let pattern = PPUBus::read(tile, &self.vram, cartridge)?;
        let base: u16 = self.reg_ctrl.bg_pattern_table() + pattern as u16 * PATTERN_SIZE;
        let lo = PPUBus::read(base + fine_y, &self.vram, cartridge)?;
        let hi = PPUBus::read(base + PATTERN_SIZE / 2 + fine_y, &self.vram, cartridge)?;
        let ci = pattern_pixel(lo, hi, self.relative_x);
        if ci == 0 {
            Ok(None)
        } else {
            let nes = PPUBus::read(PALETTE_BASE_ADDR + palette as u16 * 4 + ci as u16, &self.vram, cartridge)?;
            let col = color(nes, self.reg_mask.contains(PPUMask::GREY_SCALE), mode)?;
            Ok(Some(col))
        }
    }
}

/// What rendering changes: the PPU's registers (its two per-pixel layers
/// held apart, as sequences), the frame buffer and the cartridge.
pub struct RenderState {
    pub ppu: PPU,
    pub hits: Seq<bool>,
    pub layer: Seq<Option<SpriteRequest>>,
    pub fb: (Seq<PixelColor>, Seq<bool>),
    pub cartridge: Cartridge,
}

/// The registers of a PPU: the PPU with its per-pixel layers set aside.
pub open spec fn registers(p: PPU) -> PPU {
    PPU { sprite0_hit: vstd::pervasive::arbitrary(), sprites_layer: vstd::pervasive::arbitrary(), ..p }
}

/// The render state of a PPU, a frame buffer and a cartridge.
pub open spec fn state_of(p: PPU, fb: (Seq<PixelColor>, Seq<bool>), c: Cartridge) -> RenderState {
    RenderState { ppu: registers(p), hits: p.sprite0_hit@, layer: p.sprites_layer@, fb, cartridge: c }
}

/// The PPU, frame buffer and cartridge are those that `s` describes.
pub open spec fn holds(s: RenderState, p: PPU, fb: (Seq<PixelColor>, Seq<bool>), c: Cartridge) -> bool {
    state_of(p, fb, c) == s
}

pub open spec fn fault_result(f: Option<Fault>) -> Result<(), Fault> {
    match f {
        Some(e) => Err(e),
        None => Ok(()),
    }
}

/// The frame buffer chunk under the beam painted.
pub open spec fn spec_paint(s: RenderState, pw: int, cs: int, color: PixelColor) -> RenderState {
    RenderState { fb: spec_set_chunk(s.fb, pw, cs, s.ppu.x as int, s.ppu.y as int, color), ..s }
}

/// The sprite 0 hit flag raised.
pub open spec fn spec_hit(s: RenderState) -> RenderState {
    RenderState { ppu: PPU { reg_status: PPUStatus { bits: s.ppu.reg_status.bits | PPUStatus::SPRITE0_HIT }, ..s.ppu }, ..s }
}

/// The pixel under the beam: a sprite in front of the background is drawn
/// over it (and a sprite 0 pixel over an opaque background pixel raises
/// the hit flag); a sprite behind it shows where the background is
/// transparent (a sprite 0 pixel under an opaque one raises the flag);
/// with no sprite, the background shows, or where it is transparent the
/// universal background colour (palette entry 0).
#[verifier::opaque]
pub open spec fn spec_draw_pixel(s: RenderState, pw: int, cs: int, mode: PixelColorMode) -> (RenderState, Option<Fault>) {
    let p = s.ppu;
    let i = p.y * 256 + p.x;
    let grey = p.reg_mask.has(PPUMask::GREY_SCALE);
    match s.layer[i] {
        Some(req) => {
            if (req.priority / 64) % 2 != 0 {
                match spec_color(req.color, grey, mode) {
                    Err(e) => (s, Some(e)),
                    Ok(col) => {
                        let s1 = spec_paint(s, pw, cs, col);
                        if s.hits[i] {
                            match spec_bg_color(p, s.cartridge, mode) {
                                Err(e) => (s1, Some(e)),
                                Ok(b) => (if b is Some { spec_hit(s1) } else { s1 }, None),
                            }
                        } else {
                            (s1, None)
                        }
                    },
                }
            } else {
                match spec_bg_color(p, s.cartridge, mode) {
                    Err(e) => (s, Some(e)),
                    Ok(Some(col)) => {
                        let s1 = spec_paint(s, pw, cs, col);
                        (if s.hits[i] { spec_hit(s1) } else { s1 }, None)
                    },
                    Ok(None) => match spec_color(req.color, grey, mode) {
                        Err(e) => (s, Some(e)),
                        Ok(col) => (spec_paint(s, pw, cs, col), None),
                    },
                }
            }
        },
        None => match spec_bg_color(p, s.cartridge, mode) {
            Err(e) => (s, Some(e)),
            Ok(Some(col)) => (spec_paint(s, pw, cs, col), None),
            Ok(None) => match PPUBus::spec_read(PALETTE_BASE_ADDR, p.vram, s.cartridge) {
                Err(e) => (s, Some(e)),
                Ok(b) => match spec_color(b, grey, mode) {
                    Err(e) => (s, Some(e)),
                    Ok(col) => (spec_paint(s, pw, cs, col), None),
                },
            },
        },
    }
}

/// The frame buffer can show the whole NES picture.
pub open spec fn fb_fits(fb: &FrameBuffer) -> bool {
    &&& fb.wf()
    &&& fb.width >= NES_FRAME_WIDTH
    &&& fb.height >= NES_FRAME_HEIGHT
}

impl PPU {
    fn draw_pixel(&mut self, fb: &mut FrameBuffer, cartridge: &Cartridge) -> (r: Result<(), Fault>)
        requires
            old(self).wf(),
            cartridge.wf(),
            fb_fits(old(fb)),
            old(self).x < NES_FRAME_WIDTH,
            old(self).y < NES_FRAME_HEIGHT,
        ensures
            final(self).wf(),
            fb_fits(final(fb)),
            final(fb).same_frame(old(fb)),
            final(self).frame_counter == old(self).frame_counter,
            ({
                let (s2, f) = spec_draw_pixel(state_of(*old(self), old(fb)@, *cartridge),
                    old(fb).spec_pixel_width(), old(fb).chunk_size as int, old(fb).mode);
                holds(s2, *final(self), final(fb)@, *cartridge) && r == fault_result(f)
            }),
    {
        reveal(spec_draw_pixel);
        proof {
            lemma_chunk_in_bounds(fb.width as int, fb.height as int, fb.chunk_size as int, self.x as int, self.y as int);
        }
        let i: usize = self.y as usize * 256 + self.x as usize;
        let grey = self.reg_mask.contains(PPUMask::GREY_SCALE);
        let mode = fb.mode;
        let x = self.x as usize;
        let y = self.y as usize;
        match self.sprites_layer[i] {
            Some(req) => {
                if !req.background() {
                    let col = color(req.color, grey, mode)?;
                    fb.set_chunk(x, y, col);
                    if self.sprite0_hit[i] {
                        let b = self.get_bg_color(cartridge, mode)?;
                        if b.is_some() {
                            self.reg_status.bits = self.reg_status.bits | PPUStatus::SPRITE0_HIT;
                        }
                    }
                } else {
                    match self.get_bg_color(cartridge, mode)? {
                        Some(col) => {
                            fb.set_chunk(x, y, col);
                            if self.sprite0_hit[i] {
                                self.reg_status.bits = self.reg_status.bits | PPUStatus::SPRITE0_HIT;
                            }
                        },
                        None => {
                            let col = color(req.color, grey, mode)?;
                            fb.set_chunk(x, y, col);
                        },
                    }
                }
            },
            None => match self.get_bg_color(cartridge, mode)? {
                Some(col) => {
                    fb.set_chunk(x, y, col);
                },
                None => {
                    let b = PPUBus::read(PALETTE_BASE_ADDR, &self.vram, cartridge)?;
                    let col = color(b, grey, mode)?;
                    fb.set_chunk(x, y, col);
                },
            },
        }
        Ok(())
    }
}

/// The highest frame count whose sprite priorities fit in a `usize`.
pub const MAX_FRAME: usize = (usize::MAX - 127) / 128;

/// Line `ty` of the sprite layer with the requests of earlier frames dropped.
pub open spec fn spec_clean_line(layer: Seq<Option<SpriteRequest>>, ty: int, frame: usize) -> Seq<Option<SpriteRequest>> {
    Seq::new(layer.len(), |i: int|
        if ty * 256 <= i < ty * 256 + 256 && (layer[i] matches Some(r) && r.priority / 128 < frame) { None } else { layer[i] })
}

/// The request of sprite `k` for a pixel of colour `color` in frame `frame`.
pub open spec fn spec_request(frame: usize, k: int, sprite: Sprite, color: u8) -> SpriteRequest {
    SpriteRequest { priority: SpriteRequest::spec_priority(frame, k as usize, (sprite.attributes / 32) % 2 == 1) as usize, color }
}

/// Pixels `x..` of one pattern row (`lo`, `hi`) of sprite `k` on line `y`:
/// each opaque pixel marks the sprite 0 hit layer (for sprite 0) and asks
/// for its colour, which replaces the pixel's request unless that one has
/// a higher priority. The left 8 pixels are skipped unless the mask shows
/// sprites there; the line ends at pixel 255.
#[verifier::opaque]
pub open spec fn spec_sprite_pixels(p: PPU, c: Cartridge, k: int, sprite: Sprite, y: int, lo: u8, hi: u8, x: int,
    hits: Seq<bool>, layer: Seq<Option<SpriteRequest>>) -> (Seq<bool>, Seq<Option<SpriteRequest>>, Option<Fault>)
    decreases sprite.x + 8 - x,
{
    let left = sprite.x as int;
    if x < left + 8 && x < 256 {
        if x < 8 && !p.reg_mask.has(PPUMask::SPRITE_VISIBLE_LEFT8) {
            spec_sprite_pixels(p, c, k, sprite, y, lo, hi, x + 1, hits, layer)
        } else {
            let rel = if (sprite.attributes / 64) % 2 == 1 { 7 + left - x } else { x - left };
            let ci = spec_pattern_pixel(lo, hi, rel as u16);
            if ci == 0 {
                spec_sprite_pixels(p, c, k, sprite, y, lo, hi, x + 1, hits, layer)
            } else {
                let i = y * 256 + x;
                let hits1 = if k == 0 { hits.update(i, true) } else { hits };
                match PPUBus::spec_read((PALETTE_BASE_ADDR + 0x10 + (sprite.attributes % 4) * 4 + ci) as u16, p.vram, c) {
                    Err(e) => (hits1, layer, Some(e)),
                    Ok(col) => {
                        let req = spec_request(p.frame_counter, k, sprite, col);
                        let layer1 = if layer[i] is None || layer[i]->0.priority < req.priority {
                            layer.update(i, Some(req))
                        } else {
                            layer
                        };
                        spec_sprite_pixels(p, c, k, sprite, y, lo, hi, x + 1, hits1, layer1)
                    },
                }
            }
        }
    } else {
        (hits, layer, None)
    }
}

/// The row of sprite `k` (its top on line `top`) that line `yy` shows:
/// flipped vertically when asked; 8x16 sprites take their pattern table
/// from bit 0 of the tile index and their lower half from the next tile.
pub open spec fn spec_sprite_row_addr(p: PPU, sprite: Sprite, top: int, yy: int) -> u16 {
    let size = p.reg_ctrl.spec_sprite_size() as int;
    let pi = sprite.pattern_index;
    let rel_y = (if sprite.attributes >= 128 { size - 1 + top - yy } else { yy - top }) as u16;
    let pattern: u8 = if size == 16 { (pi & !1u8) | (if rel_y >= 8 { 1u8 } else { 0u8 }) } else { pi };
    let base: u16 = if size == 16 { ((pi as u16 & 1) * 0x1000) as u16 } else { p.reg_ctrl.spec_sprite_pattern_table() };
    (base + pattern * PATTERN_SIZE + (rel_y & 7)) as u16
}

/// Lines `yy..` of sprite `k`, whose top is on line `top`, down to its
/// size or the end of the picture.
#[verifier::opaque]
pub open spec fn spec_sprite_rows(p: PPU, c: Cartridge, k: int, sprite: Sprite, top: int, yy: int,
    hits: Seq<bool>, layer: Seq<Option<SpriteRequest>>) -> (Seq<bool>, Seq<Option<SpriteRequest>>, Option<Fault>)
    decreases top + 16 - yy,
{
    if yy < top + p.reg_ctrl.spec_sprite_size() && yy < NES_FRAME_HEIGHT {
        let a = spec_sprite_row_addr(p, sprite, top, yy);
        match PPUBus::spec_read(a, p.vram, c) {
            Err(e) => (hits, layer, Some(e)),
            Ok(lo) => match PPUBus::spec_read((a + PATTERN_SIZE / 2) as u16, p.vram, c) {
                Err(e) => (hits, layer, Some(e)),
                Ok(hi) => {
                    let (h2, l2, f) = spec_sprite_pixels(p, c, k, sprite, yy, lo, hi, sprite.x as int, hits, layer);
                    if f is Some {
                        (h2, l2, f)
                    } else {
                        spec_sprite_rows(p, c, k, sprite, top, yy + 1, h2, l2)
                    }
                },
            },
        }
    } else {
        (hits, layer, None)
    }
}

/// Sprites `k..` of OAM: those on the current line start on the next.
pub open spec fn spec_sprites(p: PPU, c: Cartridge, k: int, hits: Seq<bool>, layer: Seq<Option<SpriteRequest>>)
    -> (Seq<bool>, Seq<Option<SpriteRequest>>, Option<Fault>)
    decreases 64 - k,
{
    if 0 <= k < 64 {
        let sprite = p.oam.sprites[k];
        if sprite.y as u16 != p.y {
            spec_sprites(p, c, k + 1, hits, layer)
        } else {
            let (h2, l2, f) = spec_sprite_rows(p, c, k, sprite, p.y + 1, p.y + 1, hits, layer);
            if f is Some {
                (h2, l2, f)
            } else {
                spec_sprites(p, c, k + 1, h2, l2)
            }
        }
    } else {
        (hits, layer, None)
    }
}

/// Preparing the next line's sprites: that line's requests of earlier
/// frames are dropped, then (when sprites are shown) every sprite on the
/// current line is laid out on the lines below it.
#[verifier::opaque]
pub open spec fn spec_reflect(p: PPU, hits: Seq<bool>, layer: Seq<Option<SpriteRequest>>, c: Cartridge)
    -> (Seq<bool>, Seq<Option<SpriteRequest>>, Option<Fault>)
{
    let ty = p.y + 1;
    if ty >= NES_FRAME_HEIGHT {
        (hits, layer, None)
    } else {
        let cleaned = spec_clean_line(layer, ty, p.frame_counter);
        if !p.reg_mask.has(PPUMask::SPRITE_VISIBLE) {
            (hits, cleaned, None)
        } else {
            spec_sprites(p, c, 0, hits, cleaned)
        }
    }
}

impl PPU {
    /// The PPU is `p0` but for its two per-pixel layers.
    pub open spec fn same_but_layers(&self, p0: PPU) -> bool {
        *self == (PPU { sprite0_hit: self.sprite0_hit, sprites_layer: self.sprites_layer, ..p0 })
    }

    fn clean_line(&mut self, ty: u16)
        requires
            old(self).wf(),
            ty < NES_FRAME_HEIGHT,
        ensures
            final(self).wf(),
            *final(self) == (PPU { sprites_layer: final(self).sprites_layer, ..*old(self) }),
            final(self).sprites_layer@ == spec_clean_line(old(self).sprites_layer@, ty as int, old(self).frame_counter),
    {
        let base_i: usize = ty as usize * 256;
        let ghost l0 = self.sprites_layer@;
        let mut x: usize = 0;
        while x < 256
            invariant
                x <= 256,
                base_i == ty * 256,
                ty < NES_FRAME_HEIGHT,
                old(self).wf(),
                l0 == old(self).sprites_layer@,
                *self == (PPU { sprites_layer: self.sprites_layer, ..*old(self) }),
                self.sprites_layer@ == Seq::new(l0.len(), |i: int|
                    if base_i <= i < base_i + x && (l0[i] matches Some(r) && r.priority / 128 < old(self).frame_counter) { None } else { l0[i] }),
            decreases 256 - x,
        {
            let i = base_i + x;
            if let Some(req) = self.sprites_layer[i] {
                if req.frame() < self.frame_counter {
                    self.sprites_layer.set(i, None);
                }
            }
            x = x + 1;
            proof {
                assert(self.sprites_layer@ =~= Seq::new(l0.len(), |i: int|
                    if base_i <= i < base_i + x && (l0[i] matches Some(r) && r.priority / 128 < old(self).frame_counter) { None } else { l0[i] }));
            }
        }
        assert(self.sprites_layer@ =~= spec_clean_line(l0, ty as int, old(self).frame_counter));
    }

    fn sprite_pixels(&mut self, Ghost(p0): Ghost<PPU>, cartridge: &Cartridge, k: usize, sprite: Sprite, yy: u16, lo: u8, hi: u8) -> (r: Result<(), Fault>)
        requires
            old(self).wf(),
            old(self).same_but_layers(p0),
            cartridge.wf(),
            k < 64,
            yy < NES_FRAME_HEIGHT,
            p0.frame_counter <= MAX_FRAME,
        ensures
            final(self).wf(),
            final(self).same_but_layers(p0),
            ({
                let (h, l, f) = spec_sprite_pixels(p0, *cartridge, k as int, sprite, yy as int, lo, hi, sprite.x as int,
                    old(self).sprite0_hit@, old(self).sprites_layer@);
                final(self).sprite0_hit@ == h && final(self).sprites_layer@ == l && r == fault_result(f)
            }),
    {
        reveal(spec_sprite_pixels);
        let left: u16 = sprite.x as u16;
        let mut xx: u16 = left;
        while xx < left + 8 && xx < NES_FRAME_WIDTH as u16
            invariant
                left == sprite.x,
                left <= xx <= left + 8,
                k < 64,
                yy < NES_FRAME_HEIGHT,
                p0.frame_counter <= MAX_FRAME,
                cartridge.wf(),
                self.wf(),
                self.same_but_layers(p0),
                spec_sprite_pixels(p0, *cartridge, k as int, sprite, yy as int, lo, hi, left as int, old(self).sprite0_hit@, old(self).sprites_layer@)
                    == spec_sprite_pixels(p0, *cartridge, k as int, sprite, yy as int, lo, hi, xx as int, self.sprite0_hit@, self.sprites_layer@),
            decreases left + 8 - xx,
        {
            proof {
                reveal(spec_sprite_pixels);
            }
            if !(xx < 8 && !self.reg_mask.contains(PPUMask::SPRITE_VISIBLE_LEFT8)) {
                let rel_x: u16 = if sprite.flip_horizontal() { 7 + left - xx } else { xx - left };
                let ci = pattern_pixel(lo, hi, rel_x);
                if ci != 0 {
                    let i: usize = yy as usize * 256 + xx as usize;
                    if k == 0 {
                        self.sprite0_hit.set(i, true);
                    }
                    let col = PPUBus::read(PALETTE_BASE_ADDR + 0x10 + sprite.palette_idx() as u16 * 4 + ci as u16, &self.vram, cartridge)?;
                    let req = SpriteRequest::new(self.frame_counter, k, sprite.background(), col);
                    let replace = match self.sprites_layer[i] {
                        None => true,
                        Some(t) => t.priority < req.priority,
                    };
                    if replace {
                        self.sprites_layer.set(i, Some(req));
                    }
                }
            }
            xx = xx + 1;
        }
        Ok(())
    }

    fn sprite_rows(&mut self, Ghost(p0): Ghost<PPU>, cartridge: &Cartridge, k: usize, sprite: Sprite, top: u16) -> (r: Result<(), Fault>)
        requires
            old(self).wf(),
            old(self).same_but_layers(p0),
            cartridge.wf(),
            k < 64,
            top < NES_FRAME_HEIGHT,
            p0.frame_counter <= MAX_FRAME,
        ensures
            final(self).wf(),
            final(self).same_but_layers(p0),
            ({
                let (h, l, f) = spec_sprite_rows(p0, *cartridge, k as int, sprite, top as int, top as int,
                    old(self).sprite0_hit@, old(self).sprites_layer@);
                final(self).sprite0_hit@ == h && final(self).sprites_layer@ == l && r == fault_result(f)
            }),
    {
        reveal(spec_sprite_rows);
        let size: u16 = self.reg_ctrl.sprite_size() as u16;
        let pattern_idx = sprite.pattern_index;
        assert(pattern_idx as u16 & 1 <= 1) by (bit_vector);
        let base: u16 = if size == 16 { (pattern_idx as u16 & 1) * 0x1000 } else { self.reg_ctrl.sprite_pattern_table() };
        let mut yy: u16 = top;
        while yy < top + size && yy < NES_FRAME_HEIGHT as u16
            invariant
                top <= yy <= top + size,
                top < NES_FRAME_HEIGHT,
                size == p0.reg_ctrl.spec_sprite_size(),
                pattern_idx == sprite.pattern_index,
                base == (if size == 16 { (pattern_idx as u16 & 1) * 0x1000 } else { p0.reg_ctrl.spec_sprite_pattern_table() as int }),
                base <= 0x1000,
                k < 64,
                p0.frame_counter <= MAX_FRAME,
                cartridge.wf(),
                self.wf(),
                self.same_but_layers(p0),
                spec_sprite_rows(p0, *cartridge, k as int, sprite, top as int, top as int, old(self).sprite0_hit@, old(self).sprites_layer@)
                    == spec_sprite_rows(p0, *cartridge, k as int, sprite, top as int, yy as int, self.sprite0_hit@, self.sprites_layer@),
            decreases top + size - yy,
        {
            proof {
                reveal(spec_sprite_rows);
            }
            let rel_y: u16 = if sprite.flip_vertical() { size - 1 + top - yy } else { yy - top };
            let pattern: u8 = if size == 16 { (pattern_idx & !1u8) | (if rel_y >= 8 { 1u8 } else { 0u8 }) } else { pattern_idx };
            assert(rel_y & 7 <= 7) by (bit_vector);
            let a: u16 = base + pattern as u16 * PATTERN_SIZE + (rel_y & 7);
            assert(a == spec_sprite_row_addr(p0, sprite, top as int, yy as int));
            let lo = PPUBus::read(a, &self.vram, cartridge)?;
            let hi = PPUBus::read(a + PATTERN_SIZE / 2, &self.vram, cartridge)?;
            self.sprite_pixels(Ghost(p0), cartridge, k, sprite, yy, lo, hi)?;
            yy = yy + 1;
        }
        Ok(())
    }

    pub fn reflect_next_line_sprites(&mut self, cartridge: &Cartridge) -> (r: Result<(), Fault>)
        requires
            old(self).wf(),
            cartridge.wf(),
            old(self).frame_counter <= MAX_FRAME,
        ensures
            final(self).wf(),
            final(self).same_but_layers(registers(*old(self))),
            ({
                let (h, l, f) = spec_reflect(registers(*old(self)), old(self).sprite0_hit@, old(self).sprites_layer@, *cartridge);
                final(self).sprite0_hit@ == h && final(self).sprites_layer@ == l && r == fault_result(f)
            }),
    {
        reveal(spec_reflect);
        let ghost p0 = registers(*old(self));
        let target_y: u16 = self.y + 1;
        if target_y >= NES_FRAME_HEIGHT as u16 {
            return Ok(());
        }
        self.clean_line(target_y);
        if !self.reg_mask.contains(PPUMask::SPRITE_VISIBLE) {
            return Ok(());
        }
        let ghost h1 = self.sprite0_hit@;
        let ghost l1 = self.sprites_layer@;
        let mut k: usize = 0;
        while k < 64
            invariant
                k <= 64,
                p0 == registers(*old(self)),
                h1 == old(self).sprite0_hit@,
                l1 == spec_clean_line(old(self).sprites_layer@, target_y as int, p0.frame_counter),
                p0.reg_mask.has(PPUMask::SPRITE_VISIBLE),
                spec_reflect(p0, old(self).sprite0_hit@, old(self).sprites_layer@, *cartridge) == spec_sprites(p0, *cartridge, 0, h1, l1),
                target_y == p0.y + 1,
                target_y < NES_FRAME_HEIGHT,
                p0.frame_counter <= MAX_FRAME,
                cartridge.wf(),
                self.wf(),
                self.same_but_layers(p0),
                spec_sprites(p0, *cartridge, 0, h1, l1) == spec_sprites(p0, *cartridge, k as int, self.sprite0_hit@, self.sprites_layer@),
            decreases 64 - k,
        {
            let sprite = self.oam.sprites[k];
            if sprite.y as u16 == self.y {
                self.sprite_rows(Ghost(p0), cartridge, k, sprite, target_y)?;
            }
            k = k + 1;
        }
        Ok(())
    }
}

pub open spec fn with_ppu(s: RenderState, p: PPU) -> RenderState {
    RenderState { ppu: p, ..s }
}

/// The cycle on which an MMC3 cartridge counts a rendered line.
pub open spec fn spec_counts_line(p: PPU) -> bool {
    &&& p.x == PPU::IRQ_CYCLE
    &&& p.y < NES_FRAME_HEIGHT
    &&& p.reg_ctrl.spec_bg_pattern_table() != p.reg_ctrl.spec_sprite_pattern_table()
    &&& (p.reg_mask.has(PPUMask::BG_VISIBLE) || p.reg_mask.has(PPUMask::SPRITE_VISIBLE))
}

/// One PPU cycle at the beam position (x, y) of a 341 x 262 frame:
/// - x = 0 loads the fine X scroll;
/// - a visible pixel (x < 256, y < 240) is drawn, and the fine X moves on
///   (to the next tile after 8 pixels);
/// - x = 256 on a visible line prepares the next line's sprites and moves
///   V down a pixel; x = 257 reloads V's horizontal bits from T;
/// - x = 280..304 on the pre-render line (261) reloads V's vertical bits;
/// - x = 260 on a visible line clocks the cartridge's line counter when
///   background and sprites use different pattern tables and one is shown;
/// - (0, 240) starts the vertical blank: VBLANK is set and, when enabled,
///   an NMI raised;
/// then the beam moves on; past line 261 it returns to the top, VBLANK and
/// the sprite 0 hit are cleared with the hit layer, and a frame is counted.
/// A fault stops the cycle where it arose.
pub open spec fn spec_tick(s: RenderState, cpu: CPU, pw: int, cs: int, mode: PixelColorMode) -> (RenderState, CPU, Option<Fault>) {
    let (s2, f) = spec_tick_draw(s, pw, cs, mode);
    if f is Some {
        (s2, cpu, f)
    } else {
        let (s9, c9) = spec_tick_advance(s2, cpu);
        (s9, c9, None)
    }
}

/// The drawing part of a cycle: the fine X load, the pixel, and the next
/// line's sprites at the end of a visible line.
pub open spec fn spec_tick_draw(s: RenderState, pw: int, cs: int, mode: PixelColorMode) -> (RenderState, Option<Fault>) {
    let p0 = s.ppu;
    let s0 = if p0.x == 0 { with_ppu(s, PPU { relative_x: p0.reg_x as u16, ..p0 }) } else { s };
    let (s1, f1) = if s0.ppu.x < NES_FRAME_WIDTH && s0.ppu.y < NES_FRAME_HEIGHT {
        let (sa, fa) = spec_draw_pixel(s0, pw, cs, mode);
        if fa is Some {
            (sa, fa)
        } else {
            let rx = (sa.ppu.relative_x + 1) as u16;
            (if rx == 8 {
                with_ppu(sa, PPU { relative_x: 0, reg_v: spec_coarse_x_inc(sa.ppu.reg_v), ..sa.ppu })
            } else {
                with_ppu(sa, PPU { relative_x: rx, ..sa.ppu })
            }, None)
        }
    } else {
        (s0, None)
    };
    if f1 is Some {
        (s1, f1)
    } else if s1.ppu.x == NES_FRAME_WIDTH && s1.ppu.y < NES_FRAME_HEIGHT {
        let (h, l, f) = spec_reflect(s1.ppu, s1.hits, s1.layer, s1.cartridge);
        let sb = RenderState { hits: h, layer: l, ..s1 };
        if f is Some {
            (sb, f)
        } else {
            (with_ppu(sb, PPU { reg_v: spec_y_inc(sb.ppu.reg_v), ..sb.ppu }), None)
        }
    } else {
        (s1, None)
    }
}

/// The rest of a cycle: V reloads, the cartridge's line counter, the
/// vertical blank, and the beam moving on.
pub open spec fn spec_tick_advance(s2: RenderState, cpu: CPU) -> (RenderState, CPU) {
    let p2 = s2.ppu;
    let s3 = if p2.x == NES_FRAME_WIDTH + 1 && p2.y < NES_FRAME_HEIGHT {
        with_ppu(s2, PPU { reg_v: spec_horizontal_v(p2.reg_v, p2.reg_t), ..p2 })
    } else {
        s2
    };
    let p3 = s3.ppu;
    let s4 = if 280 <= p3.x <= 304 && p3.y == NES_FRAME_HEIGHT + PPU_VBLANK - 1 {
        with_ppu(s3, PPU { reg_v: spec_vertical_v(p3.reg_v, p3.reg_t), ..p3 })
    } else {
        s3
    };
    let (s5, cpu5) = if spec_counts_line(s4.ppu) {
        let (c2, cpu2) = s4.cartridge.spec_irq_clock(cpu);
        (RenderState { cartridge: c2, ..s4 }, cpu2)
    } else {
        (s4, cpu)
    };
    let p5 = s5.ppu;
    let (s6, cpu6) = if p5.x == 0 && p5.y == NES_FRAME_HEIGHT {
        (with_ppu(s5, PPU { reg_status: PPUStatus { bits: p5.reg_status.bits | PPUStatus::VBLANK }, ..p5 }),
         if p5.reg_ctrl.has(PPUCtrl::NMI_ENABLE) { CPU { interrupt: cpu5.interrupt.spec_with(InterruptType::NMI, true), ..cpu5 } } else { cpu5 })
    } else {
        (s5, cpu5)
    };
    let p6 = s6.ppu;
    let x7 = (p6.x + 1) as u16;
    let (x8, y8) = if x7 >= PPU_CYCLE { (0u16, (p6.y + 1) as u16) } else { (x7, p6.y) };
    let s8 = with_ppu(s6, PPU { x: x8, y: y8, ..p6 });
    let s9 = if y8 >= NES_FRAME_HEIGHT + PPU_VBLANK {
        RenderState {
            ppu: PPU { y: 0, reg_status: PPUStatus { bits: p6.reg_status.bits & 0x3F }, frame_counter: (p6.frame_counter + 1) as usize, ..s8.ppu },
            hits: Seq::new(s8.hits.len(), |i: int| false),
            ..s8
        }
    } else {
        s8
    };
    (s9, cpu6)
}

/// `n` PPU cycles, stopping at the first fault.
pub open spec fn spec_render(s: RenderState, cpu: CPU, pw: int, cs: int, mode: PixelColorMode, n: nat) -> (RenderState, CPU, Option<Fault>)
    decreases n,
{
    if n == 0 {
        (s, cpu, None)
    } else {
        let (s1, c1, f) = spec_tick(s, cpu, pw, cs, mode);
        if f is Some {
            (s1, c1, f)
        } else {
            spec_render(s1, c1, pw, cs, mode, (n - 1) as nat)
        }
    }
}

impl PPU {
    /// Clears the sprite 0 hit layer.
    pub fn clear_sprite0_hit_flags(&mut self)
        requires
            old(self).wf(),
        ensures
            final(self).wf(),
            *final(self) == (PPU { sprite0_hit: final(self).sprite0_hit, ..*old(self) }),
            final(self).sprite0_hit@ == Seq::new(old(self).sprite0_hit@.len(), |i: int| false),
    {
        let mut i: usize = 0;
        while i < self.sprite0_hit.len()
            invariant
                old(self).wf(),
                *self == (PPU { sprite0_hit: self.sprite0_hit, ..*old(self) }),
                self.sprite0_hit@.len() == old(self).sprite0_hit@.len(),
                i <= self.sprite0_hit@.len(),
                forall|j: int| 0 <= j < i ==> !#[trigger] self.sprite0_hit@[j],
            decreases self.sprite0_hit@.len() - i,
        {
            self.sprite0_hit.set(i, false);
            i = i + 1;
        }
        assert(self.sprite0_hit@ =~= Seq::new(old(self).sprite0_hit@.len(), |i: int| false));
    }

    fn tick_draw(&mut self, fb: &mut FrameBuffer, cartridge: &Cartridge) -> (r: Result<(), Fault>)
        requires
            old(self).wf(),
            cartridge.wf(),
            fb_fits(old(fb)),
            old(self).frame_counter < MAX_FRAME,
        ensures
            final(self).wf(),
            fb_fits(final(fb)),
            final(fb).same_frame(old(fb)),
            final(self).frame_counter == old(self).frame_counter,
            ({
                let (s2, f) = spec_tick_draw(state_of(*old(self), old(fb)@, *cartridge),
                    old(fb).spec_pixel_width(), old(fb).chunk_size as int, old(fb).mode);
                holds(s2, *final(self), final(fb)@, *cartridge) && r == fault_result(f)
            }),
    {
        if self.x == 0 {
            self.relative_x = self.reg_x as u16;
        }
        if self.x < NES_FRAME_WIDTH as u16 && self.y < NES_FRAME_HEIGHT as u16 {
            self.draw_pixel(fb, cartridge)?;
            self.relative_x = self.relative_x + 1;
            if self.relative_x == 8 {
                self.relative_x = 0;
                self.coarse_x_inc();
            }
        }
        if self.x == NES_FRAME_WIDTH as u16 && self.y < NES_FRAME_HEIGHT as u16 {
            self.reflect_next_line_sprites(cartridge)?;
            self.y_inc();
        }
        Ok(())
    }

    fn tick_advance(&mut self, fb: &FrameBuffer, cpu: &mut CPU, cartridge: &mut Cartridge)
        requires
            old(self).wf(),
            old(cartridge).wf(),
            old(self).frame_counter < MAX_FRAME,
        ensures
            final(self).wf(),
            final(cartridge).wf(),
            final(self).frame_counter <= old(self).frame_counter + 1,
            ({
                let (s9, c9) = spec_tick_advance(state_of(*old(self), fb@, *old(cartridge)), *old(cpu));
                holds(s9, *final(self), fb@, *final(cartridge)) && *final(cpu) == c9
            }),
    {
        if self.x == NES_FRAME_WIDTH as u16 + 1 && self.y < NES_FRAME_HEIGHT as u16 {
            self.update_horizontal_v();
        }
        if 280 <= self.x && self.x <= 304 && self.y == NES_FRAME_HEIGHT as u16 + PPU_VBLANK - 1 {
            self.update_vertical_v();
        }
        if self.x == Self::IRQ_CYCLE && self.y < NES_FRAME_HEIGHT as u16
            && self.reg_ctrl.bg_pattern_table() != self.reg_ctrl.sprite_pattern_table()
            && (self.reg_mask.contains(PPUMask::BG_VISIBLE) || self.reg_mask.contains(PPUMask::SPRITE_VISIBLE))
        {
            cartridge.irq_clock(cpu);
        }
        if self.x == 0 && self.y == NES_FRAME_HEIGHT as u16 {
            self.reg_status.bits = self.reg_status.bits | PPUStatus::VBLANK;
            if self.reg_ctrl.nmi_enable() {
                cpu.interrupt(InterruptType::NMI);
            }
        }
        self.x = self.x + 1;
        if self.x >= PPU_CYCLE {
            self.x = 0;
            self.y = self.y + 1;
        }
        if self.y >= NES_FRAME_HEIGHT as u16 + PPU_VBLANK {
            self.y = 0;
            self.reg_status.bits = self.reg_status.bits & 0x3F;
            self.clear_sprite0_hit_flags();
            self.frame_counter = self.frame_counter + 1;
        }
    }

    /// Runs the PPU for `cycles` cycles (see `spec_tick`), drawing into the
    /// frame buffer.
    pub fn render_bg(&mut self, cycles: usize, frame_buffer: &mut FrameBuffer, cpu: &mut CPU, cartridge: &mut Cartridge) -> (r: Result<(), Fault>)
        requires
            old(self).wf(),
            old(cartridge).wf(),
            fb_fits(old(frame_buffer)),
            old(self).frame_counter + cycles < MAX_FRAME,
        ensures
            final(self).wf(),
            final(cartridge).wf(),
            fb_fits(final(frame_buffer)),
            final(frame_buffer).same_frame(old(frame_buffer)),
            ({
                let (s2, c2, f) = spec_render(state_of(*old(self), old(frame_buffer)@, *old(cartridge)), *old(cpu),
                    old(frame_buffer).spec_pixel_width(), old(frame_buffer).chunk_size as int, old(frame_buffer).mode, cycles as nat);
                holds(s2, *final(self), final(frame_buffer)@, *final(cartridge)) && *final(cpu) == c2 && r == fault_result(f)
            }),
    {
        let ghost pw = frame_buffer.spec_pixel_width();
        let ghost cs = frame_buffer.chunk_size as int;
        let ghost mode = frame_buffer.mode;
        let mut n: usize = 0;
        while n < cycles
            invariant
                n <= cycles,
                self.wf(),
                cartridge.wf(),
                fb_fits(frame_buffer),
                frame_buffer.same_frame(old(frame_buffer)),
                pw == old(frame_buffer).spec_pixel_width(),
                cs == old(frame_buffer).chunk_size,
                mode == old(frame_buffer).mode,
                self.frame_counter + (cycles - n) < MAX_FRAME,
                spec_render(state_of(*old(self), old(frame_buffer)@, *old(cartridge)), *old(cpu), pw, cs, mode, cycles as nat)
                    == spec_render(state_of(*self, frame_buffer@, *cartridge), *cpu, pw, cs, mode, (cycles - n) as nat),
            decreases cycles - n,
        {
            let ghost before = state_of(*self, frame_buffer@, *cartridge);
            let r = self.tick_draw(frame_buffer, cartridge);
            if r.is_err() {
                return r;
            }
            self.tick_advance(frame_buffer, cpu, cartridge);
            n = n + 1;
        }
        Ok(())
    }
}

} // verus!
