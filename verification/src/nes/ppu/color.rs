//! The 2C02 palette: the 64 colours a PPU palette entry selects.

use vstd::prelude::*;

use crate::frame_buffer::{FrameBuffer, PixelColor, PixelColorMode};

verus! {

/// The red, green and blue of each of the 64 NES colours.
pub open spec fn spec_nes_rgb(c: u8) -> (u8, u8, u8) {
    let table: Seq<(u8, u8, u8)> = seq![
        (0x62, 0x62, 0x62),
        (0x00, 0x1C, 0x95),
        (0x19, 0x04, 0xAC),
        (0x42, 0x00, 0x9D),
        (0x61, 0x00, 0x6B),
        (0x6E, 0x00, 0x25),
        (0x65, 0x05, 0x00),
        (0x49, 0x1E, 0x00),
        (0x22, 0x37, 0x00),
        (0x00, 0x49, 0x00),
        (0x00, 0x4F, 0x00),
        (0x00, 0x48, 0x16),
        (0x00, 0x35, 0x5E),
        (0x00, 0x00, 0x00),
        (0x00, 0x00, 0x00),
        (0x00, 0x00, 0x00),
        (0xAB, 0xAB, 0xAB),
        (0x0C, 0x4E, 0xDB),
        (0x3D, 0x2E, 0xFF),
        (0x71, 0x15, 0xF3),
        (0x9B, 0x0B, 0xB9),
        (0xB0, 0x12, 0x62),
        (0xA9, 0x27, 0x04),
        (0x89, 0x46, 0x00),
        (0x57, 0x66, 0x00),
        (0x23, 0x7F, 0x00),
        (0x00, 0x89, 0x00),
        (0x00, 0x83, 0x32),
        (0x00, 0x6D, 0x90),
        (0x00, 0x00, 0x00),
        (0x00, 0x00, 0x00),
        (0x00, 0x00, 0x00),
        (0xFF, 0xFF, 0xFF),
        (0x57, 0xA5, 0xFF),
        (0x82, 0x87, 0xFF),
        (0xB4, 0x6D, 0xFF),
        (0xDF, 0x60, 0xFF),
        (0xF8, 0x63, 0xC6),
        (0xF8, 0x74, 0x6D),
        (0xDE, 0x90, 0x20),
        (0xB3, 0xAE, 0x00),
        (0x81, 0xC8, 0x00),
        (0x56, 0xD5, 0x22),
        (0x3D, 0xD3, 0x6F),
        (0x3E, 0xC1, 0xC8),
        (0x4E, 0x4E, 0x4E),
        (0x00, 0x00, 0x00),
        (0x00, 0x00, 0x00),
        (0xFF, 0xFF, 0xFF),
        (0xBE, 0xE0, 0xFF),
        (0xCD, 0xD4, 0xFF),
        (0xE0, 0xCA, 0xFF),
        (0xF1, 0xC4, 0xFF),
        (0xFC, 0xC4, 0xEF),
        (0xFD, 0xCA, 0xCE),
        (0xF5, 0xD4, 0xAF),
        (0xE6, 0xDF, 0x9C),
        (0xD3, 0xE9, 0x9A),
        (0xC2, 0xEF, 0xA8),
        (0xB7, 0xEF, 0xC4),
        (0xB6, 0xEA, 0xE5),
        (0xB8, 0xB8, 0xB8),
        (0x00, 0x00, 0x00),
        (0x00, 0x00, 0x00)
    ];
    table[c as int]
}

/// The red, green and blue of NES colour `c`.
pub fn nes_rgb(c: u8) -> (r: (u8, u8, u8))
    requires
        c < 0x40,
    ensures
        r == spec_nes_rgb(c),
{
    match c {
            0x00 => (0x62, 0x62, 0x62),
            0x01 => (0x00, 0x1C, 0x95),
            0x02 => (0x19, 0x04, 0xAC),
            0x03 => (0x42, 0x00, 0x9D),
            0x04 => (0x61, 0x00, 0x6B),
            0x05 => (0x6E, 0x00, 0x25),
            0x06 => (0x65, 0x05, 0x00),
            0x07 => (0x49, 0x1E, 0x00),
            0x08 => (0x22, 0x37, 0x00),
            0x09 => (0x00, 0x49, 0x00),
            0x0A => (0x00, 0x4F, 0x00),
            0x0B => (0x00, 0x48, 0x16),
            0x0C => (0x00, 0x35, 0x5E),
            0x0D => (0x00, 0x00, 0x00),
            0x0E => (0x00, 0x00, 0x00),
            0x0F => (0x00, 0x00, 0x00),
            0x10 => (0xAB, 0xAB, 0xAB),
            0x11 => (0x0C, 0x4E, 0xDB),
            0x12 => (0x3D, 0x2E, 0xFF),
            0x13 => (0x71, 0x15, 0xF3),
            0x14 => (0x9B, 0x0B, 0xB9),
            0x15 => (0xB0, 0x12, 0x62),
            0x16 => (0xA9, 0x27, 0x04),
            0x17 => (0x89, 0x46, 0x00),
            0x18 => (0x57, 0x66, 0x00),
            0x19 => (0x23, 0x7F, 0x00),
            0x1A => (0x00, 0x89, 0x00),
            0x1B => (0x00, 0x83, 0x32),
            0x1C => (0x00, 0x6D, 0x90),
            0x1D => (0x00, 0x00, 0x00),
            0x1E => (0x00, 0x00, 0x00),
            0x1F => (0x00, 0x00, 0x00),
            0x20 => (0xFF, 0xFF, 0xFF),
            0x21 => (0x57, 0xA5, 0xFF),
            0x22 => (0x82, 0x87, 0xFF),
            0x23 => (0xB4, 0x6D, 0xFF),
            0x24 => (0xDF, 0x60, 0xFF),
            0x25 => (0xF8, 0x63, 0xC6),
            0x26 => (0xF8, 0x74, 0x6D),
            0x27 => (0xDE, 0x90, 0x20),
            0x28 => (0xB3, 0xAE, 0x00),
            0x29 => (0x81, 0xC8, 0x00),
            0x2A => (0x56, 0xD5, 0x22),
            0x2B => (0x3D, 0xD3, 0x6F),
            0x2C => (0x3E, 0xC1, 0xC8),
            0x2D => (0x4E, 0x4E, 0x4E),
            0x2E => (0x00, 0x00, 0x00),
            0x2F => (0x00, 0x00, 0x00),
            0x30 => (0xFF, 0xFF, 0xFF),
            0x31 => (0xBE, 0xE0, 0xFF),
            0x32 => (0xCD, 0xD4, 0xFF),
            0x33 => (0xE0, 0xCA, 0xFF),
            0x34 => (0xF1, 0xC4, 0xFF),
            0x35 => (0xFC, 0xC4, 0xEF),
            0x36 => (0xFD, 0xCA, 0xCE),
            0x37 => (0xF5, 0xD4, 0xAF),
            0x38 => (0xE6, 0xDF, 0x9C),
            0x39 => (0xD3, 0xE9, 0x9A),
            0x3A => (0xC2, 0xEF, 0xA8),
            0x3B => (0xB7, 0xEF, 0xC4),
            0x3C => (0xB6, 0xEA, 0xE5),
            0x3D => (0xB8, 0xB8, 0xB8),
            0x3E => (0x00, 0x00, 0x00),
            _ => (0x00, 0x00, 0x00),
    }
}

/// The colour an entry shows: in greyscale mode only its brightness
/// (bits 4-5) is kept, so the hue is grey.
pub open spec fn spec_shown_color(nes_color: u8, grey_scale: bool) -> u8 {
    if grey_scale { nes_color & 0x30 } else { nes_color }
}

/// The screen's pixel value for NES colour `nes_color`.
pub open spec fn spec_from_nes_color(nes_color: u8, grey_scale: bool, mode: PixelColorMode) -> PixelColor {
    let (r, g, b) = spec_nes_rgb(spec_shown_color(nes_color, grey_scale));
    FrameBuffer::spec_make_color(r, g, b, mode)
}

pub fn from_nes_color(nes_color: u8, grey_scale: bool, mode: PixelColorMode) -> (p: PixelColor)
    requires
        nes_color < 0x40,
    ensures
        p == spec_from_nes_color(nes_color, grey_scale, mode),
{
    let c = if grey_scale { nes_color & 0x30 } else { nes_color };
    assert(c < 0x40) by (bit_vector)
        requires nes_color < 0x40, c == (if grey_scale { nes_color & 0x30 } else { nes_color });
    let (r, g, b) = nes_rgb(c);
    FrameBuffer::make_color(r, g, b, mode)
}

} // verus!
