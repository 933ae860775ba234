//! The machine state screen: both controllers, the CPU and PPU registers
//! and the last instructions executed.

use vstd::prelude::*;

use crate::font::{FontManager, FONT_HEIGHT, FONT_WIDTH};
use crate::frame_buffer::{spec_fill_rect, spec_text, FrameBuffer, PixelColor, PixelColorMode};
use crate::logger::{covers_ascii, spec_hex};
use crate::nes::cpu::instr::spec_instruction_text;
use crate::nes::cpu::run::{history_get, history_entries};
use crate::nes::cpu::CPU;
use crate::nes::pad::{Pad, PadButton};
use crate::nes::ppu::PPU;
use crate::proc::ProcessMode;
use crate::text::{lemma_bin_printable, lemma_hex_printable, push_bin, push_bool, push_bytes, push_hex, spec_bin, spec_bool_text};

verus! {

pub const PADDING: usize = 10;
pub const BUTTON_SIZE: usize = 10;
pub const PAD_WIDTH: usize = 130;
pub const PAD_HEIGHT: usize = 50;

/// Lines `k..` of `lines`, line k at pixel row 16 k from the left edge.
pub open spec fn spec_lines(v: (Seq<PixelColor>, Seq<bool>), pw: int, cs: int, lines: Seq<Seq<u8>>, k: int, font: FontManager,
    fg: PixelColor, bg: PixelColor) -> (Seq<PixelColor>, Seq<bool>)
    decreases lines.len() - k,
{
    if 0 <= k < lines.len() {
        spec_lines(spec_text(v, pw, cs, 0, k * FONT_HEIGHT, lines[k], 0, font, fg, bg), pw, cs, lines, k + 1, font, fg, bg)
    } else {
        v
    }
}

/// Every line fits the buffer at its row and is printable ASCII, and the
/// font draws printable ASCII.
pub open spec fn lines_fit(fb: &FrameBuffer, font: &FontManager, lines: Seq<Seq<u8>>) -> bool {
    &&& fb.wf()
    &&& font.wf()
    &&& covers_ascii(font)
    &&& lines.len() * FONT_HEIGHT <= fb.height
    &&& forall|k: int| 0 <= k < lines.len() ==> fb.block_fits(0, k * FONT_HEIGHT, #[trigger] lines[k].len() * FONT_WIDTH, FONT_HEIGHT as int)
    &&& forall|k: int, j: int| 0 <= k < lines.len() && 0 <= j < lines[k].len() ==> 0x20 <= #[trigger] lines[k][j] <= 0x7E
}

fn draw_lines(buffer: &mut FrameBuffer, lines: &Vec<Vec<u8>>, font: &FontManager, fg: PixelColor, bg: PixelColor)
    requires
        lines_fit(old(buffer), font, lines@.map_values(|l: Vec<u8>| l@)),
    ensures
        final(buffer).wf(),
        final(buffer).same_frame(old(buffer)),
        final(buffer)@ == spec_lines(old(buffer)@, old(buffer).spec_pixel_width(), old(buffer).chunk_size as int,
            lines@.map_values(|l: Vec<u8>| l@), 0, *font, fg, bg),
{
    let ghost ls = lines@.map_values(|l: Vec<u8>| l@);
    let ghost pw = buffer.spec_pixel_width();
    let ghost cs = buffer.chunk_size as int;
    let mut k: usize = 0;
    while k < lines.len()
        invariant
            k <= lines@.len(),
            ls == lines@.map_values(|l: Vec<u8>| l@),
            lines_fit(old(buffer), font, ls),
            buffer.wf(),
            buffer.same_frame(old(buffer)),
            pw == old(buffer).spec_pixel_width(),
            cs == old(buffer).chunk_size,
            spec_lines(old(buffer)@, pw, cs, ls, 0, *font, fg, bg) == spec_lines(buffer@, pw, cs, ls, k as int, *font, fg, bg),
        decreases lines@.len() - k,
    {
        proof {
            assert(ls[k as int] == lines@[k as int]@);
            assert forall|j: int| 0 <= j < lines@[k as int]@.len() implies font.spec_has_glyph(#[trigger] lines@[k as int]@[j]) by {
                assert(0x20 <= ls[k as int][j] <= 0x7E);
            }
            assert(fb_block(old(buffer), buffer, k as int, ls[k as int].len() * FONT_WIDTH));
        }
        buffer.draw_text(0, k * FONT_HEIGHT as usize, lines[k].as_slice(), fg, bg, font);
        k = k + 1;
    }
}

/// A block that fits a buffer fits one of the same frame.
spec fn fb_block(a: &FrameBuffer, b: &FrameBuffer, k: int, n: int) -> bool {
    a.block_fits(0, k * FONT_HEIGHT, n, FONT_HEIGHT as int) ==> b.block_fits(0, k * FONT_HEIGHT, n, FONT_HEIGHT as int)
}

/// The CPU registers: A, X, Y, PC, SP and P in hexadecimal, then the
/// flags of P one by one, then the cycle count.
pub open spec fn spec_cpu_lines(cpu: CPU) -> Seq<Seq<u8>> {
    let p = cpu.reg_p;
    seq![
        seq![0x52u8, 0x45, 0x47, 0x20, 0x41, 0x3A, 0x20, 0x20, 0x30, 0x78] + spec_hex(cpu.reg_a as nat, 2),
        seq![0x52u8, 0x45, 0x47, 0x20, 0x58, 0x3A, 0x20, 0x20, 0x30, 0x78] + spec_hex(cpu.reg_x as nat, 2),
        seq![0x52u8, 0x45, 0x47, 0x20, 0x59, 0x3A, 0x20, 0x20, 0x30, 0x78] + spec_hex(cpu.reg_y as nat, 2),
        seq![0x52u8, 0x45, 0x47, 0x20, 0x50, 0x43, 0x3A, 0x20, 0x30, 0x78] + spec_hex(cpu.reg_pc as nat, 4),
        seq![0x52u8, 0x45, 0x47, 0x20, 0x53, 0x50, 0x3A, 0x20, 0x30, 0x78] + spec_hex(cpu.reg_sp as nat, 2),
        seq![0x52u8, 0x45, 0x47, 0x20, 0x50, 0x3A, 0x20, 0x20, 0x30, 0x78] + spec_hex(p.spec_bits() as nat, 2),
        seq![0x20u8, 0x20, 0x43, 0x3A, 0x20] + spec_bool_text(p.carry) + seq![0x2Cu8, 0x20, 0x5A, 0x3A, 0x20] + spec_bool_text(p.zero)
            + seq![0x2Cu8, 0x20, 0x49, 0x3A, 0x20] + spec_bool_text(p.int) + seq![0x2Cu8, 0x20, 0x44, 0x3A, 0x20] + spec_bool_text(p.decimal),
        seq![0x20u8, 0x20, 0x42, 0x3A, 0x20] + spec_bool_text(p.brk) + seq![0x2Cu8, 0x20, 0x56, 0x3A, 0x20] + spec_bool_text(p.overflow)
            + seq![0x2Cu8, 0x20, 0x4E, 0x3A, 0x20] + spec_bool_text(p.neg),
        seq![0x43u8, 0x59, 0x43, 0x4C, 0x45, 0x53, 0x3A, 0x20, 0x30, 0x78] + spec_hex(cpu.cycles as nat, 16),
    ]
}

/// The PPU registers: control, mask, OAM address and status in binary,
/// the data address, V, T and fine X in hexadecimal, then the beam.
pub open spec fn spec_ppu_lines(ppu: PPU) -> Seq<Seq<u8>> {
    seq![
        seq![0x43u8, 0x54, 0x52, 0x4C, 0x3A, 0x20, 0x20, 0x20, 0x30, 0x62] + spec_bin(ppu.reg_ctrl.bits as nat, 8),
        seq![0x4Du8, 0x41, 0x53, 0x4B, 0x3A, 0x20, 0x20, 0x20, 0x30, 0x62] + spec_bin(ppu.reg_mask.bits as nat, 8),
        seq![0x4Fu8, 0x41, 0x4D, 0x20, 0x41, 0x3A, 0x20, 0x20, 0x30, 0x62] + spec_bin(ppu.reg_oam_addr as nat, 8),
        seq![0x53u8, 0x54, 0x41, 0x54, 0x55, 0x53, 0x3A, 0x20, 0x30, 0x62] + spec_bin(ppu.reg_status.bits as nat, 8),
        seq![0x44u8, 0x41, 0x54, 0x41, 0x3A, 0x20, 0x20, 0x20, 0x30, 0x78] + spec_hex(ppu.reg_data as nat, 4),
        seq![0x52u8, 0x45, 0x47, 0x20, 0x56, 0x3A, 0x20, 0x20, 0x30, 0x78] + spec_hex(ppu.reg_v as nat, 4),
        seq![0x52u8, 0x45, 0x47, 0x20, 0x54, 0x3A, 0x20, 0x20, 0x30, 0x78] + spec_hex(ppu.reg_t as nat, 4),
        seq![0x52u8, 0x45, 0x47, 0x20, 0x58, 0x3A, 0x20, 0x20, 0x30, 0x78] + spec_hex(ppu.reg_x as nat, 2),
        seq![0x58u8, 0x2C, 0x20, 0x59, 0x3A, 0x20, 0x20, 0x20, 0x30, 0x78] + spec_hex(ppu.x as nat, 4) + seq![0x2Cu8, 0x20, 0x30, 0x78] + spec_hex(ppu.y as nat, 4),
    ]
}

/// A line of the instruction history: an arrow on the latest, the address
/// and the instruction; dashes where the history is empty.
pub open spec fn spec_history_line(cpu: CPU, i: int) -> Seq<u8> {
    match history_entries(cpu.history)[i] {
        Some(inst) => (if i == CPU::HISTORY_SIZE - 1 { seq![0x2Du8, 0x2D, 0x3E, 0x20] } else { seq![0x20u8, 0x20, 0x20, 0x20] })
            + seq![0x30u8, 0x78] + spec_hex(inst.pc as nat, 4) + seq![0x3Au8, 0x20] + spec_instruction_text(inst),
        None => seq![0x20u8, 0x20, 0x20, 0x20, 0x2D, 0x2D, 0x2D, 0x2D, 0x2D, 0x2D, 0x3A, 0x20, 0x2D, 0x2D, 0x2D, 0x2D, 0x2D, 0x2D],
    }
}

pub open spec fn spec_history_lines(cpu: CPU) -> Seq<Seq<u8>> {
    Seq::new(CPU::HISTORY_SIZE as nat, |i: int| spec_history_line(cpu, i))
}

impl CPU {
    /// The instruction history, one line per slot, the latest last.
    pub fn history_summary(&self) -> (r: Vec<Vec<u8>>)
        requires
            history_entries(self.history).len() == CPU::HISTORY_SIZE,
        ensures
            r@.map_values(|l: Vec<u8>| l@) == spec_history_lines(*self),
    {
        let mut r: Vec<Vec<u8>> = Vec::new();
        let mut i: usize = 0;
        while i < CPU::HISTORY_SIZE
            invariant
                i <= CPU::HISTORY_SIZE,
                history_entries(self.history).len() == CPU::HISTORY_SIZE,
                r@.len() == i,
                forall|j: int| 0 <= j < i ==> (#[trigger] r@[j])@ == spec_history_line(*self, j),
            decreases CPU::HISTORY_SIZE - i,
        {
            let mut line: Vec<u8> = Vec::new();
            match history_get(&self.history, i) {
                Some(inst) => {
                    if i == CPU::HISTORY_SIZE - 1 {
                        push_bytes(&mut line, vec![0x2Du8, 0x2D, 0x3E, 0x20].as_slice());
                    } else {
                        push_bytes(&mut line, vec![0x20u8, 0x20, 0x20, 0x20].as_slice());
                    }
                    push_bytes(&mut line, vec![0x30u8, 0x78].as_slice());
                    push_hex(&mut line, inst.pc as u64, 4);
                    push_bytes(&mut line, vec![0x3Au8, 0x20].as_slice());
                    let text = inst.to_string();
                    push_bytes(&mut line, text.as_slice());
                },
                None => {
                    push_bytes(&mut line, vec![0x20u8, 0x20, 0x20, 0x20, 0x2D, 0x2D, 0x2D, 0x2D, 0x2D, 0x2D, 0x3A, 0x20, 0x2D, 0x2D, 0x2D, 0x2D, 0x2D, 0x2D].as_slice());
                },
            }
            assert(line@ =~= spec_history_line(*self, i as int));
            r.push(line);
            i = i + 1;
        }
        assert(r@.map_values(|l: Vec<u8>| l@) =~= spec_history_lines(*self));
        r
    }
}

pub struct InfoProc;

impl InfoProc {
    pub fn color_background(mode: PixelColorMode) -> (c: PixelColor)
        ensures
            c == FrameBuffer::spec_make_color(0x20, 0x20, 0x20, mode),
    {
        FrameBuffer::make_color(0x20, 0x20, 0x20, mode)
    }

    pub fn color_text(mode: PixelColorMode) -> (c: PixelColor)
        ensures
            c == FrameBuffer::spec_make_color(0xFF, 0xFF, 0xFF, mode),
    {
        FrameBuffer::make_color(0xFF, 0xFF, 0xFF, mode)
    }

    pub fn color_pad_base(mode: PixelColorMode) -> (c: PixelColor)
        ensures
            c == FrameBuffer::spec_make_color(0xF0, 0xF0, 0xF0, mode),
    {
        FrameBuffer::make_color(0xF0, 0xF0, 0xF0, mode)
    }

    pub fn color_pressed(mode: PixelColorMode) -> (c: PixelColor)
        ensures
            c == FrameBuffer::spec_make_color(0xC2, 0x73, 0x19, mode),
    {
        FrameBuffer::make_color(0xC2, 0x73, 0x19, mode)
    }

    pub fn color_released(mode: PixelColorMode) -> (c: PixelColor)
        ensures
            c == FrameBuffer::spec_make_color(0x10, 0x10, 0x10, mode),
    {
        FrameBuffer::make_color(0x10, 0x10, 0x10, mode)
    }

    /// Where a button is drawn on the pad picture (a D-pad on the left,
    /// select and start in the middle, B and A on the right).
    pub open spec fn spec_button_pos(button: PadButton) -> (int, int) {
        match button {
            PadButton::A => (110, 20),
            PadButton::B => (90, 20),
            PadButton::Select => (50, 30),
            PadButton::Start => (70, 30),
            PadButton::Up => (20, 10),
            PadButton::Down => (20, 30),
            PadButton::Left => (10, 20),
            PadButton::Right => (30, 20),
        }
    }

    /// The pad picture fits the buffer.
    pub open spec fn pad_fits(fb: &FrameBuffer) -> bool {
        &&& fb.wf()
        &&& fb.width >= PAD_WIDTH
        &&& fb.height >= PAD_HEIGHT
    }

    /// A button's square: the pressed colour while it is down.
    pub open spec fn spec_button(fb: &FrameBuffer, v: (Seq<PixelColor>, Seq<bool>), pad: Pad, button: PadButton) -> (Seq<PixelColor>, Seq<bool>) {
        let (x, y) = Self::spec_button_pos(button);
        let color = if pad.pressed[button.spec_index()] {
            FrameBuffer::spec_make_color(0xC2, 0x73, 0x19, fb.mode)
        } else {
            FrameBuffer::spec_make_color(0x10, 0x10, 0x10, fb.mode)
        };
        spec_fill_rect(v, fb.spec_pixel_width(), fb.chunk_size as int, x, x + BUTTON_SIZE, y, y + BUTTON_SIZE, color)
    }

    pub fn render_button(buffer: &mut FrameBuffer, pad: &Pad, button: PadButton)
        requires
            Self::pad_fits(old(buffer)),
        ensures
            Self::pad_fits(final(buffer)),
            final(buffer).same_frame(old(buffer)),
            final(buffer)@ == Self::spec_button(old(buffer), old(buffer)@, *pad, button),
    {
        let (x, y): (usize, usize) = match button {
            PadButton::A => (BUTTON_SIZE * 6 + PADDING * 5, BUTTON_SIZE + PADDING),
            PadButton::B => (BUTTON_SIZE * 5 + PADDING * 4, BUTTON_SIZE + PADDING),
            PadButton::Select => (BUTTON_SIZE * 3 + PADDING * 2, BUTTON_SIZE * 2 + PADDING),
            PadButton::Start => (BUTTON_SIZE * 4 + PADDING * 3, BUTTON_SIZE * 2 + PADDING),
            PadButton::Up => (BUTTON_SIZE + PADDING, PADDING),
            PadButton::Down => (BUTTON_SIZE + PADDING, BUTTON_SIZE * 2 + PADDING),
            PadButton::Left => (PADDING, BUTTON_SIZE + PADDING),
            PadButton::Right => (BUTTON_SIZE * 2 + PADDING, BUTTON_SIZE + PADDING),
        };
        let mode = buffer.mode;
        let pressed = pad.pressed[button.index()];
        let color = if pressed { Self::color_pressed(mode) } else { Self::color_released(mode) };
        buffer.draw_rect(x, y, BUTTON_SIZE, BUTTON_SIZE, color);
    }

    /// The whole pad: its base, then the buttons A, B, select, start, up,
    /// down, left, right.
    pub open spec fn spec_pad(fb: &FrameBuffer, pad: Pad) -> (Seq<PixelColor>, Seq<bool>) {
        let v0 = spec_fill_rect(fb@, fb.spec_pixel_width(), fb.chunk_size as int, 0, PAD_WIDTH as int, 0, PAD_HEIGHT as int,
            FrameBuffer::spec_make_color(0xF0, 0xF0, 0xF0, fb.mode));
        let v1 = Self::spec_button(fb, v0, pad, PadButton::A);
        let v2 = Self::spec_button(fb, v1, pad, PadButton::B);
        let v3 = Self::spec_button(fb, v2, pad, PadButton::Select);
        let v4 = Self::spec_button(fb, v3, pad, PadButton::Start);
        let v5 = Self::spec_button(fb, v4, pad, PadButton::Up);
        let v6 = Self::spec_button(fb, v5, pad, PadButton::Down);
        let v7 = Self::spec_button(fb, v6, pad, PadButton::Left);
        Self::spec_button(fb, v7, pad, PadButton::Right)
    }

    pub fn render_pad_base(buffer: &mut FrameBuffer)
        requires
            Self::pad_fits(old(buffer)),
        ensures
            Self::pad_fits(final(buffer)),
            final(buffer).same_frame(old(buffer)),
            final(buffer)@ == spec_fill_rect(old(buffer)@, old(buffer).spec_pixel_width(), old(buffer).chunk_size as int,
                0, PAD_WIDTH as int, 0, PAD_HEIGHT as int, FrameBuffer::spec_make_color(0xF0, 0xF0, 0xF0, old(buffer).mode)),
    {
        let color = Self::color_pad_base(buffer.mode);
        buffer.draw_rect(0, 0, PAD_WIDTH, PAD_HEIGHT, color);
    }

    /// A controller button goes down (`down`) or up; while the info screen
    /// is on show (`mode`), its square on the pad picture is redrawn.
    pub fn set_button(pad: &mut Pad, button: PadButton, down: bool, mode: ProcessMode, buffer: &mut FrameBuffer)
        requires
            Self::pad_fits(old(buffer)),
        ensures
            *final(pad) == old(pad).spec_set_button(button, down),
            Self::pad_fits(final(buffer)),
            final(buffer).same_frame(old(buffer)),
            final(buffer)@ == (if mode == ProcessMode::Info {
                Self::spec_button(old(buffer), old(buffer)@, *final(pad), button)
            } else {
                old(buffer)@
            }),
    {
        if down {
            pad.press_button(button);
        } else {
            pad.release_button(button);
        }
        if mode == ProcessMode::Info {
            Self::render_button(buffer, pad, button);
        }
    }

    /// Presses a button, redrawing it while the info screen is on show.
    pub fn press_button(pad: &mut Pad, button: PadButton, mode: ProcessMode, buffer: &mut FrameBuffer)
        requires
            Self::pad_fits(old(buffer)),
        ensures
            *final(pad) == old(pad).spec_set_button(button, true),
            Self::pad_fits(final(buffer)),
            final(buffer).same_frame(old(buffer)),
            final(buffer)@ == (if mode == ProcessMode::Info {
                Self::spec_button(old(buffer), old(buffer)@, *final(pad), button)
            } else {
                old(buffer)@
            }),
    {
        Self::set_button(pad, button, true, mode, buffer);
    }

    /// Releases a button, redrawing it while the info screen is on show.
    pub fn release_button(pad: &mut Pad, button: PadButton, mode: ProcessMode, buffer: &mut FrameBuffer)
        requires
            Self::pad_fits(old(buffer)),
        ensures
            *final(pad) == old(pad).spec_set_button(button, false),
            Self::pad_fits(final(buffer)),
            final(buffer).same_frame(old(buffer)),
            final(buffer)@ == (if mode == ProcessMode::Info {
                Self::spec_button(old(buffer), old(buffer)@, *final(pad), button)
            } else {
                old(buffer)@
            }),
    {
        Self::set_button(pad, button, false, mode, buffer);
    }

    pub fn render_pad(buffer: &mut FrameBuffer, pad: &Pad)
        requires
            Self::pad_fits(old(buffer)),
        ensures
            Self::pad_fits(final(buffer)),
            final(buffer).same_frame(old(buffer)),
            final(buffer)@ == Self::spec_pad(old(buffer), *pad),
    {
        Self::render_pad_base(buffer);
        Self::render_button(buffer, pad, PadButton::A);
        Self::render_button(buffer, pad, PadButton::B);
        Self::render_button(buffer, pad, PadButton::Select);
        Self::render_button(buffer, pad, PadButton::Start);
        Self::render_button(buffer, pad, PadButton::Up);
        Self::render_button(buffer, pad, PadButton::Down);
        Self::render_button(buffer, pad, PadButton::Left);
        Self::render_button(buffer, pad, PadButton::Right);
    }

    /// The CPU lines as text (see `spec_cpu_lines`).
    pub fn cpu_lines(cpu: &CPU) -> (r: Vec<Vec<u8>>)
        ensures
            r@.map_values(|l: Vec<u8>| l@) == spec_cpu_lines(*cpu),
    {
        let p = cpu.reg_p;
        let mut r: Vec<Vec<u8>> = Vec::new();
        let mut l0: Vec<u8> = vec![0x52u8, 0x45, 0x47, 0x20, 0x41, 0x3A, 0x20, 0x20, 0x30, 0x78];
        push_hex(&mut l0, cpu.reg_a as u64, 2);
        r.push(l0);
        let mut l1: Vec<u8> = vec![0x52u8, 0x45, 0x47, 0x20, 0x58, 0x3A, 0x20, 0x20, 0x30, 0x78];
        push_hex(&mut l1, cpu.reg_x as u64, 2);
        r.push(l1);
        let mut l2: Vec<u8> = vec![0x52u8, 0x45, 0x47, 0x20, 0x59, 0x3A, 0x20, 0x20, 0x30, 0x78];
        push_hex(&mut l2, cpu.reg_y as u64, 2);
        r.push(l2);
        let mut l3: Vec<u8> = vec![0x52u8, 0x45, 0x47, 0x20, 0x50, 0x43, 0x3A, 0x20, 0x30, 0x78];
        push_hex(&mut l3, cpu.reg_pc as u64, 4);
        r.push(l3);
        let mut l4: Vec<u8> = vec![0x52u8, 0x45, 0x47, 0x20, 0x53, 0x50, 0x3A, 0x20, 0x30, 0x78];
        push_hex(&mut l4, cpu.reg_sp as u64, 2);
        r.push(l4);
        let mut l5: Vec<u8> = vec![0x52u8, 0x45, 0x47, 0x20, 0x50, 0x3A, 0x20, 0x20, 0x30, 0x78];
        push_hex(&mut l5, p.bits() as u64, 2);
        r.push(l5);
        let mut l6: Vec<u8> = vec![0x20u8, 0x20, 0x43, 0x3A, 0x20];
        push_bool(&mut l6, p.carry);
        push_bytes(&mut l6, vec![0x2Cu8, 0x20, 0x5A, 0x3A, 0x20].as_slice());
        push_bool(&mut l6, p.zero);
        push_bytes(&mut l6, vec![0x2Cu8, 0x20, 0x49, 0x3A, 0x20].as_slice());
        push_bool(&mut l6, p.int);
        push_bytes(&mut l6, vec![0x2Cu8, 0x20, 0x44, 0x3A, 0x20].as_slice());
        push_bool(&mut l6, p.decimal);
        r.push(l6);
        let mut l7: Vec<u8> = vec![0x20u8, 0x20, 0x42, 0x3A, 0x20];
        push_bool(&mut l7, p.brk);
        push_bytes(&mut l7, vec![0x2Cu8, 0x20, 0x56, 0x3A, 0x20].as_slice());
        push_bool(&mut l7, p.overflow);
        push_bytes(&mut l7, vec![0x2Cu8, 0x20, 0x4E, 0x3A, 0x20].as_slice());
        push_bool(&mut l7, p.neg);
        r.push(l7);
        let mut l8: Vec<u8> = vec![0x43u8, 0x59, 0x43, 0x4C, 0x45, 0x53, 0x3A, 0x20, 0x30, 0x78];
        push_hex(&mut l8, cpu.cycles, 16);
        r.push(l8);
        assert(r@.map_values(|l: Vec<u8>| l@) =~= spec_cpu_lines(*cpu));
        r
    }

    /// The PPU lines as text (see `spec_ppu_lines`).
    pub fn ppu_lines(ppu: &PPU) -> (r: Vec<Vec<u8>>)
        ensures
            r@.map_values(|l: Vec<u8>| l@) == spec_ppu_lines(*ppu),
    {
        let mut r: Vec<Vec<u8>> = Vec::new();
        let mut l0: Vec<u8> = vec![0x43u8, 0x54, 0x52, 0x4C, 0x3A, 0x20, 0x20, 0x20, 0x30, 0x62];
        push_bin(&mut l0, ppu.reg_ctrl.bits as u64, 8);
        r.push(l0);
        let mut l1: Vec<u8> = vec![0x4Du8, 0x41, 0x53, 0x4B, 0x3A, 0x20, 0x20, 0x20, 0x30, 0x62];
        push_bin(&mut l1, ppu.reg_mask.bits as u64, 8);
        r.push(l1);
        let mut l2: Vec<u8> = vec![0x4Fu8, 0x41, 0x4D, 0x20, 0x41, 0x3A, 0x20, 0x20, 0x30, 0x62];
        push_bin(&mut l2, ppu.reg_oam_addr as u64, 8);
        r.push(l2);
        let mut l3: Vec<u8> = vec![0x53u8, 0x54, 0x41, 0x54, 0x55, 0x53, 0x3A, 0x20, 0x30, 0x62];
        push_bin(&mut l3, ppu.reg_status.bits as u64, 8);
        r.push(l3);
        let mut l4: Vec<u8> = vec![0x44u8, 0x41, 0x54, 0x41, 0x3A, 0x20, 0x20, 0x20, 0x30, 0x78];
        push_hex(&mut l4, ppu.reg_data as u64, 4);
        r.push(l4);
        let mut l5: Vec<u8> = vec![0x52u8, 0x45, 0x47, 0x20, 0x56, 0x3A, 0x20, 0x20, 0x30, 0x78];
        push_hex(&mut l5, ppu.reg_v as u64, 4);
        r.push(l5);
        let mut l6: Vec<u8> = vec![0x52u8, 0x45, 0x47, 0x20, 0x54, 0x3A, 0x20, 0x20, 0x30, 0x78];
        push_hex(&mut l6, ppu.reg_t as u64, 4);
        r.push(l6);
        let mut l7: Vec<u8> = vec![0x52u8, 0x45, 0x47, 0x20, 0x58, 0x3A, 0x20, 0x20, 0x30, 0x78];
        push_hex(&mut l7, ppu.reg_x as u64, 2);
        r.push(l7);
        let mut l8: Vec<u8> = vec![0x58u8, 0x2C, 0x20, 0x59, 0x3A, 0x20, 0x20, 0x20, 0x30, 0x78];
        push_hex(&mut l8, ppu.x as u64, 4);
        push_bytes(&mut l8, vec![0x2Cu8, 0x20, 0x30, 0x78].as_slice());
        push_hex(&mut l8, ppu.y as u64, 4);
        r.push(l8);
        assert(r@.map_values(|l: Vec<u8>| l@) =~= spec_ppu_lines(*ppu));
        r
    }

    /// Paints the buffer and writes the lines (see `spec_lines`).
    pub fn render_text_screen(buffer: &mut FrameBuffer, lines: &Vec<Vec<u8>>, font: &FontManager)
        requires
            lines_fit(old(buffer), font, lines@.map_values(|l: Vec<u8>| l@)),
        ensures
            final(buffer).wf(),
            final(buffer).same_frame(old(buffer)),
            final(buffer)@ == spec_lines(
                crate::frame_buffer::spec_fill_rect(old(buffer)@, old(buffer).spec_pixel_width(), old(buffer).chunk_size as int,
                    0, old(buffer).width as int, 0, old(buffer).height as int, FrameBuffer::spec_make_color(0x20, 0x20, 0x20, old(buffer).mode)),
                old(buffer).spec_pixel_width(), old(buffer).chunk_size as int, lines@.map_values(|l: Vec<u8>| l@), 0, *font,
                FrameBuffer::spec_make_color(0xFF, 0xFF, 0xFF, old(buffer).mode), FrameBuffer::spec_make_color(0x20, 0x20, 0x20, old(buffer).mode)),
    {
        let mode = buffer.mode;
        let bg = Self::color_background(mode);
        buffer.clear(bg);
        draw_lines(buffer, lines, font, Self::color_text(mode), bg);
    }
}

} // verus!
