//! The 2C02 PPU: its registers, as the CPU sees them, and its VRAM address
//! logic.

use vstd::prelude::*;

use crate::nes::cartridge::Cartridge;
use crate::nes::cpu::{Fault, InterruptSet, InterruptType, CPU};
use crate::nes::ppu::bus::PPUBus;
use crate::nes::ppu::oam::{Sprite, OAM};
use crate::nes::ppu::vram::VRAM;

pub mod bus;
pub mod color;
pub mod oam;
pub mod render;
pub mod vram;

verus! {

pub const NES_FRAME_WIDTH: usize = 256;
pub const NES_FRAME_HEIGHT: usize = 240;
pub const NES_FRAME_TOTAL_SIZE: usize = 61440;

pub const PPU_CTRL_ADDR: u16 = 0x2000;
pub const PPU_MASK_ADDR: u16 = 0x2001;
pub const PPU_STATUS_ADDR: u16 = 0x2002;
pub const PPU_OAM_ADDR: u16 = 0x2003;
pub const PPU_OAM_DATA_ADDR: u16 = 0x2004;
pub const PPU_SCROLL_ADDR: u16 = 0x2005;
pub const PPU_ADDR: u16 = 0x2006;
pub const PPU_DATA_ADDR: u16 = 0x2007;
pub const OAM_DMA_ADDR: u16 = 0x4014;
pub const PALETTE_BASE_ADDR: u16 = 0x3F00;
pub const PATTERN_SIZE: u16 = 16;
pub const PPU_CYCLE: u16 = 341;
pub const PPU_VBLANK: u16 = 22;

/// The control register ($2000).
#[derive(Clone, Copy, PartialEq, Eq, Structural, Debug)]
pub struct PPUCtrl {
    pub bits: u8,
}

impl PPUCtrl {
    pub const INCREMENT: u8 = 0x04;
    pub const SPRITE_PATTERN_TABLE: u8 = 0x08;
    pub const BG_PATTERN_TABLE: u8 = 0x10;
    pub const SPRITE_SIZE: u8 = 0x20;
    pub const MASTER_SLAVE: u8 = 0x40;
    pub const NMI_ENABLE: u8 = 0x80;

    pub open spec fn has(self, flag: u8) -> bool {
        self.bits & flag != 0
    }

    /// How far the VRAM address moves per data access: 32 (down a row) or 1.
    pub open spec fn spec_increment(self) -> u16 {
        if self.has(Self::INCREMENT) { 32 } else { 1 }
    }

    pub fn increment(&self) -> (r: u16)
        ensures
            r == self.spec_increment(),
    {
        if self.bits & Self::INCREMENT != 0 { 32 } else { 1 }
    }

    pub open spec fn spec_sprite_pattern_table(self) -> u16 {
        if self.has(Self::SPRITE_PATTERN_TABLE) { 0x1000 } else { 0 }
    }

    pub fn sprite_pattern_table(&self) -> (r: u16)
        ensures
            r == self.spec_sprite_pattern_table(),
    {
        if self.bits & Self::SPRITE_PATTERN_TABLE != 0 { 0x1000 } else { 0 }
    }

    pub open spec fn spec_bg_pattern_table(self) -> u16 {
        if self.has(Self::BG_PATTERN_TABLE) { 0x1000 } else { 0 }
    }

    pub fn bg_pattern_table(&self) -> (r: u16)
        ensures
            r == self.spec_bg_pattern_table(),
    {
        if self.bits & Self::BG_PATTERN_TABLE != 0 { 0x1000 } else { 0 }
    }

    /// The height of sprites: 16 or 8 lines.
    pub open spec fn spec_sprite_size(self) -> u8 {
        if self.has(Self::SPRITE_SIZE) { 16 } else { 8 }
    }

    pub fn sprite_size(&self) -> (r: u8)
        ensures
            r == self.spec_sprite_size(),
    {
        if self.bits & Self::SPRITE_SIZE != 0 { 16 } else { 8 }
    }

    pub fn nmi_enable(&self) -> (r: bool)
        ensures
            r == self.has(Self::NMI_ENABLE),
    {
        self.bits & Self::NMI_ENABLE != 0
    }
}

/// The mask register ($2001).
#[derive(Clone, Copy, PartialEq, Eq, Structural, Debug)]
pub struct PPUMask {
    pub bits: u8,
}

impl PPUMask {
    pub const GREY_SCALE: u8 = 0x01;
    pub const BG_VISIBLE_LEFT8: u8 = 0x02;
    pub const SPRITE_VISIBLE_LEFT8: u8 = 0x04;
    pub const BG_VISIBLE: u8 = 0x08;
    pub const SPRITE_VISIBLE: u8 = 0x10;
    pub const EMPHASIZE_RED: u8 = 0x20;
    pub const EMPHASIZE_GREEN: u8 = 0x40;
    pub const EMPHASIZE_BLUE: u8 = 0x80;

    pub open spec fn has(self, flag: u8) -> bool {
        self.bits & flag != 0
    }

    pub fn contains(&self, flag: u8) -> (r: bool)
        ensures
            r == self.has(flag),
    {
        self.bits & flag != 0
    }
}

/// The status register ($2002).
#[derive(Clone, Copy, PartialEq, Eq, Structural, Debug)]
pub struct PPUStatus {
    pub bits: u8,
}

impl PPUStatus {
    pub const SPRITE_OVERFLOW: u8 = 0x20;
    pub const SPRITE0_HIT: u8 = 0x40;
    pub const VBLANK: u8 = 0x80;
}

/// A sprite pixel waiting to be drawn: its color and a priority that
/// orders frames, then front over behind the background, then lower OAM
/// index over higher.
#[derive(Clone, Copy, PartialEq, Eq, Structural, Debug)]
pub struct SpriteRequest {
    pub priority: usize,
    pub color: u8,
}

impl SpriteRequest {
    /// The priority: `frame * 128 + (front ? 64 : 0) + (63 - index)`.
    pub open spec fn spec_priority(frame: usize, priority: usize, bg: bool) -> int {
        frame * 128 + (if bg { 0int } else { 64int }) + (63 - priority)
    }

    pub fn new(frame: usize, priority: usize, bg: bool, color: u8) -> (r: SpriteRequest)
        requires
            priority < 64,
            frame <= (usize::MAX - 127) / 128,
        ensures
            r.priority == Self::spec_priority(frame, priority, bg),
            r.color == color,
    {
        let p = frame * 128 + (if bg { 0 } else { 64 }) + (63 - priority);
        SpriteRequest { priority: p, color }
    }

    /// Whether the sprite is behind the background (bit 6 of the priority clear).
    pub fn background(&self) -> (r: bool)
        ensures
            r == ((self.priority / 64) % 2 == 0),
    {
        (self.priority / 64) % 2 == 0
    }

    /// The frame the request was made in.
    pub fn frame(&self) -> (r: usize)
        ensures
            r == self.priority / 128,
    {
        self.priority / 128
    }
}

/// A sprite request made with `SpriteRequest::new` gives back its frame and
/// whether it is behind the background.
pub proof fn lemma_sprite_request_roundtrip(frame: usize, index: usize, bg: bool)
    requires
        index < 64,
    ensures
        SpriteRequest::spec_priority(frame, index, bg) / 128 == frame,
        ((SpriteRequest::spec_priority(frame, index, bg) / 64) % 2 == 0) == bg,
{
    let p = SpriteRequest::spec_priority(frame, index, bg);
    let low = (if bg { 0int } else { 64int }) + (63 - index);
    assert(0 <= low < 128);
    assert(p == frame * 128 + low);
    assert(p / 128 == frame) by (nonlinear_arith)
        requires p == frame * 128 + low, 0 <= low < 128, frame >= 0;
    assert(p / 64 == frame * 2 + low / 64) by (nonlinear_arith)
        requires p == frame * 128 + low, 0 <= low < 128, frame >= 0;
}

pub struct PPU {
    pub reg_ctrl: PPUCtrl,
    pub reg_mask: PPUMask,
    pub reg_oam_addr: u8,
    pub reg_status: PPUStatus,
    pub reg_data: u16,
    pub reg_data_is_lo: bool,
    pub reg_data_buffer: u8,
    pub reg_v: u16,
    pub reg_t: u16,
    pub reg_x: u8,
    pub reg_w: bool,
    pub relative_x: u16,
    pub x: u16,
    pub y: u16,
    pub vram: VRAM,
    pub oam: OAM,
    pub frame_counter: usize,
    pub sprite0_hit: Vec<bool>,
    pub sprites_layer: Vec<Option<SpriteRequest>>,
}

impl PPU {
    pub const COARSE_X_MASK: u16 = 0b00000000_00011111;
    pub const COARSE_Y_MASK: u16 = 0b00000011_11100000;
    pub const FINE_Y_MASK: u16 = 0b01110000_00000000;
    pub const NAME_TABLE_MASK: u16 = 0b00001100_00000000;
    pub const IRQ_CYCLE: u16 = 260;

    /// The two per-pixel layers cover the whole frame, the beam is within
    /// its 341 x 262 cycles, and the fine X scroll is a pixel of a tile.
    pub open spec fn wf(&self) -> bool {
        &&& self.sprite0_hit@.len() == NES_FRAME_TOTAL_SIZE
        &&& self.sprites_layer@.len() == NES_FRAME_TOTAL_SIZE
        &&& self.x < PPU_CYCLE
        &&& self.y < NES_FRAME_HEIGHT + PPU_VBLANK
        &&& self.relative_x < 8
        &&& self.reg_x < 8
    }

    /// A powered-on PPU: registers cleared, VRAM and OAM cleared, the beam
    /// at the top left, no sprite requests.
    pub fn new() -> (r: PPU)
        ensures
            r.wf(),
            r.reg_ctrl.bits == 0 && r.reg_mask.bits == 0 && r.reg_status.bits == 0 && r.reg_oam_addr == 0,
            r.reg_data == 0 && !r.reg_data_is_lo && r.reg_data_buffer == 0,
            r.reg_v == 0 && r.reg_t == 0 && r.reg_x == 0 && !r.reg_w && r.relative_x == 0,
            r.x == 0 && r.y == 0 && r.frame_counter == 0,
            forall|i: int| 0 <= i < 0x2000 ==> r.vram.mem[i] == 0,
            r.oam.dma_request_addr == 0,
            forall|i: int| 0 <= i < 64 ==> r.oam.sprites[i] == (Sprite { y: 0, pattern_index: 0, attributes: 0, x: 0 }),
            r.sprite0_hit@ == Seq::new(NES_FRAME_TOTAL_SIZE as nat, |i: int| false),
            r.sprites_layer@ == Seq::new(NES_FRAME_TOTAL_SIZE as nat, |i: int| None::<SpriteRequest>),
    {
        let mut hits: Vec<bool> = Vec::new();
        let mut layer: Vec<Option<SpriteRequest>> = Vec::new();
        let mut i: usize = 0;
        while i < NES_FRAME_TOTAL_SIZE
            invariant
                i <= NES_FRAME_TOTAL_SIZE,
                hits@ == Seq::new(i as nat, |j: int| false),
                layer@ == Seq::new(i as nat, |j: int| None::<SpriteRequest>),
            decreases NES_FRAME_TOTAL_SIZE - i,
        {
            hits.push(false);
            layer.push(None);
            i = i + 1;
            assert(hits@ =~= Seq::new(i as nat, |j: int| false));
            assert(layer@ =~= Seq::new(i as nat, |j: int| None::<SpriteRequest>));
        }
        PPU {
            reg_ctrl: PPUCtrl { bits: 0 },
            reg_mask: PPUMask { bits: 0 },
            reg_oam_addr: 0,
            reg_status: PPUStatus { bits: 0 },
            reg_data: 0,
            reg_data_is_lo: false,
            reg_data_buffer: 0,
            reg_v: 0,
            reg_t: 0,
            reg_x: 0,
            reg_w: false,
            relative_x: 0,
            x: 0,
            y: 0,
            vram: VRAM::new(),
            oam: OAM::new(),
            frame_counter: 0,
            sprite0_hit: hits,
            sprites_layer: layer,
        }
    }

    /// The register a CPU address in $2000-$3FFF selects (they repeat every 8 bytes).
    pub open spec fn reg_of(addr: u16) -> u16 {
        (0x2000 + (addr - 0x2000) % 8) as u16
    }

    /// Reading a register: $2002 gives the status, clears VBLANK and the
    /// write toggle and withdraws a pending NMI; $2007 gives the buffered
    /// byte, refills the buffer from the current address and moves the
    /// address on. The other registers cannot be read.
    pub open spec fn spec_read_reg(self, addr: u16, cartridge: Cartridge, irq: InterruptSet) -> (PPU, InterruptSet, Result<u8, Fault>) {
        let reg = Self::reg_of(addr);
        if reg == PPU_STATUS_ADDR {
            (PPU { reg_w: false, reg_status: PPUStatus { bits: self.reg_status.bits & 0x7F }, ..self },
             irq.spec_with(InterruptType::NMI, false), Ok(self.reg_status.bits))
        } else if reg == PPU_DATA_ADDR {
            match PPUBus::spec_read(self.reg_data, self.vram, cartridge) {
                Ok(b) => (PPU {
                    reg_data_buffer: b,
                    reg_data: vstd::wrapping::u16_specs::wrapping_add(self.reg_data, self.reg_ctrl.spec_increment()),
                    ..self
                }, irq, Ok(self.reg_data_buffer)),
                Err(e) => (self, irq, Err(e)),
            }
        } else {
            (self, irq, Err(Fault::BusRead(addr)))
        }
    }

    pub fn read_reg(&mut self, addr: u16, cpu: &mut CPU, cartridge: &Cartridge) -> (r: Result<u8, Fault>)
        requires
            addr >= 0x2000,
            cartridge.wf(),
            old(self).wf(),
        ensures
            final(self).wf(),
            ({
                let s = old(self).spec_read_reg(addr, *cartridge, old(cpu).interrupt);
                *final(self) == s.0 && *final(cpu) == (CPU { interrupt: s.1, ..*old(cpu) }) && r == s.2
            }),
    {
        let reg = 0x2000 + (addr - 0x2000) % 8;
        if reg == PPU_STATUS_ADDR {
            self.reg_w = false;
            let prev_status = self.reg_status.bits;
            self.reg_status.bits = self.reg_status.bits & 0x7F;
            cpu.cancel_interrupt(InterruptType::NMI);
            Ok(prev_status)
        } else if reg == PPU_DATA_ADDR {
            let data = self.reg_data_buffer;
            let b = PPUBus::read(self.reg_data, &self.vram, cartridge)?;
            self.reg_data_buffer = b;
            self.reg_data = self.reg_data.wrapping_add(self.reg_ctrl.increment());
            Ok(data)
        } else {
            Err(Fault::BusRead(addr))
        }
    }

    /// Writing a register. $4014 starts an OAM DMA from the written page.
    /// $2000 sets the control register and the name table bits of T; $2001
    /// the mask (and clears the write toggle); $2003 the OAM address; $2004
    /// writes OAM and moves the OAM address on; $2005 twice sets X then Y
    /// scroll into T and fine X; $2006 twice sets the VRAM address (high
    /// byte first) and copies T to V; $2007 writes at the VRAM address and
    /// moves it on. $2002 cannot be written.
    pub open spec fn spec_write_reg(self, addr: u16, val: u8, cartridge: Cartridge, stall: u32) -> (PPU, Cartridge, u32, Result<(), Fault>) {
        let v = val as u16;
        let reg = Self::reg_of(addr);
        if addr == OAM_DMA_ADDR {
            (PPU { oam: OAM { dma_request_addr: (v * 256) as u16, ..self.oam }, ..self }, cartridge,
             CPU::stall_after(stall, CPU::OAM_DMA_CYCLES), Ok(()))
        } else if reg == PPU_CTRL_ADDR {
            (PPU { reg_ctrl: PPUCtrl { bits: val }, reg_t: (self.reg_t & !Self::NAME_TABLE_MASK) | ((v & 0x03) << 10), ..self },
             cartridge, stall, Ok(()))
        } else if reg == PPU_MASK_ADDR {
            (PPU { reg_mask: PPUMask { bits: val }, reg_w: false, ..self }, cartridge, stall, Ok(()))
        } else if reg == PPU_OAM_ADDR {
            (PPU { reg_oam_addr: val, ..self }, cartridge, stall, Ok(()))
        } else if reg == PPU_OAM_DATA_ADDR {
            (PPU { oam: self.oam.spec_write(self.reg_oam_addr, val), reg_oam_addr: vstd::wrapping::u8_specs::wrapping_add(self.reg_oam_addr, 1), ..self },
             cartridge, stall, Ok(()))
        } else if reg == PPU_SCROLL_ADDR {
            if self.reg_w {
                (PPU {
                    reg_t: (self.reg_t & !Self::COARSE_Y_MASK & !Self::FINE_Y_MASK) | ((v >> 3) << 5) | ((v & 0b111) << 12),
                    reg_w: false,
                    ..self
                }, cartridge, stall, Ok(()))
            } else {
                (PPU { reg_t: (self.reg_t & !Self::COARSE_X_MASK) | (v >> 3), reg_x: val & 0b111, reg_w: true, ..self },
                 cartridge, stall, Ok(()))
            }
        } else if reg == PPU_ADDR {
            let p1 = if self.reg_data_is_lo {
                PPU { reg_data: (self.reg_data & 0xFF00) | v, reg_data_is_lo: false, ..self }
            } else {
                PPU { reg_data: (v << 8) | (self.reg_data & 0x00FF), reg_data_is_lo: true, ..self }
            };
            if p1.reg_w {
                let t = (p1.reg_t & 0xFF00) | v;
                (PPU { reg_t: t, reg_v: t, reg_w: false, ..p1 }, cartridge, stall, Ok(()))
            } else {
                (PPU { reg_t: (p1.reg_t & 0x00FF) | ((v & 0b111111) << 8), reg_w: true, ..p1 }, cartridge, stall, Ok(()))
            }
        } else if reg == PPU_DATA_ADDR {
            let (vram2, cart2, r) = PPUBus::spec_write(self.reg_data, val, self.vram, cartridge);
            match r {
                Ok(_) => (PPU {
                    vram: vram2,
                    reg_data: vstd::wrapping::u16_specs::wrapping_add(self.reg_data, self.reg_ctrl.spec_increment()),
                    ..self
                }, cart2, stall, Ok(())),
                Err(e) => (PPU { vram: vram2, ..self }, cart2, stall, Err(e)),
            }
        } else {
            (self, cartridge, stall, Err(Fault::BusWrite(addr)))
        }
    }

    pub fn write_reg(&mut self, addr: u16, val: u8, cpu: &mut CPU, cartridge: &mut Cartridge) -> (r: Result<(), Fault>)
        requires
            addr >= 0x2000,
            old(cartridge).wf(),
            old(self).wf(),
        ensures
            final(self).wf(),
            ({
                let s = old(self).spec_write_reg(addr, val, *old(cartridge), old(cpu).stall_cycles);
                *final(self) == s.0 && *final(cartridge) == s.1
                    && *final(cpu) == (CPU { stall_cycles: s.2, ..*old(cpu) }) && r == s.3
            }),
            final(cartridge).wf(),
    {
        if addr == OAM_DMA_ADDR {
            self.oam.request_dma_transfer(val, cpu);
            return Ok(());
        }
        let v = val as u16;
        let reg = 0x2000 + (addr - 0x2000) % 8;
        if reg == PPU_CTRL_ADDR {
            self.reg_ctrl = PPUCtrl { bits: val };
            self.reg_t = (self.reg_t & !Self::NAME_TABLE_MASK) | ((v & 0x03) << 10);
        } else if reg == PPU_MASK_ADDR {
            self.reg_mask = PPUMask { bits: val };
            self.reg_w = false;
        } else if reg == PPU_OAM_ADDR {
            self.reg_oam_addr = val;
        } else if reg == PPU_OAM_DATA_ADDR {
            self.oam.write(self.reg_oam_addr, val);
            self.reg_oam_addr = self.reg_oam_addr.wrapping_add(1);
        } else if reg == PPU_SCROLL_ADDR {
            if self.reg_w {
                self.reg_t = (self.reg_t & !Self::COARSE_Y_MASK & !Self::FINE_Y_MASK) | ((v >> 3) << 5) | ((v & 0b111) << 12);
                self.reg_w = false;
            } else {
                self.reg_t = (self.reg_t & !Self::COARSE_X_MASK) | (v >> 3);
                assert(val & 0b111 < 8) by (bit_vector);
                self.reg_x = val & 0b111;
                self.reg_w = true;
            }
        } else if reg == PPU_ADDR {
            if self.reg_data_is_lo {
                self.reg_data = (self.reg_data & 0xFF00) | v;
                self.reg_data_is_lo = false;
            } else {
                self.reg_data = (v << 8) | (self.reg_data & 0x00FF);
                self.reg_data_is_lo = true;
            }
            if self.reg_w {
                self.reg_t = (self.reg_t & 0xFF00) | v;
                self.reg_v = self.reg_t;
                self.reg_w = false;
            } else {
                self.reg_t = (self.reg_t & 0x00FF) | ((v & 0b111111) << 8);
                self.reg_w = true;
            }
        } else if reg == PPU_DATA_ADDR {
            let a = self.reg_data;
            PPUBus::write(a, val, &mut self.vram, cartridge)?;
            self.reg_data = self.reg_data.wrapping_add(self.reg_ctrl.increment());
        } else {
            return Err(Fault::BusWrite(addr));
        }
        Ok(())
    }
}

/// Setting the data address through $2006 (high byte first, starting from a
/// cleared high/low toggle) and reading $2007 twice: the first read answers
/// the byte that was buffered before, the second the byte at the address.
pub proof fn lemma_set_address_then_read(p: PPU, hi: u8, lo: u8, cartridge: Cartridge, stall: u32, irq: InterruptSet)
    requires
        !p.reg_data_is_lo,
        PPUBus::spec_read(((hi as u16) * 256 + lo as u16) as u16, p.vram, cartridge) is Ok,
    ensures
        ({
            let a = ((hi as u16) * 256 + lo as u16) as u16;
            let (p1, c1, s1, w1) = p.spec_write_reg(PPU_ADDR, hi, cartridge, stall);
            let (p2, c2, s2, w2) = p1.spec_write_reg(PPU_ADDR, lo, c1, s1);
            let (p3, i3, r3) = p2.spec_read_reg(PPU_DATA_ADDR, c2, irq);
            let (p4, i4, r4) = p3.spec_read_reg(PPU_DATA_ADDR, c2, i3);
            &&& w1 is Ok && w2 is Ok
            &&& c2 == cartridge && s2 == stall
            &&& p2.reg_data == a
            &&& r3 == Ok::<u8, Fault>(p.reg_data_buffer)
            &&& (PPUBus::spec_read(p3.reg_data, p3.vram, c2) is Ok ==> r4 == PPUBus::spec_read(a, p.vram, cartridge))
        }),
{
    let h = hi as u16;
    let l = lo as u16;
    let d = p.reg_data;
    assert((((h << 8) | (d & 0x00FF)) & 0xFF00) | l == h * 256 + l) by (bit_vector)
        requires
            h < 256,
            l < 256;
}

} // verus!
