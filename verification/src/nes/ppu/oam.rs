//! Object attribute memory: the 64 sprites.

use vstd::prelude::*;

use crate::nes::cpu::CPU;

verus! {

broadcast use vstd::array::group_array_axioms;

/// One sprite: its top, tile, attribute byte and left.
#[derive(Clone, Copy, PartialEq, Eq, Structural, Debug)]
pub struct Sprite {
    pub y: u8,
    pub pattern_index: u8,
    pub attributes: u8,
    pub x: u8,
}

impl Sprite {
    pub fn new() -> (r: Sprite)
        ensures
            r == (Sprite { y: 0, pattern_index: 0, attributes: 0, x: 0 }),
    {
        Sprite { y: 0, pattern_index: 0, attributes: 0, x: 0 }
    }

    /// The sprite palette, attribute bits 0-1.
    pub fn palette_idx(&self) -> (r: usize)
        ensures
            r == self.attributes % 4,
    {
        (self.attributes % 4) as usize
    }

    /// Behind the background: attribute bit 5.
    pub fn background(&self) -> (r: bool)
        ensures
            r == ((self.attributes / 32) % 2 == 1),
    {
        (self.attributes / 32) % 2 == 1
    }

    /// Mirrored left to right: attribute bit 6.
    pub fn flip_horizontal(&self) -> (r: bool)
        ensures
            r == ((self.attributes / 64) % 2 == 1),
    {
        (self.attributes / 64) % 2 == 1
    }

    /// Mirrored top to bottom: attribute bit 7.
    pub fn flip_vertical(&self) -> (r: bool)
        ensures
            r == (self.attributes >= 128),
    {
        self.attributes >= 128
    }
}

pub const OAM_SPRITE_NUM: usize = 64;

pub struct OAM {
    pub sprites: [Sprite; 64],
    pub dma_request_addr: u16,
}

impl OAM {
    pub fn new() -> (r: OAM)
        ensures
            r.dma_request_addr == 0,
            forall|i: int| 0 <= i < 64 ==> r.sprites[i] == (Sprite { y: 0, pattern_index: 0, attributes: 0, x: 0 }),
    {
        OAM { sprites: [Sprite { y: 0, pattern_index: 0, attributes: 0, x: 0 }; 64], dma_request_addr: 0 }
    }

    /// Byte `addr` of OAM: sprite `addr / 4`, field `addr % 4` (Y, tile,
    /// attributes, X).
    pub open spec fn spec_write(self, addr: u8, val: u8) -> OAM {
        let i = (addr / 4) as int;
        let s = self.sprites[i];
        let s2 = if addr % 4 == 0 {
            Sprite { y: val, ..s }
        } else if addr % 4 == 1 {
            Sprite { pattern_index: val, ..s }
        } else if addr % 4 == 2 {
            Sprite { attributes: val, ..s }
        } else {
            Sprite { x: val, ..s }
        };
        OAM { sprites: vstd::array::spec_array_update(self.sprites, i, s2), ..self }
    }

    pub fn write(&mut self, addr: u8, val: u8)
        ensures
            *final(self) == old(self).spec_write(addr, val),
    {
        let index = (addr / 4) as usize;
        let mut s = self.sprites[index];
        if addr % 4 == 0 {
            s.y = val;
        } else if addr % 4 == 1 {
            s.pattern_index = val;
        } else if addr % 4 == 2 {
            s.attributes = val;
        } else {
            s.x = val;
        }
        self.sprites[index] = s;
    }

    /// Byte `addr` of OAM, laid out as `spec_write` writes it.
    pub open spec fn spec_byte(self, addr: int) -> u8 {
        let s = self.sprites[addr / 4];
        if addr % 4 == 0 {
            s.y
        } else if addr % 4 == 1 {
            s.pattern_index
        } else if addr % 4 == 2 {
            s.attributes
        } else {
            s.x
        }
    }

    /// A write changes the byte written and no other.
    pub proof fn lemma_write_byte(self, addr: u8, val: u8)
        ensures
            self.spec_write(addr, val).spec_byte(addr as int) == val,
            forall|j: int| 0 <= j < 256 && j != addr ==> #[trigger] self.spec_write(addr, val).spec_byte(j) == self.spec_byte(j),
            self.spec_write(addr, val).dma_request_addr == self.dma_request_addr,
    {
        assert forall|j: int| 0 <= j < 256 && j != addr implies #[trigger] self.spec_write(addr, val).spec_byte(j) == self.spec_byte(j) by {
            if j / 4 != addr / 4 {
            } else {
                assert(j % 4 != addr % 4);
            }
        }
    }

    /// The bytes `data[i..]` written at their own indices, in order.
    pub open spec fn spec_write_from(self, data: Seq<u8>, i: nat) -> OAM
        decreases data.len() - i,
    {
        if i < data.len() && i < 256 {
            self.spec_write(i as u8, data[i as int]).spec_write_from(data, i + 1)
        } else {
            self
        }
    }

    /// Writing 256 bytes in order leaves OAM holding exactly those bytes.
    pub proof fn lemma_write_from(self, data: Seq<u8>, i: nat)
        requires
            data.len() == 256,
            i <= 256,
        ensures
            forall|j: int| i <= j < 256 ==> #[trigger] self.spec_write_from(data, i).spec_byte(j) == data[j],
            forall|j: int| 0 <= j < i ==> #[trigger] self.spec_write_from(data, i).spec_byte(j) == self.spec_byte(j),
            self.spec_write_from(data, i).dma_request_addr == self.dma_request_addr,
        decreases 256 - i,
    {
        if i < 256 {
            let o1 = self.spec_write(i as u8, data[i as int]);
            self.lemma_write_byte(i as u8, data[i as int]);
            o1.lemma_write_from(data, i + 1);
            assert forall|j: int| i <= j < 256 implies #[trigger] self.spec_write_from(data, i).spec_byte(j) == data[j] by {
                if j == i {
                } else {
                    assert(o1.spec_write_from(data, i + 1).spec_byte(j) == data[j]);
                }
            }
            assert forall|j: int| 0 <= j < i implies #[trigger] self.spec_write_from(data, i).spec_byte(j) == self.spec_byte(j) by {
                assert(o1.spec_write_from(data, i + 1).spec_byte(j) == o1.spec_byte(j));
            }
        }
    }

    /// Requests a DMA transfer from CPU page `hi`; the CPU stalls meanwhile.
    pub fn request_dma_transfer(&mut self, hi: u8, cpu: &mut CPU)
        ensures
            *final(self) == (OAM { dma_request_addr: (hi as u16 * 256) as u16, ..*old(self) }),
            *final(cpu) == (CPU { stall_cycles: CPU::stall_after(old(cpu).stall_cycles, CPU::OAM_DMA_CYCLES), ..*old(cpu) }),
    {
        self.dma_request_addr = hi as u16 * 256;
        cpu.dma_stall();
    }
}

} // verus!
