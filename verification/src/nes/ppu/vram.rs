//! The PPU's own memory: name tables and palettes at $2000-$3FFF.

use vstd::prelude::*;

verus! {

broadcast use vstd::array::group_array_axioms;

pub const VRAM_OFFSET: usize = 0x2000;
pub const VRAM_SIZE: usize = 0x2000;

pub struct VRAM {
    pub mem: [u8; 0x2000],
}

impl VRAM {
    pub fn new() -> (r: VRAM)
        ensures
            forall|i: int| 0 <= i < 0x2000 ==> r.mem[i] == 0,
    {
        VRAM { mem: [0u8; 0x2000] }
    }

    pub fn read(&self, addr: u16) -> (r: u8)
        requires
            0x2000 <= addr < 0x4000,
        ensures
            r == self.mem[addr - 0x2000],
    {
        self.mem[addr as usize - VRAM_OFFSET]
    }

    pub open spec fn spec_write(self, addr: u16, val: u8) -> VRAM {
        VRAM { mem: vstd::array::spec_array_update(self.mem, addr - 0x2000, val) }
    }

    pub fn write(&mut self, addr: u16, val: u8)
        requires
            0x2000 <= addr < 0x4000,
        ensures
            *final(self) == old(self).spec_write(addr, val),
    {
        self.mem[addr as usize - VRAM_OFFSET] = val;
    }
}

} // verus!
