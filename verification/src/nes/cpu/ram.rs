//! The 2 KiB of work RAM on the CPU bus.

use vstd::prelude::*;

verus! {

broadcast use vstd::array::group_array_axioms;

pub const RAM_SIZE: usize = 0x800;

pub struct RAM {
    pub mem: [u8; 0x800],
}

impl RAM {
    /// Cleared RAM.
    pub fn new() -> (r: RAM)
        ensures
            forall|i: int| 0 <= i < 0x800 ==> r.mem[i] == 0,
    {
        RAM { mem: [0; 0x800] }
    }

    pub fn read(&self, addr: u16) -> (r: u8)
        requires
            addr < 0x800,
        ensures
            r == self.mem[addr as int],
    {
        self.mem[addr as usize]
    }

    pub open spec fn spec_write(self, addr: u16, val: u8) -> RAM {
        RAM { mem: vstd::array::spec_array_update(self.mem, addr as int, val) }
    }

    pub fn write(&mut self, addr: u16, val: u8)
        requires
            addr < 0x800,
        ensures
            *final(self) == old(self).spec_write(addr, val),
    {
        self.mem[addr as usize] = val;
    }
}

} // verus!
