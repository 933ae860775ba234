//! Mapper 0 (NROM): 16KB or 32KB of PRG ROM and 8KB of CHR.

use vstd::prelude::*;

use crate::nes::cpu::Fault;

verus! {

broadcast use vstd::array::group_array_axioms;

pub struct Mapper0 {
    pub prg_rom_size: usize,
    pub prg_rom: Vec<u8>,
    pub chr: [u8; 0x2000],
}

impl Mapper0 {
    pub const PRG_ROM_SIZE: usize = 0x8000;
    pub const CHR_SIZE: usize = 0x2000;

    /// PRG ROM padded to 32KB, of which the first `prg_rom_size` bytes are
    /// mapped (and mirrored).
    pub open spec fn wf(&self) -> bool {
        &&& self.prg_rom@.len() == Self::PRG_ROM_SIZE
        &&& 0 < self.prg_rom_size <= Self::PRG_ROM_SIZE
    }

    pub open spec fn spec_read_cpu(&self, addr: u16) -> Result<u8, Fault> {
        if addr < 0x8000 {
            Err(Fault::BusRead(addr))
        } else {
            Ok(self.prg_rom@[(addr - 0x8000) % (self.prg_rom_size as int)])
        }
    }

    pub fn read_cpu_mem(&self, addr: u16) -> (r: Result<u8, Fault>)
        requires
            self.wf(),
        ensures
            r == self.spec_read_cpu(addr),
    {
        if addr < 0x8000 {
            return Err(Fault::BusRead(addr));
        }
        let offset = (addr as usize - 0x8000) % self.prg_rom_size;
        Ok(self.prg_rom[offset])
    }

    /// PRG ROM cannot be written.
    pub fn write_cpu_mem(&self, addr: u16, _data: u8) -> (r: Result<(), Fault>)
        ensures
            r == Err::<(), Fault>(Fault::BusWrite(addr)),
    {
        Err(Fault::BusWrite(addr))
    }

    pub open spec fn spec_read_ppu(&self, addr: u16) -> Result<u8, Fault> {
        if addr < 0x2000 { Ok(self.chr[addr as int]) } else { Err(Fault::BusRead(addr)) }
    }

    pub fn read_ppu_mem(&self, addr: u16) -> (r: Result<u8, Fault>)
        ensures
            r == self.spec_read_ppu(addr),
    {
        if addr < 0x2000 { Ok(self.chr[addr as usize]) } else { Err(Fault::BusRead(addr)) }
    }

    pub open spec fn spec_write_ppu(self, addr: u16, data: u8) -> (Self, Result<(), Fault>) {
        if addr < 0x2000 {
            (Mapper0 { chr: vstd::array::spec_array_update(self.chr, addr as int, data), ..self }, Ok(()))
        } else {
            (self, Err(Fault::BusWrite(addr)))
        }
    }

    pub fn write_ppu_mem(&mut self, addr: u16, data: u8) -> (r: Result<(), Fault>)
        ensures
            (*final(self), r) == old(self).spec_write_ppu(addr, data),
    {
        if addr < 0x2000 {
            self.chr[addr as usize] = data;
            Ok(())
        } else {
            Err(Fault::BusWrite(addr))
        }
    }
}

} // verus!
