//! Mapper 3 (CNROM): fixed PRG ROM and a switchable 8KB CHR bank.

use vstd::prelude::*;

use crate::nes::cpu::Fault;

verus! {

broadcast use vstd::array::group_array_axioms;

pub struct Mapper3 {
    pub prg_rom_size: usize,
    pub chr_size: usize,
    pub prg_rom: Vec<u8>,
    pub chr: [u8; 0x8000],
    pub bank: usize,
}

impl Mapper3 {
    pub const PRG_ROM_SIZE: usize = 0x8000;
    pub const CHR_SIZE: usize = 0x8000;
    pub const CHR_BANK_UNIT: usize = 0x2000;

    pub open spec fn wf(&self) -> bool {
        &&& self.prg_rom@.len() == Self::PRG_ROM_SIZE
        &&& 0 < self.prg_rom_size <= Self::PRG_ROM_SIZE
        &&& self.chr_size <= Self::CHR_SIZE
        &&& self.bank < 4
    }

    pub open spec fn prg_index(&self, addr: u16) -> int {
        (addr - 0x8000) % (self.prg_rom_size as int)
    }

    pub open spec fn spec_read_cpu(&self, addr: u16) -> Result<u8, Fault> {
        if addr < 0x8000 { Err(Fault::BusRead(addr)) } else { Ok(self.prg_rom@[self.prg_index(addr)]) }
    }

    pub fn read_cpu_mem(&self, addr: u16) -> (r: Result<u8, Fault>)
        requires
            self.wf(),
        ensures
            r == self.spec_read_cpu(addr),
    {
        if addr < 0x8000 {
            return Err(Fault::BusRead(addr));
        }
        Ok(self.prg_rom[(addr as usize - 0x8000) % self.prg_rom_size])
    }

    /// A write from $8000 selects the CHR bank: the written byte ANDed with
    /// the ROM byte at that address (bus conflict), low two bits.
    pub open spec fn spec_write_cpu(self, addr: u16, data: u8) -> (Self, Result<(), Fault>) {
        if addr < 0x8000 {
            (self, Err(Fault::BusWrite(addr)))
        } else {
            (Mapper3 { bank: ((self.prg_rom@[self.prg_index(addr)] & data) % 4) as usize, ..self }, Ok(()))
        }
    }

    pub fn write_cpu_mem(&mut self, addr: u16, data: u8) -> (r: Result<(), Fault>)
        requires
            old(self).wf(),
        ensures
            (*final(self), r) == old(self).spec_write_cpu(addr, data),
            final(self).wf(),
    {
        if addr < 0x8000 {
            return Err(Fault::BusWrite(addr));
        }
        let rom = self.prg_rom[(addr as usize - 0x8000) % self.prg_rom_size];
        self.bank = ((rom & data) % 4) as usize;
        Ok(())
    }

    pub open spec fn chr_index(&self, addr: u16) -> int {
        addr + self.bank * 0x2000
    }

    /// CHR through the selected bank; past the CHR the cartridge has, nothing answers.
    pub open spec fn spec_read_ppu(&self, addr: u16) -> Result<u8, Fault> {
        if self.chr_index(addr) >= self.chr_size { Err(Fault::BusRead(addr)) } else { Ok(self.chr[self.chr_index(addr)]) }
    }

    pub fn read_ppu_mem(&self, addr: u16) -> (r: Result<u8, Fault>)
        requires
            self.wf(),
        ensures
            r == self.spec_read_ppu(addr),
    {
        let i = addr as usize + self.bank * Self::CHR_BANK_UNIT;
        if i >= self.chr_size {
            return Err(Fault::BusRead(addr));
        }
        Ok(self.chr[i])
    }

    pub open spec fn spec_write_ppu(self, addr: u16, data: u8) -> (Self, Result<(), Fault>) {
        if self.chr_index(addr) >= self.chr_size {
            (self, Err(Fault::BusWrite(addr)))
        } else {
            (Mapper3 { chr: vstd::array::spec_array_update(self.chr, self.chr_index(addr), data), ..self }, Ok(()))
        }
    }

    pub fn write_ppu_mem(&mut self, addr: u16, data: u8) -> (r: Result<(), Fault>)
        requires
            old(self).wf(),
        ensures
            (*final(self), r) == old(self).spec_write_ppu(addr, data),
            final(self).wf(),
    {
        let i = addr as usize + self.bank * Self::CHR_BANK_UNIT;
        if i >= self.chr_size {
            return Err(Fault::BusWrite(addr));
        }
        self.chr[i] = data;
        Ok(())
    }
}

} // verus!
