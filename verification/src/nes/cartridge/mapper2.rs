//! Mapper 2 (UxROM): a switchable 16KB PRG bank at $8000 and the last bank
//! fixed at $C000.

use vstd::prelude::*;

use crate::nes::cpu::Fault;

verus! {

broadcast use vstd::array::group_array_axioms;

pub struct Mapper2 {
    pub prg_rom: Vec<u8>,
    pub chr: [u8; 0x2000],
    pub bank: usize,
}

impl Mapper2 {
    pub const PRG_ROM_SIZE: usize = 0x40000;
    pub const PRG_ROM_UNIT: usize = 0x4000;
    pub const CHR_SIZE: usize = 0x2000;

    pub open spec fn wf(&self) -> bool {
        self.prg_rom@.len() == Self::PRG_ROM_SIZE && self.bank < 16
    }

    pub open spec fn spec_read_cpu(&self, addr: u16) -> Result<u8, Fault> {
        if addr < 0x8000 {
            Err(Fault::BusRead(addr))
        } else if addr < 0xC000 {
            Ok(self.prg_rom@[(addr - 0x8000) + self.bank * 0x4000])
        } else {
            Ok(self.prg_rom@[(addr - 0xC000) + 15 * 0x4000])
        }
    }

    pub fn read_cpu_mem(&self, addr: u16) -> (r: Result<u8, Fault>)
        requires
            self.wf(),
        ensures
            r == self.spec_read_cpu(addr),
    {
        if addr < 0x8000 {
            Err(Fault::BusRead(addr))
        } else if addr < 0xC000 {
            Ok(self.prg_rom[(addr as usize - 0x8000) + self.bank * Self::PRG_ROM_UNIT])
        } else {
            let bank_len = Self::PRG_ROM_SIZE / Self::PRG_ROM_UNIT;
            Ok(self.prg_rom[(addr as usize - 0xC000) + (bank_len - 1) * Self::PRG_ROM_UNIT])
        }
    }

    /// Any write from $8000 selects the bank at $8000 by its low four bits.
    pub open spec fn spec_write_cpu(self, addr: u16, data: u8) -> (Self, Result<(), Fault>) {
        if addr < 0x8000 {
            (self, Err(Fault::BusWrite(addr)))
        } else {
            (Mapper2 { bank: (data % 16) as usize, ..self }, Ok(()))
        }
    }

    pub fn write_cpu_mem(&mut self, addr: u16, data: u8) -> (r: Result<(), Fault>)
        requires
            old(self).wf(),
        ensures
            (*final(self), r) == old(self).spec_write_cpu(addr, data),
            final(self).wf(),
    {
        if addr < 0x8000 {
            return Err(Fault::BusWrite(addr));
        }
        self.bank = (data % 16) as usize;
        Ok(())
    }

    pub open spec fn spec_read_ppu(&self, addr: u16) -> Result<u8, Fault> {
        if addr < 0x2000 { Ok(self.chr[addr as int]) } else { Err(Fault::BusRead(addr)) }
    }

    pub fn read_ppu_mem(&self, addr: u16) -> (r: Result<u8, Fault>)
        ensures
            r == self.spec_read_ppu(addr),
    {
        if addr < 0x2000 { Ok(self.chr[addr as usize]) } else { Err(Fault::BusRead(addr)) }
    }

    pub open spec fn spec_write_ppu(self, addr: u16, data: u8) -> (Self, Result<(), Fault>) {
        if addr < 0x2000 {
            (Mapper2 { chr: vstd::array::spec_array_update(self.chr, addr as int, data), ..self }, Ok(()))
        } else {
            (self, Err(Fault::BusWrite(addr)))
        }
    }

    pub fn write_ppu_mem(&mut self, addr: u16, data: u8) -> (r: Result<(), Fault>)
        ensures
            (*final(self), r) == old(self).spec_write_ppu(addr, data),
    {
        if addr < 0x2000 {
            self.chr[addr as usize] = data;
            Ok(())
        } else {
            Err(Fault::BusWrite(addr))
        }
    }
}

/// UxROM's windows: $C000-$FFFF always shows the last 16 KiB bank
/// (offset 0x3C000), whatever the bank register holds, while $8000-$BFFF
/// shows the bank that the last write from $8000 selected by its low four
/// bits.
pub proof fn lemma_uxrom_windows(m: Mapper2, other_bank: usize, addr: u16, waddr: u16, data: u8)
    requires
        m.wf(),
        other_bank < 16,
        waddr >= 0x8000,
    ensures
        addr >= 0xC000 ==> m.spec_read_cpu(addr) == Ok::<u8, Fault>(m.prg_rom@[addr - 0xC000 + 0x3C000]),
        addr >= 0xC000 ==> (Mapper2 { bank: other_bank, ..m }).spec_read_cpu(addr) == m.spec_read_cpu(addr),
        0x8000 <= addr < 0xC000 ==> m.spec_write_cpu(waddr, data).0.spec_read_cpu(addr)
            == Ok::<u8, Fault>(m.prg_rom@[addr - 0x8000 + (data as int % 16) * 0x4000]),
{
}

} // verus!
