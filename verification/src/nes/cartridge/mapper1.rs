//! Mapper 1 (MMC1): a serial shift register selects PRG and CHR banks and
//! the name table mirroring.

use vstd::prelude::*;

use crate::nes::cpu::Fault;
use crate::nes::Mirroring;

verus! {

broadcast use vstd::array::group_array_axioms;

/// How the two 16KB windows at $8000 and $C000 are banked.
#[derive(Clone, Copy, PartialEq, Eq, Structural, Debug)]
pub enum PrgRomBankMode {
    /// One 32KB bank.
    SwitchAll,
    /// $8000 fixed to the first bank, $C000 switchable.
    FixFirst,
    /// $8000 switchable, $C000 fixed to the last bank.
    FixLast,
}

/// How the two 4KB CHR windows are banked.
#[derive(Clone, Copy, PartialEq, Eq, Structural, Debug)]
pub enum ChrRomBankMode {
    /// One 8KB bank.
    SwitchAll,
    /// Two separate 4KB banks.
    SwitchTwo,
}

pub struct Mapper1 {
    pub prg_rom_size: usize,
    pub prg_ram: [u8; 0x2000],
    pub prg_rom: Vec<u8>,
    pub chr: [u8; 0x20000],
    pub prg_rom_banks: [usize; 2],
    pub chr_banks: [usize; 2],
    pub shift_register: u8,
    pub prg_rom_bank_mode: PrgRomBankMode,
    pub chr_bank_mode: ChrRomBankMode,
    pub prg_ram_disabled: bool,
    pub wrote_register_this_instruction: bool,
    pub mirroring: Mirroring,
}

impl Mapper1 {
    pub const PRG_RAM_SIZE: usize = 0x2000;
    pub const PRG_ROM_SIZE: usize = 0x80000;
    pub const PRG_ROM_BANK_UNIT: usize = 0x4000;
    pub const CHR_ROM_SIZE: usize = 0x20000;
    pub const CHR_ROM_BANK_UNIT: usize = 0x1000;

    /// 512KB of PRG ROM space of which at least one 16KB bank is used; every
    /// selected bank lies inside PRG ROM and CHR.
    pub open spec fn wf(&self) -> bool {
        &&& self.prg_rom@.len() == Self::PRG_ROM_SIZE
        &&& Self::PRG_ROM_BANK_UNIT <= self.prg_rom_size <= Self::PRG_ROM_SIZE
        &&& self.prg_rom_banks[0] < 32 && self.prg_rom_banks[1] < 32
        &&& self.chr_banks[0] < 32 && self.chr_banks[1] < 32
    }

    /// The number of 16KB banks of PRG ROM.
    pub open spec fn bank_count(&self) -> usize {
        (self.prg_rom_size / Self::PRG_ROM_BANK_UNIT) as usize
    }

    /// A mapper after power-on: the shift register empty, the last bank
    /// fixed at $C000, two 4KB CHR banks.
    pub fn new(prg_rom: Vec<u8>, prg_rom_size: usize, chr: [u8; 0x20000], mirroring: Mirroring) -> (r: Mapper1)
        requires
            prg_rom@.len() == Self::PRG_ROM_SIZE,
            Self::PRG_ROM_BANK_UNIT <= prg_rom_size <= Self::PRG_ROM_SIZE,
        ensures
            r.wf(),
            r.prg_rom == prg_rom && r.chr == chr && r.prg_rom_size == prg_rom_size,
            r.prg_rom_banks@ == seq![0usize, (prg_rom_size / Self::PRG_ROM_BANK_UNIT - 1) as usize],
            r.chr_banks@ == seq![0usize, 1usize],
            r.shift_register == 0x10,
            r.prg_rom_bank_mode == PrgRomBankMode::FixLast,
            r.chr_bank_mode == ChrRomBankMode::SwitchTwo,
            !r.prg_ram_disabled && !r.wrote_register_this_instruction,
            r.mirroring == mirroring,
            forall|i: int| 0 <= i < 0x2000 ==> r.prg_ram[i] == 0,
    {
        let bank_size = prg_rom_size / Self::PRG_ROM_BANK_UNIT;
        let r = Mapper1 {
            prg_rom_size,
            prg_ram: [0u8; 0x2000],
            prg_rom,
            chr,
            prg_rom_banks: [0, bank_size - 1],
            chr_banks: [0, 1],
            shift_register: 0x10,
            prg_rom_bank_mode: PrgRomBankMode::FixLast,
            chr_bank_mode: ChrRomBankMode::SwitchTwo,
            prg_ram_disabled: false,
            wrote_register_this_instruction: false,
            mirroring,
        };
        assert(r.prg_rom_banks@ =~= seq![0usize, (prg_rom_size / Self::PRG_ROM_BANK_UNIT - 1) as usize]);
        assert(r.chr_banks@ =~= seq![0usize, 1usize]);
        r
    }

    /// The effect of a complete 5-bit value shifted into the register
    /// selected by `addr`: control ($8000), CHR bank 0 ($A000), CHR bank 1
    /// ($C000) or PRG bank ($E000).
    pub open spec fn spec_write_effect(self, addr: u16, data: u8) -> Self {
        if addr < 0xA000 {
            let mode = (data / 4) % 4;
            Mapper1 {
                mirroring: if data % 4 == 0 {
                    Mirroring::SingleScreenLower
                } else if data % 4 == 1 {
                    Mirroring::SingleScreenUpper
                } else if data % 4 == 2 {
                    Mirroring::Vertical
                } else {
                    Mirroring::Horizontal
                },
                prg_rom_bank_mode: if mode < 2 {
                    PrgRomBankMode::SwitchAll
                } else if mode == 2 {
                    PrgRomBankMode::FixFirst
                } else {
                    PrgRomBankMode::FixLast
                },
                chr_bank_mode: if (data / 16) % 2 == 0 { ChrRomBankMode::SwitchAll } else { ChrRomBankMode::SwitchTwo },
                ..self
            }
        } else if addr < 0xC000 {
            match self.chr_bank_mode {
                ChrRomBankMode::SwitchAll => {
                    let b = (data % 32 / 2 * 2) as usize;
                    Mapper1 { chr_banks: [b, (b + 1) as usize], ..self }
                },
                ChrRomBankMode::SwitchTwo => Mapper1 {
                    chr_banks: vstd::array::spec_array_update(self.chr_banks, 0, (data % 32) as usize),
                    ..self
                },
            }
        } else if addr < 0xE000 {
            match self.chr_bank_mode {
                ChrRomBankMode::SwitchAll => self,
                ChrRomBankMode::SwitchTwo => Mapper1 {
                    chr_banks: vstd::array::spec_array_update(self.chr_banks, 1, (data % 32) as usize),
                    ..self
                },
            }
        } else {
            let bank = (data % 16) as usize;
            let m = match self.prg_rom_bank_mode {
                PrgRomBankMode::SwitchAll => Mapper1 {
                    prg_rom_banks: [(bank / 2 * 2) as usize, (bank / 2 * 2 + 1) as usize],
                    ..self
                },
                PrgRomBankMode::FixFirst => Mapper1 { prg_rom_banks: [0usize, bank], ..self },
                PrgRomBankMode::FixLast => Mapper1 { prg_rom_banks: [bank, (self.bank_count() - 1) as usize], ..self },
            };
            Mapper1 { prg_ram_disabled: (data / 16) % 2 == 1, ..m }
        }
    }

    pub fn write_effect(&mut self, addr: u16, data: u8)
        requires
            old(self).wf(),
        ensures
            *final(self) == old(self).spec_write_effect(addr, data),
            final(self).wf(),
    {
        if addr < 0xA000 {
            self.mirroring = if data % 4 == 0 {
                Mirroring::SingleScreenLower
            } else if data % 4 == 1 {
                Mirroring::SingleScreenUpper
            } else if data % 4 == 2 {
                Mirroring::Vertical
            } else {
                Mirroring::Horizontal
            };
            let mode = (data / 4) % 4;
            self.prg_rom_bank_mode = if mode < 2 {
                PrgRomBankMode::SwitchAll
            } else if mode == 2 {
                PrgRomBankMode::FixFirst
            } else {
                PrgRomBankMode::FixLast
            };
            self.chr_bank_mode = if (data / 16) % 2 == 0 { ChrRomBankMode::SwitchAll } else { ChrRomBankMode::SwitchTwo };
        } else if addr < 0xC000 {
            match self.chr_bank_mode {
                ChrRomBankMode::SwitchAll => {
                    let b = (data % 32 / 2 * 2) as usize;
                    self.chr_banks = [b, b + 1];
                },
                ChrRomBankMode::SwitchTwo => {
                    self.chr_banks[0] = (data % 32) as usize;
                },
            }
        } else if addr < 0xE000 {
            match self.chr_bank_mode {
                ChrRomBankMode::SwitchAll => {},
                ChrRomBankMode::SwitchTwo => {
                    self.chr_banks[1] = (data % 32) as usize;
                },
            }
        } else {
            let bank = (data % 16) as usize;
            match self.prg_rom_bank_mode {
                PrgRomBankMode::SwitchAll => {
                    self.prg_rom_banks = [bank / 2 * 2, bank / 2 * 2 + 1];
                },
                PrgRomBankMode::FixFirst => {
                    self.prg_rom_banks = [0, bank];
                },
                PrgRomBankMode::FixLast => {
                    let bank_size = self.prg_rom_size / Self::PRG_ROM_BANK_UNIT;
                    self.prg_rom_banks = [bank, bank_size - 1];
                },
            }
            self.prg_ram_disabled = (data / 16) % 2 == 1;
        }
    }

    pub fn mirroring(&self) -> (r: Mirroring)
        ensures
            r == self.mirroring,
    {
        self.mirroring
    }

    /// The CPU starts an instruction: register writes may be taken again.
    pub fn begin_cpu_instruction(&mut self)
        ensures
            *final(self) == (Mapper1 { wrote_register_this_instruction: false, ..*old(self) }),
    {
        self.wrote_register_this_instruction = false;
    }

    /// Reads: $6000-$7FFF from PRG RAM (0 while it is disabled), $8000 and
    /// up from the selected 16KB PRG banks; below $6000 nothing answers.
    pub open spec fn spec_read_cpu(&self, addr: u16) -> Result<u8, Fault> {
        if addr < 0x6000 {
            Err(Fault::BusRead(addr))
        } else if addr < 0x8000 {
            if self.prg_ram_disabled { Ok(0u8) } else { Ok(self.prg_ram[addr - 0x6000]) }
        } else {
            let bank = self.prg_rom_banks[(addr - 0x8000) / 0x4000];
            Ok(self.prg_rom@[bank * 0x4000 + (addr - 0x8000) % 0x4000])
        }
    }

    pub fn read_cpu_mem(&self, addr: u16) -> (r: Result<u8, Fault>)
        requires
            self.wf(),
        ensures
            r == self.spec_read_cpu(addr),
    {
        if addr < 0x6000 {
            Err(Fault::BusRead(addr))
        } else if addr < 0x8000 {
            if self.prg_ram_disabled { Ok(0) } else { Ok(self.prg_ram[addr as usize - 0x6000]) }
        } else {
            let bank_index = (addr as usize - 0x8000) / Self::PRG_ROM_BANK_UNIT;
            let offset = (addr as usize - 0x8000) % Self::PRG_ROM_BANK_UNIT;
            let bank = self.prg_rom_banks[bank_index];
            Ok(self.prg_rom[bank * Self::PRG_ROM_BANK_UNIT + offset])
        }
    }

    /// Writes: PRG RAM at $6000-$7FFF (ignored while disabled); from $8000
    /// one bit into the shift register, a set bit 7 resetting it. The fifth
    /// bit completes a value for the register that the address selects. Only
    /// the first such write of an instruction is taken.
    pub open spec fn spec_write_cpu(self, addr: u16, data: u8) -> (Self, Result<(), Fault>) {
        if addr < 0x6000 {
            (self, Err(Fault::BusWrite(addr)))
        } else if addr < 0x8000 {
            if self.prg_ram_disabled {
                (self, Ok(()))
            } else {
                (Mapper1 { prg_ram: vstd::array::spec_array_update(self.prg_ram, addr - 0x6000, data), ..self }, Ok(()))
            }
        } else if self.wrote_register_this_instruction {
            (self, Ok(()))
        } else {
            let m = Mapper1 { wrote_register_this_instruction: true, ..self };
            if data >= 0x80 {
                (Mapper1 {
                    shift_register: 0x10,
                    prg_rom_bank_mode: PrgRomBankMode::FixLast,
                    prg_rom_banks: vstd::array::spec_array_update(m.prg_rom_banks, 1, (m.bank_count() - 1) as usize),
                    ..m
                }, Ok(()))
            } else {
                let complete = m.shift_register % 2 == 1;
                let shifted = (m.shift_register / 2 + (data % 2) * 16) as u8;
                if complete {
                    (Mapper1 { shift_register: 0x10, ..Mapper1 { shift_register: shifted, ..m }.spec_write_effect(addr, shifted) }, Ok(()))
                } else {
                    (Mapper1 { shift_register: shifted, ..m }, Ok(()))
                }
            }
        }
    }

    pub fn write_cpu_mem(&mut self, addr: u16, data: u8) -> (r: Result<(), Fault>)
        requires
            old(self).wf(),
        ensures
            (*final(self), r) == old(self).spec_write_cpu(addr, data),
            final(self).wf(),
    {
        if addr < 0x6000 {
            return Err(Fault::BusWrite(addr));
        } else if addr < 0x8000 {
            if !self.prg_ram_disabled {
                self.prg_ram[addr as usize - 0x6000] = data;
            }
            return Ok(());
        }
        if self.wrote_register_this_instruction {
            return Ok(());
        }
        self.wrote_register_this_instruction = true;
        if data >= 0x80 {
            self.shift_register = 0x10;
            self.prg_rom_bank_mode = PrgRomBankMode::FixLast;
            let bank_size = self.prg_rom_size / Self::PRG_ROM_BANK_UNIT;
            self.prg_rom_banks[1] = bank_size - 1;
        } else {
            let complete = self.shift_register % 2 == 1;
            self.shift_register = self.shift_register / 2 + (data % 2) * 16;
            if complete {
                let value = self.shift_register;
                self.write_effect(addr, value);
                self.shift_register = 0x10;
            }
        }
        Ok(())
    }

    /// CHR through the two 4KB banks.
    pub open spec fn chr_index(&self, addr: u16) -> int {
        self.chr_banks[(addr / 0x1000) as int] * 0x1000 + addr % 0x1000
    }

    pub open spec fn spec_read_ppu(&self, addr: u16) -> Result<u8, Fault> {
        if addr < 0x2000 { Ok(self.chr[self.chr_index(addr)]) } else { Err(Fault::BusRead(addr)) }
    }

    pub fn read_ppu_mem(&self, addr: u16) -> (r: Result<u8, Fault>)
        requires
            self.wf(),
        ensures
            r == self.spec_read_ppu(addr),
    {
        if addr >= 0x2000 {
            return Err(Fault::BusRead(addr));
        }
        let bank = self.chr_banks[addr as usize / Self::CHR_ROM_BANK_UNIT];
        Ok(self.chr[bank * Self::CHR_ROM_BANK_UNIT + addr as usize % Self::CHR_ROM_BANK_UNIT])
    }

    pub open spec fn spec_write_ppu(self, addr: u16, data: u8) -> (Self, Result<(), Fault>) {
        if addr < 0x2000 {
            (Mapper1 { chr: vstd::array::spec_array_update(self.chr, self.chr_index(addr), data), ..self }, Ok(()))
        } else {
            (self, Err(Fault::BusWrite(addr)))
        }
    }

    pub fn write_ppu_mem(&mut self, addr: u16, data: u8) -> (r: Result<(), Fault>)
        requires
            old(self).wf(),
        ensures
            (*final(self), r) == old(self).spec_write_ppu(addr, data),
            final(self).wf(),
    {
        if addr >= 0x2000 {
            return Err(Fault::BusWrite(addr));
        }
        let bank = self.chr_banks[addr as usize / Self::CHR_ROM_BANK_UNIT];
        self.chr[bank * Self::CHR_ROM_BANK_UNIT + addr as usize % Self::CHR_ROM_BANK_UNIT] = data;
        Ok(())
    }
}

impl Mapper1 {
    /// A register write in an instruction of its own: the mapper is told a
    /// new instruction begins, then the CPU writes `data` at `addr`.
    #[verifier::opaque]
    pub open spec fn spec_instruction_write(self, addr: u16, data: u8) -> Self {
        Mapper1 { wrote_register_this_instruction: false, ..self }.spec_write_cpu(addr, data).0
    }
}

proof fn lemma_serial_shift(m: Mapper1, addr: u16, data: u8)
    requires
        addr >= 0x8000,
        data < 0x80,
        m.shift_register % 2 == 0,
    ensures
        m.spec_instruction_write(addr, data) == (Mapper1 {
            shift_register: (m.shift_register / 2 + (data % 2) * 16) as u8,
            wrote_register_this_instruction: true,
            ..m
        }),
{
    reveal(Mapper1::spec_instruction_write);
}

proof fn lemma_serial_complete(m: Mapper1, addr: u16, data: u8)
    requires
        addr >= 0x8000,
        data < 0x80,
        m.shift_register % 2 == 1,
    ensures
        ({
            let v = (m.shift_register / 2 + (data % 2) * 16) as u8;
            m.spec_instruction_write(addr, data) == (Mapper1 {
                shift_register: 0x10,
                ..Mapper1 { shift_register: v, wrote_register_this_instruction: true, ..m }.spec_write_effect(addr, v)
            })
        }),
{
    reveal(Mapper1::spec_instruction_write);
}

/// The serial port of MMC1: from an empty shift register, five writes in
/// separate instructions (bit 7 clear) to $8000 and up shift in bits 0 of
/// their bytes, least significant first, and the fifth loads the five-bit
/// value into the register that its address selects; the shift register
/// is then empty again.
pub proof fn lemma_serial_load(m: Mapper1, a: Seq<u16>, d: Seq<u8>)
    requires
        m.shift_register == 0x10,
        a.len() == 5,
        d.len() == 5,
        forall|i: int| 0 <= i < 5 ==> a[i] >= 0x8000 && d[i] < 0x80,
    ensures
        ({
            let value = (d[0] % 2 + (d[1] % 2) * 2 + (d[2] % 2) * 4 + (d[3] % 2) * 8 + (d[4] % 2) * 16) as u8;
            let m1 = m.spec_instruction_write(a[0], d[0]);
            let m2 = m1.spec_instruction_write(a[1], d[1]);
            let m3 = m2.spec_instruction_write(a[2], d[2]);
            let m4 = m3.spec_instruction_write(a[3], d[3]);
            let m5 = m4.spec_instruction_write(a[4], d[4]);
            m5 == (Mapper1 {
                shift_register: 0x10,
                ..Mapper1 { shift_register: value, wrote_register_this_instruction: true, ..m }.spec_write_effect(a[4], value)
            })
        }),
{
    assert(a[0] >= 0x8000 && d[0] < 0x80);
    assert(a[1] >= 0x8000 && d[1] < 0x80);
    assert(a[2] >= 0x8000 && d[2] < 0x80);
    assert(a[3] >= 0x8000 && d[3] < 0x80);
    assert(a[4] >= 0x8000 && d[4] < 0x80);
    let (b0, b1, b2, b3, b4) = (d[0] % 2, d[1] % 2, d[2] % 2, d[3] % 2, d[4] % 2);
    lemma_serial_shift(m, a[0], d[0]);
    let m1 = m.spec_instruction_write(a[0], d[0]);
    assert(m1 == (Mapper1 { shift_register: (8 + b0 * 16) as u8, wrote_register_this_instruction: true, ..m }));
    lemma_serial_shift(m1, a[1], d[1]);
    let m2 = m1.spec_instruction_write(a[1], d[1]);
    assert(m2 == (Mapper1 { shift_register: (4 + b0 * 8 + b1 * 16) as u8, wrote_register_this_instruction: true, ..m }));
    lemma_serial_shift(m2, a[2], d[2]);
    let m3 = m2.spec_instruction_write(a[2], d[2]);
    assert(m3 == (Mapper1 { shift_register: (2 + b0 * 4 + b1 * 8 + b2 * 16) as u8, wrote_register_this_instruction: true, ..m }));
    lemma_serial_shift(m3, a[3], d[3]);
    let m4 = m3.spec_instruction_write(a[3], d[3]);
    assert(m4 == (Mapper1 { shift_register: (1 + b0 * 2 + b1 * 4 + b2 * 8 + b3 * 16) as u8, wrote_register_this_instruction: true, ..m }));
    lemma_serial_complete(m4, a[4], d[4]);
}

} // verus!
