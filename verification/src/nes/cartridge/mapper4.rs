//! Mapper 4 (MMC3): 8KB PRG banks, 1KB and 2KB CHR banks and a scanline
//! counter that raises IRQs.
//! Reference: https://www.nesdev.org/wiki/MMC3

use vstd::prelude::*;

use crate::nes::cpu::Fault;

verus! {

broadcast use vstd::array::group_array_axioms;

pub struct Mapper4 {
    pub prg_rom_size: usize,
    pub prg_ram: [u8; 0x2000],
    pub prg_rom: Vec<u8>,
    pub chr_rom: [u8; 0x40000],
    pub prg_rom_banks: [usize; 3],
    pub chr_rom_banks: [usize; 8],
    /// If true, two 2KB banks are mapped at PPU $0000.
    pub two_banks_first: bool,
    pub bank_select: u8,
    pub prg_ram_enabled: bool,
    pub prg_ram_write_protected: bool,
    pub irq_counter: u8,
    pub irq_latch_value: u8,
    pub irq_reload: bool,
    pub irq_enabled: bool,
}

impl Mapper4 {
    pub const PRG_RAM_SIZE: usize = 0x2000;
    pub const CHR_ROM_SIZE: usize = 0x40000;
    pub const PRG_ROM_BANK_UNIT: usize = 0x2000;
    pub const CHR_ROM_BANK_UNIT: usize = 0x400;

    /// The PRG ROM holds its whole declared size, at least two 8KB banks;
    /// every CHR bank lies inside the 256KB of CHR.
    pub open spec fn wf(&self) -> bool {
        &&& self.prg_rom@.len() == self.prg_rom_size
        &&& 2 * Self::PRG_ROM_BANK_UNIT <= self.prg_rom_size <= 0x400000
        &&& forall|i: int| 0 <= i < 3 ==> self.prg_rom_banks[i] < 512
        &&& forall|i: int| 0 <= i < 8 ==> self.chr_rom_banks[i] < 256
    }

    /// The number of 8KB banks of PRG ROM.
    pub open spec fn spec_prg_rom_bank_size(&self) -> usize {
        (self.prg_rom_size / Self::PRG_ROM_BANK_UNIT) as usize
    }

    pub fn prg_rom_bank_size(&self) -> (r: usize)
        ensures
            r == self.spec_prg_rom_bank_size(),
    {
        self.prg_rom_size / Self::PRG_ROM_BANK_UNIT
    }

    /// A mapper after power-on: the second-to-last bank at $C000, all CHR
    /// banks 0, PRG RAM enabled, the IRQ counter idle.
    pub fn new(prg_rom: Vec<u8>) -> (r: Mapper4)
        requires
            2 * Self::PRG_ROM_BANK_UNIT <= prg_rom@.len() <= 0x400000,
        ensures
            r.wf(),
            r.prg_rom == prg_rom && r.prg_rom_size == prg_rom@.len(),
            r.prg_rom_banks@ == seq![0usize, 1usize, (r.spec_prg_rom_bank_size() - 2) as usize],
            forall|i: int| 0 <= i < 8 ==> r.chr_rom_banks[i] == 0,
            forall|i: int| 0 <= i < 0x2000 ==> r.prg_ram[i] == 0,
            forall|i: int| 0 <= i < 0x40000 ==> r.chr_rom[i] == 0,
            r.two_banks_first && r.bank_select == 0 && r.prg_ram_enabled && r.prg_ram_write_protected,
            r.irq_counter == 0 && r.irq_latch_value == 0 && !r.irq_reload && !r.irq_enabled,
    {
        let prg_rom_size = prg_rom.len();
        let bank_size = prg_rom_size / Self::PRG_ROM_BANK_UNIT;
        let r = Mapper4 {
            prg_rom_size,
            prg_ram: [0u8; 0x2000],
            prg_rom,
            chr_rom: [0u8; 0x40000],
            prg_rom_banks: [0, 1, bank_size - 2],
            chr_rom_banks: [0; 8],
            two_banks_first: true,
            bank_select: 0,
            prg_ram_enabled: true,
            prg_ram_write_protected: true,
            irq_counter: 0,
            irq_latch_value: 0,
            irq_reload: false,
            irq_enabled: false,
        };
        assert(r.prg_rom_banks@ =~= seq![0usize, 1usize, (r.spec_prg_rom_bank_size() - 2) as usize]);
        r
    }

    /// The bank data register: writes `bank` into the register that the last
    /// bank select chose, honouring the CHR and PRG inversion bits (bits 7
    /// and 6 of the bank select):
    /// - R0, R1: 2KB CHR banks (even numbers only) at PPU $0000 and $0800,
    ///   or at $1000 and $1800 when CHR is inverted (1KB slots 0-1, 2-3 or
    ///   4-5, 6-7);
    /// - R2, R3, R4, R5: 1KB CHR banks at PPU $1000, $1400, $1800, $1C00
    ///   (slots 4-7), or at $0000, $0400, $0800, $0C00 (slots 0-3) when
    ///   CHR is inverted;
    /// - R6: the 8KB PRG bank at CPU $8000, the one at $C000 fixed to the
    ///   second last bank; swapped when PRG is inverted;
    /// - R7: the 8KB PRG bank at CPU $A000.
    pub open spec fn spec_update_bank(self, bank: u8) -> (Self, Result<(), Fault>) {
        let selected = self.bank_select % 8;
        let prg_mode = (self.bank_select / 64) % 2 == 1;
        let m = Mapper4 { two_banks_first: self.bank_select < 128, ..self };
        let b = bank as usize;
        if selected == 0 || selected == 1 {
            if bank % 2 != 0 {
                (m, Err(Fault::BusWrite(0x8001)))
            } else {
                let base = if m.two_banks_first { 2 * selected } else { 4 + 2 * selected };
                (Mapper4 { chr_rom_banks: vstd::array::spec_array_update(vstd::array::spec_array_update(m.chr_rom_banks, base as int, b), base + 1, (b + 1) as usize), ..m }, Ok(()))
            }
        } else if selected <= 5 {
            let i = if m.two_banks_first { selected + 2 } else { selected - 2 };
            (Mapper4 { chr_rom_banks: vstd::array::spec_array_update(m.chr_rom_banks, i as int, b), ..m }, Ok(()))
        } else if selected == 6 {
            let fixed = (m.spec_prg_rom_bank_size() - 2) as usize;
            if prg_mode {
                (Mapper4 { prg_rom_banks: [fixed, m.prg_rom_banks[1], b], ..m }, Ok(()))
            } else {
                (Mapper4 { prg_rom_banks: [b, m.prg_rom_banks[1], fixed], ..m }, Ok(()))
            }
        } else {
            (Mapper4 { prg_rom_banks: vstd::array::spec_array_update(m.prg_rom_banks, 1, b), ..m }, Ok(()))
        }
    }

    pub fn update_bank(&mut self, bank: u8) -> (r: Result<(), Fault>)
        requires
            old(self).wf(),
        ensures
            (*final(self), r) == old(self).spec_update_bank(bank),
            final(self).wf(),
    {
        let selected_bank = self.bank_select % 8;
        let prg_rom_bank_mode = (self.bank_select / 64) % 2 == 1;
        self.two_banks_first = self.bank_select < 128;
        let b = bank as usize;
        if selected_bank == 0 || selected_bank == 1 {
            if bank % 2 != 0 {
                return Err(Fault::BusWrite(0x8001));
            }
            let base: usize = if self.two_banks_first { 2 * selected_bank as usize } else { 4 + 2 * selected_bank as usize };
            self.chr_rom_banks[base] = b;
            self.chr_rom_banks[base + 1] = b + 1;
        } else if selected_bank <= 5 {
            let i: usize = if self.two_banks_first { selected_bank as usize + 2 } else { selected_bank as usize - 2 };
            self.chr_rom_banks[i] = b;
        } else if selected_bank == 6 {
            let fixed = self.prg_rom_bank_size() - 2;
            if prg_rom_bank_mode {
                self.prg_rom_banks[0] = fixed;
                self.prg_rom_banks[2] = b;
            } else {
                self.prg_rom_banks[0] = b;
                self.prg_rom_banks[2] = fixed;
            }
        } else {
            self.prg_rom_banks[1] = b;
        }
        proof {
            let s = old(self).spec_update_bank(bank);
            assert(self.prg_rom_banks@ =~= s.0.prg_rom_banks@);
            assert(self.chr_rom_banks@ =~= s.0.chr_rom_banks@);
            assert(self.prg_rom_banks == s.0.prg_rom_banks);
            assert(self.chr_rom_banks == s.0.chr_rom_banks);
        }
        Ok(())
    }

    /// One clock of the scanline counter: an IRQ is due when the counter is
    /// 0 with IRQs enabled; a 0 counter or a requested reload takes the
    /// latch value, otherwise the counter counts down. The result says
    /// whether an IRQ is due.
    pub open spec fn spec_irq_clock(self) -> (Self, bool) {
        let fire = self.irq_enabled && self.irq_counter == 0;
        if self.irq_counter == 0 || self.irq_reload {
            (Mapper4 { irq_counter: self.irq_latch_value, irq_reload: false, ..self }, fire)
        } else {
            (Mapper4 { irq_counter: (self.irq_counter - 1) as u8, ..self }, fire)
        }
    }

    pub fn irq_clock(&mut self) -> (r: bool)
        ensures
            (*final(self), r) == old(self).spec_irq_clock(),
    {
        let fire = self.irq_enabled && self.irq_counter == 0;
        if self.irq_counter == 0 || self.irq_reload {
            self.irq_counter = self.irq_latch_value;
            self.irq_reload = false;
        } else {
            self.irq_counter = self.irq_counter - 1;
        }
        fire
    }

    /// The PRG ROM index of `addr` from $8000: three switchable 8KB windows,
    /// then the last bank fixed at $E000.
    pub open spec fn prg_index(&self, addr: u16) -> int {
        if addr < 0xE000 {
            self.prg_rom_banks[(addr - 0x8000) / 0x2000] * 0x2000 + (addr - 0x8000) % 0x2000
        } else {
            (self.spec_prg_rom_bank_size() - 1) * 0x2000 + (addr - 0xE000)
        }
    }

    /// Reads: PRG RAM at $6000-$7FFF while enabled, PRG ROM from $8000.
    /// Below $6000, from disabled RAM or past the end of PRG ROM nothing answers.
    pub open spec fn spec_read_cpu(&self, addr: u16) -> Result<u8, Fault> {
        if addr < 0x6000 {
            Err(Fault::BusRead(addr))
        } else if addr < 0x8000 {
            if self.prg_ram_enabled { Ok(self.prg_ram[addr - 0x6000]) } else { Err(Fault::BusRead(addr)) }
        } else if self.prg_index(addr) < self.prg_rom@.len() {
            Ok(self.prg_rom@[self.prg_index(addr)])
        } else {
            Err(Fault::BusRead(addr))
        }
    }

    pub fn read_cpu_mem(&self, addr: u16) -> (r: Result<u8, Fault>)
        requires
            self.wf(),
        ensures
            r == self.spec_read_cpu(addr),
    {
        if addr < 0x6000 {
            return Err(Fault::BusRead(addr));
        } else if addr < 0x8000 {
            if self.prg_ram_enabled {
                return Ok(self.prg_ram[addr as usize - 0x6000]);
            } else {
                return Err(Fault::BusRead(addr));
            }
        }
        let i: usize = if addr < 0xE000 {
            let bank = self.prg_rom_banks[(addr as usize - 0x8000) / Self::PRG_ROM_BANK_UNIT];
            bank * Self::PRG_ROM_BANK_UNIT + (addr as usize - 0x8000) % Self::PRG_ROM_BANK_UNIT
        } else {
            (self.prg_rom_bank_size() - 1) * Self::PRG_ROM_BANK_UNIT + (addr as usize - 0xE000)
        };
        if i < self.prg_rom.len() {
            Ok(self.prg_rom[i])
        } else {
            Err(Fault::BusRead(addr))
        }
    }

    /// Writes: PRG RAM while enabled; then by address range and parity the
    /// bank select / bank data, mirroring (ignored) / PRG RAM protect, IRQ
    /// latch / IRQ reload and IRQ disable / enable registers.
    pub open spec fn spec_write_cpu(self, addr: u16, data: u8) -> (Self, Result<(), Fault>) {
        let even = addr % 2 == 0;
        if addr < 0x6000 {
            (self, Err(Fault::BusWrite(addr)))
        } else if addr < 0x8000 {
            if self.prg_ram_enabled {
                (Mapper4 { prg_ram: vstd::array::spec_array_update(self.prg_ram, addr - 0x6000, data), ..self }, Ok(()))
            } else {
                (self, Err(Fault::BusWrite(addr)))
            }
        } else if addr < 0xA000 {
            if even { (Mapper4 { bank_select: data, ..self }, Ok(())) } else { self.spec_update_bank(data) }
        } else if addr < 0xC000 {
            if even {
                (self, Ok(()))
            } else {
                (Mapper4 { prg_ram_enabled: data >= 0x80, prg_ram_write_protected: (data / 64) % 2 == 0, ..self }, Ok(()))
            }
        } else if addr < 0xE000 {
            if even { (Mapper4 { irq_latch_value: data, ..self }, Ok(())) } else { (Mapper4 { irq_reload: true, ..self }, Ok(())) }
        } else {
            (Mapper4 { irq_enabled: !even, ..self }, Ok(()))
        }
    }

    pub fn write_cpu_mem(&mut self, addr: u16, data: u8) -> (r: Result<(), Fault>)
        requires
            old(self).wf(),
        ensures
            (*final(self), r) == old(self).spec_write_cpu(addr, data),
            final(self).wf(),
    {
        let even = addr % 2 == 0;
        if addr < 0x6000 {
            Err(Fault::BusWrite(addr))
        } else if addr < 0x8000 {
            if self.prg_ram_enabled {
                self.prg_ram[addr as usize - 0x6000] = data;
                Ok(())
            } else {
                Err(Fault::BusWrite(addr))
            }
        } else if addr < 0xA000 {
            if even {
                self.bank_select = data;
                Ok(())
            } else {
                self.update_bank(data)
            }
        } else if addr < 0xC000 {
            if !even {
                self.prg_ram_enabled = data >= 0x80;
                self.prg_ram_write_protected = (data / 64) % 2 == 0;
            }
            Ok(())
        } else if addr < 0xE000 {
            if even {
                self.irq_latch_value = data;
            } else {
                self.irq_reload = true;
            }
            Ok(())
        } else {
            self.irq_enabled = !even;
            Ok(())
        }
    }

    pub open spec fn chr_index(&self, addr: u16) -> int {
        self.chr_rom_banks[(addr / 0x400) as int] * 0x400 + addr % 0x400
    }

    pub open spec fn spec_read_ppu(&self, addr: u16) -> Result<u8, Fault> {
        if addr < 0x2000 { Ok(self.chr_rom[self.chr_index(addr)]) } else { Err(Fault::BusRead(addr)) }
    }

    pub fn read_ppu_mem(&self, addr: u16) -> (r: Result<u8, Fault>)
        requires
            self.wf(),
        ensures
            r == self.spec_read_ppu(addr),
    {
        if addr >= 0x2000 {
            return Err(Fault::BusRead(addr));
        }
        let bank = self.chr_rom_banks[addr as usize / Self::CHR_ROM_BANK_UNIT];
        Ok(self.chr_rom[bank * Self::CHR_ROM_BANK_UNIT + addr as usize % Self::CHR_ROM_BANK_UNIT])
    }

    pub open spec fn spec_write_ppu(self, addr: u16, data: u8) -> (Self, Result<(), Fault>) {
        if addr < 0x2000 {
            (Mapper4 { chr_rom: vstd::array::spec_array_update(self.chr_rom, self.chr_index(addr), data), ..self }, Ok(()))
        } else {
            (self, Err(Fault::BusWrite(addr)))
        }
    }

    pub fn write_ppu_mem(&mut self, addr: u16, data: u8) -> (r: Result<(), Fault>)
        requires
            old(self).wf(),
        ensures
            (*final(self), r) == old(self).spec_write_ppu(addr, data),
            final(self).wf(),
    {
        if addr >= 0x2000 {
            return Err(Fault::BusWrite(addr));
        }
        let bank = self.chr_rom_banks[addr as usize / Self::CHR_ROM_BANK_UNIT];
        self.chr_rom[bank * Self::CHR_ROM_BANK_UNIT + addr as usize % Self::CHR_ROM_BANK_UNIT] = data;
        Ok(())
    }
}

impl Mapper4 {
    /// The mapper and whether each clock asked for an IRQ, over `k` clocks
    /// of the scanline counter.
    pub open spec fn spec_irq_clocks(self, k: nat) -> (Self, Seq<bool>)
        decreases k,
    {
        if k == 0 {
            (self, Seq::empty())
        } else {
            let (m1, f) = self.spec_irq_clock();
            let (m2, fs) = m1.spec_irq_clocks((k - 1) as nat);
            (m2, seq![f] + fs)
        }
    }
}

/// The MMC3 scanline counter: with `n` on the counter and no reload
/// pending, the next `n` clocks count down without an IRQ, and the clock
/// after them asks for one when IRQs are enabled and reloads the counter
/// from the latch.
pub proof fn lemma_irq_countdown(m: Mapper4, n: nat)
    requires
        m.irq_counter == n,
        !m.irq_reload,
    ensures
        ({
            let (m2, fs) = m.spec_irq_clocks(n + 1);
            &&& fs == Seq::new(n, |i: int| false).push(m.irq_enabled)
            &&& m2 == (Mapper4 { irq_counter: m.irq_latch_value, ..m })
        }),
    decreases n,
{
    if n == 0 {
        let (m1, f) = m.spec_irq_clock();
        assert(m1.spec_irq_clocks(0) == (m1, Seq::<bool>::empty()));
        assert(m.spec_irq_clocks(1) == (m1, seq![f] + Seq::<bool>::empty()));
        assert(seq![f] + Seq::<bool>::empty() =~= Seq::new(0, |i: int| false).push(m.irq_enabled));
    } else {
        let m1 = Mapper4 { irq_counter: (n - 1) as u8, ..m };
        assert(m.spec_irq_clock() == (m1, false));
        lemma_irq_countdown(m1, (n - 1) as nat);
        let (m2, fs) = m1.spec_irq_clocks(n);
        assert(m.spec_irq_clocks(n + 1) == (m2, seq![false] + fs));
        assert(seq![false] + Seq::new((n - 1) as nat, |i: int| false).push(m.irq_enabled) =~= Seq::new(n, |i: int| false).push(m.irq_enabled));
    }
}

} // verus!
