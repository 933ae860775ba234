//! Cartridges: the iNES header and the mappers that bank PRG and CHR memory.

use vstd::prelude::*;

use crate::nes::cartridge::mapper0::Mapper0;
use crate::nes::cartridge::mapper1::Mapper1;
use crate::nes::cartridge::mapper2::Mapper2;
use crate::nes::cartridge::mapper3::Mapper3;
use crate::nes::cartridge::mapper4::Mapper4;
use crate::nes::cpu::{Fault, InterruptType, CPU};
use crate::nes::Mirroring;

pub mod mapper0;
pub mod mapper1;
pub mod mapper2;
pub mod mapper3;
pub mod mapper4;

verus! {

/// The 16-byte header of an iNES file.
#[derive(Clone, Copy, Debug)]
pub struct NESHeader {
    pub magic: [u8; 4],
    pub prg_rom_size: u8,
    pub chr_size: u8,
    pub flag6: u8,
    pub flag7: u8,
    pub flag8: u8,
    pub flag9: u8,
    pub flag10: u8,
}

/// Why an iNES file cannot be loaded.
#[derive(Clone, Copy, PartialEq, Eq, Structural, Debug)]
pub enum CartridgeError {
    /// The file does not start with `NES\x1A`.
    InvalidMagic,
    /// The file is shorter than its header says.
    Truncated,
    /// The PRG ROM or CHR does not fit the mapper, or the mapper gets no PRG ROM.
    InvalidSize,
    /// No mapper of this number is emulated.
    UnsupportedMapper(u8),
}

impl NESHeader {
    /// The mapper number: the high nibbles of flags 6 (low) and 7 (high).
    pub open spec fn spec_mapper(&self) -> u8 {
        (self.flag6 / 16 + self.flag7 / 16 * 16) as u8
    }

    pub fn mapper(&self) -> (r: u8)
        ensures
            r == self.spec_mapper(),
    {
        self.flag6 / 16 + self.flag7 / 16 * 16
    }

    /// Bit 0 of flag 6: vertical mirroring when set, horizontal otherwise.
    pub open spec fn spec_mirroring(&self) -> Mirroring {
        Mirroring::spec_from_flag(self.flag6 % 2)
    }

    pub fn mirroring(&self) -> (r: Mirroring)
        ensures
            r == self.spec_mirroring(),
    {
        Mirroring::from_flag(self.flag6 % 2)
    }

    /// The header that the first 16 bytes of a file hold.
    pub open spec fn spec_parse(b: Seq<u8>) -> NESHeader {
        NESHeader {
            magic: [b[0], b[1], b[2], b[3]],
            prg_rom_size: b[4],
            chr_size: b[5],
            flag6: b[6],
            flag7: b[7],
            flag8: b[8],
            flag9: b[9],
            flag10: b[10],
        }
    }

    /// Reads the header of an iNES file: it needs 16 bytes and the magic
    /// `NES\x1A`.
    pub fn new(bytes: &[u8]) -> (r: Result<NESHeader, CartridgeError>)
        ensures
            bytes@.len() < 16 ==> r == Err::<NESHeader, CartridgeError>(CartridgeError::Truncated),
            bytes@.len() >= 16 ==> r == (if bytes@.subrange(0, 4) == NES_MAGIC@ {
                Ok(Self::spec_parse(bytes@))
            } else {
                Err(CartridgeError::InvalidMagic)
            }),
    {
        if bytes.len() < 16 {
            return Err(CartridgeError::Truncated);
        }
        if !(bytes[0] == 0x4E && bytes[1] == 0x45 && bytes[2] == 0x53 && bytes[3] == 0x1A) {
            assert(bytes@.subrange(0, 4) != NES_MAGIC@) by {
                if bytes@.subrange(0, 4) == NES_MAGIC@ {
                    assert(bytes@[0] == bytes@.subrange(0, 4)[0]);
                    assert(bytes@[1] == bytes@.subrange(0, 4)[1]);
                    assert(bytes@[2] == bytes@.subrange(0, 4)[2]);
                    assert(bytes@[3] == bytes@.subrange(0, 4)[3]);
                }
            }
            return Err(CartridgeError::InvalidMagic);
        }
        assert(bytes@.subrange(0, 4) =~= NES_MAGIC@);
        Ok(NESHeader {
            magic: [bytes[0], bytes[1], bytes[2], bytes[3]],
            prg_rom_size: bytes[4],
            chr_size: bytes[5],
            flag6: bytes[6],
            flag7: bytes[7],
            flag8: bytes[8],
            flag9: bytes[9],
            flag10: bytes[10],
        })
    }
}

/// The magic number that starts an iNES file.
pub const NES_MAGIC: [u8; 4] = [0x4E, 0x45, 0x53, 0x1A];

pub const PRG_ROM_UNIT: usize = 0x4000;
pub const CHR_UNIT: usize = 0x2000;

/// The mapper of a cartridge with its memories.
pub enum CartridgeKind {
    Mapper0(Box<Mapper0>),
    Mapper1(Box<Mapper1>),
    Mapper2(Box<Mapper2>),
    Mapper3(Box<Mapper3>),
    Mapper4(Box<Mapper4>),
}

pub struct Cartridge {
    pub header: NESHeader,
    pub kind: CartridgeKind,
}

impl Cartridge {
    pub open spec fn wf(&self) -> bool {
        match self.kind {
            CartridgeKind::Mapper0(m) => m.wf(),
            CartridgeKind::Mapper1(m) => m.wf(),
            CartridgeKind::Mapper2(m) => m.wf(),
            CartridgeKind::Mapper3(m) => m.wf(),
            CartridgeKind::Mapper4(m) => m.wf(),
        }
    }

    /// The mirroring of the name tables: MMC1 sets it by software, the other
    /// mappers take it from the header.
    pub open spec fn spec_mirroring(&self) -> Mirroring {
        match self.kind {
            CartridgeKind::Mapper1(m) => m.mirroring,
            _ => self.header.spec_mirroring(),
        }
    }

    pub fn mirroring(&self) -> (r: Mirroring)
        ensures
            r == self.spec_mirroring(),
    {
        match &self.kind {
            CartridgeKind::Mapper1(m) => m.mirroring(),
            _ => self.header.mirroring(),
        }
    }

    pub open spec fn spec_read_cpu(&self, addr: u16) -> Result<u8, Fault> {
        match self.kind {
            CartridgeKind::Mapper0(m) => m.spec_read_cpu(addr),
            CartridgeKind::Mapper1(m) => m.spec_read_cpu(addr),
            CartridgeKind::Mapper2(m) => m.spec_read_cpu(addr),
            CartridgeKind::Mapper3(m) => m.spec_read_cpu(addr),
            CartridgeKind::Mapper4(m) => m.spec_read_cpu(addr),
        }
    }

    pub fn read_cpu_mem(&self, addr: u16) -> (r: Result<u8, Fault>)
        requires
            self.wf(),
        ensures
            r == self.spec_read_cpu(addr),
    {
        match &self.kind {
            CartridgeKind::Mapper0(m) => m.read_cpu_mem(addr),
            CartridgeKind::Mapper1(m) => m.read_cpu_mem(addr),
            CartridgeKind::Mapper2(m) => m.read_cpu_mem(addr),
            CartridgeKind::Mapper3(m) => m.read_cpu_mem(addr),
            CartridgeKind::Mapper4(m) => m.read_cpu_mem(addr),
        }
    }

    pub open spec fn spec_write_cpu(self, addr: u16, data: u8) -> (Self, Result<(), Fault>) {
        match self.kind {
            CartridgeKind::Mapper0(m) => (self, Err(Fault::BusWrite(addr))),
            CartridgeKind::Mapper1(m) => {
                let (m2, r) = m.spec_write_cpu(addr, data);
                (Cartridge { kind: CartridgeKind::Mapper1(Box::new(m2)), ..self }, r)
            },
            CartridgeKind::Mapper2(m) => {
                let (m2, r) = m.spec_write_cpu(addr, data);
                (Cartridge { kind: CartridgeKind::Mapper2(Box::new(m2)), ..self }, r)
            },
            CartridgeKind::Mapper3(m) => {
                let (m2, r) = m.spec_write_cpu(addr, data);
                (Cartridge { kind: CartridgeKind::Mapper3(Box::new(m2)), ..self }, r)
            },
            CartridgeKind::Mapper4(m) => {
                let (m2, r) = m.spec_write_cpu(addr, data);
                (Cartridge { kind: CartridgeKind::Mapper4(Box::new(m2)), ..self }, r)
            },
        }
    }

    pub fn write_cpu_mem(&mut self, addr: u16, data: u8) -> (r: Result<(), Fault>)
        requires
            old(self).wf(),
        ensures
            (*final(self), r) == old(self).spec_write_cpu(addr, data),
            final(self).wf(),
    {
        match &mut self.kind {
            CartridgeKind::Mapper0(m) => m.write_cpu_mem(addr, data),
            CartridgeKind::Mapper1(m) => m.write_cpu_mem(addr, data),
            CartridgeKind::Mapper2(m) => m.write_cpu_mem(addr, data),
            CartridgeKind::Mapper3(m) => m.write_cpu_mem(addr, data),
            CartridgeKind::Mapper4(m) => m.write_cpu_mem(addr, data),
        }
    }

    pub open spec fn spec_read_ppu(&self, addr: u16) -> Result<u8, Fault> {
        match self.kind {
            CartridgeKind::Mapper0(m) => m.spec_read_ppu(addr),
            CartridgeKind::Mapper1(m) => m.spec_read_ppu(addr),
            CartridgeKind::Mapper2(m) => m.spec_read_ppu(addr),
            CartridgeKind::Mapper3(m) => m.spec_read_ppu(addr),
            CartridgeKind::Mapper4(m) => m.spec_read_ppu(addr),
        }
    }

    pub fn read_ppu_mem(&self, addr: u16) -> (r: Result<u8, Fault>)
        requires
            self.wf(),
        ensures
            r == self.spec_read_ppu(addr),
    {
        match &self.kind {
            CartridgeKind::Mapper0(m) => m.read_ppu_mem(addr),
            CartridgeKind::Mapper1(m) => m.read_ppu_mem(addr),
            CartridgeKind::Mapper2(m) => m.read_ppu_mem(addr),
            CartridgeKind::Mapper3(m) => m.read_ppu_mem(addr),
            CartridgeKind::Mapper4(m) => m.read_ppu_mem(addr),
        }
    }

    pub open spec fn spec_write_ppu(self, addr: u16, data: u8) -> (Self, Result<(), Fault>) {
        match self.kind {
            CartridgeKind::Mapper0(m) => {
                let (m2, r) = m.spec_write_ppu(addr, data);
                (Cartridge { kind: CartridgeKind::Mapper0(Box::new(m2)), ..self }, r)
            },
            CartridgeKind::Mapper1(m) => {
                let (m2, r) = m.spec_write_ppu(addr, data);
                (Cartridge { kind: CartridgeKind::Mapper1(Box::new(m2)), ..self }, r)
            },
            CartridgeKind::Mapper2(m) => {
                let (m2, r) = m.spec_write_ppu(addr, data);
                (Cartridge { kind: CartridgeKind::Mapper2(Box::new(m2)), ..self }, r)
            },
            CartridgeKind::Mapper3(m) => {
                let (m2, r) = m.spec_write_ppu(addr, data);
                (Cartridge { kind: CartridgeKind::Mapper3(Box::new(m2)), ..self }, r)
            },
            CartridgeKind::Mapper4(m) => {
                let (m2, r) = m.spec_write_ppu(addr, data);
                (Cartridge { kind: CartridgeKind::Mapper4(Box::new(m2)), ..self }, r)
            },
        }
    }

    pub fn write_ppu_mem(&mut self, addr: u16, data: u8) -> (r: Result<(), Fault>)
        requires
            old(self).wf(),
        ensures
            (*final(self), r) == old(self).spec_write_ppu(addr, data),
            final(self).wf(),
    {
        match &mut self.kind {
            CartridgeKind::Mapper0(m) => m.write_ppu_mem(addr, data),
            CartridgeKind::Mapper1(m) => m.write_ppu_mem(addr, data),
            CartridgeKind::Mapper2(m) => m.write_ppu_mem(addr, data),
            CartridgeKind::Mapper3(m) => m.write_ppu_mem(addr, data),
            CartridgeKind::Mapper4(m) => m.write_ppu_mem(addr, data),
        }
    }

    /// The CPU starts an instruction (MMC1 takes register writes again).
    pub open spec fn spec_begin_cpu_instruction(self) -> Self {
        match self.kind {
            CartridgeKind::Mapper1(m) => Cartridge {
                kind: CartridgeKind::Mapper1(Box::new(Mapper1 { wrote_register_this_instruction: false, ..*m })),
                ..self
            },
            _ => self,
        }
    }

    pub fn begin_cpu_instruction(&mut self)
        requires
            old(self).wf(),
        ensures
            *final(self) == old(self).spec_begin_cpu_instruction(),
            final(self).wf(),
    {
        match &mut self.kind {
            CartridgeKind::Mapper1(m) => m.begin_cpu_instruction(),
            _ => {},
        }
    }

    /// One scanline clock of the MMC3 IRQ counter; the cartridge raises an
    /// IRQ on the CPU when it is due. Other mappers have no counter.
    pub open spec fn spec_irq_clock(self, cpu: CPU) -> (Self, CPU) {
        match self.kind {
            CartridgeKind::Mapper4(m) => {
                let (m2, fire) = m.spec_irq_clock();
                (
                    Cartridge { kind: CartridgeKind::Mapper4(Box::new(m2)), ..self },
                    if fire { CPU { interrupt: cpu.interrupt.spec_with(InterruptType::IRQ, true), ..cpu } } else { cpu },
                )
            },
            _ => (self, cpu),
        }
    }

    pub fn irq_clock(&mut self, cpu: &mut CPU)
        requires
            old(self).wf(),
        ensures
            (*final(self), *final(cpu)) == old(self).spec_irq_clock(*old(cpu)),
            final(self).wf(),
    {
        match &mut self.kind {
            CartridgeKind::Mapper4(m) => {
                if m.irq_clock() {
                    cpu.interrupt(InterruptType::IRQ);
                }
            },
            _ => {},
        }
    }

    /// The battery-backed PRG RAM of the cartridge, if it has one (MMC1 and MMC3).
    pub open spec fn spec_working_ram(&self) -> Option<Seq<u8>> {
        match self.kind {
            CartridgeKind::Mapper1(m) => Some(m.prg_ram@),
            CartridgeKind::Mapper4(m) => Some(m.prg_ram@),
            _ => None,
        }
    }

    /// A copy of the working RAM, to be saved.
    pub fn working_ram(&self) -> (r: Option<Vec<u8>>)
        ensures
            match (r, self.spec_working_ram()) {
                (Some(v), Some(s)) => v@ == s,
                (None, None) => true,
                _ => false,
            },
    {
        match &self.kind {
            CartridgeKind::Mapper1(m) => Some(copy_array(&m.prg_ram)),
            CartridgeKind::Mapper4(m) => Some(copy_array(&m.prg_ram)),
            _ => None,
        }
    }
}

impl Cartridge {
    /// Fills the working RAM from the start of `data` (a saved RAM file);
    /// `Err` for a cartridge without working RAM or data shorter than it,
    /// which then stays as it was.
    pub fn load_working_ram(&mut self, data: &[u8]) -> (r: Result<(), ()>)
        requires
            old(self).wf(),
        ensures
            final(self).wf(),
            r is Ok <==> (old(self).spec_working_ram() is Some && data@.len() >= 0x2000),
            r is Ok ==> final(self).header == old(self).header && match (old(self).kind, final(self).kind) {
                (CartridgeKind::Mapper1(m), CartridgeKind::Mapper1(m2)) =>
                    *m2 == (Mapper1 { prg_ram: m2.prg_ram, ..*m }) && m2.prg_ram@ == data@.subrange(0, 0x2000),
                (CartridgeKind::Mapper4(m), CartridgeKind::Mapper4(m2)) =>
                    *m2 == (Mapper4 { prg_ram: m2.prg_ram, ..*m }) && m2.prg_ram@ == data@.subrange(0, 0x2000),
                _ => false,
            },
            r is Err ==> *final(self) == *old(self),
    {
        if data.len() < 0x2000 {
            return Err(());
        }
        match &mut self.kind {
            CartridgeKind::Mapper1(m) => {
                fill_array(&mut m.prg_ram, data);
                Ok(())
            },
            CartridgeKind::Mapper4(m) => {
                fill_array(&mut m.prg_ram, data);
                Ok(())
            },
            _ => Err(()),
        }
    }
}

fn fill_array(a: &mut [u8; 0x2000], data: &[u8])
    requires
        data@.len() >= 0x2000,
    ensures
        final(a)@ == data@.subrange(0, 0x2000),
{
    let mut i: usize = 0;
    while i < 0x2000
        invariant
            i <= 0x2000,
            data@.len() >= 0x2000,
            a@.len() == 0x2000,
            forall|j: int| 0 <= j < i ==> a@[j] == data@[j],
        decreases 0x2000 - i,
    {
        a[i] = data[i];
        i = i + 1;
    }
    assert(a@ =~= data@.subrange(0, 0x2000));
}

fn copy_array(a: &[u8; 0x2000]) -> (r: Vec<u8>)
    ensures
        r@ == a@,
{
    let mut v: Vec<u8> = Vec::new();
    let mut i: usize = 0;
    while i < 0x2000
        invariant
            i <= 0x2000,
            v@ == a@.subrange(0, i as int),
        decreases 0x2000 - i,
    {
        v.push(a[i]);
        i = i + 1;
        assert(v@ =~= a@.subrange(0, i as int));
    }
    assert(a@.subrange(0, 0x2000) =~= a@);
    v
}


/// `s` followed by zeros up to `n` bytes.
pub open spec fn padded(s: Seq<u8>, n: nat) -> Seq<u8> {
    s + Seq::new((n - s.len()) as nat, |i: int| 0u8)
}

/// Copies `len` bytes of `src` from `start`, padded with zeros to `total` bytes.
fn copy_padded(src: &[u8], start: usize, len: usize, total: usize) -> (r: Vec<u8>)
    requires
        start + len <= src@.len(),
        start + len <= usize::MAX,
        len <= total,
    ensures
        r@ == padded(src@.subrange(start as int, start + len), total as nat),
{
    let mut v: Vec<u8> = Vec::new();
    let mut i: usize = 0;
    while i < total
        invariant
            i <= total,
            start + len <= src@.len(),
            start + len <= usize::MAX,
            len <= total,
            v@ == padded(src@.subrange(start as int, start + len), total as nat).subrange(0, i as int),
        decreases total - i,
    {
        let b = if i < len { src[start + i] } else { 0u8 };
        v.push(b);
        i = i + 1;
        assert(v@ =~= padded(src@.subrange(start as int, start + len), total as nat).subrange(0, i as int));
    }
    assert(padded(src@.subrange(start as int, start + len), total as nat).subrange(0, total as int)
        =~= padded(src@.subrange(start as int, start + len), total as nat));
    v
}

/// Copies `len` bytes of `src` from `start` to the front of `dst`.
fn copy_into<const N: usize>(dst: &mut [u8; N], src: &[u8], start: usize, len: usize)
    requires
        start + len <= src@.len(),
        start + len <= usize::MAX,
        len <= N,
    ensures
        final(dst)@ == src@.subrange(start as int, start + len) + old(dst)@.subrange(len as int, N as int),
{
    let mut i: usize = 0;
    while i < len
        invariant
            i <= len,
            len <= N,
            start + len <= src@.len(),
            start + len <= usize::MAX,
            dst@.len() == N,
            dst@ == src@.subrange(start as int, start + i) + old(dst)@.subrange(i as int, N as int),
        decreases len - i,
    {
        dst[i] = src[start + i];
        i = i + 1;
        assert(dst@ =~= src@.subrange(start as int, start + i) + old(dst)@.subrange(i as int, N as int));
    }
}

/// The PRG ROM and CHR capacities of a mapper; `None` for mappers that are
/// not emulated.
pub open spec fn capacities(mapper: u8) -> Option<(int, int)> {
    if mapper == 0 {
        Some((0x8000, 0x2000))
    } else if mapper == 1 {
        Some((0x80000, 0x20000))
    } else if mapper == 2 {
        Some((0x40000, 0x2000))
    } else if mapper == 3 {
        Some((0x8000, 0x8000))
    } else if mapper == 4 {
        Some((0x400000, 0x400000))
    } else {
        None
    }
}

/// Why an iNES file cannot be loaded, checked in this order: too short for
/// a header, wrong magic, unknown mapper, PRG ROM empty or larger than the
/// mapper holds, CHR larger than the mapper holds, file shorter than the
/// header says (MMC3 ignores the CHR of the file).
pub open spec fn spec_load_error(b: Seq<u8>) -> Option<CartridgeError> {
    if b.len() < 16 {
        Some(CartridgeError::Truncated)
    } else if b.subrange(0, 4) != NES_MAGIC@ {
        Some(CartridgeError::InvalidMagic)
    } else {
        let h = NESHeader::spec_parse(b);
        let prg = h.prg_rom_size * 0x4000;
        let chr = h.chr_size * 0x2000;
        match capacities(h.spec_mapper()) {
            None => Some(CartridgeError::UnsupportedMapper(h.spec_mapper())),
            Some((np, nc)) => if prg == 0 || prg > np || chr > nc {
                Some(CartridgeError::InvalidSize)
            } else if 16 + prg + (if h.spec_mapper() == 4 { 0 } else { chr }) > b.len() {
                Some(CartridgeError::Truncated)
            } else {
                None
            },
        }
    }
}

impl Cartridge {
    /// What a cartridge loaded from the iNES file `b` holds: the header, the
    /// mapper it names with its PRG ROM and CHR taken from the file after the
    /// header (padded with zeros to the mapper's capacity), and the mapper
    /// registers at power-on. MMC3 gets zeroed CHR RAM.
    pub open spec fn spec_loaded(&self, b: Seq<u8>) -> bool {
        let h = NESHeader::spec_parse(b);
        let prg = h.prg_rom_size * 0x4000;
        let chr = h.chr_size * 0x2000;
        let prg_bytes = b.subrange(16, 16 + prg);
        let chr_bytes = b.subrange(16 + prg, 16 + prg + chr);
        &&& self.header == h
        &&& self.wf()
        &&& match self.kind {
            CartridgeKind::Mapper0(m) => h.spec_mapper() == 0 && m.prg_rom_size == prg
                && m.prg_rom@ == padded(prg_bytes, 0x8000) && m.chr@ == padded(chr_bytes, 0x2000),
            CartridgeKind::Mapper1(m) => h.spec_mapper() == 1 && m.prg_rom_size == prg
                && m.prg_rom@ == padded(prg_bytes, 0x80000) && m.chr@ == padded(chr_bytes, 0x20000)
                && m.prg_rom_banks@ == seq![0usize, (prg / 0x4000 - 1) as usize] && m.chr_banks@ == seq![0usize, 1usize]
                && m.shift_register == 0x10 && m.prg_rom_bank_mode == mapper1::PrgRomBankMode::FixLast
                && m.chr_bank_mode == mapper1::ChrRomBankMode::SwitchTwo && !m.prg_ram_disabled
                && !m.wrote_register_this_instruction && m.mirroring == h.spec_mirroring()
                && m.prg_ram@ == Seq::new(0x2000, |i: int| 0u8),
            CartridgeKind::Mapper2(m) => h.spec_mapper() == 2 && m.bank == 0
                && m.prg_rom@ == padded(prg_bytes, 0x40000) && m.chr@ == padded(chr_bytes, 0x2000),
            CartridgeKind::Mapper3(m) => h.spec_mapper() == 3 && m.bank == 0 && m.prg_rom_size == prg
                && m.chr_size == chr && m.prg_rom@ == padded(prg_bytes, 0x8000) && m.chr@ == padded(chr_bytes, 0x8000),
            CartridgeKind::Mapper4(m) => h.spec_mapper() == 4 && m.prg_rom@ == prg_bytes
                && m.prg_rom_size == prg && m.prg_rom_banks@ == seq![0usize, 1usize, (prg / 0x2000 - 2) as usize]
                && m.chr_rom@ == Seq::new(0x40000, |i: int| 0u8) && m.prg_ram@ == Seq::new(0x2000, |i: int| 0u8)
                && (forall|i: int| 0 <= i < 8 ==> m.chr_rom_banks[i] == 0)
                && m.two_banks_first && m.bank_select == 0 && m.prg_ram_enabled && m.prg_ram_write_protected
                && m.irq_counter == 0 && m.irq_latch_value == 0 && !m.irq_reload && !m.irq_enabled,
        }
    }

    /// Loads a cartridge from the bytes of an iNES file.
    pub fn load(bytes: &[u8]) -> (r: Result<Cartridge, CartridgeError>)
        ensures
            match spec_load_error(bytes@) {
                Some(e) => r == Err::<Cartridge, CartridgeError>(e),
                None => r is Ok && r->Ok_0.spec_loaded(bytes@),
            },
    {
        let header = NESHeader::new(bytes)?;
        let prg = header.prg_rom_size as usize * PRG_ROM_UNIT;
        let chr = header.chr_size as usize * CHR_UNIT;
        let mapper = header.mapper();
        let (np, nc): (usize, usize) = if mapper == 0 {
            (0x8000, 0x2000)
        } else if mapper == 1 {
            (0x80000, 0x20000)
        } else if mapper == 2 {
            (0x40000, 0x2000)
        } else if mapper == 3 {
            (0x8000, 0x8000)
        } else if mapper == 4 {
            (0x400000, 0x400000)
        } else {
            return Err(CartridgeError::UnsupportedMapper(mapper));
        };
        if prg == 0 || prg > np || chr > nc {
            return Err(CartridgeError::InvalidSize);
        }
        let file_chr: usize = if mapper == 4 { 0 } else { chr };
        if 16 + prg + file_chr > bytes.len() {
            return Err(CartridgeError::Truncated);
        }
        let kind = if mapper == 0 {
            let prg_rom = copy_padded(bytes, 16, prg, 0x8000);
            let mut chr_mem = [0u8; 0x2000];
            copy_into(&mut chr_mem, bytes, 16 + prg, chr);
            assert(chr_mem@ =~= padded(bytes@.subrange(16 + prg, 16 + prg + chr), 0x2000));
            CartridgeKind::Mapper0(Box::new(Mapper0 { prg_rom_size: prg, prg_rom, chr: chr_mem }))
        } else if mapper == 1 {
            let prg_rom = copy_padded(bytes, 16, prg, 0x80000);
            let mut chr_mem = [0u8; 0x20000];
            copy_into(&mut chr_mem, bytes, 16 + prg, chr);
            assert(chr_mem@ =~= padded(bytes@.subrange(16 + prg, 16 + prg + chr), 0x20000));
            let m = Mapper1::new(prg_rom, prg, chr_mem, header.mirroring());
            assert(m.prg_ram@ =~= Seq::new(0x2000, |i: int| 0u8));
            CartridgeKind::Mapper1(Box::new(m))
        } else if mapper == 2 {
            let prg_rom = copy_padded(bytes, 16, prg, 0x40000);
            let mut chr_mem = [0u8; 0x2000];
            copy_into(&mut chr_mem, bytes, 16 + prg, chr);
            assert(chr_mem@ =~= padded(bytes@.subrange(16 + prg, 16 + prg + chr), 0x2000));
            CartridgeKind::Mapper2(Box::new(Mapper2 { prg_rom, chr: chr_mem, bank: 0 }))
        } else if mapper == 3 {
            let prg_rom = copy_padded(bytes, 16, prg, 0x8000);
            let mut chr_mem = [0u8; 0x8000];
            copy_into(&mut chr_mem, bytes, 16 + prg, chr);
            assert(chr_mem@ =~= padded(bytes@.subrange(16 + prg, 16 + prg + chr), 0x8000));
            CartridgeKind::Mapper3(Box::new(Mapper3 { prg_rom_size: prg, chr_size: chr, prg_rom, chr: chr_mem, bank: 0 }))
        } else {
            let prg_rom = copy_padded(bytes, 16, prg, prg);
            assert(prg_rom@ =~= bytes@.subrange(16, 16 + prg));
            let m = Mapper4::new(prg_rom);
            assert(m.prg_ram@ =~= Seq::new(0x2000, |i: int| 0u8));
            assert(m.chr_rom@ =~= Seq::new(0x40000, |i: int| 0u8));
            CartridgeKind::Mapper4(Box::new(m))
        };
        Ok(Cartridge { header, kind })
    }
}

impl Cartridge {
    /// The cartridge answers $6000-$7FFF from its own RAM: MMC1 with the
    /// RAM not disabled, MMC3 with it enabled.
    pub open spec fn spec_prg_ram_active(&self) -> bool {
        match self.kind {
            CartridgeKind::Mapper1(m) => !m.prg_ram_disabled,
            CartridgeKind::Mapper4(m) => m.prg_ram_enabled,
            _ => false,
        }
    }
}

/// The cartridge's RAM keeps what the CPU writes: while it is active, a
/// byte written at $6000-$7FFF is read back there, the other bytes keep
/// their value, and the RAM stays active.
pub proof fn lemma_prg_ram_write_read(c: Cartridge, addr: u16, other: u16, data: u8)
    requires
        c.spec_prg_ram_active(),
        0x6000 <= addr < 0x8000,
        0x6000 <= other < 0x8000,
    ensures
        ({
            let (c2, r) = c.spec_write_cpu(addr, data);
            &&& r == Ok::<(), Fault>(())
            &&& c2.spec_prg_ram_active()
            &&& c2.spec_read_cpu(other) == (if other == addr { Ok::<u8, Fault>(data) } else { c.spec_read_cpu(other) })
        }),
{
}

} // verus!
