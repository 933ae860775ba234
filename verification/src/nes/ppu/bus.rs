//! The PPU address space: CHR from the cartridge below $2000, then name
//! tables and palettes with their mirrors.

use vstd::prelude::*;

use crate::nes::cartridge::Cartridge;
use crate::nes::cpu::Fault;
use crate::nes::ppu::vram::VRAM;
use crate::nes::Mirroring;

verus! {

/// Where a PPU address lands.
#[derive(Clone, Copy, PartialEq, Eq, Structural, Debug)]
pub enum PpuTarget {
    /// CHR memory of the cartridge, at this address.
    Chr(u16),
    /// The PPU's VRAM, at this ($2000-$3FFF) address.
    Vram(u16),
    /// Nothing: addresses from $4000.
    Invalid,
}

/// Folds a name table address ($2000-$2FFF) onto the VRAM that backs it.
pub open spec fn spec_mirror_name_table(addr: u16, m: Mirroring) -> u16 {
    match m {
        Mirroring::Horizontal => if (addr / 0x400) % 2 == 1 { (addr - 0x400) as u16 } else { addr },
        Mirroring::Vertical => if (addr / 0x800) % 2 == 1 { (addr - 0x800) as u16 } else { addr },
        Mirroring::SingleScreenLower => (0x2000 + addr % 0x400) as u16,
        Mirroring::SingleScreenUpper => (0x2400 + addr % 0x400) as u16,
    }
}

/// The target of a PPU address: $3000-$3EFF mirrors $2000-$2EFF; the 32
/// palette bytes repeat up to $3FFF and the sprite palettes' entries 0
/// ($3F10, $3F14, $3F18, $3F1C) are those of the background palettes.
pub open spec fn spec_target(addr: u16, m: Mirroring) -> PpuTarget {
    if addr < 0x2000 {
        PpuTarget::Chr(addr)
    } else if addr < 0x3000 {
        PpuTarget::Vram(spec_mirror_name_table(addr, m))
    } else if addr < 0x3F00 {
        PpuTarget::Vram(spec_mirror_name_table((addr - 0x1000) as u16, m))
    } else if addr < 0x4000 {
        let p = 0x3F00 + (addr - 0x3F00) % 0x20;
        if p >= 0x3F10 && p % 4 == 0 { PpuTarget::Vram((p - 0x10) as u16) } else { PpuTarget::Vram(p as u16) }
    } else {
        PpuTarget::Invalid
    }
}

pub fn mirror_name_table(addr: u16, m: Mirroring) -> (r: u16)
    requires
        0x2000 <= addr < 0x3000,
    ensures
        r == spec_mirror_name_table(addr, m),
        0x2000 <= r < 0x3000,
{
    match m {
        Mirroring::Horizontal => if (addr / 0x400) % 2 == 1 { addr - 0x400 } else { addr },
        Mirroring::Vertical => if (addr / 0x800) % 2 == 1 { addr - 0x800 } else { addr },
        Mirroring::SingleScreenLower => 0x2000 + addr % 0x400,
        Mirroring::SingleScreenUpper => 0x2400 + addr % 0x400,
    }
}

pub fn target(addr: u16, m: Mirroring) -> (r: PpuTarget)
    ensures
        r == spec_target(addr, m),
        r matches PpuTarget::Vram(a) ==> 0x2000 <= a < 0x4000,
{
    if addr < 0x2000 {
        PpuTarget::Chr(addr)
    } else if addr < 0x3000 {
        PpuTarget::Vram(mirror_name_table(addr, m))
    } else if addr < 0x3F00 {
        PpuTarget::Vram(mirror_name_table(addr - 0x1000, m))
    } else if addr < 0x4000 {
        let p = 0x3F00 + (addr - 0x3F00) % 0x20;
        if p >= 0x3F10 && p % 4 == 0 { PpuTarget::Vram(p - 0x10) } else { PpuTarget::Vram(p) }
    } else {
        PpuTarget::Invalid
    }
}

pub struct PPUBus;

impl PPUBus {
    pub open spec fn spec_read(addr: u16, vram: VRAM, cartridge: Cartridge) -> Result<u8, Fault> {
        match spec_target(addr, cartridge.spec_mirroring()) {
            PpuTarget::Chr(a) => cartridge.spec_read_ppu(a),
            PpuTarget::Vram(a) => Ok(vram.mem[a - 0x2000]),
            PpuTarget::Invalid => Err(Fault::BusRead(addr)),
        }
    }

    pub fn read(addr: u16, vram: &VRAM, cartridge: &Cartridge) -> (r: Result<u8, Fault>)
        requires
            cartridge.wf(),
        ensures
            r == Self::spec_read(addr, *vram, *cartridge),
    {
        match target(addr, cartridge.mirroring()) {
            PpuTarget::Chr(a) => cartridge.read_ppu_mem(a),
            PpuTarget::Vram(a) => Ok(vram.read(a)),
            PpuTarget::Invalid => Err(Fault::BusRead(addr)),
        }
    }

    pub open spec fn spec_write(addr: u16, val: u8, vram: VRAM, cartridge: Cartridge) -> (VRAM, Cartridge, Result<(), Fault>) {
        match spec_target(addr, cartridge.spec_mirroring()) {
            PpuTarget::Chr(a) => {
                let (c2, r) = cartridge.spec_write_ppu(a, val);
                (vram, c2, r)
            },
            PpuTarget::Vram(a) => (vram.spec_write(a, val), cartridge, Ok(())),
            PpuTarget::Invalid => (vram, cartridge, Err(Fault::BusWrite(addr))),
        }
    }

    pub fn write(addr: u16, val: u8, vram: &mut VRAM, cartridge: &mut Cartridge) -> (r: Result<(), Fault>)
        requires
            old(cartridge).wf(),
        ensures
            (*final(vram), *final(cartridge), r) == Self::spec_write(addr, val, *old(vram), *old(cartridge)),
            final(cartridge).wf(),
    {
        match target(addr, cartridge.mirroring()) {
            PpuTarget::Chr(a) => cartridge.write_ppu_mem(a, val),
            PpuTarget::Vram(a) => {
                vram.write(a, val);
                Ok(())
            },
            PpuTarget::Invalid => Err(Fault::BusWrite(addr)),
        }
    }
}

/// A byte written at a PPU address from $2000 up lands in VRAM and is read
/// back at that address; the cartridge is left alone.
pub proof fn lemma_vram_write_read(addr: u16, val: u8, vram: VRAM, cartridge: Cartridge)
    requires
        0x2000 <= addr < 0x4000,
    ensures
        ({
            let (v2, c2, r) = PPUBus::spec_write(addr, val, vram, cartridge);
            &&& r == Ok::<(), Fault>(())
            &&& c2 == cartridge
            &&& PPUBus::spec_read(addr, v2, c2) == Ok::<u8, Fault>(val)
        }),
{
    match spec_target(addr, cartridge.spec_mirroring()) {
        PpuTarget::Vram(a) => {
            assert(0x2000 <= a < 0x4000);
        },
        _ => {},
    }
}

} // verus!
