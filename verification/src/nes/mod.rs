//! The NES console: CPU, PPU, APU, cartridge mappers and game pads.

use vstd::prelude::*;

pub mod apu;
pub mod cartridge;
pub mod cpu;
pub mod pad;
pub mod ppu;

verus! {

/// How the PPU name tables are mirrored into the 4KB of name table space.
#[derive(Clone, Copy, PartialEq, Eq, Structural, Debug)]
pub enum Mirroring {
    Horizontal,
    Vertical,
    SingleScreenLower,
    SingleScreenUpper,
}

impl Mirroring {
    /// Horizontal for 0, vertical for any other value (the header bit).
    pub open spec fn spec_from_flag(value: u8) -> Mirroring {
        if value == 0 { Mirroring::Horizontal } else { Mirroring::Vertical }
    }

    pub fn from_flag(value: u8) -> (r: Mirroring)
        ensures
            r == Self::spec_from_flag(value),
    {
        if value == 0 { Mirroring::Horizontal } else { Mirroring::Vertical }
    }
}

impl From<u8> for Mirroring {
    fn from(value: u8) -> (r: Mirroring) {
        Mirroring::from_flag(value)
    }
}

impl vstd::std_specs::convert::FromSpecImpl<u8> for Mirroring {
    open spec fn obeys_from_spec() -> bool {
        true
    }

    open spec fn from_spec(value: u8) -> Mirroring {
        Mirroring::spec_from_flag(value)
    }
}

} // verus!
