//! BRIGHTNES: the emulation core of a bare-metal NES console, with the
//! helpers that its kernel uses to draw, log, manage memory and switch
//! screens.

pub mod bytes;
pub mod drivers;
pub mod elf;
pub mod font;
pub mod frame_buffer;
pub mod fs;
pub mod keyboard;
pub mod logger;
pub mod mem;
pub mod nes;
pub mod proc;
pub mod serial;
pub mod text;
