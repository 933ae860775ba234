# brightnes

The emulation core of BRIGHTNES, a bare-metal NES console, and the pieces of
its kernel that decide rather than touch hardware, written in Verus with their
behaviour stated as contracts and proved.

## Layout

- `src/nes/` — the console: the 6502 CPU (`cpu/`: instruction table and
  decoding, execution, interrupts and stalls, the CPU bus with RAM, PPU and APU
  registers, controllers and cartridge), the PPU (`ppu/`: registers, VRAM and
  palettes, OAM and DMA, the per-cycle renderer), the APU (`apu/`: pulse,
  triangle, noise and DMC channels and the frame sequencer), the cartridge
  mappers 0-4 and the game pads.
- `src/frame_buffer.rs`, `src/font.rs`, `src/text.rs` — drawing: chunked frame
  buffers with dirty lines, PSF fonts, numbers as text.
- `src/logger.rs`, `src/proc.rs`, `src/proc/` — the log screen, the screen
  switcher, the cartridge menu, the memory monitor and the machine state
  screen.
- `src/keyboard.rs` — what each key does.
- `src/mem.rs` — the kernel heap: size classes of freed blocks, the bump
  allocator and its counters.
- `src/fs.rs`, `src/bytes.rs`, `src/serial.rs` — save files: names, the layout
  of a save state, little-endian integers, the requests sent to the host.
- `src/elf.rs` — reading the kernel image: header, load plan, relocations.
- `src/drivers.rs` — the disk's sector arithmetic, the PCI capabilities test
  and the sound buffer queue.
- The CPU's instruction history and the sound buffers are `heapless` vectors,
  reached through small trusted wrappers beside the code that uses them
  (`src/nes/cpu/run.rs`, `src/drivers.rs`).
- `tests/` — tests of the library on concrete values.
- `app/` — a host program that runs a cartridge for a number of frames.

The laws that relate several operations (a pushed byte pops back, a call
returns after the caller, a freed block is reused, a saved state reads back,
and others) are public proof functions beside the operations they speak of.
