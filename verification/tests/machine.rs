use brightnes::drivers::{queue_is_full, sector_span, BlockDeviceDriver, BlockGeometry, SectorSpan, SeekFrom, SoundAction, SoundQueue, MAX_REQ_SIZE, SOUND_DATA_SIZE};
use brightnes::elf::{compare_section_name, extract_elf_program, load_elf_header, resolve_global_offset_table, LoadSegment};
use brightnes::frame_buffer::{FrameBuffer, PixelColorMode};
use brightnes::fs::{cartridge_info, cartridge_stem, decode_state, encode_state, file_name, ram_file_name, state_file_name};
use brightnes::logger::{LogLevel, LogLocation, Logger};
use brightnes::mem::{MemoryAllocator, HEAP_SIZE, HEAP_START_ADDR};
use brightnes::nes::cartridge::Cartridge;
use brightnes::nes::cpu::bus::CPUBus;
use brightnes::nes::cpu::{CpuMemory, InterruptType, CPU};
use brightnes::nes::pad::{Pad, PadButton};
use brightnes::nes::Mirroring;
use brightnes::proc::ProcessMode;
use brightnes::nes::ppu::PPU;
use brightnes::proc::info::InfoProc;
use brightnes::proc::monitor::Monitor;
use brightnes::proc::system::{CartridgeInfo, System};
use brightnes::serial::SerialRequest;

fn nrom_image(program: &[u8]) -> Vec<u8> {
    let mut image = vec![0x4E, 0x45, 0x53, 0x1A, 1, 1, 0, 0, 0, 0, 0, 0, 0, 0, 0, 0];
    let mut prg = vec![0xEAu8; 0x4000];
    prg[..program.len()].copy_from_slice(program);
    prg[0x3FFC] = 0x00;
    prg[0x3FFD] = 0x80;
    image.extend_from_slice(&prg);
    image.extend(std::iter::repeat(0u8).take(0x2000));
    image
}

fn boot(program: &[u8]) -> (CPU, CPUBus) {
    let cartridge = Cartridge::load(&nrom_image(program)).expect("the image loads");
    let bus = CPUBus::new(cartridge);
    let mut cpu = CPU::new();
    cpu.interrupt(InterruptType::RST);
    (cpu, bus)
}

fn text(lines: &[Vec<u8>]) -> Vec<String> {
    lines.iter().map(|l| String::from_utf8(l.clone()).unwrap()).collect()
}

#[test]
fn push_then_pop_gives_the_byte_back() {
    let (mut cpu, mut bus) = boot(&[0xEA]);
    cpu.clock(&mut bus).unwrap();
    let sp = cpu.reg_sp;
    cpu.push_stack(0xA5, &mut bus).unwrap();
    assert_eq!(cpu.reg_sp, sp.wrapping_sub(1));
    assert_eq!(bus.ram.mem[0x100 + sp as usize], 0xA5);
    assert_eq!(cpu.pop_stack(&mut bus), Ok(0xA5));
    assert_eq!(cpu.reg_sp, sp);
}

#[test]
fn stack_wraps_around_the_page() {
    let (mut cpu, mut bus) = boot(&[0xEA]);
    cpu.reg_sp = 0x00;
    cpu.push_stack(0x11, &mut bus).unwrap();
    assert_eq!(cpu.reg_sp, 0xFF);
    assert_eq!(bus.ram.mem[0x100], 0x11);
    assert_eq!(cpu.pop_stack(&mut bus), Ok(0x11));
    assert_eq!(cpu.reg_sp, 0x00);
}

#[test]
fn ppu_data_reads_lag_one_behind() {
    let (_, mut bus) = boot(&[0xEA]);
    let mut cpu = CPU::new();
    // Write $3C at $2105 and $7E at $2106.
    bus.write(0x2006, 0x21, &mut cpu).unwrap();
    bus.write(0x2006, 0x05, &mut cpu).unwrap();
    bus.write(0x2007, 0x3C, &mut cpu).unwrap();
    bus.write(0x2007, 0x7E, &mut cpu).unwrap();
    assert_eq!(bus.ppu.vram.mem[0x105], 0x3C);
    // Point back at $2105: the first read answers the old buffer.
    bus.write(0x2006, 0x21, &mut cpu).unwrap();
    bus.write(0x2006, 0x05, &mut cpu).unwrap();
    assert_eq!(bus.read(0x2007, &mut cpu), Ok(0));
    assert_eq!(bus.read(0x2007, &mut cpu), Ok(0x3C));
    assert_eq!(bus.read(0x2007, &mut cpu), Ok(0x7E));
}

#[test]
fn name_tables_mirror_with_the_cartridge() {
    let (_, mut bus) = boot(&[0xEA]);
    let mut cpu = CPU::new();
    // The test image is horizontally mirrored: $2400 is $2000.
    bus.write(0x2006, 0x24, &mut cpu).unwrap();
    bus.write(0x2006, 0x00, &mut cpu).unwrap();
    bus.write(0x2007, 0x5A, &mut cpu).unwrap();
    assert_eq!(bus.ppu.vram.mem[0x000], 0x5A);
    // $3000 mirrors $2000.
    bus.write(0x2006, 0x30, &mut cpu).unwrap();
    bus.write(0x2006, 0x00, &mut cpu).unwrap();
    let _ = bus.read(0x2007, &mut cpu);
    assert_eq!(bus.read(0x2007, &mut cpu), Ok(0x5A));
}

#[test]
fn strobe_held_reports_button_a() {
    let mut pad = Pad::new(1);
    pad.press_button(PadButton::A);
    pad.write(true);
    for _ in 0..10 {
        assert!(pad.read());
    }
    pad.release_button(PadButton::A);
    assert!(!pad.read());
}

#[test]
fn allocator_bumps_then_reuses() {
    let mut heap = MemoryAllocator::new();
    let a = heap.allocate(100, 8).unwrap();
    assert_eq!(a, HEAP_START_ADDR);
    assert_eq!(heap.used, 128);
    let b = heap.allocate(64, 64).unwrap();
    assert_eq!(b, HEAP_START_ADDR + 128);
    assert_eq!(heap.stats.in_use, 192);
    heap.deallocate(a, 100);
    assert_eq!(heap.stats.in_use, 64);
    assert_eq!(heap.stats.cached, 128);
    // A request of the same class gets the freed block back.
    let c = heap.allocate(65, 16).unwrap();
    assert_eq!(c, a);
    assert_eq!(heap.stats.cached, 0);
    assert_eq!(heap.stats.reused_total, 128);
    assert_eq!(heap.used, 192);
    let s = heap.stats;
    assert_eq!(s.in_use + s.padding + s.cached + s.dead, heap.used);
}

#[test]
fn allocator_pads_for_alignment_and_keeps_misaligned_blocks() {
    let mut heap = MemoryAllocator::new();
    let _first = heap.allocate(64, 1).unwrap();
    let a = heap.allocate(64, 1).unwrap();
    assert_eq!(a, HEAP_START_ADDR + 64);
    let b = heap.allocate(1, 256).unwrap();
    assert_eq!(b, HEAP_START_ADDR + 256);
    assert_eq!(heap.stats.padding, 128);
    heap.deallocate(a, 64);
    // The kept block is not 128-aligned: it stays kept and the heap grows.
    let c = heap.allocate(64, 128).unwrap();
    assert_eq!(c, HEAP_START_ADDR + 384);
    assert_eq!(heap.stats.cached, 64);
    assert_eq!(heap.stats.padding, 128 + 64);
    let s = heap.stats;
    assert_eq!(s.in_use + s.padding + s.cached + s.dead, heap.used);
}

#[test]
fn allocator_counts_large_blocks_as_lost_and_refuses_too_much() {
    let mut heap = MemoryAllocator::new();
    let a = heap.allocate(0x18000, 8).unwrap();
    assert_eq!(heap.used, 0x20000);
    heap.deallocate(a, 0x18000);
    assert_eq!(heap.stats.dead, 0x20000);
    assert_eq!(heap.stats.cached, 0);
    assert_eq!(heap.allocate(HEAP_SIZE + 1, 1), None);
    assert_eq!(heap.allocate(HEAP_SIZE - 0x10000, 1), None);
    assert_eq!(heap.used, 0x20000);
}

#[test]
fn heap_low_is_reported_once() {
    let mut heap = MemoryAllocator::new();
    assert!(!heap.check_mem_error());
    heap.used = HEAP_SIZE - 0x800;
    assert!(heap.check_mem_error());
    assert!(!heap.check_mem_error());
}

fn put16(b: &mut [u8], off: usize, v: u16) {
    b[off..off + 2].copy_from_slice(&v.to_le_bytes());
}

fn put32(b: &mut [u8], off: usize, v: u32) {
    b[off..off + 4].copy_from_slice(&v.to_le_bytes());
}

fn put64(b: &mut [u8], off: usize, v: u64) {
    b[off..off + 8].copy_from_slice(&v.to_le_bytes());
}

/// A small ELF image: two program headers (a load segment at $1234 and one
/// at $5000, and a note between), and sections naming `.rela.dyn` with two
/// relocations and `.dynsym` with three symbols.
fn elf_image() -> Vec<u8> {
    let mut b = vec![0u8; 0x800];
    b[0..4].copy_from_slice(&[0x7F, b'E', b'L', b'F']);
    b[4] = 2;
    put16(&mut b, 16, 3);
    put16(&mut b, 18, 0x3E);
    put32(&mut b, 20, 1);
    put64(&mut b, 24, 0x1234);
    put64(&mut b, 32, 64);
    put64(&mut b, 40, 0x400);
    put16(&mut b, 52, 64);
    put16(&mut b, 54, 56);
    put16(&mut b, 56, 3);
    put16(&mut b, 58, 64);
    put16(&mut b, 60, 4);
    put16(&mut b, 62, 0);
    // Program headers at 64, 120, 176.
    put32(&mut b, 64, 1);
    put64(&mut b, 64 + 8, 0x100);
    put64(&mut b, 64 + 16, 0x1234);
    put64(&mut b, 64 + 40, 0x100);
    put32(&mut b, 120, 4);
    put64(&mut b, 120 + 16, 0x100);
    put32(&mut b, 176, 1);
    put64(&mut b, 176 + 8, 0x200);
    put64(&mut b, 176 + 16, 0x5000);
    put64(&mut b, 176 + 40, 0x200);
    // Section names at 0x300.
    let names = b"\0.rela.dyn\0.dynsym\0.text\0";
    b[0x300..0x300 + names.len()].copy_from_slice(names);
    // Section headers at 0x400: names, .rela.dyn, .dynsym, .text.
    put64(&mut b, 0x400 + 24, 0x300);
    put32(&mut b, 0x440, 1);
    put64(&mut b, 0x440 + 24, 0x600);
    put64(&mut b, 0x440 + 32, 48);
    put32(&mut b, 0x480, 11);
    put64(&mut b, 0x480 + 24, 0x700);
    put32(&mut b, 0x4C0, 19);
    // Relocations at 0x600.
    put64(&mut b, 0x600, 0x2000);
    put64(&mut b, 0x608, (1u64 << 32) | 8);
    put64(&mut b, 0x618, 0x2008);
    put64(&mut b, 0x620, (2u64 << 32) | 8);
    // Symbols at 0x700.
    put64(&mut b, 0x718 + 8, 0xAAAA);
    put64(&mut b, 0x730 + 8, 0xBBBB);
    b
}

#[test]
fn elf_header_is_parsed() {
    let image = elf_image();
    let h = load_elf_header(&image).unwrap();
    assert_eq!(h.e_entry, 0x1234);
    assert_eq!(h.e_phnum, 3);
    assert_eq!(h.e_shoff, 0x400);
    assert_eq!(h.e_ident[4], 2);
    assert!(load_elf_header(&image[..63]).is_none());
    let mut bad = image.clone();
    bad[1] = b'X';
    assert!(load_elf_header(&bad).is_none());
}

#[test]
fn elf_load_plan_covers_the_segments() {
    let image = elf_image();
    let h = load_elf_header(&image).unwrap();
    let plan = extract_elf_program(&image, &h).unwrap();
    assert_eq!(plan.start_addr, 0x1000);
    assert_eq!(plan.page_num, 5);
    assert_eq!(
        plan.segments,
        vec![
            LoadSegment { offset: 0x100, vaddr: 0x1234, size: 0x100 },
            LoadSegment { offset: 0x200, vaddr: 0x5000, size: 0x200 },
        ]
    );
    let mut short = h;
    short.e_phnum = 40;
    assert!(extract_elf_program(&image, &short).is_none());
}

#[test]
fn elf_relocations_resolve_through_symbols() {
    let image = elf_image();
    let h = load_elf_header(&image).unwrap();
    let writes = resolve_global_offset_table(&image, &h).unwrap();
    assert_eq!(writes, vec![(0x2000, 0xAAAA), (0x2008, 0xBBBB)]);
    assert!(compare_section_name(&image, 0x301, b".rela.dyn"));
    assert!(!compare_section_name(&image, 0x301, b".rela"));
    assert!(!compare_section_name(&image, 0x30B, b".rela.dyn"));
    assert!(!compare_section_name(&image, 0x7FE, b".text"));
}

#[test]
fn state_file_round_trips() {
    let bytes = encode_state(b"cpu", b"ppu!", b"", b"apu");
    assert_eq!(bytes.len(), 4 * 8 + 3 + 4 + 0 + 3);
    assert_eq!(&bytes[..8], &3u64.to_le_bytes());
    let seg = decode_state(&bytes).unwrap();
    assert_eq!(seg.cpu, b"cpu".to_vec());
    assert_eq!(seg.ppu, b"ppu!".to_vec());
    assert_eq!(seg.cartridge, Vec::<u8>::new());
    assert_eq!(seg.apu, Some(b"apu".to_vec()));
}

#[test]
fn older_state_files_have_no_apu_part() {
    let bytes = encode_state(b"c", b"p", b"k", b"a");
    let legacy = &bytes[..bytes.len() - 9];
    let seg = decode_state(legacy).unwrap();
    assert_eq!(seg.cartridge, b"k".to_vec());
    assert_eq!(seg.apu, None);
    // A file cut inside a segment is refused.
    assert!(decode_state(&bytes[..bytes.len() - 1]).is_err());
    assert!(decode_state(&bytes[..12]).is_err());
    assert!(decode_state(&[]).is_err());
}

#[test]
fn save_files_are_named_after_the_cartridge() {
    let mut sys = System::new();
    assert_eq!(state_file_name(&sys), None);
    sys.update_cartridges(vec![CartridgeInfo { short_name: b"ZELDA".to_vec(), long_name: b"Zelda".to_vec(), has_savedata: false, has_ram: true }]);
    sys.load_selected_cartridge().unwrap();
    assert_eq!(state_file_name(&sys), Some(b"ZELDA.BRS".to_vec()));
    assert_eq!(ram_file_name(&sys), Some(b"ZELDA.BRR".to_vec()));
}

#[test]
fn serial_request_codes() {
    assert_eq!(SerialRequest::SaveState.code(), 2);
    assert_eq!(SerialRequest::PlaySound.code(), 7);
    assert_eq!(SerialRequest::from_code(5), Some(SerialRequest::LoadRAM));
    assert_eq!(SerialRequest::from_code(6), None);
    assert_eq!(SerialRequest::from_code(0), None);
    for q in [SerialRequest::Active, SerialRequest::SaveState, SerialRequest::LoadState, SerialRequest::SaveRAM, SerialRequest::LoadRAM, SerialRequest::PlaySound] {
        assert_eq!(SerialRequest::from_code(q.code()), Some(q));
    }
}

#[test]
fn info_screen_texts() {
    let (mut cpu, mut bus) = boot(&[0xA9, 0x42, 0x8D, 0x00, 0x02]);
    cpu.clock(&mut bus).unwrap();
    cpu.clock(&mut bus).unwrap();
    cpu.clock(&mut bus).unwrap();
    let lines = text(&InfoProc::cpu_lines(&cpu));
    assert_eq!(lines[0], "REG A:  0x42");
    assert_eq!(lines[3], "REG PC: 0x8005");
    assert_eq!(lines[4], "REG SP: 0xFD");
    assert_eq!(lines[6], "  C: false, Z: false, I: true, D: false");
    assert_eq!(lines.len(), 9);
    let history = text(&cpu.history_summary());
    assert_eq!(history.len(), CPU::HISTORY_SIZE);
    assert_eq!(history[0], "    ------: ------");
    assert_eq!(history[14], "    0x8000: LDA #$42");
    assert_eq!(history[15], "--> 0x8002: STA $0200");
    let ppu = text(&InfoProc::ppu_lines(&PPU::new()));
    assert_eq!(ppu[0], "CTRL:   0b00000000");
    assert_eq!(ppu[8], "X, Y:   0x0000, 0x0000");
}

#[test]
fn pad_picture_shows_pressed_buttons() {
    let mut fb = FrameBuffer::new(0, 0, 130, 50, 1, PixelColorMode::Rgb);
    let mut pad = Pad::new(0);
    pad.press_button(PadButton::Start);
    InfoProc::render_pad(&mut fb, &pad);
    let pressed = InfoProc::color_pressed(PixelColorMode::Rgb);
    let released = InfoProc::color_released(PixelColorMode::Rgb);
    let base = InfoProc::color_pad_base(PixelColorMode::Rgb);
    // Start is at (70, 30), A at (110, 20).
    assert_eq!(fb.buffer[30 * 130 + 75], pressed);
    assert_eq!(fb.buffer[25 * 130 + 115], released);
    assert_eq!(fb.buffer[0], base);
}

#[test]
fn a_frame_raises_vblank_and_nmi() {
    let (_, mut bus) = boot(&[0xEA]);
    let mut cpu = CPU::new();
    bus.write(0x2000, 0x80, &mut cpu).unwrap();
    let mut fb = FrameBuffer::new(0, 0, 256, 240, 1, PixelColorMode::Rgb);
    bus.ppu.render_bg(341 * 240 + 1, &mut fb, &mut cpu, &mut bus.cartridge).unwrap();
    assert!(cpu.interrupt.nmi);
    assert_eq!(bus.ppu.reg_status.bits & 0x80, 0x80);
    assert_eq!(bus.read(0x2002, &mut cpu).map(|b| b & 0x80), Ok(0x80));
    assert!(!cpu.interrupt.nmi);
    assert_eq!(bus.ppu.reg_status.bits & 0x80, 0);
    bus.ppu.render_bg(341 * 22 - 1, &mut fb, &mut cpu, &mut bus.cartridge).unwrap();
    assert_eq!((bus.ppu.x, bus.ppu.y), (0, 0));
    assert_eq!(bus.ppu.frame_counter, 1);
}

#[test]
fn memory_bar_shares_the_width() {
    let mut fb = FrameBuffer::new(0, 0, 1044, 60, 1, PixelColorMode::Rgb);
    Monitor::render_bar(&mut fb, HEAP_SIZE / 2, HEAP_SIZE / 4, 0, 0);
    let in_use = Monitor::in_use_color(PixelColorMode::Rgb);
    let cached = Monitor::cached_color(PixelColorMode::Rgb);
    let unused = Monitor::unused_color(PixelColorMode::Rgb);
    // The bar is 1024 pixels wide from x = 10: 512 in use, 256 cached.
    assert_eq!(fb.buffer[20 * 1044 + 10], in_use);
    assert_eq!(fb.buffer[20 * 1044 + 521], in_use);
    assert_eq!(fb.buffer[20 * 1044 + 522], cached);
    assert_eq!(fb.buffer[20 * 1044 + 777], cached);
    assert_eq!(fb.buffer[20 * 1044 + 778], unused);
    assert_eq!(fb.buffer[20 * 1044 + 1033], unused);
    assert_eq!(fb.buffer[20 * 1044 + 1034], 0);
    assert_eq!(fb.buffer[5 * 1044 + 100], 0);
}

#[test]
fn mmc1_ram_keeps_what_is_written() {
    let mut image = nrom_image(&[0xEA]);
    image[6] = 0x10;
    let mut cartridge = Cartridge::load(&image).expect("an MMC1 image loads");
    assert_eq!(cartridge.write_cpu_mem(0x6005, 0x77), Ok(()));
    assert_eq!(cartridge.read_cpu_mem(0x6005), Ok(0x77));
    assert_eq!(cartridge.read_cpu_mem(0x6006), Ok(0));
    let ram = cartridge.working_ram().unwrap();
    assert_eq!(ram.len(), 0x2000);
    assert_eq!(ram[5], 0x77);
}

#[test]
fn flushing_copies_changed_lines_once() {
    let mut fb = FrameBuffer::new(0, 0, 8, 4, 2, PixelColorMode::Bgr);
    assert_eq!(fb.flush_lines(false), vec![0, 1, 2, 3]);
    assert_eq!(fb.flush_lines(false), Vec::<usize>::new());
    fb.draw_rect(1, 2, 3, 1, 0x123456);
    assert_eq!(fb.flush_lines(false), vec![2]);
    assert_eq!(fb.flush_lines(false), Vec::<usize>::new());
    assert_eq!(fb.flush_lines(true), vec![0, 1, 2, 3]);
}

#[test]
fn cpu_trace_line() {
    let (mut cpu, mut bus) = boot(&[0xA9, 0x42]);
    cpu.clock(&mut bus).unwrap();
    cpu.clock(&mut bus).unwrap();
    let inst = cpu.history[CPU::HISTORY_SIZE - 1].unwrap();
    let line = String::from_utf8(cpu.inst_log_line(&inst)).unwrap();
    assert!(line.starts_with("$8000: LDA #$42                "));
    assert_eq!(line.len(), 7 + 30 + 5 + 5 + 5 + 5 + 6 + 1);
    assert!(line[37..].starts_with(" A=42 X=00 Y=00 P="));
    assert!(line.ends_with(" SP=FD\n"));
}

#[test]
fn serial_log_lines() {
    let line = Logger::serial_line(LogLocation::CPU, LogLevel::Warn, b"hot");
    assert_eq!(line, b"[CPU] WARN: hot\n".to_vec());
    let line = Logger::serial_line(LogLocation::SYS, LogLevel::Log, b"");
    assert_eq!(line, b"[SYS]  LOG: \n".to_vec());
}

#[test]
fn nmi_handler_returns_with_rti() {
    let mut program = vec![0xEAu8; 0x20];
    program[0x10] = 0x40; // RTI at $8010
    let mut image = nrom_image(&program);
    image[16 + 0x3FFA] = 0x10;
    image[16 + 0x3FFB] = 0x80;
    let cartridge = Cartridge::load(&image).unwrap();
    let mut bus = CPUBus::new(cartridge);
    let mut cpu = CPU::new();
    cpu.interrupt(InterruptType::RST);
    cpu.clock(&mut bus).unwrap();
    cpu.clock(&mut bus).unwrap();
    assert_eq!(cpu.reg_pc, 0x8001);
    let p = cpu.reg_p;
    cpu.interrupt(InterruptType::NMI);
    assert_eq!(cpu.clock(&mut bus), Ok(CPU::INTERRUPT_CYCLES));
    assert_eq!(cpu.reg_pc, 0x8010);
    assert_eq!(cpu.reg_sp, 0xFA);
    cpu.clock(&mut bus).unwrap();
    assert_eq!(cpu.reg_pc, 0x8001);
    assert_eq!(cpu.reg_sp, 0xFD);
    assert_eq!(cpu.reg_p.bits(), p.bits() | 0x20);
}

#[test]
fn cartridge_directory_entries() {
    assert_eq!(cartridge_stem(b"MARIO.NES"), Some(b"MARIO".to_vec()));
    assert_eq!(cartridge_stem(b"MARIO.TXT"), None);
    assert_eq!(cartridge_stem(b"NES"), None);
    assert_eq!(cartridge_stem(b".NES"), Some(Vec::new()));
    assert_eq!(file_name(b"MARIO", b"TXT"), b"MARIO.TXT".to_vec());
    let info = cartridge_info(b"MARIO.NES", Some(b"Super Mario Bros.".to_vec()), true, false).unwrap();
    assert_eq!(info.short_name, b"MARIO".to_vec());
    assert_eq!(info.long_name, b"Super Mario Bros.".to_vec());
    assert!(info.has_savedata && !info.has_ram);
    let info = cartridge_info(b"ZELDA.NES", None, false, true).unwrap();
    assert_eq!(info.long_name, b"ZELDA".to_vec());
    assert!(cartridge_info(b"README.TXT", None, false, false).is_none());
}

#[test]
fn disk_geometry_and_sector_spans() {
    let g = BlockGeometry { capacity: 8, blk_size: 0 };
    assert_eq!(g.sector_size(), 512);
    assert_eq!(g.capacity(), 4096);
    let g = BlockGeometry { capacity: 8, blk_size: 4096 };
    assert_eq!(g.capacity(), 32768);
    assert_eq!(sector_span(1000, 100, 512), SectorSpan { start_sector: 1, buffer_size: 1024, start_pos: 488 });
    assert_eq!(sector_span(1024, 512, 512), SectorSpan { start_sector: 2, buffer_size: 512, start_pos: 0 });
    assert_eq!(sector_span(0, 0, 512), SectorSpan { start_sector: 0, buffer_size: 0, start_pos: 0 });
}

#[test]
fn disk_reads_and_writes_go_through_whole_sectors() {
    let mut disk = BlockDeviceDriver::new();
    assert_eq!(disk.seek(SeekFrom::Start(1000), 4096), 1000);
    let span = disk.prepare_read(100, 512);
    assert_eq!(disk.sector_buffer.len(), 1024);
    // The device fills the buffer with sectors 1 and 2.
    for (i, b) in disk.sector_buffer.iter_mut().enumerate() {
        *b = (i % 251) as u8;
    }
    let data = disk.finish_read(span, 100);
    assert_eq!(data.len(), 100);
    assert_eq!(data[0], (488 % 251) as u8);
    assert_eq!(disk.position, 1100);
    assert_eq!(disk.seek(SeekFrom::End(-10), 4096), 4086);
    assert_eq!(disk.seek(SeekFrom::Current(-86), 4096), 4000);
    let span = disk.prepare_write(4, 512);
    assert_eq!(span, SectorSpan { start_sector: 7, buffer_size: 512, start_pos: 416 });
    // The buffer is longer than the sectors: it grows by its excess.
    assert_eq!(disk.sector_buffer.len(), 1024 + 512);
    disk.merge_write(span, &[9, 8, 7, 6]);
    assert_eq!(&disk.sector_buffer[416..420], &[9, 8, 7, 6]);
    assert_eq!(disk.sector_buffer[415], (415 % 251) as u8);
}

#[test]
fn sound_buffers_fill_then_go_to_the_device() {
    let mut q = SoundQueue::new();
    assert_eq!(q.add_data(1, -1, 0), SoundAction::Buffered);
    assert_eq!(q.sound_data[0].as_slice(), &[1, -1]);
    let mut sent = None;
    for k in 1..(SOUND_DATA_SIZE / 2) {
        match q.add_data(k as i16, 0, 0) {
            SoundAction::Buffered => {}
            other => {
                sent = Some(other);
                break;
            }
        }
    }
    match sent {
        Some(SoundAction::Send(index, samples)) => {
            assert_eq!(index, 0);
            assert_eq!(samples.len(), SOUND_DATA_SIZE);
            assert_eq!(&samples[..2], &[1, -1]);
        }
        _ => panic!("the full buffer is sent"),
    }
    assert_eq!((q.last_used, q.last_sound_data), (1, 1));
    assert!(q.sound_data[0].is_empty());
    assert!(queue_is_full(MAX_REQ_SIZE as u16, 0));
    assert!(!queue_is_full(MAX_REQ_SIZE as u16, 1));
    q.last_used = 25;
    assert_eq!(q.add_data(5, 5, 4), SoundAction::Dropped);
    assert_eq!(q.add_data(5, 5, 6), SoundAction::Buffered);
}

#[test]
fn conversions_from_numbers_and_modes() {
    assert_eq!(Mirroring::from(0u8), Mirroring::Horizontal);
    assert_eq!(Mirroring::from(1u8), Mirroring::Vertical);
    assert_eq!(Mirroring::from(0x80u8), Mirroring::Vertical);
    assert_eq!(usize::from(ProcessMode::Game), 0);
    assert_eq!(usize::from(ProcessMode::Log), 2);
    assert_eq!(usize::from(ProcessMode::System), 3);
}

#[test]
fn mmc1_serial_port_loads_five_bits() {
    let mut image = nrom_image(&[0xEA]);
    image[6] = 0x10;
    let mut cartridge = Cartridge::load(&image).unwrap();
    // Control register = 0b00010: vertical mirroring.
    for bit in [0u8, 1, 0, 0, 0] {
        cartridge.begin_cpu_instruction();
        assert_eq!(cartridge.write_cpu_mem(0x8000, bit), Ok(()));
    }
    assert_eq!(cartridge.mirroring(), Mirroring::Vertical);
    // Two writes in one instruction: the second is ignored.
    for bit in [1u8, 1, 0, 0, 0] {
        cartridge.begin_cpu_instruction();
        assert_eq!(cartridge.write_cpu_mem(0x8000, bit), Ok(()));
        assert_eq!(cartridge.write_cpu_mem(0x8000, 0), Ok(()));
    }
    assert_eq!(cartridge.mirroring(), Mirroring::Horizontal);
}

#[test]
fn mmc3_scanline_counter_counts_down_to_an_irq() {
    let mut image = vec![0x4E, 0x45, 0x53, 0x1A, 2, 0, 0x40, 0, 0, 0, 0, 0, 0, 0, 0, 0];
    image.extend(std::iter::repeat(0xEAu8).take(0x8000));
    let mut cartridge = Cartridge::load(&image).expect("an MMC3 image loads");
    let mut cpu = CPU::new();
    assert_eq!(cartridge.write_cpu_mem(0xC000, 2), Ok(()));
    assert_eq!(cartridge.write_cpu_mem(0xC001, 0), Ok(()));
    cartridge.irq_clock(&mut cpu);
    assert!(!cpu.interrupt.irq);
    assert_eq!(cartridge.write_cpu_mem(0xE001, 0), Ok(()));
    cartridge.irq_clock(&mut cpu);
    cartridge.irq_clock(&mut cpu);
    assert!(!cpu.interrupt.irq);
    cartridge.irq_clock(&mut cpu);
    assert!(cpu.interrupt.irq);
}

#[test]
fn working_ram_saves_and_loads_back() {
    let mut image = nrom_image(&[0xEA]);
    image[6] = 0x10;
    let mut cartridge = Cartridge::load(&image).unwrap();
    assert_eq!(cartridge.write_cpu_mem(0x6010, 0xAB), Ok(()));
    let saved = cartridge.working_ram().unwrap();
    assert_eq!(cartridge.write_cpu_mem(0x6010, 0x00), Ok(()));
    assert_eq!(cartridge.load_working_ram(&saved[..100]), Err(()));
    assert_eq!(cartridge.read_cpu_mem(0x6010), Ok(0x00));
    assert_eq!(cartridge.load_working_ram(&saved), Ok(()));
    assert_eq!(cartridge.read_cpu_mem(0x6010), Ok(0xAB));
    let mut nrom = Cartridge::load(&nrom_image(&[0xEA])).unwrap();
    assert_eq!(nrom.load_working_ram(&saved), Err(()));
}
