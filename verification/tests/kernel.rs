use brightnes::font::{FontError, FontManager};
use brightnes::frame_buffer::{FrameBuffer, PixelColorMode, COLOR_BLACK};
use brightnes::keyboard::{BKeyboard, KeyAction, KeyCode, KeyEvent, KeyState};
use brightnes::logger::{hex8, LogLevel, LogLocation, Logger};
use brightnes::mem::{ChunkList, MemStatistics, ReleasedMem};
use brightnes::nes::pad::{Pad, PadButton};
use brightnes::proc::system::{CartridgeInfo, System};
use brightnes::proc::{ProcSwitch, ProcessMode, ProcessSwitcher, StackFrame};
use brightnes::text::{push_bin, push_dec, push_dec_padded, push_hex};

/// A PSF2 font of `n` glyphs (glyph i filled with byte i) whose Unicode
/// table maps byte `base + i` to glyph i, except glyph 0 which has no
/// character.
fn font_image_at(n: u32, base: u8) -> Vec<u8> {
    let mut f = vec![0x72, 0xb5, 0x4a, 0x86];
    for v in [0u32, 0x20, 1, n, 0x10, 0x10, 8] {
        f.extend_from_slice(&v.to_le_bytes());
    }
    for g in 0..n {
        f.extend(std::iter::repeat(g as u8).take(16));
    }
    f.push(0xFF);
    for g in 1..n {
        f.push(base + g as u8);
        f.push(0xFF);
    }
    f
}

fn font_image(n: u32) -> Vec<u8> {
    font_image_at(n, 0x40)
}

#[test]
fn font_index_maps_single_bytes() {
    let mut font = FontManager::new(font_image(4)).expect("a valid font");
    assert_eq!(font.init_glyph_index_table(), Ok(()));
    assert_eq!(font.glyph_index_table[0x41], 1);
    assert_eq!(font.glyph_index_table[0x43], 3);
    assert!(font.has_glyph(0x42));
    assert!(!font.has_glyph(0x44));
    assert_eq!(font.get_glyph_by_char(0x42), &[2u8; 16][..]);
}

#[test]
fn font_rejects_bad_headers_and_tables() {
    let mut image = font_image(2);
    image[0] = 0;
    assert!(FontManager::new(image).is_none());
    let mut image = font_image(3);
    image.truncate(image.len() - 3);
    let mut font = FontManager::new(image).unwrap();
    assert_eq!(font.init_glyph_index_table(), Err(FontError::Truncated));
    let mut image = font_image(2);
    let table = image.len() - 3;
    image.truncate(table);
    image.extend_from_slice(&[0xFF, 0x41]);
    image.extend(std::iter::repeat(0x42).take(20));
    let mut font = FontManager::new(image).unwrap();
    assert_eq!(font.init_glyph_index_table(), Err(FontError::CorruptedUnicodeTable));
}

#[test]
fn set_chunk_marks_only_changed_lines() {
    let mut fb = FrameBuffer::new(0, 0, 4, 3, 2, PixelColorMode::Rgb);
    let lines = fb.flush_lines(false);
    assert_eq!(lines, vec![0, 1, 2]);
    fb.set_chunk(1, 2, 0x123456);
    assert_eq!(&fb.buffer[2 * 8 + 2..2 * 8 + 4], &[0x123456, 0x123456]);
    assert_eq!(fb.buffer[2 * 8 + 1], COLOR_BLACK);
    fb.set_chunk(0, 0, COLOR_BLACK);
    assert_eq!(fb.flush_lines(false), vec![2]);
    assert_eq!(fb.flush_lines(true), vec![0, 1, 2]);
}

#[test]
fn make_color_orders_channels() {
    assert_eq!(FrameBuffer::make_color(0x11, 0x22, 0x33, PixelColorMode::Rgb), 0x332211);
    assert_eq!(FrameBuffer::make_color(0x11, 0x22, 0x33, PixelColorMode::Bgr), 0x112233);
}

#[test]
fn draw_rect_and_text() {
    let mut fb = FrameBuffer::new(0, 0, 40, 20, 1, PixelColorMode::Rgb);
    fb.draw_rect(1, 1, 2, 2, 7);
    assert_eq!(fb.buffer[40 + 1], 7);
    assert_eq!(fb.buffer[2 * 40 + 2], 7);
    assert_eq!(fb.buffer[3 * 40 + 1], 0);
    let mut font = FontManager::new(font_image(3)).unwrap();
    font.init_glyph_index_table().unwrap();
    fb.draw_text(0, 0, &[0x41, 0x42], 9, 1, &font);
    // Glyph 1 is 0x01 on every row: only its rightmost pixel is set.
    assert_eq!(fb.buffer[7], 9);
    assert_eq!(fb.buffer[6], 1);
    // Glyph 2 is 0x02: the pixel before its last.
    assert_eq!(fb.buffer[8 + 6], 9);
    assert_eq!(fb.max_text_length(), 5);
    assert_eq!(fb.max_text_lines(), 1);
}

#[test]
fn logger_splits_lines_and_follows_the_end() {
    let mut logger = Logger::new();
    logger.log_internal(LogLocation::SYS, LogLevel::Info, b"abcdefg\nhi", 3);
    let lines: Vec<Vec<u8>> = logger.buffer.iter().map(|e| e.message.clone()).collect();
    assert_eq!(lines, vec![b"abc".to_vec(), b"def".to_vec(), b"g".to_vec(), b"hi".to_vec()]);
    assert_eq!(logger.scroll, 4);
    logger.log_internal(LogLocation::CPU, LogLevel::Error, b"", 3);
    assert_eq!(logger.buffer.len(), 5);
    assert_eq!(logger.buffer[4].message, Vec::<u8>::new());
    assert_eq!(logger.scroll, 5);
    assert_eq!(logger.scroll_internal(-2, 2), Some(5));
    assert_eq!(logger.scroll, 3);
    logger.log_internal(LogLocation::CPU, LogLevel::Log, b"x", 3);
    assert_eq!(logger.scroll, 3);
    assert_eq!(logger.scroll_internal(-10, 2), Some(3));
    assert_eq!(logger.scroll, 2);
    assert_eq!(logger.reset_scroll(2), Some(2));
    assert_eq!(logger.scroll, 6);
}

#[test]
fn log_location_names() {
    assert_eq!(LogLocation::APU.to_str(), "APU");
    assert_eq!(LogLocation::SYS.to_bytes(), b"SYS".to_vec());
}

#[test]
fn number_formatting() {
    assert_eq!(hex8(0x1A2B), b"00001A2B".to_vec());
    let mut out = Vec::new();
    push_dec(&mut out, 12045);
    assert_eq!(out, b"12045".to_vec());
    let mut out = Vec::new();
    push_dec_padded(&mut out, 7, 2);
    assert_eq!(out, b"07".to_vec());
    let mut out = Vec::new();
    push_hex(&mut out, 0xBEEF, 6);
    assert_eq!(out, b"00BEEF".to_vec());
    let mut out = Vec::new();
    push_bin(&mut out, 5, 4);
    assert_eq!(out, b"0101".to_vec());
}

#[test]
fn process_modes_cycle() {
    let m = ProcessMode::Game;
    assert_eq!(m.shift(), ProcessMode::Info);
    assert_eq!(m.shift().shift(), ProcessMode::Log);
    assert_eq!(m.shift().shift().shift(), ProcessMode::Game);
    assert_eq!(ProcessMode::System.shift(), ProcessMode::Game);
    let frame = StackFrame { instruction_pointer: 0x1234, code_segment: 8, cpu_flags: 0x202, stack_pointer: 0x3000_0000, stack_segment: 16 };
    let mut s = ProcessSwitcher::new([0x100, 0x200, 0x300, 0x400]);
    assert_eq!(s.processes[0].stack_bottom, 0x5000_0000);
    assert_eq!(s.processes[1].stack_bottom, 0x680_0000);
    assert_eq!(s.processes[2].stack_bottom, 0x780_0000);
    assert!(s.processes.iter().all(|p| p.saved_state.is_none()));
    assert_eq!(s.switch_proc(ProcessMode::Game, frame, false), None);
    let fresh_info = StackFrame { instruction_pointer: 0x200, stack_pointer: 0x680_0000, ..frame };
    assert_eq!(s.shift_proc(frame), Some(ProcSwitch { from: 0, to: 1, reset: false, frame: fresh_info }));
    assert_eq!(s.processes[0].saved_state, Some(frame));
    assert_eq!(s.mode(), ProcessMode::Info);
    let back = s.switch_proc(ProcessMode::Game, fresh_info, false).unwrap();
    assert_eq!(back.frame, frame);
    assert_eq!(s.switch_proc(ProcessMode::Info, frame, false).unwrap().frame, fresh_info);
    let fresh_log = StackFrame { instruction_pointer: 0x300, stack_pointer: 0x780_0000, ..frame };
    assert_eq!(s.enter_safe_mode(frame), Some(ProcSwitch { from: 1, to: 2, reset: false, frame: fresh_log }));
    assert_eq!(s.switch_proc(ProcessMode::Game, frame, true), None);
    assert_eq!(s.mode(), ProcessMode::Log);
}

#[test]
fn restart_game_from_entry_point() {
    let frame = StackFrame { instruction_pointer: 0x1234, code_segment: 8, cpu_flags: 0x202, stack_pointer: 0x4fff_0000, stack_segment: 16 };
    let mut s = ProcessSwitcher::new([0x100, 0x200, 0x300, 0x400]);
    let start = StackFrame { instruction_pointer: 0x100, stack_pointer: 0x5000_0000, ..frame };
    assert_eq!(s.reset_main(frame), Some(ProcSwitch { from: 0, to: 0, reset: true, frame: start }));
    assert_eq!(s.processes[0].saved_state, None);
}

#[test]
fn keyboard_map() {
    let key = |code, state| KeyEvent { code, state, ctrl: false, shift: false };
    assert_eq!(BKeyboard::on_event(key(KeyCode::Tab, KeyState::Down), ProcessMode::Game), KeyAction::ShiftProcess);
    assert_eq!(BKeyboard::on_event(key(KeyCode::Tab, KeyState::Up), ProcessMode::Game), KeyAction::Nothing);
    assert_eq!(BKeyboard::on_event(key(KeyCode::L, KeyState::Up), ProcessMode::Game), KeyAction::Pad(PadButton::A, KeyState::Up));
    let save = KeyEvent { code: KeyCode::S, state: KeyState::Down, ctrl: true, shift: true };
    assert_eq!(BKeyboard::on_event(save, ProcessMode::Game), KeyAction::SaveRam);
    assert_eq!(BKeyboard::on_event(key(KeyCode::ArrowUp, KeyState::Down), ProcessMode::System), KeyAction::CursorBack);
    assert_eq!(BKeyboard::on_event(key(KeyCode::ArrowUp, KeyState::Down), ProcessMode::Log), KeyAction::Scroll(-1));
    assert_eq!(BKeyboard::on_event(key(KeyCode::Return, KeyState::Down), ProcessMode::Game), KeyAction::Nothing);
    assert_eq!(BKeyboard::on_event(key(KeyCode::Return, KeyState::Down), ProcessMode::System), KeyAction::StartGame);
    let mut pad = Pad::new(0);
    BKeyboard::on_pad_button(KeyState::Down, PadButton::Start, &mut pad);
    assert!(pad.pressed[3]);
    BKeyboard::on_pad_button(KeyState::Up, PadButton::Start, &mut pad);
    assert!(!pad.pressed[3]);
}

#[test]
fn released_memory_is_reused_last_in_first_out() {
    let mut mem = ReleasedMem::new();
    assert_eq!(mem.index_by_size(64), Some(0));
    assert_eq!(mem.index_by_size(0x10000), Some(10));
    assert_eq!(mem.index_by_size(0x20000), None);
    assert_eq!(mem.insert_mem(0x1000, 128), Ok(()));
    assert_eq!(mem.insert_mem(0x2000, 128), Ok(()));
    assert_eq!(mem.insert_mem(0x3000, 0x20000), Err(()));
    assert_eq!(mem.get_mem(64), None);
    assert_eq!(mem.get_mem(128), Some(0x2000));
    assert_eq!(mem.get_mem(128), Some(0x1000));
    assert_eq!(mem.get_mem(128), None);
    let mut list = ChunkList::new();
    list.insert_mem(5);
    assert_eq!(list.get_mem(), Some(5));
}

#[test]
fn memory_statistics_move_bytes() {
    let mut stats = MemStatistics::new();
    stats.notify_allocated(128, 16);
    stats.notify_cached(64);
    stats.notify_reused(32);
    stats.notify_dead(16);
    assert_eq!((stats.in_use, stats.padding, stats.cached, stats.dead, stats.reused_total), (80, 16, 32, 16, 32));
}

#[test]
fn cartridge_menu_cursor_wraps() {
    let info = |name: &[u8]| CartridgeInfo { short_name: name.to_vec(), long_name: name.to_vec(), has_savedata: false, has_ram: true };
    let mut sys = System::new();
    assert_eq!(sys.has_ram(), None);
    sys.update_cartridges(vec![info(b"A"), info(b"B")]);
    let mut font = FontManager::new(font_image_at(128, 0)).unwrap();
    font.init_glyph_index_table().unwrap();
    let mut fb = FrameBuffer::new(0, 0, 256, 240, 1, PixelColorMode::Rgb);
    sys.move_cursor_back(&mut fb, &font);
    assert_eq!(sys.cursor, 1);
    sys.move_cursor_forward(&mut fb, &font);
    assert_eq!(sys.cursor, 0);
    let loaded = sys.load_selected_cartridge().unwrap();
    assert_eq!(loaded.short_name, b"A".to_vec());
    assert_eq!(sys.has_ram(), Some(true));
    assert!(sys.game_initialized());
    assert_eq!(sys.running_cartridge_name(), Some(&b"A"[..]));
}

#[test]
fn cartridge_menu_cursor_forward_then_back() {
    let info = |name: &[u8]| CartridgeInfo { short_name: name.to_vec(), long_name: name.to_vec(), has_savedata: false, has_ram: false };
    let mut sys = System::new();
    sys.update_cartridges(vec![info(b"A"), info(b"B"), info(b"C")]);
    let mut font = FontManager::new(font_image_at(128, 0)).unwrap();
    font.init_glyph_index_table().unwrap();
    let mut fb = FrameBuffer::new(0, 0, 256, 240, 1, PixelColorMode::Rgb);
    for start in 0..3 {
        sys.cursor = start;
        sys.move_cursor_forward(&mut fb, &font);
        assert_eq!(sys.cursor, (start + 1) % 3);
        sys.move_cursor_back(&mut fb, &font);
        assert_eq!(sys.cursor, start);
        sys.move_cursor_back(&mut fb, &font);
        assert_eq!(sys.cursor, (start + 2) % 3);
        sys.move_cursor_forward(&mut fb, &font);
        assert_eq!(sys.cursor, start);
    }
}

#[test]
fn clearing_twice_changes_nothing_more() {
    let mut fb = FrameBuffer::new(0, 0, 4, 3, 2, PixelColorMode::Rgb);
    fb.clear(0x123456);
    assert!(fb.buffer.iter().all(|&p| p == 0x123456));
    assert!(fb.dirty.iter().all(|&d| d));
    for d in fb.dirty.iter_mut() {
        *d = false;
    }
    let pixels = fb.buffer.clone();
    fb.clear(0x123456);
    assert_eq!(fb.buffer, pixels);
    assert!(fb.dirty.iter().all(|&d| !d));
}
