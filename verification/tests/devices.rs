use brightnes::frame_buffer::{FrameBuffer, PixelColorMode};
use brightnes::nes::pad::{Pad, PadButton};
use brightnes::proc::info::InfoProc;
use brightnes::proc::ProcessMode;
use brightnes::drivers::{block_request_result, pci_capabilities_offset, BlockGeometry};
use brightnes::nes::apu::dmc::DMC;
use brightnes::nes::apu::APU;
use brightnes::nes::cartridge::Cartridge;
use brightnes::nes::cpu::bus::CPUBus;
use brightnes::nes::cpu::instr::AddrMode;
use brightnes::nes::cpu::{InterruptType, CPU};

fn nrom_bus(first_byte: u8) -> CPUBus {
    let mut image = vec![0x4E, 0x45, 0x53, 0x1A, 1, 1, 0, 0, 0, 0, 0, 0, 0, 0, 0, 0];
    let mut prg = vec![0xEAu8; 0x4000];
    prg[0] = first_byte;
    image.extend_from_slice(&prg);
    image.extend(std::iter::repeat(0u8).take(0x2000));
    CPUBus::new(Cartridge::load(&image).expect("the image loads"))
}

#[test]
fn dmc_clock_plays_a_sample_byte() {
    let mut bus = nrom_bus(0xFF);
    let mut cpu = CPU::new();
    let mut d = DMC::new();
    d.write_reg(0, 0x0F).unwrap();
    assert_eq!(d.timer, 54);
    d.write_reg(2, 0x00).unwrap();
    assert_eq!(d.sample_address, 0xC000);
    d.write_reg(3, 0x00).unwrap();
    assert_eq!(d.length_counter, 1);
    d.current_address = 0xC000;
    d.clock(54, &mut cpu, &mut bus).unwrap();
    assert_eq!((d.sample_buffer, d.sample_buffer_index, d.length_counter, d.current_address), (0xFF, 8, 0, 0xC001));
    d.clock(54 * 8, &mut cpu, &mut bus).unwrap();
    assert_eq!(d.get_output(), 16);
    assert_eq!(d.sample_buffer_index, 0);
    assert!(!cpu.interrupt.contains(InterruptType::IRQ));
    d.clock(54, &mut cpu, &mut bus).unwrap();
    assert_eq!(d.get_output(), 16);
}

#[test]
fn dmc_output_stays_within_seven_bits() {
    let mut bus = nrom_bus(0xFF);
    let mut cpu = CPU::new();
    let mut d = DMC::new();
    d.write_reg(0, 0x0F).unwrap();
    d.write_reg(1, 0xFF).unwrap();
    assert_eq!(d.get_output(), 127);
    d.sample_buffer = 0xFF;
    d.sample_buffer_index = 8;
    d.clock(54 * 8, &mut cpu, &mut bus).unwrap();
    assert_eq!(d.get_output(), 127);
    d.write_reg(1, 1).unwrap();
    d.sample_buffer = 0;
    d.sample_buffer_index = 8;
    d.clock(54 * 8, &mut cpu, &mut bus).unwrap();
    assert_eq!(d.get_output(), 1);
}

#[test]
fn dmc_restarts_or_raises_irq_when_the_sample_ends() {
    let mut bus = nrom_bus(0x00);
    let mut cpu = CPU::new();
    let mut d = DMC::new();
    d.write_reg(0, 0x4F).unwrap();
    d.write_reg(2, 0x01).unwrap();
    d.sample_length = 17;
    d.clock(54, &mut cpu, &mut bus).unwrap();
    assert_eq!((d.current_address, d.length_counter), (0xC040, 17));
    let mut d = DMC::new();
    d.write_reg(0, 0x8F).unwrap();
    d.clock(54, &mut cpu, &mut bus).unwrap();
    assert!(cpu.interrupt.contains(InterruptType::IRQ));
}

#[test]
fn dmc_without_rate_does_nothing() {
    let mut bus = nrom_bus(0x00);
    let mut cpu = CPU::new();
    let mut d = DMC::new();
    d.clock(1000, &mut cpu, &mut bus).unwrap();
    assert_eq!(d.timer_counter, 0);
}

#[test]
fn disabled_channels_read_silent() {
    let mut apu = APU::new();
    apu.write_reg(0x4003, 0x08).unwrap();
    apu.write_reg(0x4007, 0x08).unwrap();
    apu.write_reg(0x400F, 0x08).unwrap();
    apu.write_reg(0x4013, 0x01).unwrap();
    let before = apu.read_reg(0x4015);
    assert_eq!(before & 0x1B, 0x1B);
    apu.write_reg(0x4015, 0x01).unwrap();
    let after = apu.read_reg(0x4015);
    assert_eq!(after & 0x1F, 0x01);
    assert_eq!(after & 0xC0, before & 0xC0);
}

#[test]
fn store_through_indirect_y_then_load() {
    let mut bus = nrom_bus(0xEA);
    let mut cpu = CPU::new();
    bus.ram.mem[0x10] = 0x00;
    bus.ram.mem[0x11] = 0x03;
    cpu.reg_y = 5;
    let mode = AddrMode::IndirectY(0x10);
    mode.write(0x42, &mut cpu, &mut bus).unwrap();
    assert_eq!(bus.ram.mem[0x305], 0x42);
    assert_eq!(mode.resolve(&mut cpu, &mut bus).unwrap().0, 0x42);
    let mode = AddrMode::ZeroPageX(0xFF);
    cpu.reg_x = 2;
    mode.write(0x99, &mut cpu, &mut bus).unwrap();
    assert_eq!(bus.ram.mem[0x01], 0x99);
    assert_eq!(mode.resolve(&mut cpu, &mut bus).unwrap().0, 0x99);
    let before = bus.ram.mem;
    AddrMode::Immediate(7).write(0x55, &mut cpu, &mut bus).unwrap();
    assert_eq!(bus.ram.mem, before);
}

#[test]
fn pci_capabilities_and_block_requests() {
    assert_eq!(pci_capabilities_offset(0x0010), Some(0x34));
    assert_eq!(pci_capabilities_offset(0x0000), None);
    assert_eq!(pci_capabilities_offset(0xFFEF), None);
    let geometry = BlockGeometry { capacity: 100, blk_size: 0 };
    assert_eq!(geometry.check_transfer_len(1024), Ok(()));
    assert_eq!(geometry.check_transfer_len(1000), Err(()));
    assert_eq!(block_request_result(0), Ok(()));
    assert_eq!(block_request_result(1), Err(()));
}

#[test]
fn pressing_a_button_redraws_it_on_the_info_screen() {
    let mut pad = Pad::new(0);
    let mut fb = FrameBuffer::new(0, 0, 130, 50, 1, PixelColorMode::Rgb);
    let pressed = InfoProc::color_pressed(PixelColorMode::Rgb);
    let released = InfoProc::color_released(PixelColorMode::Rgb);
    let a_square = 20 * 130 + 110;
    InfoProc::press_button(&mut pad, PadButton::A, ProcessMode::Game, &mut fb);
    assert!(pad.pressed[0]);
    assert_eq!(fb.buffer[a_square], 0);
    InfoProc::press_button(&mut pad, PadButton::A, ProcessMode::Info, &mut fb);
    assert_eq!(fb.buffer[a_square], pressed);
    InfoProc::release_button(&mut pad, PadButton::A, ProcessMode::Info, &mut fb);
    assert!(!pad.pressed[0]);
    assert_eq!(fb.buffer[a_square], released);
}
