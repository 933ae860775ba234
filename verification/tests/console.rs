use brightnes::nes::apu::APU;
use brightnes::nes::cartridge::{Cartridge, CartridgeError};
use brightnes::nes::cpu::alu::{adc, compare, sbc, StatusFlags};
use brightnes::nes::cpu::bus::CPUBus;
use brightnes::nes::cpu::{CpuMemory, Fault, InterruptType, CPU};
use brightnes::nes::pad::{Pad, PadButton};
use brightnes::nes::Mirroring;

/// An iNES image with one 16 KiB PRG bank holding `program` at $8000 (the
/// reset vector points there) and one 8 KiB CHR bank.
fn nrom_image(program: &[u8]) -> Vec<u8> {
    let mut image = vec![0x4E, 0x45, 0x53, 0x1A, 1, 1, 0, 0, 0, 0, 0, 0, 0, 0, 0, 0];
    let mut prg = vec![0xEAu8; 0x4000];
    prg[..program.len()].copy_from_slice(program);
    // Reset vector ($FFFC, mirrored from $BFFC) -> $8000.
    prg[0x3FFC] = 0x00;
    prg[0x3FFD] = 0x80;
    image.extend_from_slice(&prg);
    image.extend(std::iter::repeat(0u8).take(0x2000));
    image
}

fn boot(program: &[u8]) -> (CPU, CPUBus) {
    let cartridge = Cartridge::load(&nrom_image(program)).expect("the image loads");
    let bus = CPUBus::new(cartridge);
    let mut cpu = CPU::new();
    cpu.interrupt(InterruptType::RST);
    (cpu, bus)
}

#[test]
fn reset_jumps_through_the_vector() {
    let (mut cpu, mut bus) = boot(&[0xEA]);
    let cycles = cpu.clock(&mut bus).unwrap();
    assert_eq!(cycles, CPU::INTERRUPT_CYCLES);
    assert_eq!(cpu.reg_pc, 0x8000);
    assert_eq!(cpu.reg_sp, 0xFD);
    assert!(cpu.reg_p.int);
}

#[test]
fn program_stores_and_counts() {
    // LDA #$42; STA $0200; LDX #$05; INX; STX $0201
    let program = [0xA9, 0x42, 0x8D, 0x00, 0x02, 0xA2, 0x05, 0xE8, 0x8E, 0x01, 0x02];
    let (mut cpu, mut bus) = boot(&program);
    cpu.clock(&mut bus).unwrap();
    for _ in 0..5 {
        cpu.clock(&mut bus).unwrap();
    }
    assert_eq!(cpu.reg_a, 0x42);
    assert_eq!(cpu.reg_x, 6);
    assert_eq!(bus.ram.mem[0x200], 0x42);
    assert_eq!(bus.ram.mem[0x201], 6);
    assert_eq!(cpu.reg_pc, 0x800B);
}

#[test]
fn ram_is_mirrored_every_2k() {
    // LDA #$99; STA $0805; LDY $1805
    let program = [0xA9, 0x99, 0x8D, 0x05, 0x08, 0xAC, 0x05, 0x18];
    let (mut cpu, mut bus) = boot(&program);
    for _ in 0..4 {
        cpu.clock(&mut bus).unwrap();
    }
    assert_eq!(bus.ram.mem[5], 0x99);
    assert_eq!(cpu.reg_y, 0x99);
}

#[test]
fn subroutine_call_and_return() {
    // JSR $8006; LDA #$01; (pad) ... $8006: LDX #$07; RTS
    let program = [0x20, 0x06, 0x80, 0xA9, 0x01, 0xEA, 0xA2, 0x07, 0x60];
    let (mut cpu, mut bus) = boot(&program);
    cpu.clock(&mut bus).unwrap();
    cpu.clock(&mut bus).unwrap();
    assert_eq!(cpu.reg_pc, 0x8006);
    assert_eq!(cpu.reg_sp, 0xFB);
    cpu.clock(&mut bus).unwrap();
    cpu.clock(&mut bus).unwrap();
    assert_eq!(cpu.reg_pc, 0x8003);
    assert_eq!(cpu.reg_sp, 0xFD);
    cpu.clock(&mut bus).unwrap();
    assert_eq!(cpu.reg_a, 1);
    assert_eq!(cpu.reg_x, 7);
}

#[test]
fn jam_is_a_fault() {
    let (mut cpu, mut bus) = boot(&[0x02]);
    cpu.clock(&mut bus).unwrap();
    assert_eq!(cpu.clock(&mut bus), Err(Fault::Instruction(0x8000)));
}

#[test]
fn writing_prg_rom_of_nrom_faults() {
    // STA $8000
    let (mut cpu, mut bus) = boot(&[0x8D, 0x00, 0x80]);
    cpu.clock(&mut bus).unwrap();
    assert_eq!(cpu.clock(&mut bus), Err(Fault::BusWrite(0x8000)));
}

#[test]
fn oam_dma_copies_a_page_and_stalls() {
    // LDA #$07; STA $0300; LDA #$03; STA $4014
    let program = [0xA9, 0x07, 0x8D, 0x00, 0x03, 0xA9, 0x03, 0x8D, 0x14, 0x40];
    let (mut cpu, mut bus) = boot(&program);
    for _ in 0..5 {
        cpu.clock(&mut bus).unwrap();
    }
    assert_eq!(cpu.stall_cycles, CPU::OAM_DMA_CYCLES);
    let mut total = 0;
    while cpu.stall_cycles > 0 {
        total += cpu.clock(&mut bus).unwrap();
    }
    assert_eq!(total, CPU::OAM_DMA_CYCLES);
    assert_eq!(bus.ppu.oam.sprites[0].y, 0x07);
}

#[test]
fn adc_sets_carry_and_overflow() {
    let r = adc(0x50, 0x50, false);
    assert_eq!(r.value, 0xA0);
    assert!(!r.carry);
    assert!(r.overflow);
    let r = adc(0xFF, 0x01, false);
    assert_eq!(r.value, 0x00);
    assert!(r.carry);
    assert!(!r.overflow);
}

#[test]
fn sbc_borrows() {
    let r = sbc(0x00, 0x01, true);
    assert_eq!(r.value, 0xFF);
    assert!(!r.carry);
    let r = sbc(0x05, 0x03, true);
    assert_eq!(r.value, 0x02);
    assert!(r.carry);
}

#[test]
fn compare_orders() {
    let c = compare(0x10, 0x10);
    assert!(c.carry && c.zero && !c.neg);
    let c = compare(0x10, 0x20);
    assert!(!c.carry && !c.zero && c.neg);
}

#[test]
fn status_bits_round_trip() {
    let f = StatusFlags::from_bits_retain(0b1010_0101);
    assert!(f.carry && f.int && f.one && f.neg);
    assert!(!f.zero && !f.decimal && !f.brk && !f.overflow);
    assert_eq!(f.bits(), 0b1010_0101);
}

#[test]
fn cartridge_errors() {
    assert_eq!(Cartridge::load(&[0u8; 8]).err(), Some(CartridgeError::Truncated));
    let mut image = nrom_image(&[]);
    image[0] = 0;
    assert_eq!(Cartridge::load(&image).err(), Some(CartridgeError::InvalidMagic));
    let mut image = nrom_image(&[]);
    image[6] = 0x50;
    assert_eq!(Cartridge::load(&image).err(), Some(CartridgeError::UnsupportedMapper(5)));
    let mut image = nrom_image(&[]);
    image.truncate(0x3000);
    assert_eq!(Cartridge::load(&image).err(), Some(CartridgeError::Truncated));
    let mut image = nrom_image(&[]);
    image[4] = 0;
    assert_eq!(Cartridge::load(&image).err(), Some(CartridgeError::InvalidSize));
}

#[test]
fn nrom_mirrors_a_single_bank() {
    let cartridge = Cartridge::load(&nrom_image(&[0x11, 0x22])).unwrap();
    assert_eq!(cartridge.read_cpu_mem(0x8001), Ok(0x22));
    assert_eq!(cartridge.read_cpu_mem(0xC001), Ok(0x22));
    assert_eq!(cartridge.mirroring(), Mirroring::Horizontal);
}

#[test]
fn pad_reports_buttons_in_order() {
    let mut pad = Pad::new(0);
    pad.press_button(PadButton::A);
    pad.press_button(PadButton::Start);
    pad.write(true);
    assert!(pad.read());
    assert!(pad.read());
    pad.write(false);
    let bits: Vec<bool> = (0..9).map(|_| pad.read()).collect();
    assert_eq!(bits, vec![true, false, false, true, false, false, false, false, true]);
}

#[test]
fn controller_is_read_through_the_bus() {
    // LDA #$01; STA $4016; LDA #$00; STA $4016; LDA $4016; LDX $4016
    let program = [0xA9, 0x01, 0x8D, 0x16, 0x40, 0xA9, 0x00, 0x8D, 0x16, 0x40, 0xAD, 0x16, 0x40, 0xAE, 0x16, 0x40];
    let (mut cpu, mut bus) = boot(&program);
    bus.pads[0].press_button(PadButton::B);
    for _ in 0..7 {
        cpu.clock(&mut bus).unwrap();
    }
    assert_eq!(cpu.reg_a, 0);
    assert_eq!(cpu.reg_x, 1);
}

#[test]
fn apu_status_reflects_length_counters() {
    let mut apu = APU::new();
    let mut cpu = CPU::new();
    assert_eq!(apu.write_reg(0x4015, 0x01), Ok(()));
    assert_eq!(apu.write_reg(0x4003, 0x08), Ok(()));
    assert_eq!(apu.read_reg(0x4015), 0x01);
    assert_eq!(apu.write_reg(0x4015, 0x00), Ok(()));
    assert_eq!(apu.read_reg(0x4015), 0x00);
    let samples = apu.clock(162 * 3, &mut cpu);
    assert_eq!(samples.len(), 3);
    assert_eq!(apu.sampling_clocks_counter, 0);
}

#[test]
fn apu_frame_irq_in_four_step_mode() {
    let mut apu = APU::new();
    let mut cpu = CPU::new();
    assert_eq!(apu.write_reg(0x4017, 0x00), Ok(()));
    assert!(!apu.frame_counter.irq_disabled);
    let mut raised = false;
    for _ in 0..5 {
        let _ = apu.clock(APU::QUARTER_FRAME_CLOCKS, &mut cpu);
        raised = raised || cpu.interrupt.irq;
    }
    assert!(raised);
    assert_eq!(apu.frame_counter.frame, 0);
    assert_eq!(apu.read_reg(0x4015) & 0x40, 0x40);
    assert_eq!(apu.read_reg(0x4015) & 0x40, 0x00);
}

#[test]
fn apu_frame_irq_disabled_by_bit_6() {
    let mut apu = APU::new();
    let mut cpu = CPU::new();
    assert_eq!(apu.write_reg(0x4017, 0x00), Ok(()));
    for _ in 0..5 {
        let _ = apu.clock(APU::QUARTER_FRAME_CLOCKS, &mut cpu);
    }
    assert!(apu.frame_counter.interrupt);
    assert_eq!(apu.write_reg(0x4017, 0x40), Ok(()));
    assert!(apu.frame_counter.irq_disabled);
    assert!(!apu.frame_counter.interrupt);
    let mut cpu = CPU::new();
    for _ in 0..10 {
        let _ = apu.clock(APU::QUARTER_FRAME_CLOCKS, &mut cpu);
    }
    assert!(!cpu.interrupt.irq);
    assert_eq!(apu.read_reg(0x4015) & 0x40, 0);
    assert_eq!(apu.write_reg(0x4017, 0x80), Ok(()));
    assert!(!apu.frame_counter.irq_disabled);
}

#[test]
fn length_counter_table() {
    assert_eq!(APU::convert_length_counter(0x00), 10);
    assert_eq!(APU::convert_length_counter(0x01), 254);
    assert_eq!(APU::convert_length_counter(0x1F), 30);
}

#[test]
fn bus_read_of_apu_registers_is_zero() {
    // LDA $4000
    let (mut cpu, mut bus) = boot(&[0xAD, 0x00, 0x40]);
    cpu.clock(&mut bus).unwrap();
    cpu.reg_a = 0x55;
    cpu.clock(&mut bus).unwrap();
    assert_eq!(cpu.reg_a, 0);
    let mut c2 = CPU::new();
    assert_eq!(bus.read(0x4014, &mut c2), Err(Fault::BusRead(0x4014)));
}
