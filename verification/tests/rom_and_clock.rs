//! Tests of the cartridge header parser and the master clock driver.

use fami_rust::clock::Clock;
use fami_rust::cpu::Cpu;
use fami_rust::mem::MemCon;
use fami_rust::ppu::Ppu;
use fami_rust::rom::{
    parse, parse_flag6, parse_flag7, parse_flag8, calculate_rom_size, ConsoleType, MirroringType,
    RomError, TvFormat,
};

fn image_v1(prg_units: u8, chr_units: u8, flag6: u8, flag7: u8) -> Vec<u8> {
    let mut image = vec![0x4E, 0x45, 0x53, 0x1A, prg_units, chr_units, flag6, flag7];
    image.extend_from_slice(&[0u8; 8]);
    image.extend_from_slice(&vec![0u8; 512 * ((flag6 as usize >> 2) & 1)]);
    image.extend_from_slice(&vec![0u8; prg_units as usize * 0x4000]);
    image.extend_from_slice(&vec![0u8; chr_units as usize * 0x2000]);
    image
}

#[test]
fn parse_accepts_a_plain_image() {
    let mut image = image_v1(1, 1, 0b0000_0011, 0x10);
    image[16] = 0xA9;
    let rom = parse(&image).expect("valid image");
    assert_eq!(rom.prg_rom().len(), 0x4000);
    assert_eq!(rom.chr_rom().len(), 0x2000);
    assert_eq!(rom.prg_rom()[0], 0xA9);
    assert_eq!(rom.mirroring_type(), MirroringType::Vertical);
    assert!(rom.battery_backed);
    assert_eq!(rom.console_type, ConsoleType::Nes);
    assert_eq!(rom.mapper_no, 0x010);
    assert_eq!(rom.tv_format, TvFormat::NTSC);
    assert!(rom.trainer.is_none());
    assert_eq!(rom.prg_ram_size, 0x2000, "a zero byte infers one 8 KiB unit");
}

#[test]
fn parse_reads_the_trainer() {
    let mut image = image_v1(1, 0, 0b0000_0100, 0);
    image[16] = 0x77;
    let rom = parse(&image).expect("valid image");
    let trainer = rom.trainer.expect("declared");
    assert_eq!(trainer.len(), 512);
    assert_eq!(trainer[0], 0x77);
}

#[test]
fn parse_rejects_short_header() {
    let image = vec![0x4E, 0x45, 0x53];
    assert!(matches!(parse(&image), Err(RomError::HeaderTooShort)));
}

#[test]
fn parse_rejects_bad_magic() {
    let mut image = image_v1(1, 1, 0, 0);
    image[3] = 0x00;
    assert!(matches!(parse(&image), Err(RomError::BadMagic)));
}

#[test]
fn parse_rejects_truncated_banks() {
    let mut image = image_v1(1, 1, 0, 0);
    image.truncate(image.len() - 1);
    assert!(matches!(parse(&image), Err(RomError::Truncated)));
}

#[test]
fn parse_four_screen_beats_vertical() {
    let image = image_v1(1, 0, 0b0000_1001, 0);
    let rom = parse(&image).expect("valid image");
    assert_eq!(rom.mirroring_type(), MirroringType::FourScreen);
}

#[test]
fn flag_parsers_extract_the_documented_fields() {
    let (mirroring, battery, trainer, mapper_low) = parse_flag6(0b1010_0111);
    assert_eq!(mirroring, MirroringType::Vertical);
    assert!(battery);
    assert!(trainer);
    assert_eq!(mapper_low, 0b1010);
    let (console, is_v2, mapper_mid) = parse_flag7(0b0101_1001);
    assert_eq!(console, ConsoleType::VsSystem);
    assert!(is_v2, "bits 2-3 equal to binary 10 mark the newer format");
    assert_eq!(mapper_mid, 0b0101);
    assert_eq!(parse_flag8(0), 0x2000);
    assert_eq!(parse_flag8(2), 0x4000);
}

#[test]
fn rom_size_exponent_notation() {
    // A high nibble of 15 selects 2^exponent * (multiplier * 2 + 1).
    assert_eq!(calculate_rom_size(0x0F, 0b000_011_01), (1u128 << 3) * 3);
    assert_eq!(calculate_rom_size(0x02, 0x10), 0x210);
}

#[test]
fn clock_ratios_cpu_to_ppu_one_to_three() {
    let image = image_v1(1, 1, 0, 0);
    let rom = parse(&image).expect("valid image");
    let mut cpu = Cpu::new(&rom, MemCon::new());
    let ppu = Ppu::new(&rom);
    cpu.power_on();
    let mut clock = Clock::new(cpu, ppu);
    for _ in 0..6 {
        clock.tick().expect("no undefined opcode");
    }
    assert_eq!(clock.master_counter, 6);
    assert_eq!(clock.ppu.clock_counter, 6);
    assert_eq!(clock.cpu.clock_counter, 2);
}

#[test]
fn clock_routes_interrupt_pins() {
    let image = image_v1(1, 1, 0, 0);
    let rom = parse(&image).expect("valid image");
    let cpu = Cpu::new(&rom, MemCon::new());
    let ppu = Ppu::new(&rom);
    let mut clock = Clock::new(cpu, ppu);
    clock.trigger_nmi();
    assert!(clock.cpu.nmi_occurred);
    clock.trigger_irq();
    assert!(clock.cpu.irq_occurred);
    clock.clear_irq();
    assert!(!clock.cpu.irq_occurred);
    clock.trigger_reset();
    assert!(clock.cpu.reset_occurred);
}

#[test]
fn cpu_new_maps_a_single_bank_twice() {
    let mut image = image_v1(1, 1, 0, 0);
    image[16] = 0xAB;
    image[16 + 0x3FFF] = 0xCD;
    let rom = parse(&image).expect("valid image");
    let cpu = Cpu::new(&rom, MemCon::new());
    assert_eq!(cpu.mem.ram[0x8000], 0xAB);
    assert_eq!(cpu.mem.ram[0xBFFF], 0xCD);
    assert_eq!(cpu.mem.ram[0xC000], 0xAB, "a single bank is mirrored");
    assert_eq!(cpu.mem.ram[0xFFFF], 0xCD);
}

#[test]
fn cpu_new_maps_two_banks_separately() {
    let mut image = image_v1(2, 0, 0, 0);
    image[16] = 0x11;
    image[16 + 0x4000] = 0x22;
    let rom = parse(&image).expect("valid image");
    let cpu = Cpu::new(&rom, MemCon::new());
    assert_eq!(cpu.mem.ram[0x8000], 0x11);
    assert_eq!(cpu.mem.ram[0xC000], 0x22);
}

#[test]
fn ppu_new_loads_pattern_data() {
    let mut image = image_v1(1, 1, 0, 0);
    let chr_start = 16 + 0x4000;
    image[chr_start] = 0x3E;
    image[chr_start + 0x1FFF] = 0x7C;
    let rom = parse(&image).expect("valid image");
    let ppu = Ppu::new(&rom);
    assert_eq!(ppu.vram.vram[0x0000], 0x3E);
    assert_eq!(ppu.vram.vram[0x1FFF], 0x7C);
}

#[test]
fn util_error_carries_its_message() {
    let e = fami_rust::util::Error::new(String::from("bad image"));
    assert_eq!(e.message().as_str(), "bad image");
}
