//! Tests of the software interrupt, the return from an interrupt, the newer
//! header format, and the default transient states.

use fami_rust::cpu::{Cpu, Interrupt, IntType};
use fami_rust::cpu::cpu_state::{CpuMode, TmpState};
use fami_rust::cpu::decoder::Executer;
use fami_rust::mem::MemCon;
use fami_rust::ppu::Ppu;
use fami_rust::ppu::ppu_state::PpuState;
use fami_rust::rom::{parse, CPUTiming, TvFormat};

fn machine(prg_head: &[u8]) -> (Cpu, Ppu) {
    let mut image: Vec<u8> = vec![0x4E, 0x45, 0x53, 0x1A, 1, 1, 0, 0, 0, 0, 0, 0, 0, 0, 0, 0];
    let mut prg = vec![0u8; 0x4000];
    prg[..prg_head.len()].copy_from_slice(prg_head);
    prg[0x3FFC] = 0x00;
    prg[0x3FFD] = 0x80;
    prg[0x3FFE] = 0x00;
    prg[0x3FFF] = 0xA0;
    image.extend_from_slice(&prg);
    image.extend_from_slice(&vec![0u8; 0x2000]);
    let rom = parse(&image).expect("image parses");
    let mut cpu = Cpu::new(&rom, MemCon::new());
    let mut ppu = Ppu::new(&rom);
    cpu.power_on();
    for _ in 0..7 {
        cpu.step(&mut ppu).expect("reset sequence");
    }
    (cpu, ppu)
}

#[test]
fn brk_runs_the_interrupt_sequence_with_break_pushed_high() {
    let (mut cpu, mut ppu) = machine(&[0x00]);
    let s_before = cpu.regs.s;
    // fetch consumes the zero byte, then six more interrupt cycles follow
    for _ in 0..7 {
        cpu.step(&mut ppu).expect("documented");
    }
    assert_eq!(cpu.regs.pc, 0xA000, "the IRQ/BRK vector's handler");
    assert_eq!(cpu.regs.s, s_before.wrapping_sub(3));
    // BRK is documented as two bytes: the pushed return address skips one
    assert_eq!(cpu.mem.ram[0x0100 + s_before as usize], 0x80);
    assert_eq!(cpu.mem.ram[0x0100 + (s_before - 1) as usize], 0x02);
    assert_ne!(cpu.mem.ram[0x0100 + (s_before - 2) as usize] & 0x10, 0, "Break pushed high");
}

#[test]
fn rti_restores_flags_and_return_address() {
    // Push an interrupt frame by hand, then run RTI.
    let (mut cpu, mut ppu) = machine(&[0x40]);
    let s = cpu.regs.s;
    cpu.mem.raw_write_b(0x0100 + s as u16, 0x84);
    cpu.mem.raw_write_b(0x0100 + (s - 1) as u16, 0x21);
    cpu.mem.raw_write_b(0x0100 + (s - 2) as u16, 0b1101_0011);
    cpu.regs.s = s - 3;
    for _ in 0..6 {
        cpu.step(&mut ppu).expect("documented");
    }
    assert_eq!(cpu.regs.pc, 0x8421);
    assert_eq!(cpu.regs.s, s);
    assert_eq!(
        cpu.regs.p,
        0b1110_0011,
        "flags restored with Break forced low and the reserved bit high"
    );
}

#[test]
fn irq_is_masked_by_the_interrupt_disable_flag() {
    // CLI; NOP; NOP with the IRQ pin held: the interrupt is taken only once
    // the flag is clear.
    let (mut cpu, mut ppu) = machine(&[0xEA, 0xEA]);
    cpu.trigger_irq();
    assert!(cpu.regs.int_disabled(), "reset entry raised the flag");
    for _ in 0..2 {
        cpu.step(&mut ppu).expect("documented");
    }
    assert!(matches!(cpu.mode, CpuMode::Fetch), "masked: no interrupt after the NOP");
    assert!(matches!(cpu.int_requested.kind, IntType::Empty));
    cpu.regs.flags_off(0x04);
    for _ in 0..2 {
        cpu.step(&mut ppu).expect("documented");
    }
    assert!(matches!(cpu.mode, CpuMode::Interrupt), "unmasked: the poll latched the pin");
}

#[test]
fn parse_reads_the_newer_format_fields() {
    let mut image = vec![
        0x4E, 0x45, 0x53, 0x1A, // magic
        0x40, // PRG size low byte
        0x20, // CHR size low byte
        0x00, // flags 6
        0x08, // flags 7: the newer format identifier
        0x05, // mapper high nibble
        0x00, // size high nibbles
        0x21, // PRG-RAM/EEPROM shifts
        0x43, // CHR-RAM shifts
        0x00, // timing
        0x96, // Vs. System nibbles
        0x00, 0x00,
    ];
    image.extend_from_slice(&vec![0u8; 0x40 + 0x20]);
    let rom = parse(&image).expect("valid image");
    assert_eq!(rom.prg_rom().len(), 0x40, "the newer path takes the size as bytes");
    assert_eq!(rom.chr_rom().len(), 0x20);
    assert_eq!(rom.mapper_no, 0x500);
    assert_eq!(rom.prg_ram_size, 64 << 2);
    assert_eq!(rom.eeprom_size, 64 << 1);
    assert_eq!(rom.chr_ram_size, 64 << 4);
    assert_eq!(rom.chr_nvram_size, 64 << 3);
    assert_eq!(rom.tv_format, TvFormat::NTSC);
    assert_eq!(rom.cpu_timing, CPUTiming::Dendy);
    assert_eq!(rom.vssystem_type, 0x6);
    assert_eq!(rom.vshardware_type, 0x9);
}

#[test]
fn ppu_power_on_clears_registers_and_requests_reset() {
    let (_cpu, mut ppu) = machine(&[0xEA]);
    ppu.regs.ctrl = 0xFF;
    ppu.regs.toggle = true;
    ppu.power_on();
    assert_eq!(ppu.regs.ctrl, 0);
    assert!(!ppu.regs.toggle);
    assert!(ppu.reset_requested);
}

#[test]
fn ppu_reset_clears_the_written_registers_only() {
    let (_cpu, mut ppu) = machine(&[0xEA]);
    ppu.state = PpuState::Ready;
    ppu.regs.ctrl = 0xFF;
    ppu.regs.oam_addr = 0x33;
    ppu.reset();
    assert_eq!(ppu.regs.ctrl, 0);
    assert_eq!(ppu.regs.oam_addr, 0x33, "the OAM address survives a reset");
    assert!(ppu.reset_requested);
}

#[test]
fn transient_state_defaults_are_empty() {
    let st = TmpState::default();
    assert_eq!(st.counter, 0);
    assert!(matches!(st.int_kind, IntType::Empty));
    let ex = Executer::default();
    assert_eq!(ex.last_cycle, 0);
    let pending = Interrupt::default();
    assert!(matches!(pending.kind, IntType::Empty));
    assert!(!pending.is_force_delayed);
}

#[test]
fn stack_wraps_silently_at_the_page_edges() {
    let (mut cpu, _ppu) = machine(&[0xEA]);
    cpu.regs.s = 0x00;
    cpu.push_stack(0x5A);
    assert_eq!(cpu.regs.s, 0xFF, "pushing past the bottom wraps");
    assert_eq!(cpu.mem.ram[0x0100], 0x5A);
    let v = cpu.pull_stack();
    assert_eq!(v, 0x5A);
    assert_eq!(cpu.regs.s, 0x00);
}
