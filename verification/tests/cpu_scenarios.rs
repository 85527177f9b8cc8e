//! End-to-end scenarios: whole instructions run cycle by cycle through the
//! clocked core, against a cartridge image built from bytes.

use fami_rust::cpu::{Cpu, CpuError, IntType};
use fami_rust::cpu::cpu_state::CpuMode;
use fami_rust::mem::MemCon;
use fami_rust::ppu::Ppu;
use fami_rust::rom::parse;

/// Builds a one-bank cartridge image whose program starts at 0x8000 (with
/// the reset vector pointing there) and returns the powered-on machine,
/// already past the seven-cycle reset sequence.
fn machine_with(prg_head: &[u8]) -> (Cpu, Ppu) {
    let mut image: Vec<u8> = vec![0x4E, 0x45, 0x53, 0x1A, 1, 1, 0, 0, 0, 0, 0, 0, 0, 0, 0, 0];
    let mut prg = vec![0u8; 0x4000];
    prg[..prg_head.len()].copy_from_slice(prg_head);
    // reset vector: 0x8000; NMI vector: 0x9000; IRQ vector: 0xA000
    prg[0x3FFC] = 0x00;
    prg[0x3FFD] = 0x80;
    prg[0x3FFA] = 0x00;
    prg[0x3FFB] = 0x90;
    prg[0x3FFE] = 0x00;
    prg[0x3FFF] = 0xA0;
    image.extend_from_slice(&prg);
    image.extend_from_slice(&vec![0u8; 0x2000]);
    let rom = parse(&image).expect("image parses");
    let mut cpu = Cpu::new(&rom, MemCon::new());
    let mut ppu = Ppu::new(&rom);
    cpu.power_on();
    run(&mut cpu, &mut ppu, 7);
    assert_eq!(cpu.regs.pc, 0x8000);
    assert!(matches!(cpu.mode, CpuMode::Fetch));
    (cpu, ppu)
}

fn run(cpu: &mut Cpu, ppu: &mut Ppu, cycles: usize) {
    for _ in 0..cycles {
        cpu.step(ppu).expect("no undefined opcode");
    }
}

fn at_instruction_boundary(cpu: &Cpu) -> bool {
    matches!(cpu.mode, CpuMode::Fetch) && cpu.state.counter == 0
}

#[test]
fn scenario_immediate_load_and_store() {
    // LDA #$42; STA $0200: 2 + 4 = 6 cycles.
    let (mut cpu, mut ppu) = machine_with(&[0xA9, 0x42, 0x8D, 0x00, 0x02]);
    run(&mut cpu, &mut ppu, 5);
    assert!(!at_instruction_boundary(&cpu));
    run(&mut cpu, &mut ppu, 1);
    assert!(at_instruction_boundary(&cpu));
    assert_eq!(cpu.regs.a, 0x42);
    assert_eq!(cpu.mem.ram[0x0200], 0x42);
    assert_eq!(cpu.regs.p & 0x80, 0, "negative clear");
    assert_eq!(cpu.regs.p & 0x02, 0, "zero clear");
}

#[test]
fn scenario_add_with_overflow() {
    // LDA #$50; CLC; ADC #$50.
    let (mut cpu, mut ppu) = machine_with(&[0xA9, 0x50, 0x18, 0x69, 0x50]);
    run(&mut cpu, &mut ppu, 6);
    assert_eq!(cpu.regs.a, 0xA0);
    assert_ne!(cpu.regs.p & 0x80, 0, "negative set");
    assert_ne!(cpu.regs.p & 0x40, 0, "overflow set");
    assert_eq!(cpu.regs.p & 0x01, 0, "carry clear");
    assert_eq!(cpu.regs.p & 0x02, 0, "zero clear");
}

#[test]
fn scenario_subtract_with_borrow() {
    // LDA #$50; SEC; SBC #$F0.
    let (mut cpu, mut ppu) = machine_with(&[0xA9, 0x50, 0x38, 0xE9, 0xF0]);
    run(&mut cpu, &mut ppu, 6);
    assert_eq!(cpu.regs.a, 0x60);
    assert_eq!(cpu.regs.p & 0x01, 0, "borrow occurred: carry clear");
    assert_eq!(cpu.regs.p & 0x40, 0, "overflow clear");
    assert_eq!(cpu.regs.p & 0x80, 0, "negative clear");
    assert_eq!(cpu.regs.p & 0x02, 0, "zero clear");
}

#[test]
fn scenario_branch_across_page() {
    // BCS +0x20 at 0x80F0 with carry set: 2 + 1 + 1 = 4 cycles.
    let mut head = vec![0u8; 0xF2];
    head[0xF0] = 0xB0;
    head[0xF1] = 0x20;
    let (mut cpu, mut ppu) = machine_with(&head);
    cpu.regs.pc = 0x80F0;
    cpu.regs.p |= 0x01;
    run(&mut cpu, &mut ppu, 3);
    assert!(!at_instruction_boundary(&cpu));
    run(&mut cpu, &mut ppu, 1);
    assert!(at_instruction_boundary(&cpu));
    assert_eq!(cpu.regs.pc, 0x8112);
}

#[test]
fn scenario_branch_in_page_delays_interrupt() {
    // BCS +0x05 at 0x80F0 with carry set: 3 cycles; the IRQ pin is up before
    // the branch, the poll latches it during the branch, and the taken
    // in-page jump pushes its service back by the NOP at 0x80F7.
    let mut head = vec![0u8; 0xF8];
    head[0xF0] = 0xB0;
    head[0xF1] = 0x05;
    head[0xF7] = 0xEA;
    let (mut cpu, mut ppu) = machine_with(&head);
    cpu.regs.pc = 0x80F0;
    cpu.regs.p |= 0x01;
    cpu.regs.p &= !0x04;
    cpu.trigger_irq();
    run(&mut cpu, &mut ppu, 3);
    assert_eq!(cpu.regs.pc, 0x80F7);
    assert!(
        matches!(cpu.mode, CpuMode::Fetch),
        "the branch bought the program one more instruction"
    );
    assert!(matches!(cpu.int_requested.kind, IntType::Irq), "latched by the branch's own poll");
    assert!(!cpu.int_requested.is_force_delayed, "the delay was consumed at completion");
    // the NOP completes, and only then does the interrupt sequence begin
    run(&mut cpu, &mut ppu, 2);
    assert!(matches!(cpu.mode, CpuMode::Interrupt));
}

#[test]
fn scenario_cross_page_branch_services_interrupt_normally() {
    // The same pending IRQ is serviced right after a taken branch that
    // crosses a page: only the in-page jump delays it.
    let mut head = vec![0u8; 0xF2];
    head[0xF0] = 0xB0;
    head[0xF1] = 0x20;
    let (mut cpu, mut ppu) = machine_with(&head);
    cpu.regs.pc = 0x80F0;
    cpu.regs.p |= 0x01;
    cpu.regs.p &= !0x04;
    cpu.trigger_irq();
    run(&mut cpu, &mut ppu, 4);
    assert_eq!(cpu.regs.pc, 0x8112);
    assert!(matches!(cpu.mode, CpuMode::Interrupt), "serviced without a one-instruction delay");
    assert!(matches!(cpu.state.int_kind, IntType::Irq));
}

#[test]
fn scenario_untaken_branch_services_interrupt_normally() {
    // An untaken branch takes two cycles and does not delay a pending IRQ.
    let mut head = vec![0u8; 0xF2];
    head[0xF0] = 0xB0;
    head[0xF1] = 0x05;
    let (mut cpu, mut ppu) = machine_with(&head);
    cpu.regs.pc = 0x80F0;
    cpu.regs.p &= !0x01;
    cpu.regs.p &= !0x04;
    cpu.trigger_irq();
    run(&mut cpu, &mut ppu, 2);
    assert_eq!(cpu.regs.pc, 0x80F2, "fell through to the next instruction");
    assert!(matches!(cpu.mode, CpuMode::Interrupt), "serviced without a one-instruction delay");
}

#[test]
fn scenario_indirect_jmp_page_bug() {
    // JMP (0x02FF): the high byte comes from 0x0200, not 0x0300.
    let (mut cpu, mut ppu) = machine_with(&[0x6C, 0xFF, 0x02]);
    cpu.mem.raw_write_b(0x02FF, 0x34);
    cpu.mem.raw_write_b(0x0200, 0x12);
    cpu.mem.raw_write_b(0x0300, 0x56);
    run(&mut cpu, &mut ppu, 5);
    assert!(at_instruction_boundary(&cpu));
    assert_eq!(cpu.regs.pc, 0x1234, "not 0x5634");
}

#[test]
fn scenario_nmi_during_instruction() {
    // LDA $0200 takes four cycles; the NMI pin rises on its second cycle
    // and is serviced by the seven-cycle sequence after it completes.
    let (mut cpu, mut ppu) = machine_with(&[0xAD, 0x00, 0x02]);
    let s_before = cpu.regs.s;
    assert_eq!(s_before, 0xFA, "reset consumed three stack slots silently");
    run(&mut cpu, &mut ppu, 2);
    cpu.trigger_nmi();
    run(&mut cpu, &mut ppu, 2);
    assert!(matches!(cpu.mode, CpuMode::Interrupt));
    run(&mut cpu, &mut ppu, 7);
    assert_eq!(cpu.regs.s, s_before.wrapping_sub(3));
    // the stack holds, from top down: PC high, PC low, P with Break low
    assert_eq!(cpu.mem.ram[0x0100 + s_before as usize], 0x80);
    assert_eq!(cpu.mem.ram[0x0100 + (s_before - 1) as usize], 0x03);
    assert_eq!(cpu.mem.ram[0x0100 + (s_before - 2) as usize] & 0x10, 0);
    assert_ne!(cpu.regs.p & 0x04, 0, "interrupt-disable raised");
    assert_eq!(cpu.regs.pc, 0x9000, "the NMI vector's handler");
}

#[test]
fn scenario_pha_pla_restores_accumulator() {
    // LDA #$77; PHA; LDA #$00; PLA.
    let (mut cpu, mut ppu) = machine_with(&[0xA9, 0x77, 0x48, 0xA9, 0x00, 0x68]);
    run(&mut cpu, &mut ppu, 2 + 3 + 2 + 4);
    assert_eq!(cpu.regs.a, 0x77);
    assert_eq!(cpu.regs.p & 0x02, 0, "zero follows the restored value");
    assert_eq!(cpu.regs.p & 0x80, 0, "negative follows the restored value");
}

#[test]
fn scenario_php_plp_restores_flags_with_break_low() {
    // SEC; PHP; CLC; PLP: carry comes back, Break reads low after the pull.
    let (mut cpu, mut ppu) = machine_with(&[0x38, 0x08, 0x18, 0x28]);
    run(&mut cpu, &mut ppu, 2 + 3);
    let pushed = cpu.mem.ram[0x0100 + cpu.regs.s.wrapping_add(1) as usize];
    assert_ne!(pushed & 0x10, 0, "a software push shows Break high");
    run(&mut cpu, &mut ppu, 2);
    assert_eq!(cpu.regs.p & 0x01, 0, "carry cleared before the pull");
    run(&mut cpu, &mut ppu, 4);
    assert_ne!(cpu.regs.p & 0x01, 0, "carry restored");
    assert_eq!(cpu.regs.p & 0x10, 0, "Break forced low on pull");
    assert_ne!(cpu.regs.p & 0x20, 0, "the reserved bit reads as one");
}

#[test]
fn scenario_jsr_rts_returns_past_the_jsr() {
    // JSR $8010 at 0x8000; RTS at 0x8010: execution resumes at 0x8003.
    let mut head = vec![0u8; 0x11];
    head[0] = 0x20;
    head[1] = 0x10;
    head[2] = 0x80;
    head[0x10] = 0x60;
    let (mut cpu, mut ppu) = machine_with(&head);
    run(&mut cpu, &mut ppu, 6);
    assert_eq!(cpu.regs.pc, 0x8010);
    run(&mut cpu, &mut ppu, 6);
    assert_eq!(cpu.regs.pc, 0x8003);
}

#[test]
fn scenario_reset_writes_nothing_to_stack() {
    // The stack page stays all zero through the reset sequence, while the
    // stack pointer drops by three.
    let (cpu, _ppu) = machine_with(&[0xEA]);
    for i in 0x0100..0x0200 {
        assert_eq!(cpu.mem.ram[i], 0);
    }
    assert_eq!(cpu.regs.s, 0xFD - 3);
}

#[test]
fn scenario_undefined_opcode_is_reported() {
    let (mut cpu, mut ppu) = machine_with(&[0x02]);
    let r = cpu.step(&mut ppu);
    assert_eq!(r, Err(CpuError::UndefinedOpcode { opcode: 0x02, pc: 0x8000 }));
}

#[test]
fn scenario_reserved_bit_reads_one_after_instructions() {
    let (mut cpu, mut ppu) = machine_with(&[0xA9, 0x00, 0x48, 0x28, 0xEA]);
    assert_ne!(cpu.regs.p & 0x20, 0);
    // LDA #0; PHA; PLP (pulls an all-zero status image); NOP
    run(&mut cpu, &mut ppu, 2 + 3 + 4 + 2);
    assert_ne!(cpu.regs.p & 0x20, 0, "even a pulled zero image reads reserved as one");
}

#[test]
fn scenario_rmw_dummy_write_is_observable() {
    // INC $0200 writes the unchanged byte back one cycle before the result.
    let (mut cpu, mut ppu) = machine_with(&[0xEE, 0x00, 0x02]);
    cpu.mem.raw_write_b(0x0200, 0x41);
    run(&mut cpu, &mut ppu, 5);
    assert_eq!(cpu.mem.ram[0x0200], 0x41, "the dummy write restores the original");
    run(&mut cpu, &mut ppu, 1);
    assert_eq!(cpu.mem.ram[0x0200], 0x42);
}

#[test]
fn scenario_page_cross_costs_one_cycle() {
    // LDA $01F0,X with X = 0x20 crosses a page: 5 cycles, not 4.
    let (mut cpu, mut ppu) = machine_with(&[0xA2, 0x20, 0xBD, 0xF0, 0x01]);
    cpu.mem.raw_write_b(0x0210, 0x99);
    run(&mut cpu, &mut ppu, 2);
    run(&mut cpu, &mut ppu, 4);
    assert!(!at_instruction_boundary(&cpu), "the fourth cycle is not the last");
    run(&mut cpu, &mut ppu, 1);
    assert!(at_instruction_boundary(&cpu));
    assert_eq!(cpu.regs.a, 0x99);
}
