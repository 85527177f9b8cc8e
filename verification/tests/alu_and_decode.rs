//! Unit tests of the register file's arithmetic, the flag updates and the
//! instruction table.

use fami_rust::cpu::{Registers, FLAG_CARRY, FLAG_NEGATIVE, FLAG_OVERFLOW, FLAG_ZERO};
use fami_rust::cpu::decoder::decode;
use fami_rust::cpu::instruction::{AddrMode, Destination, OpCore, Template};
use fami_rust::util::make_addr;

fn regs() -> Registers {
    Registers { a: 0, x: 0, y: 0, s: 0xFD, p: 0x24, pc: 0x8000 }
}

#[test]
fn adc_sets_carry_and_wraps() {
    let mut r = regs();
    r.a = 0xFF;
    r.p |= FLAG_CARRY;
    r.a_add(0xFF);
    // 0xFF + 0xFF + 1 = 0x1FF
    assert_eq!(r.a, 0xFF);
    assert_ne!(r.p & FLAG_CARRY, 0);
    assert_eq!(r.p & FLAG_OVERFLOW, 0);
    assert_ne!(r.p & FLAG_NEGATIVE, 0);
}

#[test]
fn adc_overflow_on_signed_boundary() {
    let mut r = regs();
    r.a = 0x50;
    r.a_add(0x50);
    assert_eq!(r.a, 0xA0);
    assert_ne!(r.p & FLAG_OVERFLOW, 0);
    assert_eq!(r.p & FLAG_CARRY, 0);
}

#[test]
fn sbc_is_adc_of_inverted_operand() {
    let mut r = regs();
    r.a = 0x50;
    r.p |= FLAG_CARRY;
    r.a_sub(0xF0);
    assert_eq!(r.a, 0x60);
    assert_eq!(r.p & FLAG_CARRY, 0, "borrow occurred");
}

#[test]
fn cmp_carry_zero_negative() {
    let mut r = regs();
    r.cmp(0x40, 0x40);
    assert_ne!(r.p & FLAG_CARRY, 0);
    assert_ne!(r.p & FLAG_ZERO, 0);
    r.cmp(0x10, 0x20);
    assert_eq!(r.p & FLAG_CARRY, 0);
    assert_eq!(r.p & FLAG_ZERO, 0);
    assert_ne!(r.p & FLAG_NEGATIVE, 0, "0x10 - 0x20 = 0xF0");
    r.cmp(0x20, 0x00);
    assert_ne!(r.p & FLAG_CARRY, 0, "comparing with zero always carries");
}

#[test]
fn loads_set_negative_and_zero() {
    let mut r = regs();
    r.a_set(0x00);
    assert_ne!(r.p & FLAG_ZERO, 0);
    r.x_set(0x80);
    assert_ne!(r.p & FLAG_NEGATIVE, 0);
    assert_eq!(r.x, 0x80);
    r.y_set(0x7F);
    assert_eq!(r.y, 0x7F);
    assert_eq!(r.p & FLAG_NEGATIVE, 0);
    assert_eq!(r.p & FLAG_ZERO, 0);
}

#[test]
fn flag_helpers_set_and_clear() {
    let mut r = regs();
    r.flags_on(FLAG_CARRY | FLAG_OVERFLOW);
    assert!(r.int_disabled());
    assert_ne!(r.p & FLAG_CARRY, 0);
    r.flags_off(FLAG_CARRY);
    assert_eq!(r.p & FLAG_CARRY, 0);
    assert_ne!(r.p & FLAG_OVERFLOW, 0);
}

#[test]
fn make_addr_assembles_bytes() {
    assert_eq!(make_addr(0x12, 0x34), 0x1234);
    assert_eq!(make_addr(0x00, 0xFF), 0x00FF);
    assert_eq!(make_addr(0xFF, 0x00), 0xFF00);
}

#[test]
fn decode_maps_documented_opcodes() {
    let lda_imm = decode(0xA9).expect("defined");
    assert_eq!(lda_imm.last_cycle, 2);
    assert_eq!(lda_imm.inst.core, OpCore::Lda);
    assert_eq!(lda_imm.inst.template, Template::Immediate);
    assert_eq!(lda_imm.inst.dst, Destination::Register);
    assert_eq!(lda_imm.inst.addr_mode, AddrMode::Immediate);

    let sta_abs = decode(0x8D).expect("defined");
    assert_eq!(sta_abs.last_cycle, 4);
    assert_eq!(sta_abs.inst.core, OpCore::Sta);
    assert_eq!(sta_abs.inst.dst, Destination::Memory);

    let inc_absx = decode(0xFE).expect("defined");
    assert_eq!(inc_absx.last_cycle, 7);
    assert_eq!(inc_absx.inst.template, Template::IndexedAbsoluteXRmw);

    let bcs = decode(0xB0).expect("defined");
    assert_eq!(bcs.inst.template, Template::Relative);
    assert_eq!(bcs.inst.core, OpCore::Bcs);
}

#[test]
fn decode_rejects_undefined_opcodes() {
    assert!(decode(0x00).is_none(), "BRK is handled at fetch, not by the table");
    assert!(decode(0x02).is_none());
    assert!(decode(0xFF).is_none());
    assert!(decode(0x80).is_none());
}

#[test]
fn decode_covers_exactly_the_documented_set() {
    let defined = (0u16..=255).filter(|op| decode(*op as u8).is_some()).count();
    assert_eq!(defined, 150);
}
