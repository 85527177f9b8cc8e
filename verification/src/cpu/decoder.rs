//! The instruction decoder: from an opcode byte to its table entry.

use vstd::prelude::*;
use crate::cpu::instruction::{
    spec_decode, spec_inst, spec_dummy_inst, inst_wf, make_inst, Instruction, OpCore, Template,
};

verus! {

/// The cycle budget and table entry of the instruction being executed.  The
/// budget starts at the entry's base cycle count and grows when a page is
/// crossed or a branch is taken.
#[derive(Debug, PartialEq, Eq, Structural, Clone, Copy)]
pub struct Executer {
    /// The cycle at which the instruction completes, as known so far.
    pub last_cycle: u8,
    /// The table entry being executed.
    pub inst: Instruction,
}

impl Default for Executer {
    /// The placeholder carried while no instruction is loaded.
    fn default() -> (r: Self)
        ensures
            r == (Executer { last_cycle: 0, inst: spec_dummy_inst() }),
    {
        Executer { last_cycle: 0, inst: make_inst(OpCore::Nop, Template::Implied) }
    }
}

/// What `decode` returns: the table entry with its base cycle budget.
pub open spec fn spec_decode_executer(opcode: u8) -> Option<Executer> {
    match spec_decode(opcode) {
        Some(i) => Some(Executer { last_cycle: i.min_clock, inst: i }),
        None => None,
    }
}

/// Looks an opcode up in the instruction table.  Returns the entry with its
/// base cycle budget, or nothing for an undefined opcode.
#[verifier::rlimit(100)]
pub fn decode(opcode: u8) -> (r: Option<Executer>)
    ensures
        r == spec_decode_executer(opcode),
        r matches Some(e) ==> inst_wf(e.inst) && e.last_cycle == e.inst.min_clock,
{
    let inst: Option<Instruction> = match opcode {
        0x01u8 => Some(make_inst(OpCore::Ora, Template::IndexedIndirectX)),
        0x05u8 => Some(make_inst(OpCore::Ora, Template::ZeroPage)),
        0x06u8 => Some(make_inst(OpCore::Asl, Template::ZeroPageRmw)),
        0x08u8 => Some(make_inst(OpCore::Php, Template::PushStack)),
        0x09u8 => Some(make_inst(OpCore::Ora, Template::Immediate)),
        0x0Au8 => Some(make_inst(OpCore::Asl, Template::Accumulator)),
        0x0Du8 => Some(make_inst(OpCore::Ora, Template::Absolute)),
        0x0Eu8 => Some(make_inst(OpCore::Asl, Template::AbsoluteRmw)),
        0x10u8 => Some(make_inst(OpCore::Bpl, Template::Relative)),
        0x11u8 => Some(make_inst(OpCore::Ora, Template::IndirectIndexedY)),
        0x15u8 => Some(make_inst(OpCore::Ora, Template::IndexedZeroPageX)),
        0x16u8 => Some(make_inst(OpCore::Asl, Template::IndexedZeroPageXRmw)),
        0x18u8 => Some(make_inst(OpCore::Clc, Template::Implied)),
        0x19u8 => Some(make_inst(OpCore::Ora, Template::IndexedAbsoluteY)),
        0x1Du8 => Some(make_inst(OpCore::Ora, Template::IndexedAbsoluteX)),
        0x1Eu8 => Some(make_inst(OpCore::Asl, Template::IndexedAbsoluteXRmw)),
        0x20u8 => Some(make_inst(OpCore::Jsr, Template::Jsr)),
        0x21u8 => Some(make_inst(OpCore::And, Template::IndexedIndirectX)),
        0x24u8 => Some(make_inst(OpCore::Bit, Template::ZeroPage)),
        0x25u8 => Some(make_inst(OpCore::And, Template::ZeroPage)),
        0x26u8 => Some(make_inst(OpCore::Rol, Template::ZeroPageRmw)),
        0x28u8 => Some(make_inst(OpCore::Plp, Template::PullStack)),
        0x29u8 => Some(make_inst(OpCore::And, Template::Immediate)),
        0x2Au8 => Some(make_inst(OpCore::Rol, Template::Accumulator)),
        0x2Cu8 => Some(make_inst(OpCore::Bit, Template::Absolute)),
        0x2Du8 => Some(make_inst(OpCore::And, Template::Absolute)),
        0x2Eu8 => Some(make_inst(OpCore::Rol, Template::AbsoluteRmw)),
        0x30u8 => Some(make_inst(OpCore::Bmi, Template::Relative)),
        0x31u8 => Some(make_inst(OpCore::And, Template::IndirectIndexedY)),
        0x35u8 => Some(make_inst(OpCore::And, Template::IndexedZeroPageX)),
        0x36u8 => Some(make_inst(OpCore::Rol, Template::IndexedZeroPageXRmw)),
        0x38u8 => Some(make_inst(OpCore::Sec, Template::Implied)),
        0x39u8 => Some(make_inst(OpCore::And, Template::IndexedAbsoluteY)),
        0x3Du8 => Some(make_inst(OpCore::And, Template::IndexedAbsoluteX)),
        0x3Eu8 => Some(make_inst(OpCore::Rol, Template::IndexedAbsoluteXRmw)),
        0x40u8 => Some(make_inst(OpCore::Rti, Template::Rti)),
        0x41u8 => Some(make_inst(OpCore::Eor, Template::IndexedIndirectX)),
        0x45u8 => Some(make_inst(OpCore::Eor, Template::ZeroPage)),
        0x46u8 => Some(make_inst(OpCore::Lsr, Template::ZeroPageRmw)),
        0x48u8 => Some(make_inst(OpCore::Pha, Template::PushStack)),
        0x49u8 => Some(make_inst(OpCore::Eor, Template::Immediate)),
        0x4Au8 => Some(make_inst(OpCore::Lsr, Template::Accumulator)),
        0x4Cu8 => Some(make_inst(OpCore::Jmp, Template::AbsoluteJmp)),
        0x4Du8 => Some(make_inst(OpCore::Eor, Template::Absolute)),
        0x4Eu8 => Some(make_inst(OpCore::Lsr, Template::AbsoluteRmw)),
        0x50u8 => Some(make_inst(OpCore::Bvc, Template::Relative)),
        0x51u8 => Some(make_inst(OpCore::Eor, Template::IndirectIndexedY)),
        0x55u8 => Some(make_inst(OpCore::Eor, Template::IndexedZeroPageX)),
        0x56u8 => Some(make_inst(OpCore::Lsr, Template::IndexedZeroPageXRmw)),
        0x58u8 => Some(make_inst(OpCore::Cli, Template::Implied)),
        0x59u8 => Some(make_inst(OpCore::Eor, Template::IndexedAbsoluteY)),
        0x5Du8 => Some(make_inst(OpCore::Eor, Template::IndexedAbsoluteX)),
        0x5Eu8 => Some(make_inst(OpCore::Lsr, Template::IndexedAbsoluteXRmw)),
        0x60u8 => Some(make_inst(OpCore::Rts, Template::Rts)),
        0x61u8 => Some(make_inst(OpCore::Adc, Template::IndexedIndirectX)),
        0x65u8 => Some(make_inst(OpCore::Adc, Template::ZeroPage)),
        0x66u8 => Some(make_inst(OpCore::Ror, Template::ZeroPageRmw)),
        0x68u8 => Some(make_inst(OpCore::Pla, Template::PullStack)),
        0x69u8 => Some(make_inst(OpCore::Adc, Template::Immediate)),
        0x6Au8 => Some(make_inst(OpCore::Ror, Template::Accumulator)),
        0x6Cu8 => Some(make_inst(OpCore::Jmp, Template::IndirectJmp)),
        0x6Du8 => Some(make_inst(OpCore::Adc, Template::Absolute)),
        0x6Eu8 => Some(make_inst(OpCore::Ror, Template::AbsoluteRmw)),
        0x70u8 => Some(make_inst(OpCore::Bvs, Template::Relative)),
        0x71u8 => Some(make_inst(OpCore::Adc, Template::IndirectIndexedY)),
        0x75u8 => Some(make_inst(OpCore::Adc, Template::IndexedZeroPageX)),
        0x76u8 => Some(make_inst(OpCore::Ror, Template::IndexedZeroPageXRmw)),
        0x78u8 => Some(make_inst(OpCore::Sei, Template::Implied)),
        0x79u8 => Some(make_inst(OpCore::Adc, Template::IndexedAbsoluteY)),
        0x7Du8 => Some(make_inst(OpCore::Adc, Template::IndexedAbsoluteX)),
        0x7Eu8 => Some(make_inst(OpCore::Ror, Template::IndexedAbsoluteXRmw)),
        0x81u8 => Some(make_inst(OpCore::Sta, Template::IndexedIndirectX)),
        0x84u8 => Some(make_inst(OpCore::Sty, Template::ZeroPage)),
        0x85u8 => Some(make_inst(OpCore::Sta, Template::ZeroPage)),
        0x86u8 => Some(make_inst(OpCore::Stx, Template::ZeroPage)),
        0x88u8 => Some(make_inst(OpCore::Dey, Template::Implied)),
        0x8Au8 => Some(make_inst(OpCore::Txa, Template::Implied)),
        0x8Cu8 => Some(make_inst(OpCore::Sty, Template::Absolute)),
        0x8Du8 => Some(make_inst(OpCore::Sta, Template::Absolute)),
        0x8Eu8 => Some(make_inst(OpCore::Stx, Template::Absolute)),
        0x90u8 => Some(make_inst(OpCore::Bcc, Template::Relative)),
        0x91u8 => Some(make_inst(OpCore::Sta, Template::IndirectIndexedY)),
        0x94u8 => Some(make_inst(OpCore::Sty, Template::IndexedZeroPageX)),
        0x95u8 => Some(make_inst(OpCore::Sta, Template::IndexedZeroPageX)),
        0x96u8 => Some(make_inst(OpCore::Stx, Template::IndexedZeroPageY)),
        0x98u8 => Some(make_inst(OpCore::Tya, Template::Implied)),
        0x99u8 => Some(make_inst(OpCore::Sta, Template::IndexedAbsoluteY)),
        0x9Au8 => Some(make_inst(OpCore::Txs, Template::Implied)),
        0x9Du8 => Some(make_inst(OpCore::Sta, Template::IndexedAbsoluteX)),
        0xA0u8 => Some(make_inst(OpCore::Ldy, Template::Immediate)),
        0xA1u8 => Some(make_inst(OpCore::Lda, Template::IndexedIndirectX)),
        0xA2u8 => Some(make_inst(OpCore::Ldx, Template::Immediate)),
        0xA4u8 => Some(make_inst(OpCore::Ldy, Template::ZeroPage)),
        0xA5u8 => Some(make_inst(OpCore::Lda, Template::ZeroPage)),
        0xA6u8 => Some(make_inst(OpCore::Ldx, Template::ZeroPage)),
        0xA8u8 => Some(make_inst(OpCore::Tay, Template::Implied)),
        0xA9u8 => Some(make_inst(OpCore::Lda, Template::Immediate)),
        0xAAu8 => Some(make_inst(OpCore::Tax, Template::Implied)),
        0xACu8 => Some(make_inst(OpCore::Ldy, Template::Absolute)),
        0xADu8 => Some(make_inst(OpCore::Lda, Template::Absolute)),
        0xAEu8 => Some(make_inst(OpCore::Ldx, Template::Absolute)),
        0xB0u8 => Some(make_inst(OpCore::Bcs, Template::Relative)),
        0xB1u8 => Some(make_inst(OpCore::Lda, Template::IndirectIndexedY)),
        0xB4u8 => Some(make_inst(OpCore::Ldy, Template::IndexedZeroPageX)),
        0xB5u8 => Some(make_inst(OpCore::Lda, Template::IndexedZeroPageX)),
        0xB6u8 => Some(make_inst(OpCore::Ldx, Template::IndexedZeroPageY)),
        0xB8u8 => Some(make_inst(OpCore::Clv, Template::Implied)),
        0xB9u8 => Some(make_inst(OpCore::Lda, Template::IndexedAbsoluteY)),
        0xBAu8 => Some(make_inst(OpCore::Tsx, Template::Implied)),
        0xBCu8 => Some(make_inst(OpCore::Ldy, Template::IndexedAbsoluteX)),
        0xBDu8 => Some(make_inst(OpCore::Lda, Template::IndexedAbsoluteX)),
        0xBEu8 => Some(make_inst(OpCore::Ldx, Template::IndexedAbsoluteY)),
        0xC0u8 => Some(make_inst(OpCore::Cpy, Template::Immediate)),
        0xC1u8 => Some(make_inst(OpCore::Cmp, Template::IndexedIndirectX)),
        0xC4u8 => Some(make_inst(OpCore::Cpy, Template::ZeroPage)),
        0xC5u8 => Some(make_inst(OpCore::Cmp, Template::ZeroPage)),
        0xC6u8 => Some(make_inst(OpCore::Dec, Template::ZeroPageRmw)),
        0xC8u8 => Some(make_inst(OpCore::Iny, Template::Implied)),
        0xC9u8 => Some(make_inst(OpCore::Cmp, Template::Immediate)),
        0xCAu8 => Some(make_inst(OpCore::Dex, Template::Implied)),
        0xCCu8 => Some(make_inst(OpCore::Cpy, Template::Absolute)),
        0xCDu8 => Some(make_inst(OpCore::Cmp, Template::Absolute)),
        0xCEu8 => Some(make_inst(OpCore::Dec, Template::AbsoluteRmw)),
        0xD0u8 => Some(make_inst(OpCore::Bne, Template::Relative)),
        0xD1u8 => Some(make_inst(OpCore::Cmp, Template::IndirectIndexedY)),
        0xD5u8 => Some(make_inst(OpCore::Cmp, Template::IndexedZeroPageX)),
        0xD6u8 => Some(make_inst(OpCore::Dec, Template::IndexedZeroPageXRmw)),
        0xD8u8 => Some(make_inst(OpCore::Cld, Template::Implied)),
        0xD9u8 => Some(make_inst(OpCore::Cmp, Template::IndexedAbsoluteY)),
        0xDDu8 => Some(make_inst(OpCore::Cmp, Template::IndexedAbsoluteX)),
        0xDEu8 => Some(make_inst(OpCore::Dec, Template::IndexedAbsoluteXRmw)),
        0xE0u8 => Some(make_inst(OpCore::Cpx, Template::Immediate)),
        0xE1u8 => Some(make_inst(OpCore::Sbc, Template::IndexedIndirectX)),
        0xE4u8 => Some(make_inst(OpCore::Cpx, Template::ZeroPage)),
        0xE5u8 => Some(make_inst(OpCore::Sbc, Template::ZeroPage)),
        0xE6u8 => Some(make_inst(OpCore::Inc, Template::ZeroPageRmw)),
        0xE8u8 => Some(make_inst(OpCore::Inx, Template::Implied)),
        0xE9u8 => Some(make_inst(OpCore::Sbc, Template::Immediate)),
        0xEAu8 => Some(make_inst(OpCore::Nop, Template::Implied)),
        0xECu8 => Some(make_inst(OpCore::Cpx, Template::Absolute)),
        0xEDu8 => Some(make_inst(OpCore::Sbc, Template::Absolute)),
        0xEEu8 => Some(make_inst(OpCore::Inc, Template::AbsoluteRmw)),
        0xF0u8 => Some(make_inst(OpCore::Beq, Template::Relative)),
        0xF1u8 => Some(make_inst(OpCore::Sbc, Template::IndirectIndexedY)),
        0xF5u8 => Some(make_inst(OpCore::Sbc, Template::IndexedZeroPageX)),
        0xF6u8 => Some(make_inst(OpCore::Inc, Template::IndexedZeroPageXRmw)),
        0xF8u8 => Some(make_inst(OpCore::Sed, Template::Implied)),
        0xF9u8 => Some(make_inst(OpCore::Sbc, Template::IndexedAbsoluteY)),
        0xFDu8 => Some(make_inst(OpCore::Sbc, Template::IndexedAbsoluteX)),
        0xFEu8 => Some(make_inst(OpCore::Inc, Template::IndexedAbsoluteXRmw)),
        _ => None,
    };
    match inst {
        Some(i) => Some(Executer { last_cycle: i.min_clock, inst: i }),
        None => None,
    }
}

} // verus!
