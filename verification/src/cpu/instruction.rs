//! The instruction table: addressing templates, operation cores, and the
//! 256-entry opcode map.

use vstd::prelude::*;

verus! {

/// The addressing mode an opcode uses, as documentation alongside the
/// template that drives its cycle-by-cycle execution.
#[derive(Debug, PartialEq, Eq, Structural, Clone, Copy)]
pub enum AddrMode {
    /// The operand is the accumulator itself.
    Accumulator,
    /// The operand is the byte after the opcode.
    Immediate,
    /// A 16-bit address names the operand.
    Absolute,
    /// An 8-bit address names the operand in the zero page.
    ZeroPage,
    /// A 16-bit address plus X names the operand.
    IndexedAbsoluteX,
    /// A 16-bit address plus Y names the operand.
    IndexedAbsoluteY,
    /// An 8-bit address plus an index register names the operand, staying in
    /// the zero page.
    IndexedZeroPageX,
    /// An 8-bit address plus X names a zero-page pointer to the operand.
    IndexedIndirectX,
    /// An 8-bit address names a zero-page pointer; the pointer plus Y names
    /// the operand.
    IndirectIndexedY,
    /// A 16-bit address names a pointer to the jump target.
    Indirect,
    /// A signed 8-bit offset from the program counter names the branch
    /// target.
    Relative,
    /// The instruction needs no operand address.
    Implied,
}

/// Whether an instruction's result lands in a register or in memory.
#[derive(Debug, PartialEq, Eq, Structural, Clone, Copy)]
pub enum Destination {
    /// The result lands in a register (or nowhere).
    Register,
    /// The result lands in memory.
    Memory,
}

/// The per-cycle script an opcode follows: one template per addressing
/// shape, with separate scripts for the read-modify-write forms, the jumps,
/// the stack instructions and the branches.
#[derive(Debug, PartialEq, Eq, Structural, Clone, Copy)]
pub enum Template {
    /// The Immediate cycle script.
    Immediate,
    /// The ZeroPage cycle script.
    ZeroPage,
    /// The IndexedZeroPageX cycle script.
    IndexedZeroPageX,
    /// The IndexedZeroPageY cycle script.
    IndexedZeroPageY,
    /// The Absolute cycle script.
    Absolute,
    /// The Implied cycle script.
    Implied,
    /// The IndexedAbsoluteX cycle script.
    IndexedAbsoluteX,
    /// The IndexedAbsoluteY cycle script.
    IndexedAbsoluteY,
    /// The IndexedIndirectX cycle script.
    IndexedIndirectX,
    /// The IndirectIndexedY cycle script.
    IndirectIndexedY,
    /// The PullStack cycle script.
    PullStack,
    /// The PushStack cycle script.
    PushStack,
    /// The Rti cycle script.
    Rti,
    /// The Rts cycle script.
    Rts,
    /// The Jsr cycle script.
    Jsr,
    /// The Accumulator cycle script.
    Accumulator,
    /// The ZeroPageRmw cycle script.
    ZeroPageRmw,
    /// The IndexedZeroPageXRmw cycle script.
    IndexedZeroPageXRmw,
    /// The AbsoluteRmw cycle script.
    AbsoluteRmw,
    /// The IndexedAbsoluteXRmw cycle script.
    IndexedAbsoluteXRmw,
    /// The AbsoluteJmp cycle script.
    AbsoluteJmp,
    /// The IndirectJmp cycle script.
    IndirectJmp,
    /// The Relative cycle script.
    Relative,
}

/// The operation an opcode performs at its template's semantic point.
#[derive(Debug, PartialEq, Eq, Structural, Clone, Copy)]
pub enum OpCore {
    /// ORA.
    Ora,
    /// AND.
    And,
    /// EOR.
    Eor,
    /// ADC.
    Adc,
    /// STA.
    Sta,
    /// LDA.
    Lda,
    /// CMP.
    Cmp,
    /// SBC.
    Sbc,
    /// STX.
    Stx,
    /// LDX.
    Ldx,
    /// BIT.
    Bit,
    /// STY.
    Sty,
    /// LDY.
    Ldy,
    /// CPY.
    Cpy,
    /// CPX.
    Cpx,
    /// ASL.
    Asl,
    /// ROL.
    Rol,
    /// LSR.
    Lsr,
    /// ROR.
    Ror,
    /// DEC.
    Dec,
    /// INC.
    Inc,
    /// DEY.
    Dey,
    /// TAY.
    Tay,
    /// INY.
    Iny,
    /// INX.
    Inx,
    /// CLC.
    Clc,
    /// SEC.
    Sec,
    /// CLI.
    Cli,
    /// SEI.
    Sei,
    /// TYA.
    Tya,
    /// CLV.
    Clv,
    /// CLD.
    Cld,
    /// SED.
    Sed,
    /// TXA.
    Txa,
    /// TXS.
    Txs,
    /// TAX.
    Tax,
    /// TSX.
    Tsx,
    /// DEX.
    Dex,
    /// NOP.
    Nop,
    /// BPL.
    Bpl,
    /// BMI.
    Bmi,
    /// BVC.
    Bvc,
    /// BVS.
    Bvs,
    /// BCC.
    Bcc,
    /// BCS.
    Bcs,
    /// BNE.
    Bne,
    /// BEQ.
    Beq,
    /// JMP.
    Jmp,
    /// JSR.
    Jsr,
    /// RTI.
    Rti,
    /// RTS.
    Rts,
    /// PHP.
    Php,
    /// PLP.
    Plp,
    /// PHA.
    Pha,
    /// PLA.
    Pla,
}

/// One entry of the instruction table.
#[derive(Debug, PartialEq, Eq, Structural, Clone, Copy)]
pub struct Instruction {
    /// The operation core.
    pub core: OpCore,
    /// Whether the core's result lands in a register or in memory.
    pub dst: Destination,
    /// The addressing mode, as documentation.
    pub addr_mode: AddrMode,
    /// The per-cycle script.
    pub template: Template,
    /// The cycle count of the shortest path through the template.
    pub min_clock: u8,
}

/// The base cycle count of a template: the cycles the instruction takes when
/// no page is crossed and no branch is taken.
pub open spec fn template_base(t: Template) -> u8 {
    match t {
        Template::Immediate => 2u8,
        Template::ZeroPage => 3u8,
        Template::IndexedZeroPageX => 4u8,
        Template::IndexedZeroPageY => 4u8,
        Template::Absolute => 4u8,
        Template::Implied => 2u8,
        Template::IndexedAbsoluteX => 4u8,
        Template::IndexedAbsoluteY => 4u8,
        Template::IndexedIndirectX => 6u8,
        Template::IndirectIndexedY => 5u8,
        Template::PullStack => 4u8,
        Template::PushStack => 3u8,
        Template::Rti => 6u8,
        Template::Rts => 6u8,
        Template::Jsr => 6u8,
        Template::Accumulator => 2u8,
        Template::ZeroPageRmw => 5u8,
        Template::IndexedZeroPageXRmw => 6u8,
        Template::AbsoluteRmw => 6u8,
        Template::IndexedAbsoluteXRmw => 7u8,
        Template::AbsoluteJmp => 3u8,
        Template::IndirectJmp => 5u8,
        Template::Relative => 2u8,
    }
}

/// The last sub-cycle at which a template's script can be entered.
pub open spec fn template_cap(t: Template) -> u8 {
    match t {
        Template::Immediate => 2u8,
        Template::ZeroPage => 3u8,
        Template::IndexedZeroPageX => 4u8,
        Template::IndexedZeroPageY => 4u8,
        Template::Absolute => 4u8,
        Template::Implied => 2u8,
        Template::IndexedAbsoluteX => 5u8,
        Template::IndexedAbsoluteY => 5u8,
        Template::IndexedIndirectX => 6u8,
        Template::IndirectIndexedY => 6u8,
        Template::PullStack => 4u8,
        Template::PushStack => 3u8,
        Template::Rti => 6u8,
        Template::Rts => 6u8,
        Template::Jsr => 6u8,
        Template::Accumulator => 2u8,
        Template::ZeroPageRmw => 5u8,
        Template::IndexedZeroPageXRmw => 6u8,
        Template::AbsoluteRmw => 6u8,
        Template::IndexedAbsoluteXRmw => 7u8,
        Template::AbsoluteJmp => 3u8,
        Template::IndirectJmp => 5u8,
        Template::Relative => 4u8,
    }
}

/// The cycle budget a template carries when its next scripted cycle is
/// `next_arm`: templates grow their budget when a page is crossed or a
/// branch is taken, and this pins the budget each cycle can see.
pub open spec fn counter_last_ok(t: Template, next_arm: int, last: u8) -> bool {
    match t {
        Template::IndexedAbsoluteX | Template::IndexedAbsoluteY => last == (if next_arm <= 4 {
            4int
        } else {
            5int
        }),
        Template::IndirectIndexedY => last == (if next_arm <= 5 {
            5int
        } else {
            6int
        }),
        Template::Relative => last == (if next_arm <= 2 {
            2int
        } else if next_arm == 3 {
            3int
        } else {
            4int
        }),
        _ => last == template_base(t),
    }
}

/// The addressing mode a template realises.
pub open spec fn template_addr_mode(t: Template) -> AddrMode {
    match t {
        Template::Immediate => AddrMode::Immediate,
        Template::ZeroPage => AddrMode::ZeroPage,
        Template::IndexedZeroPageX => AddrMode::IndexedZeroPageX,
        Template::IndexedZeroPageY => AddrMode::IndexedZeroPageX,
        Template::Absolute => AddrMode::Absolute,
        Template::Implied => AddrMode::Implied,
        Template::IndexedAbsoluteX => AddrMode::IndexedAbsoluteX,
        Template::IndexedAbsoluteY => AddrMode::IndexedAbsoluteY,
        Template::IndexedIndirectX => AddrMode::IndexedIndirectX,
        Template::IndirectIndexedY => AddrMode::IndirectIndexedY,
        Template::PullStack => AddrMode::Implied,
        Template::PushStack => AddrMode::Implied,
        Template::Rti => AddrMode::Implied,
        Template::Rts => AddrMode::Implied,
        Template::Jsr => AddrMode::Absolute,
        Template::Accumulator => AddrMode::Accumulator,
        Template::ZeroPageRmw => AddrMode::ZeroPage,
        Template::IndexedZeroPageXRmw => AddrMode::IndexedZeroPageX,
        Template::AbsoluteRmw => AddrMode::Absolute,
        Template::IndexedAbsoluteXRmw => AddrMode::IndexedAbsoluteX,
        Template::AbsoluteJmp => AddrMode::Absolute,
        Template::IndirectJmp => AddrMode::Indirect,
        Template::Relative => AddrMode::Relative,
    }
}

/// Whether a core stores a register into memory.
pub open spec fn core_dst(c: OpCore) -> Destination {
    match c {
        OpCore::Sta | OpCore::Stx | OpCore::Sty => Destination::Memory,
        _ => Destination::Register,
    }
}

/// The cores that consume or produce a value through a read or write
/// template.
pub open spec fn is_value_core(c: OpCore) -> bool {
    ||| c == OpCore::Ora
    ||| c == OpCore::And
    ||| c == OpCore::Eor
    ||| c == OpCore::Adc
    ||| c == OpCore::Sta
    ||| c == OpCore::Lda
    ||| c == OpCore::Cmp
    ||| c == OpCore::Sbc
    ||| c == OpCore::Stx
    ||| c == OpCore::Ldx
    ||| c == OpCore::Bit
    ||| c == OpCore::Sty
    ||| c == OpCore::Ldy
    ||| c == OpCore::Cpy
    ||| c == OpCore::Cpx
}

/// The shift and rotate cores, the only ones the accumulator template runs.
pub open spec fn is_shift_core(c: OpCore) -> bool {
    ||| c == OpCore::Asl
    ||| c == OpCore::Rol
    ||| c == OpCore::Lsr
    ||| c == OpCore::Ror
}

/// The cores the read-modify-write templates run.
pub open spec fn is_rmw_core(c: OpCore) -> bool {
    ||| c == OpCore::Asl
    ||| c == OpCore::Rol
    ||| c == OpCore::Lsr
    ||| c == OpCore::Ror
    ||| c == OpCore::Dec
    ||| c == OpCore::Inc
}

/// The cores of the one-byte instructions that touch registers and flags
/// only.
pub open spec fn is_implied_core(c: OpCore) -> bool {
    ||| c == OpCore::Dey
    ||| c == OpCore::Tay
    ||| c == OpCore::Iny
    ||| c == OpCore::Inx
    ||| c == OpCore::Clc
    ||| c == OpCore::Sec
    ||| c == OpCore::Cli
    ||| c == OpCore::Sei
    ||| c == OpCore::Tya
    ||| c == OpCore::Clv
    ||| c == OpCore::Cld
    ||| c == OpCore::Sed
    ||| c == OpCore::Txa
    ||| c == OpCore::Txs
    ||| c == OpCore::Tax
    ||| c == OpCore::Tsx
    ||| c == OpCore::Dex
    ||| c == OpCore::Nop
}

/// The branch cores.
pub open spec fn is_branch_core(c: OpCore) -> bool {
    ||| c == OpCore::Bpl
    ||| c == OpCore::Bmi
    ||| c == OpCore::Bvc
    ||| c == OpCore::Bvs
    ||| c == OpCore::Bcc
    ||| c == OpCore::Bcs
    ||| c == OpCore::Bne
    ||| c == OpCore::Beq
}

/// Which cores each template may carry; the table only builds such pairs.
pub open spec fn template_core_ok(t: Template, c: OpCore) -> bool {
    match t {
        Template::Immediate => is_value_core(c) && core_dst(c) == Destination::Register,
        Template::ZeroPage | Template::IndexedZeroPageX | Template::IndexedZeroPageY
            | Template::Absolute | Template::IndexedAbsoluteX | Template::IndexedAbsoluteY
            | Template::IndexedIndirectX | Template::IndirectIndexedY => is_value_core(c),
        Template::Implied => is_implied_core(c),
        Template::Accumulator => is_shift_core(c),
        Template::ZeroPageRmw | Template::IndexedZeroPageXRmw | Template::AbsoluteRmw
            | Template::IndexedAbsoluteXRmw => is_rmw_core(c),
        Template::PushStack => c == OpCore::Pha || c == OpCore::Php,
        Template::PullStack => c == OpCore::Pla || c == OpCore::Plp,
        Template::Relative => is_branch_core(c),
        Template::Jsr => c == OpCore::Jsr,
        Template::Rti => c == OpCore::Rti,
        Template::Rts => c == OpCore::Rts,
        Template::AbsoluteJmp | Template::IndirectJmp => c == OpCore::Jmp,
    }
}

/// A well-formed table entry: its fields agree with its template and core.
pub open spec fn inst_wf(i: Instruction) -> bool {
    &&& i.min_clock == template_base(i.template)
    &&& i.dst == core_dst(i.core)
    &&& i.addr_mode == template_addr_mode(i.template)
    &&& template_core_ok(i.template, i.core)
}

/// The table entry for a core and template pair.
pub open spec fn spec_inst(core: OpCore, template: Template) -> Instruction {
    Instruction {
        core,
        dst: core_dst(core),
        addr_mode: template_addr_mode(template),
        template,
        min_clock: template_base(template),
    }
}

/// Builds the table entry for a core and template pair.
pub fn make_inst(core: OpCore, template: Template) -> (r: Instruction)
    ensures
        r == spec_inst(core, template),
{
    let dst = match core {
        OpCore::Sta | OpCore::Stx | OpCore::Sty => Destination::Memory,
        _ => Destination::Register,
    };
    let addr_mode = match template {
        Template::Immediate => AddrMode::Immediate,
        Template::ZeroPage => AddrMode::ZeroPage,
        Template::IndexedZeroPageX => AddrMode::IndexedZeroPageX,
        Template::IndexedZeroPageY => AddrMode::IndexedZeroPageX,
        Template::Absolute => AddrMode::Absolute,
        Template::Implied => AddrMode::Implied,
        Template::IndexedAbsoluteX => AddrMode::IndexedAbsoluteX,
        Template::IndexedAbsoluteY => AddrMode::IndexedAbsoluteY,
        Template::IndexedIndirectX => AddrMode::IndexedIndirectX,
        Template::IndirectIndexedY => AddrMode::IndirectIndexedY,
        Template::PullStack => AddrMode::Implied,
        Template::PushStack => AddrMode::Implied,
        Template::Rti => AddrMode::Implied,
        Template::Rts => AddrMode::Implied,
        Template::Jsr => AddrMode::Absolute,
        Template::Accumulator => AddrMode::Accumulator,
        Template::ZeroPageRmw => AddrMode::ZeroPage,
        Template::IndexedZeroPageXRmw => AddrMode::IndexedZeroPageX,
        Template::AbsoluteRmw => AddrMode::Absolute,
        Template::IndexedAbsoluteXRmw => AddrMode::IndexedAbsoluteX,
        Template::AbsoluteJmp => AddrMode::Absolute,
        Template::IndirectJmp => AddrMode::Indirect,
        Template::Relative => AddrMode::Relative,
    };
    let min_clock: u8 = match template {
        Template::Immediate => 2u8,
        Template::ZeroPage => 3u8,
        Template::IndexedZeroPageX => 4u8,
        Template::IndexedZeroPageY => 4u8,
        Template::Absolute => 4u8,
        Template::Implied => 2u8,
        Template::IndexedAbsoluteX => 4u8,
        Template::IndexedAbsoluteY => 4u8,
        Template::IndexedIndirectX => 6u8,
        Template::IndirectIndexedY => 5u8,
        Template::PullStack => 4u8,
        Template::PushStack => 3u8,
        Template::Rti => 6u8,
        Template::Rts => 6u8,
        Template::Jsr => 6u8,
        Template::Accumulator => 2u8,
        Template::ZeroPageRmw => 5u8,
        Template::IndexedZeroPageXRmw => 6u8,
        Template::AbsoluteRmw => 6u8,
        Template::IndexedAbsoluteXRmw => 7u8,
        Template::AbsoluteJmp => 3u8,
        Template::IndirectJmp => 5u8,
        Template::Relative => 2u8,
    };
    Instruction { core, dst, addr_mode, template, min_clock }
}

/// The placeholder entry carried while no instruction is loaded.
pub open spec fn spec_dummy_inst() -> Instruction {
    spec_inst(OpCore::Nop, Template::Implied)
}

/// The instruction the opcode maps to; an absent entry is an undefined
/// opcode.  The BRK opcode is absent because the fetch stage routes it to
/// the interrupt sequence directly.
pub open spec fn spec_decode(opcode: u8) -> Option<Instruction> {
    match opcode {
        0x01u8 => Some(spec_inst(OpCore::Ora, Template::IndexedIndirectX)),
        0x05u8 => Some(spec_inst(OpCore::Ora, Template::ZeroPage)),
        0x06u8 => Some(spec_inst(OpCore::Asl, Template::ZeroPageRmw)),
        0x08u8 => Some(spec_inst(OpCore::Php, Template::PushStack)),
        0x09u8 => Some(spec_inst(OpCore::Ora, Template::Immediate)),
        0x0Au8 => Some(spec_inst(OpCore::Asl, Template::Accumulator)),
        0x0Du8 => Some(spec_inst(OpCore::Ora, Template::Absolute)),
        0x0Eu8 => Some(spec_inst(OpCore::Asl, Template::AbsoluteRmw)),
        0x10u8 => Some(spec_inst(OpCore::Bpl, Template::Relative)),
        0x11u8 => Some(spec_inst(OpCore::Ora, Template::IndirectIndexedY)),
        0x15u8 => Some(spec_inst(OpCore::Ora, Template::IndexedZeroPageX)),
        0x16u8 => Some(spec_inst(OpCore::Asl, Template::IndexedZeroPageXRmw)),
        0x18u8 => Some(spec_inst(OpCore::Clc, Template::Implied)),
        0x19u8 => Some(spec_inst(OpCore::Ora, Template::IndexedAbsoluteY)),
        0x1Du8 => Some(spec_inst(OpCore::Ora, Template::IndexedAbsoluteX)),
        0x1Eu8 => Some(spec_inst(OpCore::Asl, Template::IndexedAbsoluteXRmw)),
        0x20u8 => Some(spec_inst(OpCore::Jsr, Template::Jsr)),
        0x21u8 => Some(spec_inst(OpCore::And, Template::IndexedIndirectX)),
        0x24u8 => Some(spec_inst(OpCore::Bit, Template::ZeroPage)),
        0x25u8 => Some(spec_inst(OpCore::And, Template::ZeroPage)),
        0x26u8 => Some(spec_inst(OpCore::Rol, Template::ZeroPageRmw)),
        0x28u8 => Some(spec_inst(OpCore::Plp, Template::PullStack)),
        0x29u8 => Some(spec_inst(OpCore::And, Template::Immediate)),
        0x2Au8 => Some(spec_inst(OpCore::Rol, Template::Accumulator)),
        0x2Cu8 => Some(spec_inst(OpCore::Bit, Template::Absolute)),
        0x2Du8 => Some(spec_inst(OpCore::And, Template::Absolute)),
        0x2Eu8 => Some(spec_inst(OpCore::Rol, Template::AbsoluteRmw)),
        0x30u8 => Some(spec_inst(OpCore::Bmi, Template::Relative)),
        0x31u8 => Some(spec_inst(OpCore::And, Template::IndirectIndexedY)),
        0x35u8 => Some(spec_inst(OpCore::And, Template::IndexedZeroPageX)),
        0x36u8 => Some(spec_inst(OpCore::Rol, Template::IndexedZeroPageXRmw)),
        0x38u8 => Some(spec_inst(OpCore::Sec, Template::Implied)),
        0x39u8 => Some(spec_inst(OpCore::And, Template::IndexedAbsoluteY)),
        0x3Du8 => Some(spec_inst(OpCore::And, Template::IndexedAbsoluteX)),
        0x3Eu8 => Some(spec_inst(OpCore::Rol, Template::IndexedAbsoluteXRmw)),
        0x40u8 => Some(spec_inst(OpCore::Rti, Template::Rti)),
        0x41u8 => Some(spec_inst(OpCore::Eor, Template::IndexedIndirectX)),
        0x45u8 => Some(spec_inst(OpCore::Eor, Template::ZeroPage)),
        0x46u8 => Some(spec_inst(OpCore::Lsr, Template::ZeroPageRmw)),
        0x48u8 => Some(spec_inst(OpCore::Pha, Template::PushStack)),
        0x49u8 => Some(spec_inst(OpCore::Eor, Template::Immediate)),
        0x4Au8 => Some(spec_inst(OpCore::Lsr, Template::Accumulator)),
        0x4Cu8 => Some(spec_inst(OpCore::Jmp, Template::AbsoluteJmp)),
        0x4Du8 => Some(spec_inst(OpCore::Eor, Template::Absolute)),
        0x4Eu8 => Some(spec_inst(OpCore::Lsr, Template::AbsoluteRmw)),
        0x50u8 => Some(spec_inst(OpCore::Bvc, Template::Relative)),
        0x51u8 => Some(spec_inst(OpCore::Eor, Template::IndirectIndexedY)),
        0x55u8 => Some(spec_inst(OpCore::Eor, Template::IndexedZeroPageX)),
        0x56u8 => Some(spec_inst(OpCore::Lsr, Template::IndexedZeroPageXRmw)),
        0x58u8 => Some(spec_inst(OpCore::Cli, Template::Implied)),
        0x59u8 => Some(spec_inst(OpCore::Eor, Template::IndexedAbsoluteY)),
        0x5Du8 => Some(spec_inst(OpCore::Eor, Template::IndexedAbsoluteX)),
        0x5Eu8 => Some(spec_inst(OpCore::Lsr, Template::IndexedAbsoluteXRmw)),
        0x60u8 => Some(spec_inst(OpCore::Rts, Template::Rts)),
        0x61u8 => Some(spec_inst(OpCore::Adc, Template::IndexedIndirectX)),
        0x65u8 => Some(spec_inst(OpCore::Adc, Template::ZeroPage)),
        0x66u8 => Some(spec_inst(OpCore::Ror, Template::ZeroPageRmw)),
        0x68u8 => Some(spec_inst(OpCore::Pla, Template::PullStack)),
        0x69u8 => Some(spec_inst(OpCore::Adc, Template::Immediate)),
        0x6Au8 => Some(spec_inst(OpCore::Ror, Template::Accumulator)),
        0x6Cu8 => Some(spec_inst(OpCore::Jmp, Template::IndirectJmp)),
        0x6Du8 => Some(spec_inst(OpCore::Adc, Template::Absolute)),
        0x6Eu8 => Some(spec_inst(OpCore::Ror, Template::AbsoluteRmw)),
        0x70u8 => Some(spec_inst(OpCore::Bvs, Template::Relative)),
        0x71u8 => Some(spec_inst(OpCore::Adc, Template::IndirectIndexedY)),
        0x75u8 => Some(spec_inst(OpCore::Adc, Template::IndexedZeroPageX)),
        0x76u8 => Some(spec_inst(OpCore::Ror, Template::IndexedZeroPageXRmw)),
        0x78u8 => Some(spec_inst(OpCore::Sei, Template::Implied)),
        0x79u8 => Some(spec_inst(OpCore::Adc, Template::IndexedAbsoluteY)),
        0x7Du8 => Some(spec_inst(OpCore::Adc, Template::IndexedAbsoluteX)),
        0x7Eu8 => Some(spec_inst(OpCore::Ror, Template::IndexedAbsoluteXRmw)),
        0x81u8 => Some(spec_inst(OpCore::Sta, Template::IndexedIndirectX)),
        0x84u8 => Some(spec_inst(OpCore::Sty, Template::ZeroPage)),
        0x85u8 => Some(spec_inst(OpCore::Sta, Template::ZeroPage)),
        0x86u8 => Some(spec_inst(OpCore::Stx, Template::ZeroPage)),
        0x88u8 => Some(spec_inst(OpCore::Dey, Template::Implied)),
        0x8Au8 => Some(spec_inst(OpCore::Txa, Template::Implied)),
        0x8Cu8 => Some(spec_inst(OpCore::Sty, Template::Absolute)),
        0x8Du8 => Some(spec_inst(OpCore::Sta, Template::Absolute)),
        0x8Eu8 => Some(spec_inst(OpCore::Stx, Template::Absolute)),
        0x90u8 => Some(spec_inst(OpCore::Bcc, Template::Relative)),
        0x91u8 => Some(spec_inst(OpCore::Sta, Template::IndirectIndexedY)),
        0x94u8 => Some(spec_inst(OpCore::Sty, Template::IndexedZeroPageX)),
        0x95u8 => Some(spec_inst(OpCore::Sta, Template::IndexedZeroPageX)),
        0x96u8 => Some(spec_inst(OpCore::Stx, Template::IndexedZeroPageY)),
        0x98u8 => Some(spec_inst(OpCore::Tya, Template::Implied)),
        0x99u8 => Some(spec_inst(OpCore::Sta, Template::IndexedAbsoluteY)),
        0x9Au8 => Some(spec_inst(OpCore::Txs, Template::Implied)),
        0x9Du8 => Some(spec_inst(OpCore::Sta, Template::IndexedAbsoluteX)),
        0xA0u8 => Some(spec_inst(OpCore::Ldy, Template::Immediate)),
        0xA1u8 => Some(spec_inst(OpCore::Lda, Template::IndexedIndirectX)),
        0xA2u8 => Some(spec_inst(OpCore::Ldx, Template::Immediate)),
        0xA4u8 => Some(spec_inst(OpCore::Ldy, Template::ZeroPage)),
        0xA5u8 => Some(spec_inst(OpCore::Lda, Template::ZeroPage)),
        0xA6u8 => Some(spec_inst(OpCore::Ldx, Template::ZeroPage)),
        0xA8u8 => Some(spec_inst(OpCore::Tay, Template::Implied)),
        0xA9u8 => Some(spec_inst(OpCore::Lda, Template::Immediate)),
        0xAAu8 => Some(spec_inst(OpCore::Tax, Template::Implied)),
        0xACu8 => Some(spec_inst(OpCore::Ldy, Template::Absolute)),
        0xADu8 => Some(spec_inst(OpCore::Lda, Template::Absolute)),
        0xAEu8 => Some(spec_inst(OpCore::Ldx, Template::Absolute)),
        0xB0u8 => Some(spec_inst(OpCore::Bcs, Template::Relative)),
        0xB1u8 => Some(spec_inst(OpCore::Lda, Template::IndirectIndexedY)),
        0xB4u8 => Some(spec_inst(OpCore::Ldy, Template::IndexedZeroPageX)),
        0xB5u8 => Some(spec_inst(OpCore::Lda, Template::IndexedZeroPageX)),
        0xB6u8 => Some(spec_inst(OpCore::Ldx, Template::IndexedZeroPageY)),
        0xB8u8 => Some(spec_inst(OpCore::Clv, Template::Implied)),
        0xB9u8 => Some(spec_inst(OpCore::Lda, Template::IndexedAbsoluteY)),
        0xBAu8 => Some(spec_inst(OpCore::Tsx, Template::Implied)),
        0xBCu8 => Some(spec_inst(OpCore::Ldy, Template::IndexedAbsoluteX)),
        0xBDu8 => Some(spec_inst(OpCore::Lda, Template::IndexedAbsoluteX)),
        0xBEu8 => Some(spec_inst(OpCore::Ldx, Template::IndexedAbsoluteY)),
        0xC0u8 => Some(spec_inst(OpCore::Cpy, Template::Immediate)),
        0xC1u8 => Some(spec_inst(OpCore::Cmp, Template::IndexedIndirectX)),
        0xC4u8 => Some(spec_inst(OpCore::Cpy, Template::ZeroPage)),
        0xC5u8 => Some(spec_inst(OpCore::Cmp, Template::ZeroPage)),
        0xC6u8 => Some(spec_inst(OpCore::Dec, Template::ZeroPageRmw)),
        0xC8u8 => Some(spec_inst(OpCore::Iny, Template::Implied)),
        0xC9u8 => Some(spec_inst(OpCore::Cmp, Template::Immediate)),
        0xCAu8 => Some(spec_inst(OpCore::Dex, Template::Implied)),
        0xCCu8 => Some(spec_inst(OpCore::Cpy, Template::Absolute)),
        0xCDu8 => Some(spec_inst(OpCore::Cmp, Template::Absolute)),
        0xCEu8 => Some(spec_inst(OpCore::Dec, Template::AbsoluteRmw)),
        0xD0u8 => Some(spec_inst(OpCore::Bne, Template::Relative)),
        0xD1u8 => Some(spec_inst(OpCore::Cmp, Template::IndirectIndexedY)),
        0xD5u8 => Some(spec_inst(OpCore::Cmp, Template::IndexedZeroPageX)),
        0xD6u8 => Some(spec_inst(OpCore::Dec, Template::IndexedZeroPageXRmw)),
        0xD8u8 => Some(spec_inst(OpCore::Cld, Template::Implied)),
        0xD9u8 => Some(spec_inst(OpCore::Cmp, Template::IndexedAbsoluteY)),
        0xDDu8 => Some(spec_inst(OpCore::Cmp, Template::IndexedAbsoluteX)),
        0xDEu8 => Some(spec_inst(OpCore::Dec, Template::IndexedAbsoluteXRmw)),
        0xE0u8 => Some(spec_inst(OpCore::Cpx, Template::Immediate)),
        0xE1u8 => Some(spec_inst(OpCore::Sbc, Template::IndexedIndirectX)),
        0xE4u8 => Some(spec_inst(OpCore::Cpx, Template::ZeroPage)),
        0xE5u8 => Some(spec_inst(OpCore::Sbc, Template::ZeroPage)),
        0xE6u8 => Some(spec_inst(OpCore::Inc, Template::ZeroPageRmw)),
        0xE8u8 => Some(spec_inst(OpCore::Inx, Template::Implied)),
        0xE9u8 => Some(spec_inst(OpCore::Sbc, Template::Immediate)),
        0xEAu8 => Some(spec_inst(OpCore::Nop, Template::Implied)),
        0xECu8 => Some(spec_inst(OpCore::Cpx, Template::Absolute)),
        0xEDu8 => Some(spec_inst(OpCore::Sbc, Template::Absolute)),
        0xEEu8 => Some(spec_inst(OpCore::Inc, Template::AbsoluteRmw)),
        0xF0u8 => Some(spec_inst(OpCore::Beq, Template::Relative)),
        0xF1u8 => Some(spec_inst(OpCore::Sbc, Template::IndirectIndexedY)),
        0xF5u8 => Some(spec_inst(OpCore::Sbc, Template::IndexedZeroPageX)),
        0xF6u8 => Some(spec_inst(OpCore::Inc, Template::IndexedZeroPageXRmw)),
        0xF8u8 => Some(spec_inst(OpCore::Sed, Template::Implied)),
        0xF9u8 => Some(spec_inst(OpCore::Sbc, Template::IndexedAbsoluteY)),
        0xFDu8 => Some(spec_inst(OpCore::Sbc, Template::IndexedAbsoluteX)),
        0xFEu8 => Some(spec_inst(OpCore::Inc, Template::IndexedAbsoluteXRmw)),
        _ => None,
    }
}

} // verus!
