//! 6502-derived CPU core: registers, status flags and the ALU model.

pub mod instruction;
pub mod decoder;
pub mod cpu_state;
pub mod executer;
pub mod exec_core_g1;
pub mod exec_core_g2;
pub mod exec_core_g3;

use vstd::prelude::*;
use crate::mem::{MemCon, bus_read_val, bus_read_rel, mirror_ram_write};
use crate::ppu::Ppu;
use crate::rom::NesRom;
use crate::cpu::cpu_state::{TmpState, CpuMode, tmp_default, exec_state_inv};
use vstd::slice::slice_subrange;
use crate::cpu::instruction::OpCore;
use crate::util::{addr_of, lo_byte, hi_byte};

verus! {

/// Carry flag: set by a carry out of an addition or a non-borrow in a
/// subtraction or comparison.
pub const FLAG_CARRY: u8 = 0x01;
/// Zero flag: set when a result is zero.
pub const FLAG_ZERO: u8 = 0x02;
/// Interrupt-disable flag: while set, IRQ is ignored (NMI is not).
pub const FLAG_INT_DISABLE: u8 = 0x04;
/// Decimal flag: settable and clearable, but without effect on this platform.
pub const FLAG_DECIMAL: u8 = 0x08;
/// Break flag: exists only in copies of P pushed on the stack; set for
/// BRK/PHP pushes, clear for hardware-interrupt pushes.
pub const FLAG_BREAK: u8 = 0x10;
/// Reserved flag: always reads as 1.
pub const FLAG_RESERVED: u8 = 0x20;
/// Overflow flag: set by signed overflow in additions and subtractions.
pub const FLAG_OVERFLOW: u8 = 0x40;
/// Negative flag: mirrors bit 7 of a result.
pub const FLAG_NEGATIVE: u8 = 0x80;

/// Whether any of the bits in `mask` is set in `p`.
pub open spec fn flag_set(p: u8, mask: u8) -> bool {
    p & mask != 0
}

/// `p` with the bits in `mask` forced to `on`.
pub open spec fn set_flag(p: u8, mask: u8, on: bool) -> u8 {
    if on {
        p | mask
    } else {
        p & !mask
    }
}

/// `p` with the Negative flag set from bit 7 of `val`.
pub open spec fn set_n(p: u8, val: u8) -> u8 {
    set_flag(p, FLAG_NEGATIVE, val >= 0x80)
}

/// `p` with the Zero flag set from `val == 0`.
pub open spec fn set_z(p: u8, val: u8) -> u8 {
    set_flag(set_n(p, val), FLAG_ZERO, val == 0)
}

/// `p` with Negative and Zero set from `val`; all other flags kept.
pub open spec fn set_nz(p: u8, val: u8) -> u8 {
    set_flag(set_flag(p, FLAG_NEGATIVE, val >= 0x80), FLAG_ZERO, val == 0)
}

/// The full (unwrapped) sum of an addition with carry.
pub open spec fn adc_sum(a: u8, val: u8, carry: bool) -> int {
    a + val + (if carry {
        1int
    } else {
        0int
    })
}

/// The 8-bit result of an addition with carry.
pub open spec fn adc_result(a: u8, val: u8, carry: bool) -> u8 {
    (adc_sum(a, val, carry) % 256) as u8
}

/// The carry out of an addition with carry.
pub open spec fn adc_carry(a: u8, val: u8, carry: bool) -> bool {
    adc_sum(a, val, carry) >= 256
}

/// The signed-overflow condition of an addition with carry:
/// `((A XOR result) AND (operand XOR result) AND 0x80) != 0`.
pub open spec fn adc_overflow(a: u8, val: u8, carry: bool) -> bool {
    (a ^ adc_result(a, val, carry)) & (val ^ adc_result(a, val, carry)) & 0x80 != 0
}

/// The status register after an addition with carry: Carry, Overflow,
/// Negative and Zero updated, all other flags kept.
pub open spec fn p_after_adc(p: u8, a: u8, val: u8, carry: bool) -> u8 {
    set_nz(
        set_flag(
            set_flag(p, FLAG_CARRY, adc_carry(a, val, carry)),
            FLAG_OVERFLOW,
            adc_overflow(a, val, carry),
        ),
        adc_result(a, val, carry),
    )
}

/// The 8-bit difference used by the compare instructions.
pub open spec fn cmp_diff(reg: u8, val: u8) -> u8 {
    ((reg + 256 - val) % 256) as u8
}

/// The status register after a comparison: Carry set iff `reg >= val`,
/// Negative and Zero from the 8-bit difference, all other flags kept.
pub open spec fn p_after_cmp(p: u8, reg: u8, val: u8) -> u8 {
    set_nz(set_flag(p, FLAG_CARRY, reg >= val), cmp_diff(reg, val))
}

/// The register file of the CPU.
#[derive(Clone, Copy, PartialEq, Eq, Structural, Debug)]
pub struct Registers {
    /// Accumulator.
    pub a: u8,
    /// Index register X.
    pub x: u8,
    /// Index register Y.
    pub y: u8,
    /// Stack pointer; the stack lives at addresses 0x0100-0x01FF.
    pub s: u8,
    /// Status flags.
    pub p: u8,
    /// Program counter.
    pub pc: u16,
}

/// `r` with only the status register replaced.
pub open spec fn with_p(r: Registers, p: u8) -> Registers {
    Registers { p, ..r }
}

impl Registers {
    /// Whether the Interrupt-disable flag is set.
    pub fn int_disabled(&self) -> (r: bool)
        ensures
            r == flag_set(self.p, FLAG_INT_DISABLE),
    {
        (self.p & FLAG_INT_DISABLE) != 0
    }

    /// Sets every flag bit named in `flags`.
    pub fn flags_on(&mut self, flags: u8)
        ensures
            *final(self) == with_p(*old(self), old(self).p | flags),
    {
        self.p = self.p | flags;
    }

    /// Clears every flag bit named in `flags`.
    pub fn flags_off(&mut self, flags: u8)
        ensures
            *final(self) == with_p(*old(self), old(self).p & !flags),
    {
        self.p = self.p & !flags;
    }

    /// Sets the Negative flag from bit 7 of `val`.
    pub fn change_negative_by_value(&mut self, val: u8)
        ensures
            *final(self) == with_p(*old(self), set_n(old(self).p, val)),
    {
        if val >= 0x80 {
            self.p = self.p | FLAG_NEGATIVE;
        } else {
            self.p = self.p & !FLAG_NEGATIVE;
        }
    }

    /// Sets the Zero flag from `val == 0`.
    pub fn change_zero_by_value(&mut self, val: u8)
        ensures
            *final(self) == with_p(*old(self), set_flag(old(self).p, FLAG_ZERO, val == 0)),
    {
        if val == 0 {
            self.p = self.p | FLAG_ZERO;
        } else {
            self.p = self.p & !FLAG_ZERO;
        }
    }

    /// Adds `val` and the Carry flag into the accumulator, updating Carry,
    /// Overflow, Negative and Zero.
    pub fn a_add(&mut self, val: u8)
        ensures
            *final(self) == (Registers {
                a: adc_result(old(self).a, val, flag_set(old(self).p, FLAG_CARRY)),
                p: p_after_adc(old(self).p, old(self).a, val, flag_set(old(self).p, FLAG_CARRY)),
                ..*old(self)
            }),
    {
        let carry_in: bool = (self.p & FLAG_CARRY) != 0;
        let sum: u16 = (self.a as u16) + (val as u16) + (if carry_in {
            1
        } else {
            0
        });
        let result: u8 = (sum % 256) as u8;
        let carry_out: bool = sum >= 256;
        let overflowed: bool = (self.a ^ result) & (val ^ result) & 0x80 != 0;
        if carry_out {
            self.p = self.p | FLAG_CARRY;
        } else {
            self.p = self.p & !FLAG_CARRY;
        }
        if overflowed {
            self.p = self.p | FLAG_OVERFLOW;
        } else {
            self.p = self.p & !FLAG_OVERFLOW;
        }
        self.change_negative_by_value(result);
        self.change_zero_by_value(result);
        self.a = result;
    }

    /// Subtracts `val` and the borrow (the inverted Carry flag) from the
    /// accumulator: exactly an addition with carry of the bit-inverted
    /// operand.
    pub fn a_sub(&mut self, val: u8)
        ensures
            *final(self) == (Registers {
                a: adc_result(old(self).a, !val, flag_set(old(self).p, FLAG_CARRY)),
                p: p_after_adc(old(self).p, old(self).a, !val, flag_set(old(self).p, FLAG_CARRY)),
                ..*old(self)
            }),
    {
        self.a_add(!val);
    }

    /// Compares `val1` with `val2`, updating Carry, Negative and Zero and
    /// leaving every register and the Overflow flag untouched.
    pub fn cmp(&mut self, val1: u8, val2: u8)
        ensures
            *final(self) == with_p(*old(self), p_after_cmp(old(self).p, val1, val2)),
    {
        let sum: u16 = (val1 as u16) + 256 - (val2 as u16);
        let result: u8 = (sum % 256) as u8;
        let carry_out: bool = sum >= 256;
        if carry_out {
            self.p = self.p | FLAG_CARRY;
        } else {
            self.p = self.p & !FLAG_CARRY;
        }
        self.change_negative_by_value(result);
        self.change_zero_by_value(result);
    }

    /// Loads the accumulator, setting Negative and Zero from the value.
    pub fn a_set(&mut self, val: u8)
        ensures
            *final(self) == (Registers { a: val, p: set_nz(old(self).p, val), ..*old(self) }),
    {
        self.a = val;
        self.change_negative_by_value(val);
        self.change_zero_by_value(val);
    }

    /// Loads index register X, setting Negative and Zero from the value.
    pub fn x_set(&mut self, val: u8)
        ensures
            *final(self) == (Registers { x: val, p: set_nz(old(self).p, val), ..*old(self) }),
    {
        self.x = val;
        self.change_negative_by_value(val);
        self.change_zero_by_value(val);
    }

    /// Loads index register Y, setting Negative and Zero from the value.
    pub fn y_set(&mut self, val: u8)
        ensures
            *final(self) == (Registers { y: val, p: set_nz(old(self).p, val), ..*old(self) }),
    {
        self.y = val;
        self.change_negative_by_value(val);
        self.change_zero_by_value(val);
    }
}

/// The kind of an interrupt.
#[derive(Debug, PartialEq, Eq, Structural, Clone, Copy)]
pub enum IntType {
    /// No interrupt.
    Empty,
    /// The reset line.
    Reset,
    /// The edge-sensitive non-maskable interrupt.
    Nmi,
    /// The level-sensitive maskable interrupt.
    Irq,
    /// The BRK software interrupt.
    Brk,
}

/// The interrupt chosen while an instruction was still executing, to be
/// serviced once it completes.
#[derive(Debug, PartialEq, Eq, Structural, Clone, Copy)]
pub struct Interrupt {
    /// Which interrupt is pending.
    pub kind: IntType,
    /// Whether servicing is pushed back by one further instruction, as a
    /// taken in-page branch demands.
    pub is_force_delayed: bool,
}

impl Default for Interrupt {
    /// The empty pending-interrupt slot.
    fn default() -> (r: Self)
        ensures
            r == (Interrupt { kind: IntType::Empty, is_force_delayed: false }),
    {
        Interrupt { kind: IntType::Empty, is_force_delayed: false }
    }
}

/// The status register after a shift or rotate: Carry from the bit shifted
/// out, Negative and Zero from the result, all other flags kept.
pub open spec fn p_after_shift(p: u8, result: u8, carry_out: bool) -> u8 {
    set_nz(set_flag(p, FLAG_CARRY, carry_out), result)
}

/// The status register after a bit test: Negative from bit 7 of the operand,
/// Overflow from bit 6, Zero from `A AND operand`, all other flags kept.
pub open spec fn p_after_bit(p: u8, a: u8, val: u8) -> u8 {
    set_flag(
        set_flag(set_flag(p, FLAG_NEGATIVE, val >= 0x80), FLAG_OVERFLOW, val & 0x40 != 0),
        FLAG_ZERO,
        a & val == 0,
    )
}

/// The status register restored from a stack image: Break forced low (it
/// exists only in pushed copies) and the reserved bit forced high.
pub open spec fn plp_value(v: u8) -> u8 {
    (v & !FLAG_BREAK) | FLAG_RESERVED
}

/// `r` with only the program counter replaced.
pub open spec fn with_pc(r: Registers, pc: u16) -> Registers {
    Registers { pc, ..r }
}

/// A 16-bit value, wrapping.
pub open spec fn wrap16(x: int) -> u16 {
    (x % 0x10000) as u16
}

/// What an operation core does to the register file when handed a value, and
/// the byte it hands back for the memory-destination and read-modify-write
/// instructions.  The branch, stack, jump and return cores do their work in
/// their templates and leave the register file alone here.
pub open spec fn core_apply(c: OpCore, rg: Registers, val: u8) -> (Registers, u8) {
    let carry = flag_set(rg.p, FLAG_CARRY);
    match c {
        OpCore::Ora => (Registers { a: rg.a | val, p: set_nz(rg.p, rg.a | val), ..rg }, 0u8),
        OpCore::And => (Registers { a: rg.a & val, p: set_nz(rg.p, rg.a & val), ..rg }, 0u8),
        OpCore::Eor => (Registers { a: rg.a ^ val, p: set_nz(rg.p, rg.a ^ val), ..rg }, 0u8),
        OpCore::Adc => (
            Registers {
                a: adc_result(rg.a, val, carry),
                p: p_after_adc(rg.p, rg.a, val, carry),
                ..rg
            },
            0u8,
        ),
        OpCore::Sbc => (
            Registers {
                a: adc_result(rg.a, !val, carry),
                p: p_after_adc(rg.p, rg.a, !val, carry),
                ..rg
            },
            0u8,
        ),
        OpCore::Sta => (rg, rg.a),
        OpCore::Stx => (rg, rg.x),
        OpCore::Sty => (rg, rg.y),
        OpCore::Lda => (Registers { a: val, p: set_nz(rg.p, val), ..rg }, 0u8),
        OpCore::Ldx => (Registers { x: val, p: set_nz(rg.p, val), ..rg }, 0u8),
        OpCore::Ldy => (Registers { y: val, p: set_nz(rg.p, val), ..rg }, 0u8),
        OpCore::Cmp => (with_p(rg, p_after_cmp(rg.p, rg.a, val)), 0u8),
        OpCore::Cpx => (with_p(rg, p_after_cmp(rg.p, rg.x, val)), 0u8),
        OpCore::Cpy => (with_p(rg, p_after_cmp(rg.p, rg.y, val)), 0u8),
        OpCore::Bit => (with_p(rg, p_after_bit(rg.p, rg.a, val)), 0u8),
        OpCore::Asl => {
            let r = ((val * 2) % 256) as u8;
            (with_p(rg, p_after_shift(rg.p, r, val >= 0x80)), r)
        },
        OpCore::Rol => {
            let r = ((val * 2 + (if carry {
                1int
            } else {
                0int
            })) % 256) as u8;
            (with_p(rg, p_after_shift(rg.p, r, val >= 0x80)), r)
        },
        OpCore::Lsr => {
            let r = (val / 2) as u8;
            (with_p(rg, p_after_shift(rg.p, r, val % 2 == 1)), r)
        },
        OpCore::Ror => {
            let r = ((val / 2) + (if carry {
                128int
            } else {
                0int
            })) as u8;
            (with_p(rg, p_after_shift(rg.p, r, val % 2 == 1)), r)
        },
        OpCore::Dec => {
            let r = (if val == 0 {
                255int
            } else {
                val - 1
            }) as u8;
            (with_p(rg, set_nz(rg.p, r)), r)
        },
        OpCore::Inc => {
            let r = ((val + 1) % 256) as u8;
            (with_p(rg, set_nz(rg.p, r)), r)
        },
        OpCore::Dey => {
            let r = (if rg.y == 0 {
                255int
            } else {
                rg.y - 1
            }) as u8;
            (Registers { y: r, p: set_nz(rg.p, r), ..rg }, 0u8)
        },
        OpCore::Iny => {
            let r = ((rg.y + 1) % 256) as u8;
            (Registers { y: r, p: set_nz(rg.p, r), ..rg }, 0u8)
        },
        OpCore::Dex => {
            let r = (if rg.x == 0 {
                255int
            } else {
                rg.x - 1
            }) as u8;
            (Registers { x: r, p: set_nz(rg.p, r), ..rg }, 0u8)
        },
        OpCore::Inx => {
            let r = ((rg.x + 1) % 256) as u8;
            (Registers { x: r, p: set_nz(rg.p, r), ..rg }, 0u8)
        },
        OpCore::Tay => (Registers { y: rg.a, p: set_nz(rg.p, rg.a), ..rg }, 0u8),
        OpCore::Tax => (Registers { x: rg.a, p: set_nz(rg.p, rg.a), ..rg }, 0u8),
        OpCore::Tya => (Registers { a: rg.y, p: set_nz(rg.p, rg.y), ..rg }, 0u8),
        OpCore::Txa => (Registers { a: rg.x, p: set_nz(rg.p, rg.x), ..rg }, 0u8),
        OpCore::Tsx => (Registers { x: rg.s, p: set_nz(rg.p, rg.s), ..rg }, 0u8),
        OpCore::Txs => (Registers { s: rg.x, ..rg }, 0u8),
        OpCore::Clc => (with_p(rg, rg.p & !FLAG_CARRY), 0u8),
        OpCore::Sec => (with_p(rg, rg.p | FLAG_CARRY), 0u8),
        OpCore::Cli => (with_p(rg, rg.p & !FLAG_INT_DISABLE), 0u8),
        OpCore::Sei => (with_p(rg, rg.p | FLAG_INT_DISABLE), 0u8),
        OpCore::Clv => (with_p(rg, rg.p & !FLAG_OVERFLOW), 0u8),
        OpCore::Cld => (with_p(rg, rg.p & !FLAG_DECIMAL), 0u8),
        OpCore::Sed => (with_p(rg, rg.p | FLAG_DECIMAL), 0u8),
        OpCore::Nop => (rg, 0u8),
        _ => (rg, 0u8),
    }
}

/// Whether a branch core's condition holds under the given status register.
pub open spec fn branch_taken(c: OpCore, p: u8) -> bool {
    match c {
        OpCore::Bpl => !flag_set(p, FLAG_NEGATIVE),
        OpCore::Bmi => flag_set(p, FLAG_NEGATIVE),
        OpCore::Bvc => !flag_set(p, FLAG_OVERFLOW),
        OpCore::Bvs => flag_set(p, FLAG_OVERFLOW),
        OpCore::Bcc => !flag_set(p, FLAG_CARRY),
        OpCore::Bcs => flag_set(p, FLAG_CARRY),
        OpCore::Bne => !flag_set(p, FLAG_ZERO),
        OpCore::Beq => flag_set(p, FLAG_ZERO),
        _ => false,
    }
}

/// The branch target: the program counter after the offset byte, plus the
/// offset taken as a signed value, wrapping.
pub open spec fn branch_target(pc_after: u16, offset: u8) -> u16 {
    wrap16(
        pc_after + offset + 0x10000 - (if offset >= 128 {
            256int
        } else {
            0int
        }),
    )
}

/// The stack cell a stack pointer names; always within 0x0100-0x01FF.
pub open spec fn stack_addr(s: u8) -> u16 {
    (0x0100 + s) as u16
}

/// Every stack access lands in the stack page 0x0100-0x01FF.
pub proof fn lemma_stack_addr_in_range(s: u8)
    ensures
        0x0100 <= stack_addr(s) <= 0x01FF,
{
}

/// RAM after a push through the stack cell `s` names (with the RAM mirrors).
pub open spec fn stack_push_ram(ram: Seq<u8>, s: u8, v: u8) -> Seq<u8> {
    mirror_ram_write(ram, stack_addr(s), v)
}

/// The byte in the stack cell `s` names.
pub open spec fn stack_peek(ram: Seq<u8>, s: u8) -> u8 {
    ram[stack_addr(s) as int]
}

/// The stack pointer after a push.
pub open spec fn dec_s(s: u8) -> u8 {
    if s == 0 {
        255u8
    } else {
        (s - 1) as u8
    }
}

/// The stack pointer before a pull.
pub open spec fn inc_s(s: u8) -> u8 {
    if s == 255 {
        0u8
    } else {
        (s + 1) as u8
    }
}

/// Pushing a byte and pulling it back returns the byte: the pull's increment
/// undoes the push's decrement, and the mirrors do not disturb the stack
/// page.
pub proof fn lemma_push_pull_round_trip(ram: Seq<u8>, s: u8, v: u8)
    requires
        ram.len() == 0x10000,
    ensures
        inc_s(dec_s(s)) == s,
        stack_peek(stack_push_ram(ram, s, v), s) == v,
{
}

/// The execution error the core surfaces instead of halting.
#[derive(Debug, PartialEq, Eq, Structural, Clone, Copy)]
pub enum CpuError {
    /// An opcode byte with no table entry, together with the address it was
    /// fetched from.
    UndefinedOpcode { opcode: u8, pc: u16 },
}

/// The CPU: registers, the memory bus, the interrupt pins and the per-cycle
/// execution state.
pub struct Cpu {
    /// The memory controller.
    pub mem: MemCon,
    /// Cycles since power-on.
    pub clock_counter: u64,
    /// The register file.
    pub regs: Registers,
    /// The reset pin: line-sensitive, cleared on entry to the handler.
    pub reset_occurred: bool,
    /// The NMI pin: edge-sensitive, cleared on entry to the handler.
    pub nmi_occurred: bool,
    /// The IRQ pin: level-sensitive, cleared by the device that raised it.
    pub irq_occurred: bool,
    /// Whether the end-of-instruction interrupt poll is armed.
    pub int_polling_enabled: bool,
    /// Which stage the next cycle runs: fetch, execute or interrupt.
    pub mode: CpuMode,
    /// The interrupt chosen by the poll, to be serviced when the current
    /// instruction completes.
    pub int_requested: Interrupt,
    /// The transient state of the instruction or interrupt sequence under
    /// way.
    pub state: TmpState,
    /// Cycles left of an OAM-DMA stall.
    pub stall_cycles: u32,
}

/// What stays untouched when only registers, memory and transient state
/// move: the clock, the pins, the pending slot, the mode and the poll arm.
pub open spec fn cpu_frame(pre: Cpu, post: Cpu) -> bool {
    &&& post.clock_counter == pre.clock_counter
    &&& post.reset_occurred == pre.reset_occurred
    &&& post.nmi_occurred == pre.nmi_occurred
    &&& post.irq_occurred == pre.irq_occurred
    &&& post.int_polling_enabled == pre.int_polling_enabled
    &&& post.mode == pre.mode
    &&& post.int_requested == pre.int_requested
    &&& post.stall_cycles == pre.stall_cycles
}

impl Cpu {
    /// The machine invariant: full-size memory, a bounded stall, and
    /// transient state consistent with the stage.
    pub open spec fn wf(self) -> bool {
        &&& self.mem.wf()
        &&& self.stall_cycles <= crate::mem::DMA_STALL_CYCLES
        &&& flag_set(self.regs.p, FLAG_RESERVED)
        &&& match self.mode {
            CpuMode::Fetch => self.state == tmp_default(),
            CpuMode::Exec => exec_state_inv(self.state),
            CpuMode::Interrupt => self.state.counter <= 6 && self.state.int_kind
                != IntType::Empty,
        }
    }

    /// Builds a CPU around a memory that already exists, with the
    /// cartridge's program banks mapped at 0x8000 and 0xC000.  A cartridge
    /// with a single bank sees it mirrored into both halves; one without a
    /// full bank maps nothing.
    pub fn new(rom: &NesRom, ram: MemCon) -> (r: Cpu)
        requires
            ram.wf(),
        ensures
            r.wf(),
            r.mode == CpuMode::Fetch,
            r.state == tmp_default(),
            r.clock_counter == 0,
            !r.reset_occurred && !r.nmi_occurred && !r.irq_occurred,
            !r.int_polling_enabled,
            r.int_requested == (Interrupt { kind: IntType::Empty, is_force_delayed: false }),
            r.stall_cycles == 0,
            r.regs == (Registers { a: 0, x: 0, y: 0, s: 0, p: FLAG_RESERVED, pc: 0 }),
            forall|i: int| 0 <= i < 0x8000 ==> #[trigger] r.mem.ram@[i] == ram.ram@[i],
            rom.prg_rom@.len() < 0x4000 ==> r.mem.ram@ == ram.ram@,
            rom.prg_rom@.len() >= 0x4000 ==> forall|i: int|
                0 <= i < 0x4000 ==> r.mem.ram@[0x8000 + i] == #[trigger] rom.prg_rom@[i],
            rom.prg_rom@.len() >= 0x8000 ==> forall|i: int|
                0 <= i < 0x4000 ==> #[trigger] r.mem.ram@[0xC000 + i] == rom.prg_rom@[0x4000 + i],
            0x4000 <= rom.prg_rom@.len() < 0x8000 ==> forall|i: int|
                0 <= i < 0x4000 ==> #[trigger] r.mem.ram@[0xC000 + i] == rom.prg_rom@[i],
    {
        proof {
            assert(0x20u8 & 0x20u8 != 0) by (bit_vector);
        }
        let mut my = Cpu {
            mem: ram,
            clock_counter: 0,
            regs: Registers { a: 0, x: 0, y: 0, s: 0, p: FLAG_RESERVED, pc: 0 },
            reset_occurred: false,
            nmi_occurred: false,
            irq_occurred: false,
            int_polling_enabled: false,
            mode: CpuMode::Fetch,
            int_requested: Interrupt { kind: IntType::Empty, is_force_delayed: false },
            state: cpu_state::make_tmp_default(),
            stall_cycles: 0,
        };
        let prg_rom = rom.prg_rom();
        if prg_rom.len() >= crate::rom::PRG_ROM_UNIT_SIZE {
            my.mem.raw_write(
                0x8000,
                slice_subrange(prg_rom.as_slice(), 0, crate::rom::PRG_ROM_UNIT_SIZE),
            );
            if prg_rom.len() >= crate::rom::PRG_ROM_UNIT_SIZE * 2 {
                my.mem.raw_write(
                    0xC000,
                    slice_subrange(
                        prg_rom.as_slice(),
                        crate::rom::PRG_ROM_UNIT_SIZE,
                        crate::rom::PRG_ROM_UNIT_SIZE * 2,
                    ),
                );
            } else {
                my.mem.raw_write(
                    0xC000,
                    slice_subrange(prg_rom.as_slice(), 0, crate::rom::PRG_ROM_UNIT_SIZE),
                );
            }
        }
        my
    }

    /// Puts the machine in its power-on state: index registers cleared, the
    /// stack pointer at 0xFD, the interrupt-disable, break and reserved
    /// flags raised, physical RAM cleared, the pins released, and the reset
    /// interrupt sequence about to run.
    pub fn power_on(&mut self)
        requires
            old(self).mem.wf(),
        ensures
            final(self).wf(),
            final(self).regs == (Registers {
                a: 0,
                x: 0,
                y: 0,
                s: 0xFD,
                p: old(self).regs.p | (FLAG_INT_DISABLE | FLAG_BREAK | FLAG_RESERVED),
                pc: old(self).regs.pc,
            }),
            forall|j: int| 0 <= j <= 0x07FF ==> final(self).mem.ram@[j] == 0u8,
            forall|j: int|
                0x0800 <= j < 0x10000 ==> final(self).mem.ram@[j] == old(self).mem.ram@[j],
            !final(self).reset_occurred && !final(self).nmi_occurred && !final(self).irq_occurred,
            !final(self).int_polling_enabled,
            final(self).mode == CpuMode::Interrupt,
            final(self).state == (TmpState { int_kind: IntType::Reset, ..tmp_default() }),
            final(self).int_requested == (Interrupt {
                kind: IntType::Empty,
                is_force_delayed: false,
            }),
            final(self).clock_counter == old(self).clock_counter,
            final(self).stall_cycles == 0,
    {
        proof {
            let p0 = old(self).regs.p;
            assert((p0 | (FLAG_INT_DISABLE | FLAG_BREAK | FLAG_RESERVED)) & 0x20u8 != 0)
                by (bit_vector);
        }
        self.stall_cycles = 0;
        self.regs.a = 0;
        self.regs.x = 0;
        self.regs.y = 0;
        self.regs.s = 0xFD;
        self.regs.flags_on(FLAG_INT_DISABLE | FLAG_BREAK | FLAG_RESERVED);
        self.mem.raw_fill(0x0000, 0x07FF, 0);
        self.clear_all_int_trigger();
        self.int_requested.kind = IntType::Reset;
        self.int_requested.is_force_delayed = false;
        self.switch_state_int();
    }

    /// Raises the NMI pin.  The CPU clears it on entry to the handler.
    pub fn trigger_nmi(&mut self)
        ensures
            *final(self) == (Cpu { nmi_occurred: true, ..*old(self) }),
    {
        self.nmi_occurred = true;
    }

    /// Raises the IRQ pin.  The device that raised it must call `stop_irq`
    /// once its cause is gone.
    pub fn trigger_irq(&mut self)
        ensures
            *final(self) == (Cpu { irq_occurred: true, ..*old(self) }),
    {
        self.irq_occurred = true;
    }

    /// Releases the IRQ pin.
    pub fn stop_irq(&mut self)
        ensures
            *final(self) == (Cpu { irq_occurred: false, ..*old(self) }),
    {
        self.irq_occurred = false;
    }

    /// Raises the reset line.  The CPU clears it on entry to the handler.
    pub fn trigger_reset(&mut self)
        ensures
            *final(self) == (Cpu { reset_occurred: true, ..*old(self) }),
    {
        self.reset_occurred = true;
    }

    /// Releases every interrupt pin.
    fn clear_all_int_trigger(&mut self)
        ensures
            *final(self) == (Cpu {
                reset_occurred: false,
                nmi_occurred: false,
                irq_occurred: false,
                ..*old(self)
            }),
    {
        self.reset_occurred = false;
        self.nmi_occurred = false;
        self.irq_occurred = false;
    }

    /// The end-of-instruction interrupt poll: if any pin is asserted (IRQ
    /// gated by the interrupt-disable flag), records the winner in the
    /// pending slot and clears the latch the winner owns.
    pub fn check_int(&mut self)
        ensures
            check_int_rel(*old(self), *final(self)),
    {
        if self.reset_occurred || self.nmi_occurred || (!self.regs.int_disabled()
            && self.irq_occurred) {
            let kind = self.resolve_int_type();
            self.int_requested.kind = kind;
            self.int_requested.is_force_delayed = false;
        }
    }

    /// Picks the asserted pin with the highest priority (reset before NMI
    /// before IRQ) and clears it where entry to the handler must (reset and
    /// NMI; IRQ stays up until its device releases it).
    fn resolve_int_type(&mut self) -> (r: IntType)
        requires
            old(self).reset_occurred || old(self).nmi_occurred || old(self).irq_occurred,
        ensures
            old(self).reset_occurred ==> r == IntType::Reset && *final(self) == (Cpu {
                reset_occurred: false,
                ..*old(self)
            }),
            !old(self).reset_occurred && old(self).nmi_occurred ==> r == IntType::Nmi
                && *final(self) == (Cpu { nmi_occurred: false, ..*old(self) }),
            !old(self).reset_occurred && !old(self).nmi_occurred ==> r == IntType::Irq
                && *final(self) == *old(self),
    {
        if self.reset_occurred {
            self.reset_occurred = false;
            IntType::Reset
        } else if self.nmi_occurred {
            self.nmi_occurred = false;
            IntType::Nmi
        } else {
            IntType::Irq
        }
    }

    /// Reads the byte the program counter names and steps the counter,
    /// wrapping.
    pub fn fetch(&mut self, ppu: &mut Ppu) -> (r: u8)
        requires
            old(self).mem.wf(),
            old(ppu).wf(),
        ensures
            final(ppu).wf(),
            r == bus_read_val(old(self).mem.ram@, *old(ppu), old(self).regs.pc),
            bus_read_rel(*old(ppu), *final(ppu), old(self).regs.pc),
            *final(self) == (Cpu {
                regs: with_pc(old(self).regs, wrap16(old(self).regs.pc + 1)),
                ..*old(self)
            }),
    {
        let data = self.mem.read(ppu, self.regs.pc);
        self.regs.pc = (((self.regs.pc as u32) + 1) % 0x10000) as u16;
        data
    }

    /// A bus write issued by the CPU: the returned stall of an OAM-DMA
    /// trigger is added to the stall counter.
    pub fn write_mem(&mut self, ppu: &mut Ppu, addr: u16, data: u8)
        requires
            old(self).mem.wf(),
            old(ppu).wf(),
            old(self).stall_cycles == 0,
        ensures
            final(ppu).wf(),
            final(self).mem.wf(),
            final(self).mem.ram@ == crate::mem::bus_write_ram(old(self).mem.ram@, addr, data),
            crate::mem::bus_write_ppu_rel(old(self).mem.ram@, *old(ppu), *final(ppu), addr, data),
            final(self).stall_cycles == stall_after(0, addr),
            final(self).regs == old(self).regs,
            final(self).state == old(self).state,
            final(self).mode == old(self).mode,
            final(self).int_requested == old(self).int_requested,
            final(self).int_polling_enabled == old(self).int_polling_enabled,
            final(self).clock_counter == old(self).clock_counter,
            final(self).reset_occurred == old(self).reset_occurred,
            final(self).nmi_occurred == old(self).nmi_occurred,
            final(self).irq_occurred == old(self).irq_occurred,
    {
        let stall = self.mem.write(ppu, addr, data);
        self.stall_cycles = stall;
    }

    /// Pushes one byte: stores it at the cell the stack pointer names, then
    /// decrements the pointer, wrapping.
    pub fn push_stack(&mut self, data: u8)
        requires
            old(self).mem.wf(),
        ensures
            *final(self) == (Cpu {
                mem: final(self).mem,
                regs: Registers { s: dec_s(old(self).regs.s), ..old(self).regs },
                ..*old(self)
            }),
            final(self).mem.wf(),
            final(self).mem.ram@ == stack_push_ram(old(self).mem.ram@, old(self).regs.s, data),
    {
        self.set_to_stack(data);
        self.dec_stack();
    }

    /// Stores one byte at the cell the stack pointer names, leaving the
    /// pointer alone.
    pub fn set_to_stack(&mut self, data: u8)
        requires
            old(self).mem.wf(),
        ensures
            *final(self) == (Cpu { mem: final(self).mem, ..*old(self) }),
            final(self).mem.wf(),
            final(self).mem.ram@ == stack_push_ram(old(self).mem.ram@, old(self).regs.s, data),
    {
        let addr = 0x0100 + (self.regs.s as u16);
        self.mem.write_ram(addr, data);
    }

    /// Decrements the stack pointer after a push, wrapping silently as the
    /// hardware does.
    pub fn dec_stack(&mut self)
        ensures
            *final(self) == (Cpu {
                regs: Registers { s: dec_s(old(self).regs.s), ..old(self).regs },
                ..*old(self)
            }),
    {
        self.regs.s = if self.regs.s == 0 {
            255
        } else {
            self.regs.s - 1
        };
    }

    /// Increments the stack pointer before a pull, wrapping silently as the
    /// hardware does.
    pub fn inc_stack(&mut self)
        ensures
            *final(self) == (Cpu {
                regs: Registers { s: inc_s(old(self).regs.s), ..old(self).regs },
                ..*old(self)
            }),
    {
        self.regs.s = if self.regs.s == 255 {
            0
        } else {
            self.regs.s + 1
        };
    }

    /// Reads the byte in the cell the stack pointer names, leaving the
    /// pointer alone.
    pub fn peek_stack(&self) -> (r: u8)
        requires
            self.mem.wf(),
        ensures
            r == stack_peek(self.mem.ram@, self.regs.s),
    {
        let addr = 0x0100 + (self.regs.s as u16);
        self.mem.read_ram(addr)
    }

    /// Increments the stack pointer and reads the byte its new cell holds.
    pub fn pull_stack(&mut self) -> (r: u8)
        requires
            old(self).mem.wf(),
        ensures
            *final(self) == (Cpu {
                regs: Registers { s: inc_s(old(self).regs.s), ..old(self).regs },
                ..*old(self)
            }),
            r == stack_peek(old(self).mem.ram@, inc_s(old(self).regs.s)),
    {
        self.inc_stack();
        self.peek_stack()
    }

    /// Hands control to the next stage once an instruction completes: the
    /// interrupt sequence if the pending slot holds one and its delay flag
    /// does not push it back, otherwise the fetch stage.
    fn switch_state_fetch(&mut self)
        ensures
            finishes_to(
                old(self).regs,
                old(self).mem.ram@,
                old(self).stall_cycles,
                *old(self),
                *final(self),
            ),
            final(self).mem.wf() == old(self).mem.wf(),
    {
        if self.int_requested.kind != IntType::Empty {
            if self.int_requested.is_force_delayed {
                self.int_requested.is_force_delayed = false;
            } else {
                self.switch_state_int();
                return ;
            }
        }
        self.state = cpu_state::make_tmp_default();
        self.mode = CpuMode::Fetch;
    }

    /// Hands control to the interrupt sequence for the pending interrupt.
    fn switch_state_int(&mut self)
        requires
            old(self).int_requested.kind != IntType::Empty,
        ensures
            *final(self) == (Cpu {
                state: TmpState { int_kind: old(self).int_requested.kind, ..tmp_default() },
                int_requested: Interrupt { kind: IntType::Empty, is_force_delayed: false },
                mode: CpuMode::Interrupt,
                int_polling_enabled: false,
                ..*old(self)
            }),
    {
        let kind = self.int_requested.kind;
        self.state = cpu_state::make_tmp_default();
        self.state.int_kind = kind;
        self.int_requested = Interrupt { kind: IntType::Empty, is_force_delayed: false };
        self.mode = CpuMode::Interrupt;
        self.int_polling_enabled = false;
    }

    /// What an instruction's last cycle calls once its work is done.
    fn exec_finished(&mut self)
        ensures
            finishes_to(
                old(self).regs,
                old(self).mem.ram@,
                old(self).stall_cycles,
                *old(self),
                *final(self),
            ),
            final(self).mem.wf() == old(self).mem.wf(),
    {
        self.switch_state_fetch();
    }
}

/// The poll's effect on the pending slot: the asserted pin with the highest
/// priority wins (reset before NMI before IRQ, IRQ gated by the
/// interrupt-disable flag), the winner's latch is cleared where entry
/// demands, and an empty poll changes nothing.
pub open spec fn check_int_rel(pre: Cpu, post: Cpu) -> bool {
    if pre.reset_occurred {
        post == Cpu {
            reset_occurred: false,
            int_requested: Interrupt { kind: IntType::Reset, is_force_delayed: false },
            ..pre
        }
    } else if pre.nmi_occurred {
        post == Cpu {
            nmi_occurred: false,
            int_requested: Interrupt { kind: IntType::Nmi, is_force_delayed: false },
            ..pre
        }
    } else if pre.irq_occurred && !flag_set(pre.regs.p, FLAG_INT_DISABLE) {
        post == Cpu { int_requested: Interrupt { kind: IntType::Irq, is_force_delayed: false }, ..pre }
    } else {
        post == pre
    }
}

/// The stall counter after a bus write: an OAM-DMA trigger stalls the CPU.
pub open spec fn stall_after(stall: u32, addr: u16) -> u32 {
    if addr == crate::mem::OAM_DMA_ADDR {
        (stall + crate::mem::DMA_STALL_CYCLES) as u32
    } else {
        stall
    }
}

/// How an instruction ends, from a machine whose registers, memory and stall
/// already hold the instruction's results: control routes to the interrupt
/// sequence exactly when the pending slot holds an interrupt whose delay
/// flag is clear; a set delay flag is consumed and buys the program one more
/// instruction.
pub open spec fn finishes_to(
    regs: Registers,
    ram: Seq<u8>,
    stall: u32,
    pre: Cpu,
    post: Cpu,
) -> bool {
    &&& post.regs == regs
    &&& post.mem.ram@ == ram
    &&& post.stall_cycles == stall
    &&& post.clock_counter == pre.clock_counter
    &&& post.reset_occurred == pre.reset_occurred
    &&& post.nmi_occurred == pre.nmi_occurred
    &&& post.irq_occurred == pre.irq_occurred
    &&& if pre.int_requested.kind != IntType::Empty {
        if pre.int_requested.is_force_delayed {
            &&& post.int_requested == (Interrupt {
                kind: pre.int_requested.kind,
                is_force_delayed: false,
            })
            &&& post.state == tmp_default()
            &&& post.mode == CpuMode::Fetch
            &&& post.int_polling_enabled == pre.int_polling_enabled
        } else {
            &&& post.state == (TmpState { int_kind: pre.int_requested.kind, ..tmp_default() })
            &&& post.int_requested == (Interrupt {
                kind: IntType::Empty,
                is_force_delayed: false,
            })
            &&& post.mode == CpuMode::Interrupt
            &&& !post.int_polling_enabled
        }
    } else {
        &&& post.state == tmp_default()
        &&& post.mode == CpuMode::Fetch
        &&& post.int_requested == pre.int_requested
        &&& post.int_polling_enabled == pre.int_polling_enabled
    }
}

/// One working cycle holds: registers, memory, stall and transient state
/// take their new values; mode, pending slot, poll arm, clock and pins stay.
pub open spec fn steps_to(
    regs: Registers,
    ram: Seq<u8>,
    stall: u32,
    state: TmpState,
    pre: Cpu,
    post: Cpu,
) -> bool {
    &&& post.regs == regs
    &&& post.mem.ram@ == ram
    &&& post.stall_cycles == stall
    &&& post.state == state
    &&& post.mode == pre.mode
    &&& post.int_requested == pre.int_requested
    &&& post.int_polling_enabled == pre.int_polling_enabled
    &&& post.clock_counter == pre.clock_counter
    &&& post.reset_occurred == pre.reset_occurred
    &&& post.nmi_occurred == pre.nmi_occurred
    &&& post.irq_occurred == pre.irq_occurred
}

/// A machine state right after a cycle's clock and sub-cycle counter have
/// stepped, before the stage's work.
pub open spec fn bumped(c: Cpu) -> Cpu {
    Cpu {
        clock_counter: (c.clock_counter + 1) as u64,
        state: TmpState { counter: (c.state.counter + 1) as u8, ..c.state },
        ..c
    }
}

/// The end-of-cycle interrupt poll: armed only one cycle before the
/// instruction's last, and only while the pending slot is empty; it then
/// records the winning pin.
pub open spec fn poll_rel(pre: Cpu, post: Cpu) -> bool {
    if pre.int_polling_enabled && pre.int_requested.kind == IntType::Empty
        && pre.state.executer.last_cycle == pre.state.counter + 1 {
        check_int_rel(pre, post)
    } else {
        post == pre
    }
}

/// One whole CPU cycle: a pending stall only counts down; otherwise the
/// clock and counter step and the stage's work and the poll run.
pub open spec fn cpu_step_rel(
    pre: Cpu,
    post: Cpu,
    p0: Ppu,
    p1: Ppu,
    r: Result<(), CpuError>,
) -> bool {
    if pre.stall_cycles > 0 {
        &&& post == Cpu {
            clock_counter: (pre.clock_counter + 1) as u64,
            stall_cycles: (pre.stall_cycles - 1) as u32,
            ..pre
        }
        &&& p1 == p0
        &&& r is Ok
    } else {
        step_dispatch_rel(bumped(pre), post, p0, p1, r)
    }
}

/// What one cycle does once the clock and counter have stepped: the stage's
/// work (fetch, template cycle, or interrupt cycle) reaches a middle state,
/// and the poll runs on it.
pub open spec fn step_dispatch_rel(
    pre: Cpu,
    post: Cpu,
    p0: Ppu,
    p1: Ppu,
    r: Result<(), CpuError>,
) -> bool {
    exists|mid: Cpu|
        {
            &&& #[trigger] poll_rel(mid, post)
            &&& match pre.mode {
                CpuMode::Fetch => cpu_state::fetch_step_rel(pre, mid, p0, p1, r),
                CpuMode::Exec => crate::cpu::executer::exec_dispatch_rel(pre, mid, p0, p1)
                    && r is Ok,
                CpuMode::Interrupt => cpu_state::int_step_rel(pre, mid, p0, p1) && r is Ok,
            }
        }
}

impl Cpu {
    /// Advances the CPU by one cycle.  A pending OAM-DMA stall only counts
    /// down; otherwise the clock and sub-cycle counter step, the current
    /// stage runs one cycle, and one cycle before an instruction's last the
    /// interrupt pins are polled into the pending slot.  The only error is
    /// an undefined opcode at a fetch.
    #[verifier::rlimit(100)]
    #[verifier::spinoff_prover]
    pub fn step(&mut self, ppu: &mut Ppu) -> (r: Result<(), CpuError>)
        requires
            old(self).wf(),
            old(ppu).wf(),
            old(self).clock_counter < u64::MAX,
        ensures
            final(self).wf(),
            final(ppu).wf(),
            final(self).clock_counter == old(self).clock_counter + 1,
            old(self).stall_cycles > 0 ==> *final(self) == (Cpu {
                clock_counter: (old(self).clock_counter + 1) as u64,
                stall_cycles: (old(self).stall_cycles - 1) as u32,
                ..*old(self)
            }) && *final(ppu) == *old(ppu) && r is Ok,
            old(self).stall_cycles == 0 ==> step_dispatch_rel(
                bumped(*old(self)),
                *final(self),
                *old(ppu),
                *final(ppu),
                r,
            ),
            cpu_step_rel(*old(self), *final(self), *old(ppu), *final(ppu), r),
    {
        if self.stall_cycles > 0 {
            self.stall_cycles = self.stall_cycles - 1;
            self.clock_counter = self.clock_counter + 1;
            return Ok(());
        }
        self.clock_counter = self.clock_counter + 1;
        self.state.counter = self.state.counter + 1;
        let ghost pre2 = *self;
        proof {
            assert(pre2 == bumped(*old(self)));
        }
        let result = match self.mode {
            CpuMode::Fetch => self.fetch_step(ppu),
            CpuMode::Exec => {
                self.exec_step(ppu);
                Ok(())
            },
            CpuMode::Interrupt => {
                self.int_step(ppu);
                Ok(())
            },
        };
        let ghost mid = *self;
        proof {
            assert(self.wf());
        }
        if self.int_polling_enabled && self.int_requested.kind == IntType::Empty
            && (self.state.executer.last_cycle as u16) == (self.state.counter as u16) + 1 {
            self.check_int();
        }
        proof {
            assert(self.wf());
        }
        proof {
            assert(poll_rel(mid, *self));
            assert(step_dispatch_rel(pre2, *self, *old(ppu), *ppu, result));
        }
        result
    }
}

/// Pushing a byte and pulling it back restores both the byte and the stack
/// pointer, and the accumulator flags a pull would set follow the byte: the
/// PHA and PLA pair restores A with Negative and Zero set appropriately.
pub proof fn lemma_pha_pla_round_trip(ram: Seq<u8>, rg: Registers)
    requires
        ram.len() == 0x10000,
    ensures
        ({
            let pulled = stack_peek(stack_push_ram(ram, rg.s, rg.a), inc_s(dec_s(rg.s)));
            &&& pulled == rg.a
            &&& flag_set(set_nz(rg.p, pulled), FLAG_ZERO) <==> rg.a == 0
            &&& flag_set(set_nz(rg.p, pulled), FLAG_NEGATIVE) <==> rg.a >= 0x80
        }),
{
    lemma_push_pull_round_trip(ram, rg.s, rg.a);
    lemma_set_nz_bits(rg.p, rg.a);
}

/// Pushing the status register as PHP shows it (Break raised) and pulling it
/// back as PLP does restores every flag except Break, which comes back low;
/// the reserved bit stays high throughout.
pub proof fn lemma_php_plp_round_trip(ram: Seq<u8>, rg: Registers)
    requires
        ram.len() == 0x10000,
    ensures
        ({
            let pulled = plp_value(
                stack_peek(stack_push_ram(ram, rg.s, rg.p | FLAG_BREAK), inc_s(dec_s(rg.s))),
            );
            &&& pulled == (rg.p & !FLAG_BREAK) | FLAG_RESERVED
            &&& !flag_set(pulled, FLAG_BREAK)
            &&& flag_set(pulled, FLAG_RESERVED)
            &&& flag_set(rg.p, FLAG_RESERVED) && !flag_set(rg.p, FLAG_BREAK) ==> pulled == rg.p
        }),
{
    lemma_push_pull_round_trip(ram, rg.s, rg.p | FLAG_BREAK);
    let p = rg.p;
    assert(((p | 0x10u8) & !0x10u8) | 0x20u8 == (p & !0x10u8) | 0x20u8) by (bit_vector);
    assert((((p & !0x10u8) | 0x20u8) & 0x10u8) == 0) by (bit_vector);
    assert((((p & !0x10u8) | 0x20u8) & 0x20u8) != 0) by (bit_vector);
    assert(p & 0x20 != 0 && p & 0x10 == 0 ==> (p & !0x10u8) | 0x20u8 == p) by (bit_vector);
}

/// The jump-to-subroutine and return pair: JSR fetched at `opcode_addr`
/// pushes the address of its own third byte, and RTS pulls it and resumes
/// one past it — at `opcode_addr + 3`, the byte after the JSR instruction.
pub proof fn lemma_jsr_rts_round_trip(ram: Seq<u8>, s: u8, opcode_addr: u16)
    requires
        ram.len() == 0x10000,
    ensures
        ({
            let pc_pushed = wrap16(opcode_addr + 2);
            let ram1 = stack_push_ram(ram, s, hi_byte(pc_pushed));
            let ram2 = stack_push_ram(ram1, dec_s(s), lo_byte(pc_pushed));
            let s2 = dec_s(dec_s(s));
            let low = stack_peek(ram2, inc_s(s2));
            let high = stack_peek(ram2, inc_s(inc_s(s2)));
            wrap16(addr_of(high, low) + 1) == wrap16(opcode_addr + 3)
        }),
{
    let pc_pushed = wrap16(opcode_addr + 2);
    lemma_push_pull_round_trip(stack_push_ram(ram, s, hi_byte(pc_pushed)), dec_s(s), lo_byte(pc_pushed));
    assert(stack_peek(
        stack_push_ram(stack_push_ram(ram, s, hi_byte(pc_pushed)), dec_s(s), lo_byte(pc_pushed)),
        s,
    ) == hi_byte(pc_pushed));
    crate::util::lemma_addr_split_join(pc_pushed);
}

/// Negative and Zero after a flag update follow the value exactly, and no
/// other flag moves.
pub proof fn lemma_set_nz_bits(p: u8, v: u8)
    ensures
        flag_set(set_nz(p, v), FLAG_ZERO) <==> v == 0,
        flag_set(set_nz(p, v), FLAG_NEGATIVE) <==> v >= 0x80,
        set_nz(p, v) & 0x7D == p & 0x7D,
{
    if v == 0 {
        assert(((p | 0x80u8) | 0x02u8) & 0x02u8 != 0 && ((p & !0x80u8) | 0x02u8) & 0x02u8 != 0)
            by (bit_vector);
    } else {
        assert(((p | 0x80u8) & !0x02u8) & 0x02u8 == 0 && ((p & !0x80u8) & !0x02u8) & 0x02u8 == 0)
            by (bit_vector);
    }
    assert(((p | 0x80u8) | 0x02u8) & 0x80u8 != 0 && ((p | 0x80u8) & !0x02u8) & 0x80u8 != 0)
        by (bit_vector);
    assert(((p & !0x80u8) | 0x02u8) & 0x80u8 == 0 && ((p & !0x80u8) & !0x02u8) & 0x80u8 == 0)
        by (bit_vector);
    assert(((p | 0x80u8) | 0x02u8) & 0x7Du8 == p & 0x7Du8 && ((p | 0x80u8) & !0x02u8) & 0x7Du8 == p
        & 0x7Du8 && ((p & !0x80u8) | 0x02u8) & 0x7Du8 == p & 0x7Du8 && ((p & !0x80u8) & !0x02u8)
        & 0x7Du8 == p & 0x7Du8) by (bit_vector);
}

/// The operation cores keep a set reserved bit, ambiently: every value
/// `core_apply` can hand back carries it.
pub broadcast proof fn lemma_core_apply_reserved_auto(c: OpCore, rg: Registers, v: u8)
    ensures
        flag_set(rg.p, FLAG_RESERVED) ==> flag_set(
            #[trigger] core_apply(c, rg, v).0.p,
            FLAG_RESERVED,
        ),
{
    if flag_set(rg.p, FLAG_RESERVED) {
        lemma_core_apply_keeps_reserved(c, rg, v);
    }
}

/// A status register restored from a stack image reads the reserved bit as
/// one, ambiently.
pub broadcast proof fn lemma_plp_value_reserved_auto(v: u8)
    ensures
        flag_set(#[trigger] plp_value(v), FLAG_RESERVED),
{
    assert(((v & !0x10u8) | 0x20u8) & 0x20u8 != 0) by (bit_vector);
}

/// A Negative/Zero update keeps a set reserved bit, ambiently.
pub broadcast proof fn lemma_set_nz_reserved_auto(p: u8, v: u8)
    ensures
        flag_set(p, FLAG_RESERVED) ==> flag_set(#[trigger] set_nz(p, v), FLAG_RESERVED),
{
    assert(p & 0x20 != 0 ==> set_nz(p, v) & 0x20 != 0) by (bit_vector);
}

/// Every flag writer of the operation cores keeps the reserved bit where it
/// was set: the core semantics never clear it.
#[verifier::rlimit(100)]
#[verifier::spinoff_prover]
pub proof fn lemma_core_apply_keeps_reserved(c: OpCore, rg: Registers, v: u8)
    requires
        flag_set(rg.p, FLAG_RESERVED),
    ensures
        flag_set(core_apply(c, rg, v).0.p, FLAG_RESERVED),
{
    assert(forall|w: u8, q: u8| q & 0x20 != 0 ==> #[trigger] set_nz(q, w) & 0x20 != 0)
        by (bit_vector);
    assert(forall|q: u8, m: u8| q & 0x20 != 0 && m & 0x20 == 0 ==> #[trigger] (q & !m) & 0x20 != 0)
        by (bit_vector);
    assert(forall|q: u8, m: u8| q & 0x20 != 0 ==> #[trigger] (q | m) & 0x20 != 0) by (bit_vector);
    assert(0x01u8 & 0x20 == 0 && 0x02u8 & 0x20 == 0 && 0x04u8 & 0x20 == 0 && 0x08u8 & 0x20 == 0
        && 0x10u8 & 0x20 == 0 && 0x40u8 & 0x20 == 0 && 0x80u8 & 0x20 == 0) by (bit_vector);
}

/// The reserved status bit reads as one after every CPU cycle: the machine
/// invariant carries it, construction and power-on raise it, and no cycle
/// clears it — so it reads as one after every completed instruction.
#[verifier::rlimit(100)]
#[verifier::spinoff_prover]
pub proof fn lemma_reserved_bit_invariant(
    pre: Cpu,
    post: Cpu,
    p0: Ppu,
    p1: Ppu,
    r: Result<(), CpuError>,
)
    requires
        pre.wf(),
        cpu_step_rel(pre, post, p0, p1, r),
    ensures
        flag_set(post.regs.p, FLAG_RESERVED),
{
    assert forall|c: OpCore, rg2: Registers, w: u8|
        flag_set(rg2.p, FLAG_RESERVED) implies flag_set(
        #[trigger] core_apply(c, rg2, w).0.p,
        FLAG_RESERVED,
    ) by {
        lemma_core_apply_keeps_reserved(c, rg2, w);
    }
    assert(forall|w: u8| #[trigger] plp_value(w) & 0x20 != 0) by (bit_vector);
    assert(forall|q: u8, w: u8| q & 0x20 != 0 ==> #[trigger] set_nz(q, w) & 0x20 != 0)
        by (bit_vector);
    assert(forall|q: u8, m: u8| q & 0x20 != 0 ==> #[trigger] (q | m) & 0x20 != 0) by (bit_vector);
    if pre.stall_cycles == 0 {
        let b = bumped(pre);
        let mid = choose|mid: Cpu|
            {
                &&& #[trigger] poll_rel(mid, post)
                &&& match b.mode {
                    CpuMode::Fetch => cpu_state::fetch_step_rel(b, mid, p0, p1, r),
                    CpuMode::Exec => crate::cpu::executer::exec_dispatch_rel(b, mid, p0, p1)
                        && r is Ok,
                    CpuMode::Interrupt => cpu_state::int_step_rel(b, mid, p0, p1) && r is Ok,
                }
            };
        assert(flag_set(mid.regs.p, FLAG_RESERVED));
        assert(flag_set(post.regs.p, FLAG_RESERVED));
    }
}

/// How an instruction's completion routes control: a pending interrupt whose
/// delay flag is clear enters the interrupt sequence; a set delay flag is
/// consumed instead, and the machine fetches exactly one more instruction
/// with the interrupt still pending.
pub proof fn lemma_finish_routes_interrupts(
    regs: Registers,
    ram: Seq<u8>,
    stall: u32,
    pre: Cpu,
    post: Cpu,
)
    requires
        finishes_to(regs, ram, stall, pre, post),
        pre.int_requested.kind != IntType::Empty,
    ensures
        pre.int_requested.is_force_delayed ==> post.mode == CpuMode::Fetch
            && post.int_requested == (Interrupt {
            kind: pre.int_requested.kind,
            is_force_delayed: false,
        }),
        !pre.int_requested.is_force_delayed ==> post.mode == CpuMode::Interrupt
            && post.state.int_kind == pre.int_requested.kind && post.int_requested.kind
            == IntType::Empty,
{
}

} // verus!
