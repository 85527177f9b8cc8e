//! The CPU's stage machine: fetch, execute, interrupt.
//!
//! Each call of `Cpu::step` advances one cycle of whichever stage is under
//! way.  The fetch stage consumes the opcode and loads the instruction's
//! template; the execute stage runs the template's per-cycle script; the
//! interrupt stage runs the fixed seven-cycle entry sequence.

use vstd::prelude::*;
use crate::cpu::{
    Cpu, CpuError, Registers, Interrupt, IntType, with_p, with_pc, wrap16, dec_s, stack_push_ram,
    steps_to, finishes_to, FLAG_BREAK, FLAG_INT_DISABLE,
};
use crate::cpu::decoder::{Executer, decode};
use crate::cpu::instruction::{
    spec_dummy_inst, spec_decode, inst_wf, template_base, template_cap, counter_last_ok, OpCore,
    Template,
};
use crate::cpu::executer::exec_dispatch_rel;
use crate::mem::{bus_read_val, bus_read_rel};
use crate::ppu::Ppu;
use crate::util::{addr_of, lo_byte, hi_byte};

verus! {

broadcast use
    crate::cpu::lemma_core_apply_reserved_auto,
    crate::cpu::lemma_plp_value_reserved_auto,
    crate::cpu::lemma_set_nz_reserved_auto;


/// Which stage the next cycle belongs to.
#[derive(Debug, PartialEq, Eq, Structural, Clone, Copy)]
pub enum CpuMode {
    /// Fetch the next opcode.
    Fetch,
    /// Run the current instruction's template.
    Exec,
    /// Run the interrupt entry sequence.
    Interrupt,
}

/// The transient state of one instruction or interrupt sequence.
#[derive(Debug, PartialEq, Eq, Structural, Clone, Copy)]
pub struct TmpState {
    /// The sub-cycle under way, counted from 1.
    pub counter: u8,
    /// The first operand scratch byte.
    pub op_1: u8,
    /// The second operand scratch byte.
    pub op_2: u8,
    /// The scratch 16-bit address.
    pub addr: u16,
    /// Which interrupt the interrupt stage is servicing.
    pub int_kind: IntType,
    /// The instruction under execution, with its cycle budget.
    pub executer: Executer,
}

/// The cleared transient state carried between instructions.
pub open spec fn tmp_default() -> TmpState {
    TmpState {
        counter: 0,
        op_1: 0,
        op_2: 0,
        addr: 0,
        int_kind: IntType::Empty,
        executer: Executer { last_cycle: 0, inst: spec_dummy_inst() },
    }
}

/// Builds the cleared transient state.
pub fn make_tmp_default() -> (r: TmpState)
    ensures
        r == tmp_default(),
{
    TmpState {
        counter: 0,
        op_1: 0,
        op_2: 0,
        addr: 0,
        int_kind: IntType::Empty,
        executer: Executer {
            last_cycle: 0,
            inst: crate::cpu::instruction::make_inst(OpCore::Nop, Template::Implied),
        },
    }
}

impl Default for TmpState {
    /// The cleared transient state.
    fn default() -> (r: Self)
        ensures
            r == tmp_default(),
    {
        make_tmp_default()
    }
}

/// The invariant of the execute stage between cycles: the counter has not
/// yet reached the cycle budget nor the template's last scripted cycle, the
/// loaded entry is well formed, and the budget matches the schedule the
/// template follows at the next cycle.
pub open spec fn exec_state_inv(st: TmpState) -> bool {
    let t = st.executer.inst.template;
    &&& 1 <= st.counter
    &&& st.counter < st.executer.last_cycle
    &&& st.counter < template_cap(t)
    &&& inst_wf(st.executer.inst)
    &&& counter_last_ok(t, st.counter + 1, st.executer.last_cycle)
}

/// The execute stage's state as its template sees it, right after the
/// counter has stepped.
pub open spec fn exec_entry_inv(st: TmpState) -> bool {
    let t = st.executer.inst.template;
    &&& 2 <= st.counter
    &&& st.counter <= st.executer.last_cycle
    &&& st.counter <= template_cap(t)
    &&& inst_wf(st.executer.inst)
    &&& counter_last_ok(t, st.counter as int, st.executer.last_cycle)
}

/// What the fetch cycle does: it consumes the byte at the program counter.
/// A zero byte is the BRK software interrupt and hands control to the
/// interrupt sequence directly.  Any other byte is looked up in the table;
/// execution starts with its template and base budget and the interrupt poll
/// armed, and an absent entry is reported as an undefined opcode with the
/// machine left waiting to fetch.
pub open spec fn fetch_step_rel(
    pre: Cpu,
    post: Cpu,
    p0: Ppu,
    p1: Ppu,
    r: Result<(), CpuError>,
) -> bool {
    let op = bus_read_val(pre.mem.ram@, p0, pre.regs.pc);
    let rg1 = with_pc(pre.regs, wrap16(pre.regs.pc + 1));
    &&& bus_read_rel(p0, p1, pre.regs.pc)
    &&& if op == 0 {
        &&& post == Cpu {
            regs: rg1,
            state: TmpState { int_kind: IntType::Brk, ..pre.state },
            mode: CpuMode::Interrupt,
            int_polling_enabled: false,
            ..pre
        }
        &&& r is Ok
    } else {
        match spec_decode(op) {
            Some(i) => {
                &&& post == Cpu {
                    regs: rg1,
                    state: TmpState {
                        executer: Executer { last_cycle: i.min_clock, inst: i },
                        ..pre.state
                    },
                    mode: CpuMode::Exec,
                    int_polling_enabled: true,
                    ..pre
                }
                &&& r is Ok
            },
            None => {
                &&& post == Cpu { regs: rg1, state: tmp_default(), mode: CpuMode::Fetch, ..pre }
                &&& r == Result::<(), CpuError>::Err(
                    CpuError::UndefinedOpcode { opcode: op, pc: pre.regs.pc },
                )
            },
        }
    }
}

/// The interrupt vector each kind reads its handler address from.
pub open spec fn int_vector(kind: IntType) -> u16 {
    match kind {
        IntType::Reset => 0xFFFCu16,
        IntType::Nmi => 0xFFFAu16,
        _ => 0xFFFEu16,
    }
}

/// The stack pointer after the reset sequence's silent triple decrement.
pub open spec fn dec3_s(s: u8) -> u8 {
    ((s + 253) % 256) as u8
}

/// What each cycle of the seven-cycle interrupt sequence does.  BRK advances
/// the program counter by one more byte on cycle 2; cycles 3-5 push the
/// return address and the status register (with Break set exactly for BRK),
/// except on reset, which writes nothing; cycle 6 raises the
/// interrupt-disable flag; cycle 7 loads the handler address from the
/// kind's vector (reset also silently decrements the stack pointer by three
/// and raises interrupt-disable) and completes.  The PPU is never touched.
pub open spec fn int_step_rel(pre: Cpu, post: Cpu, p0: Ppu, p1: Ppu) -> bool {
    let k = pre.state.counter;
    let kind = pre.state.int_kind;
    let rg = pre.regs;
    let ram = pre.mem.ram@;
    &&& p1 == p0
    &&& if k == 1 {
        post == pre
    } else if k == 2 {
        if kind == IntType::Brk {
            post == Cpu { regs: with_pc(rg, wrap16(rg.pc + 1)), ..pre }
        } else {
            post == pre
        }
    } else if k == 3 {
        if kind != IntType::Reset {
            steps_to(
                Registers { s: dec_s(rg.s), ..rg },
                stack_push_ram(ram, rg.s, hi_byte(rg.pc)),
                pre.stall_cycles,
                pre.state,
                pre,
                post,
            )
        } else {
            post == pre
        }
    } else if k == 4 {
        if kind != IntType::Reset {
            steps_to(
                Registers { s: dec_s(rg.s), ..rg },
                stack_push_ram(ram, rg.s, lo_byte(rg.pc)),
                pre.stall_cycles,
                pre.state,
                pre,
                post,
            )
        } else {
            post == pre
        }
    } else if k == 5 {
        if kind != IntType::Reset {
            steps_to(
                Registers { s: dec_s(rg.s), ..rg },
                stack_push_ram(
                    ram,
                    rg.s,
                    (rg.p & !FLAG_BREAK) | (if kind == IntType::Brk {
                        FLAG_BREAK
                    } else {
                        0u8
                    }),
                ),
                pre.stall_cycles,
                pre.state,
                pre,
                post,
            )
        } else {
            post == pre
        }
    } else if k == 6 {
        post == Cpu { regs: with_p(rg, rg.p | FLAG_INT_DISABLE), ..pre }
    } else {
        let vec = int_vector(kind);
        let handler = addr_of(ram[vec + 1], ram[vec as int]);
        let rg1 = if kind == IntType::Reset {
            Registers { pc: handler, s: dec3_s(rg.s), p: rg.p | FLAG_INT_DISABLE, ..rg }
        } else {
            with_pc(rg, handler)
        };
        finishes_to(rg1, ram, pre.stall_cycles, pre, post)
    }
}

impl Cpu {
    /// The fetch cycle: consumes the opcode at the program counter and hands
    /// control to the interrupt sequence (for BRK) or to the opcode's
    /// template, or reports an undefined opcode.
    pub fn fetch_step(&mut self, ppu: &mut Ppu) -> (r: Result<(), CpuError>)
        requires
            old(self).mem.wf(),
            old(ppu).wf(),
            old(self).state.counter == 1,
        ensures
            final(self).mem.wf(),
            final(ppu).wf(),
            fetch_step_rel(*old(self), *final(self), *old(ppu), *final(ppu), r),
    {
        let pc0 = self.regs.pc;
        let opcode = self.fetch(ppu);
        if opcode == 0 {
            self.state.int_kind = IntType::Brk;
            self.mode = CpuMode::Interrupt;
            self.int_polling_enabled = false;
            Ok(())
        } else {
            match decode(opcode) {
                Some(e) => {
                    self.state.executer = e;
                    self.mode = CpuMode::Exec;
                    self.int_polling_enabled = true;
                    Ok(())
                },
                None => {
                    self.state = make_tmp_default();
                    self.mode = CpuMode::Fetch;
                    Err(CpuError::UndefinedOpcode { opcode, pc: pc0 })
                },
            }
        }
    }

    /// One cycle of the execute stage: runs the loaded template's script at
    /// the current sub-cycle.
    pub fn exec_step(&mut self, ppu: &mut Ppu)
        requires
            old(self).mem.wf(),
            old(ppu).wf(),
            old(self).mode == CpuMode::Exec,
            old(self).stall_cycles == 0,
            exec_entry_inv(old(self).state),
            crate::cpu::flag_set(old(self).regs.p, crate::cpu::FLAG_RESERVED),
        ensures
            final(self).wf(),
            final(ppu).wf(),
            exec_dispatch_rel(*old(self), *final(self), *old(ppu), *final(ppu)),
    {
        match self.state.executer.inst.template {
            Template::Immediate => self.exec_immediate(ppu),
            Template::ZeroPage => self.exec_zeropage(ppu),
            Template::IndexedZeroPageX => self.exec_indexed_zeropage_x(ppu),
            Template::IndexedZeroPageY => self.exec_indexed_zeropage_y(ppu),
            Template::Absolute => self.exec_absolute(ppu),
            Template::Implied => self.exec_implied(ppu),
            Template::IndexedAbsoluteX => self.exec_indexed_absolute_x(ppu),
            Template::IndexedAbsoluteY => self.exec_indexed_absolute_y(ppu),
            Template::IndexedIndirectX => self.exec_indexed_indirect_x(ppu),
            Template::IndirectIndexedY => self.exec_indirect_indexed_y(ppu),
            Template::PullStack => self.exec_pull_stack(ppu),
            Template::PushStack => self.exec_push_stack(ppu),
            Template::Rti => self.exec_rti(ppu),
            Template::Rts => self.exec_rts(ppu),
            Template::Jsr => self.exec_jsr(ppu),
            Template::Accumulator => self.exec_accumulator(ppu),
            Template::ZeroPageRmw => self.exec_zeropage_rmw(ppu),
            Template::IndexedZeroPageXRmw => self.exec_indexed_zeropage_x_rmw(ppu),
            Template::AbsoluteRmw => self.exec_absolute_rmw(ppu),
            Template::IndexedAbsoluteXRmw => self.exec_indexed_absolute_x_rmw(ppu),
            Template::AbsoluteJmp => self.exec_absolute_jmp(ppu),
            Template::IndirectJmp => self.exec_indirect_jmp(ppu),
            Template::Relative => self.exec_relative(ppu),
        }
    }

    /// One cycle of the interrupt entry sequence.
    #[verifier::rlimit(100)]
    pub fn int_step(&mut self, ppu: &mut Ppu)
        requires
            old(self).mem.wf(),
            old(ppu).wf(),
            old(self).mode == CpuMode::Interrupt,
            old(self).stall_cycles <= crate::mem::DMA_STALL_CYCLES,
            1 <= old(self).state.counter <= 7,
            old(self).state.int_kind != IntType::Empty,
            crate::cpu::flag_set(old(self).regs.p, crate::cpu::FLAG_RESERVED),
        ensures
            final(self).wf(),
            final(ppu).wf(),
            int_step_rel(*old(self), *final(self), *old(ppu), *final(ppu)),
    {
        let counter = self.state.counter;
        if counter == 1 {
        } else if counter == 2 {
            if self.state.int_kind == IntType::Brk {
                self.regs.pc = (((self.regs.pc as u32) + 1) % 0x10000) as u16;
            }
        } else if counter == 3 {
            if self.state.int_kind != IntType::Reset {
                let high = (self.regs.pc / 256) as u8;
                self.push_stack(high);
            }
        } else if counter == 4 {
            if self.state.int_kind != IntType::Reset {
                let low = (self.regs.pc % 256) as u8;
                self.push_stack(low);
            }
        } else if counter == 5 {
            if self.state.int_kind != IntType::Reset {
                let brk_flag: u8 = if self.state.int_kind == IntType::Brk {
                    FLAG_BREAK
                } else {
                    0
                };
                let flags = (self.regs.p & !FLAG_BREAK) | brk_flag;
                self.push_stack(flags);
            }
        } else if counter == 6 {
            proof {
                let p0 = old(self).regs.p;
                assert((p0 | FLAG_INT_DISABLE) & 0x20u8 != 0) by (bit_vector)
                    requires
                        p0 & 0x20u8 != 0,
                ;
            }
            self.regs.flags_on(FLAG_INT_DISABLE);
        } else {
            let vec_addr: u16 = match self.state.int_kind {
                IntType::Reset => 0xFFFC,
                IntType::Nmi => 0xFFFA,
                _ => 0xFFFE,
            };
            let low = self.mem.read_ram(vec_addr);
            let high = self.mem.read_ram(vec_addr + 1);
            self.regs.pc = crate::util::make_addr(high, low);
            if self.state.int_kind == IntType::Reset {
                proof {
                    let p0 = old(self).regs.p;
                    assert((p0 | FLAG_INT_DISABLE) & 0x20u8 != 0) by (bit_vector)
                        requires
                            p0 & 0x20u8 != 0,
                    ;
                }
                self.regs.s = (((self.regs.s as u16) + 253) % 256) as u8;
                self.regs.flags_on(FLAG_INT_DISABLE);
            }
            self.switch_state_fetch();
        }
    }
}

/// The reset entry sequence never writes to the stack: every cycle of it
/// leaves memory untouched, and its last cycle decrements the stack pointer
/// by three without writing.
pub proof fn lemma_reset_entry_writes_nothing(pre: Cpu, post: Cpu, p0: Ppu, p1: Ppu)
    requires
        pre.state.int_kind == IntType::Reset,
        1 <= pre.state.counter <= 7,
        int_step_rel(pre, post, p0, p1),
    ensures
        post.mem.ram@ == pre.mem.ram@,
        pre.state.counter == 7 ==> post.regs.s == dec3_s(pre.regs.s) && dec3_s(pre.regs.s) == (
        pre.regs.s + 256 - 3) % 256,
{
}

/// The status image a hardware-interrupt entry pushes reads the reserved bit
/// as one and Break as zero; a BRK entry pushes it with Break set.  Under the
/// machine invariant the bit needs no further hypothesis: the invariant
/// carries it.
pub proof fn lemma_interrupt_pushed_status(pre: Cpu, post: Cpu, p0: Ppu, p1: Ppu)
    requires
        pre.mem.wf(),
        crate::cpu::flag_set(pre.regs.p, crate::cpu::FLAG_RESERVED),
        pre.state.counter == 5,
        pre.state.int_kind != IntType::Empty,
        pre.state.int_kind != IntType::Reset,
        int_step_rel(pre, post, p0, p1),
    ensures
        crate::cpu::flag_set(
            crate::cpu::stack_peek(post.mem.ram@, pre.regs.s),
            crate::cpu::FLAG_RESERVED,
        ),
        crate::cpu::flag_set(
            crate::cpu::stack_peek(post.mem.ram@, pre.regs.s),
            FLAG_BREAK,
        ) <==> pre.state.int_kind == IntType::Brk,
{
    let pushed = (pre.regs.p & !FLAG_BREAK) | (if pre.state.int_kind == IntType::Brk {
        FLAG_BREAK
    } else {
        0u8
    });
    crate::cpu::lemma_push_pull_round_trip(pre.mem.ram@, pre.regs.s, pushed);
    let p = pre.regs.p;
    assert(((p & !0x10u8) | 0u8) & 0x20u8 != 0 && ((p & !0x10u8) | 0x10u8) & 0x20u8 != 0)
        by (bit_vector)
        requires
            p & 0x20u8 != 0,
    ;
    assert(((p & !0x10u8) | 0u8) & 0x10u8 == 0 && ((p & !0x10u8) | 0x10u8) & 0x10u8 != 0)
        by (bit_vector);
}

} // verus!
