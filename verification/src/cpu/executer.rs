//! The addressing templates: one per-cycle script per addressing shape.
//!
//! Each function runs one sub-cycle of its template, performing exactly the
//! bus reads and writes that cycle issues, invoking the operation core at
//! the semantic point, and completing the instruction on its last cycle.
//! Each carries a relation spec that pins its whole effect on the CPU and
//! the PPU.

use vstd::prelude::*;
use crate::cpu::{
    Cpu, Registers, Interrupt, IntType, core_apply, branch_taken, branch_target, flag_set, with_p,
    with_pc, wrap16, dec_s, inc_s, stack_push_ram, stack_peek, plp_value, steps_to, finishes_to,
    stall_after, FLAG_BREAK, FLAG_RESERVED,
};
use crate::cpu::cpu_state::TmpState;
use crate::cpu::decoder::Executer;
use crate::cpu::instruction::{
    core_dst, is_branch_core, is_implied_core, is_rmw_core, is_value_core, Destination, OpCore,
    Template,
};
use crate::cpu::cpu_state::{exec_entry_inv, CpuMode};
use crate::mem::{bus_read_val, bus_read_rel, bus_write_ram, bus_write_ppu_rel};
use crate::ppu::Ppu;
use crate::util::addr_of;

verus! {

broadcast use
    crate::cpu::lemma_core_apply_reserved_auto,
    crate::cpu::lemma_plp_value_reserved_auto,
    crate::cpu::lemma_set_nz_reserved_auto;


/// An operand fetch cycle: the byte at the program counter lands in a
/// scratch byte (`op_1` unless `into_op2`), and the counter steps.
pub open spec fn fetch_op_rel(pre: Cpu, post: Cpu, p0: Ppu, p1: Ppu, into_op2: bool) -> bool {
    let v = bus_read_val(pre.mem.ram@, p0, pre.regs.pc);
    let st1 = if into_op2 {
        TmpState { op_2: v, ..pre.state }
    } else {
        TmpState { op_1: v, ..pre.state }
    };
    &&& bus_read_rel(p0, p1, pre.regs.pc)
    &&& steps_to(
        with_pc(pre.regs, wrap16(pre.regs.pc + 1)),
        pre.mem.ram@,
        pre.stall_cycles,
        st1,
        pre,
        post,
    )
}

/// The access-and-complete cycle of the read and write templates: a
/// register-destination instruction reads the operand and hands it to its
/// core, a memory-destination one asks its core for the byte and writes it.
pub open spec fn access_finish_rel(pre: Cpu, post: Cpu, p0: Ppu, p1: Ppu, a: u16) -> bool {
    let inst = pre.state.executer.inst;
    if inst.dst == Destination::Register {
        let v = bus_read_val(pre.mem.ram@, p0, a);
        &&& bus_read_rel(p0, p1, a)
        &&& finishes_to(
            core_apply(inst.core, pre.regs, v).0,
            pre.mem.ram@,
            pre.stall_cycles,
            pre,
            post,
        )
    } else {
        let out = core_apply(inst.core, pre.regs, 0).1;
        &&& bus_write_ppu_rel(pre.mem.ram@, p0, p1, a, out)
        &&& finishes_to(
            core_apply(inst.core, pre.regs, 0).0,
            bus_write_ram(pre.mem.ram@, a, out),
            stall_after(pre.stall_cycles, a),
            pre,
            post,
        )
    }
}

/// The same access when a page was crossed: the instruction continues for
/// one more cycle instead of completing.
pub open spec fn access_continue_rel(pre: Cpu, post: Cpu, p0: Ppu, p1: Ppu, a: u16) -> bool {
    let inst = pre.state.executer.inst;
    let st1 = TmpState {
        executer: Executer {
            last_cycle: (pre.state.executer.last_cycle + 1) as u8,
            ..pre.state.executer
        },
        ..pre.state
    };
    if inst.dst == Destination::Register {
        let v = bus_read_val(pre.mem.ram@, p0, a);
        &&& bus_read_rel(p0, p1, a)
        &&& steps_to(
            core_apply(inst.core, pre.regs, v).0,
            pre.mem.ram@,
            pre.stall_cycles,
            st1,
            pre,
            post,
        )
    } else {
        let out = core_apply(inst.core, pre.regs, 0).1;
        &&& bus_write_ppu_rel(pre.mem.ram@, p0, p1, a, out)
        &&& steps_to(
            core_apply(inst.core, pre.regs, 0).0,
            bus_write_ram(pre.mem.ram@, a, out),
            stall_after(pre.stall_cycles, a),
            st1,
            pre,
            post,
        )
    }
}

/// The two-cycle immediate template: cycle 2 fetches the operand and hands
/// it to the core.
pub open spec fn immediate_rel(pre: Cpu, post: Cpu, p0: Ppu, p1: Ppu) -> bool {
    let v = bus_read_val(pre.mem.ram@, p0, pre.regs.pc);
    &&& bus_read_rel(p0, p1, pre.regs.pc)
    &&& finishes_to(
        core_apply(pre.state.executer.inst.core, with_pc(pre.regs, wrap16(pre.regs.pc + 1)), v).0,
        pre.mem.ram@,
        pre.stall_cycles,
        pre,
        post,
    )
}

/// The three-cycle zero-page template: cycle 2 fetches the address, cycle 3
/// accesses it.
pub open spec fn zeropage_rel(pre: Cpu, post: Cpu, p0: Ppu, p1: Ppu) -> bool {
    if pre.state.counter == 2 {
        fetch_op_rel(pre, post, p0, p1, false)
    } else {
        access_finish_rel(pre, post, p0, p1, pre.state.op_1 as u16)
    }
}

/// The four-cycle indexed zero-page template: cycle 2 fetches the base,
/// cycle 3 adds the index within the zero page, cycle 4 accesses.
pub open spec fn indexed_zeropage_rel(pre: Cpu, post: Cpu, p0: Ppu, p1: Ppu, index: u8) -> bool {
    if pre.state.counter == 2 {
        fetch_op_rel(pre, post, p0, p1, false)
    } else if pre.state.counter == 3 {
        &&& p1 == p0
        &&& steps_to(
            pre.regs,
            pre.mem.ram@,
            pre.stall_cycles,
            TmpState { op_1: ((pre.state.op_1 + index) % 256) as u8, ..pre.state },
            pre,
            post,
        )
    } else {
        access_finish_rel(pre, post, p0, p1, pre.state.op_1 as u16)
    }
}

/// The four-cycle absolute template: cycles 2 and 3 fetch the address,
/// cycle 4 accesses it.
pub open spec fn absolute_rel(pre: Cpu, post: Cpu, p0: Ppu, p1: Ppu) -> bool {
    if pre.state.counter == 2 {
        fetch_op_rel(pre, post, p0, p1, false)
    } else if pre.state.counter == 3 {
        fetch_op_rel(pre, post, p0, p1, true)
    } else {
        access_finish_rel(pre, post, p0, p1, addr_of(pre.state.op_2, pre.state.op_1))
    }
}

/// The two-cycle implied template: cycle 2 runs the core on the registers.
pub open spec fn implied_rel(pre: Cpu, post: Cpu, p0: Ppu, p1: Ppu) -> bool {
    &&& p1 == p0
    &&& finishes_to(
        core_apply(pre.state.executer.inst.core, pre.regs, 0).0,
        pre.mem.ram@,
        pre.stall_cycles,
        pre,
        post,
    )
}

/// The indexed absolute template (four cycles, five on a page cross):
/// cycles 2 and 3 fetch the base, cycle 4 accesses base plus index and adds
/// a cycle when the low byte overflowed, cycle 5 only completes.
pub open spec fn indexed_absolute_rel(pre: Cpu, post: Cpu, p0: Ppu, p1: Ppu, index: u8) -> bool {
    if pre.state.counter == 2 {
        fetch_op_rel(pre, post, p0, p1, false)
    } else if pre.state.counter == 3 {
        fetch_op_rel(pre, post, p0, p1, true)
    } else if pre.state.counter == 4 {
        let a = wrap16(addr_of(pre.state.op_2, pre.state.op_1) + index);
        if pre.state.op_1 + index < 256 {
            access_finish_rel(pre, post, p0, p1, a)
        } else {
            access_continue_rel(pre, post, p0, p1, a)
        }
    } else {
        &&& p1 == p0
        &&& finishes_to(pre.regs, pre.mem.ram@, pre.stall_cycles, pre, post)
    }
}

/// The six-cycle indexed indirect template: cycle 2 fetches the zero-page
/// base, cycle 3 adds X within the zero page, cycles 4 and 5 read the
/// 16-bit pointer from the zero page (wrapping within it), cycle 6 accesses.
pub open spec fn indexed_indirect_x_rel(pre: Cpu, post: Cpu, p0: Ppu, p1: Ppu) -> bool {
    let ram = pre.mem.ram@;
    if pre.state.counter == 2 {
        fetch_op_rel(pre, post, p0, p1, false)
    } else if pre.state.counter == 3 {
        &&& p1 == p0
        &&& steps_to(
            pre.regs,
            ram,
            pre.stall_cycles,
            TmpState { op_1: ((pre.state.op_1 + pre.regs.x) % 256) as u8, ..pre.state },
            pre,
            post,
        )
    } else if pre.state.counter == 4 {
        let v = bus_read_val(ram, p0, pre.state.op_1 as u16);
        &&& bus_read_rel(p0, p1, pre.state.op_1 as u16)
        &&& steps_to(
            pre.regs,
            ram,
            pre.stall_cycles,
            TmpState { op_2: v, ..pre.state },
            pre,
            post,
        )
    } else if pre.state.counter == 5 {
        let ptr = ((pre.state.op_1 + 1) % 256) as u16;
        let high = bus_read_val(ram, p0, ptr);
        &&& bus_read_rel(p0, p1, ptr)
        &&& steps_to(
            pre.regs,
            ram,
            pre.stall_cycles,
            TmpState { addr: addr_of(high, pre.state.op_2), ..pre.state },
            pre,
            post,
        )
    } else {
        access_finish_rel(pre, post, p0, p1, pre.state.addr)
    }
}

/// The indirect indexed template (five cycles, six on a page cross):
/// cycle 2 fetches the zero-page pointer, cycles 3 and 4 read its two bytes
/// (wrapping within the zero page), cycle 5 accesses pointer plus Y and adds
/// a cycle when the low byte overflowed, cycle 6 only completes.
pub open spec fn indirect_indexed_y_rel(pre: Cpu, post: Cpu, p0: Ppu, p1: Ppu) -> bool {
    let ram = pre.mem.ram@;
    if pre.state.counter == 2 {
        fetch_op_rel(pre, post, p0, p1, false)
    } else if pre.state.counter == 3 {
        let v = bus_read_val(ram, p0, pre.state.op_1 as u16);
        &&& bus_read_rel(p0, p1, pre.state.op_1 as u16)
        &&& steps_to(
            pre.regs,
            ram,
            pre.stall_cycles,
            TmpState { op_2: v, ..pre.state },
            pre,
            post,
        )
    } else if pre.state.counter == 4 {
        let ptr = ((pre.state.op_1 + 1) % 256) as u16;
        let high = bus_read_val(ram, p0, ptr);
        &&& bus_read_rel(p0, p1, ptr)
        &&& steps_to(
            pre.regs,
            ram,
            pre.stall_cycles,
            TmpState { op_1: high, ..pre.state },
            pre,
            post,
        )
    } else if pre.state.counter == 5 {
        let a = wrap16(addr_of(pre.state.op_1, pre.state.op_2) + pre.regs.y);
        if pre.state.op_2 + pre.regs.y < 256 {
            access_finish_rel(pre, post, p0, p1, a)
        } else {
            access_continue_rel(pre, post, p0, p1, a)
        }
    } else {
        &&& p1 == p0
        &&& finishes_to(pre.regs, pre.mem.ram@, pre.stall_cycles, pre, post)
    }
}

/// The four-cycle pull template (PLA, PLP): cycle 3 increments the stack
/// pointer, cycle 4 reads through it; PLA loads the accumulator and sets
/// Negative and Zero, PLP restores the flags with Break forced low and the
/// reserved bit high.
pub open spec fn pull_stack_rel(pre: Cpu, post: Cpu, p0: Ppu, p1: Ppu) -> bool {
    let rg = pre.regs;
    &&& p1 == p0
    &&& if pre.state.counter == 2 {
        post == pre
    } else if pre.state.counter == 3 {
        post == Cpu { regs: Registers { s: inc_s(rg.s), ..rg }, ..pre }
    } else {
        let v = stack_peek(pre.mem.ram@, rg.s);
        let rg1 = if pre.state.executer.inst.core == OpCore::Pla {
            Registers { a: v, p: crate::cpu::set_nz(rg.p, v), ..rg }
        } else {
            with_p(rg, plp_value(v))
        };
        finishes_to(rg1, pre.mem.ram@, pre.stall_cycles, pre, post)
    }
}

/// The three-cycle push template (PHA, PHP): cycle 3 pushes the accumulator
/// or the status register with Break set.
pub open spec fn push_stack_rel(pre: Cpu, post: Cpu, p0: Ppu, p1: Ppu) -> bool {
    let rg = pre.regs;
    &&& p1 == p0
    &&& if pre.state.counter == 2 {
        post == pre
    } else {
        let v = if pre.state.executer.inst.core == OpCore::Pha {
            rg.a
        } else {
            rg.p | FLAG_BREAK
        };
        finishes_to(
            Registers { s: dec_s(rg.s), ..rg },
            stack_push_ram(pre.mem.ram@, rg.s, v),
            pre.stall_cycles,
            pre,
            post,
        )
    }
}

/// The six-cycle return-from-interrupt template: cycle 4 pulls the status
/// register (Break forced low, reserved bit high), cycles 5 and 6 pull the
/// program counter.
pub open spec fn rti_rel(pre: Cpu, post: Cpu, p0: Ppu, p1: Ppu) -> bool {
    let rg = pre.regs;
    let ram = pre.mem.ram@;
    &&& p1 == p0
    &&& if pre.state.counter == 2 || pre.state.counter == 3 {
        post == pre
    } else if pre.state.counter == 4 {
        post == Cpu {
            regs: Registers { s: inc_s(rg.s), p: plp_value(stack_peek(ram, inc_s(rg.s))), ..rg },
            ..pre
        }
    } else if pre.state.counter == 5 {
        post == Cpu {
            regs: Registers { s: inc_s(rg.s), ..rg },
            state: TmpState { op_1: stack_peek(ram, inc_s(rg.s)), ..pre.state },
            ..pre
        }
    } else {
        let high = stack_peek(ram, inc_s(rg.s));
        finishes_to(
            Registers { s: inc_s(rg.s), pc: addr_of(high, pre.state.op_1), ..rg },
            ram,
            pre.stall_cycles,
            pre,
            post,
        )
    }
}

/// The six-cycle return-from-subroutine template: cycles 4 and 5 pull the
/// return address, cycle 6 sets the program counter to that address plus
/// one.
pub open spec fn rts_rel(pre: Cpu, post: Cpu, p0: Ppu, p1: Ppu) -> bool {
    let rg = pre.regs;
    let ram = pre.mem.ram@;
    &&& p1 == p0
    &&& if pre.state.counter == 2 {
        post == pre
    } else if pre.state.counter == 3 {
        post == Cpu { regs: Registers { s: inc_s(rg.s), ..rg }, ..pre }
    } else if pre.state.counter == 4 {
        post == Cpu {
            regs: Registers { s: inc_s(rg.s), ..rg },
            state: TmpState { op_1: stack_peek(ram, rg.s), ..pre.state },
            ..pre
        }
    } else if pre.state.counter == 5 {
        post == Cpu { state: TmpState { op_2: stack_peek(ram, rg.s), ..pre.state }, ..pre }
    } else {
        finishes_to(
            with_pc(rg, wrap16(addr_of(pre.state.op_2, pre.state.op_1) + 1)),
            ram,
            pre.stall_cycles,
            pre,
            post,
        )
    }
}

/// The six-cycle jump-to-subroutine template: cycle 2 fetches the target's
/// low byte, cycles 4 and 5 push the program counter (which then points one
/// byte before the next instruction), cycle 6 fetches the high byte and
/// jumps.
pub open spec fn jsr_rel(pre: Cpu, post: Cpu, p0: Ppu, p1: Ppu) -> bool {
    let rg = pre.regs;
    let ram = pre.mem.ram@;
    if pre.state.counter == 2 {
        fetch_op_rel(pre, post, p0, p1, false)
    } else if pre.state.counter == 3 {
        &&& p1 == p0
        &&& post == pre
    } else if pre.state.counter == 4 {
        &&& p1 == p0
        &&& steps_to(
            Registers { s: dec_s(rg.s), ..rg },
            stack_push_ram(ram, rg.s, crate::util::hi_byte(rg.pc)),
            pre.stall_cycles,
            pre.state,
            pre,
            post,
        )
    } else if pre.state.counter == 5 {
        &&& p1 == p0
        &&& steps_to(
            Registers { s: dec_s(rg.s), ..rg },
            stack_push_ram(ram, rg.s, crate::util::lo_byte(rg.pc)),
            pre.stall_cycles,
            pre.state,
            pre,
            post,
        )
    } else {
        let high = bus_read_val(ram, p0, rg.pc);
        &&& bus_read_rel(p0, p1, rg.pc)
        &&& finishes_to(
            with_pc(rg, addr_of(high, pre.state.op_1)),
            ram,
            pre.stall_cycles,
            pre,
            post,
        )
    }
}

/// The two-cycle accumulator template: the core shifts the accumulator in
/// place.
pub open spec fn accumulator_rel(pre: Cpu, post: Cpu, p0: Ppu, p1: Ppu) -> bool {
    let applied = core_apply(pre.state.executer.inst.core, pre.regs, pre.regs.a);
    &&& p1 == p0
    &&& finishes_to(
        Registers { a: applied.1, ..applied.0 },
        pre.mem.ram@,
        pre.stall_cycles,
        pre,
        post,
    )
}

/// The operand-read cycle of the read-modify-write templates: the byte at
/// the operand cell lands in a scratch byte.
pub open spec fn rmw_read_rel(pre: Cpu, post: Cpu, p0: Ppu, p1: Ppu, a: u16, into_op1: bool,
) -> bool {
    let v = bus_read_val(pre.mem.ram@, p0, a);
    let st1 = if into_op1 {
        TmpState { op_1: v, ..pre.state }
    } else {
        TmpState { op_2: v, ..pre.state }
    };
    &&& bus_read_rel(p0, p1, a)
    &&& steps_to(pre.regs, pre.mem.ram@, pre.stall_cycles, st1, pre, post)
}

/// The dummy-write-and-modify cycle of the read-modify-write templates: the
/// original byte goes back to its cell while the core computes the result
/// into the second scratch byte.
pub open spec fn rmw_modify_rel(pre: Cpu, post: Cpu, p0: Ppu, p1: Ppu, a: u16, orig: u8) -> bool {
    let applied = core_apply(pre.state.executer.inst.core, pre.regs, orig);
    &&& bus_write_ppu_rel(pre.mem.ram@, p0, p1, a, orig)
    &&& steps_to(
        applied.0,
        bus_write_ram(pre.mem.ram@, a, orig),
        stall_after(pre.stall_cycles, a),
        TmpState { op_2: applied.1, ..pre.state },
        pre,
        post,
    )
}

/// The final write cycle of the read-modify-write templates.
pub open spec fn rmw_write_rel(pre: Cpu, post: Cpu, p0: Ppu, p1: Ppu, a: u16) -> bool {
    &&& bus_write_ppu_rel(pre.mem.ram@, p0, p1, a, pre.state.op_2)
    &&& finishes_to(
        pre.regs,
        bus_write_ram(pre.mem.ram@, a, pre.state.op_2),
        stall_after(pre.stall_cycles, a),
        pre,
        post,
    )
}

/// The five-cycle zero-page read-modify-write template.
pub open spec fn zeropage_rmw_rel(pre: Cpu, post: Cpu, p0: Ppu, p1: Ppu) -> bool {
    if pre.state.counter == 2 {
        fetch_op_rel(pre, post, p0, p1, false)
    } else if pre.state.counter == 3 {
        rmw_read_rel(pre, post, p0, p1, pre.state.op_1 as u16, false)
    } else if pre.state.counter == 4 {
        rmw_modify_rel(pre, post, p0, p1, pre.state.op_1 as u16, pre.state.op_2)
    } else {
        rmw_write_rel(pre, post, p0, p1, pre.state.op_1 as u16)
    }
}

/// The six-cycle indexed zero-page read-modify-write template.
pub open spec fn indexed_zeropage_x_rmw_rel(pre: Cpu, post: Cpu, p0: Ppu, p1: Ppu) -> bool {
    if pre.state.counter == 2 {
        fetch_op_rel(pre, post, p0, p1, false)
    } else if pre.state.counter == 3 {
        &&& p1 == p0
        &&& steps_to(
            pre.regs,
            pre.mem.ram@,
            pre.stall_cycles,
            TmpState { op_1: ((pre.state.op_1 + pre.regs.x) % 256) as u8, ..pre.state },
            pre,
            post,
        )
    } else if pre.state.counter == 4 {
        let v = bus_read_val(pre.mem.ram@, p0, pre.state.op_1 as u16);
        &&& bus_read_rel(p0, p1, pre.state.op_1 as u16)
        &&& steps_to(
            pre.regs,
            pre.mem.ram@,
            pre.stall_cycles,
            TmpState { addr: pre.state.op_1 as u16, op_2: v, ..pre.state },
            pre,
            post,
        )
    } else if pre.state.counter == 5 {
        rmw_modify_rel(pre, post, p0, p1, pre.state.addr, pre.state.op_2)
    } else {
        rmw_write_rel(pre, post, p0, p1, pre.state.addr)
    }
}

/// The six-cycle absolute read-modify-write template.
pub open spec fn absolute_rmw_rel(pre: Cpu, post: Cpu, p0: Ppu, p1: Ppu) -> bool {
    if pre.state.counter == 2 {
        fetch_op_rel(pre, post, p0, p1, false)
    } else if pre.state.counter == 3 {
        fetch_op_rel(pre, post, p0, p1, true)
    } else if pre.state.counter == 4 {
        let a = addr_of(pre.state.op_2, pre.state.op_1);
        let v = bus_read_val(pre.mem.ram@, p0, a);
        &&& bus_read_rel(p0, p1, a)
        &&& steps_to(
            pre.regs,
            pre.mem.ram@,
            pre.stall_cycles,
            TmpState { addr: a, op_2: v, ..pre.state },
            pre,
            post,
        )
    } else if pre.state.counter == 5 {
        rmw_modify_rel(pre, post, p0, p1, pre.state.addr, pre.state.op_2)
    } else {
        rmw_write_rel(pre, post, p0, p1, pre.state.addr)
    }
}

/// The seven-cycle indexed absolute read-modify-write template: the indexed
/// address is formed at cycle 3, cycle 4 idles on the bus, cycle 5 reads,
/// cycle 6 writes the unchanged byte back while the core computes, cycle 7
/// writes the result.
pub open spec fn indexed_absolute_x_rmw_rel(pre: Cpu, post: Cpu, p0: Ppu, p1: Ppu) -> bool {
    let ram = pre.mem.ram@;
    if pre.state.counter == 2 {
        fetch_op_rel(pre, post, p0, p1, false)
    } else if pre.state.counter == 3 {
        let high = bus_read_val(ram, p0, pre.regs.pc);
        &&& bus_read_rel(p0, p1, pre.regs.pc)
        &&& steps_to(
            with_pc(pre.regs, wrap16(pre.regs.pc + 1)),
            ram,
            pre.stall_cycles,
            TmpState {
                addr: wrap16(addr_of(high, pre.state.op_1) + pre.regs.x),
                ..pre.state
            },
            pre,
            post,
        )
    } else if pre.state.counter == 4 {
        &&& p1 == p0
        &&& post == pre
    } else if pre.state.counter == 5 {
        rmw_read_rel(pre, post, p0, p1, pre.state.addr, true)
    } else if pre.state.counter == 6 {
        rmw_modify_rel(pre, post, p0, p1, pre.state.addr, pre.state.op_1)
    } else {
        rmw_write_rel(pre, post, p0, p1, pre.state.addr)
    }
}

/// The three-cycle absolute jump: cycle 2 fetches the low byte, cycle 3 the
/// high byte, and the pair becomes the program counter.
pub open spec fn absolute_jmp_rel(pre: Cpu, post: Cpu, p0: Ppu, p1: Ppu) -> bool {
    if pre.state.counter == 2 {
        fetch_op_rel(pre, post, p0, p1, false)
    } else {
        let high = bus_read_val(pre.mem.ram@, p0, pre.regs.pc);
        &&& bus_read_rel(p0, p1, pre.regs.pc)
        &&& finishes_to(
            with_pc(pre.regs, addr_of(high, pre.state.op_1)),
            pre.mem.ram@,
            pre.stall_cycles,
            pre,
            post,
        )
    }
}

/// The five-cycle indirect jump: cycles 2 and 3 fetch the pointer, cycles 4
/// and 5 read the target through it — with the documented page-wrap quirk:
/// the high byte comes from the pointer's page, not the next one, when the
/// pointer's low byte is 0xFF.
pub open spec fn indirect_jmp_rel(pre: Cpu, post: Cpu, p0: Ppu, p1: Ppu) -> bool {
    let ram = pre.mem.ram@;
    if pre.state.counter == 2 {
        fetch_op_rel(pre, post, p0, p1, false)
    } else if pre.state.counter == 3 {
        let high = bus_read_val(ram, p0, pre.regs.pc);
        &&& bus_read_rel(p0, p1, pre.regs.pc)
        &&& steps_to(
            with_pc(pre.regs, wrap16(pre.regs.pc + 1)),
            ram,
            pre.stall_cycles,
            TmpState { addr: addr_of(high, pre.state.op_1), ..pre.state },
            pre,
            post,
        )
    } else if pre.state.counter == 4 {
        let v = bus_read_val(ram, p0, pre.state.addr);
        &&& bus_read_rel(p0, p1, pre.state.addr)
        &&& steps_to(
            pre.regs,
            ram,
            pre.stall_cycles,
            TmpState { op_1: v, ..pre.state },
            pre,
            post,
        )
    } else {
        let wrapped = addr_of(
            crate::util::hi_byte(pre.state.addr),
            ((pre.state.addr % 256 + 1) % 256) as u8,
        );
        let high = bus_read_val(ram, p0, wrapped);
        &&& bus_read_rel(p0, p1, wrapped)
        &&& finishes_to(
            with_pc(pre.regs, addr_of(high, pre.state.op_1)),
            ram,
            pre.stall_cycles,
            pre,
            post,
        )
    }
}

/// The branch template: cycle 2 fetches the offset and tests the flag — an
/// untaken branch completes in two cycles.  A taken branch computes the
/// target and takes one extra cycle, or two when the target lies on another
/// page.  A taken branch that stays on its page sets the pending
/// interrupt's delay flag, pushing its service back by one instruction.
pub open spec fn relative_rel(pre: Cpu, post: Cpu, p0: Ppu, p1: Ppu) -> bool {
    let rg = pre.regs;
    let ram = pre.mem.ram@;
    if pre.state.counter == 2 {
        let offset = bus_read_val(ram, p0, rg.pc);
        let pc1 = wrap16(rg.pc + 1);
        &&& bus_read_rel(p0, p1, rg.pc)
        &&& if !branch_taken(pre.state.executer.inst.core, rg.p) {
            finishes_to(with_pc(rg, pc1), ram, pre.stall_cycles, pre, post)
        } else {
            let target = branch_target(pc1, offset);
            let same_page = target / 256 == pc1 / 256;
            steps_to(
                with_pc(rg, pc1),
                ram,
                pre.stall_cycles,
                TmpState {
                    op_1: if same_page {
                        1u8
                    } else {
                        2u8
                    },
                    addr: target,
                    executer: Executer {
                        last_cycle: (pre.state.executer.last_cycle + 1) as u8,
                        ..pre.state.executer
                    },
                    ..pre.state
                },
                pre,
                post,
            )
        }
    } else if pre.state.counter == 3 {
        &&& p1 == p0
        &&& if pre.state.op_1 <= 1 {
            let pend = pre.int_requested;
            let pend2 = if pend.kind != IntType::Empty {
                Interrupt { kind: pend.kind, is_force_delayed: true }
            } else {
                pend
            };
            finishes_to(
                with_pc(rg, pre.state.addr),
                ram,
                pre.stall_cycles,
                Cpu { int_requested: pend2, ..pre },
                post,
            )
        } else {
            steps_to(
                rg,
                ram,
                pre.stall_cycles,
                TmpState {
                    op_1: (pre.state.op_1 - 1) as u8,
                    executer: Executer {
                        last_cycle: (pre.state.executer.last_cycle + 1) as u8,
                        ..pre.state.executer
                    },
                    ..pre.state
                },
                pre,
                post,
            )
        }
    } else {
        &&& p1 == p0
        &&& finishes_to(with_pc(rg, pre.state.addr), ram, pre.stall_cycles, pre, post)
    }
}

/// Which template relation one execute cycle satisfies, by the loaded
/// instruction's template.
pub open spec fn exec_dispatch_rel(pre: Cpu, post: Cpu, p0: Ppu, p1: Ppu) -> bool {
    match pre.state.executer.inst.template {
        Template::Immediate => immediate_rel(pre, post, p0, p1),
        Template::ZeroPage => zeropage_rel(pre, post, p0, p1),
        Template::IndexedZeroPageX => indexed_zeropage_rel(pre, post, p0, p1, pre.regs.x),
        Template::IndexedZeroPageY => indexed_zeropage_rel(pre, post, p0, p1, pre.regs.y),
        Template::Absolute => absolute_rel(pre, post, p0, p1),
        Template::Implied => implied_rel(pre, post, p0, p1),
        Template::IndexedAbsoluteX => indexed_absolute_rel(pre, post, p0, p1, pre.regs.x),
        Template::IndexedAbsoluteY => indexed_absolute_rel(pre, post, p0, p1, pre.regs.y),
        Template::IndexedIndirectX => indexed_indirect_x_rel(pre, post, p0, p1),
        Template::IndirectIndexedY => indirect_indexed_y_rel(pre, post, p0, p1),
        Template::PullStack => pull_stack_rel(pre, post, p0, p1),
        Template::PushStack => push_stack_rel(pre, post, p0, p1),
        Template::Rti => rti_rel(pre, post, p0, p1),
        Template::Rts => rts_rel(pre, post, p0, p1),
        Template::Jsr => jsr_rel(pre, post, p0, p1),
        Template::Accumulator => accumulator_rel(pre, post, p0, p1),
        Template::ZeroPageRmw => zeropage_rmw_rel(pre, post, p0, p1),
        Template::IndexedZeroPageXRmw => indexed_zeropage_x_rmw_rel(pre, post, p0, p1),
        Template::AbsoluteRmw => absolute_rmw_rel(pre, post, p0, p1),
        Template::IndexedAbsoluteXRmw => indexed_absolute_x_rmw_rel(pre, post, p0, p1),
        Template::AbsoluteJmp => absolute_jmp_rel(pre, post, p0, p1),
        Template::IndirectJmp => indirect_jmp_rel(pre, post, p0, p1),
        Template::Relative => relative_rel(pre, post, p0, p1),
    }
}

impl Cpu {
    /// Runs the loaded operation core on a value.  Covers the cores that
    /// work on registers and values alone; the branch, stack, jump and
    /// return cores live in their templates.
    pub fn run_core(&mut self, val: u8) -> (r: u8)
        requires
            is_value_core(old(self).state.executer.inst.core) || is_rmw_core(
                old(self).state.executer.inst.core,
            ) || is_implied_core(old(self).state.executer.inst.core),
        ensures
            *final(self) == (Cpu {
                regs: core_apply(old(self).state.executer.inst.core, old(self).regs, val).0,
                ..*old(self)
            }),
            r == core_apply(old(self).state.executer.inst.core, old(self).regs, val).1,
    {
        let core = self.state.executer.inst.core;
        match core {
            OpCore::Ora => self.ora_action(val),
            OpCore::And => self.and_action(val),
            OpCore::Eor => self.eor_action(val),
            OpCore::Adc => self.adc_action(val),
            OpCore::Sbc => self.sbc_action(val),
            OpCore::Sta => self.sta_action(val),
            OpCore::Stx => self.stx_action(val),
            OpCore::Sty => self.sty_action(val),
            OpCore::Lda => self.lda_action(val),
            OpCore::Ldx => self.ldx_action(val),
            OpCore::Ldy => self.ldy_action(val),
            OpCore::Cmp => self.cmp_action(val),
            OpCore::Cpx => self.cpx_action(val),
            OpCore::Cpy => self.cpy_action(val),
            OpCore::Bit => self.bit_action(val),
            OpCore::Asl => self.asl_action(val),
            OpCore::Rol => self.rol_action(val),
            OpCore::Lsr => self.lsr_action(val),
            OpCore::Ror => self.ror_action(val),
            OpCore::Dec => self.dec_action(val),
            OpCore::Inc => self.inc_action(val),
            OpCore::Dey => self.dey_action(val),
            OpCore::Iny => self.iny_action(val),
            OpCore::Dex => self.dex_action(val),
            OpCore::Inx => self.inx_action(val),
            OpCore::Tay => self.tay_action(val),
            OpCore::Tax => self.tax_action(val),
            OpCore::Tya => self.tya_action(val),
            OpCore::Txa => self.txa_action(val),
            OpCore::Tsx => self.tsx_action(val),
            OpCore::Txs => self.txs_action(val),
            OpCore::Clc => self.clc_action(val),
            OpCore::Sec => self.sec_action(val),
            OpCore::Cli => self.cli_action(val),
            OpCore::Sei => self.sei_action(val),
            OpCore::Clv => self.clv_action(val),
            OpCore::Cld => self.cld_action(val),
            OpCore::Sed => self.sed_action(val),
            OpCore::Nop => self.nop_action(val),
            _ => 0,
        }
    }

    /// Tests the loaded branch core's condition, as its template's cycle 2
    /// asks: one for a branch to take, zero otherwise.
    pub fn run_branch_core(&mut self) -> (r: u8)
        requires
            is_branch_core(old(self).state.executer.inst.core),
        ensures
            *final(self) == *old(self),
            r == (if branch_taken(old(self).state.executer.inst.core, old(self).regs.p) {
                1u8
            } else {
                0u8
            }),
    {
        match self.state.executer.inst.core {
            OpCore::Bpl => self.bpl_action(0),
            OpCore::Bmi => self.bmi_action(0),
            OpCore::Bvc => self.bvc_action(0),
            OpCore::Bvs => self.bvs_action(0),
            OpCore::Bcc => self.bcc_action(0),
            OpCore::Bcs => self.bcs_action(0),
            OpCore::Bne => self.bne_action(0),
            _ => self.beq_action(0),
        }
    }

    /// The access cycle shared by the read and write templates: a
    /// register-destination instruction reads the operand into its core, a
    /// memory-destination one writes what its core hands out.
    fn do_access(&mut self, ppu: &mut Ppu, a: u16)
        requires
            old(self).mem.wf(),
            old(ppu).wf(),
            old(self).stall_cycles == 0,
            is_value_core(old(self).state.executer.inst.core),
            old(self).state.executer.inst.dst == core_dst(old(self).state.executer.inst.core),
        ensures
            final(self).mem.wf(),
            final(ppu).wf(),
            final(self).stall_cycles <= crate::mem::DMA_STALL_CYCLES,
            ({
                let inst = old(self).state.executer.inst;
                if inst.dst == Destination::Register {
                    &&& bus_read_rel(*old(ppu), *final(ppu), a)
                    &&& *final(self) == (Cpu {
                        regs: core_apply(
                            inst.core,
                            old(self).regs,
                            bus_read_val(old(self).mem.ram@, *old(ppu), a),
                        ).0,
                        ..*old(self)
                    })
                } else {
                    &&& bus_write_ppu_rel(
                        old(self).mem.ram@,
                        *old(ppu),
                        *final(ppu),
                        a,
                        core_apply(inst.core, old(self).regs, 0).1,
                    )
                    &&& final(self).mem.ram@ == bus_write_ram(
                        old(self).mem.ram@,
                        a,
                        core_apply(inst.core, old(self).regs, 0).1,
                    )
                    &&& final(self).stall_cycles == stall_after(old(self).stall_cycles, a)
                    &&& final(self).regs == core_apply(inst.core, old(self).regs, 0).0
                    &&& final(self).state == old(self).state
                    &&& final(self).mode == old(self).mode
                    &&& final(self).int_requested == old(self).int_requested
                    &&& final(self).int_polling_enabled == old(self).int_polling_enabled
                    &&& final(self).clock_counter == old(self).clock_counter
                    &&& final(self).reset_occurred == old(self).reset_occurred
                    &&& final(self).nmi_occurred == old(self).nmi_occurred
                    &&& final(self).irq_occurred == old(self).irq_occurred
                }
            }),
    {
        if self.state.executer.inst.dst == Destination::Register {
            let v = self.mem.read(ppu, a);
            let _unused = self.run_core(v);
        } else {
            let out = self.run_core(0);
            self.write_mem(ppu, a, out);
        }
    }

    /// The two-cycle immediate template.
    #[verifier::rlimit(100)]
    pub fn exec_immediate(&mut self, ppu: &mut Ppu)
        requires
            old(self).mem.wf(),
            old(ppu).wf(),
            old(self).mode == CpuMode::Exec,
            old(self).stall_cycles == 0,
            exec_entry_inv(old(self).state),
            flag_set(old(self).regs.p, FLAG_RESERVED),
            old(self).state.executer.inst.template == Template::Immediate,
        ensures
            final(self).wf(),
            final(ppu).wf(),
            immediate_rel(*old(self), *final(self), *old(ppu), *final(ppu)),
    {
        let operand = self.fetch(ppu);
        let _unused = self.run_core(operand);
        self.exec_finished();
    }

    /// The three-cycle zero-page template.
    #[verifier::rlimit(100)]
    pub fn exec_zeropage(&mut self, ppu: &mut Ppu)
        requires
            old(self).mem.wf(),
            old(ppu).wf(),
            old(self).mode == CpuMode::Exec,
            old(self).stall_cycles == 0,
            exec_entry_inv(old(self).state),
            flag_set(old(self).regs.p, FLAG_RESERVED),
            old(self).state.executer.inst.template == Template::ZeroPage,
        ensures
            final(self).wf(),
            final(ppu).wf(),
            zeropage_rel(*old(self), *final(self), *old(ppu), *final(ppu)),
    {
        if self.state.counter == 2 {
            let v = self.fetch(ppu);
            self.state.op_1 = v;
        } else {
            let a = self.state.op_1 as u16;
            self.do_access(ppu, a);
            self.exec_finished();
        }
    }

    /// The four-cycle zero-page template indexed by X.
    #[verifier::rlimit(100)]
    pub fn exec_indexed_zeropage_x(&mut self, ppu: &mut Ppu)
        requires
            old(self).mem.wf(),
            old(ppu).wf(),
            old(self).mode == CpuMode::Exec,
            old(self).stall_cycles == 0,
            exec_entry_inv(old(self).state),
            flag_set(old(self).regs.p, FLAG_RESERVED),
            old(self).state.executer.inst.template == Template::IndexedZeroPageX,
        ensures
            final(self).wf(),
            final(ppu).wf(),
            indexed_zeropage_rel(
                *old(self),
                *final(self),
                *old(ppu),
                *final(ppu),
                old(self).regs.x,
            ),
    {
        if self.state.counter == 2 {
            let v = self.fetch(ppu);
            self.state.op_1 = v;
        } else if self.state.counter == 3 {
            self.state.op_1 = (((self.state.op_1 as u16) + (self.regs.x as u16)) % 256) as u8;
        } else {
            let a = self.state.op_1 as u16;
            self.do_access(ppu, a);
            self.exec_finished();
        }
    }

    /// The four-cycle zero-page template indexed by Y.
    #[verifier::rlimit(100)]
    pub fn exec_indexed_zeropage_y(&mut self, ppu: &mut Ppu)
        requires
            old(self).mem.wf(),
            old(ppu).wf(),
            old(self).mode == CpuMode::Exec,
            old(self).stall_cycles == 0,
            exec_entry_inv(old(self).state),
            flag_set(old(self).regs.p, FLAG_RESERVED),
            old(self).state.executer.inst.template == Template::IndexedZeroPageY,
        ensures
            final(self).wf(),
            final(ppu).wf(),
            indexed_zeropage_rel(
                *old(self),
                *final(self),
                *old(ppu),
                *final(ppu),
                old(self).regs.y,
            ),
    {
        if self.state.counter == 2 {
            let v = self.fetch(ppu);
            self.state.op_1 = v;
        } else if self.state.counter == 3 {
            self.state.op_1 = (((self.state.op_1 as u16) + (self.regs.y as u16)) % 256) as u8;
        } else {
            let a = self.state.op_1 as u16;
            self.do_access(ppu, a);
            self.exec_finished();
        }
    }

    /// The four-cycle absolute template.
    #[verifier::rlimit(100)]
    pub fn exec_absolute(&mut self, ppu: &mut Ppu)
        requires
            old(self).mem.wf(),
            old(ppu).wf(),
            old(self).mode == CpuMode::Exec,
            old(self).stall_cycles == 0,
            exec_entry_inv(old(self).state),
            flag_set(old(self).regs.p, FLAG_RESERVED),
            old(self).state.executer.inst.template == Template::Absolute,
        ensures
            final(self).wf(),
            final(ppu).wf(),
            absolute_rel(*old(self), *final(self), *old(ppu), *final(ppu)),
    {
        if self.state.counter == 2 {
            let v = self.fetch(ppu);
            self.state.op_1 = v;
        } else if self.state.counter == 3 {
            let v = self.fetch(ppu);
            self.state.op_2 = v;
        } else {
            let a = crate::util::make_addr(self.state.op_2, self.state.op_1);
            self.do_access(ppu, a);
            self.exec_finished();
        }
    }

    /// The two-cycle implied template.
    #[verifier::rlimit(100)]
    pub fn exec_implied(&mut self, ppu: &mut Ppu)
        requires
            old(self).mem.wf(),
            old(ppu).wf(),
            old(self).mode == CpuMode::Exec,
            old(self).stall_cycles == 0,
            exec_entry_inv(old(self).state),
            flag_set(old(self).regs.p, FLAG_RESERVED),
            old(self).state.executer.inst.template == Template::Implied,
        ensures
            final(self).wf(),
            final(ppu).wf(),
            implied_rel(*old(self), *final(self), *old(ppu), *final(ppu)),
    {
        let _unused = self.run_core(0);
        self.exec_finished();
    }

    /// The indexed absolute template over X: four cycles, five on a page
    /// cross.
    #[verifier::rlimit(100)]
    pub fn exec_indexed_absolute_x(&mut self, ppu: &mut Ppu)
        requires
            old(self).mem.wf(),
            old(ppu).wf(),
            old(self).mode == CpuMode::Exec,
            old(self).stall_cycles == 0,
            exec_entry_inv(old(self).state),
            flag_set(old(self).regs.p, FLAG_RESERVED),
            old(self).state.executer.inst.template == Template::IndexedAbsoluteX,
        ensures
            final(self).wf(),
            final(ppu).wf(),
            indexed_absolute_rel(
                *old(self),
                *final(self),
                *old(ppu),
                *final(ppu),
                old(self).regs.x,
            ),
    {
        let index = self.regs.x;
        self.indexed_absolute_cycle(ppu, index);
    }

    /// The indexed absolute template over Y: four cycles, five on a page
    /// cross.
    #[verifier::rlimit(100)]
    pub fn exec_indexed_absolute_y(&mut self, ppu: &mut Ppu)
        requires
            old(self).mem.wf(),
            old(ppu).wf(),
            old(self).mode == CpuMode::Exec,
            old(self).stall_cycles == 0,
            exec_entry_inv(old(self).state),
            flag_set(old(self).regs.p, FLAG_RESERVED),
            old(self).state.executer.inst.template == Template::IndexedAbsoluteY,
        ensures
            final(self).wf(),
            final(ppu).wf(),
            indexed_absolute_rel(
                *old(self),
                *final(self),
                *old(ppu),
                *final(ppu),
                old(self).regs.y,
            ),
    {
        let index = self.regs.y;
        self.indexed_absolute_cycle(ppu, index);
    }

    /// One cycle of either indexed absolute template.
    #[verifier::rlimit(100)]
    fn indexed_absolute_cycle(&mut self, ppu: &mut Ppu, index: u8)
        requires
            old(self).mem.wf(),
            old(ppu).wf(),
            old(self).mode == CpuMode::Exec,
            old(self).stall_cycles == 0,
            exec_entry_inv(old(self).state),
            flag_set(old(self).regs.p, FLAG_RESERVED),
            old(self).state.executer.inst.template == Template::IndexedAbsoluteX || old(
                self,
            ).state.executer.inst.template == Template::IndexedAbsoluteY,
        ensures
            final(self).wf(),
            final(ppu).wf(),
            indexed_absolute_rel(*old(self), *final(self), *old(ppu), *final(ppu), index),
    {
        if self.state.counter == 2 {
            let v = self.fetch(ppu);
            self.state.op_1 = v;
        } else if self.state.counter == 3 {
            let v = self.fetch(ppu);
            self.state.op_2 = v;
        } else if self.state.counter == 4 {
            let low = self.state.op_1;
            let high = self.state.op_2;
            let base = crate::util::make_addr(high, low);
            let a = (((base as u32) + (index as u32)) % 0x10000) as u16;
            self.do_access(ppu, a);
            if (low as u16) + (index as u16) < 256 {
                self.exec_finished();
            } else {
                self.state.executer.last_cycle = self.state.executer.last_cycle + 1;
            }
        } else {
            self.exec_finished();
        }
    }

    /// The six-cycle indexed indirect template.
    #[verifier::rlimit(100)]
    pub fn exec_indexed_indirect_x(&mut self, ppu: &mut Ppu)
        requires
            old(self).mem.wf(),
            old(ppu).wf(),
            old(self).mode == CpuMode::Exec,
            old(self).stall_cycles == 0,
            exec_entry_inv(old(self).state),
            flag_set(old(self).regs.p, FLAG_RESERVED),
            old(self).state.executer.inst.template == Template::IndexedIndirectX,
        ensures
            final(self).wf(),
            final(ppu).wf(),
            indexed_indirect_x_rel(*old(self), *final(self), *old(ppu), *final(ppu)),
    {
        if self.state.counter == 2 {
            let v = self.fetch(ppu);
            self.state.op_1 = v;
        } else if self.state.counter == 3 {
            self.state.op_1 = (((self.state.op_1 as u16) + (self.regs.x as u16)) % 256) as u8;
        } else if self.state.counter == 4 {
            let low = self.mem.read(ppu, self.state.op_1 as u16);
            self.state.op_2 = low;
        } else if self.state.counter == 5 {
            let ptr = (((self.state.op_1 as u16) + 1) % 256) as u16;
            let high = self.mem.read(ppu, ptr);
            self.state.addr = crate::util::make_addr(high, self.state.op_2);
        } else {
            let a = self.state.addr;
            self.do_access(ppu, a);
            self.exec_finished();
        }
    }

    /// The indirect indexed template: five cycles, six on a page cross.
    #[verifier::rlimit(100)]
    #[verifier::spinoff_prover]
    pub fn exec_indirect_indexed_y(&mut self, ppu: &mut Ppu)
        requires
            old(self).mem.wf(),
            old(ppu).wf(),
            old(self).mode == CpuMode::Exec,
            old(self).stall_cycles == 0,
            exec_entry_inv(old(self).state),
            flag_set(old(self).regs.p, FLAG_RESERVED),
            old(self).state.executer.inst.template == Template::IndirectIndexedY,
        ensures
            final(self).wf(),
            final(ppu).wf(),
            indirect_indexed_y_rel(*old(self), *final(self), *old(ppu), *final(ppu)),
    {
        if self.state.counter == 2 {
            let v = self.fetch(ppu);
            self.state.op_1 = v;
        } else if self.state.counter == 3 {
            let low = self.mem.read(ppu, self.state.op_1 as u16);
            self.state.op_2 = low;
        } else if self.state.counter == 4 {
            let ptr = (((self.state.op_1 as u16) + 1) % 256) as u16;
            let high = self.mem.read(ppu, ptr);
            self.state.op_1 = high;
        } else if self.state.counter == 5 {
            let low = self.state.op_2;
            let high = self.state.op_1;
            let base = crate::util::make_addr(high, low);
            let a = (((base as u32) + (self.regs.y as u32)) % 0x10000) as u16;
            let crossed = (low as u16) + (self.regs.y as u16) >= 256;
            self.do_access(ppu, a);
            if !crossed {
                self.exec_finished();
            } else {
                self.state.executer.last_cycle = self.state.executer.last_cycle + 1;
            }
        } else {
            self.exec_finished();
        }
    }

    /// The four-cycle pull template (PLA, PLP).
    #[verifier::rlimit(100)]
    pub fn exec_pull_stack(&mut self, ppu: &mut Ppu)
        requires
            old(self).mem.wf(),
            old(ppu).wf(),
            old(self).mode == CpuMode::Exec,
            old(self).stall_cycles == 0,
            exec_entry_inv(old(self).state),
            flag_set(old(self).regs.p, FLAG_RESERVED),
            old(self).state.executer.inst.template == Template::PullStack,
        ensures
            final(self).wf(),
            final(ppu).wf(),
            pull_stack_rel(*old(self), *final(self), *old(ppu), *final(ppu)),
    {
        if self.state.counter == 2 {
        } else if self.state.counter == 3 {
            self.inc_stack();
        } else {
            if self.state.executer.inst.core == OpCore::Pla {
                let _unused = self.pla_action(0);
            } else {
                let _unused = self.plp_action(0);
            }
            self.exec_finished();
        }
    }

    /// The three-cycle push template (PHA, PHP).
    #[verifier::rlimit(100)]
    pub fn exec_push_stack(&mut self, ppu: &mut Ppu)
        requires
            old(self).mem.wf(),
            old(ppu).wf(),
            old(self).mode == CpuMode::Exec,
            old(self).stall_cycles == 0,
            exec_entry_inv(old(self).state),
            flag_set(old(self).regs.p, FLAG_RESERVED),
            old(self).state.executer.inst.template == Template::PushStack,
        ensures
            final(self).wf(),
            final(ppu).wf(),
            push_stack_rel(*old(self), *final(self), *old(ppu), *final(ppu)),
    {
        if self.state.counter == 2 {
        } else {
            if self.state.executer.inst.core == OpCore::Pha {
                let _unused = self.pha_action(0);
            } else {
                let _unused = self.php_action(0);
            }
            self.exec_finished();
        }
    }

    /// The six-cycle return-from-interrupt template.
    #[verifier::rlimit(100)]
    #[verifier::spinoff_prover]
    pub fn exec_rti(&mut self, ppu: &mut Ppu)
        requires
            old(self).mem.wf(),
            old(ppu).wf(),
            old(self).mode == CpuMode::Exec,
            old(self).stall_cycles == 0,
            exec_entry_inv(old(self).state),
            flag_set(old(self).regs.p, FLAG_RESERVED),
            old(self).state.executer.inst.template == Template::Rti,
        ensures
            final(self).wf(),
            final(ppu).wf(),
            rti_rel(*old(self), *final(self), *old(ppu), *final(ppu)),
    {
        if self.state.counter == 2 || self.state.counter == 3 {
        } else if self.state.counter == 4 {
            let v = self.pull_stack();
            self.regs.p = (v & !FLAG_BREAK) | crate::cpu::FLAG_RESERVED;
            proof {
                assert(forall|w: u8| ((w & !0x10u8) | 0x20u8) & 0x20u8 != 0) by (bit_vector);
            }
        } else if self.state.counter == 5 {
            let v = self.pull_stack();
            self.state.op_1 = v;
        } else {
            let low = self.state.op_1;
            let high = self.pull_stack();
            self.regs.pc = crate::util::make_addr(high, low);
            self.exec_finished();
        }
    }

    /// The six-cycle return-from-subroutine template.
    #[verifier::rlimit(100)]
    pub fn exec_rts(&mut self, ppu: &mut Ppu)
        requires
            old(self).mem.wf(),
            old(ppu).wf(),
            old(self).mode == CpuMode::Exec,
            old(self).stall_cycles == 0,
            exec_entry_inv(old(self).state),
            flag_set(old(self).regs.p, FLAG_RESERVED),
            old(self).state.executer.inst.template == Template::Rts,
        ensures
            final(self).wf(),
            final(ppu).wf(),
            rts_rel(*old(self), *final(self), *old(ppu), *final(ppu)),
    {
        if self.state.counter == 2 {
        } else if self.state.counter == 3 {
            self.inc_stack();
        } else if self.state.counter == 4 {
            self.state.op_1 = self.peek_stack();
            self.inc_stack();
        } else if self.state.counter == 5 {
            self.state.op_2 = self.peek_stack();
        } else {
            let base = crate::util::make_addr(self.state.op_2, self.state.op_1);
            self.regs.pc = (((base as u32) + 1) % 0x10000) as u16;
            self.exec_finished();
        }
    }

    /// The six-cycle jump-to-subroutine template.
    #[verifier::rlimit(100)]
    pub fn exec_jsr(&mut self, ppu: &mut Ppu)
        requires
            old(self).mem.wf(),
            old(ppu).wf(),
            old(self).mode == CpuMode::Exec,
            old(self).stall_cycles == 0,
            exec_entry_inv(old(self).state),
            flag_set(old(self).regs.p, FLAG_RESERVED),
            old(self).state.executer.inst.template == Template::Jsr,
        ensures
            final(self).wf(),
            final(ppu).wf(),
            jsr_rel(*old(self), *final(self), *old(ppu), *final(ppu)),
    {
        if self.state.counter == 2 {
            let v = self.fetch(ppu);
            self.state.op_1 = v;
        } else if self.state.counter == 3 {
        } else if self.state.counter == 4 {
            let high = (self.regs.pc / 256) as u8;
            self.push_stack(high);
        } else if self.state.counter == 5 {
            let low = (self.regs.pc % 256) as u8;
            self.push_stack(low);
        } else {
            let low = self.state.op_1;
            let high = self.fetch(ppu);
            self.regs.pc = crate::util::make_addr(high, low);
            self.exec_finished();
        }
    }

    /// The two-cycle accumulator template.
    #[verifier::rlimit(100)]
    pub fn exec_accumulator(&mut self, ppu: &mut Ppu)
        requires
            old(self).mem.wf(),
            old(ppu).wf(),
            old(self).mode == CpuMode::Exec,
            old(self).stall_cycles == 0,
            exec_entry_inv(old(self).state),
            flag_set(old(self).regs.p, FLAG_RESERVED),
            old(self).state.executer.inst.template == Template::Accumulator,
        ensures
            final(self).wf(),
            final(ppu).wf(),
            accumulator_rel(*old(self), *final(self), *old(ppu), *final(ppu)),
    {
        let a = self.regs.a;
        let result = self.run_core(a);
        self.regs.a = result;
        self.exec_finished();
    }

    /// The five-cycle zero-page read-modify-write template.
    #[verifier::rlimit(100)]
    pub fn exec_zeropage_rmw(&mut self, ppu: &mut Ppu)
        requires
            old(self).mem.wf(),
            old(ppu).wf(),
            old(self).mode == CpuMode::Exec,
            old(self).stall_cycles == 0,
            exec_entry_inv(old(self).state),
            flag_set(old(self).regs.p, FLAG_RESERVED),
            old(self).state.executer.inst.template == Template::ZeroPageRmw,
        ensures
            final(self).wf(),
            final(ppu).wf(),
            zeropage_rmw_rel(*old(self), *final(self), *old(ppu), *final(ppu)),
    {
        if self.state.counter == 2 {
            let v = self.fetch(ppu);
            self.state.op_1 = v;
        } else if self.state.counter == 3 {
            let v = self.mem.read(ppu, self.state.op_1 as u16);
            self.state.op_2 = v;
        } else if self.state.counter == 4 {
            let orig = self.state.op_2;
            let a = self.state.op_1 as u16;
            self.write_mem(ppu, a, orig);
            let out = self.run_core(orig);
            self.state.op_2 = out;
        } else {
            let a = self.state.op_1 as u16;
            let v = self.state.op_2;
            self.write_mem(ppu, a, v);
            self.exec_finished();
        }
    }

    /// The six-cycle indexed zero-page read-modify-write template.
    #[verifier::rlimit(100)]
    pub fn exec_indexed_zeropage_x_rmw(&mut self, ppu: &mut Ppu)
        requires
            old(self).mem.wf(),
            old(ppu).wf(),
            old(self).mode == CpuMode::Exec,
            old(self).stall_cycles == 0,
            exec_entry_inv(old(self).state),
            flag_set(old(self).regs.p, FLAG_RESERVED),
            old(self).state.executer.inst.template == Template::IndexedZeroPageXRmw,
        ensures
            final(self).wf(),
            final(ppu).wf(),
            indexed_zeropage_x_rmw_rel(*old(self), *final(self), *old(ppu), *final(ppu)),
    {
        if self.state.counter == 2 {
            let v = self.fetch(ppu);
            self.state.op_1 = v;
        } else if self.state.counter == 3 {
            self.state.op_1 = (((self.state.op_1 as u16) + (self.regs.x as u16)) % 256) as u8;
        } else if self.state.counter == 4 {
            self.state.addr = self.state.op_1 as u16;
            let v = self.mem.read(ppu, self.state.addr);
            self.state.op_2 = v;
        } else if self.state.counter == 5 {
            let orig = self.state.op_2;
            let a = self.state.addr;
            self.write_mem(ppu, a, orig);
            let out = self.run_core(orig);
            self.state.op_2 = out;
        } else {
            let a = self.state.addr;
            let v = self.state.op_2;
            self.write_mem(ppu, a, v);
            self.exec_finished();
        }
    }

    /// The six-cycle absolute read-modify-write template.
    #[verifier::rlimit(100)]
    pub fn exec_absolute_rmw(&mut self, ppu: &mut Ppu)
        requires
            old(self).mem.wf(),
            old(ppu).wf(),
            old(self).mode == CpuMode::Exec,
            old(self).stall_cycles == 0,
            exec_entry_inv(old(self).state),
            flag_set(old(self).regs.p, FLAG_RESERVED),
            old(self).state.executer.inst.template == Template::AbsoluteRmw,
        ensures
            final(self).wf(),
            final(ppu).wf(),
            absolute_rmw_rel(*old(self), *final(self), *old(ppu), *final(ppu)),
    {
        if self.state.counter == 2 {
            let v = self.fetch(ppu);
            self.state.op_1 = v;
        } else if self.state.counter == 3 {
            let v = self.fetch(ppu);
            self.state.op_2 = v;
        } else if self.state.counter == 4 {
            let a = crate::util::make_addr(self.state.op_2, self.state.op_1);
            self.state.addr = a;
            let v = self.mem.read(ppu, a);
            self.state.op_2 = v;
        } else if self.state.counter == 5 {
            let orig = self.state.op_2;
            let a = self.state.addr;
            self.write_mem(ppu, a, orig);
            let out = self.run_core(orig);
            self.state.op_2 = out;
        } else {
            let a = self.state.addr;
            let v = self.state.op_2;
            self.write_mem(ppu, a, v);
            self.exec_finished();
        }
    }

    /// The seven-cycle indexed absolute read-modify-write template.
    #[verifier::rlimit(100)]
    pub fn exec_indexed_absolute_x_rmw(&mut self, ppu: &mut Ppu)
        requires
            old(self).mem.wf(),
            old(ppu).wf(),
            old(self).mode == CpuMode::Exec,
            old(self).stall_cycles == 0,
            exec_entry_inv(old(self).state),
            flag_set(old(self).regs.p, FLAG_RESERVED),
            old(self).state.executer.inst.template == Template::IndexedAbsoluteXRmw,
        ensures
            final(self).wf(),
            final(ppu).wf(),
            indexed_absolute_x_rmw_rel(*old(self), *final(self), *old(ppu), *final(ppu)),
    {
        if self.state.counter == 2 {
            let v = self.fetch(ppu);
            self.state.op_1 = v;
        } else if self.state.counter == 3 {
            let low = self.state.op_1;
            let high = self.fetch(ppu);
            let base = crate::util::make_addr(high, low);
            self.state.addr = (((base as u32) + (self.regs.x as u32)) % 0x10000) as u16;
        } else if self.state.counter == 4 {
        } else if self.state.counter == 5 {
            let v = self.mem.read(ppu, self.state.addr);
            self.state.op_1 = v;
        } else if self.state.counter == 6 {
            let orig = self.state.op_1;
            let a = self.state.addr;
            self.write_mem(ppu, a, orig);
            let out = self.run_core(orig);
            self.state.op_2 = out;
        } else {
            let a = self.state.addr;
            let v = self.state.op_2;
            self.write_mem(ppu, a, v);
            self.exec_finished();
        }
    }

    /// The three-cycle absolute jump.
    #[verifier::rlimit(100)]
    pub fn exec_absolute_jmp(&mut self, ppu: &mut Ppu)
        requires
            old(self).mem.wf(),
            old(ppu).wf(),
            old(self).mode == CpuMode::Exec,
            old(self).stall_cycles == 0,
            exec_entry_inv(old(self).state),
            flag_set(old(self).regs.p, FLAG_RESERVED),
            old(self).state.executer.inst.template == Template::AbsoluteJmp,
        ensures
            final(self).wf(),
            final(ppu).wf(),
            absolute_jmp_rel(*old(self), *final(self), *old(ppu), *final(ppu)),
    {
        if self.state.counter == 2 {
            let v = self.fetch(ppu);
            self.state.op_1 = v;
        } else {
            let low = self.state.op_1;
            let high = self.fetch(ppu);
            self.regs.pc = crate::util::make_addr(high, low);
            self.exec_finished();
        }
    }

    /// The five-cycle indirect jump, honouring the page-wrap quirk.
    #[verifier::rlimit(100)]
    pub fn exec_indirect_jmp(&mut self, ppu: &mut Ppu)
        requires
            old(self).mem.wf(),
            old(ppu).wf(),
            old(self).mode == CpuMode::Exec,
            old(self).stall_cycles == 0,
            exec_entry_inv(old(self).state),
            flag_set(old(self).regs.p, FLAG_RESERVED),
            old(self).state.executer.inst.template == Template::IndirectJmp,
        ensures
            final(self).wf(),
            final(ppu).wf(),
            indirect_jmp_rel(*old(self), *final(self), *old(ppu), *final(ppu)),
    {
        if self.state.counter == 2 {
            let v = self.fetch(ppu);
            self.state.op_1 = v;
        } else if self.state.counter == 3 {
            let low = self.state.op_1;
            let high = self.fetch(ppu);
            self.state.addr = crate::util::make_addr(high, low);
        } else if self.state.counter == 4 {
            let v = self.mem.read(ppu, self.state.addr);
            self.state.op_1 = v;
        } else {
            let ptr = self.state.addr;
            let wrapped = crate::util::make_addr((ptr / 256) as u8, (((ptr % 256) + 1) % 256) as u8);
            let low = self.state.op_1;
            let high = self.mem.read(ppu, wrapped);
            self.regs.pc = crate::util::make_addr(high, low);
            self.exec_finished();
        }
    }

    /// The branch template: two cycles, plus one when taken, plus one more
    /// when the target lies on another page.
    #[verifier::rlimit(100)]
    #[verifier::spinoff_prover]
    pub fn exec_relative(&mut self, ppu: &mut Ppu)
        requires
            old(self).mem.wf(),
            old(ppu).wf(),
            old(self).mode == CpuMode::Exec,
            old(self).stall_cycles == 0,
            exec_entry_inv(old(self).state),
            flag_set(old(self).regs.p, FLAG_RESERVED),
            old(self).state.executer.inst.template == Template::Relative,
        ensures
            final(self).wf(),
            final(ppu).wf(),
            relative_rel(*old(self), *final(self), *old(ppu), *final(ppu)),
    {
        if self.state.counter == 2 {
            let offset = self.fetch(ppu);
            let taken = self.run_branch_core();
            if taken == 0 {
                self.exec_finished();
            } else {
                self.state.executer.last_cycle = self.state.executer.last_cycle + 1;
                let delta: u16 = if offset < 128 {
                    offset as u16
                } else {
                    (offset as u16) + 0xFF00
                };
                let target = (((self.regs.pc as u32) + (delta as u32)) % 0x10000) as u16;
                if target / 256 == self.regs.pc / 256 {
                    self.state.op_1 = 1;
                } else {
                    self.state.op_1 = 2;
                }
                self.state.addr = target;
            }
        } else if self.state.counter == 3 {
            let cont = self.state.op_1 > 1;
            self.state.op_1 = if self.state.op_1 == 0 {
                0
            } else {
                self.state.op_1 - 1
            };
            if !cont {
                if self.int_requested.kind != IntType::Empty {
                    self.int_requested.is_force_delayed = true;
                }
                self.regs.pc = self.state.addr;
                self.exec_finished();
            } else {
                self.state.executer.last_cycle = self.state.executer.last_cycle + 1;
            }
        } else {
            self.regs.pc = self.state.addr;
            self.exec_finished();
        }
    }
}

/// The cycle count an instruction consumes equals its declared count: an
/// execute cycle completes the instruction exactly when the sub-cycle
/// counter has reached the cycle budget — the template's base count plus
/// the one-cycle adjustments added on a page cross and on a taken branch.
#[verifier::rlimit(100)]
#[verifier::spinoff_prover]
pub proof fn lemma_completion_at_cycle_budget(pre: Cpu, post: Cpu, p0: Ppu, p1: Ppu)
    requires
        crate::cpu::cpu_state::exec_entry_inv(pre.state),
        pre.mode == crate::cpu::cpu_state::CpuMode::Exec,
        exec_dispatch_rel(pre, post, p0, p1),
        post.mode != crate::cpu::cpu_state::CpuMode::Exec,
    ensures
        pre.state.counter == pre.state.executer.last_cycle,
{
}

/// A taken branch that stays in its page delays a pending interrupt by one
/// instruction: the machine returns to the fetch stage with the interrupt
/// still pending rather than entering its sequence, and the consumed delay
/// flag buys the program exactly one more instruction.
pub proof fn lemma_taken_branch_in_page_delays_interrupt(pre: Cpu, post: Cpu, p0: Ppu, p1: Ppu)
    requires
        crate::cpu::cpu_state::exec_entry_inv(pre.state),
        pre.state.executer.inst.template == Template::Relative,
        pre.state.counter == 3,
        pre.state.op_1 == 1,
        pre.int_requested.kind != IntType::Empty,
        relative_rel(pre, post, p0, p1),
    ensures
        post.mode == crate::cpu::cpu_state::CpuMode::Fetch,
        post.int_requested == (Interrupt {
            kind: pre.int_requested.kind,
            is_force_delayed: false,
        }),
        post.regs.pc == pre.state.addr,
{
}

} // verus!
