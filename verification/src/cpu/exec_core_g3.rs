//! Operation cores, group 3: stack, transfer, flag and no-operation
//! instructions, and the cores whose templates do all their work.

use vstd::prelude::*;
use crate::cpu::{
    Cpu, Registers, core_apply, dec_s, plp_value, set_nz, stack_peek, stack_push_ram, with_p,
    FLAG_BREAK,
};
use crate::cpu::instruction::OpCore;

verus! {

impl Cpu {
    /// JSR: its template pushes the return address and jumps; the core does
    /// nothing.
    pub fn jsr_action(&mut self, _val: u8) -> (r: u8)
        ensures
            *final(self) == *old(self),
            r == 0,
    {
        0
    }

    /// RTI: its template pulls the flags and the program counter; the core
    /// does nothing.
    pub fn rti_action(&mut self, _val: u8) -> (r: u8)
        ensures
            *final(self) == *old(self),
            r == 0,
    {
        0
    }

    /// RTS: its template pulls the return address; the core does nothing.
    pub fn rts_action(&mut self, _val: u8) -> (r: u8)
        ensures
            *final(self) == *old(self),
            r == 0,
    {
        0
    }

    /// PHP: pushes the status register with the Break bit set, as every
    /// software push of P shows it.
    pub fn php_action(&mut self, _val: u8) -> (r: u8)
        requires
            old(self).mem.wf(),
        ensures
            *final(self) == (Cpu {
                mem: final(self).mem,
                regs: Registers { s: dec_s(old(self).regs.s), ..old(self).regs },
                ..*old(self)
            }),
            final(self).mem.wf(),
            final(self).mem.ram@ == stack_push_ram(
                old(self).mem.ram@,
                old(self).regs.s,
                old(self).regs.p | FLAG_BREAK,
            ),
            r == 0,
    {
        let flags = self.regs.p | FLAG_BREAK;
        self.push_stack(flags);
        0
    }

    /// PLP: restores the status register from the byte the stack pointer
    /// names, with Break forced low and the reserved bit high.
    pub fn plp_action(&mut self, _val: u8) -> (r: u8)
        requires
            old(self).mem.wf(),
        ensures
            *final(self) == (Cpu {
                regs: with_p(
                    old(self).regs,
                    plp_value(stack_peek(old(self).mem.ram@, old(self).regs.s)),
                ),
                ..*old(self)
            }),
            r == 0,
    {
        let v = self.peek_stack();
        self.regs.p = (v & !FLAG_BREAK) | crate::cpu::FLAG_RESERVED;
        0
    }

    /// PHA: pushes the accumulator.
    pub fn pha_action(&mut self, _val: u8) -> (r: u8)
        requires
            old(self).mem.wf(),
        ensures
            *final(self) == (Cpu {
                mem: final(self).mem,
                regs: Registers { s: dec_s(old(self).regs.s), ..old(self).regs },
                ..*old(self)
            }),
            final(self).mem.wf(),
            final(self).mem.ram@ == stack_push_ram(
                old(self).mem.ram@,
                old(self).regs.s,
                old(self).regs.a,
            ),
            r == 0,
    {
        let a = self.regs.a;
        self.push_stack(a);
        0
    }

    /// PLA: loads the accumulator from the byte the stack pointer names,
    /// with Negative and Zero following the value.
    pub fn pla_action(&mut self, _val: u8) -> (r: u8)
        requires
            old(self).mem.wf(),
        ensures
            *final(self) == (Cpu {
                regs: Registers {
                    a: stack_peek(old(self).mem.ram@, old(self).regs.s),
                    p: set_nz(old(self).regs.p, stack_peek(old(self).mem.ram@, old(self).regs.s)),
                    ..old(self).regs
                },
                ..*old(self)
            }),
            r == 0,
    {
        let v = self.peek_stack();
        self.regs.a = v;
        self.regs.change_negative_by_value(v);
        self.regs.change_zero_by_value(v);
        0
    }

    /// DEY: index register Y minus one, wrapping; Negative and Zero follow.
    pub fn dey_action(&mut self, _val: u8) -> (r: u8)
        ensures
            *final(self) == (Cpu {
                regs: core_apply(OpCore::Dey, old(self).regs, 0).0,
                ..*old(self)
            }),
            r == core_apply(OpCore::Dey, old(self).regs, 0).1,
    {
        let v = if self.regs.y == 0 {
            255
        } else {
            self.regs.y - 1
        };
        self.regs.y = v;
        self.regs.change_negative_by_value(v);
        self.regs.change_zero_by_value(v);
        0
    }

    /// INY: index register Y plus one, wrapping; Negative and Zero follow.
    pub fn iny_action(&mut self, _val: u8) -> (r: u8)
        ensures
            *final(self) == (Cpu {
                regs: core_apply(OpCore::Iny, old(self).regs, 0).0,
                ..*old(self)
            }),
            r == core_apply(OpCore::Iny, old(self).regs, 0).1,
    {
        let v = (((self.regs.y as u16) + 1) % 256) as u8;
        self.regs.y = v;
        self.regs.change_negative_by_value(v);
        self.regs.change_zero_by_value(v);
        0
    }

    /// DEX: index register X minus one, wrapping; Negative and Zero follow.
    pub fn dex_action(&mut self, _val: u8) -> (r: u8)
        ensures
            *final(self) == (Cpu {
                regs: core_apply(OpCore::Dex, old(self).regs, 0).0,
                ..*old(self)
            }),
            r == core_apply(OpCore::Dex, old(self).regs, 0).1,
    {
        let v = if self.regs.x == 0 {
            255
        } else {
            self.regs.x - 1
        };
        self.regs.x = v;
        self.regs.change_negative_by_value(v);
        self.regs.change_zero_by_value(v);
        0
    }

    /// INX: index register X plus one, wrapping; Negative and Zero follow.
    pub fn inx_action(&mut self, _val: u8) -> (r: u8)
        ensures
            *final(self) == (Cpu {
                regs: core_apply(OpCore::Inx, old(self).regs, 0).0,
                ..*old(self)
            }),
            r == core_apply(OpCore::Inx, old(self).regs, 0).1,
    {
        let v = (((self.regs.x as u16) + 1) % 256) as u8;
        self.regs.x = v;
        self.regs.change_negative_by_value(v);
        self.regs.change_zero_by_value(v);
        0
    }

    /// TAY: copies the accumulator into Y; Negative and Zero follow.
    pub fn tay_action(&mut self, _val: u8) -> (r: u8)
        ensures
            *final(self) == (Cpu {
                regs: core_apply(OpCore::Tay, old(self).regs, 0).0,
                ..*old(self)
            }),
            r == core_apply(OpCore::Tay, old(self).regs, 0).1,
    {
        let v = self.regs.a;
        self.regs.y = v;
        self.regs.change_negative_by_value(v);
        self.regs.change_zero_by_value(v);
        0
    }

    /// TAX: copies the accumulator into X; Negative and Zero follow.
    pub fn tax_action(&mut self, _val: u8) -> (r: u8)
        ensures
            *final(self) == (Cpu {
                regs: core_apply(OpCore::Tax, old(self).regs, 0).0,
                ..*old(self)
            }),
            r == core_apply(OpCore::Tax, old(self).regs, 0).1,
    {
        let v = self.regs.a;
        self.regs.x = v;
        self.regs.change_negative_by_value(v);
        self.regs.change_zero_by_value(v);
        0
    }

    /// TYA: copies Y into the accumulator; Negative and Zero follow.
    pub fn tya_action(&mut self, _val: u8) -> (r: u8)
        ensures
            *final(self) == (Cpu {
                regs: core_apply(OpCore::Tya, old(self).regs, 0).0,
                ..*old(self)
            }),
            r == core_apply(OpCore::Tya, old(self).regs, 0).1,
    {
        let v = self.regs.y;
        self.regs.a = v;
        self.regs.change_negative_by_value(v);
        self.regs.change_zero_by_value(v);
        0
    }

    /// TXA: copies X into the accumulator; Negative and Zero follow.
    pub fn txa_action(&mut self, _val: u8) -> (r: u8)
        ensures
            *final(self) == (Cpu {
                regs: core_apply(OpCore::Txa, old(self).regs, 0).0,
                ..*old(self)
            }),
            r == core_apply(OpCore::Txa, old(self).regs, 0).1,
    {
        let v = self.regs.x;
        self.regs.a = v;
        self.regs.change_negative_by_value(v);
        self.regs.change_zero_by_value(v);
        0
    }

    /// TSX: copies the stack pointer into X; Negative and Zero follow.
    pub fn tsx_action(&mut self, _val: u8) -> (r: u8)
        ensures
            *final(self) == (Cpu {
                regs: core_apply(OpCore::Tsx, old(self).regs, 0).0,
                ..*old(self)
            }),
            r == core_apply(OpCore::Tsx, old(self).regs, 0).1,
    {
        let v = self.regs.s;
        self.regs.x = v;
        self.regs.change_negative_by_value(v);
        self.regs.change_zero_by_value(v);
        0
    }

    /// TXS: copies X into the stack pointer; no flags move.
    pub fn txs_action(&mut self, _val: u8) -> (r: u8)
        ensures
            *final(self) == (Cpu {
                regs: core_apply(OpCore::Txs, old(self).regs, 0).0,
                ..*old(self)
            }),
            r == core_apply(OpCore::Txs, old(self).regs, 0).1,
    {
        self.regs.s = self.regs.x;
        0
    }

    /// CLC: clears Carry.
    pub fn clc_action(&mut self, _val: u8) -> (r: u8)
        ensures
            *final(self) == (Cpu {
                regs: core_apply(OpCore::Clc, old(self).regs, 0).0,
                ..*old(self)
            }),
            r == core_apply(OpCore::Clc, old(self).regs, 0).1,
    {
        self.regs.flags_off(crate::cpu::FLAG_CARRY);
        0
    }

    /// SEC: sets Carry.
    pub fn sec_action(&mut self, _val: u8) -> (r: u8)
        ensures
            *final(self) == (Cpu {
                regs: core_apply(OpCore::Sec, old(self).regs, 0).0,
                ..*old(self)
            }),
            r == core_apply(OpCore::Sec, old(self).regs, 0).1,
    {
        self.regs.flags_on(crate::cpu::FLAG_CARRY);
        0
    }

    /// CLI: clears the interrupt-disable flag.
    pub fn cli_action(&mut self, _val: u8) -> (r: u8)
        ensures
            *final(self) == (Cpu {
                regs: core_apply(OpCore::Cli, old(self).regs, 0).0,
                ..*old(self)
            }),
            r == core_apply(OpCore::Cli, old(self).regs, 0).1,
    {
        self.regs.flags_off(crate::cpu::FLAG_INT_DISABLE);
        0
    }

    /// SEI: sets the interrupt-disable flag.
    pub fn sei_action(&mut self, _val: u8) -> (r: u8)
        ensures
            *final(self) == (Cpu {
                regs: core_apply(OpCore::Sei, old(self).regs, 0).0,
                ..*old(self)
            }),
            r == core_apply(OpCore::Sei, old(self).regs, 0).1,
    {
        self.regs.flags_on(crate::cpu::FLAG_INT_DISABLE);
        0
    }

    /// CLV: clears Overflow.
    pub fn clv_action(&mut self, _val: u8) -> (r: u8)
        ensures
            *final(self) == (Cpu {
                regs: core_apply(OpCore::Clv, old(self).regs, 0).0,
                ..*old(self)
            }),
            r == core_apply(OpCore::Clv, old(self).regs, 0).1,
    {
        self.regs.flags_off(crate::cpu::FLAG_OVERFLOW);
        0
    }

    /// CLD: clears the Decimal flag, which has no further effect on this
    /// platform.
    pub fn cld_action(&mut self, _val: u8) -> (r: u8)
        ensures
            *final(self) == (Cpu {
                regs: core_apply(OpCore::Cld, old(self).regs, 0).0,
                ..*old(self)
            }),
            r == core_apply(OpCore::Cld, old(self).regs, 0).1,
    {
        self.regs.flags_off(crate::cpu::FLAG_DECIMAL);
        0
    }

    /// SED: sets the Decimal flag, which has no further effect on this
    /// platform.
    pub fn sed_action(&mut self, _val: u8) -> (r: u8)
        ensures
            *final(self) == (Cpu {
                regs: core_apply(OpCore::Sed, old(self).regs, 0).0,
                ..*old(self)
            }),
            r == core_apply(OpCore::Sed, old(self).regs, 0).1,
    {
        self.regs.flags_on(crate::cpu::FLAG_DECIMAL);
        0
    }

    /// NOP: does nothing for two cycles.
    pub fn nop_action(&mut self, _val: u8) -> (r: u8)
        ensures
            *final(self) == (Cpu {
                regs: core_apply(OpCore::Nop, old(self).regs, 0).0,
                ..*old(self)
            }),
            r == core_apply(OpCore::Nop, old(self).regs, 0).1,
    {
        let _unused = self.regs.a;
        0
    }

}

} // verus!
