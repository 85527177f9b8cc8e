//! Operation cores, group 1: the value instructions the read, write and
//! read-modify-write templates run.

use vstd::prelude::*;
use crate::cpu::{Cpu, core_apply, FLAG_CARRY, FLAG_NEGATIVE, FLAG_OVERFLOW, FLAG_ZERO};
use crate::cpu::instruction::OpCore;

verus! {

impl Cpu {
    /// ORA: bitwise OR of the accumulator and the operand, into the
    /// accumulator; Negative and Zero follow the result.
    pub fn ora_action(&mut self, val: u8) -> (r: u8)
        ensures
            *final(self) == (Cpu {
                regs: core_apply(OpCore::Ora, old(self).regs, val).0,
                ..*old(self)
            }),
            r == core_apply(OpCore::Ora, old(self).regs, val).1,
    {
        let v = self.regs.a | val;
        self.regs.a_set(v);
        0
    }

    /// AND: bitwise AND of the accumulator and the operand, into the
    /// accumulator; Negative and Zero follow the result.
    pub fn and_action(&mut self, val: u8) -> (r: u8)
        ensures
            *final(self) == (Cpu {
                regs: core_apply(OpCore::And, old(self).regs, val).0,
                ..*old(self)
            }),
            r == core_apply(OpCore::And, old(self).regs, val).1,
    {
        let v = self.regs.a & val;
        self.regs.a_set(v);
        0
    }

    /// EOR: bitwise exclusive OR of the accumulator and the operand, into
    /// the accumulator; Negative and Zero follow the result.
    pub fn eor_action(&mut self, val: u8) -> (r: u8)
        ensures
            *final(self) == (Cpu {
                regs: core_apply(OpCore::Eor, old(self).regs, val).0,
                ..*old(self)
            }),
            r == core_apply(OpCore::Eor, old(self).regs, val).1,
    {
        let v = self.regs.a ^ val;
        self.regs.a_set(v);
        0
    }

    /// ADC: adds the operand and the Carry flag into the accumulator.
    pub fn adc_action(&mut self, val: u8) -> (r: u8)
        ensures
            *final(self) == (Cpu {
                regs: core_apply(OpCore::Adc, old(self).regs, val).0,
                ..*old(self)
            }),
            r == core_apply(OpCore::Adc, old(self).regs, val).1,
    {
        self.regs.a_add(val);
        0
    }

    /// SBC: subtracts the operand and the borrow from the accumulator; an
    /// addition with carry of the bit-inverted operand.
    pub fn sbc_action(&mut self, val: u8) -> (r: u8)
        ensures
            *final(self) == (Cpu {
                regs: core_apply(OpCore::Sbc, old(self).regs, val).0,
                ..*old(self)
            }),
            r == core_apply(OpCore::Sbc, old(self).regs, val).1,
    {
        self.regs.a_sub(val);
        0
    }

    /// STA: hands the accumulator out for the template to store; no flags
    /// move.
    pub fn sta_action(&mut self, val: u8) -> (r: u8)
        ensures
            *final(self) == (Cpu {
                regs: core_apply(OpCore::Sta, old(self).regs, val).0,
                ..*old(self)
            }),
            r == core_apply(OpCore::Sta, old(self).regs, val).1,
    {
        self.regs.a
    }

    /// STX: hands index register X out for the template to store; no flags
    /// move.
    pub fn stx_action(&mut self, val: u8) -> (r: u8)
        ensures
            *final(self) == (Cpu {
                regs: core_apply(OpCore::Stx, old(self).regs, val).0,
                ..*old(self)
            }),
            r == core_apply(OpCore::Stx, old(self).regs, val).1,
    {
        self.regs.x
    }

    /// STY: hands index register Y out for the template to store; no flags
    /// move.
    pub fn sty_action(&mut self, val: u8) -> (r: u8)
        ensures
            *final(self) == (Cpu {
                regs: core_apply(OpCore::Sty, old(self).regs, val).0,
                ..*old(self)
            }),
            r == core_apply(OpCore::Sty, old(self).regs, val).1,
    {
        self.regs.y
    }

    /// LDA: loads the accumulator; Negative and Zero follow the value.
    pub fn lda_action(&mut self, val: u8) -> (r: u8)
        ensures
            *final(self) == (Cpu {
                regs: core_apply(OpCore::Lda, old(self).regs, val).0,
                ..*old(self)
            }),
            r == core_apply(OpCore::Lda, old(self).regs, val).1,
    {
        self.regs.a_set(val);
        0
    }

    /// LDX: loads index register X; Negative and Zero follow the value.
    pub fn ldx_action(&mut self, val: u8) -> (r: u8)
        ensures
            *final(self) == (Cpu {
                regs: core_apply(OpCore::Ldx, old(self).regs, val).0,
                ..*old(self)
            }),
            r == core_apply(OpCore::Ldx, old(self).regs, val).1,
    {
        self.regs.x_set(val);
        0
    }

    /// LDY: loads index register Y; Negative and Zero follow the value.
    pub fn ldy_action(&mut self, val: u8) -> (r: u8)
        ensures
            *final(self) == (Cpu {
                regs: core_apply(OpCore::Ldy, old(self).regs, val).0,
                ..*old(self)
            }),
            r == core_apply(OpCore::Ldy, old(self).regs, val).1,
    {
        self.regs.y_set(val);
        0
    }

    /// CMP: compares the accumulator with the operand; Carry holds when the
    /// accumulator is not below it, Negative and Zero follow the difference,
    /// and no register moves.
    pub fn cmp_action(&mut self, val: u8) -> (r: u8)
        ensures
            *final(self) == (Cpu {
                regs: core_apply(OpCore::Cmp, old(self).regs, val).0,
                ..*old(self)
            }),
            r == core_apply(OpCore::Cmp, old(self).regs, val).1,
    {
        let a = self.regs.a;
        self.regs.cmp(a, val);
        0
    }

    /// CPX: compares index register X with the operand, as CMP does.
    pub fn cpx_action(&mut self, val: u8) -> (r: u8)
        ensures
            *final(self) == (Cpu {
                regs: core_apply(OpCore::Cpx, old(self).regs, val).0,
                ..*old(self)
            }),
            r == core_apply(OpCore::Cpx, old(self).regs, val).1,
    {
        let x = self.regs.x;
        self.regs.cmp(x, val);
        0
    }

    /// CPY: compares index register Y with the operand, as CMP does.
    pub fn cpy_action(&mut self, val: u8) -> (r: u8)
        ensures
            *final(self) == (Cpu {
                regs: core_apply(OpCore::Cpy, old(self).regs, val).0,
                ..*old(self)
            }),
            r == core_apply(OpCore::Cpy, old(self).regs, val).1,
    {
        let y = self.regs.y;
        self.regs.cmp(y, val);
        0
    }

    /// BIT: Negative and Overflow come from bits 7 and 6 of the operand,
    /// Zero from the AND of accumulator and operand; nothing else moves.
    pub fn bit_action(&mut self, val: u8) -> (r: u8)
        ensures
            *final(self) == (Cpu {
                regs: core_apply(OpCore::Bit, old(self).regs, val).0,
                ..*old(self)
            }),
            r == core_apply(OpCore::Bit, old(self).regs, val).1,
    {
        if val >= 0x80 {
            self.regs.p = self.regs.p | FLAG_NEGATIVE;
        } else {
            self.regs.p = self.regs.p & !FLAG_NEGATIVE;
        }
        if val & 0x40 != 0 {
            self.regs.p = self.regs.p | FLAG_OVERFLOW;
        } else {
            self.regs.p = self.regs.p & !FLAG_OVERFLOW;
        }
        if self.regs.a & val == 0 {
            self.regs.p = self.regs.p | FLAG_ZERO;
        } else {
            self.regs.p = self.regs.p & !FLAG_ZERO;
        }
        0
    }

    /// ASL: shifts left by one; the bit shifted out lands in Carry, and
    /// Negative and Zero follow the result.
    pub fn asl_action(&mut self, val: u8) -> (r: u8)
        ensures
            *final(self) == (Cpu {
                regs: core_apply(OpCore::Asl, old(self).regs, val).0,
                ..*old(self)
            }),
            r == core_apply(OpCore::Asl, old(self).regs, val).1,
    {
        let carry_out = val >= 0x80;
        let result = (((val as u16) * 2) % 256) as u8;
        if carry_out {
            self.regs.p = self.regs.p | FLAG_CARRY;
        } else {
            self.regs.p = self.regs.p & !FLAG_CARRY;
        }
        self.regs.change_negative_by_value(result);
        self.regs.change_zero_by_value(result);
        result
    }

    /// LSR: shifts right by one; the bit shifted out lands in Carry, and
    /// Negative and Zero follow the result.
    pub fn lsr_action(&mut self, val: u8) -> (r: u8)
        ensures
            *final(self) == (Cpu {
                regs: core_apply(OpCore::Lsr, old(self).regs, val).0,
                ..*old(self)
            }),
            r == core_apply(OpCore::Lsr, old(self).regs, val).1,
    {
        let carry_out = val % 2 == 1;
        let result = val / 2;
        if carry_out {
            self.regs.p = self.regs.p | FLAG_CARRY;
        } else {
            self.regs.p = self.regs.p & !FLAG_CARRY;
        }
        self.regs.change_negative_by_value(result);
        self.regs.change_zero_by_value(result);
        result
    }

    /// ROL: rotates left by one through Carry: the old Carry enters at the
    /// bottom and the bit shifted out replaces it.
    pub fn rol_action(&mut self, val: u8) -> (r: u8)
        ensures
            *final(self) == (Cpu {
                regs: core_apply(OpCore::Rol, old(self).regs, val).0,
                ..*old(self)
            }),
            r == core_apply(OpCore::Rol, old(self).regs, val).1,
    {
        let carry_in: u8 = if self.regs.p & FLAG_CARRY != 0 {
            1
        } else {
            0
        };
        let carry_out = val >= 0x80;
        let result = ((((val as u16) * 2) + (carry_in as u16)) % 256) as u8;
        if carry_out {
            self.regs.p = self.regs.p | FLAG_CARRY;
        } else {
            self.regs.p = self.regs.p & !FLAG_CARRY;
        }
        self.regs.change_negative_by_value(result);
        self.regs.change_zero_by_value(result);
        result
    }

    /// ROR: rotates right by one through Carry: the old Carry enters at the
    /// top and the bit shifted out replaces it.
    pub fn ror_action(&mut self, val: u8) -> (r: u8)
        ensures
            *final(self) == (Cpu {
                regs: core_apply(OpCore::Ror, old(self).regs, val).0,
                ..*old(self)
            }),
            r == core_apply(OpCore::Ror, old(self).regs, val).1,
    {
        let carry_in: u8 = if self.regs.p & FLAG_CARRY != 0 {
            128
        } else {
            0
        };
        let carry_out = val % 2 == 1;
        let result = val / 2 + carry_in;
        if carry_out {
            self.regs.p = self.regs.p | FLAG_CARRY;
        } else {
            self.regs.p = self.regs.p & !FLAG_CARRY;
        }
        self.regs.change_negative_by_value(result);
        self.regs.change_zero_by_value(result);
        result
    }

    /// DEC: the operand minus one, wrapping; Negative and Zero follow the
    /// result.
    pub fn dec_action(&mut self, val: u8) -> (r: u8)
        ensures
            *final(self) == (Cpu {
                regs: core_apply(OpCore::Dec, old(self).regs, val).0,
                ..*old(self)
            }),
            r == core_apply(OpCore::Dec, old(self).regs, val).1,
    {
        let result = if val == 0 {
            255
        } else {
            val - 1
        };
        self.regs.change_negative_by_value(result);
        self.regs.change_zero_by_value(result);
        result
    }

    /// INC: the operand plus one, wrapping; Negative and Zero follow the
    /// result.
    pub fn inc_action(&mut self, val: u8) -> (r: u8)
        ensures
            *final(self) == (Cpu {
                regs: core_apply(OpCore::Inc, old(self).regs, val).0,
                ..*old(self)
            }),
            r == core_apply(OpCore::Inc, old(self).regs, val).1,
    {
        let result = (((val as u16) + 1) % 256) as u8;
        self.regs.change_negative_by_value(result);
        self.regs.change_zero_by_value(result);
        result
    }

    /// JMP: the jump templates move the program counter themselves; the
    /// core does nothing.
    pub fn jmp_action(&mut self, val: u8) -> (r: u8)
        ensures
            *final(self) == (Cpu {
                regs: core_apply(OpCore::Jmp, old(self).regs, val).0,
                ..*old(self)
            }),
            r == core_apply(OpCore::Jmp, old(self).regs, val).1,
    {
        0
    }

}

} // verus!
