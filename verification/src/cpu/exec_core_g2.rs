//! Operation cores, group 2: the branch condition tests.
//!
//! Each returns one when its flag condition asks the branch to be taken and
//! zero otherwise, leaving the whole machine untouched.

use vstd::prelude::*;
use crate::cpu::{Cpu, branch_taken, FLAG_CARRY, FLAG_NEGATIVE, FLAG_OVERFLOW, FLAG_ZERO};
use crate::cpu::instruction::OpCore;

verus! {

impl Cpu {
    /// BPL: branch when Negative is clear.
    pub fn bpl_action(&mut self, _val: u8) -> (r: u8)
        ensures
            *final(self) == *old(self),
            r == (if branch_taken(OpCore::Bpl, old(self).regs.p) {
                1u8
            } else {
                0u8
            }),
    {
        if self.regs.p & FLAG_NEGATIVE == 0 {
            1
        } else {
            0
        }
    }

    /// BMI: branch when Negative is set.
    pub fn bmi_action(&mut self, _val: u8) -> (r: u8)
        ensures
            *final(self) == *old(self),
            r == (if branch_taken(OpCore::Bmi, old(self).regs.p) {
                1u8
            } else {
                0u8
            }),
    {
        if self.regs.p & FLAG_NEGATIVE != 0 {
            1
        } else {
            0
        }
    }

    /// BVC: branch when Overflow is clear.
    pub fn bvc_action(&mut self, _val: u8) -> (r: u8)
        ensures
            *final(self) == *old(self),
            r == (if branch_taken(OpCore::Bvc, old(self).regs.p) {
                1u8
            } else {
                0u8
            }),
    {
        if self.regs.p & FLAG_OVERFLOW == 0 {
            1
        } else {
            0
        }
    }

    /// BVS: branch when Overflow is set.
    pub fn bvs_action(&mut self, _val: u8) -> (r: u8)
        ensures
            *final(self) == *old(self),
            r == (if branch_taken(OpCore::Bvs, old(self).regs.p) {
                1u8
            } else {
                0u8
            }),
    {
        if self.regs.p & FLAG_OVERFLOW != 0 {
            1
        } else {
            0
        }
    }

    /// BCC: branch when Carry is clear.
    pub fn bcc_action(&mut self, _val: u8) -> (r: u8)
        ensures
            *final(self) == *old(self),
            r == (if branch_taken(OpCore::Bcc, old(self).regs.p) {
                1u8
            } else {
                0u8
            }),
    {
        if self.regs.p & FLAG_CARRY == 0 {
            1
        } else {
            0
        }
    }

    /// BCS: branch when Carry is set.
    pub fn bcs_action(&mut self, _val: u8) -> (r: u8)
        ensures
            *final(self) == *old(self),
            r == (if branch_taken(OpCore::Bcs, old(self).regs.p) {
                1u8
            } else {
                0u8
            }),
    {
        if self.regs.p & FLAG_CARRY != 0 {
            1
        } else {
            0
        }
    }

    /// BNE: branch when Zero is clear.
    pub fn bne_action(&mut self, _val: u8) -> (r: u8)
        ensures
            *final(self) == *old(self),
            r == (if branch_taken(OpCore::Bne, old(self).regs.p) {
                1u8
            } else {
                0u8
            }),
    {
        if self.regs.p & FLAG_ZERO == 0 {
            1
        } else {
            0
        }
    }

    /// BEQ: branch when Zero is set.
    pub fn beq_action(&mut self, _val: u8) -> (r: u8)
        ensures
            *final(self) == *old(self),
            r == (if branch_taken(OpCore::Beq, old(self).regs.p) {
                1u8
            } else {
                0u8
            }),
    {
        if self.regs.p & FLAG_ZERO != 0 {
            1
        } else {
            0
        }
    }

}

} // verus!
