//! The PPU's internal state: a warm-up period after power-on, then normal
//! operation.  Register reads and writes behave differently in the two
//! states.

use vstd::prelude::*;
use vstd::pervasive::VecAdditionalExecFns;
use crate::ppu::{
    Ppu, Registers, WARM_UP_TIME, read_idling_val, read_ready_val, read_idling_rel, read_ready_rel,
    write_idling_rel, write_ready_rel, dma_write_rel, vram_inc, STATUS_VBLANK,
};
use crate::ppu_databus::PpuRegs;

verus! {

/// Whether the unit is still warming up or answering normally.
#[derive(Debug, PartialEq, Eq, Structural, Clone, Copy)]
pub enum PpuState {
    /// The warm-up period right after power-on.
    Idling,
    /// Normal operation.
    Ready,
}

impl Ppu {
    /// One clock of the warm-up period: once enough clocks have passed, the
    /// unit starts answering normally.
    pub fn step_idling(&mut self)
        ensures
            final(self).regs == old(self).regs,
            final(self).spr_ram@ == old(self).spr_ram@,
            final(self).vram == old(self).vram,
            final(self).clock_counter == old(self).clock_counter,
            final(self).reset_requested == old(self).reset_requested,
            final(self).state == (if old(self).clock_counter > WARM_UP_TIME {
                PpuState::Ready
            } else {
                old(self).state
            }),
    {
        if self.clock_counter > WARM_UP_TIME {
            self.state = PpuState::Ready;
        }
    }

    /// One clock of normal operation; pixel generation is out of scope, so
    /// nothing changes.
    pub fn step_ready(&mut self)
        ensures
            *final(self) == *old(self),
    {
    }

    /// A register write during warm-up: control, mask, scroll, address and
    /// data writes are ignored; the OAM registers accept their bytes.
    pub fn write_idling(&mut self, reg: PpuRegs, data: u8)
        ensures
            write_idling_rel(*old(self), *final(self), reg, data),
    {
        self.regs.databus = data;
        match reg {
            PpuRegs::OamAddr => {
                self.regs.oam_addr = data;
            },
            PpuRegs::OamData => {
                self.regs.oam_data = data;
            },
            _ => {},
        }
    }

    /// A register write in normal operation, with the latch, OAM and video
    /// memory effects each register demands.
    pub fn write_ready(&mut self, reg: PpuRegs, data: u8)
        requires
            old(self).wf(),
        ensures
            final(self).wf(),
            write_ready_rel(*old(self), *final(self), reg, data),
    {
        self.regs.databus = data;
        match reg {
            PpuRegs::Ctrl => {
                self.regs.ctrl = data;
            },
            PpuRegs::Mask => {
                self.regs.mask = data;
            },
            PpuRegs::Status => {},
            PpuRegs::OamAddr => {
                self.regs.oam_addr = data;
            },
            PpuRegs::OamData => {
                self.regs.oam_data = data;
                let pos: usize = self.regs.oam_addr as usize;
                self.spr_ram.set(pos, data);
                self.regs.oam_addr = (((self.regs.oam_addr as u16) + 1) % 256) as u8;
            },
            PpuRegs::Scroll => {
                self.regs.scroll = data;
                self.regs.toggle = !self.regs.toggle;
            },
            PpuRegs::PpuAddr => {
                self.regs.addr = data;
                if !self.regs.toggle {
                    self.regs.addr_latch_hi = data;
                    self.regs.toggle = true;
                } else {
                    self.regs.vaddr = ((self.regs.addr_latch_hi % 0x40) as u16) * 256 + (data
                        as u16);
                    self.regs.toggle = false;
                }
            },
            PpuRegs::PpuData => {
                self.regs.data = data;
                let va = self.regs.vaddr;
                self.vram.write(va, data);
                let inc: u16 = if self.regs.ctrl & crate::ppu::CTRL_VRAM_INCREMENT != 0 {
                    32
                } else {
                    1
                };
                self.regs.vaddr = (va + inc) % 0x4000;
            },
        }
    }

    /// A register read during warm-up: readable registers answer from their
    /// stored bytes, and only the bus latch changes.
    pub fn read_idling(&mut self, reg: PpuRegs) -> (r: u8)
        ensures
            r == read_idling_val(*old(self), reg),
            read_idling_rel(*old(self), *final(self), reg),
    {
        let v: u8 = match reg {
            PpuRegs::Status => self.regs.status,
            PpuRegs::OamData => self.regs.oam_data,
            PpuRegs::PpuData => self.regs.data,
            _ => self.regs.databus,
        };
        self.regs.databus = v;
        v
    }

    /// A register read in normal operation: a status read clears the vblank
    /// bit and the address latch toggle; a data-port read answers from video
    /// memory and steps the video address.
    pub fn read_ready(&mut self, reg: PpuRegs) -> (r: u8)
        requires
            old(self).wf(),
        ensures
            final(self).wf(),
            r == read_ready_val(*old(self), reg),
            read_ready_rel(*old(self), *final(self), reg),
    {
        match reg {
            PpuRegs::Status => {
                let v = self.regs.read_status();
                self.regs.status = self.regs.status & !STATUS_VBLANK;
                self.regs.toggle = false;
                self.regs.databus = v;
                v
            },
            PpuRegs::OamData => {
                let v = self.spr_ram[self.regs.oam_addr as usize];
                self.regs.databus = v;
                v
            },
            PpuRegs::PpuData => {
                let va = self.regs.vaddr;
                let v = self.vram.read(va);
                self.regs.data = v;
                self.regs.databus = v;
                let inc: u16 = if self.regs.ctrl & crate::ppu::CTRL_VRAM_INCREMENT != 0 {
                    32
                } else {
                    1
                };
                self.regs.vaddr = (va + inc) % 0x4000;
                v
            },
            _ => {
                let v = self.regs.databus;
                self.regs.databus = v;
                v
            },
        }
    }

    /// Stores one byte of an OAM-DMA transfer at the OAM address, which then
    /// steps by one.
    pub fn dma_write_byte(&mut self, data: u8)
        requires
            old(self).spr_ram@.len() == 256,
        ensures
            dma_write_rel(*old(self), *final(self), data),
    {
        let pos: usize = self.regs.oam_addr as usize;
        self.spr_ram.set(pos, data);
        self.regs.oam_addr = (((self.regs.oam_addr as u16) + 1) % 256) as u8;
    }
}

} // verus!
