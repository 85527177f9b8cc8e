//! The data bus between CPU and PPU: the eight CPU-visible registers and the
//! capability the PPU exposes to the memory bus.

use vstd::prelude::*;

verus! {

/// The CPU-visible PPU registers, by index within the 0x2000 window.
#[derive(Debug, PartialEq, Eq, Structural, Clone, Copy)]
pub enum PpuRegs {
    /// 0x2000: control (write).
    Ctrl,
    /// 0x2001: mask (write).
    Mask,
    /// 0x2002: status (read; clears the vblank bit and the address latch).
    Status,
    /// 0x2003: OAM address (write).
    OamAddr,
    /// 0x2004: OAM data (read/write).
    OamData,
    /// 0x2005: scroll (write; two writes latched).
    Scroll,
    /// 0x2006: PPU address (write; two writes latched).
    PpuAddr,
    /// 0x2007: PPU data (read/write; auto-increment).
    PpuData,
}

/// The register selected by a byte offset within an eight-byte window.
pub open spec fn spec_reg_of_offset(off: u8) -> PpuRegs {
    if off == 0 {
        PpuRegs::Ctrl
    } else if off == 1 {
        PpuRegs::Mask
    } else if off == 2 {
        PpuRegs::Status
    } else if off == 3 {
        PpuRegs::OamAddr
    } else if off == 4 {
        PpuRegs::OamData
    } else if off == 5 {
        PpuRegs::Scroll
    } else if off == 6 {
        PpuRegs::PpuAddr
    } else {
        PpuRegs::PpuData
    }
}

impl PpuRegs {
    /// Decodes a byte offset within an eight-byte register window.
    pub fn from_offset(off: u8) -> (r: PpuRegs)
        requires
            off < 8,
        ensures
            r == spec_reg_of_offset(off),
    {
        if off == 0 {
            PpuRegs::Ctrl
        } else if off == 1 {
            PpuRegs::Mask
        } else if off == 2 {
            PpuRegs::Status
        } else if off == 3 {
            PpuRegs::OamAddr
        } else if off == 4 {
            PpuRegs::OamData
        } else if off == 5 {
            PpuRegs::Scroll
        } else if off == 6 {
            PpuRegs::PpuAddr
        } else {
            PpuRegs::PpuData
        }
    }
}

/// The register-dispatch capability the PPU exposes to the memory bus.
/// The bus never reads the PPU's internal state directly.
pub trait PpuDataBus {
    /// Writes one byte to a CPU-visible register.
    fn write(&mut self, reg: PpuRegs, data: u8);

    /// Reads one byte from a CPU-visible register, with side effects.
    fn read(&mut self, reg: PpuRegs) -> u8;

    /// Hands one byte of an OAM-DMA transfer to the PPU.
    fn dma_write(&mut self, data: u8);
}

} // verus!
