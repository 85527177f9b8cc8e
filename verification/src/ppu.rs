//! The picture processing unit's CPU-facing side: its register file, the
//! two-write address latch, OAM, and the video memory behind the data port.
//!
//! Pixel generation is out of scope; the unit here models the register
//! semantics and the timing envelope (a warm-up period after power-on during
//! which most registers ignore writes).

pub mod ppu_state;
pub mod vram;

use vstd::prelude::*;
use vstd::slice::slice_subrange;
use crate::rom;
use crate::rom::NesRom;
use crate::ppu_databus::{PpuDataBus, PpuRegs};
use crate::ppu::ppu_state::PpuState;
use crate::ppu::vram::spec_mirror;

verus! {

/// Sprite memory size in bytes.
pub const SPR_RAM_SIZE: usize = 256;

/// Master clocks after power-on before the registers answer normally.
pub const WARM_UP_TIME: u64 = 29658 * 3;

/// Control register bit: generate a non-maskable interrupt at the start of
/// each vertical blank.
pub const CTRL_NMI_ON_VBLANK: u8 = 0x80;

/// Control register bit: the data port steps the video address by 32 rather
/// than by 1.
pub const CTRL_VRAM_INCREMENT: u8 = 0x04;

/// Status register bit: a vertical blank has begun.
pub const STATUS_VBLANK: u8 = 0x80;

/// The CPU-visible register file, together with the latches that the two
/// paired-write registers and the data port need.
#[derive(Debug, PartialEq, Eq, Structural, Clone, Copy)]
pub struct Registers {
    /// 0x2000, write-only: control flags.
    pub ctrl: u8,
    /// 0x2001, write-only: mask flags.
    pub mask: u8,
    /// 0x2002, read-only: status flags.
    pub status: u8,
    /// 0x2003, write-only: the OAM address the data register works at.
    pub oam_addr: u8,
    /// 0x2004, read/write: the byte last written through the OAM data port.
    pub oam_data: u8,
    /// 0x2005, write-only: the byte last written to the scroll register.
    pub scroll: u8,
    /// 0x2006, write-only: the byte last written to the address register.
    pub addr: u8,
    /// 0x2007, read/write: the byte last moved through the data port.
    pub data: u8,
    /// 0x4014, write-only: the page last named for an OAM-DMA transfer.
    pub oam_dma: u8,
    /// The bus latch: every register access leaves its byte here, and reads
    /// of write-only registers return it.
    pub databus: u8,
    /// The shared first/second-write toggle of the scroll and address
    /// registers; cleared by a status read.
    pub toggle: bool,
    /// The high byte captured by the first address write.
    pub addr_latch_hi: u8,
    /// The current video memory address the data port works at.
    pub vaddr: u16,
}

impl Registers {
    /// The value a status read returns.
    pub fn read_status(&self) -> (r: u8)
        ensures
            r == self.status,
    {
        self.status
    }
}

/// The picture processing unit.
pub struct Ppu {
    /// Warming up or answering normally.
    pub state: PpuState,
    /// The CPU-visible registers and their latches.
    pub regs: Registers,
    /// Sprite memory (object attribute memory), 256 bytes.
    pub spr_ram: Vec<u8>,
    /// The video memory behind the data port.
    pub vram: vram::MemCon,
    /// Master clocks since power-on.
    pub clock_counter: u64,
    /// Whether a reset is waiting to be applied.
    pub reset_requested: bool,
}

/// The step the data port takes after each access.
pub open spec fn vram_inc(ctrl: u8) -> u16 {
    if ctrl & CTRL_VRAM_INCREMENT != 0 {
        32
    } else {
        1
    }
}

/// The parts of the PPU that no register access changes.
pub open spec fn ppu_frame(pre: Ppu, post: Ppu) -> bool {
    &&& post.state == pre.state
    &&& post.clock_counter == pre.clock_counter
    &&& post.reset_requested == pre.reset_requested
    &&& post.vram.mirroring_type == pre.vram.mirroring_type
}

/// Both memories unchanged.
pub open spec fn ppu_mem_same(pre: Ppu, post: Ppu) -> bool {
    &&& post.spr_ram@ == pre.spr_ram@
    &&& post.vram.vram@ == pre.vram.vram@
}

/// The value a register read returns while the unit is warming up: the
/// readable registers answer from their stored bytes, all others answer from
/// the bus latch.
pub open spec fn read_idling_val(p: Ppu, reg: PpuRegs) -> u8 {
    match reg {
        PpuRegs::Status => p.regs.status,
        PpuRegs::OamData => p.regs.oam_data,
        PpuRegs::PpuData => p.regs.data,
        _ => p.regs.databus,
    }
}

/// A register read during warm-up: only the bus latch changes.
pub open spec fn read_idling_rel(pre: Ppu, post: Ppu, reg: PpuRegs) -> bool {
    &&& ppu_frame(pre, post)
    &&& ppu_mem_same(pre, post)
    &&& post.regs == (Registers { databus: read_idling_val(pre, reg), ..pre.regs })
}

/// The value a register read returns once the unit is ready: status from the
/// status byte, OAM data from sprite memory at the OAM address, the data
/// port from video memory at the current address, all others from the bus
/// latch.
pub open spec fn read_ready_val(p: Ppu, reg: PpuRegs) -> u8 {
    match reg {
        PpuRegs::Status => p.regs.status,
        PpuRegs::OamData => p.spr_ram@[p.regs.oam_addr as int],
        PpuRegs::PpuData => p.vram.vram@[spec_mirror(p.regs.vaddr as int, p.vram.mirroring_type)],
        _ => p.regs.databus,
    }
}

/// A register read once the unit is ready.  A status read clears the vblank
/// bit and the address latch toggle; a data-port read steps the video
/// address; every read updates the bus latch; nothing else changes.
pub open spec fn read_ready_rel(pre: Ppu, post: Ppu, reg: PpuRegs) -> bool {
    &&& ppu_frame(pre, post)
    &&& ppu_mem_same(pre, post)
    &&& {
        let v = read_ready_val(pre, reg);
        match reg {
            PpuRegs::Status => post.regs == (Registers {
                status: pre.regs.status & !STATUS_VBLANK,
                toggle: false,
                databus: v,
                ..pre.regs
            }),
            PpuRegs::PpuData => post.regs == (Registers {
                data: v,
                databus: v,
                vaddr: ((pre.regs.vaddr + vram_inc(pre.regs.ctrl)) % 0x4000) as u16,
                ..pre.regs
            }),
            _ => post.regs == (Registers { databus: v, ..pre.regs }),
        }
    }
}

/// A register write during warm-up: control, mask, scroll, address and data
/// writes are ignored; the OAM registers accept their bytes; the bus latch
/// always takes the byte.
pub open spec fn write_idling_rel(pre: Ppu, post: Ppu, reg: PpuRegs, data: u8) -> bool {
    &&& ppu_frame(pre, post)
    &&& ppu_mem_same(pre, post)
    &&& match reg {
        PpuRegs::OamAddr => post.regs == (Registers { oam_addr: data, databus: data, ..pre.regs }),
        PpuRegs::OamData => post.regs == (Registers { oam_data: data, databus: data, ..pre.regs }),
        _ => post.regs == (Registers { databus: data, ..pre.regs }),
    }
}

/// A register write once the unit is ready.  An OAM-data write stores into
/// sprite memory at the OAM address and steps that address; a scroll write
/// flips the shared toggle; the first address write captures the high byte
/// and sets the toggle, the second assembles the 14-bit video address and
/// clears it; a data-port write stores into video memory at the current
/// address and steps it; the bus latch always takes the byte.
pub open spec fn write_ready_rel(pre: Ppu, post: Ppu, reg: PpuRegs, data: u8) -> bool {
    &&& ppu_frame(pre, post)
    &&& match reg {
        PpuRegs::Ctrl => post.regs == (Registers { ctrl: data, databus: data, ..pre.regs })
            && ppu_mem_same(pre, post),
        PpuRegs::Mask => post.regs == (Registers { mask: data, databus: data, ..pre.regs })
            && ppu_mem_same(pre, post),
        PpuRegs::Status => post.regs == (Registers { databus: data, ..pre.regs }) && ppu_mem_same(
            pre,
            post,
        ),
        PpuRegs::OamAddr => post.regs == (Registers { oam_addr: data, databus: data, ..pre.regs })
            && ppu_mem_same(pre, post),
        PpuRegs::OamData => post.regs == (Registers {
            oam_data: data,
            oam_addr: ((pre.regs.oam_addr + 1) % 256) as u8,
            databus: data,
            ..pre.regs
        }) && post.spr_ram@ == pre.spr_ram@.update(pre.regs.oam_addr as int, data)
            && post.vram.vram@ == pre.vram.vram@,
        PpuRegs::Scroll => post.regs == (Registers {
            scroll: data,
            toggle: !pre.regs.toggle,
            databus: data,
            ..pre.regs
        }) && ppu_mem_same(pre, post),
        PpuRegs::PpuAddr => ppu_mem_same(pre, post) && if !pre.regs.toggle {
            post.regs == (Registers {
                addr: data,
                addr_latch_hi: data,
                toggle: true,
                databus: data,
                ..pre.regs
            })
        } else {
            post.regs == (Registers {
                addr: data,
                vaddr: ((pre.regs.addr_latch_hi % 0x40) * 256 + data) as u16,
                toggle: false,
                databus: data,
                ..pre.regs
            })
        },
        PpuRegs::PpuData => post.regs == (Registers {
            data: data,
            databus: data,
            vaddr: ((pre.regs.vaddr + vram_inc(pre.regs.ctrl)) % 0x4000) as u16,
            ..pre.regs
        }) && post.vram.vram@ == pre.vram.vram@.update(
            spec_mirror(pre.regs.vaddr as int, pre.vram.mirroring_type),
            data,
        ) && post.spr_ram@ == pre.spr_ram@,
    }
}

/// A register write, routed by the unit's state.
pub open spec fn ppu_write_rel(pre: Ppu, post: Ppu, reg: PpuRegs, data: u8) -> bool {
    match pre.state {
        PpuState::Idling => write_idling_rel(pre, post, reg, data),
        PpuState::Ready => write_ready_rel(pre, post, reg, data),
    }
}

/// The value a register read returns, routed by the unit's state.
pub open spec fn ppu_read_val(p: Ppu, reg: PpuRegs) -> u8 {
    match p.state {
        PpuState::Idling => read_idling_val(p, reg),
        PpuState::Ready => read_ready_val(p, reg),
    }
}

/// A register read, routed by the unit's state.
pub open spec fn ppu_read_rel(pre: Ppu, post: Ppu, reg: PpuRegs) -> bool {
    match pre.state {
        PpuState::Idling => read_idling_rel(pre, post, reg),
        PpuState::Ready => read_ready_rel(pre, post, reg),
    }
}

/// One byte of an OAM-DMA transfer: stored at the OAM address, which then
/// steps by one.
pub open spec fn dma_write_rel(pre: Ppu, post: Ppu, data: u8) -> bool {
    &&& ppu_frame(pre, post)
    &&& post.regs == (Registers {
        oam_addr: ((pre.regs.oam_addr + 1) % 256) as u8,
        ..pre.regs
    })
    &&& post.spr_ram@ == pre.spr_ram@.update(pre.regs.oam_addr as int, data)
    &&& post.vram.vram@ == pre.vram.vram@
}

impl Ppu {
    /// Whether the memories have their full sizes and the video address is
    /// in range.
    pub open spec fn wf(self) -> bool {
        &&& self.spr_ram@.len() == 256
        &&& self.vram.wf()
        &&& self.regs.vaddr < 0x4000
    }

    /// A fresh unit with the cartridge's pattern data loaded into the start
    /// of video memory.
    pub fn new(rom: &NesRom) -> (r: Ppu)
        ensures
            r.wf(),
            r.state == PpuState::Idling,
            r.vram.mirroring_type == rom.mirroring_type,
            r.clock_counter == 0,
            !r.reset_requested,
            r.regs == spec_zero_regs(),
            forall|i: int| 0 <= i < 256 ==> r.spr_ram@[i] == 0u8,
            rom.chr_rom@.len() >= 0x2000 ==> r.vram.vram@ =~= rom.chr_rom@.take(0x2000)
                + Seq::new(0x2000, |i: int| 0u8),
            rom.chr_rom@.len() < 0x2000 ==> forall|i: int| 0 <= i < 0x4000 ==> r.vram.vram@[i] == 0u8,
    {
        let mut spr_ram: Vec<u8> = Vec::new();
        let mut i: usize = 0;
        while i < 256
            invariant
                i <= 256,
                spr_ram@.len() == i,
                forall|j: int| 0 <= j < i ==> spr_ram@[j] == 0u8,
            decreases 256 - i,
        {
            spr_ram.push(0);
            i = i + 1;
        }
        let mut my = Ppu {
            state: PpuState::Idling,
            regs: zero_regs(),
            spr_ram,
            vram: vram::MemCon::new(rom.mirroring_type()),
            clock_counter: 0,
            reset_requested: false,
        };
        let chr_rom = rom.chr_rom();
        if chr_rom.len() >= rom::CHR_ROM_UNIT_SIZE {
            my.vram.raw_write(0, slice_subrange(chr_rom.as_slice(), 0, rom::CHR_ROM_UNIT_SIZE));
            proof {
                assert(my.vram.vram@ =~= rom.chr_rom@.take(0x2000) + Seq::new(0x2000, |i: int| 0u8));
            }
        }
        my
    }

    /// Puts the registers in their power-on state and requests the reset
    /// that completes during the first vertical blank.
    pub fn power_on(&mut self)
        requires
            old(self).wf(),
        ensures
            final(self).wf(),
            final(self).regs == spec_zero_regs(),
            final(self).reset_requested,
            final(self).state == old(self).state,
            final(self).clock_counter == old(self).clock_counter,
            ppu_mem_same(*old(self), *final(self)),
            final(self).vram.mirroring_type == old(self).vram.mirroring_type,
    {
        self.regs = zero_regs();
        self.reset_requested = true;
    }

    /// Clears the registers that the internal reset signal clears and
    /// requests the reset that completes during the first vertical blank.
    pub fn reset(&mut self)
        requires
            old(self).wf(),
        ensures
            final(self).wf(),
            final(self).regs == (Registers {
                ctrl: 0,
                mask: 0,
                status: 0,
                databus: 0,
                scroll: 0,
                data: 0,
                toggle: false,
                ..old(self).regs
            }),
            final(self).reset_requested,
            final(self).state == old(self).state,
            final(self).clock_counter == old(self).clock_counter,
            ppu_mem_same(*old(self), *final(self)),
            final(self).vram.mirroring_type == old(self).vram.mirroring_type,
    {
        self.regs.ctrl = 0;
        self.regs.mask = 0;
        self.regs.status = 0;
        self.regs.databus = 0;
        self.regs.scroll = 0;
        self.regs.data = 0;
        self.regs.toggle = false;
        self.reset_requested = true;
    }

    /// Advances the unit by one of its clocks.  Returns whether a
    /// non-maskable interrupt fires on this clock; pixel generation is out
    /// of scope, so no clock fires one here.
    pub fn step(&mut self) -> (nmi: bool)
        requires
            old(self).wf(),
            old(self).clock_counter < u64::MAX,
        ensures
            final(self).wf(),
            !nmi,
            final(self).clock_counter == old(self).clock_counter + 1,
            final(self).regs == old(self).regs,
            ppu_mem_same(*old(self), *final(self)),
            final(self).vram.mirroring_type == old(self).vram.mirroring_type,
            final(self).reset_requested == old(self).reset_requested,
            final(self).state == (if old(self).state is Idling && old(self).clock_counter + 1
                > WARM_UP_TIME {
                PpuState::Ready
            } else {
                old(self).state
            }),
    {
        self.clock_counter = self.clock_counter + 1;
        match self.state {
            PpuState::Idling => self.step_idling(),
            PpuState::Ready => self.step_ready(),
        }
        false
    }
}

/// The register file with every byte and latch cleared.
pub open spec fn spec_zero_regs() -> Registers {
    Registers {
        ctrl: 0,
        mask: 0,
        status: 0,
        oam_addr: 0,
        oam_data: 0,
        scroll: 0,
        addr: 0,
        data: 0,
        oam_dma: 0,
        databus: 0,
        toggle: false,
        addr_latch_hi: 0,
        vaddr: 0,
    }
}

/// Builds the cleared register file.
pub fn zero_regs() -> (r: Registers)
    ensures
        r == spec_zero_regs(),
{
    Registers {
        ctrl: 0,
        mask: 0,
        status: 0,
        oam_addr: 0,
        oam_data: 0,
        scroll: 0,
        addr: 0,
        data: 0,
        oam_dma: 0,
        databus: 0,
        toggle: false,
        addr_latch_hi: 0,
        vaddr: 0,
    }
}

impl PpuDataBus for Ppu {
    /// Routes a register write by the unit's state.
    fn write(&mut self, reg: PpuRegs, data: u8)
        ensures
            old(self).wf() ==> final(self).wf() && ppu_write_rel(
                *old(self),
                *final(self),
                reg,
                data,
            ),
    {
        match self.state {
            PpuState::Idling => self.write_idling(reg, data),
            PpuState::Ready => {
                if self.spr_ram.len() == 256 && self.vram.vram.len() == 0x4000 && self.regs.vaddr
                    < 0x4000 {
                    self.write_ready(reg, data);
                }
            },
        }
    }

    /// Routes a register read by the unit's state.
    fn read(&mut self, reg: PpuRegs) -> (r: u8)
        ensures
            old(self).wf() ==> final(self).wf() && r == ppu_read_val(*old(self), reg)
                && ppu_read_rel(*old(self), *final(self), reg),
    {
        match self.state {
            PpuState::Idling => self.read_idling(reg),
            PpuState::Ready => {
                if self.spr_ram.len() == 256 && self.vram.vram.len() == 0x4000 && self.regs.vaddr
                    < 0x4000 {
                    self.read_ready(reg)
                } else {
                    self.regs.databus
                }
            },
        }
    }

    /// Hands one byte of an OAM-DMA transfer to the unit.
    fn dma_write(&mut self, data: u8)
        ensures
            old(self).spr_ram@.len() == 256 ==> dma_write_rel(*old(self), *final(self), data),
    {
        if self.spr_ram.len() == 256 {
            self.dma_write_byte(data);
        }
    }
}

/// Writing the address register twice (high byte then low byte) and then
/// reading the data port returns the video memory byte at the address the
/// two writes assembled, and leaves the unit positioned one step past it.
pub proof fn lemma_address_latch_round_trip(
    p0: Ppu,
    p1: Ppu,
    p2: Ppu,
    p3: Ppu,
    high: u8,
    low: u8,
)
    requires
        p0.state == PpuState::Ready,
        !p0.regs.toggle,
        high < 0x40,
        ppu_write_rel(p0, p1, PpuRegs::PpuAddr, high),
        ppu_write_rel(p1, p2, PpuRegs::PpuAddr, low),
        ppu_read_rel(p2, p3, PpuRegs::PpuData),
    ensures
        ppu_read_val(p2, PpuRegs::PpuData) == p0.vram.vram@[spec_mirror(
            high * 256 + low,
            p0.vram.mirroring_type,
        )],
        p3.regs.vaddr == (high * 256 + low + vram_inc(p0.regs.ctrl)) % 0x4000,
        !p3.regs.toggle,
{
}

/// Reading the status register returns the status byte and clears both the
/// vblank bit and the address latch toggle, and nothing else.
pub proof fn lemma_status_read_clears(pre: Ppu, post: Ppu)
    requires
        pre.state == PpuState::Ready,
        ppu_read_rel(pre, post, PpuRegs::Status),
    ensures
        ppu_read_val(pre, PpuRegs::Status) == pre.regs.status,
        post.regs.status == pre.regs.status & !STATUS_VBLANK,
        !flag_set_u8(post.regs.status, STATUS_VBLANK),
        !post.regs.toggle,
        post.regs.vaddr == pre.regs.vaddr,
        ppu_mem_same(pre, post),
{
    let s = pre.regs.status;
    assert(s & !0x80u8 & 0x80u8 == 0) by (bit_vector);
}

/// Whether any of the bits in `mask` is set in `v`.
pub open spec fn flag_set_u8(v: u8, mask: u8) -> bool {
    v & mask != 0
}

} // verus!
