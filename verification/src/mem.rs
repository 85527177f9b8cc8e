//! The CPU-side memory controller: address decode, RAM mirroring, the
//! memory-mapped PPU registers, and the OAM-DMA trigger.
//!
//! The 64 KiB CPU address space resolves as follows.  Writes below 0x2000 go
//! to the 2 KiB physical RAM and are replicated into its four windows.
//! Accesses in 0x2000-0x3FFF dispatch to the PPU register selected by the
//! low three address bits.  A write to 0x4014 starts a 256-byte OAM-DMA
//! transfer and stalls the CPU.  Writes at or above 0x8000 land in the
//! cartridge area and are ignored.  Everything else is flat RAM.

use vstd::prelude::*;
use vstd::pervasive::VecAdditionalExecFns;
use crate::ppu::{Ppu, Registers, ppu_frame, ppu_read_rel, ppu_read_val, ppu_write_rel};
use crate::ppu_databus::{PpuRegs, spec_reg_of_offset};
use crate::ppu::ppu_state::PpuState;

verus! {

/// Physical RAM carried by the console (bytes).
pub const PHYSICAL_RAM_SIZE: usize = 0x0800;

/// The CPU's logical address space (bytes).
pub const LOGICAL_RAM_SPACE: usize = 0x10000;

/// The OAM-DMA trigger register.
pub const OAM_DMA_ADDR: u16 = 0x4014;

/// Cycles the CPU is stalled by an OAM-DMA transfer.
pub const DMA_STALL_CYCLES: u32 = 513;

/// The PPU register an address in the 0x2000-0x3FFF window selects.
pub open spec fn spec_ppu_reg(addr: u16) -> PpuRegs {
    spec_reg_of_offset((addr % 8) as u8)
}

/// RAM after a write below 0x2000: the byte lands at the physical cell and
/// in all four mirror windows.
pub open spec fn mirror_ram_write(ram: Seq<u8>, addr: u16, data: u8) -> Seq<u8> {
    let ph = (addr % 0x800) as int;
    ram.update(ph, data).update(ph + 0x800, data).update(ph + 0x1000, data).update(
        ph + 0x1800,
        data,
    )
}

/// RAM after a bus write at any address.
pub open spec fn bus_write_ram(ram: Seq<u8>, addr: u16, data: u8) -> Seq<u8> {
    if addr < 0x2000 {
        mirror_ram_write(ram, addr, data)
    } else if addr < 0x4000 {
        ram
    } else if addr == OAM_DMA_ADDR {
        ram
    } else if addr >= 0x8000 {
        ram
    } else {
        ram.update(addr as int, data)
    }
}

/// The index `j` steps past `start` within a 256-byte ring.
pub open spec fn oam_slot(start: u8, j: int) -> int {
    if start + j < 256 {
        start + j
    } else {
        start + j - 256
    }
}

/// An OAM-DMA transfer: the 256 bytes of the named RAM page land in sprite
/// memory, starting at the OAM address and wrapping; the OAM address comes
/// full circle; the DMA register remembers the page; nothing else changes.
pub open spec fn dma_rel(ram: Seq<u8>, pre: Ppu, post: Ppu, page: u8) -> bool {
    &&& ppu_frame(pre, post)
    &&& post.vram.vram@ == pre.vram.vram@
    &&& post.regs == (Registers { oam_dma: page, ..pre.regs })
    &&& post.spr_ram@.len() == pre.spr_ram@.len()
    &&& forall|j: int|
        0 <= j < 256 ==> post.spr_ram@[oam_slot(pre.regs.oam_addr, j)] == ram[page * 256 + j]
}

/// How the PPU changes on a bus write: register dispatch in its window, an
/// OAM-DMA transfer at the trigger address, nothing anywhere else.
pub open spec fn bus_write_ppu_rel(
    ram: Seq<u8>,
    p_pre: Ppu,
    p_post: Ppu,
    addr: u16,
    data: u8,
) -> bool {
    if 0x2000 <= addr < 0x4000 {
        ppu_write_rel(p_pre, p_post, spec_ppu_reg(addr), data)
    } else if addr == OAM_DMA_ADDR {
        dma_rel(ram, p_pre, p_post, data)
    } else {
        p_post == p_pre
    }
}

/// The value a bus read returns: the PPU register in its window, the RAM
/// byte anywhere else.
pub open spec fn bus_read_val(ram: Seq<u8>, p: Ppu, addr: u16) -> u8 {
    if 0x2000 <= addr < 0x4000 {
        ppu_read_val(p, spec_ppu_reg(addr))
    } else {
        ram[addr as int]
    }
}

/// How the PPU changes on a bus read: register dispatch in its window,
/// nothing anywhere else.
pub open spec fn bus_read_rel(p_pre: Ppu, p_post: Ppu, addr: u16) -> bool {
    if 0x2000 <= addr < 0x4000 {
        ppu_read_rel(p_pre, p_post, spec_ppu_reg(addr))
    } else {
        p_post == p_pre
    }
}

/// The CPU-side memory controller: the flat 64 KiB backing store.
pub struct MemCon {
    /// The backing store: physical RAM, its mirrors, the I/O window and the
    /// cartridge image.
    pub ram: Vec<u8>,
}

impl MemCon {
    /// Whether the backing store has its full size.
    pub open spec fn wf(self) -> bool {
        self.ram@.len() == 0x10000
    }

    /// A fresh, zero-filled memory.
    pub fn new() -> (r: MemCon)
        ensures
            r.wf(),
            forall|i: int| 0 <= i < 0x10000 ==> r.ram@[i] == 0u8,
    {
        let mut ram: Vec<u8> = Vec::new();
        let mut i: usize = 0;
        while i < 0x10000
            invariant
                i <= 0x10000,
                ram@.len() == i,
                forall|j: int| 0 <= j < i ==> ram@[j] == 0u8,
            decreases 0x10000 - i,
        {
            ram.push(0);
            i = i + 1;
        }
        MemCon { ram }
    }

    /// Writes bytes directly at consecutive addresses, without mirroring or
    /// register dispatch.  Used to load the cartridge image at start-up.
    pub fn raw_write(&mut self, addr: u16, data: &[u8])
        requires
            old(self).wf(),
            addr + data@.len() <= 0x10000,
        ensures
            final(self).wf(),
            final(self).ram@ == old(self).ram@.take(addr as int) + data@ + old(self).ram@.skip(
                addr + data@.len(),
            ),
    {
        let len: usize = data.len();
        let mut i: usize = 0;
        while i < len
            invariant
                i <= len,
                len == data@.len(),
                addr + len <= 0x10000,
                self.wf(),
                forall|j: int| 0 <= j < i ==> self.ram@[addr + j] == data@[j],
                forall|j: int|
                    0 <= j < 0x10000 && !(addr <= j < addr + i) ==> self.ram@[j] == old(
                        self,
                    ).ram@[j],
            decreases len - i,
        {
            self.ram.set(addr as usize + i, data[i]);
            i = i + 1;
        }
        assert(self.ram@ =~= old(self).ram@.take(addr as int) + data@ + old(self).ram@.skip(
            addr + data@.len(),
        ));
    }

    /// Writes one byte directly, without mirroring or register dispatch.
    pub fn raw_write_b(&mut self, addr: u16, data: u8)
        requires
            old(self).wf(),
        ensures
            final(self).wf(),
            final(self).ram@ == old(self).ram@.update(addr as int, data),
    {
        self.ram.set(addr as usize, data);
    }

    /// Fills an inclusive address range directly, without mirroring or
    /// register dispatch.
    pub fn raw_fill(&mut self, start: u16, end: u16, data: u8)
        requires
            old(self).wf(),
            start <= end,
        ensures
            final(self).wf(),
            forall|j: int| start <= j <= end ==> final(self).ram@[j] == data,
            forall|j: int|
                0 <= j < 0x10000 && !(start <= j <= end) ==> final(self).ram@[j] == old(
                    self,
                ).ram@[j],
    {
        let mut i: usize = start as usize;
        let stop: usize = end as usize;
        while i <= stop
            invariant
                start <= i <= stop + 1,
                stop == end,
                stop < 0x10000,
                self.wf(),
                forall|j: int| start <= j < i ==> self.ram@[j] == data,
                forall|j: int|
                    0 <= j < 0x10000 && !(start <= j < i) ==> self.ram@[j] == old(self).ram@[j],
            decreases stop + 1 - i,
        {
            self.ram.set(i, data);
            i = i + 1;
        }
    }


    /// Writes one byte below the register window: the physical RAM cell and
    /// its four windows take the byte.  Exactly the bus write for such an
    /// address, without needing the PPU.
    pub fn write_ram(&mut self, addr: u16, data: u8)
        requires
            old(self).wf(),
            addr < 0x2000,
        ensures
            final(self).wf(),
            final(self).ram@ == mirror_ram_write(old(self).ram@, addr, data),
            final(self).ram@ == bus_write_ram(old(self).ram@, addr, data),
    {
        let ph: usize = (addr % 0x800) as usize;
        self.ram.set(ph, data);
        self.ram.set(ph + 0x800, data);
        self.ram.set(ph + 0x1000, data);
        self.ram.set(ph + 0x1800, data);
    }

    /// Reads one byte outside the register window: exactly the bus read for
    /// such an address, without needing or touching the PPU.
    pub fn read_ram(&self, addr: u16) -> (r: u8)
        requires
            self.wf(),
            !(0x2000 <= addr < 0x4000),
        ensures
            r == self.ram@[addr as int],
    {
        self.ram[addr as usize]
    }

    /// A bus write: RAM with its mirrors below 0x2000, PPU register dispatch
    /// in the register window, an OAM-DMA transfer at the trigger address
    /// (returning the stall the CPU must take), a silently ignored write in
    /// the cartridge area, flat RAM elsewhere.
    pub fn write(&mut self, ppu: &mut Ppu, addr: u16, data: u8) -> (stall: u32)
        requires
            old(self).wf(),
            old(ppu).wf(),
        ensures
            final(self).wf(),
            final(ppu).wf(),
            final(self).ram@ == bus_write_ram(old(self).ram@, addr, data),
            bus_write_ppu_rel(old(self).ram@, *old(ppu), *final(ppu), addr, data),
            stall == (if addr == OAM_DMA_ADDR {
                DMA_STALL_CYCLES as u32
            } else {
                0u32
            }),
    {
        if addr < 0x2000 {
            let ph: usize = (addr % 0x800) as usize;
            self.ram.set(ph, data);
            self.ram.set(ph + 0x800, data);
            self.ram.set(ph + 0x1000, data);
            self.ram.set(ph + 0x1800, data);
            0
        } else if addr < 0x4000 {
            let reg = PpuRegs::from_offset((addr % 8) as u8);
            match ppu.state {
                PpuState::Idling => ppu.write_idling(reg, data),
                PpuState::Ready => ppu.write_ready(reg, data),
            }
            0
        } else if addr == OAM_DMA_ADDR {
            let base: usize = (data as usize) * 256;
            let ghost start_oam = ppu.regs.oam_addr;
            let mut j: usize = 0;
            while j < 256
                invariant
                    j <= 256,
                    self.wf(),
                    ppu.wf(),
                    base == data * 256,
                    ppu_frame(*old(ppu), *ppu),
                    ppu.vram.vram@ == old(ppu).vram.vram@,
                    ppu.regs == (Registers {
                        oam_addr: (if start_oam + j < 256 {
                            (start_oam + j) as u8
                        } else {
                            (start_oam + j - 256) as u8
                        }),
                        ..old(ppu).regs
                    }),
                    start_oam == old(ppu).regs.oam_addr,
                    forall|k: int|
                        0 <= k < j ==> ppu.spr_ram@[oam_slot(start_oam, k)] == self.ram@[base + k],
                decreases 256 - j,
            {
                let b = self.ram[base + j];
                ppu.dma_write_byte(b);
                j = j + 1;
            }
            ppu.regs.oam_dma = data;
            DMA_STALL_CYCLES
        } else if addr >= 0x8000 {
            0
        } else {
            self.ram.set(addr as usize, data);
            0
        }
    }

    /// A bus read: PPU register dispatch in the register window (with that
    /// register's side effects), the flat RAM byte anywhere else.
    pub fn read(&self, ppu: &mut Ppu, addr: u16) -> (r: u8)
        requires
            self.wf(),
            old(ppu).wf(),
        ensures
            final(ppu).wf(),
            r == bus_read_val(self.ram@, *old(ppu), addr),
            bus_read_rel(*old(ppu), *final(ppu), addr),
    {
        if 0x2000 <= addr && addr < 0x4000 {
            let reg = PpuRegs::from_offset((addr % 8) as u8);
            match ppu.state {
                PpuState::Idling => ppu.read_idling(reg),
                PpuState::Ready => ppu.read_ready(reg),
            }
        } else {
            self.ram[addr as usize]
        }
    }
}

} // verus!
