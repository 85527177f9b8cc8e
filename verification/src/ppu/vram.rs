//! The PPU's video memory controller.
//!
//! The 16 KiB PPU address space folds onto physical storage: pattern tables
//! at 0x0000-0x1FFF, nametables at 0x2000-0x2FFF collapsed per the
//! cartridge's mirroring mode, 0x3000-0x3EFF aliasing 0x2000-0x2EFF, and the
//! palette at 0x3F00-0x3F1F with its own aliases, repeated up to 0x3FFF.
//! Every access resolves the logical address to one canonical slot.

use vstd::prelude::*;
use vstd::pervasive::VecAdditionalExecFns;
use crate::rom::MirroringType;

verus! {

/// Physical nametable RAM carried by the console (bytes).
pub const REAL_VRAM_SIZE: usize = 0x800;

/// The PPU's logical address space (bytes).
pub const VRAM_SPACE: usize = 0x4000;

/// Folds a nametable position (an offset below 0x1000) onto its canonical
/// table per the mirroring mode.
pub open spec fn spec_nt_fold(pos: int, mt: MirroringType) -> int {
    match mt {
        MirroringType::Vertical => pos % 0x800,
        MirroringType::Horizontal => (pos % 0x400) + (if pos >= 0x800 {
            0x400int
        } else {
            0int
        }),
        MirroringType::FourScreen => pos,
    }
}

/// The canonical slot of a logical PPU address.
pub open spec fn spec_mirror(addr: int, mt: MirroringType) -> int {
    if addr < 0x2000 {
        addr
    } else if addr < 0x3F00 {
        0x2000 + spec_nt_fold((addr - 0x2000) % 0x1000, mt)
    } else {
        let pal = (addr - 0x3F00) % 0x20;
        if pal == 0x10 || pal == 0x14 || pal == 0x18 || pal == 0x1C {
            0x3F00 + pal - 0x10
        } else {
            0x3F00 + pal
        }
    }
}

/// The canonical slot of a valid address is itself a valid address.
pub proof fn lemma_mirror_in_bounds(addr: int, mt: MirroringType)
    requires
        0 <= addr < 0x4000,
    ensures
        0 <= spec_mirror(addr, mt) < 0x4000,
{
}

/// The video memory controller: 16 KiB of storage addressed through the
/// mirroring map.
pub struct MemCon {
    /// The backing storage, one byte per canonical slot.
    pub vram: Vec<u8>,
    /// The cartridge's nametable mirroring mode.
    pub mirroring_type: MirroringType,
}

impl MemCon {
    /// Whether the storage has its full size.
    pub open spec fn wf(self) -> bool {
        self.vram@.len() == 0x4000
    }

    /// A fresh, zero-filled video memory with the given mirroring mode.
    pub fn new(mirroring_type: MirroringType) -> (r: MemCon)
        ensures
            r.wf(),
            r.mirroring_type == mirroring_type,
            forall|i: int| 0 <= i < 0x4000 ==> r.vram@[i] == 0u8,
    {
        let mut vram: Vec<u8> = Vec::new();
        let mut i: usize = 0;
        while i < 0x4000
            invariant
                i <= 0x4000,
                vram@.len() == i,
                forall|j: int| 0 <= j < i ==> vram@[j] == 0u8,
            decreases 0x4000 - i,
        {
            vram.push(0);
            i = i + 1;
        }
        MemCon { vram, mirroring_type }
    }

    /// Resolves a logical address to its canonical slot.
    pub fn mirror(&self, addr: u16) -> (r: u16)
        requires
            addr < 0x4000,
        ensures
            r == spec_mirror(addr as int, self.mirroring_type),
            r < 0x4000,
    {
        if addr < 0x2000 {
            addr
        } else if addr < 0x3F00 {
            let pos: u16 = (addr - 0x2000) % 0x1000;
            let folded: u16 = match self.mirroring_type {
                MirroringType::Vertical => pos % 0x800,
                MirroringType::Horizontal => (pos % 0x400) + (if pos >= 0x800 {
                    0x400
                } else {
                    0
                }),
                MirroringType::FourScreen => pos,
            };
            0x2000 + folded
        } else {
            let pal: u16 = (addr - 0x3F00) % 0x20;
            if pal == 0x10 || pal == 0x14 || pal == 0x18 || pal == 0x1C {
                0x3F00 + pal - 0x10
            } else {
                0x3F00 + pal
            }
        }
    }

    /// Writes bytes directly at consecutive slots, without the mirroring
    /// map.  Used to load pattern data at start-up.
    pub fn raw_write(&mut self, addr: u16, data: &[u8])
        requires
            old(self).wf(),
            addr + data@.len() <= 0x4000,
        ensures
            final(self).wf(),
            final(self).mirroring_type == old(self).mirroring_type,
            final(self).vram@ == old(self).vram@.take(addr as int) + data@ + old(self).vram@.skip(
                addr + data@.len(),
            ),
    {
        let len: usize = data.len();
        let mut i: usize = 0;
        while i < len
            invariant
                i <= len,
                len == data@.len(),
                addr + len <= 0x4000,
                self.wf(),
                self.mirroring_type == old(self).mirroring_type,
                forall|j: int| 0 <= j < i ==> self.vram@[addr + j] == data@[j],
                forall|j: int|
                    0 <= j < 0x4000 && !(addr <= j < addr + i) ==> self.vram@[j] == old(
                        self,
                    ).vram@[j],
            decreases len - i,
        {
            self.vram.set(addr as usize + i, data[i]);
            i = i + 1;
        }
        assert(self.vram@ =~= old(self).vram@.take(addr as int) + data@ + old(self).vram@.skip(
            addr + data@.len(),
        ));
    }

    /// Writes one byte at the canonical slot of a logical address.
    pub fn write(&mut self, addr: u16, data: u8)
        requires
            old(self).wf(),
            addr < 0x4000,
        ensures
            final(self).wf(),
            final(self).mirroring_type == old(self).mirroring_type,
            final(self).vram@ == old(self).vram@.update(
                spec_mirror(addr as int, old(self).mirroring_type),
                data,
            ),
    {
        let slot = self.mirror(addr);
        self.vram.set(slot as usize, data);
    }

    /// Reads the byte at the canonical slot of a logical address.
    pub fn read(&self, addr: u16) -> (r: u8)
        requires
            self.wf(),
            addr < 0x4000,
        ensures
            r == self.vram@[spec_mirror(addr as int, self.mirroring_type)],
    {
        let slot = self.mirror(addr);
        self.vram[slot as usize]
    }
}

} // verus!
