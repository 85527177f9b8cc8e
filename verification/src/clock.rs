//! The clock driver: the single-stepping entry point that ratios the CPU and
//! PPU clocks 1:3 and routes interrupt pin edges into the CPU.

use vstd::prelude::*;
use crate::cpu::{Cpu, CpuError, cpu_step_rel};
use crate::ppu::{Ppu, WARM_UP_TIME, ppu_mem_same};
use crate::ppu::ppu_state::PpuState;

verus! {

/// How one PPU clock changes the unit: only its clock counter moves, plus
/// the switch out of warm-up once enough clocks have passed.
pub open spec fn ppu_step_rel(pre: Ppu, post: Ppu) -> bool {
    &&& post.clock_counter == pre.clock_counter + 1
    &&& post.regs == pre.regs
    &&& ppu_mem_same(pre, post)
    &&& post.vram.mirroring_type == pre.vram.mirroring_type
    &&& post.reset_requested == pre.reset_requested
    &&& post.state == (if pre.state is Idling && pre.clock_counter + 1 > WARM_UP_TIME {
        PpuState::Ready
    } else {
        pre.state
    })
}

/// The clock driver: it owns the two units and hands the PPU to the CPU for
/// every bus access.
pub struct Clock {
    /// The processor.
    pub cpu: Cpu,
    /// The picture processing unit.
    pub ppu: Ppu,
    /// Master clocks driven so far.
    pub master_counter: u64,
}

impl Clock {
    /// Both units in their machine invariants.
    pub open spec fn wf(self) -> bool {
        &&& self.cpu.wf()
        &&& self.ppu.wf()
    }

    /// Couples a CPU and a PPU under one driver.
    pub fn new(cpu: Cpu, ppu: Ppu) -> (r: Clock)
        ensures
            r.cpu == cpu,
            r.ppu == ppu,
            r.master_counter == 0,
    {
        Clock { cpu, ppu, master_counter: 0 }
    }

    /// Advances one master clock: the CPU runs one sub-cycle on every third
    /// call, and the PPU on every call.  A PPU that signals the start of a
    /// vertical blank would raise the CPU's NMI pin here; pixel generation
    /// is out of scope, so no call signals one.
    pub fn tick(&mut self) -> (r: Result<(), CpuError>)
        requires
            old(self).wf(),
            old(self).master_counter < u64::MAX,
            old(self).cpu.clock_counter < u64::MAX,
            old(self).ppu.clock_counter < u64::MAX,
        ensures
            final(self).wf(),
            final(self).master_counter == old(self).master_counter + 1,
            exists|p_mid: Ppu|
                {
                    &&& if old(self).master_counter % 3 == 0 {
                        cpu_step_rel(old(self).cpu, final(self).cpu, old(self).ppu, p_mid, r)
                    } else {
                        final(self).cpu == old(self).cpu && p_mid == old(self).ppu && r is Ok
                    }
                    &&& #[trigger] ppu_step_rel(p_mid, final(self).ppu)
                },
    {
        let r = if self.master_counter % 3 == 0 {
            self.cpu.step(&mut self.ppu)
        } else {
            Ok(())
        };
        let ghost p_mid = self.ppu;
        let nmi = self.ppu.step();
        if nmi {
            self.cpu.trigger_nmi();
        }
        self.master_counter = self.master_counter + 1;
        proof {
            assert(ppu_step_rel(p_mid, self.ppu));
        }
        r
    }

    /// Raises the CPU's NMI pin, as the PPU does at the start of a vertical
    /// blank.
    pub fn trigger_nmi(&mut self)
        ensures
            final(self).cpu == (Cpu { nmi_occurred: true, ..old(self).cpu }),
            final(self).ppu == old(self).ppu,
            final(self).master_counter == old(self).master_counter,
    {
        self.cpu.trigger_nmi();
    }

    /// Raises the CPU's IRQ pin, as a cartridge device does.
    pub fn trigger_irq(&mut self)
        ensures
            final(self).cpu == (Cpu { irq_occurred: true, ..old(self).cpu }),
            final(self).ppu == old(self).ppu,
            final(self).master_counter == old(self).master_counter,
    {
        self.cpu.trigger_irq();
    }

    /// Releases the CPU's IRQ pin, as the device that raised it must.
    pub fn clear_irq(&mut self)
        ensures
            final(self).cpu == (Cpu { irq_occurred: false, ..old(self).cpu }),
            final(self).ppu == old(self).ppu,
            final(self).master_counter == old(self).master_counter,
    {
        self.cpu.stop_irq();
    }

    /// Raises the CPU's reset line.
    pub fn trigger_reset(&mut self)
        ensures
            final(self).cpu == (Cpu { reset_occurred: true, ..old(self).cpu }),
            final(self).ppu == old(self).ppu,
            final(self).master_counter == old(self).master_counter,
    {
        self.cpu.trigger_reset();
    }
}

} // verus!
