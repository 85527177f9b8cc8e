//! Cycle-accurate execution core for the 8-bit console built around a
//! MOS-6502-derived CPU and its companion picture processing unit.
//!
//! The crate models the CPU's clock-by-clock state machine, the instruction
//! table, the per-cycle addressing templates, the operation cores, the memory
//! bus with its mirrors and memory-mapped PPU registers, and the cartridge
//! header parser.  Every executable function carries a contract stating its
//! exact effect on the machine state.

pub mod util;
pub mod cpu;
pub mod rom;
pub mod ppu_databus;
pub mod ppu;
pub mod mem;
pub mod clock;
