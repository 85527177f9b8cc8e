//! Tests of the PPU register facade, the video memory mirroring, the CPU-side
//! bus decode and the OAM-DMA transfer.

use fami_rust::mem::MemCon;
use fami_rust::ppu::{Ppu, Registers as PpuRegisters, zero_regs};
use fami_rust::ppu::ppu_state::PpuState;
use fami_rust::ppu::vram;
use fami_rust::ppu_databus::PpuRegs;
use fami_rust::rom::MirroringType;

fn ready_ppu() -> Ppu {
    let mut ppu = bare_ppu();
    ppu.state = PpuState::Ready;
    ppu
}

fn bare_ppu() -> Ppu {
    Ppu {
        state: PpuState::Idling,
        regs: zero_regs(),
        spr_ram: vec![0u8; 256],
        vram: vram::MemCon::new(MirroringType::Horizontal),
        clock_counter: 0,
        reset_requested: false,
    }
}

#[test]
fn address_latch_two_writes_then_data_access() {
    // Two writes to 0x2006 (high then low), then an access at 0x2007,
    // reach the video memory cell (high << 8) | low.
    let mut ppu = ready_ppu();
    let mem = MemCon::new();
    let mut bus = mem;
    bus.write(&mut ppu, 0x2006, 0x21);
    assert!(ppu.regs.toggle);
    bus.write(&mut ppu, 0x2006, 0x08);
    assert!(!ppu.regs.toggle);
    assert_eq!(ppu.regs.vaddr, 0x2108);
    bus.write(&mut ppu, 0x2007, 0xAB);
    assert_eq!(ppu.vram.read(0x2108), 0xAB);
    assert_eq!(ppu.regs.vaddr, 0x2109, "the data port steps the address");
    // point the latch back and read the byte through the data port
    bus.write(&mut ppu, 0x2006, 0x21);
    bus.write(&mut ppu, 0x2006, 0x08);
    let v = bus.read(&mut ppu, 0x2007);
    assert_eq!(v, 0xAB);
}

#[test]
fn status_read_clears_vblank_and_latch_toggle() {
    let mut ppu = ready_ppu();
    ppu.regs.status = 0xE0;
    ppu.regs.toggle = true;
    let mem = MemCon::new();
    let mut bus = mem;
    let v = bus.read(&mut ppu, 0x2002);
    assert_eq!(v, 0xE0, "the read returns the pre-clear status");
    assert_eq!(ppu.regs.status & 0x80, 0, "vblank cleared");
    assert_ne!(ppu.regs.status & 0x60, 0, "the other status bits stay");
    assert!(!ppu.regs.toggle, "address latch toggle cleared");
}

#[test]
fn register_window_mirrors_every_eight_bytes() {
    // 0x3456 % 8 = 6: a write there lands in the address register.
    let mut ppu = ready_ppu();
    let mut bus = MemCon::new();
    bus.write(&mut ppu, 0x3456, 0x12);
    assert_eq!(ppu.regs.addr, 0x12);
    assert!(ppu.regs.toggle);
}

#[test]
fn ram_writes_land_in_all_four_windows() {
    let mut ppu = ready_ppu();
    let mut bus = MemCon::new();
    bus.write(&mut ppu, 0x0042, 0x99);
    assert_eq!(bus.ram[0x0042], 0x99);
    assert_eq!(bus.ram[0x0842], 0x99);
    assert_eq!(bus.ram[0x1042], 0x99);
    assert_eq!(bus.ram[0x1842], 0x99);
    bus.write(&mut ppu, 0x1F00, 0x55);
    assert_eq!(bus.ram[0x0700], 0x55);
}

#[test]
fn cartridge_area_writes_are_ignored() {
    let mut ppu = ready_ppu();
    let mut bus = MemCon::new();
    bus.raw_write_b(0x9000, 0x77);
    bus.write(&mut ppu, 0x9000, 0x11);
    assert_eq!(bus.ram[0x9000], 0x77);
}

#[test]
fn oam_dma_copies_a_page_and_stalls() {
    let mut ppu = ready_ppu();
    ppu.regs.oam_addr = 4;
    let mut bus = MemCon::new();
    for i in 0..256u16 {
        bus.raw_write_b(0x0300 + i, i as u8);
    }
    let stall = bus.write(&mut ppu, 0x4014, 0x03);
    assert_eq!(stall, 513);
    assert_eq!(ppu.regs.oam_dma, 0x03);
    assert_eq!(ppu.regs.oam_addr, 4, "the address comes full circle");
    for i in 0..256usize {
        assert_eq!(ppu.spr_ram[(4 + i) % 256], i as u8);
    }
}

#[test]
fn warm_up_ignores_control_writes() {
    let mut ppu = bare_ppu();
    let mut bus = MemCon::new();
    bus.write(&mut ppu, 0x2000, 0xFF);
    assert_eq!(ppu.regs.ctrl, 0, "ignored during warm-up");
    assert_eq!(ppu.regs.databus, 0xFF, "but the bus latch takes the byte");
    bus.write(&mut ppu, 0x2003, 0x10);
    assert_eq!(ppu.regs.oam_addr, 0x10, "the OAM address register accepts");
}

#[test]
fn warm_up_ends_after_the_documented_clocks() {
    let mut ppu = bare_ppu();
    ppu.clock_counter = 29658 * 3;
    assert!(matches!(ppu.state, PpuState::Idling));
    let nmi = ppu.step();
    assert!(!nmi);
    assert!(matches!(ppu.state, PpuState::Ready));
}

#[test]
fn nametable_mirroring_folds_per_cartridge_mode() {
    let horizontal = vram::MemCon::new(MirroringType::Horizontal);
    assert_eq!(horizontal.mirror(0x2000), horizontal.mirror(0x2400));
    assert_eq!(horizontal.mirror(0x2800), horizontal.mirror(0x2C00));
    assert_ne!(horizontal.mirror(0x2000), horizontal.mirror(0x2800));
    let vertical = vram::MemCon::new(MirroringType::Vertical);
    assert_eq!(vertical.mirror(0x2000), vertical.mirror(0x2800));
    assert_eq!(vertical.mirror(0x2400), vertical.mirror(0x2C00));
    assert_ne!(vertical.mirror(0x2000), vertical.mirror(0x2400));
    let four = vram::MemCon::new(MirroringType::FourScreen);
    assert_ne!(four.mirror(0x2000), four.mirror(0x2400));
    assert_ne!(four.mirror(0x2000), four.mirror(0x2800));
}

#[test]
fn nametable_high_window_aliases_the_low_one() {
    let mut vm = vram::MemCon::new(MirroringType::Vertical);
    vm.write(0x3123, 0x5A);
    assert_eq!(vm.read(0x2123), 0x5A);
}

#[test]
fn palette_aliases_and_repeats() {
    let mut vm = vram::MemCon::new(MirroringType::Vertical);
    vm.write(0x3F10, 0x2D);
    assert_eq!(vm.read(0x3F00), 0x2D, "0x3F10 aliases 0x3F00");
    vm.write(0x3F01, 0x11);
    assert_eq!(vm.read(0x3F21), 0x11, "the palette repeats every 0x20 bytes");
    vm.write(0x3F14, 0x0A);
    assert_eq!(vm.read(0x3F04), 0x0A);
}

#[test]
fn oam_data_write_stores_and_steps() {
    let mut ppu = ready_ppu();
    let mut bus = MemCon::new();
    bus.write(&mut ppu, 0x2003, 0xFF);
    bus.write(&mut ppu, 0x2004, 0x31);
    assert_eq!(ppu.spr_ram[0xFF], 0x31);
    assert_eq!(ppu.regs.oam_addr, 0x00, "the OAM address wraps");
    let v = bus.read(&mut ppu, 0x2004);
    assert_eq!(v, ppu.spr_ram[0], "reads do not step the address");
}

#[test]
fn write_only_registers_read_back_the_bus_latch() {
    let mut ppu = ready_ppu();
    let mut bus = MemCon::new();
    bus.write(&mut ppu, 0x2001, 0x3C);
    let v = bus.read(&mut ppu, 0x2001);
    assert_eq!(v, 0x3C);
}

#[test]
fn ppu_registers_read_status_returns_the_byte() {
    let regs = PpuRegisters { status: 0xA0, ..zero_regs() };
    assert_eq!(regs.read_status(), 0xA0);
}

#[test]
fn register_offsets_decode_in_order() {
    assert_eq!(PpuRegs::from_offset(0), PpuRegs::Ctrl);
    assert_eq!(PpuRegs::from_offset(2), PpuRegs::Status);
    assert_eq!(PpuRegs::from_offset(7), PpuRegs::PpuData);
}
