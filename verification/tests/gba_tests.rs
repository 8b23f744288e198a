use gba_emu::bus::{GAMEPAK_ROM_START, REG_KEYINPUT};
use gba_emu::cpu::CpuMode;
use gba_emu::gba::{Gba, CYCLES_PER_FRAME};
use gba_emu::input::{BUTTON_A, BUTTON_START};

/// A cartridge whose entry point is a branch to itself.
fn spinning_rom() -> Vec<u8> {
    vec![0xFE, 0xFF, 0xFF, 0xEA]
}

#[test]
fn new_console_starts_at_rom_entry() {
    let gba = Gba::new();
    let snap = gba.debug_snapshot();
    assert_eq!(snap.pc, GAMEPAK_ROM_START);
    assert_eq!(snap.cycles, 0);
    assert_eq!(snap.cpsr, 0x1F);
    assert_eq!(gba.framebuffer().len(), 240 * 160);
}

#[test]
fn frame_runs_a_full_frame_of_cycles() {
    let mut gba = Gba::new();
    gba.load_rom(spinning_rom());
    gba.reset();
    gba.run_frame_headless();
    let cycles = gba.cpu.cycles();
    assert!(cycles >= CYCLES_PER_FRAME as u64);
    assert!(cycles < CYCLES_PER_FRAME as u64 + 19);
    assert!(gba.take_frame_ready());
    assert!(!gba.take_frame_ready());
}

#[test]
fn frame_publishes_held_buttons_active_low() {
    let mut gba = Gba::new();
    gba.load_rom(spinning_rom());
    gba.reset();
    gba.set_input_held_mask(BUTTON_A | BUTTON_START | 0xF000);
    gba.run_frame_headless();
    assert_eq!(gba.bus.read_io16(REG_KEYINPUT), 0xFFF6);
}

#[test]
fn frame_counts_rom_steps() {
    let mut gba = Gba::new();
    gba.load_rom(spinning_rom());
    gba.reset();
    gba.run_frame();
    let snap = gba.debug_snapshot();
    assert_eq!(snap.frame_bios_steps, 0);
    assert!(snap.frame_rom_steps > 0);
    assert_eq!(snap.pc, GAMEPAK_ROM_START);
}

#[test]
fn reset_with_bios_enters_bios_vector() {
    let mut gba = Gba::new();
    gba.load_bios(&[0u8; 16]);
    gba.reset();
    let snap = gba.debug_snapshot();
    assert_eq!(snap.pc, 0);
    assert_eq!(snap.cpsr, 0xD3);
    assert_eq!(gba.cpu.mode(), CpuMode::Supervisor);
}

#[test]
fn force_boot_without_bios_unmaps_bios() {
    let mut gba = Gba::new();
    gba.load_bios(&[0u8; 16]);
    gba.reset();
    gba.force_boot_to_rom_without_bios();
    assert!(!gba.bus.has_bios());
    assert_eq!(gba.cpu.pc(), GAMEPAK_ROM_START);
    assert_eq!(gba.cpu.mode(), CpuMode::System);
}

#[test]
fn branch_log_collects_traced_branches() {
    let mut gba = Gba::new();
    gba.load_rom(spinning_rom());
    gba.reset();
    gba.set_trace_branches(true);
    gba.run_frame_headless();
    let log = gba.take_branch_log();
    assert!(!log.is_empty());
    assert_eq!(log[0].from, GAMEPAK_ROM_START);
    assert_eq!(log[0].to, GAMEPAK_ROM_START);
    assert!(gba.take_branch_log().is_empty());
}

#[test]
fn stalled_bios_hands_off_to_cartridge() {
    let mut gba = Gba::new();
    // BIOS image: three MOV r0, r0 and a branch back to 0, six cycles a round, so
    // every frame ends at address 0 after well over 100000 BIOS steps.
    gba.load_bios(&[
        0x00, 0x00, 0xA0, 0xE1, 0x00, 0x00, 0xA0, 0xE1, 0x00, 0x00, 0xA0, 0xE1, 0xFB, 0xFF, 0xFF,
        0xEA,
    ]);
    gba.load_rom(spinning_rom());
    gba.reset();
    for _ in 0..19 {
        gba.run_frame_headless();
        assert!(gba.bus.has_bios());
    }
    gba.run_frame_headless();
    assert!(gba.bus.has_bios());
    gba.run_frame_headless();
    assert!(!gba.bus.has_bios());
    assert_eq!(gba.cpu.pc(), GAMEPAK_ROM_START);
}

#[test]
fn headless_frame_matches_rendered_frame_but_picture() {
    let mut a = Gba::new();
    let mut b = Gba::new();
    a.load_rom(spinning_rom());
    b.load_rom(spinning_rom());
    for _ in 0..3 {
        a.run_frame();
        b.run_frame_headless();
    }
    assert_eq!(format!("{:?}", a.debug_snapshot()), format!("{:?}", b.debug_snapshot()));
    assert_eq!(a.take_frame_ready(), b.take_frame_ready());
    assert!(!a.cpu().is_halted());
    assert_eq!(a.bus().read_io16(REG_KEYINPUT), b.bus().read_io16(REG_KEYINPUT));
}

#[test]
fn every_run_frame_reports_a_completed_frame() {
    let mut gba = Gba::new();
    gba.load_rom(spinning_rom());
    for _ in 0..4 {
        gba.run_frame_headless();
        assert!(gba.take_frame_ready());
        assert!(gba.debug_snapshot().vcount < 228);
    }
}

#[test]
fn held_keys_are_latched_active_low_after_a_frame() {
    let mut gba = Gba::new();
    gba.load_rom(spinning_rom());
    gba.set_input_held_mask(0xFC01);
    gba.run_frame_headless();
    assert_eq!(gba.bus().read_io16(REG_KEYINPUT), 0xFFFE);
}

#[test]
fn headless_frame_keeps_the_picture() {
    let mut gba = Gba::new();
    gba.load_rom(spinning_rom());
    gba.run_frame();
    let before = gba.framebuffer().to_vec();
    gba.run_frame_headless();
    assert_eq!(gba.framebuffer(), &before[..]);
}
