use gba_emu::bus::{
    Bus, EWRAM_START, GAMEPAK_ROM_START, IWRAM_START, REG_IE, REG_IF, REG_IME, REG_JOY_RECV,
    REG_JOY_TRANS, REG_KEYINPUT, REG_VCOUNT, VRAM_START,
};

#[test]
fn ewram_roundtrip_32bit() {
    let mut bus = Bus::new();
    bus.write32(EWRAM_START, 0x1122_3344);
    assert_eq!(bus.read32(EWRAM_START), 0x1122_3344);
}

#[test]
fn reads_out_of_bounds_rom_as_ff() {
    let bus = Bus::new();
    assert_eq!(bus.read8(GAMEPAK_ROM_START), 0xFF);
}

#[test]
fn keyinput_is_active_low() {
    let mut bus = Bus::new();
    bus.set_keyinput_from_held_mask(0b11);
    assert_eq!(bus.read_io16(REG_KEYINPUT) & 0b11, 0);
}

#[test]
fn joybus_registers_initialized() {
    let bus = Bus::new();
    assert_eq!(bus.read_io16(REG_JOY_RECV), 0xFFFF);
    assert_eq!(bus.read_io16(REG_JOY_RECV + 2), 0xFFFF);
    assert_eq!(bus.read_io16(REG_JOY_TRANS), 0xFFFF);
    assert_eq!(bus.read_io16(REG_JOY_TRANS + 2), 0xFFFF);
}

#[test]
fn keyinput_idle_reads_all_released() {
    let bus = Bus::new();
    assert_eq!(bus.read_io16(REG_KEYINPUT), 0xFFFF);
}

#[test]
fn keyinput_exact_value_for_held_buttons() {
    let mut bus = Bus::new();
    bus.set_keyinput_from_held_mask(0x0009);
    assert_eq!(bus.read_io16(REG_KEYINPUT), 0xFFF6);
}

#[test]
fn iwram_byte_roundtrip() {
    let mut bus = Bus::new();
    bus.write8(IWRAM_START + 0x10, 0xAB);
    assert_eq!(bus.read8(IWRAM_START + 0x10), 0xAB);
}

#[test]
fn ewram_mirrors_every_256k() {
    let mut bus = Bus::new();
    bus.write8(EWRAM_START + 0x4_0000 + 5, 0x5A);
    assert_eq!(bus.read8(EWRAM_START + 5), 0x5A);
}

#[test]
fn vram_word_roundtrip() {
    let mut bus = Bus::new();
    bus.write32(VRAM_START + 0x100, 0xCAFE_BABE);
    assert_eq!(bus.read32(VRAM_START + 0x100), 0xCAFE_BABE);
    assert_eq!(bus.read16(VRAM_START + 0x102), 0xCAFE);
}

#[test]
fn vram_byte_write_fills_halfword() {
    let mut bus = Bus::new();
    bus.write8(VRAM_START + 0x21, 0x7E);
    assert_eq!(bus.read16(VRAM_START + 0x20), 0x7E7E);
}

#[test]
fn interrupt_flag_write_one_clears() {
    let mut bus = Bus::new();
    bus.request_interrupt(0x0005);
    assert_eq!(bus.read_io16(REG_IF) & 0x0005, 0x0005);
    bus.write_io16(REG_IF, 0x0001);
    assert_eq!(bus.read_io16(REG_IF) & 0x0005, 0x0004);
}

#[test]
fn claim_returns_lowest_enabled_pending_interrupt() {
    let mut bus = Bus::new();
    bus.write_io16(REG_IME, 1);
    bus.write_io16(REG_IE, 0x000C);
    bus.request_interrupt(0x000E);
    assert!(bus.has_pending_interrupts());
    assert_eq!(bus.claim_pending_interrupt(), Some(0x0004));
}

#[test]
fn no_pending_interrupt_without_master_enable() {
    let mut bus = Bus::new();
    bus.write_io16(REG_IE, 0x0001);
    bus.request_interrupt(0x0001);
    assert!(!bus.has_pending_interrupts());
}

#[test]
fn rom_bytes_are_read_back_and_mirrored() {
    let mut bus = Bus::new();
    bus.load_rom(vec![0x11, 0x22, 0x33, 0x44]);
    assert_eq!(bus.read32(GAMEPAK_ROM_START), 0x4433_2211);
    assert_eq!(bus.read8(GAMEPAK_ROM_START + 5), 0x22);
}

#[test]
fn bios_load_and_disable() {
    let mut bus = Bus::new();
    assert!(!bus.has_bios());
    bus.load_bios(&[1, 2, 3, 4]);
    assert!(bus.has_bios());
    bus.disable_bios();
    assert!(!bus.has_bios());
}

#[test]
fn halt_request_is_taken_once() {
    let mut bus = Bus::new();
    bus.write8(0x0400_0301, 0x00);
    assert!(bus.take_halt_request());
    assert!(!bus.take_halt_request());
}

#[test]
fn timer_counts_prescaler_periods() {
    let mut bus = Bus::new();
    bus.write_io16(0x0400_0102, 0x0080);
    bus.tick_timers(5);
    assert_eq!(bus.read_io16(0x0400_0100), 5);
    let mut bus2 = Bus::new();
    bus2.write_io16(0x0400_0106, 0x0081);
    bus2.tick_timers(128);
    assert_eq!(bus2.read_io16(0x0400_0104), 2);
    bus2.tick_timers(63);
    assert_eq!(bus2.read_io16(0x0400_0104), 2);
    bus2.tick_timers(1);
    assert_eq!(bus2.read_io16(0x0400_0104), 3);
}

#[test]
fn timer_overflow_reloads_and_raises_interrupt() {
    let mut bus = Bus::new();
    bus.write_io16(0x0400_0100, 0xFFFE);
    bus.write_io16(0x0400_0102, 0x00C0);
    bus.tick_timers(2);
    assert_eq!(bus.read_io16(0x0400_0100), 0xFFFE);
    assert_eq!(bus.read_io16(REG_IF) & 0x0008, 0x0008);
}

#[test]
fn read_only_registers_ignore_writes() {
    let mut bus = Bus::new();
    bus.write_io16(REG_KEYINPUT, 0x0000);
    assert_eq!(bus.read_io16(REG_KEYINPUT), 0xFFFF);
    bus.write8(0x0400_0006, 0x55);
    assert_eq!(bus.read_io16(0x0400_0006), 0);
}

#[test]
fn dma_cannot_write_vcount() {
    let mut bus = Bus::new();
    bus.set_vcount(42);
    bus.write16(EWRAM_START, 0x1234);
    // DMA3: one halfword from work RAM to VCOUNT, started immediately.
    bus.write32(0x0400_00D4, EWRAM_START);
    bus.write32(0x0400_00D8, REG_VCOUNT);
    bus.write16(0x0400_00DC, 1);
    bus.write16(0x0400_00DE, 0x8000);
    assert_eq!(bus.read_io16(REG_VCOUNT), 42);
    bus.write8(REG_VCOUNT, 7);
    bus.write32(REG_VCOUNT - 2, 0xFFFF_FFFF);
    assert_eq!(bus.read_io16(REG_VCOUNT), 42);
}

#[test]
fn request_interrupt_sets_if_and_check_halfwords() {
    let mut bus = Bus::new();
    bus.write16(REG_IE, 0x0003);
    bus.write16(0x0300_22DC, 0x0100);
    bus.request_interrupt(0x0008);
    assert_eq!(bus.read_io16(REG_IF), 0x0008);
    assert_eq!(bus.read_io16(REG_IE), 0x0003);
    assert_eq!(bus.read16(0x0300_22DC), 0x0109);
    assert_eq!(bus.read16(0x0300_22F8), 0x0009);
}

#[test]
fn if_write_clears_only_written_bits() {
    let mut bus = Bus::new();
    bus.request_interrupt(0x0005);
    bus.write16(REG_IF, 0x0001);
    assert_eq!(bus.read_io16(REG_IF), 0x0004);
    assert_eq!(bus.read_io16(REG_IE), 0);
}

#[test]
fn rom_boot_reset_clears_ram_keeps_rom() {
    let mut bus = Bus::new();
    bus.load_rom(vec![0x11, 0x22]);
    bus.write8(EWRAM_START, 5);
    bus.write8(IWRAM_START + 4, 6);
    bus.write16(REG_IE, 0x00FF);
    bus.reset_for_rom_boot();
    assert_eq!(bus.read8(EWRAM_START), 0);
    assert_eq!(bus.read8(IWRAM_START + 4), 0);
    assert_eq!(bus.read_io16(REG_IE), 0);
    assert_eq!(bus.read_io16(REG_KEYINPUT), 0x03FF | 0xFC00);
    assert_eq!(bus.read8(GAMEPAK_ROM_START + 1), 0x22);
}

#[test]
fn timer_ticks_add_up() {
    let setup = || {
        let mut bus = Bus::new();
        // Timer 0: reload 0xFFF0, prescaler 1, IRQ on; timer 1: prescaler 64.
        bus.write16(0x0400_0100, 0xFFF0);
        bus.write16(0x0400_0102, 0x00C0);
        bus.write16(0x0400_0106, 0x0081);
        bus
    };
    let mut split = setup();
    split.tick_timers(10);
    split.tick_timers(100);
    let mut whole = setup();
    whole.tick_timers(110);
    for addr in [0x0400_0100u32, 0x0400_0104, REG_IF] {
        assert_eq!(split.read_io16(addr), whole.read_io16(addr));
    }
    assert_eq!(split.read16(0x0300_22DC), whole.read16(0x0300_22DC));
    assert_ne!(whole.read_io16(REG_IF) & 0x0008, 0);
    assert_eq!(whole.read_io16(0x0400_0104), 1);
}
