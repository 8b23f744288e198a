use gba_emu::bus::{Bus, PALETTE_RAM_START, REG_DISPCNT, REG_DISPSTAT, REG_IF, REG_VCOUNT, VRAM_START};
use gba_emu::ppu::{bgr555_to_argb8888, Ppu, SCREEN_HEIGHT, SCREEN_WIDTH};

#[test]
fn bgr555_white_black_and_primaries() {
    assert_eq!(bgr555_to_argb8888(0x7FFF), 0xFFFF_FFFF);
    assert_eq!(bgr555_to_argb8888(0x0000), 0xFF00_0000);
    assert_eq!(bgr555_to_argb8888(0x001F), 0xFFFF_0000);
    assert_eq!(bgr555_to_argb8888(0x03E0), 0xFF00_FF00);
    assert_eq!(bgr555_to_argb8888(0x7C00), 0xFF00_00FF);
    assert_eq!(bgr555_to_argb8888(0x0010), 0xFF83_0000);
}

#[test]
fn new_ppu_has_black_screen_and_no_frame() {
    let mut ppu = Ppu::new();
    assert_eq!(ppu.framebuffer().len(), SCREEN_WIDTH * SCREEN_HEIGHT);
    assert!(ppu.framebuffer().iter().all(|&p| p == 0));
    assert!(!ppu.take_frame_ready());
}

#[test]
fn one_scanline_advances_vcount() {
    let mut ppu = Ppu::new();
    let mut bus = Bus::new();
    ppu.tick(1231, &mut bus, false);
    assert_eq!(bus.read_io16(REG_VCOUNT), 0);
    ppu.tick(1, &mut bus, false);
    assert_eq!(bus.read_io16(REG_VCOUNT), 1);
}

#[test]
fn vblank_starts_at_line_160() {
    let mut ppu = Ppu::new();
    let mut bus = Bus::new();
    ppu.tick(1232 * 159, &mut bus, false);
    assert_eq!(bus.read_io16(REG_DISPSTAT) & 1, 0);
    assert!(!ppu.take_frame_ready());
    ppu.tick(1232, &mut bus, false);
    assert_eq!(bus.read_io16(REG_VCOUNT), 160);
    assert_eq!(bus.read_io16(REG_DISPSTAT) & 1, 1);
    assert_eq!(bus.read_io16(REG_IF) & 1, 1);
    assert!(ppu.take_frame_ready());
    assert!(!ppu.take_frame_ready());
}

#[test]
fn vblank_ends_when_vcount_wraps() {
    let mut ppu = Ppu::new();
    let mut bus = Bus::new();
    ppu.tick(1232 * 228, &mut bus, false);
    assert_eq!(bus.read_io16(REG_VCOUNT), 0);
    assert_eq!(bus.read_io16(REG_DISPSTAT) & 1, 0);
}

#[test]
fn mode3_pixel_is_drawn() {
    let mut ppu = Ppu::new();
    let mut bus = Bus::new();
    // Mode 3 with BG2 on.
    bus.write_io16(REG_DISPCNT, 0x0403);
    bus.write16(VRAM_START + 2 * 5, 0x001F);
    ppu.tick(1232, &mut bus, true);
    assert_eq!(ppu.framebuffer()[5], 0xFFFF_0000);
    assert_eq!(ppu.framebuffer()[4], 0xFF00_0000);
}

#[test]
fn mode4_uses_palette() {
    let mut ppu = Ppu::new();
    let mut bus = Bus::new();
    bus.write_io16(REG_DISPCNT, 0x0404);
    bus.write16(PALETTE_RAM_START + 2 * 7, 0x03E0);
    bus.write16(VRAM_START, 0x0700);
    ppu.tick(1232, &mut bus, true);
    assert_eq!(ppu.framebuffer()[1], 0xFF00_FF00);
}

#[test]
fn invalid_mode_fills_grey() {
    let mut ppu = Ppu::new();
    let mut bus = Bus::new();
    bus.write_io16(REG_DISPCNT, 0x0007);
    ppu.tick(1232, &mut bus, true);
    assert_eq!(ppu.framebuffer()[0], 0xFF10_1010);
    assert_eq!(ppu.framebuffer()[SCREEN_WIDTH], 0);
}

#[test]
fn mode0_backdrop_colour() {
    let mut ppu = Ppu::new();
    let mut bus = Bus::new();
    bus.write16(PALETTE_RAM_START, 0x7C00);
    ppu.tick(1232, &mut bus, true);
    assert_eq!(ppu.framebuffer()[0], 0xFF00_00FF);
    assert_eq!(ppu.framebuffer()[239], 0xFF00_00FF);
}

#[test]
fn text_background_tile_pixel() {
    let mut ppu = Ppu::new();
    let mut bus = Bus::new();
    // Mode 0, BG0 on; BG0CNT: char base 0, map base block 8, 4bpp.
    bus.write_io16(REG_DISPCNT, 0x0100);
    bus.write_io16(0x0400_0008, 0x0800);
    // Map entry 0 of block 8 names tile 1, palette bank 0.
    bus.write16(VRAM_START + 8 * 0x800, 0x0001);
    // Tile 1, row 0: pixel 0 = colour 3.
    bus.write16(VRAM_START + 32, 0x0003);
    bus.write16(PALETTE_RAM_START + 2 * 3, 0x001F);
    ppu.tick(1232, &mut bus, true);
    assert_eq!(ppu.framebuffer()[0], 0xFFFF_0000);
    assert_eq!(ppu.framebuffer()[1], 0xFF00_0000);
}

#[test]
fn headless_tick_does_not_render() {
    let mut ppu = Ppu::new();
    let mut bus = Bus::new();
    bus.write_io16(REG_DISPCNT, 0x0007);
    ppu.tick(1232, &mut bus, false);
    assert_eq!(ppu.framebuffer()[0], 0);
}

#[test]
fn rendering_a_line_touches_only_that_row() {
    let mut ppu = Ppu::new();
    let mut bus = Bus::new();
    bus.write16(PALETTE_RAM_START, 0x7FFF);
    // Render line 0 only.
    ppu.tick(1232, &mut bus, true);
    assert!(ppu.framebuffer()[..SCREEN_WIDTH].iter().all(|&p| p == 0xFFFF_FFFF));
    assert!(ppu.framebuffer()[SCREEN_WIDTH..].iter().all(|&p| p == 0));
}

#[test]
fn frame_period_from_mid_frame_returns_to_same_line() {
    let mut ppu = Ppu::new();
    let mut bus = Bus::new();
    bus.set_vcount(100);
    ppu.tick(1232 * 228 + 5, &mut bus, false);
    assert_eq!(bus.read_io16(REG_VCOUNT), 100);
    assert!(ppu.take_frame_ready());
    // The five leftover cycles still count toward the next line.
    ppu.tick(1227, &mut bus, false);
    assert_eq!(bus.read_io16(REG_VCOUNT), 101);
}

#[test]
fn lines_before_vblank_do_not_complete_a_frame() {
    let mut ppu = Ppu::new();
    let mut bus = Bus::new();
    bus.set_vcount(170);
    // From line 170 VBlank is 218 lines away.
    ppu.tick(1232 * 217, &mut bus, false);
    assert_eq!(bus.read_io16(REG_VCOUNT), 159);
    assert!(!ppu.take_frame_ready());
    ppu.tick(1232, &mut bus, false);
    assert!(ppu.take_frame_ready());
}

#[test]
fn raising_hofs_shifts_the_line_left() {
    let render = |hofs: u16| {
        let mut ppu = Ppu::new();
        let mut bus = Bus::new();
        bus.write_io16(REG_DISPCNT, 0x0100);
        bus.write_io16(0x0400_0008, 0x0800);
        bus.write_io16(0x0400_0010, hofs);
        // Every map entry of the first row names tile 1.
        for i in 0..32u32 {
            bus.write16(VRAM_START + 8 * 0x800 + 2 * i, 0x0001);
        }
        // Tile 1, row 0: colours 1..8 across the row.
        bus.write16(VRAM_START + 32, 0x2301);
        bus.write16(VRAM_START + 34, 0x4567);
        for c in 1..16u32 {
            bus.write16(PALETTE_RAM_START + 2 * c, (c * 2) as u16);
        }
        ppu.tick(1232, &mut bus, true);
        ppu.framebuffer()[..SCREEN_WIDTH].to_vec()
    };
    let a = render(5);
    let b = render(6);
    for x in 0..SCREEN_WIDTH - 1 {
        assert_eq!(b[x], a[x + 1]);
    }
    let wrapped = render(0);
    let last = render(511);
    for x in 0..SCREEN_WIDTH - 1 {
        assert_eq!(wrapped[x], last[x + 1]);
    }
}

#[test]
fn a_frame_of_cycles_always_reaches_vblank() {
    for start in [0u16, 100, 159, 160, 227] {
        let mut ppu = Ppu::new();
        let mut bus = Bus::new();
        bus.set_vcount(start);
        ppu.tick(1232 * 228, &mut bus, false);
        assert!(ppu.take_frame_ready());
        assert!(bus.read_io16(REG_VCOUNT) < 228);
    }
}
