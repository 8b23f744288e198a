//! Picture processing: scanline timing, VBlank, and scanline rendering of the text,
//! affine and bitmap background modes and of the sprites.
use vstd::prelude::*;
use crate::bus::{
    Bus, BusState, spec_read16, spec_read32, spec_read8, spec_write8, spec_write16,
    spec_trigger_dma_from, spec_request_interrupt, io_store16, IRQ_VBLANK, OAM_START,
    PALETTE_RAM_START, REG_DISPCNT, REG_DISPSTAT, REG_VCOUNT, VRAM_SIZE, DMA_NEST_LIMIT,
};

verus! {

pub const SCREEN_WIDTH: usize = 240;
pub const SCREEN_HEIGHT: usize = 160;
pub const SCREEN_PIXELS: usize = 38400;

pub const SCANLINE_CYCLES: u32 = 1_232;
pub const TOTAL_SCANLINES: u16 = 228;
pub const VISIBLE_SCANLINES: u16 = 160;
pub const REG_BG0CNT: u32 = 0x0400_0008;
pub const REG_BG1CNT: u32 = 0x0400_000A;
pub const REG_BG2CNT: u32 = 0x0400_000C;
pub const REG_BG3CNT: u32 = 0x0400_000E;
pub const REG_BG0HOFS: u32 = 0x0400_0010;
pub const REG_BG0VOFS: u32 = 0x0400_0012;
pub const REG_BG1HOFS: u32 = 0x0400_0014;
pub const REG_BG1VOFS: u32 = 0x0400_0016;
pub const REG_BG2HOFS: u32 = 0x0400_0018;
pub const REG_BG2VOFS: u32 = 0x0400_001A;
pub const REG_BG3HOFS: u32 = 0x0400_001C;
pub const REG_BG3VOFS: u32 = 0x0400_001E;
pub const REG_BG2PA: u32 = 0x0400_0020;
pub const REG_BG2PB: u32 = 0x0400_0022;
pub const REG_BG2PC: u32 = 0x0400_0024;
pub const REG_BG2PD: u32 = 0x0400_0026;
pub const REG_BG2X: u32 = 0x0400_0028;
pub const REG_BG2Y: u32 = 0x0400_002C;
pub const REG_BG3PA: u32 = 0x0400_0030;
pub const REG_BG3PB: u32 = 0x0400_0032;
pub const REG_BG3PC: u32 = 0x0400_0034;
pub const REG_BG3PD: u32 = 0x0400_0036;
pub const REG_BG3X: u32 = 0x0400_0038;
pub const REG_BG3Y: u32 = 0x0400_003C;

/// Colour of an ARGB pixel for which the text background map entry lies past VRAM.
pub const MISSING_MAP_COLOR: u32 = 0xFF00_0000;
/// Colour of a scanline in a display mode that does not exist.
pub const INVALID_MODE_COLOR: u32 = 0xFF10_1010;

/// The framebuffer together with the per-pixel priority and sprite-ownership of the
/// scanline being drawn.
#[verifier::ext_equal]
pub ghost struct LineState {
    pub fb: Seq<u32>,
    pub prio: Seq<u8>,
    pub owner: Seq<bool>,
}

impl LineState {
    pub open spec fn wf(self) -> bool {
        self.fb.len() == SCREEN_PIXELS && self.prio.len() == SCREEN_WIDTH && self.owner.len()
            == SCREEN_WIDTH
    }
}

pub open spec fn line_of(fb: Seq<u32>, prio: [u8; SCREEN_WIDTH], owner: [bool; SCREEN_WIDTH]) -> LineState {
    LineState { fb, prio: prio@, owner: owner@ }
}

/// Pixel `x` of the row starting at `row` drawn by a layer of priority `prio`.
pub open spec fn draw_pixel(ls: LineState, row: int, x: int, color: u32, prio: u8, owner: bool) -> LineState {
    LineState {
        fb: ls.fb.update(row + x, color),
        prio: ls.prio.update(x, prio),
        owner: ls.owner.update(x, owner),
    }
}

/// 15-bit BGR colour widened to opaque 32-bit ARGB (each channel scaled to 0..=255).
pub open spec fn spec_bgr555_to_argb8888(color: u16) -> u32 {
    let b = ((color >> 10u16) & 0x1F) as u32;
    let g = ((color >> 5u16) & 0x1F) as u32;
    let r = (color & 0x1F) as u32;
    0xFF00_0000u32 | ((((r * 255) / 31) as u32) << 16u32) | ((((g * 255) / 31) as u32) << 8u32) | (((b
        * 255) / 31) as u32)
}

/// Palette entry `index` of the 512-entry palette RAM as ARGB.
pub open spec fn palette_color(b: BusState, index: int) -> u32 {
    spec_bgr555_to_argb8888(spec_read16(b, (PALETTE_RAM_START + index * 2) as u32))
}

pub open spec fn vram_byte(b: BusState, off: int) -> u8 {
    if 0 <= off < b.vram.len() {
        b.vram[off]
    } else {
        0
    }
}

pub open spec fn spec_bg_cnt_addr(bg: int) -> u32 {
    if bg == 0 {
        REG_BG0CNT
    } else if bg == 1 {
        REG_BG1CNT
    } else if bg == 2 {
        REG_BG2CNT
    } else {
        REG_BG3CNT
    }
}

pub open spec fn spec_bg_hofs_addr(bg: int) -> u32 {
    if bg == 0 {
        REG_BG0HOFS
    } else if bg == 1 {
        REG_BG1HOFS
    } else if bg == 2 {
        REG_BG2HOFS
    } else {
        REG_BG3HOFS
    }
}

pub open spec fn spec_bg_vofs_addr(bg: int) -> u32 {
    if bg == 0 {
        REG_BG0VOFS
    } else if bg == 1 {
        REG_BG1VOFS
    } else if bg == 2 {
        REG_BG2VOFS
    } else {
        REG_BG3VOFS
    }
}

/// A row cleared to the backdrop colour (palette entry 0) with no layer drawn.
pub open spec fn clear_to_backdrop(ls: LineState, b: BusState, y: int) -> LineState {
    let row = y * SCREEN_WIDTH;
    let backdrop = palette_color(b, 0);
    LineState {
        fb: Seq::new(
            ls.fb.len(),
            |i: int|
                if row <= i < row + SCREEN_WIDTH {
                    backdrop
                } else {
                    ls.fb[i]
                },
        ),
        prio: Seq::new(SCREEN_WIDTH as nat, |i: int| 4u8),
        owner: Seq::new(SCREEN_WIDTH as nat, |i: int| false),
    }
}

// ---------------------------------------------------------------------------
// Bitmap modes
// ---------------------------------------------------------------------------

pub open spec fn bg2_priority(b: BusState) -> u8 {
    (spec_read16(b, REG_BG2CNT) & 0x3) as u8
}

pub open spec fn frame_base(dispcnt: u16) -> int {
    if (dispcnt & 0x0010) != 0 {
        0xA000
    } else {
        0
    }
}

/// Pixel `x` of the 240x160 direct-colour bitmap (mode 3).
pub open spec fn mode3_pixel(ls: LineState, b: BusState, y: int, bg_prio: u8, x: int) -> LineState {
    if bg_prio > ls.prio[x] {
        ls
    } else {
        let off = (y * SCREEN_WIDTH + x) * 2;
        let color = (b.vram[off] as u16) | ((b.vram[off + 1] as u16) << 8u16);
        draw_pixel(ls, y * SCREEN_WIDTH, x, spec_bgr555_to_argb8888(color), bg_prio, false)
    }
}

/// Pixel `x` of the 240x160 paletted bitmap (mode 4) in the selected frame.
pub open spec fn mode4_pixel(ls: LineState, b: BusState, y: int, bg_prio: u8, base: int, x: int) -> LineState {
    if bg_prio > ls.prio[x] {
        ls
    } else {
        let index = vram_byte(b, base + y * SCREEN_WIDTH + x);
        draw_pixel(ls, y * SCREEN_WIDTH, x, palette_color(b, index as int), bg_prio, false)
    }
}

/// Pixel `x` of the 160x128 direct-colour bitmap (mode 5) in the selected frame.
pub open spec fn mode5_pixel(ls: LineState, b: BusState, y: int, bg_prio: u8, base: int, x: int) -> LineState {
    let off = base + (y * 160 + x) * 2;
    if bg_prio > ls.prio[x] || off + 1 >= b.vram.len() {
        ls
    } else {
        let color = (b.vram[off] as u16) | ((b.vram[off + 1] as u16) << 8u16);
        draw_pixel(ls, y * SCREEN_WIDTH, x, spec_bgr555_to_argb8888(color), bg_prio, false)
    }
}

/// Bitmap pixels `x .. end` of mode `mode` (3, 4 or 5).
pub open spec fn bitmap_from(ls: LineState, b: BusState, y: int, mode: u16, bg_prio: u8, base: int, x: int, end: int) -> LineState
    decreases end - x,
{
    if x >= end {
        ls
    } else {
        let ls1 = if mode == 3 {
            mode3_pixel(ls, b, y, bg_prio, x)
        } else if mode == 4 {
            mode4_pixel(ls, b, y, bg_prio, base, x)
        } else {
            mode5_pixel(ls, b, y, bg_prio, base, x)
        };
        bitmap_from(ls1, b, y, mode, bg_prio, base, x + 1, end)
    }
}

/// A bitmap-mode scanline: backdrop, then BG2 from the bitmap when BG2 is enabled.
pub open spec fn spec_bitmap_scanline(ls: LineState, b: BusState, y: int, dispcnt: u16, mode: u16) -> LineState {
    let ls1 = clear_to_backdrop(ls, b, y);
    if (dispcnt & 0x0400) == 0 || (mode == 5 && y >= 128) {
        ls1
    } else {
        bitmap_from(ls1, b, y, mode, bg2_priority(b), frame_base(dispcnt), 0, if mode == 5 {
            160
        } else {
            SCREEN_WIDTH as int
        })
    }
}

// ---------------------------------------------------------------------------
// Text backgrounds
// ---------------------------------------------------------------------------

/// Decoded control and scroll registers of a text background.
pub struct TextBg {
    pub hofs: usize,
    pub vofs: usize,
    pub char_base_block: usize,
    pub map_base_block: usize,
    pub is_8bpp: bool,
    pub width_tiles: usize,
    pub height_tiles: usize,
}

pub open spec fn spec_text_bg(b: BusState, bg: int) -> TextBg {
    let bgcnt = spec_read16(b, spec_bg_cnt_addr(bg));
    let size = (bgcnt >> 14u16) & 0x3;
    TextBg {
        hofs: (spec_read16(b, spec_bg_hofs_addr(bg)) & 0x1FF) as usize,
        vofs: (spec_read16(b, spec_bg_vofs_addr(bg)) & 0x1FF) as usize,
        char_base_block: ((bgcnt >> 2u16) & 0x3) as usize,
        map_base_block: ((bgcnt >> 8u16) & 0x1F) as usize,
        is_8bpp: (bgcnt & 0x0080) != 0,
        width_tiles: if size == 1 || size == 3 {
            64
        } else {
            32
        },
        height_tiles: if size == 2 || size == 3 {
            64
        } else {
            32
        },
    }
}

/// Pixel `x` of a text background layer of priority `bg_prio`.
pub open spec fn text_pixel(ls: LineState, b: BusState, y: int, t: TextBg, bg_prio: u8, x: int) -> LineState {
    if bg_prio > ls.prio[x] {
        ls
    } else {
        let row = y * SCREEN_WIDTH;
        let map_y = (y + t.vofs) % (t.height_tiles * 8) as int;
        let tile_y = (map_y / 8) % t.height_tiles as int;
        let in_tile_y = map_y % 8;
        let map_x = (t.hofs + x) % (t.width_tiles * 8) as int;
        let tile_x = (map_x / 8) % t.width_tiles as int;
        let in_tile_x = map_x % 8;
        let screen_block_index = t.map_base_block + tile_x / 32 + (tile_y / 32) * (t.width_tiles / 32) as int;
        let map_index = (tile_y % 32) * 32 + (tile_x % 32);
        let entry_off = screen_block_index * 0x800 + map_index * 2;
        if entry_off + 1 >= b.vram.len() {
            LineState { fb: ls.fb.update(row + x, MISSING_MAP_COLOR), ..ls }
        } else {
            let entry = (b.vram[entry_off] as u16) | ((b.vram[entry_off + 1] as u16) << 8u16);
            let tile_id = (entry & 0x03FF) as int;
            let px = if (entry & 0x0400) != 0 {
                7 - in_tile_x
            } else {
                in_tile_x
            };
            let py = if (entry & 0x0800) != 0 {
                7 - in_tile_y
            } else {
                in_tile_y
            };
            let palette_bank = ((entry >> 12u16) & 0xF) as int;
            let color_index = if t.is_8bpp {
                vram_byte(b, t.char_base_block * 0x4000 + tile_id * 64 + py * 8 + px) as int
            } else {
                let byte = vram_byte(b, t.char_base_block * 0x4000 + tile_id * 32 + py * 4 + px / 2);
                if px % 2 == 0 {
                    (byte & 0x0F) as int
                } else {
                    (byte >> 4u8) as int
                }
            };
            if color_index == 0 {
                ls
            } else {
                let palette_index = if t.is_8bpp {
                    color_index
                } else {
                    palette_bank * 16 + color_index
                };
                draw_pixel(ls, row, x, palette_color(b, palette_index), bg_prio, false)
            }
        }
    }
}

pub open spec fn text_from(ls: LineState, b: BusState, y: int, t: TextBg, bg_prio: u8, x: int) -> LineState
    decreases SCREEN_WIDTH - x,
{
    if x >= SCREEN_WIDTH {
        ls
    } else {
        text_from(text_pixel(ls, b, y, t, bg_prio, x), b, y, t, bg_prio, x + 1)
    }
}

/// A text background layer drawn over the scanline.
pub open spec fn spec_text_bg_scanline(ls: LineState, b: BusState, y: int, bg: int, bg_prio: u8) -> LineState {
    text_from(ls, b, y, spec_text_bg(b, bg), bg_prio, 0)
}

// ---------------------------------------------------------------------------
// Affine backgrounds
// ---------------------------------------------------------------------------

/// 28-bit signed reference point register sign-extended.
pub open spec fn spec_read_affine_ref(b: BusState, addr: u32) -> i32 {
    ((spec_read32(b, addr) << 4u32) as i32) >> 4u32
}

/// Decoded registers of an affine background.
pub struct AffineBg {
    pub char_base: usize,
    pub map_base: usize,
    pub wrap: bool,
    pub bg_size: u32,
    pub pa: i32,
    pub pc: i32,
    pub start_x: i32,
    pub start_y: i32,
}

pub open spec fn affine_regs(bg: int) -> (u32, u32, u32, u32, u32, u32) {
    if bg == 2 {
        (REG_BG2PA, REG_BG2PB, REG_BG2PC, REG_BG2PD, REG_BG2X, REG_BG2Y)
    } else {
        (REG_BG3PA, REG_BG3PB, REG_BG3PC, REG_BG3PD, REG_BG3X, REG_BG3Y)
    }
}

pub open spec fn spec_affine_bg(b: BusState, bg: int, y: int) -> AffineBg {
    let (pa_addr, pb_addr, pc_addr, pd_addr, x_addr, y_addr) = affine_regs(bg);
    let bgcnt = spec_read16(b, spec_bg_cnt_addr(bg));
    let size = (bgcnt >> 14u16) & 0x3;
    let pb = spec_read16(b, pb_addr) as i16 as i32;
    let pd = spec_read16(b, pd_addr) as i16 as i32;
    AffineBg {
        char_base: (((bgcnt >> 2u16) & 0x3) as usize * 0x4000) as usize,
        map_base: (((bgcnt >> 8u16) & 0x1F) as usize * 0x800) as usize,
        wrap: (bgcnt & 0x2000) != 0,
        bg_size: if size == 0 {
            128
        } else if size == 1 {
            256
        } else if size == 2 {
            512
        } else {
            1024
        },
        pa: spec_read16(b, pa_addr) as i16 as i32,
        pc: spec_read16(b, pc_addr) as i16 as i32,
        start_x: (spec_read_affine_ref(b, x_addr) + pb * y) as i32,
        start_y: (spec_read_affine_ref(b, y_addr) + pd * y) as i32,
    }
}

/// Texture coordinate after `n` steps of `delta` from `start` (wrapping).
pub open spec fn affine_walk(start: i32, delta: i32, n: nat) -> i32
    decreases n,
{
    if n == 0 {
        start
    } else {
        affine_walk(start, delta, (n - 1) as nat).wrapping_add(delta)
    }
}

/// Pixel `x` of an affine background layer.
pub open spec fn affine_pixel(ls: LineState, b: BusState, y: int, a: AffineBg, bg_prio: u8, x: int) -> LineState {
    if bg_prio > ls.prio[x] {
        ls
    } else {
        let src_x = affine_walk(a.start_x, a.pa, x as nat) >> 8u32;
        let src_y = affine_walk(a.start_y, a.pc, x as nat) >> 8u32;
        let size = a.bg_size as int;
        let inside = a.wrap || (src_x >= 0 && src_y >= 0 && src_x < size && src_y < size);
        if !inside {
            ls
        } else {
            // With wrap-around the coordinate is taken modulo the (power-of-two) size.
            let sx: int = if a.wrap {
                ((src_x as u32) & ((a.bg_size - 1) as u32)) as int
            } else {
                src_x as int
            };
            let sy: int = if a.wrap {
                ((src_y as u32) & ((a.bg_size - 1) as u32)) as int
            } else {
                src_y as int
            };
            let tile_off = a.map_base + (sy / 8) * (size / 8) + sx / 8;
            if tile_off >= b.vram.len() {
                ls
            } else {
                let tile_id = b.vram[tile_off] as int;
                let pixel_off = a.char_base + tile_id * 64 + (sy % 8) * 8 + sx % 8;
                if pixel_off >= b.vram.len() || b.vram[pixel_off] == 0 {
                    ls
                } else {
                    draw_pixel(ls, y * SCREEN_WIDTH, x, palette_color(b, b.vram[pixel_off] as int), bg_prio, false)
                }
            }
        }
    }
}

pub open spec fn affine_from(ls: LineState, b: BusState, y: int, a: AffineBg, bg_prio: u8, x: int) -> LineState
    decreases SCREEN_WIDTH - x,
{
    if x >= SCREEN_WIDTH {
        ls
    } else {
        affine_from(affine_pixel(ls, b, y, a, bg_prio, x), b, y, a, bg_prio, x + 1)
    }
}

pub open spec fn spec_affine_bg_scanline(ls: LineState, b: BusState, y: int, bg: int, bg_prio: u8) -> LineState {
    affine_from(ls, b, y, spec_affine_bg(b, bg, y), bg_prio, 0)
}

// ---------------------------------------------------------------------------
// Tiled modes: layers in priority order
// ---------------------------------------------------------------------------

pub open spec fn bg_enabled(dispcnt: u16, bg: int) -> bool {
    (dispcnt >> ((8 + bg) as u16)) & 1 != 0
}

pub open spec fn bg_priority(b: BusState, bg: int) -> u16 {
    spec_read16(b, spec_bg_cnt_addr(bg)) & 0x3
}

/// Layers of a tiled mode drawn from slot `k` on: slot `k` is priority `k / 4` and
/// background `k % 4`, so layers are drawn by priority and, within a priority, by
/// background number. Mode 0 has four text layers; mode 1 text BG0 and BG1 and affine
/// BG2; mode 2 affine BG2 and BG3.
pub open spec fn tiled_layers_from(ls: LineState, b: BusState, y: int, dispcnt: u16, mode: u16, k: int) -> LineState
    decreases 16 - k,
{
    if k >= 16 || k < 0 {
        ls
    } else {
        let p = k / 4;
        let bg = k % 4;
        let present = if mode == 0 {
            true
        } else if mode == 1 {
            bg <= 2
        } else {
            bg >= 2
        };
        let ls1 = if present && bg_enabled(dispcnt, bg) && bg_priority(b, bg) == p {
            if mode == 0 || (mode == 1 && bg < 2) {
                spec_text_bg_scanline(ls, b, y, bg, p as u8)
            } else {
                spec_affine_bg_scanline(ls, b, y, bg, p as u8)
            }
        } else {
            ls
        };
        tiled_layers_from(ls1, b, y, dispcnt, mode, k + 1)
    }
}

pub open spec fn spec_tiled_scanline(ls: LineState, b: BusState, y: int, dispcnt: u16, mode: u16) -> LineState {
    tiled_layers_from(clear_to_backdrop(ls, b, y), b, y, dispcnt, mode, 0)
}

// ---------------------------------------------------------------------------
// Sprites
// ---------------------------------------------------------------------------

pub open spec fn spec_obj_dimensions(shape: u16, size: u16) -> Option<(usize, usize)> {
    if shape == 0 {
        if size == 0 {
            Some((8, 8))
        } else if size == 1 {
            Some((16, 16))
        } else if size == 2 {
            Some((32, 32))
        } else {
            Some((64, 64))
        }
    } else if shape == 1 {
        if size == 0 {
            Some((16, 8))
        } else if size == 1 {
            Some((32, 8))
        } else if size == 2 {
            Some((32, 16))
        } else {
            Some((64, 32))
        }
    } else if shape == 2 {
        if size == 0 {
            Some((8, 16))
        } else if size == 1 {
            Some((8, 32))
        } else if size == 2 {
            Some((16, 32))
        } else {
            Some((32, 64))
        }
    } else {
        None
    }
}

/// Whether the scanline crosses a sprite starting at `obj_y` of the given height
/// (sprite rows wrap around at 256).
pub open spec fn spec_scanline_hits_obj(scanline: u16, obj_y: u16, height: u16) -> bool {
    let end = obj_y.wrapping_add(height);
    if end >= 256 {
        scanline >= obj_y || scanline < (end & 0x00FF)
    } else {
        scanline >= obj_y && scanline < end
    }
}

/// Decoded attributes of a sprite that the scanline crosses.
pub struct ObjAttrs {
    pub width: usize,
    pub height: usize,
    pub draw_width: usize,
    pub draw_height: usize,
    pub obj_x: u16,
    pub is_affine: bool,
    pub is_8bpp: bool,
    pub hflip: bool,
    pub vflip: bool,
    pub tile_index: usize,
    pub obj_prio: u8,
    pub palette_bank: usize,
    pub row_units: usize,
    pub pa: i16,
    pub pb: i16,
    pub pc: i16,
    pub pd: i16,
    pub y_in_draw: usize,
}

pub open spec fn obj_attr_addr(obj: int, k: int) -> u32 {
    (OAM_START + obj * 8 + k) as u32
}

/// Rotation/scaling parameters of parameter group `idx`.
pub open spec fn spec_read_obj_affine_params(b: BusState, idx: int) -> (i16, i16, i16, i16) {
    let base = OAM_START + idx * 32;
    (
        spec_read16(b, (base + 0x06) as u32) as i16,
        spec_read16(b, (base + 0x0E) as u32) as i16,
        spec_read16(b, (base + 0x16) as u32) as i16,
        spec_read16(b, (base + 0x1E) as u32) as i16,
    )
}

/// Attributes of sprite `obj` if it is drawn on scanline `y` (object-window, mosaic and
/// prohibited shapes are skipped).
pub open spec fn spec_obj_attrs(b: BusState, y: int, dispcnt: u16, obj: int) -> Option<ObjAttrs> {
    let attr0 = spec_read16(b, obj_attr_addr(obj, 0));
    let attr1 = spec_read16(b, obj_attr_addr(obj, 2));
    let attr2 = spec_read16(b, obj_attr_addr(obj, 4));
    let obj_mode = (attr0 >> 8u16) & 0x3;
    let is_affine = (attr0 & 0x0100) != 0;
    let affine_double = is_affine && (attr0 & 0x0200) != 0;
    let mosaic = (attr0 & 0x1000) != 0;
    let is_8bpp = (attr0 & 0x2000) != 0;
    let shape = (attr0 >> 14u16) & 0x3;
    let size = (attr1 >> 14u16) & 0x3;
    if obj_mode == 2 || shape == 3 || mosaic || spec_obj_dimensions(shape, size) is None {
        None
    } else {
        let (width, height) = spec_obj_dimensions(shape, size)->0;
        let obj_y = attr0 & 0x00FF;
        let x0 = attr1 & 0x01FF;
        let obj_x = if x0 >= 240 {
            x0.wrapping_sub(512)
        } else {
            x0
        };
        let draw_width: usize = if affine_double {
            (width * 2) as usize
        } else {
            width
        };
        let draw_height: usize = if affine_double {
            (height * 2) as usize
        } else {
            height
        };
        if !spec_scanline_hits_obj(y as u16, obj_y, draw_height as u16) {
            None
        } else {
            let units_per_tile: usize = if is_8bpp {
                2
            } else {
                1
            };
            let (pa, pb, pc, pd) = if is_affine {
                spec_read_obj_affine_params(b, ((attr1 >> 9u16) & 0x1F) as int)
            } else {
                (0i16, 0i16, 0i16, 0i16)
            };
            Some(
                ObjAttrs {
                    width,
                    height,
                    draw_width,
                    draw_height,
                    obj_x,
                    is_affine,
                    is_8bpp,
                    hflip: (attr1 & 0x1000) != 0,
                    vflip: (attr1 & 0x2000) != 0,
                    tile_index: (attr2 & 0x03FF) as usize,
                    obj_prio: ((attr2 >> 10u16) & 0x3) as u8,
                    palette_bank: ((attr2 >> 12u16) & 0xF) as usize,
                    row_units: if (dispcnt & 0x0040) != 0 {
                        ((width / 8) * units_per_tile) as usize
                    } else {
                        32
                    },
                    pa,
                    pb,
                    pc,
                    pd,
                    y_in_draw: (y as u16).wrapping_sub(obj_y) as usize,
                },
            )
        }
    }
}

/// Position inside the sprite's own pixels of draw column `sx`, if it falls inside.
pub open spec fn obj_source(o: ObjAttrs, sx: usize) -> Option<(usize, usize)> {
    if o.is_affine {
        let cx = (o.draw_width / 2) as i32;
        let cy = (o.draw_height / 2) as i32;
        let x_rel = (sx as i32 - cx) as i32;
        let y_rel = (o.y_in_draw as i32 - cy) as i32;
        let src_x = (((o.pa as i32).wrapping_mul(x_rel).wrapping_add((o.pb as i32).wrapping_mul(y_rel))
            >> 8u32) + (o.width as i32 / 2)) as i32;
        let src_y = (((o.pc as i32).wrapping_mul(x_rel).wrapping_add((o.pd as i32).wrapping_mul(y_rel))
            >> 8u32) + (o.height as i32 / 2)) as i32;
        if src_x < 0 || src_y < 0 || src_x >= o.width as i32 || src_y >= o.height as i32 {
            None
        } else {
            Some((src_x as usize, src_y as usize))
        }
    } else {
        let x_src: usize = if o.hflip {
            (o.width - 1 - sx) as usize
        } else {
            sx
        };
        let y_src: usize = if o.vflip {
            ((o.height - 1) as usize).wrapping_sub(o.y_in_draw)
        } else {
            o.y_in_draw
        };
        Some((x_src, y_src))
    }
}

/// Offset in VRAM of the byte holding sprite pixel (`in_x`, `in_y`).
pub open spec fn obj_pixel_offset(o: ObjAttrs, in_x: usize, in_y: usize) -> usize {
    let units_per_tile: usize = if o.is_8bpp {
        2
    } else {
        1
    };
    let tile_units = o.tile_index.wrapping_add((in_y / 8).wrapping_mul(o.row_units)).wrapping_add(
        (in_x / 8).wrapping_mul(units_per_tile),
    );
    let tile_base = 0x1_0000usize.wrapping_add(tile_units.wrapping_mul(32));
    if o.is_8bpp {
        tile_base.wrapping_add(((in_y % 8) * 8 + in_x % 8) as usize)
    } else {
        tile_base.wrapping_add(((in_y % 8) * 4 + (in_x % 8) / 2) as usize)
    }
}

/// Draw column `sx` of a sprite: drawn over lower-priority pixels and over
/// equal-priority background pixels, never over an equal-priority earlier sprite.
pub open spec fn obj_pixel(ls: LineState, b: BusState, y: int, o: ObjAttrs, sx: usize) -> LineState {
    let screen_x = o.obj_x as int + sx as int;
    if !(0 <= screen_x < SCREEN_WIDTH) || obj_source(o, sx) is None {
        ls
    } else {
        let (in_x, in_y) = obj_source(o, sx)->0;
        let byte = vram_byte(b, obj_pixel_offset(o, in_x, in_y) as int);
        let color_index: int = if o.is_8bpp {
            byte as int
        } else if (in_x % 8) % 2 == 0 {
            (byte & 0x0F) as int
        } else {
            (byte >> 4u8) as int
        };
        let px = screen_x;
        if color_index == 0 || !(o.obj_prio < ls.prio[px] || (o.obj_prio == ls.prio[px] && !ls.owner[px])) {
            ls
        } else {
            let palette_index = if o.is_8bpp {
                0x100 + color_index
            } else {
                0x100 + o.palette_bank * 16 + color_index
            };
            draw_pixel(ls, y * SCREEN_WIDTH, px, palette_color(b, palette_index), o.obj_prio, true)
        }
    }
}

pub open spec fn obj_columns_from(ls: LineState, b: BusState, y: int, o: ObjAttrs, sx: int) -> LineState
    decreases o.draw_width - sx,
{
    if sx >= o.draw_width || sx < 0 {
        ls
    } else {
        obj_columns_from(obj_pixel(ls, b, y, o, sx as usize), b, y, o, sx + 1)
    }
}

/// Sprites `obj ..= 127` drawn in order.
pub open spec fn objs_from(ls: LineState, b: BusState, y: int, dispcnt: u16, obj: int) -> LineState
    decreases 128 - obj,
{
    if obj >= 128 || obj < 0 {
        ls
    } else {
        let ls1 = match spec_obj_attrs(b, y, dispcnt, obj) {
            Some(o) => obj_columns_from(ls, b, y, o, 0),
            None => ls,
        };
        objs_from(ls1, b, y, dispcnt, obj + 1)
    }
}

/// One scanline: the background layers of the display mode, then the sprites when
/// they are enabled.
pub open spec fn spec_render_scanline(ls: LineState, b: BusState, y: int) -> LineState {
    let dispcnt = spec_read16(b, REG_DISPCNT);
    let mode = dispcnt & 0x7;
    let ls1 = if mode <= 2 {
        spec_tiled_scanline(ls, b, y, dispcnt, mode)
    } else if mode <= 5 {
        spec_bitmap_scanline(ls, b, y, dispcnt, mode)
    } else {
        LineState {
            fb: Seq::new(
                ls.fb.len(),
                |i: int|
                    if y * SCREEN_WIDTH <= i < y * SCREEN_WIDTH + SCREEN_WIDTH {
                        INVALID_MODE_COLOR
                    } else {
                        ls.fb[i]
                    },
            ),
            ..ls
        }
    };
    if (dispcnt & 0x1000) != 0 {
        objs_from(ls1, b, y, dispcnt, 0)
    } else {
        ls1
    }
}


// ---------------------------------------------------------------------------
// Scanline timing
// ---------------------------------------------------------------------------

/// Abstract state of the picture unit.
#[verifier::ext_equal]
pub ghost struct PpuState {
    pub scanline_cycles: u32,
    pub framebuffer: Seq<u32>,
    pub frame_ready: bool,
}

/// The framebuffer after scanline `y` is rendered from the bus.
pub open spec fn spec_render_line(fb: Seq<u32>, b: BusState, y: int) -> Seq<u32> {
    spec_render_scanline(
        LineState {
            fb,
            prio: Seq::new(SCREEN_WIDTH as nat, |i: int| 4u8),
            owner: Seq::new(SCREEN_WIDTH as nat, |i: int| false),
        },
        b,
        y,
    ).fb
}

/// Entering VBlank sets the DISPSTAT VBlank flag, starts VBlank DMA and raises the
/// VBlank interrupt (without BIOS it also refreshes a heartbeat byte some titles wait
/// on); leaving it clears the flag.
pub open spec fn spec_set_vblank(b: BusState, state: bool) -> BusState {
    let dispstat = spec_read16(b, REG_DISPSTAT);
    if state {
        let b1 = if !b.bios_loaded {
            spec_write8(b, 0x0300_22B4, 1)
        } else {
            b
        };
        let b2 = spec_trigger_dma_from(b1, 1, 0);
        let b3 = spec_request_interrupt(b2, IRQ_VBLANK);
        spec_write16(b3, REG_DISPSTAT, dispstat | 1, DMA_NEST_LIMIT as nat)
    } else {
        spec_write16(b, REG_DISPSTAT, dispstat & !1u16, DMA_NEST_LIMIT as nat)
    }
}

/// Whole scanlines elapsed from `cycles` accumulated cycles: each renders the current
/// line (when it is visible and video is on), advances VCOUNT, and enters or leaves
/// VBlank at lines 160 and 0.
pub open spec fn spec_tick_lines(p: PpuState, b: BusState, render_video: bool, cycles: u32) -> (PpuState, BusState)
    decreases cycles,
{
    if cycles >= SCANLINE_CYCLES {
        let rest = (cycles - SCANLINE_CYCLES) as u32;
        let vcount = spec_read16(b, REG_VCOUNT);
        let fb = if render_video && vcount < VISIBLE_SCANLINES {
            spec_render_line(p.framebuffer, b, vcount as int)
        } else {
            p.framebuffer
        };
        let next = vcount.wrapping_add(1) % TOTAL_SCANLINES;
        let b1 = io_store16(b, REG_VCOUNT, next);
        let (b2, ready) = if next == VISIBLE_SCANLINES {
            (spec_set_vblank(b1, true), true)
        } else if next == 0 {
            (spec_set_vblank(b1, false), p.frame_ready)
        } else {
            (b1, p.frame_ready)
        };
        spec_tick_lines(PpuState { scanline_cycles: rest, framebuffer: fb, frame_ready: ready }, b2, render_video, rest)
    } else {
        (PpuState { scanline_cycles: cycles, ..p }, b)
    }
}

pub open spec fn spec_ppu_tick(p: PpuState, b: BusState, cycles: u32, render_video: bool) -> (PpuState, BusState) {
    spec_tick_lines(p, b, render_video, p.scanline_cycles.wrapping_add(cycles))
}

pub open spec fn initial_ppu_state() -> PpuState {
    PpuState {
        scanline_cycles: 0,
        framebuffer: Seq::new(SCREEN_PIXELS as nat, |i: int| 0u32),
        frame_ready: false,
    }
}

pub struct Ppu {
    scanline_cycles: u32,
    framebuffer: Vec<u32>,
    frame_ready: bool,
}

impl View for Ppu {
    type V = PpuState;

    closed spec fn view(&self) -> PpuState {
        PpuState {
            scanline_cycles: self.scanline_cycles,
            framebuffer: self.framebuffer@,
            frame_ready: self.frame_ready,
        }
    }
}

// ---------------------------------------------------------------------------
// Executable helpers
// ---------------------------------------------------------------------------

pub fn bgr555_to_argb8888(color: u16) -> (r: u32)
    ensures
        r == spec_bgr555_to_argb8888(color),
{
    proof {
        assert((color >> 10u16) & 0x1Fu16 <= 31 && (color >> 5u16) & 0x1Fu16 <= 31 && color & 0x1Fu16
            <= 31) by (bit_vector);
    }
    let b = ((color >> 10u16) & 0x1F) as u32;
    let g = ((color >> 5u16) & 0x1F) as u32;
    let r = (color & 0x1F) as u32;
    let r8 = (r * 255) / 31;
    let g8 = (g * 255) / 31;
    let b8 = (b * 255) / 31;
    0xFF00_0000 | (r8 << 16u32) | (g8 << 8u32) | b8
}

fn palette_color_exec(bus: &Bus, index: usize) -> (r: u32)
    requires
        index < 0x200,
    ensures
        r == palette_color(bus@, index as int),
{
    bgr555_to_argb8888(bus.read16(PALETTE_RAM_START + (index * 2) as u32))
}

fn bg_cnt_addr(bg: usize) -> (r: u32)
    ensures
        r == spec_bg_cnt_addr(bg as int),
{
    if bg == 0 {
        REG_BG0CNT
    } else if bg == 1 {
        REG_BG1CNT
    } else if bg == 2 {
        REG_BG2CNT
    } else {
        REG_BG3CNT
    }
}

fn bg_hofs_addr(bg: usize) -> (r: u32)
    ensures
        r == spec_bg_hofs_addr(bg as int),
{
    if bg == 0 {
        REG_BG0HOFS
    } else if bg == 1 {
        REG_BG1HOFS
    } else if bg == 2 {
        REG_BG2HOFS
    } else {
        REG_BG3HOFS
    }
}

fn bg_vofs_addr(bg: usize) -> (r: u32)
    ensures
        r == spec_bg_vofs_addr(bg as int),
{
    if bg == 0 {
        REG_BG0VOFS
    } else if bg == 1 {
        REG_BG1VOFS
    } else if bg == 2 {
        REG_BG2VOFS
    } else {
        REG_BG3VOFS
    }
}

fn read_affine_ref(bus: &Bus, addr: u32) -> (r: i32)
    ensures
        r == spec_read_affine_ref(bus@, addr),
        -0x0800_0000 <= r < 0x0800_0000,
{
    let raw = bus.read32(addr);
    // BGxX/BGxY are signed 28-bit fixed-point values (s19.8) in IO.
    proof {
        assert(-0x0800_0000 <= ((raw << 4u32) as i32) >> 4u32 < 0x0800_0000) by (bit_vector);
    }
    ((raw << 4u32) as i32) >> 4u32
}

fn obj_dimensions(shape: u16, size: u16) -> (r: Option<(usize, usize)>)
    ensures
        r == spec_obj_dimensions(shape, size),
{
    if shape == 0 {
        if size == 0 {
            Some((8, 8))
        } else if size == 1 {
            Some((16, 16))
        } else if size == 2 {
            Some((32, 32))
        } else {
            Some((64, 64))
        }
    } else if shape == 1 {
        if size == 0 {
            Some((16, 8))
        } else if size == 1 {
            Some((32, 8))
        } else if size == 2 {
            Some((32, 16))
        } else {
            Some((64, 32))
        }
    } else if shape == 2 {
        if size == 0 {
            Some((8, 16))
        } else if size == 1 {
            Some((8, 32))
        } else if size == 2 {
            Some((16, 32))
        } else {
            Some((32, 64))
        }
    } else {
        None
    }
}

fn scanline_hits_obj(scanline: u16, obj_y: u16, height: u16) -> (r: bool)
    ensures
        r == spec_scanline_hits_obj(scanline, obj_y, height),
{
    let end = obj_y.wrapping_add(height);
    if end >= 256 {
        scanline >= obj_y || scanline < (end & 0x00FF)
    } else {
        scanline >= obj_y && scanline < end
    }
}

fn read_obj_affine_params(bus: &Bus, param_index: usize) -> (r: (i16, i16, i16, i16))
    requires
        param_index < 32,
    ensures
        r == spec_read_obj_affine_params(bus@, param_index as int),
{
    let base = OAM_START + (param_index as u32) * 32;
    let pa = bus.read16(base + 0x06) as i16;
    let pb = bus.read16(base + 0x0E) as i16;
    let pc = bus.read16(base + 0x16) as i16;
    let pd = bus.read16(base + 0x1E) as i16;
    (pa, pb, pc, pd)
}

fn vram_byte_exec(vram: &[u8], off: usize) -> (r: u8)
    ensures
        r == (if off < vram@.len() {
            vram@[off as int]
        } else {
            0u8
        }),
{
    if off < vram.len() {
        vram[off]
    } else {
        0
    }
}


pub open spec fn text_bg_bounded(t: TextBg) -> bool {
    &&& t.hofs <= 0x1FF
    &&& t.vofs <= 0x1FF
    &&& t.char_base_block <= 3
    &&& t.map_base_block <= 31
    &&& (t.width_tiles == 32 || t.width_tiles == 64)
    &&& (t.height_tiles == 32 || t.height_tiles == 64)
}

fn text_bg_params(bus: &Bus, bg: usize) -> (r: TextBg)
    ensures
        r == spec_text_bg(bus@, bg as int),
        text_bg_bounded(r),
{
    let bgcnt = bus.read_io16(bg_cnt_addr(bg));
    let hofs_raw = bus.read_io16(bg_hofs_addr(bg));
    let vofs_raw = bus.read_io16(bg_vofs_addr(bg));
    proof {
        assert(hofs_raw & 0x1FFu16 <= 0x1FF && vofs_raw & 0x1FFu16 <= 0x1FF && (bgcnt >> 2u16) & 0x3u16
            <= 3 && (bgcnt >> 8u16) & 0x1Fu16 <= 31) by (bit_vector);
    }
    let size = (bgcnt >> 14u16) & 0x3;
    let width_tiles: usize = if size == 1 || size == 3 {
        64
    } else {
        32
    };
    let height_tiles: usize = if size == 2 || size == 3 {
        64
    } else {
        32
    };
    TextBg {
        hofs: (hofs_raw & 0x1FF) as usize,
        vofs: (vofs_raw & 0x1FF) as usize,
        char_base_block: ((bgcnt >> 2u16) & 0x3) as usize,
        map_base_block: ((bgcnt >> 8u16) & 0x1F) as usize,
        is_8bpp: (bgcnt & 0x0080) != 0,
        width_tiles,
        height_tiles,
    }
}

pub open spec fn affine_bg_bounded(a: AffineBg) -> bool {
    &&& a.char_base <= 3 * 0x4000
    &&& a.map_base <= 31 * 0x800
    &&& (a.bg_size == 128 || a.bg_size == 256 || a.bg_size == 512 || a.bg_size == 1024)
}

fn affine_bg_params(bus: &Bus, bg: usize, y: usize) -> (r: AffineBg)
    requires
        y < SCREEN_HEIGHT,
    ensures
        r == spec_affine_bg(bus@, bg as int, y as int),
        affine_bg_bounded(r),
{
    let (pa_addr, pb_addr, pc_addr, pd_addr, x_addr, y_addr) = if bg == 2 {
        (REG_BG2PA, REG_BG2PB, REG_BG2PC, REG_BG2PD, REG_BG2X, REG_BG2Y)
    } else {
        (REG_BG3PA, REG_BG3PB, REG_BG3PC, REG_BG3PD, REG_BG3X, REG_BG3Y)
    };
    let bgcnt = bus.read_io16(bg_cnt_addr(bg));
    proof {
        assert((bgcnt >> 2u16) & 0x3u16 <= 3 && (bgcnt >> 8u16) & 0x1Fu16 <= 31) by (bit_vector);
    }
    let char_base_block = ((bgcnt >> 2u16) & 0x3) as usize;
    let map_base_block = ((bgcnt >> 8u16) & 0x1F) as usize;
    let wrap = (bgcnt & 0x2000) != 0;
    let size = (bgcnt >> 14u16) & 0x3;
    let bg_size: u32 = if size == 0 {
        128
    } else if size == 1 {
        256
    } else if size == 2 {
        512
    } else {
        1024
    };
    let pa = bus.read_io16(pa_addr) as i16 as i32;
    let pb = bus.read_io16(pb_addr) as i16 as i32;
    let pc = bus.read_io16(pc_addr) as i16 as i32;
    let pd = bus.read_io16(pd_addr) as i16 as i32;
    let ref_x = read_affine_ref(bus, x_addr);
    let ref_y = read_affine_ref(bus, y_addr);
    let y_i32 = y as i32;
    proof {
        assert(-0x8000 <= pb <= 0x7FFF && -0x8000 <= pd <= 0x7FFF);
        assert(-0x8000 * 160 <= pb * y_i32 <= 0x7FFF * 160) by (nonlinear_arith)
            requires
                -0x8000 <= pb <= 0x7FFF,
                0 <= y_i32 < 160,
        ;
        assert(-0x8000 * 160 <= pd * y_i32 <= 0x7FFF * 160) by (nonlinear_arith)
            requires
                -0x8000 <= pd <= 0x7FFF,
                0 <= y_i32 < 160,
        ;
    }
    AffineBg {
        char_base: char_base_block * 0x4000,
        map_base: map_base_block * 0x800,
        wrap,
        bg_size,
        pa,
        pc,
        start_x: ref_x + pb * y_i32,
        start_y: ref_y + pd * y_i32,
    }
}

fn obj_attrs(bus: &Bus, y: usize, dispcnt: u16, obj: usize) -> (r: Option<ObjAttrs>)
    requires
        y < SCREEN_HEIGHT,
        obj < 128,
    ensures
        r == spec_obj_attrs(bus@, y as int, dispcnt, obj as int),
        r is Some ==> r->0.draw_width <= 128 && r->0.draw_height <= 128 && r->0.width <= 64 && r->0.height <= 64
            && r->0.y_in_draw <= 0xFFFF && r->0.tile_index <= 0x3FF && r->0.row_units <= 32
            && r->0.palette_bank <= 15 && (!r->0.is_affine ==> r->0.draw_width == r->0.width)
            && r->0.width >= 8 && r->0.height >= 8,
{
    let base = OAM_START + (obj as u32) * 8;
    let attr0 = bus.read16(base);
    let attr1 = bus.read16(base + 2);
    let attr2 = bus.read16(base + 4);
    let obj_mode = (attr0 >> 8u16) & 0x3;
    let is_affine = (attr0 & 0x0100) != 0;
    let affine_double = is_affine && (attr0 & 0x0200) != 0;
    let mosaic = (attr0 & 0x1000) != 0;
    let is_8bpp = (attr0 & 0x2000) != 0;
    let shape = (attr0 >> 14u16) & 0x3;
    let size = (attr1 >> 14u16) & 0x3;
    // Object-window, mosaic and prohibited shapes are not drawn.
    if obj_mode == 0x2 || shape == 0x3 || mosaic {
        return None;
    }
    let (width, height) = match obj_dimensions(shape, size) {
        Some(v) => v,
        None => {
            return None;
        },
    };
    let obj_y = attr0 & 0x00FF;
    let mut obj_x = attr1 & 0x01FF;
    if obj_x >= 240 {
        obj_x = obj_x.wrapping_sub(512);
    }
    let draw_width = if affine_double {
        width * 2
    } else {
        width
    };
    let draw_height = if affine_double {
        height * 2
    } else {
        height
    };
    let y_u16 = y as u16;
    if !scanline_hits_obj(y_u16, obj_y, draw_height as u16) {
        return None;
    }
    proof {
        assert(attr2 & 0x03FFu16 <= 0x3FF && (attr2 >> 12u16) & 0xFu16 <= 15 && (attr1 >> 9u16)
            & 0x1Fu16 < 32 && (attr2 >> 10u16) & 0x3u16 <= 3) by (bit_vector);
    }
    let units_per_tile: usize = if is_8bpp {
        2
    } else {
        1
    };
    let row_units = if (dispcnt & 0x0040) != 0 {
        (width / 8) * units_per_tile
    } else {
        32
    };
    let aff_param_idx = ((attr1 >> 9u16) & 0x1F) as usize;
    let (pa, pb, pc, pd) = if is_affine {
        read_obj_affine_params(bus, aff_param_idx)
    } else {
        (0i16, 0i16, 0i16, 0i16)
    };
    Some(
        ObjAttrs {
            width,
            height,
            draw_width,
            draw_height,
            obj_x,
            is_affine,
            is_8bpp,
            hflip: (attr1 & 0x1000) != 0,
            vflip: (attr1 & 0x2000) != 0,
            tile_index: (attr2 & 0x03FF) as usize,
            obj_prio: ((attr2 >> 10u16) & 0x3) as u8,
            palette_bank: ((attr2 >> 12u16) & 0xF) as usize,
            row_units,
            pa,
            pb,
            pc,
            pd,
            y_in_draw: y_u16.wrapping_sub(obj_y) as usize,
        },
    )
}

fn obj_source_exec(o: &ObjAttrs, sx: usize) -> (r: Option<(usize, usize)>)
    requires
        sx < o.draw_width,
        o.draw_width <= 128,
        o.draw_height <= 128,
        o.width <= 64,
        o.height <= 64,
        o.width >= 1,
        o.height >= 1,
        o.y_in_draw <= 0xFFFF,
        !o.is_affine ==> o.draw_width == o.width,
    ensures
        r == obj_source(*o, sx),
        match r {
            Some((in_x, in_y)) => in_x <= 64 && (o.is_affine || !o.vflip ==> in_y <= 0xFFFF) && (
            o.is_affine ==> in_y < 64),
            None => true,
        },
{
    if o.is_affine {
        let cx_draw = (o.draw_width / 2) as i32;
        let cy_draw = (o.draw_height / 2) as i32;
        let x_rel = sx as i32 - cx_draw;
        let y_rel = o.y_in_draw as i32 - cy_draw;
        let sum_x = (o.pa as i32).wrapping_mul(x_rel).wrapping_add((o.pb as i32).wrapping_mul(y_rel));
        let sum_y = (o.pc as i32).wrapping_mul(x_rel).wrapping_add((o.pd as i32).wrapping_mul(y_rel));
        proof {
            assert(-0x80_0000 <= (sum_x >> 8u32) < 0x80_0000 && -0x80_0000 <= (sum_y >> 8u32) < 0x80_0000)
                by (bit_vector);
        }
        let src_x = (sum_x >> 8u32) + (o.width as i32 / 2);
        let src_y = (sum_y >> 8u32) + (o.height as i32 / 2);
        if src_x < 0 || src_y < 0 || src_x >= o.width as i32 || src_y >= o.height as i32 {
            return None;
        }
        Some((src_x as usize, src_y as usize))
    } else {
        let mut x_src = sx;
        let mut y_src = o.y_in_draw;
        if o.hflip {
            x_src = o.width - 1 - x_src;
        }
        if o.vflip {
            y_src = (o.height - 1).wrapping_sub(y_src);
        }
        Some((x_src, y_src))
    }
}

impl Ppu {
    pub open spec fn wf(&self) -> bool {
        self@.framebuffer.len() == SCREEN_PIXELS
    }

    pub fn new() -> (p: Ppu)
        ensures
            p@ == initial_ppu_state(),
            p.wf(),
    {
        let framebuffer = vec![0u32; SCREEN_PIXELS];
        let p = Ppu { scanline_cycles: 0, framebuffer, frame_ready: false };
        assert(p@.framebuffer =~= initial_ppu_state().framebuffer);
        p
    }

    /// Reports whether a frame was completed since the last call, and clears the report.
    pub fn take_frame_ready(&mut self) -> (r: bool)
        ensures
            r == old(self)@.frame_ready,
            final(self)@ == (PpuState { frame_ready: false, ..old(self)@ }),
    {
        let ready = self.frame_ready;
        self.frame_ready = false;
        ready
    }

    pub fn framebuffer(&self) -> (r: &[u32])
        ensures
            r@ == self@.framebuffer,
    {
        self.framebuffer.as_slice()
    }

    fn clear_to_backdrop(
        fb: &mut Vec<u32>,
        bus: &Bus,
        y: usize,
        priority: &mut [u8; SCREEN_WIDTH],
        obj_owner: &mut [bool; SCREEN_WIDTH],
    )
        requires
            y < SCREEN_HEIGHT,
            old(fb)@.len() == SCREEN_PIXELS,
        ensures
            final(fb)@.len() == SCREEN_PIXELS,
            line_of(final(fb)@, *final(priority), *final(obj_owner)) == clear_to_backdrop(
                line_of(old(fb)@, *old(priority), *old(obj_owner)),
                bus@,
                y as int,
            ),
    {
        let row_start = y * SCREEN_WIDTH;
        let backdrop = palette_color_exec(bus, 0);
        let ghost fb0 = fb@;
        let mut i: usize = 0;
        while i < SCREEN_WIDTH
            invariant
                i <= SCREEN_WIDTH,
                row_start == y * SCREEN_WIDTH,
                y < SCREEN_HEIGHT,
                fb0.len() == SCREEN_PIXELS,
                fb@ == Seq::new(
                    fb0.len(),
                    |j: int|
                        if row_start <= j < row_start + i {
                            backdrop
                        } else {
                            fb0[j]
                        },
                ),
                forall|j: int| 0 <= j < i ==> priority@[j] == 4u8,
                forall|j: int| 0 <= j < i ==> obj_owner@[j] == false,
            decreases SCREEN_WIDTH - i,
        {
            fb.set(row_start + i, backdrop);
            priority[i] = 4;
            obj_owner[i] = false;
            i = i + 1;
            assert(fb@ =~= Seq::new(
                fb0.len(),
                |j: int|
                    if row_start <= j < row_start + i {
                        backdrop
                    } else {
                        fb0[j]
                    },
            ));
        }
        assert(priority@ =~= Seq::new(SCREEN_WIDTH as nat, |i: int| 4u8));
        assert(obj_owner@ =~= Seq::new(SCREEN_WIDTH as nat, |i: int| false));
    }

    fn render_bitmap_scanline(
        fb: &mut Vec<u32>,
        bus: &Bus,
        y: usize,
        dispcnt: u16,
        mode: u16,
        priority: &mut [u8; SCREEN_WIDTH],
        obj_owner: &mut [bool; SCREEN_WIDTH],
    )
        requires
            y < SCREEN_HEIGHT,
            3 <= mode <= 5,
            old(fb)@.len() == SCREEN_PIXELS,
        ensures
            final(fb)@.len() == SCREEN_PIXELS,
            line_of(final(fb)@, *final(priority), *final(obj_owner)) == spec_bitmap_scanline(
                line_of(old(fb)@, *old(priority), *old(obj_owner)),
                bus@,
                y as int,
                dispcnt,
                mode,
            ),
    {
        Self::clear_to_backdrop(fb, bus, y, priority, obj_owner);
        if (dispcnt & 0x0400) == 0 {
            return;
        }
        let bg_prio = (bus.read_io16(REG_BG2CNT) & 0x3) as u8;
        // Mode 5 is a 160x128 16bpp bitmap in BG2 only.
        if mode == 5 && y >= 128 {
            return;
        }
        let base: usize = if (dispcnt & 0x0010) != 0 {
            0xA000
        } else {
            0x0000
        };
        let end: usize = if mode == 5 {
            160
        } else {
            SCREEN_WIDTH
        };
        let vram = bus.vram();
        bus.lemma_wf();
        let row_start = y * SCREEN_WIDTH;
        let ghost target = bitmap_from(
            line_of(fb@, *priority, *obj_owner),
            bus@,
            y as int,
            mode,
            bg_prio,
            base as int,
            0,
            end as int,
        );
        let mut x: usize = 0;
        while x < end
            invariant
                x <= end,
                end <= SCREEN_WIDTH,
                end == (if mode == 5 {
                    160usize
                } else {
                    SCREEN_WIDTH
                }),
                3 <= mode <= 5,
                y < SCREEN_HEIGHT,
                mode == 5 ==> y < 128,
                base <= 0xA000,
                row_start == y * SCREEN_WIDTH,
                vram@ == bus@.vram,
                vram@.len() == VRAM_SIZE,
                fb@.len() == SCREEN_PIXELS,
                bitmap_from(
                    line_of(fb@, *priority, *obj_owner),
                    bus@,
                    y as int,
                    mode,
                    bg_prio,
                    base as int,
                    x as int,
                    end as int,
                ) == target,
            decreases end - x,
        {
            if bg_prio <= priority[x] {
                if mode == 3 {
                    let off = (row_start + x) * 2;
                    let color = (vram[off] as u16) | ((vram[off + 1] as u16) << 8u16);
                    fb.set(row_start + x, bgr555_to_argb8888(color));
                    priority[x] = bg_prio;
                    obj_owner[x] = false;
                } else if mode == 4 {
                    let index = vram_byte_exec(vram, base + row_start + x) as usize;
                    let color = palette_color_exec(bus, index);
                    fb.set(row_start + x, color);
                    priority[x] = bg_prio;
                    obj_owner[x] = false;
                } else {
                    let off = base + (y * 160 + x) * 2;
                    if off + 1 < vram.len() {
                        let color = (vram[off] as u16) | ((vram[off + 1] as u16) << 8u16);
                        fb.set(row_start + x, bgr555_to_argb8888(color));
                        priority[x] = bg_prio;
                        obj_owner[x] = false;
                    }
                }
            }
            x = x + 1;
        }
    }

    fn text_pixel(
        fb: &mut Vec<u32>,
        bus: &Bus,
        vram: &[u8],
        y: usize,
        t: &TextBg,
        bg_prio: u8,
        x: usize,
        priority: &mut [u8; SCREEN_WIDTH],
        obj_owner: &mut [bool; SCREEN_WIDTH],
    )
        requires
            y < SCREEN_HEIGHT,
            x < SCREEN_WIDTH,
            text_bg_bounded(*t),
            vram@ == bus@.vram,
            old(fb)@.len() == SCREEN_PIXELS,
        ensures
            final(fb)@.len() == SCREEN_PIXELS,
            line_of(final(fb)@, *final(priority), *final(obj_owner)) == text_pixel(
                line_of(old(fb)@, *old(priority), *old(obj_owner)),
                bus@,
                y as int,
                *t,
                bg_prio,
                x as int,
            ),
    {
        if bg_prio > priority[x] {
            return;
        }
        let row_start = y * SCREEN_WIDTH;
        let map_y = (y + t.vofs) % (t.height_tiles * 8);
        let tile_y = (map_y / 8) % t.height_tiles;
        let in_tile_y = map_y % 8;
        let map_x = (t.hofs + x) % (t.width_tiles * 8);
        let tile_x = (map_x / 8) % t.width_tiles;
        let in_tile_x = map_x % 8;
        let screen_block_x = tile_x / 32;
        let screen_block_y = tile_y / 32;
        assert(screen_block_x <= 1 && screen_block_y <= 1);
        assert(screen_block_y * (t.width_tiles / 32) <= 2) by (nonlinear_arith)
            requires
                screen_block_y <= 1,
                t.width_tiles / 32 <= 2,
        ;
        let screen_block_index = t.map_base_block + screen_block_x + screen_block_y * (t.width_tiles / 32);
        let screen_base = screen_block_index * 0x800;
        let map_index = (tile_y % 32) * 32 + (tile_x % 32);
        let entry_off = screen_base + map_index * 2;
        if entry_off + 1 >= vram.len() {
            fb.set(row_start + x, MISSING_MAP_COLOR);
            return;
        }
        let entry = (vram[entry_off] as u16) | ((vram[entry_off + 1] as u16) << 8u16);
        let tile_id = (entry & 0x03FF) as usize;
        let hflip = (entry & 0x0400) != 0;
        let vflip = (entry & 0x0800) != 0;
        let palette_bank = ((entry >> 12u16) & 0xF) as usize;
        proof {
            assert(entry & 0x03FFu16 <= 0x3FF && (entry >> 12u16) & 0xFu16 <= 15) by (bit_vector);
        }
        let px = if hflip {
            7 - in_tile_x
        } else {
            in_tile_x
        };
        let py = if vflip {
            7 - in_tile_y
        } else {
            in_tile_y
        };
        let color_index: usize = if t.is_8bpp {
            let tile_base = t.char_base_block * 0x4000 + tile_id * 64;
            vram_byte_exec(vram, tile_base + py * 8 + px) as usize
        } else {
            let tile_base = t.char_base_block * 0x4000 + tile_id * 32;
            let byte = vram_byte_exec(vram, tile_base + py * 4 + (px / 2));
            if px % 2 == 0 {
                (byte & 0x0F) as usize
            } else {
                (byte >> 4u8) as usize
            }
        };
        if color_index == 0 {
            return;
        }
        proof {
            assert(color_index <= 255);
        }
        let palette_index = if t.is_8bpp {
            color_index
        } else {
            palette_bank * 16 + color_index
        };
        let color = palette_color_exec(bus, palette_index);
        fb.set(row_start + x, color);
        priority[x] = bg_prio;
        obj_owner[x] = false;
    }

    fn render_text_bg_scanline(
        fb: &mut Vec<u32>,
        bus: &Bus,
        y: usize,
        bg: usize,
        bg_prio: u8,
        priority: &mut [u8; SCREEN_WIDTH],
        obj_owner: &mut [bool; SCREEN_WIDTH],
    )
        requires
            y < SCREEN_HEIGHT,
            old(fb)@.len() == SCREEN_PIXELS,
        ensures
            final(fb)@.len() == SCREEN_PIXELS,
            line_of(final(fb)@, *final(priority), *final(obj_owner)) == spec_text_bg_scanline(
                line_of(old(fb)@, *old(priority), *old(obj_owner)),
                bus@,
                y as int,
                bg as int,
                bg_prio,
            ),
    {
        let t = text_bg_params(bus, bg);
        let vram = bus.vram();
        let ghost target = text_from(
            line_of(fb@, *priority, *obj_owner),
            bus@,
            y as int,
            t,
            bg_prio,
            0,
        );
        let mut x: usize = 0;
        while x < SCREEN_WIDTH
            invariant
                x <= SCREEN_WIDTH,
                y < SCREEN_HEIGHT,
                text_bg_bounded(t),
                vram@ == bus@.vram,
                fb@.len() == SCREEN_PIXELS,
                text_from(line_of(fb@, *priority, *obj_owner), bus@, y as int, t, bg_prio, x as int)
                    == target,
            decreases SCREEN_WIDTH - x,
        {
            Self::text_pixel(fb, bus, vram, y, &t, bg_prio, x, priority, obj_owner);
            x = x + 1;
        }
    }

    fn affine_pixel(
        fb: &mut Vec<u32>,
        bus: &Bus,
        vram: &[u8],
        y: usize,
        a: &AffineBg,
        bg_prio: u8,
        x: usize,
        cur_x: i32,
        cur_y: i32,
        priority: &mut [u8; SCREEN_WIDTH],
        obj_owner: &mut [bool; SCREEN_WIDTH],
    )
        requires
            y < SCREEN_HEIGHT,
            x < SCREEN_WIDTH,
            affine_bg_bounded(*a),
            cur_x == affine_walk(a.start_x, a.pa, x as nat),
            cur_y == affine_walk(a.start_y, a.pc, x as nat),
            vram@ == bus@.vram,
            old(fb)@.len() == SCREEN_PIXELS,
        ensures
            final(fb)@.len() == SCREEN_PIXELS,
            line_of(final(fb)@, *final(priority), *final(obj_owner)) == affine_pixel(
                line_of(old(fb)@, *old(priority), *old(obj_owner)),
                bus@,
                y as int,
                *a,
                bg_prio,
                x as int,
            ),
    {
        if bg_prio > priority[x] {
            return;
        }
        let src_x = cur_x >> 8u32;
        let src_y = cur_y >> 8u32;
        let size = a.bg_size;
        let mask = size - 1;
        let (sx, sy): (usize, usize) = if a.wrap {
            let mx = (src_x as u32) & mask;
            let my = (src_y as u32) & mask;
            proof {
                assert(mx <= mask && my <= mask) by (bit_vector)
                    requires
                        mx == (src_x as u32) & mask,
                        my == (src_y as u32) & mask,
                ;
            }
            (mx as usize, my as usize)
        } else {
            if src_x < 0 || src_y < 0 || src_x >= size as i32 || src_y >= size as i32 {
                return;
            }
            (src_x as usize, src_y as usize)
        };
        assert(sx < 1024 && sy < 1024);
        assert((sy / 8) * ((size as usize) / 8) <= 128 * 128) by (nonlinear_arith)
            requires
                sy < 1024,
                size <= 1024,
        ;
        let tile_off = a.map_base + (sy / 8) * ((size as usize) / 8) + sx / 8;
        if tile_off >= vram.len() {
            return;
        }
        let tile_id = vram[tile_off] as usize;
        let pixel_off = a.char_base + tile_id * 64 + (sy % 8) * 8 + sx % 8;
        if pixel_off >= vram.len() {
            return;
        }
        let color_index = vram[pixel_off];
        if color_index == 0 {
            return;
        }
        let color = palette_color_exec(bus, color_index as usize);
        fb.set(y * SCREEN_WIDTH + x, color);
        priority[x] = bg_prio;
        obj_owner[x] = false;
    }

    fn render_affine_bg_scanline(
        fb: &mut Vec<u32>,
        bus: &Bus,
        y: usize,
        bg: usize,
        bg_prio: u8,
        priority: &mut [u8; SCREEN_WIDTH],
        obj_owner: &mut [bool; SCREEN_WIDTH],
    )
        requires
            y < SCREEN_HEIGHT,
            old(fb)@.len() == SCREEN_PIXELS,
        ensures
            final(fb)@.len() == SCREEN_PIXELS,
            line_of(final(fb)@, *final(priority), *final(obj_owner)) == spec_affine_bg_scanline(
                line_of(old(fb)@, *old(priority), *old(obj_owner)),
                bus@,
                y as int,
                bg as int,
                bg_prio,
            ),
    {
        let a = affine_bg_params(bus, bg, y);
        let vram = bus.vram();
        let ghost target = affine_from(
            line_of(fb@, *priority, *obj_owner),
            bus@,
            y as int,
            a,
            bg_prio,
            0,
        );
        let mut cur_x = a.start_x;
        let mut cur_y = a.start_y;
        let mut x: usize = 0;
        while x < SCREEN_WIDTH
            invariant
                x <= SCREEN_WIDTH,
                y < SCREEN_HEIGHT,
                affine_bg_bounded(a),
                cur_x == affine_walk(a.start_x, a.pa, x as nat),
                cur_y == affine_walk(a.start_y, a.pc, x as nat),
                vram@ == bus@.vram,
                fb@.len() == SCREEN_PIXELS,
                affine_from(line_of(fb@, *priority, *obj_owner), bus@, y as int, a, bg_prio, x as int)
                    == target,
            decreases SCREEN_WIDTH - x,
        {
            Self::affine_pixel(fb, bus, vram, y, &a, bg_prio, x, cur_x, cur_y, priority, obj_owner);
            cur_x = cur_x.wrapping_add(a.pa);
            cur_y = cur_y.wrapping_add(a.pc);
            x = x + 1;
        }
    }

    /// Backdrop, then the background layers of tiled mode `mode` (0, 1 or 2) by priority.
    fn render_tiled_scanline(
        fb: &mut Vec<u32>,
        bus: &Bus,
        y: usize,
        dispcnt: u16,
        mode: u16,
        priority: &mut [u8; SCREEN_WIDTH],
        obj_owner: &mut [bool; SCREEN_WIDTH],
    )
        requires
            y < SCREEN_HEIGHT,
            mode <= 2,
            old(fb)@.len() == SCREEN_PIXELS,
        ensures
            final(fb)@.len() == SCREEN_PIXELS,
            line_of(final(fb)@, *final(priority), *final(obj_owner)) == spec_tiled_scanline(
                line_of(old(fb)@, *old(priority), *old(obj_owner)),
                bus@,
                y as int,
                dispcnt,
                mode,
            ),
    {
        Self::clear_to_backdrop(fb, bus, y, priority, obj_owner);
        let ghost target = tiled_layers_from(
            line_of(fb@, *priority, *obj_owner),
            bus@,
            y as int,
            dispcnt,
            mode,
            0,
        );
        let mut k: usize = 0;
        while k < 16
            invariant
                k <= 16,
                y < SCREEN_HEIGHT,
                mode <= 2,
                fb@.len() == SCREEN_PIXELS,
                tiled_layers_from(line_of(fb@, *priority, *obj_owner), bus@, y as int, dispcnt, mode, k as int)
                    == target,
            decreases 16 - k,
        {
            let p = k / 4;
            let bg = k % 4;
            let present = if mode == 0 {
                true
            } else if mode == 1 {
                bg <= 2
            } else {
                bg >= 2
            };
            if present && (dispcnt >> ((8 + bg) as u16)) & 1 != 0 && (bus.read_io16(bg_cnt_addr(bg)) & 0x3)
                == p as u16 {
                if mode == 0 || (mode == 1 && bg < 2) {
                    Self::render_text_bg_scanline(fb, bus, y, bg, p as u8, priority, obj_owner);
                } else {
                    Self::render_affine_bg_scanline(fb, bus, y, bg, p as u8, priority, obj_owner);
                }
            }
            k = k + 1;
        }
    }

    fn obj_pixel(
        fb: &mut Vec<u32>,
        bus: &Bus,
        vram: &[u8],
        y: usize,
        o: &ObjAttrs,
        sx: usize,
        priority: &mut [u8; SCREEN_WIDTH],
        obj_owner: &mut [bool; SCREEN_WIDTH],
    )
        requires
            y < SCREEN_HEIGHT,
            sx < o.draw_width,
            o.draw_width <= 128,
            o.draw_height <= 128,
            o.width <= 64,
            o.height <= 64,
            o.width >= 8,
            o.height >= 8,
            o.y_in_draw <= 0xFFFF,
            o.tile_index <= 0x3FF,
            o.row_units <= 32,
            o.palette_bank <= 15,
            !o.is_affine ==> o.draw_width == o.width,
            vram@ == bus@.vram,
            old(fb)@.len() == SCREEN_PIXELS,
        ensures
            final(fb)@.len() == SCREEN_PIXELS,
            line_of(final(fb)@, *final(priority), *final(obj_owner)) == obj_pixel(
                line_of(old(fb)@, *old(priority), *old(obj_owner)),
                bus@,
                y as int,
                *o,
                sx,
            ),
    {
        let screen_x = o.obj_x as usize + sx;
        if screen_x >= SCREEN_WIDTH {
            return;
        }
        let (in_x, in_y) = match obj_source_exec(o, sx) {
            Some(v) => v,
            None => {
                return;
            },
        };
        let units_per_tile: usize = if o.is_8bpp {
            2
        } else {
            1
        };
        let tile_units = o.tile_index.wrapping_add((in_y / 8).wrapping_mul(o.row_units)).wrapping_add(
            (in_x / 8).wrapping_mul(units_per_tile),
        );
        let tile_base = 0x1_0000usize.wrapping_add(tile_units.wrapping_mul(32));
        let pixel_x = in_x % 8;
        let pixel_y = in_y % 8;
        let color_index: usize = if o.is_8bpp {
            vram_byte_exec(vram, tile_base.wrapping_add(pixel_y * 8 + pixel_x)) as usize
        } else {
            let byte = vram_byte_exec(vram, tile_base.wrapping_add(pixel_y * 4 + pixel_x / 2));
            proof {
                assert(byte & 0x0Fu8 <= 15 && byte >> 4u8 <= 15) by (bit_vector);
            }
            if pixel_x % 2 == 0 {
                (byte & 0x0F) as usize
            } else {
                (byte >> 4u8) as usize
            }
        };
        assert(color_index <= 255 && (!o.is_8bpp ==> color_index <= 15));
        if color_index == 0 {
            return;
        }
        let px = screen_x;
        let can_draw = o.obj_prio < priority[px] || (o.obj_prio == priority[px] && !obj_owner[px]);
        if !can_draw {
            return;
        }
        let palette_index = if o.is_8bpp {
            0x100 + color_index
        } else {
            0x100 + o.palette_bank * 16 + color_index
        };
        let color = palette_color_exec(bus, palette_index);
        fb.set(y * SCREEN_WIDTH + px, color);
        priority[px] = o.obj_prio;
        obj_owner[px] = true;
    }

    /// Sprites 0 to 127 drawn over the scanline in order.
    fn render_obj_scanline(
        fb: &mut Vec<u32>,
        bus: &Bus,
        y: usize,
        dispcnt: u16,
        priority: &mut [u8; SCREEN_WIDTH],
        obj_owner: &mut [bool; SCREEN_WIDTH],
    )
        requires
            y < SCREEN_HEIGHT,
            old(fb)@.len() == SCREEN_PIXELS,
        ensures
            final(fb)@.len() == SCREEN_PIXELS,
            line_of(final(fb)@, *final(priority), *final(obj_owner)) == objs_from(
                line_of(old(fb)@, *old(priority), *old(obj_owner)),
                bus@,
                y as int,
                dispcnt,
                0,
            ),
    {
        let vram = bus.vram();
        let ghost target = objs_from(line_of(fb@, *priority, *obj_owner), bus@, y as int, dispcnt, 0);
        let mut obj: usize = 0;
        while obj < 128
            invariant
                obj <= 128,
                y < SCREEN_HEIGHT,
                vram@ == bus@.vram,
                fb@.len() == SCREEN_PIXELS,
                objs_from(line_of(fb@, *priority, *obj_owner), bus@, y as int, dispcnt, obj as int)
                    == target,
            decreases 128 - obj,
        {
            match obj_attrs(bus, y, dispcnt, obj) {
                Some(o) => {
                    let ghost after = obj_columns_from(
                        line_of(fb@, *priority, *obj_owner),
                        bus@,
                        y as int,
                        o,
                        0,
                    );
                    let mut sx: usize = 0;
                    while sx < o.draw_width
                        invariant
                            sx <= o.draw_width,
                            y < SCREEN_HEIGHT,
                            o.draw_width <= 128,
                            o.draw_height <= 128,
                            o.width <= 64,
                            o.height <= 64,
                            o.width >= 8,
                            o.height >= 8,
                            o.y_in_draw <= 0xFFFF,
                            o.tile_index <= 0x3FF,
                            o.row_units <= 32,
                            o.palette_bank <= 15,
                            !o.is_affine ==> o.draw_width == o.width,
                            vram@ == bus@.vram,
                            fb@.len() == SCREEN_PIXELS,
                            obj_columns_from(line_of(fb@, *priority, *obj_owner), bus@, y as int, o, sx as int)
                                == after,
                        decreases o.draw_width - sx,
                    {
                        Self::obj_pixel(fb, bus, vram, y, &o, sx, priority, obj_owner);
                        sx = sx + 1;
                    }
                },
                None => {},
            }
            obj = obj + 1;
        }
    }

    fn clear_scanline(fb: &mut Vec<u32>, y: usize)
        requires
            y < SCREEN_HEIGHT,
            old(fb)@.len() == SCREEN_PIXELS,
        ensures
            final(fb)@ == Seq::new(
                SCREEN_PIXELS as nat,
                |i: int|
                    if y * SCREEN_WIDTH <= i < y * SCREEN_WIDTH + SCREEN_WIDTH {
                        INVALID_MODE_COLOR
                    } else {
                        old(fb)@[i]
                    },
            ),
    {
        let row_start = y * SCREEN_WIDTH;
        let ghost fb0 = fb@;
        let mut i: usize = 0;
        while i < SCREEN_WIDTH
            invariant
                i <= SCREEN_WIDTH,
                y < SCREEN_HEIGHT,
                row_start == y * SCREEN_WIDTH,
                fb0.len() == SCREEN_PIXELS,
                fb@ == Seq::new(
                    fb0.len(),
                    |j: int|
                        if row_start <= j < row_start + i {
                            INVALID_MODE_COLOR
                        } else {
                            fb0[j]
                        },
                ),
            decreases SCREEN_WIDTH - i,
        {
            fb.set(row_start + i, INVALID_MODE_COLOR);
            i = i + 1;
            assert(fb@ =~= Seq::new(
                fb0.len(),
                |j: int|
                    if row_start <= j < row_start + i {
                        INVALID_MODE_COLOR
                    } else {
                        fb0[j]
                    },
            ));
        }
    }

    fn render_scanline(&mut self, bus: &Bus, y: usize)
        requires
            y < SCREEN_HEIGHT,
            old(self).framebuffer@.len() == SCREEN_PIXELS,
        ensures
            final(self).framebuffer@.len() == SCREEN_PIXELS,
            final(self).framebuffer@ == spec_render_line(old(self).framebuffer@, bus@, y as int),
            final(self).scanline_cycles == old(self).scanline_cycles,
            final(self).frame_ready == old(self).frame_ready,
    {
        let dispcnt = bus.read_io16(REG_DISPCNT);
        let mode = dispcnt & 0x7;
        let mut priority = [4u8; SCREEN_WIDTH];
        let mut obj_owner = [false; SCREEN_WIDTH];
        let ghost ls0 = line_of(self.framebuffer@, priority, obj_owner);
        assert(ls0 =~= LineState {
            fb: self.framebuffer@,
            prio: Seq::new(SCREEN_WIDTH as nat, |i: int| 4u8),
            owner: Seq::new(SCREEN_WIDTH as nat, |i: int| false),
        });
        if mode <= 2 {
            Self::render_tiled_scanline(&mut self.framebuffer, bus, y, dispcnt, mode, &mut priority, &mut obj_owner);
        } else if mode <= 5 {
            Self::render_bitmap_scanline(&mut self.framebuffer, bus, y, dispcnt, mode, &mut priority, &mut obj_owner);
        } else {
            Self::clear_scanline(&mut self.framebuffer, y);
            assert(line_of(self.framebuffer@, priority, obj_owner) =~= LineState {
                fb: Seq::new(
                    ls0.fb.len(),
                    |i: int|
                        if y * SCREEN_WIDTH <= i < y * SCREEN_WIDTH + SCREEN_WIDTH {
                            INVALID_MODE_COLOR
                        } else {
                            ls0.fb[i]
                        },
                ),
                ..ls0
            });
        }
        if (dispcnt & 0x1000) != 0 {
            Self::render_obj_scanline(&mut self.framebuffer, bus, y, dispcnt, &mut priority, &mut obj_owner);
        }
    }

    /// Sets or clears the VBlank flag; entering VBlank also starts VBlank DMA and
    /// raises the VBlank interrupt.
    fn set_vblank(&self, bus: &mut Bus, state: bool)
        ensures
            final(bus)@ == spec_set_vblank(old(bus)@, state),
    {
        let mut dispstat = bus.read_io16(REG_DISPSTAT);
        if state {
            dispstat = dispstat | 1;
            if !bus.has_bios() {
                // Without BIOS, startup code of some titles waits on this heartbeat byte
                // that their interrupt callback would refresh.
                bus.write8(0x0300_22B4, 1);
            }
            // Start VBlank-timed DMA channels (start timing 01).
            bus.trigger_dma_timing(0x1);
            bus.request_interrupt(IRQ_VBLANK);
        } else {
            dispstat = dispstat & !1u16;
        }
        bus.write_io16(REG_DISPSTAT, dispstat);
    }

    /// Advances the scanline clock by `cycles`: every elapsed scanline is rendered
    /// (while visible and `render_video`), VCOUNT advances, and VBlank is entered at
    /// line 160 (completing a frame) and left at line 0.
    pub fn tick(&mut self, cycles: u32, bus: &mut Bus, render_video: bool)
        requires
            old(self).wf(),
        ensures
            final(self).wf(),
            (final(self)@, final(bus)@) == spec_ppu_tick(old(self)@, old(bus)@, cycles, render_video),
    {
        self.scanline_cycles = self.scanline_cycles.wrapping_add(cycles);
        let ghost target = spec_tick_lines(self@, bus@, render_video, self.scanline_cycles);
        assert(target == spec_ppu_tick(old(self)@, old(bus)@, cycles, render_video));
        while self.scanline_cycles >= SCANLINE_CYCLES
            invariant
                self.wf(),
                spec_tick_lines(self@, bus@, render_video, self.scanline_cycles) == target,
            decreases self.scanline_cycles,
        {
            self.scanline_cycles = self.scanline_cycles - SCANLINE_CYCLES;
            let mut vcount = bus.read_io16(REG_VCOUNT);
            if render_video && vcount < VISIBLE_SCANLINES {
                self.render_scanline(bus, vcount as usize);
            }
            vcount = vcount.wrapping_add(1) % TOTAL_SCANLINES;
            bus.set_vcount(vcount);
            if vcount == VISIBLE_SCANLINES {
                self.set_vblank(bus, true);
                self.frame_ready = true;
            } else if vcount == 0 {
                self.set_vblank(bus, false);
            }
        }
    }
}

} // verus!
