//! Properties of scanline rendering and of the scanline clock.
use vstd::prelude::*;
use crate::bus::BusState;
use crate::ppu::{palette_color, vram_byte};
use crate::ppu::{
    affine_from, affine_pixel, bitmap_from, clear_to_backdrop, mode3_pixel, mode4_pixel, mode5_pixel,
    obj_columns_from, obj_pixel, objs_from, spec_affine_bg, spec_obj_attrs, spec_render_line,
    spec_render_scanline, spec_text_bg, spec_tick_lines, text_from, text_pixel, tiled_layers_from,
    AffineBg, LineState, ObjAttrs, PpuState, TextBg, SCREEN_HEIGHT, SCREEN_WIDTH, SCREEN_PIXELS,
    spec_set_vblank, SCANLINE_CYCLES, TOTAL_SCANLINES, VISIBLE_SCANLINES,
};
use crate::bus::{
    io_store16, lemma_io16_after_store, spec_read16, spec_request_interrupt, spec_trigger_dma_from, spec_write8,
    DMA_NEST_LIMIT, IO_SIZE, IRQ_VBLANK, REG_DISPSTAT, REG_VCOUNT,
};
use crate::bus_laws::{
    lemma_request_interrupt_keeps_vcount, lemma_trigger_dma_keeps_vcount, lemma_write16_keeps_vcount,
    lemma_write8_keeps_vcount, vcount_kept,
};

verus! {

/// `a` and `b` agree everywhere but on screen row `y`.
pub open spec fn same_outside_row(a: Seq<u32>, b: Seq<u32>, y: int) -> bool {
    &&& a.len() == b.len()
    &&& forall|i: int|
        0 <= i < a.len() && !(y * SCREEN_WIDTH <= i < y * SCREEN_WIDTH + SCREEN_WIDTH) ==> #[trigger] a[i]
            == b[i]
}

proof fn lemma_same_trans(a: Seq<u32>, b: Seq<u32>, c: Seq<u32>, y: int)
    requires
        same_outside_row(a, b, y),
        same_outside_row(b, c, y),
    ensures
        same_outside_row(a, c, y),
{
    assert forall|i: int|
        0 <= i < a.len() && !(y * SCREEN_WIDTH <= i < y * SCREEN_WIDTH + SCREEN_WIDTH) implies #[trigger] a[i]
        == c[i] by {
        assert(a[i] == b[i]);
    }
}

proof fn lemma_draw_pixel_row(ls: LineState, y: int, x: int, color: u32, prio: u8, owner: bool)
    requires
        0 <= x < SCREEN_WIDTH,
        ls.prio.len() == SCREEN_WIDTH,
        ls.fb.len() == SCREEN_PIXELS,
        0 <= y < SCREEN_HEIGHT,
    ensures
        same_outside_row(crate::ppu::draw_pixel(ls, y * SCREEN_WIDTH, x, color, prio, owner).fb, ls.fb, y),
        crate::ppu::draw_pixel(ls, y * SCREEN_WIDTH, x, color, prio, owner).prio.len() == ls.prio.len(),
{
}

proof fn lemma_update_row(fb: Seq<u32>, y: int, x: int, color: u32)
    requires
        0 <= x < SCREEN_WIDTH,
        fb.len() == SCREEN_PIXELS,
        0 <= y < SCREEN_HEIGHT,
    ensures
        same_outside_row(fb.update(y * SCREEN_WIDTH + x, color), fb, y),
{
}

proof fn lemma_bitmap_from_row(ls: LineState, b: BusState, y: int, mode: u16, p: u8, base: int, x: int, end: int)
    requires
        0 <= x,
        end <= SCREEN_WIDTH,
        ls.prio.len() == SCREEN_WIDTH,
        ls.fb.len() == SCREEN_PIXELS,
        0 <= y < SCREEN_HEIGHT,
    ensures
        same_outside_row(bitmap_from(ls, b, y, mode, p, base, x, end).fb, ls.fb, y),
        bitmap_from(ls, b, y, mode, p, base, x, end).prio.len() == SCREEN_WIDTH,
    decreases end - x,
{
    if x < end {
        let ls1 = if mode == 3 {
            mode3_pixel(ls, b, y, p, x)
        } else if mode == 4 {
            mode4_pixel(ls, b, y, p, base, x)
        } else {
            mode5_pixel(ls, b, y, p, base, x)
        };
        if mode == 3 {
            let off = (y * SCREEN_WIDTH + x) * 2;
            let color = (b.vram[off] as u16) | ((b.vram[off + 1] as u16) << 8u16);
            lemma_draw_pixel_row(ls, y, x, crate::ppu::spec_bgr555_to_argb8888(color), p, false);
        } else if mode == 4 {
            let index = crate::ppu::vram_byte(b, base + y * SCREEN_WIDTH + x);
            lemma_draw_pixel_row(ls, y, x, crate::ppu::palette_color(b, index as int), p, false);
        } else {
            let off = base + (y * 160 + x) * 2;
            let color = (b.vram[off] as u16) | ((b.vram[off + 1] as u16) << 8u16);
            lemma_draw_pixel_row(ls, y, x, crate::ppu::spec_bgr555_to_argb8888(color), p, false);
        }
        assert(same_outside_row(ls1.fb, ls.fb, y));
        lemma_bitmap_from_row(ls1, b, y, mode, p, base, x + 1, end);
        lemma_same_trans(bitmap_from(ls, b, y, mode, p, base, x, end).fb, ls1.fb, ls.fb, y);
    }
}

proof fn lemma_text_pixel_row(ls: LineState, b: BusState, y: int, t: TextBg, p: u8, x: int)
    requires
        0 <= x < SCREEN_WIDTH,
        ls.prio.len() == SCREEN_WIDTH,
        ls.fb.len() == SCREEN_PIXELS,
        0 <= y < SCREEN_HEIGHT,
    ensures
        same_outside_row(text_pixel(ls, b, y, t, p, x).fb, ls.fb, y),
        text_pixel(ls, b, y, t, p, x).prio.len() == SCREEN_WIDTH,
{
    assert forall|color: u32, pr: u8, ow: bool| true implies same_outside_row(
        #[trigger] crate::ppu::draw_pixel(ls, y * SCREEN_WIDTH, x, color, pr, ow).fb,
        ls.fb,
        y,
    ) by {
        lemma_draw_pixel_row(ls, y, x, color, pr, ow);
    }
    lemma_update_row(ls.fb, y, x, crate::ppu::MISSING_MAP_COLOR);
}

proof fn lemma_affine_pixel_row(ls: LineState, b: BusState, y: int, a: AffineBg, p: u8, x: int)
    requires
        0 <= x < SCREEN_WIDTH,
        ls.prio.len() == SCREEN_WIDTH,
        ls.fb.len() == SCREEN_PIXELS,
        0 <= y < SCREEN_HEIGHT,
    ensures
        same_outside_row(affine_pixel(ls, b, y, a, p, x).fb, ls.fb, y),
        affine_pixel(ls, b, y, a, p, x).prio.len() == SCREEN_WIDTH,
{
    assert forall|color: u32, pr: u8, ow: bool| true implies same_outside_row(
        #[trigger] crate::ppu::draw_pixel(ls, y * SCREEN_WIDTH, x, color, pr, ow).fb,
        ls.fb,
        y,
    ) by {
        lemma_draw_pixel_row(ls, y, x, color, pr, ow);
    }
}

proof fn lemma_obj_pixel_row(ls: LineState, b: BusState, y: int, o: ObjAttrs, sx: usize)
    requires
        ls.prio.len() == SCREEN_WIDTH,
        ls.fb.len() == SCREEN_PIXELS,
        0 <= y < SCREEN_HEIGHT,
    ensures
        same_outside_row(obj_pixel(ls, b, y, o, sx).fb, ls.fb, y),
        obj_pixel(ls, b, y, o, sx).prio.len() == SCREEN_WIDTH,
{
    let px = o.obj_x as int + sx as int;
    if 0 <= px < SCREEN_WIDTH {
        assert forall|color: u32, pr: u8, ow: bool| true implies same_outside_row(
            #[trigger] crate::ppu::draw_pixel(ls, y * SCREEN_WIDTH, px, color, pr, ow).fb,
            ls.fb,
            y,
        ) by {
            lemma_draw_pixel_row(ls, y, px, color, pr, ow);
        }
    }
}

proof fn lemma_text_from_row(ls: LineState, b: BusState, y: int, t: TextBg, p: u8, x: int)
    requires
        0 <= x,
        ls.prio.len() == SCREEN_WIDTH,
        ls.fb.len() == SCREEN_PIXELS,
        0 <= y < SCREEN_HEIGHT,
    ensures
        same_outside_row(text_from(ls, b, y, t, p, x).fb, ls.fb, y),
        text_from(ls, b, y, t, p, x).prio.len() == SCREEN_WIDTH,
    decreases SCREEN_WIDTH - x,
{
    if x < SCREEN_WIDTH {
        let ls1 = text_pixel(ls, b, y, t, p, x);
        lemma_text_pixel_row(ls, b, y, t, p, x);
        lemma_text_from_row(ls1, b, y, t, p, x + 1);
        lemma_same_trans(text_from(ls, b, y, t, p, x).fb, ls1.fb, ls.fb, y);
    }
}

proof fn lemma_affine_from_row(ls: LineState, b: BusState, y: int, a: AffineBg, p: u8, x: int)
    requires
        0 <= x,
        ls.prio.len() == SCREEN_WIDTH,
        ls.fb.len() == SCREEN_PIXELS,
        0 <= y < SCREEN_HEIGHT,
    ensures
        same_outside_row(affine_from(ls, b, y, a, p, x).fb, ls.fb, y),
        affine_from(ls, b, y, a, p, x).prio.len() == SCREEN_WIDTH,
    decreases SCREEN_WIDTH - x,
{
    if x < SCREEN_WIDTH {
        let ls1 = affine_pixel(ls, b, y, a, p, x);
        lemma_affine_pixel_row(ls, b, y, a, p, x);
        lemma_affine_from_row(ls1, b, y, a, p, x + 1);
        lemma_same_trans(affine_from(ls, b, y, a, p, x).fb, ls1.fb, ls.fb, y);
    }
}

proof fn lemma_tiled_from_row(ls: LineState, b: BusState, y: int, dispcnt: u16, mode: u16, k: int)
    requires
        ls.prio.len() == SCREEN_WIDTH,
        ls.fb.len() == SCREEN_PIXELS,
        0 <= y < SCREEN_HEIGHT,
    ensures
        same_outside_row(tiled_layers_from(ls, b, y, dispcnt, mode, k).fb, ls.fb, y),
        tiled_layers_from(ls, b, y, dispcnt, mode, k).prio.len() == SCREEN_WIDTH,
    decreases 16 - k,
{
    if 0 <= k < 16 {
        let bg = k % 4;
        let p = (k / 4) as u8;
        lemma_text_from_row(ls, b, y, spec_text_bg(b, bg), p, 0);
        lemma_affine_from_row(ls, b, y, spec_affine_bg(b, bg, y), p, 0);
        let ls1 = tiled_layers_from(ls, b, y, dispcnt, mode, k + 1);
        let present = if mode == 0 {
            true
        } else if mode == 1 {
            bg <= 2
        } else {
            bg >= 2
        };
        let lsk = if present && crate::ppu::bg_enabled(dispcnt, bg) && crate::ppu::bg_priority(b, bg)
            == k / 4 {
            if mode == 0 || (mode == 1 && bg < 2) {
                crate::ppu::spec_text_bg_scanline(ls, b, y, bg, p)
            } else {
                crate::ppu::spec_affine_bg_scanline(ls, b, y, bg, p)
            }
        } else {
            ls
        };
        lemma_tiled_from_row(lsk, b, y, dispcnt, mode, k + 1);
        lemma_same_trans(tiled_layers_from(ls, b, y, dispcnt, mode, k).fb, lsk.fb, ls.fb, y);
    }
}

proof fn lemma_obj_columns_row(ls: LineState, b: BusState, y: int, o: ObjAttrs, sx: int)
    requires
        ls.prio.len() == SCREEN_WIDTH,
        ls.fb.len() == SCREEN_PIXELS,
        0 <= y < SCREEN_HEIGHT,
    ensures
        same_outside_row(obj_columns_from(ls, b, y, o, sx).fb, ls.fb, y),
        obj_columns_from(ls, b, y, o, sx).prio.len() == SCREEN_WIDTH,
    decreases o.draw_width - sx,
{
    if 0 <= sx < o.draw_width {
        let ls1 = obj_pixel(ls, b, y, o, sx as usize);
        lemma_obj_pixel_row(ls, b, y, o, sx as usize);
        lemma_obj_columns_row(ls1, b, y, o, sx + 1);
        lemma_same_trans(obj_columns_from(ls, b, y, o, sx).fb, ls1.fb, ls.fb, y);
    }
}

proof fn lemma_objs_row(ls: LineState, b: BusState, y: int, dispcnt: u16, obj: int)
    requires
        ls.prio.len() == SCREEN_WIDTH,
        ls.fb.len() == SCREEN_PIXELS,
        0 <= y < SCREEN_HEIGHT,
    ensures
        same_outside_row(objs_from(ls, b, y, dispcnt, obj).fb, ls.fb, y),
        objs_from(ls, b, y, dispcnt, obj).prio.len() == SCREEN_WIDTH,
    decreases 128 - obj,
{
    if 0 <= obj < 128 {
        let ls1 = match spec_obj_attrs(b, y, dispcnt, obj) {
            Some(o) => {
                lemma_obj_columns_row(ls, b, y, o, 0);
                obj_columns_from(ls, b, y, o, 0)
            },
            None => ls,
        };
        lemma_objs_row(ls1, b, y, dispcnt, obj + 1);
        lemma_same_trans(objs_from(ls, b, y, dispcnt, obj).fb, ls1.fb, ls.fb, y);
    }
}

/// Rendering scanline `y` changes no pixel outside row `y` of the picture.
pub proof fn law_render_line_stays_in_row(fb: Seq<u32>, b: BusState, y: int)
    requires
        fb.len() == SCREEN_PIXELS,
        0 <= y < SCREEN_HEIGHT,
    ensures
        same_outside_row(spec_render_line(fb, b, y), fb, y),
{
    let ls = LineState {
        fb,
        prio: Seq::new(SCREEN_WIDTH as nat, |i: int| 4u8),
        owner: Seq::new(SCREEN_WIDTH as nat, |i: int| false),
    };
    let dispcnt = crate::bus::spec_read16(b, crate::bus::REG_DISPCNT);
    let mode = dispcnt & 0x7;
    let cleared = clear_to_backdrop(ls, b, y);
    assert(same_outside_row(cleared.fb, fb, y));
    let ls1 = if mode <= 2 {
        lemma_tiled_from_row(cleared, b, y, dispcnt, mode, 0);
        lemma_same_trans(tiled_layers_from(cleared, b, y, dispcnt, mode, 0).fb, cleared.fb, fb, y);
        crate::ppu::spec_tiled_scanline(ls, b, y, dispcnt, mode)
    } else if mode <= 5 {
        let end: int = if mode == 5 {
            160
        } else {
            SCREEN_WIDTH as int
        };
        lemma_bitmap_from_row(cleared, b, y, mode, crate::ppu::bg2_priority(b), crate::ppu::frame_base(dispcnt), 0, end);
        lemma_same_trans(
            bitmap_from(cleared, b, y, mode, crate::ppu::bg2_priority(b), crate::ppu::frame_base(dispcnt), 0, end).fb,
            cleared.fb,
            fb,
            y,
        );
        crate::ppu::spec_bitmap_scanline(ls, b, y, dispcnt, mode)
    } else {
        let r = LineState {
            fb: Seq::new(
                ls.fb.len(),
                |i: int|
                    if y * SCREEN_WIDTH <= i < y * SCREEN_WIDTH + SCREEN_WIDTH {
                        crate::ppu::INVALID_MODE_COLOR
                    } else {
                        ls.fb[i]
                    },
            ),
            ..ls
        };
        assert(same_outside_row(r.fb, fb, y));
        r
    };
    assert(same_outside_row(ls1.fb, fb, y));
    assert(ls1.prio.len() == SCREEN_WIDTH);
    if (dispcnt & 0x1000) != 0 {
        lemma_objs_row(ls1, b, y, dispcnt, 0);
        lemma_same_trans(objs_from(ls1, b, y, dispcnt, 0).fb, ls1.fb, fb, y);
    }
    assert(spec_render_line(fb, b, y) == spec_render_scanline(ls, b, y).fb);
}

/// Without rendering, the scanline clock never changes the picture.
pub proof fn law_headless_tick_keeps_picture(p: PpuState, b: BusState, cycles: u32)
    ensures
        spec_tick_lines(p, b, false, cycles).0.framebuffer == p.framebuffer,
    decreases cycles,
{
    if cycles >= crate::ppu::SCANLINE_CYCLES {
        let rest = (cycles - crate::ppu::SCANLINE_CYCLES) as u32;
        let vcount = crate::bus::spec_read16(b, crate::bus::REG_VCOUNT);
        let next = vcount.wrapping_add(1) % crate::ppu::TOTAL_SCANLINES;
        let b1 = crate::bus::io_store16(b, crate::bus::REG_VCOUNT, next);
        let (b2, ready) = if next == crate::ppu::VISIBLE_SCANLINES {
            (crate::ppu::spec_set_vblank(b1, true), true)
        } else if next == 0 {
            (crate::ppu::spec_set_vblank(b1, false), p.frame_ready)
        } else {
            (b1, p.frame_ready)
        };
        law_headless_tick_keeps_picture(
            PpuState { scanline_cycles: rest, framebuffer: p.framebuffer, frame_ready: ready },
            b2,
            rest,
        );
    }
}


/// Scanlines from line `v` until VBlank is entered, that is until VCOUNT next becomes 160.
pub open spec fn lines_to_vblank(v: int) -> int {
    if v < VISIBLE_SCANLINES {
        VISIBLE_SCANLINES - v
    } else {
        TOTAL_SCANLINES - v + VISIBLE_SCANLINES
    }
}

proof fn lemma_set_vblank_keeps_vcount(b: BusState, state: bool)
    requires
        b.io.len() == IO_SIZE,
    ensures
        vcount_kept(b, spec_set_vblank(b, state)),
{
    let dispstat = spec_read16(b, REG_DISPSTAT);
    if state {
        let b1 = if !b.bios_loaded {
            lemma_write8_keeps_vcount(b, 0x0300_22B4, 1);
            spec_write8(b, 0x0300_22B4, 1)
        } else {
            b
        };
        let b2 = spec_trigger_dma_from(b1, 1, 0);
        lemma_trigger_dma_keeps_vcount(b1, 1, 0);
        let b3 = spec_request_interrupt(b2, IRQ_VBLANK);
        lemma_request_interrupt_keeps_vcount(b2, IRQ_VBLANK);
        lemma_write16_keeps_vcount(b3, REG_DISPSTAT, dispstat | 1, DMA_NEST_LIMIT as nat);
    } else {
        lemma_write16_keeps_vcount(b, REG_DISPSTAT, dispstat & !1u16, DMA_NEST_LIMIT as nat);
    }
}

/// The scanline clock on any bus whose register file has its size (see
/// `law_scanline_clock`); the register file keeps its size.
#[verifier::spinoff_prover]
pub proof fn lemma_scanline_clock(p: PpuState, b: BusState, render_video: bool, cycles: u32)
    requires
        b.io.len() == IO_SIZE,
        spec_read16(b, REG_VCOUNT) < TOTAL_SCANLINES,
    ensures
        ({
            let (p2, b2) = spec_tick_lines(p, b, render_video, cycles);
            let v = spec_read16(b, REG_VCOUNT) as int;
            let lines = cycles / SCANLINE_CYCLES;
            &&& spec_read16(b2, REG_VCOUNT) == (v + lines) % (TOTAL_SCANLINES as int)
            &&& p2.scanline_cycles == cycles % SCANLINE_CYCLES
            &&& p2.frame_ready == (p.frame_ready || lines >= lines_to_vblank(v))
            &&& b2.io.len() == IO_SIZE
        }),
    decreases cycles,
{
    let v = spec_read16(b, REG_VCOUNT);
    if cycles >= SCANLINE_CYCLES {
        let rest = (cycles - SCANLINE_CYCLES) as u32;
        let fb = if render_video && v < VISIBLE_SCANLINES {
            spec_render_line(p.framebuffer, b, v as int)
        } else {
            p.framebuffer
        };
        let next = v.wrapping_add(1) % TOTAL_SCANLINES;
        let b1 = io_store16(b, REG_VCOUNT, next);
        lemma_io16_after_store(b, REG_VCOUNT, next);
        assert(spec_read16(b1, REG_VCOUNT) == next);
        let (b2, ready) = if next == VISIBLE_SCANLINES {
            lemma_set_vblank_keeps_vcount(b1, true);
            (spec_set_vblank(b1, true), true)
        } else if next == 0 {
            lemma_set_vblank_keeps_vcount(b1, false);
            (spec_set_vblank(b1, false), p.frame_ready)
        } else {
            (b1, p.frame_ready)
        };
        assert(spec_read16(b2, REG_VCOUNT) == next);
        let p1 = PpuState { scanline_cycles: rest, framebuffer: fb, frame_ready: ready };
        lemma_scanline_clock(p1, b2, render_video, rest);
        lemma_scanline_arith(v as int, cycles);
    }
}

proof fn lemma_scanline_arith(v: int, cycles: u32)
    requires
        0 <= v < TOTAL_SCANLINES,
        cycles >= SCANLINE_CYCLES,
    ensures
        ({
            let rest = (cycles - SCANLINE_CYCLES) as u32;
            let lines = cycles / SCANLINE_CYCLES;
            let next = (v + 1) % (TOTAL_SCANLINES as int);
            &&& rest / SCANLINE_CYCLES == lines - 1
            &&& rest % SCANLINE_CYCLES == cycles % SCANLINE_CYCLES
            &&& (next + (lines - 1)) % (TOTAL_SCANLINES as int) == (v + lines) % (TOTAL_SCANLINES as int)
            &&& (next == VISIBLE_SCANLINES ==> lines_to_vblank(v) == 1)
            &&& (next != VISIBLE_SCANLINES ==> lines_to_vblank(v) == lines_to_vblank(next) + 1)
        }),
{
    let lines = cycles / SCANLINE_CYCLES;
    if v + 1 == TOTAL_SCANLINES {
        assert(v + lines == (lines - 1) + TOTAL_SCANLINES);
    }
}

/// The scanline clock: every whole scanline of cycles advances VCOUNT by one line,
/// wrapping after line 227, the leftover cycles stay for the next tick, and a frame
/// is reported ready once VBlank (line 160) has been entered.
pub proof fn law_scanline_clock(p: PpuState, b: BusState, render_video: bool, cycles: u32)
    requires
        b.wf(),
        spec_read16(b, REG_VCOUNT) < TOTAL_SCANLINES,
    ensures
        ({
            let (p2, b2) = spec_tick_lines(p, b, render_video, cycles);
            let v = spec_read16(b, REG_VCOUNT) as int;
            let lines = cycles / SCANLINE_CYCLES;
            &&& spec_read16(b2, REG_VCOUNT) == (v + lines) % (TOTAL_SCANLINES as int)
            &&& p2.scanline_cycles == cycles % SCANLINE_CYCLES
            &&& p2.frame_ready == (p.frame_ready || lines >= lines_to_vblank(v))
        }),
{
    lemma_scanline_clock(p, b, render_video, cycles);
}

/// One frame period (228 scanlines) from any line always completes a frame and
/// brings VCOUNT back to the line it started on.
pub proof fn law_frame_period(p: PpuState, b: BusState, render_video: bool)
    requires
        b.wf(),
        spec_read16(b, REG_VCOUNT) < TOTAL_SCANLINES,
    ensures
        ({
            let (p2, b2) = spec_tick_lines(p, b, render_video, (TOTAL_SCANLINES * SCANLINE_CYCLES) as u32);
            &&& p2.frame_ready
            &&& spec_read16(b2, REG_VCOUNT) == spec_read16(b, REG_VCOUNT)
            &&& p2.scanline_cycles == 0
        }),
{
    lemma_scanline_clock(p, b, render_video, (TOTAL_SCANLINES * SCANLINE_CYCLES) as u32);
}

/// Rendering changes only the picture: what the scanline clock does to the bus, to
/// its leftover cycles and to the frame-ready flag depends neither on whether video
/// is rendered nor on the picture it started with.
pub proof fn law_scanline_clock_ignores_picture(
    p1: PpuState,
    p2: PpuState,
    b: BusState,
    render1: bool,
    render2: bool,
    cycles: u32,
)
    requires
        p1.frame_ready == p2.frame_ready,
    ensures
        spec_tick_lines(p1, b, render1, cycles).1 == spec_tick_lines(p2, b, render2, cycles).1,
        spec_tick_lines(p1, b, render1, cycles).0.scanline_cycles == spec_tick_lines(
            p2,
            b,
            render2,
            cycles,
        ).0.scanline_cycles,
        spec_tick_lines(p1, b, render1, cycles).0.frame_ready == spec_tick_lines(
            p2,
            b,
            render2,
            cycles,
        ).0.frame_ready,
    decreases cycles,
{
    if cycles >= SCANLINE_CYCLES {
        let rest = (cycles - SCANLINE_CYCLES) as u32;
        let v = spec_read16(b, REG_VCOUNT);
        let next = v.wrapping_add(1) % TOTAL_SCANLINES;
        let b1 = io_store16(b, REG_VCOUNT, next);
        let (b2, ready) = if next == VISIBLE_SCANLINES {
            (spec_set_vblank(b1, true), true)
        } else if next == 0 {
            (spec_set_vblank(b1, false), p1.frame_ready)
        } else {
            (b1, p1.frame_ready)
        };
        let fb1 = if render1 && v < VISIBLE_SCANLINES {
            spec_render_line(p1.framebuffer, b, v as int)
        } else {
            p1.framebuffer
        };
        let fb2 = if render2 && v < VISIBLE_SCANLINES {
            spec_render_line(p2.framebuffer, b, v as int)
        } else {
            p2.framebuffer
        };
        law_scanline_clock_ignores_picture(
            PpuState { scanline_cycles: rest, framebuffer: fb1, frame_ready: ready },
            PpuState { scanline_cycles: rest, framebuffer: fb2, frame_ready: ready },
            b2,
            render1,
            render2,
            rest,
        );
    }
}

/// What a text background leaves at pixel `x` of row `y` (colour, and the priority
/// that pixel then has).
pub open spec fn text_pixel_at(ls: LineState, b: BusState, y: int, t: TextBg, bg_prio: u8, x: int) -> (u32, u8) {
    let r = text_pixel(ls, b, y, t, bg_prio, x);
    (r.fb[y * SCREEN_WIDTH + x], r.prio[x])
}

/// A text-background pixel depends on the line only through that pixel, and touches
/// no other pixel.
proof fn lemma_text_pixel_local(ls1: LineState, ls2: LineState, b: BusState, y: int, t: TextBg, p: u8, x: int, z: int)
    requires
        ls1.wf(),
        ls2.wf(),
        0 <= y < SCREEN_HEIGHT,
        0 <= x < SCREEN_WIDTH,
        0 <= z < SCREEN_WIDTH,
        ls1.fb[y * SCREEN_WIDTH + x] == ls2.fb[y * SCREEN_WIDTH + x],
        ls1.prio[x] == ls2.prio[x],
    ensures
        text_pixel_at(ls1, b, y, t, p, x) == text_pixel_at(ls2, b, y, t, p, x),
        text_pixel(ls1, b, y, t, p, x).wf(),
        z != x ==> text_pixel(ls1, b, y, t, p, x).fb[y * SCREEN_WIDTH + z] == ls1.fb[y * SCREEN_WIDTH + z],
        z != x ==> text_pixel(ls1, b, y, t, p, x).prio[z] == ls1.prio[z],
{
}

/// After a text background is drawn from pixel `x0` on, pixel `x` holds what drawing
/// that pixel alone leaves there (and pixels before `x0` are untouched).
proof fn lemma_text_from_pixel(ls: LineState, b: BusState, y: int, t: TextBg, p: u8, x0: int, x: int)
    requires
        ls.wf(),
        0 <= y < SCREEN_HEIGHT,
        0 <= x0 <= SCREEN_WIDTH,
        0 <= x < SCREEN_WIDTH,
    ensures
        text_from(ls, b, y, t, p, x0).wf(),
        x >= x0 ==> (text_from(ls, b, y, t, p, x0).fb[y * SCREEN_WIDTH + x], text_from(ls, b, y, t, p, x0).prio[x])
            == text_pixel_at(ls, b, y, t, p, x),
        x < x0 ==> text_from(ls, b, y, t, p, x0).fb[y * SCREEN_WIDTH + x] == ls.fb[y * SCREEN_WIDTH + x]
            && text_from(ls, b, y, t, p, x0).prio[x] == ls.prio[x],
    decreases SCREEN_WIDTH - x0,
{
    if x0 < SCREEN_WIDTH {
        let ls1 = text_pixel(ls, b, y, t, p, x0);
        lemma_text_pixel_local(ls, ls, b, y, t, p, x0, x);
        lemma_text_from_pixel(ls1, b, y, t, p, x0 + 1, x);
        if x > x0 {
            lemma_text_pixel_local(ls1, ls, b, y, t, p, x, x);
        }
    }
}

/// Raising a text background's horizontal scroll by one (modulo 512) shifts the row
/// it draws one pixel to the left: drawn over rows that agree one pixel apart, pixel
/// `x` with the raised scroll is pixel `x + 1` without it, in colour and priority.
pub proof fn law_text_scroll_shifts_left(
    ls1: LineState,
    ls2: LineState,
    b: BusState,
    y: int,
    t: TextBg,
    p: u8,
    x: int,
)
    requires
        ls1.wf(),
        ls2.wf(),
        0 <= y < SCREEN_HEIGHT,
        0 <= x < SCREEN_WIDTH - 1,
        t.hofs < 512,
        t.width_tiles == 32 || t.width_tiles == 64,
        ls2.fb[y * SCREEN_WIDTH + x] == ls1.fb[y * SCREEN_WIDTH + x + 1],
        ls2.prio[x] == ls1.prio[x + 1],
    ensures
        ({
            let t2 = TextBg { hofs: ((t.hofs + 1) % 512) as usize, ..t };
            let r1 = text_from(ls1, b, y, t, p, 0);
            let r2 = text_from(ls2, b, y, t2, p, 0);
            &&& r2.fb[y * SCREEN_WIDTH + x] == r1.fb[y * SCREEN_WIDTH + x + 1]
            &&& r2.prio[x] == r1.prio[x + 1]
        }),
{
    let t2 = TextBg { hofs: ((t.hofs + 1) % 512) as usize, ..t };
    lemma_text_from_pixel(ls1, b, y, t, p, 0, x + 1);
    lemma_text_from_pixel(ls2, b, y, t2, p, 0, x);
    let w = (t.width_tiles * 8) as int;
    assert((t2.hofs + x) % w == (t.hofs + (x + 1)) % w) by {
        if t.hofs < 511 {
            vstd::arithmetic::div_mod::lemma_small_mod((t.hofs + 1) as nat, 512);
        } else {
            vstd::arithmetic::div_mod::lemma_mod_self_0(512);
            vstd::arithmetic::div_mod::lemma_mod_add_multiples_vanish(x + 256, 256);
            vstd::arithmetic::div_mod::lemma_mod_add_multiples_vanish(x, 256);
            vstd::arithmetic::div_mod::lemma_mod_add_multiples_vanish(x, 512);
        }
    }
    let row = y * SCREEN_WIDTH;
    assert(row + x + 1 == row + (x + 1));
}

/// The scanline clock keeps the size of the register file.
pub proof fn lemma_scanline_clock_io(p: PpuState, b: BusState, render_video: bool, cycles: u32)
    requires
        b.io.len() == IO_SIZE,
    ensures
        spec_tick_lines(p, b, render_video, cycles).1.io.len() == IO_SIZE,
    decreases cycles,
{
    if cycles >= SCANLINE_CYCLES {
        let rest = (cycles - SCANLINE_CYCLES) as u32;
        let v = spec_read16(b, REG_VCOUNT);
        let next = v.wrapping_add(1) % TOTAL_SCANLINES;
        let b1 = io_store16(b, REG_VCOUNT, next);
        lemma_io16_after_store(b, REG_VCOUNT, next);
        let (b2, ready) = if next == VISIBLE_SCANLINES {
            lemma_set_vblank_keeps_vcount(b1, true);
            (spec_set_vblank(b1, true), true)
        } else if next == 0 {
            lemma_set_vblank_keeps_vcount(b1, false);
            (spec_set_vblank(b1, false), p.frame_ready)
        } else {
            (b1, p.frame_ready)
        };
        let fb = if render_video && v < VISIBLE_SCANLINES {
            spec_render_line(p.framebuffer, b, v as int)
        } else {
            p.framebuffer
        };
        lemma_scanline_clock_io(PpuState { scanline_cycles: rest, framebuffer: fb, frame_ready: ready }, b2, render_video, rest);
    }
}

/// Text-background tiles are read with their flips: the map entry that covers
/// pixel `x` of row `y` names a tile; a 4-bit tile pixel is taken from tile row
/// `(y + vofs) mod 8`, or `7` minus it when the entry's vertical-flip bit (11) is set,
/// and from tile column `(hofs + x) mod 8`, or `7` minus it when the horizontal-flip
/// bit (10) is set. A zero colour index leaves the line as it was; any other draws
/// that entry of the entry's 16-colour palette bank.
pub proof fn law_text_tile_flips(ls: LineState, b: BusState, y: int, t: TextBg, p: u8, x: int)
    requires
        ls.wf(),
        b.wf(),
        0 <= y < SCREEN_HEIGHT,
        0 <= x < SCREEN_WIDTH,
        t.width_tiles == 32 || t.width_tiles == 64,
        t.height_tiles == 32 || t.height_tiles == 64,
        !t.is_8bpp,
        p <= ls.prio[x],
    ensures
        ({
            let w = t.width_tiles as int;
            let h = t.height_tiles as int;
            let tile_x = (((t.hofs + x) % (w * 8)) / 8) % w;
            let tile_y = (((y + t.vofs) % (h * 8)) / 8) % h;
            let entry_off = (t.map_base_block + tile_x / 32 + (tile_y / 32) * (w / 32)) * 0x800 + ((tile_y % 32) * 32
                + tile_x % 32) * 2;
            let entry = (b.vram[entry_off] as u16) | ((b.vram[entry_off + 1] as u16) << 8u16);
            let in_y = (y + t.vofs) % 8;
            let in_x = (t.hofs + x) % 8;
            let row = if (entry & 0x0800) != 0 {
                7 - in_y
            } else {
                in_y
            };
            let col = if (entry & 0x0400) != 0 {
                7 - in_x
            } else {
                in_x
            };
            let byte = vram_byte(b, t.char_base_block * 0x4000 + (entry & 0x03FF) * 32 + row * 4 + col / 2);
            let index = if col % 2 == 0 {
                (byte & 0x0F) as int
            } else {
                (byte >> 4u8) as int
            };
            let r = text_pixel(ls, b, y, t, p, x);
            entry_off + 1 < b.vram.len() ==> {
                &&& index == 0 ==> r == ls
                &&& index != 0 ==> r.fb[y * SCREEN_WIDTH + x] == palette_color(
                    b,
                    ((entry >> 12u16) & 0xF) * 16 + index,
                ) && r.prio[x] == p
            }
        }),
{
    let h = t.height_tiles as int;
    let w = t.width_tiles as int;
    vstd::arithmetic::div_mod::lemma_mod_mod(y + t.vofs, 8, h);
    vstd::arithmetic::div_mod::lemma_mod_mod(t.hofs + x, 8, w);
    assert(8 * h == h * 8);
    assert(8 * w == w * 8);
}

} // verus!
