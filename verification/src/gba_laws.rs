//! Properties of the frame loop: end-of-frame bookkeeping, and what rendering changes.
use vstd::prelude::*;
use crate::bus::GAMEPAK_ROM_START;
use crate::cpu::{pc_of, spec_switch_mode, CpuMode, CpuState, ROM_BOOT_CPSR};
use crate::gba::{
    in_bios_range, spec_end_frame, GbaState, BIOS_STALL_HANDOFF_FRAMES, BIOS_STALL_MIN_STEPS,
    NO_BIOS_PC, in_rom_range, spec_frame_step, spec_frame_loop, spec_run_frame, lemma_frame_step_cycles,
    CYCLES_PER_FRAME,
};
use crate::cpu::{spec_step, MAX_STEP_CYCLES};
use crate::bus::spec_tick_timers;
use crate::ppu_laws::{law_scanline_clock_ignores_picture, lemma_scanline_clock, lines_to_vblank};
use crate::ppu::{spec_ppu_tick, SCANLINE_CYCLES, TOTAL_SCANLINES};
use crate::bus::{
    BusState, io_store16, spec_keyinput, spec_read16, spec_write8, spec_write16, DMA_NEST_LIMIT, IO_SIZE,
    REG_IF, REG_KEYINPUT, REG_VCOUNT,
};
use crate::bus_laws::{
    vcount_kept, lemma_store16_keeps_vcount, lemma_tick_timers_keep_vcount, lemma_write16_keeps_vcount,
    lemma_write8_keeps_vcount,
};
use crate::cpu_laws::lemma_step_keeps_vcount;
use crate::gba::{spec_biosless_fixups, lemma_biosless_fixups_keep_io};
use crate::bus::io16;
use crate::input::BUTTON_MASK;
use crate::ppu_laws::{law_headless_tick_keeps_picture, lemma_scanline_clock_io};

verus! {

/// A frame counts as a BIOS stall when the BIOS is mapped, ran more than
/// `BIOS_STALL_MIN_STEPS` steps, no cartridge step ran, and the frame ends in the BIOS
/// at the address where the previous stalled frame ended.
pub open spec fn stalled_at_same_address(g: GbaState, bios_steps: u32, rom_steps: u32) -> bool {
    &&& g.bus.bios_loaded
    &&& rom_steps == 0
    &&& bios_steps > BIOS_STALL_MIN_STEPS
    &&& in_bios_range(pc_of(g.cpu))
    &&& pc_of(g.cpu) == g.last_bios_pc
}

proof fn lemma_switch_mode_regs_len(c: CpuState, m: CpuMode)
    requires
        c.wf(),
    ensures
        spec_switch_mode(c, m).regs.len() == 16,
{
}

/// With a BIOS mapped, the end of a frame starts the cartridge without the BIOS exactly
/// when this frame is the `BIOS_STALL_HANDOFF_FRAMES`-th stalled frame in a row at one
/// address; it then runs from the cartridge entry point in ARM System mode and the
/// stall count starts over. The stall count stays below the limit either way.
pub proof fn law_bios_stall_handoff(g: GbaState, bios_steps: u32, rom_steps: u32)
    requires
        g.wf(),
        g.cpu.wf(),
        g.bus.bios_loaded,
    ensures
        !spec_end_frame(g, bios_steps, rom_steps).bus.bios_loaded <==> (stalled_at_same_address(
            g,
            bios_steps,
            rom_steps,
        ) && g.bios_stall_frame_count + 1 == BIOS_STALL_HANDOFF_FRAMES),
        !spec_end_frame(g, bios_steps, rom_steps).bus.bios_loaded ==> {
            let r = spec_end_frame(g, bios_steps, rom_steps);
            &&& pc_of(r.cpu) == GAMEPAK_ROM_START
            &&& r.cpu.mode == CpuMode::System
            &&& r.cpu.cpsr == ROM_BOOT_CPSR
            &&& r.bios_stall_frame_count == 0
            &&& r.last_bios_pc == NO_BIOS_PC
        },
        spec_end_frame(g, bios_steps, rom_steps).wf(),
{
    lemma_switch_mode_regs_len(g.cpu, CpuMode::System);
}

/// A stalled frame before the limit adds one to the stall count; a busy BIOS frame
/// that ends at another BIOS address starts the count over at that address.
pub proof fn law_bios_stall_counting(g: GbaState, bios_steps: u32, rom_steps: u32)
    requires
        g.wf(),
        g.bus.bios_loaded,
        rom_steps == 0,
        bios_steps > BIOS_STALL_MIN_STEPS,
        in_bios_range(pc_of(g.cpu)),
    ensures
        pc_of(g.cpu) == g.last_bios_pc && g.bios_stall_frame_count + 1 < BIOS_STALL_HANDOFF_FRAMES
            ==> spec_end_frame(g, bios_steps, rom_steps).bios_stall_frame_count == g.bios_stall_frame_count
            + 1,
        pc_of(g.cpu) != g.last_bios_pc ==> spec_end_frame(g, bios_steps, rom_steps).bios_stall_frame_count
            == 0 && spec_end_frame(g, bios_steps, rom_steps).last_bios_pc == pc_of(g.cpu),
{
}

/// `a` and `b` are the same console state but for the picture.
pub open spec fn same_but_picture(a: GbaState, b: GbaState) -> bool {
    &&& a.bus == b.bus
    &&& a.cpu == b.cpu
    &&& a.ppu.scanline_cycles == b.ppu.scanline_cycles
    &&& a.ppu.frame_ready == b.ppu.frame_ready
    &&& a.held_mask == b.held_mask
    &&& a.last_frame_bios_steps == b.last_frame_bios_steps
    &&& a.last_frame_rom_steps == b.last_frame_rom_steps
    &&& a.bios_stall_frame_count == b.bios_stall_frame_count
    &&& a.last_bios_pc == b.last_bios_pc
    &&& a.branch_log == b.branch_log
}

proof fn lemma_frame_step_ignores_picture(g1: GbaState, g2: GbaState, render1: bool, render2: bool)
    requires
        same_but_picture(g1, g2),
    ensures
        same_but_picture(spec_frame_step(g1, render1).0, spec_frame_step(g2, render2).0),
        spec_frame_step(g1, render1).1 == spec_frame_step(g2, render2).1,
{
    reveal(spec_frame_step);
    let (c1, b1, spent) = spec_step(g1.cpu, g1.bus);
    let b2 = spec_tick_timers(b1, spent);
    law_scanline_clock_ignores_picture(
        g1.ppu,
        g2.ppu,
        b2,
        render1,
        render2,
        g1.ppu.scanline_cycles.wrapping_add(spent),
    );
}

proof fn lemma_frame_loop_ignores_picture(
    g1: GbaState,
    g2: GbaState,
    render1: bool,
    render2: bool,
    cycles: int,
    bios_steps: u32,
    rom_steps: u32,
)
    requires
        same_but_picture(g1, g2),
    ensures
        same_but_picture(
            spec_frame_loop(g1, render1, cycles, bios_steps, rom_steps).0,
            spec_frame_loop(g2, render2, cycles, bios_steps, rom_steps).0,
        ),
        spec_frame_loop(g1, render1, cycles, bios_steps, rom_steps).1 == spec_frame_loop(
            g2,
            render2,
            cycles,
            bios_steps,
            rom_steps,
        ).1,
        spec_frame_loop(g1, render1, cycles, bios_steps, rom_steps).2 == spec_frame_loop(
            g2,
            render2,
            cycles,
            bios_steps,
            rom_steps,
        ).2,
    decreases CYCLES_PER_FRAME + MAX_STEP_CYCLES - cycles,
{
    if !(cycles >= CYCLES_PER_FRAME || cycles < 0) {
        lemma_frame_step_ignores_picture(g1, g2, render1, render2);
        lemma_frame_step_cycles(g1, render1);
        let (n1, spent) = spec_frame_step(g1, render1);
        let n2 = spec_frame_step(g2, render2).0;
        let pc = pc_of(n1.cpu);
        let bios1 = if in_bios_range(pc) {
            bios_steps.saturating_add(1)
        } else {
            bios_steps
        };
        let rom1 = if !in_bios_range(pc) && in_rom_range(pc) {
            rom_steps.saturating_add(1)
        } else {
            rom_steps
        };
        lemma_frame_loop_ignores_picture(n1, n2, render1, render2, cycles + spent, bios1, rom1);
    }
}

/// A frame run without rendering ends in the same state as a rendered one, but for
/// the picture: the same CPU, bus, timing, frame-ready flag, counters and branch log.
pub proof fn law_headless_frame_matches_rendered(g: GbaState)
    ensures
        same_but_picture(spec_run_frame(g, true), spec_run_frame(g, false)),
{
    lemma_frame_loop_ignores_picture(g, g, true, false, 0, 0, 0);
    let (g1, b1, r1) = spec_frame_loop(g, true, 0, 0, 0);
    let (g2, b2, r2) = spec_frame_loop(g, false, 0, 0, 0);
    assert(spec_end_frame(g1, b1, r1).cpu == spec_end_frame(g2, b2, r2).cpu);
}

proof fn lemma_fixups_keep_vcount(b: BusState)
    requires
        b.io.len() == IO_SIZE,
    ensures
        vcount_kept(b, spec_biosless_fixups(b)),
{
    if !b.bios_loaded {
        let b1 = spec_write8(b, 0x0300_34A9, 1);
        lemma_write8_keeps_vcount(b, 0x0300_34A9, 1);
        let b2 = spec_write8(b1, 0x0300_6A0C, 1);
        lemma_write8_keeps_vcount(b1, 0x0300_6A0C, 1);
        let v3 = spec_read16(b2, 0x0300_22DC) | 1;
        let b3 = spec_write16(b2, 0x0300_22DC, v3, DMA_NEST_LIMIT as nat);
        lemma_write16_keeps_vcount(b2, 0x0300_22DC, v3, DMA_NEST_LIMIT as nat);
        let v4 = spec_read16(b3, 0x0300_22F8) | 1;
        let b4 = spec_write16(b3, 0x0300_22F8, v4, DMA_NEST_LIMIT as nat);
        lemma_write16_keeps_vcount(b3, 0x0300_22F8, v4, DMA_NEST_LIMIT as nat);
        let iflags = spec_read16(b4, REG_IF);
        if iflags != 0 {
            let v5 = spec_read16(b4, 0x0300_22DC) | iflags | 1;
            let b5 = spec_write16(b4, 0x0300_22DC, v5, DMA_NEST_LIMIT as nat);
            lemma_write16_keeps_vcount(b4, 0x0300_22DC, v5, DMA_NEST_LIMIT as nat);
            let v6 = spec_read16(b5, 0x0300_22F8) | iflags | 1;
            lemma_write16_keeps_vcount(b5, 0x0300_22F8, v6, DMA_NEST_LIMIT as nat);
        }
    }
}

/// One frame step moves the picture unit's position by the cycles the step spent.
proof fn lemma_frame_step_position(g: GbaState, render_video: bool)
    requires
        g.bus.io.len() == IO_SIZE,
        spec_read16(g.bus, REG_VCOUNT) < TOTAL_SCANLINES,
        g.ppu.scanline_cycles < SCANLINE_CYCLES,
    ensures
        ({
            let (g1, spent) = spec_frame_step(g, render_video);
            let v = spec_read16(g.bus, REG_VCOUNT) as int;
            let x = g.ppu.scanline_cycles + spent;
            &&& spec_read16(g1.bus, REG_VCOUNT) == (v + x / SCANLINE_CYCLES as int) % (TOTAL_SCANLINES as int)
            &&& g1.ppu.scanline_cycles == x % SCANLINE_CYCLES as int
            &&& g1.ppu.frame_ready == (g.ppu.frame_ready || x / SCANLINE_CYCLES as int >= lines_to_vblank(v))
            &&& g1.bus.io.len() == IO_SIZE
        }),
{
    lemma_frame_step_cycles(g, render_video);
    reveal(spec_frame_step);
    let (c1, b1, spent) = spec_step(g.cpu, g.bus);
    lemma_step_keeps_vcount(g.cpu, g.bus);
    let b2 = spec_tick_timers(b1, spent);
    lemma_tick_timers_keep_vcount(b1, spent);
    lemma_scanline_clock(g.ppu, b2, render_video, g.ppu.scanline_cycles.wrapping_add(spent));
    let (p3, b3) = spec_ppu_tick(g.ppu, b2, spent, render_video);
    let b4 = io_store16(b3, REG_KEYINPUT, spec_keyinput(g.held_mask));
    lemma_store16_keeps_vcount(b3, REG_KEYINPUT, spec_keyinput(g.held_mask));
    lemma_fixups_keep_vcount(b4);
}

proof fn lemma_position_arith(v0: int, sc0: int, c: int, s: int)
    requires
        0 <= v0 < TOTAL_SCANLINES,
        0 <= sc0 < SCANLINE_CYCLES,
        0 <= c,
        0 <= s,
    ensures
        ({
            let w = SCANLINE_CYCLES as int;
            let t = TOTAL_SCANLINES as int;
            let q = (sc0 + c) / w;
            let r = (sc0 + c) % w;
            let x = r + s;
            &&& q + x / w == (sc0 + c + s) / w
            &&& x % w == (sc0 + c + s) % w
            &&& ((v0 + q) % t + x / w) % t == (v0 + q + x / w) % t
            &&& (q < lines_to_vblank(v0) ==> lines_to_vblank((v0 + q) % t) == lines_to_vblank(v0) - q)
        }),
{
    let w = SCANLINE_CYCLES as int;
    let t = TOTAL_SCANLINES as int;
    let q = (sc0 + c) / w;
    let r = (sc0 + c) % w;
    let x = r + s;
    vstd::arithmetic::div_mod::lemma_fundamental_div_mod(sc0 + c, w);
    vstd::arithmetic::div_mod::lemma_fundamental_div_mod(x, w);
    vstd::arithmetic::div_mod::lemma_fundamental_div_mod_converse(sc0 + c + s, w, q + x / w, x % w);
    let y = v0 + q;
    vstd::arithmetic::div_mod::lemma_fundamental_div_mod(y, t);
    vstd::arithmetic::div_mod::lemma_mod_multiples_vanish(y / t, y % t + x / w, t);
    assert(t * (y / t) + (y % t + x / w) == y + x / w);
    if q < lines_to_vblank(v0) {
        if y < t {
            vstd::arithmetic::div_mod::lemma_small_mod(y as nat, t as nat);
        } else {
            vstd::arithmetic::div_mod::lemma_small_mod((y - t) as nat, t as nat);
            vstd::arithmetic::div_mod::lemma_mod_add_multiples_vanish(y - t, t);
        }
    }
}

proof fn lemma_frame_loop_reaches_vblank(
    g: GbaState,
    render_video: bool,
    cycles: int,
    bios_steps: u32,
    rom_steps: u32,
    v0: int,
    sc0: int,
    ready0: bool,
)
    requires
        g.bus.io.len() == IO_SIZE,
        0 <= cycles,
        0 <= v0 < TOTAL_SCANLINES,
        0 <= sc0 < SCANLINE_CYCLES,
        spec_read16(g.bus, REG_VCOUNT) == (v0 + (sc0 + cycles) / SCANLINE_CYCLES as int) % (TOTAL_SCANLINES as int),
        g.ppu.scanline_cycles == (sc0 + cycles) % SCANLINE_CYCLES as int,
        g.ppu.frame_ready == (ready0 || (sc0 + cycles) / SCANLINE_CYCLES as int >= lines_to_vblank(v0)),
    ensures
        spec_frame_loop(g, render_video, cycles, bios_steps, rom_steps).0.ppu.frame_ready,
        spec_read16(spec_frame_loop(g, render_video, cycles, bios_steps, rom_steps).0.bus, REG_VCOUNT)
            < TOTAL_SCANLINES,
        spec_frame_loop(g, render_video, cycles, bios_steps, rom_steps).0.ppu.scanline_cycles < SCANLINE_CYCLES,
        spec_frame_loop(g, render_video, cycles, bios_steps, rom_steps).0.bus.io.len() == IO_SIZE,
    decreases CYCLES_PER_FRAME + MAX_STEP_CYCLES - cycles,
{
    let w = SCANLINE_CYCLES as int;
    if cycles >= CYCLES_PER_FRAME {
        assert((sc0 + cycles) / w >= TOTAL_SCANLINES) by {
            vstd::arithmetic::div_mod::lemma_fundamental_div_mod(sc0 + cycles, w);
        }
    } else {
        lemma_frame_step_cycles(g, render_video);
        lemma_frame_step_position(g, render_video);
        let (g1, spent) = spec_frame_step(g, render_video);
        lemma_position_arith(v0, sc0, cycles, spent as int);
        let pc = pc_of(g1.cpu);
        let bios1 = if in_bios_range(pc) {
            bios_steps.saturating_add(1)
        } else {
            bios_steps
        };
        let rom1 = if !in_bios_range(pc) && in_rom_range(pc) {
            rom_steps.saturating_add(1)
        } else {
            rom_steps
        };
        lemma_frame_loop_reaches_vblank(g1, render_video, cycles + spent, bios1, rom1, v0, sc0, ready0);
    }
}

/// Every frame reaches VBlank: a frame always ends with a completed picture reported
/// ready and VCOUNT on a valid line (0 to 227), and leaves a valid console state; the
/// core, the timers and the BIOS-less fix-ups never disturb the line counter.
pub proof fn law_frame_reaches_vblank(g: GbaState, render_video: bool)
    requires
        g.wf(),
    ensures
        spec_run_frame(g, render_video).ppu.frame_ready,
        spec_read16(spec_run_frame(g, render_video).bus, REG_VCOUNT) < TOTAL_SCANLINES,
        spec_run_frame(g, render_video).ppu.scanline_cycles < SCANLINE_CYCLES,
{
    let v0 = spec_read16(g.bus, REG_VCOUNT) as int;
    let sc0 = g.ppu.scanline_cycles as int;
    vstd::arithmetic::div_mod::lemma_small_mod(sc0 as nat, SCANLINE_CYCLES as nat);
    vstd::arithmetic::div_mod::lemma_small_mod(v0 as nat, TOTAL_SCANLINES as nat);
    assert(sc0 / SCANLINE_CYCLES as int == 0);
    lemma_frame_loop_reaches_vblank(g, render_video, 0, 0, 0, v0, sc0, g.ppu.frame_ready);
    let (g1, bs, rs) = spec_frame_loop(g, render_video, 0, 0, 0);
    assert(spec_read16(spec_end_frame(g1, bs, rs).bus, REG_VCOUNT) == spec_read16(g1.bus, REG_VCOUNT));
}

proof fn lemma_frame_step_keys_and_picture(g: GbaState, render_video: bool)
    requires
        g.bus.io.len() == IO_SIZE,
    ensures
        io16(spec_frame_step(g, render_video).0.bus, REG_KEYINPUT) == spec_keyinput(g.held_mask),
        spec_frame_step(g, render_video).0.held_mask == g.held_mask,
        spec_frame_step(g, render_video).0.bus.io.len() == IO_SIZE,
        !render_video ==> spec_frame_step(g, render_video).0.ppu.framebuffer == g.ppu.framebuffer,
{
    reveal(spec_frame_step);
    let (c1, b1, spent) = spec_step(g.cpu, g.bus);
    lemma_step_keeps_vcount(g.cpu, g.bus);
    let b2 = spec_tick_timers(b1, spent);
    lemma_tick_timers_keep_vcount(b1, spent);
    lemma_scanline_clock_io(g.ppu, b2, render_video, g.ppu.scanline_cycles.wrapping_add(spent));
    let (p3, b3) = spec_ppu_tick(g.ppu, b2, spent, render_video);
    let b4 = io_store16(b3, REG_KEYINPUT, spec_keyinput(g.held_mask));
    crate::bus::lemma_io16_after_store(b3, REG_KEYINPUT, spec_keyinput(g.held_mask));
    lemma_biosless_fixups_keep_io(b4);
    if !render_video {
        law_headless_tick_keeps_picture(g.ppu, b2, g.ppu.scanline_cycles.wrapping_add(spent));
    }
}

proof fn lemma_frame_loop_keys_and_picture(
    g: GbaState,
    render_video: bool,
    cycles: int,
    bios_steps: u32,
    rom_steps: u32,
)
    requires
        g.bus.io.len() == IO_SIZE,
    ensures
        0 <= cycles < CYCLES_PER_FRAME ==> io16(spec_frame_loop(g, render_video, cycles, bios_steps, rom_steps).0.bus, REG_KEYINPUT)
            == spec_keyinput(g.held_mask),
        !render_video ==> spec_frame_loop(g, render_video, cycles, bios_steps, rom_steps).0.ppu.framebuffer
            == g.ppu.framebuffer,
    decreases CYCLES_PER_FRAME + MAX_STEP_CYCLES - cycles,
{
    if !(cycles >= CYCLES_PER_FRAME || cycles < 0) {
        lemma_frame_step_cycles(g, render_video);
        lemma_frame_step_keys_and_picture(g, render_video);
        let (g1, spent) = spec_frame_step(g, render_video);
        let pc = pc_of(g1.cpu);
        let bios1 = if in_bios_range(pc) {
            bios_steps.saturating_add(1)
        } else {
            bios_steps
        };
        let rom1 = if !in_bios_range(pc) && in_rom_range(pc) {
            rom_steps.saturating_add(1)
        } else {
            rom_steps
        };
        lemma_frame_loop_keys_and_picture(g1, render_video, cycles + spent, bios1, rom1);
    }
}

/// A frame without rendering leaves the picture exactly as it was.
pub proof fn law_headless_frame_keeps_picture(g: GbaState)
    requires
        g.bus.wf(),
    ensures
        spec_run_frame(g, false).ppu.framebuffer == g.ppu.framebuffer,
{
    lemma_frame_loop_keys_and_picture(g, false, 0, 0, 0);
}

/// Buttons are latched every step: after the held buttons are set to `m` and one
/// frame runs, the key input register reads `m` active-low in its ten button bits,
/// with bits 10-15 of `m` ignored and read as 1.
pub proof fn law_frame_latches_held_keys(g: GbaState, m: u16, render_video: bool)
    requires
        g.bus.wf(),
    ensures
        io16(spec_run_frame(GbaState { held_mask: m & BUTTON_MASK, ..g }, render_video).bus, REG_KEYINPUT)
            == ((!m) & 0x03FF) | 0xFC00,
{
    let g1 = GbaState { held_mask: m & BUTTON_MASK, ..g };
    lemma_frame_loop_keys_and_picture(g1, render_video, 0, 0, 0);
    assert(((!(m & 0x03FFu16)) & 0x03FF) | 0xFC00 == ((!m) & 0x03FF) | 0xFC00) by (bit_vector);
}

} // verus!
