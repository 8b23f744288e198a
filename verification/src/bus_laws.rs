//! Properties of the memory map that hold across reads and writes.
use vstd::prelude::*;
use crate::bus::{
    in_ewram, in_iwram, in_oam, in_palette, in_vram, io16, io_store16, spec_claim_pending_interrupt,
    spec_keyinput, spec_read16, spec_read32, spec_read8, spec_write16, spec_write32, spec_write8,
    ewram_offset, halfword_offset, BusState, EWRAM_START, PALETTE_RAM_START, REG_IF, REG_IE, REG_KEYINPUT, VRAM_START,
    REG_VCOUNT, spec_timer_run, spec_tick_timer, spec_timer_prescaler, timer_ctrl_addr, timer_reload_addr,
    IO_SIZE, IO_START, REG_SIOCNT, REG_SIOMULTI0, REG_SIOMULTI1, REG_SIOMULTI2, REG_SIOMULTI3,
    REG_SIODATA32_L, REG_SIODATA32_H, IRQ_SERIAL, io_store32, bytes_write16, spec_request_interrupt,
    serial_side_effects, spec_io_side_effects, spec_run_dma, spec_dma_copy, spec_trigger_dma_from,
    spec_update_dma_addr, spec_timer_index_from_reload_addr, spec_timer_index_from_ctrl_addr,
    spec_dma_channel_from_cnt_h_addr, dma_sad_addr, dma_dad_addr, dma_cnt_l_addr, dma_cnt_h_addr,
    dma_params, dma_word_count, dma_irq_mask, in_io, DmaParams, DMA_NEST_LIMIT, REG_IME, IWRAM_START,
    IWRAM_SIZE, io_defaults, cleared, zeros8, power_on_state, EWRAM_SIZE, PALETTE_RAM_SIZE, VRAM_SIZE,
    OAM_SIZE, timer_irq_mask, spec_tick_timers, MAX_TIMER_PRESCALER, IO_LAST,
};

verus! {

/// The RAM regions in which every byte keeps what was written to it.
pub open spec fn plain_ram(addr: u32) -> bool {
    in_ewram(addr) || in_palette(addr) || in_vram(addr) || in_oam(addr)
}

/// A byte written to work RAM, palette RAM, video RAM or object memory reads back
/// unchanged (palette and video RAM store a byte in both halves of its halfword).
pub proof fn law_read8_after_write8(b: BusState, addr: u32, value: u8)
    requires
        b.wf(),
        plain_ram(addr),
    ensures
        spec_read8(spec_write8(b, addr, value), addr) == value,
{
    if in_palette(addr) {
        let x = (addr - PALETTE_RAM_START) as u32;
        assert(x < 1024 ==> ((x & !1u32) == x || (x & !1u32) + 1 == x) && (x & !1u32) + 1 < 1024)
            by (bit_vector);
        assert(halfword_offset(addr, PALETTE_RAM_START) == (x & !1u32) as int);
    } else if in_vram(addr) {
        let x = (addr - VRAM_START) as u32;
        assert(x < 0x18000 ==> ((x & !1u32) == x || (x & !1u32) + 1 == x) && (x & !1u32) + 1 < 0x18000)
            by (bit_vector);
        assert(halfword_offset(addr, VRAM_START) == (x & !1u32) as int);
    }
}

/// The same for internal work RAM, whenever the stored byte is the written one (it is
/// not only for the BIOS serial gate byte while that gate is armed).
pub proof fn law_iwram_read8_after_write8(b: BusState, addr: u32, value: u8)
    requires
        b.wf(),
        in_iwram(addr),
        !(b.bios_loaded && addr == 0x0300_001B && value == 2),
    ensures
        spec_read8(spec_write8(b, addr, value), addr) == value,
{
}

/// A byte write to work RAM changes no read at another address outside the mirrors
/// of that byte.
pub proof fn law_ewram_write8_frame(b: BusState, addr: u32, other: u32, value: u8)
    requires
        b.wf(),
        in_ewram(addr),
        !(in_ewram(other) && ewram_offset(other) == ewram_offset(addr)),
    ensures
        spec_read8(spec_write8(b, addr, value), other) == spec_read8(b, other),
{
}

proof fn lemma_word_bytes(v: u32)
    ensures
        ((((v & 0xFFu32) as u8) as u32) | ((((v >> 8u32) & 0xFFu32) as u8 as u32) << 8u32) | ((((v
            >> 16u32) & 0xFFu32) as u8 as u32) << 16u32) | ((((v >> 24u32) & 0xFFu32) as u8 as u32)
            << 24u32)) == v,
        ({
            let lo = (v & 0xFFFFu32) as u16;
            let hi = (v >> 16u32) as u16;
            ((((lo & 0xFFu16) as u8) as u32) | (((lo >> 8u16) as u8 as u32) << 8u32) | ((((hi & 0xFFu16) as u8)
                as u32) << 16u32) | (((hi >> 8u16) as u8 as u32) << 24u32)) == v
        }),
{
    assert(((((v & 0xFFu32) as u8) as u32) | ((((v >> 8u32) & 0xFFu32) as u8 as u32) << 8u32) | ((((
    v >> 16u32) & 0xFFu32) as u8 as u32) << 16u32) | ((((v >> 24u32) & 0xFFu32) as u8 as u32)
        << 24u32)) == v && ((((((v & 0xFFFFu32) as u16) & 0xFFu16) as u8) as u32) | (((((v & 0xFFFFu32)
        as u16) >> 8u16) as u8 as u32) << 8u32) | (((((v >> 16u32) as u16 & 0xFFu16) as u8) as u32) << 16u32)
        | ((((v >> 16u32) as u16 >> 8u16) as u8 as u32) << 24u32)) == v) by (bit_vector);
}

/// A word written to an aligned address of external work RAM reads back unchanged.
pub proof fn law_ewram_read32_after_write32(b: BusState, addr: u32, value: u32, depth: nat)
    requires
        b.wf(),
        in_ewram(addr),
        addr % 4 == 0,
    ensures
        spec_read32(spec_write32(b, addr, value, depth), addr) == value,
{
    let b1 = spec_write8(b, addr, (value & 0xFFu32) as u8);
    let b2 = spec_write8(b1, addr.wrapping_add(1), ((value >> 8u32) & 0xFFu32) as u8);
    let b3 = spec_write8(b2, addr.wrapping_add(2), ((value >> 16u32) & 0xFFu32) as u8);
    let b4 = spec_write8(b3, addr.wrapping_add(3), ((value >> 24u32) & 0xFFu32) as u8);
    assert(spec_write32(b, addr, value, depth) == b4);
    let a = addr - EWRAM_START;
    assert(a % 4 == 0);
    assert(a % 262144 % 4 == 0 && (a + 1) % 262144 == a % 262144 + 1 && (a + 2) % 262144 == a
        % 262144 + 2 && (a + 3) % 262144 == a % 262144 + 3) by (nonlinear_arith)
        requires
            a % 4 == 0,
            a >= 0,
    ;
    assert(ewram_offset(addr.wrapping_add(1)) == ewram_offset(addr) + 1);
    assert(ewram_offset(addr.wrapping_add(2)) == ewram_offset(addr) + 2);
    assert(ewram_offset(addr.wrapping_add(3)) == ewram_offset(addr) + 3);
    lemma_word_bytes(value);
}

/// Aligning an already aligned address down leaves it as it is.
pub proof fn lemma_align_down(x: u32)
    by (bit_vector)
    ensures
        x % 4 == 0 ==> (x & !3u32) == x,
        x % 2 == 0 ==> (x & !1u32) == x,
{
}

/// A word written to an aligned address of work RAM (below its first mirror) changes
/// no byte outside the four it covers.
pub proof fn lemma_ewram_write32_frame(b: BusState, addr: u32, value: u32, depth: nat, other: u32)
    requires
        b.wf(),
        EWRAM_START <= addr,
        addr + 4 <= EWRAM_START + EWRAM_SIZE,
        EWRAM_START <= other < EWRAM_START + EWRAM_SIZE,
        other < addr || other >= addr + 4,
    ensures
        spec_read8(spec_write32(b, addr, value, depth), other) == spec_read8(b, other),
        spec_write32(b, addr, value, depth).wf(),
{
    let b1 = spec_write8(b, addr, (value & 0xFFu32) as u8);
    let b2 = spec_write8(b1, addr.wrapping_add(1), ((value >> 8u32) & 0xFFu32) as u8);
    let b3 = spec_write8(b2, addr.wrapping_add(2), ((value >> 16u32) & 0xFFu32) as u8);
    assert(spec_write32(b, addr, value, depth) == spec_write8(b3, addr.wrapping_add(3), ((value >> 24u32) & 0xFFu32) as u8));
    let m = EWRAM_SIZE as int;
    vstd::arithmetic::div_mod::lemma_small_mod((addr - EWRAM_START) as nat, m as nat);
    vstd::arithmetic::div_mod::lemma_small_mod((addr + 1 - EWRAM_START) as nat, m as nat);
    vstd::arithmetic::div_mod::lemma_small_mod((addr + 2 - EWRAM_START) as nat, m as nat);
    vstd::arithmetic::div_mod::lemma_small_mod((addr + 3 - EWRAM_START) as nat, m as nat);
    vstd::arithmetic::div_mod::lemma_small_mod((other - EWRAM_START) as nat, m as nat);
}

/// A word written to work RAM keeps the bus well formed.
pub proof fn lemma_ewram_write32_wf(b: BusState, addr: u32, value: u32, depth: nat)
    requires
        b.wf(),
        EWRAM_START <= addr,
        addr + 4 <= EWRAM_START + EWRAM_SIZE,
    ensures
        spec_write32(b, addr, value, depth).wf(),
{
    let b1 = spec_write8(b, addr, (value & 0xFFu32) as u8);
    let b2 = spec_write8(b1, addr.wrapping_add(1), ((value >> 8u32) & 0xFFu32) as u8);
    let b3 = spec_write8(b2, addr.wrapping_add(2), ((value >> 16u32) & 0xFFu32) as u8);
    assert(spec_write32(b, addr, value, depth) == spec_write8(b3, addr.wrapping_add(3), ((value >> 24u32) & 0xFFu32) as u8));
}

/// A word written to an aligned address of video RAM reads back unchanged.
pub proof fn law_vram_read32_after_write32(b: BusState, addr: u32, value: u32, depth: nat)
    requires
        b.wf(),
        in_vram(addr),
        addr % 4 == 0,
    ensures
        spec_read32(spec_write32(b, addr, value, depth), addr) == value,
{
    let x = (addr - VRAM_START) as u32;
    lemma_align_down(x);
    lemma_word_bytes(value);
}

/// Writing a halfword to IF clears exactly the bits that are set in the value, and
/// changes nothing else.
pub proof fn law_if_write_one_to_clear(b: BusState, value: u16, depth: nat)
    requires
        b.wf(),
    ensures
        spec_write16(b, REG_IF, value, depth) == io_store16(b, REG_IF, io16(b, REG_IF) & !value),
        io16(spec_write16(b, REG_IF, value, depth), REG_IF) == io16(b, REG_IF) & !value,
{
    crate::bus::lemma_io16_after_store(b, REG_IF, io16(b, REG_IF) & !value);
}

/// Halfword that two byte writes at `addr`, `addr + 1` leave in work RAM (away from the
/// serial gate byte).
proof fn lemma_iwram_bytes_write16(b: BusState, addr: u32, value: u16)
    requires
        b.wf(),
        IWRAM_START <= addr,
        addr + 1 < IWRAM_START + IWRAM_SIZE,
        addr != 0x0300_001B,
        addr + 1 != 0x0300_001B,
    ensures
        spec_read16(bytes_write16(b, addr, value), addr) == value,
        bytes_write16(b, addr, value).wf(),
        bytes_write16(b, addr, value).io == b.io,
        forall|a: u32|
            IWRAM_START <= a < IWRAM_START + IWRAM_SIZE && a != addr && a != addr + 1 ==> #[trigger] spec_read8(
                bytes_write16(b, addr, value),
                a,
            ) == spec_read8(b, a),
{
    crate::bus::lemma_halfword_bytes(value);
}

/// Raising an interrupt sets its bits in IF and leaves IE and IME alone; without a
/// BIOS image it also sets them (and bit 0) in the two interrupt-check halfwords that
/// games poll in work RAM.
pub proof fn law_request_interrupt(b: BusState, irq_mask: u16)
    requires
        b.wf(),
    ensures
        io16(spec_request_interrupt(b, irq_mask), REG_IF) == io16(b, REG_IF) | irq_mask,
        io16(spec_request_interrupt(b, irq_mask), REG_IE) == io16(b, REG_IE),
        io16(spec_request_interrupt(b, irq_mask), REG_IME) == io16(b, REG_IME),
        !b.bios_loaded ==> spec_read16(spec_request_interrupt(b, irq_mask), 0x0300_22DC) == spec_read16(
            b,
            0x0300_22DC,
        ) | irq_mask | 0x0001u16,
        !b.bios_loaded ==> spec_read16(spec_request_interrupt(b, irq_mask), 0x0300_22F8) == spec_read16(
            b,
            0x0300_22F8,
        ) | irq_mask | 0x0001u16,
{
    let b1 = io_store16(b, REG_IF, io16(b, REG_IF) | irq_mask);
    crate::bus::lemma_io16_after_store(b, REG_IF, io16(b, REG_IF) | irq_mask);
    if !b.bios_loaded {
        let irq_check = spec_read16(b1, 0x0300_22DC) | irq_mask | 0x0001u16;
        let b3 = bytes_write16(b1, 0x0300_22DC, irq_check);
        lemma_iwram_bytes_write16(b1, 0x0300_22DC, irq_check);
        let irq_check_alt = spec_read16(b3, 0x0300_22F8) | irq_mask | 0x0001u16;
        lemma_iwram_bytes_write16(b3, 0x0300_22F8, irq_check_alt);
        assert(spec_read8(b3, 0x0300_22F8) == spec_read8(b, 0x0300_22F8));
        assert(spec_read8(b3, 0x0300_22F9) == spec_read8(b, 0x0300_22F9));
    }
}

/// The reset before a cartridge boot keeps the BIOS image, its mapping and the
/// cartridge; it clears every RAM, stops any halt and flash-ID mode, and leaves the
/// I/O registers as they are at power-on.
pub proof fn law_rom_boot_reset(b: BusState)
    requires
        b.wf(),
    ensures
        io_defaults(cleared(b)).bios == b.bios,
        io_defaults(cleared(b)).bios_loaded == b.bios_loaded,
        io_defaults(cleared(b)).rom == b.rom,
        io_defaults(cleared(b)).ewram == zeros8(EWRAM_SIZE as nat),
        io_defaults(cleared(b)).iwram == zeros8(IWRAM_SIZE as nat),
        io_defaults(cleared(b)).palette_ram == zeros8(PALETTE_RAM_SIZE as nat),
        io_defaults(cleared(b)).vram == zeros8(VRAM_SIZE as nat),
        io_defaults(cleared(b)).oam == zeros8(OAM_SIZE as nat),
        io_defaults(cleared(b)).io == power_on_state().io,
        !io_defaults(cleared(b)).halt_requested,
        !io_defaults(cleared(b)).flash_id_mode,
        io_defaults(cleared(b)).flash_cmd_stage == 0,
{
}

/// After the held buttons are latched, a held button reads 0 and a released one 1 in
/// the key input register; the unused high bits read 1.
pub proof fn law_keyinput_active_low(b: BusState, held_mask: u16, button: u16)
    requires
        b.wf(),
        button < 10,
    ensures
        ({
            let k = spec_read16(io_store16(b, REG_KEYINPUT, spec_keyinput(held_mask)), REG_KEYINPUT);
            &&& ((k >> button) & 1 == 0) <==> ((held_mask >> button) & 1 == 1)
            &&& k & 0xFC00 == 0xFC00
        }),
{
    let v = spec_keyinput(held_mask);
    crate::bus::lemma_halfword_bytes(v);
    assert((button < 10 ==> (((((!held_mask) & 0x03FFu16) | 0xFC00u16) >> button) & 1 == 0 <==> (
    held_mask >> button) & 1 == 1)) && ((((!held_mask) & 0x03FFu16) | 0xFC00u16) & 0xFC00u16) == 0xFC00u16)
        by (bit_vector);
}

/// The interrupt that is claimed is the lowest pending one that IE enables.
pub proof fn law_claim_lowest_pending(b: BusState)
    requires
        b.wf(),
        (io16(b, REG_IE) & io16(b, REG_IF)) != 0,
    ensures
        ({
            let pending = io16(b, REG_IE) & io16(b, REG_IF);
            let m = spec_claim_pending_interrupt(b)->0;
            &&& spec_claim_pending_interrupt(b) is Some
            &&& m & pending == m
            &&& m != 0
            &&& (m - 1) as u16 & pending == 0
        }),
{
    let pending = io16(b, REG_IE) & io16(b, REG_IF);
    vstd::std_specs::bits::axiom_u16_trailing_zeros(pending);
    let t = pending.trailing_zeros() as u16;
    assert(t < 16);
    assert((pending >> t) & 1u16 == 1u16);
    assert(pending << ((16 - t) as u16) == 0);
    assert(t < 16 && (pending >> t) & 1u16 == 1u16 ==> (1u16 << t) & pending == (1u16 << t)
        && (1u16 << t) != 0) by (bit_vector);
    assert(t < 16 && (pending << ((16 - t) as u16)) == 0 ==> (((1u16 << t) - 1) as u16) & pending
        == 0) by (bit_vector);
}

/// VCOUNT and KEYINPUT are read-only to programs: no byte or halfword write changes
/// either of them.
pub proof fn law_read_only_registers(b: BusState, addr: u32, value: u16, byte: u8, depth: nat)
    requires
        b.wf(),
        addr == REG_VCOUNT || addr == REG_KEYINPUT,
    ensures
        spec_write16(b, addr, value, depth) == b,
        spec_write8(b, addr, byte) == b,
        spec_write8(b, (addr + 1) as u32, byte) == b,
{
}

proof fn lemma_timer_run_counts(b: BusState, i: int, ctrl: u16, p: u32, k: nat, extra: u32)
    requires
        b.io.len() == IO_SIZE,
        0 <= i < 4,
        p > 0,
        extra < p,
        k * p + extra <= u32::MAX,
        io16(b, timer_reload_addr(i)) + k <= 0xFFFF,
    ensures
        io16(spec_timer_run(b, i, ctrl, p, (k * p + extra) as u32), timer_reload_addr(i)) == io16(
            b,
            timer_reload_addr(i),
        ) + k,
    decreases k,
{
    let d = (k * p + extra) as u32;
    if k > 0 {
        assert(d >= p) by (nonlinear_arith)
            requires
                k > 0,
                d == k * p + extra,
                p > 0,
        ;
        let c = io16(b, timer_reload_addr(i));
        assert(c.wrapping_add(1) == c + 1);
        let b1 = io_store16(b, timer_reload_addr(i), (c + 1) as u16);
        crate::bus::lemma_io16_after_store(b, timer_reload_addr(i), (c + 1) as u16);
        assert((d - p) as u32 == ((k - 1) as nat) * p + extra) by (nonlinear_arith)
            requires
                d == k * p + extra,
                k > 0,
        ;
        lemma_timer_run_counts(b1, i, ctrl, p, (k - 1) as nat, extra);
    } else {
        assert(k * p == 0) by (nonlinear_arith)
            requires
                k == 0,
        ;
    }
}

/// A running (not cascaded) timer whose prescaler phase is 0 counts one per prescaler
/// period: after `k` periods its counter has advanced by `k`, as long as it does not
/// overflow.
pub proof fn law_timer_counts_prescaler_periods(b: BusState, i: int, k: nat)
    requires
        b.wf(),
        0 <= i < 4,
        io16(b, timer_ctrl_addr(i)) & 0x0080 != 0,
        io16(b, timer_ctrl_addr(i)) & 0x0004 == 0,
        b.timer_divider[i] == 0,
        k * spec_timer_prescaler(io16(b, timer_ctrl_addr(i)) & 0x3) <= u32::MAX,
        io16(b, timer_reload_addr(i)) + k <= 0xFFFF,
    ensures
        io16(
            spec_tick_timer(b, i, (k * spec_timer_prescaler(io16(b, timer_ctrl_addr(i)) & 0x3)) as u32),
            timer_reload_addr(i),
        ) == io16(b, timer_reload_addr(i)) + k,
{
    let ctrl = io16(b, timer_ctrl_addr(i));
    let p = spec_timer_prescaler(ctrl & 0x3);
    let cycles = (k * p) as u32;
    assert(0u32.wrapping_add(cycles) == cycles);
    lemma_timer_run_counts(b, i, ctrl, p, k, 0);
    assert(k * p + 0 == k * p);
}


/// `after` holds the same VCOUNT bytes as `before`, in a register file of the same size.
pub open spec fn vcount_kept(before: BusState, after: BusState) -> bool {
    &&& after.io.len() == before.io.len()
    &&& after.io[(REG_VCOUNT - IO_START) as int] == before.io[(REG_VCOUNT - IO_START) as int]
    &&& after.io[(REG_VCOUNT - IO_START) + 1] == before.io[(REG_VCOUNT - IO_START) + 1]
}

/// A plain I/O halfword store away from VCOUNT leaves its bytes alone.
pub proof fn lemma_store16_keeps_vcount(b: BusState, addr: u32, value: u16)
    requires
        b.io.len() == IO_SIZE,
        IO_START <= addr,
        addr + 1 < IO_START + IO_SIZE,
        addr + 1 < REG_VCOUNT || addr > REG_VCOUNT + 1,
    ensures
        vcount_kept(b, io_store16(b, addr, value)),
{
}

/// A byte write leaves the VCOUNT bytes alone.
pub proof fn lemma_write8_keeps_vcount(b: BusState, addr: u32, value: u8)
    requires
        b.io.len() == IO_SIZE,
    ensures
        vcount_kept(b, spec_write8(b, addr, value)),
{
}

proof fn lemma_bytes_write16_keeps_vcount(b: BusState, addr: u32, value: u16)
    requires
        b.io.len() == IO_SIZE,
    ensures
        vcount_kept(b, bytes_write16(b, addr, value)),
{
    let b1 = spec_write8(b, addr, (value & 0x00FFu16) as u8);
    lemma_write8_keeps_vcount(b, addr, (value & 0x00FFu16) as u8);
    lemma_write8_keeps_vcount(b1, addr.wrapping_add(1), (value >> 8u16) as u8);
}

/// Raising an interrupt leaves the VCOUNT bytes alone.
pub proof fn lemma_request_interrupt_keeps_vcount(b: BusState, irq_mask: u16)
    requires
        b.io.len() == IO_SIZE,
    ensures
        vcount_kept(b, spec_request_interrupt(b, irq_mask)),
{
    let b1 = io_store16(b, REG_IF, io16(b, REG_IF) | irq_mask);
    lemma_store16_keeps_vcount(b, REG_IF, io16(b, REG_IF) | irq_mask);
    let b2 = if b1.bios_loaded && (irq_mask & IRQ_SERIAL) != 0 {
        lemma_write8_keeps_vcount(b1, 0x0300_0019, 1);
        spec_write8(b1, 0x0300_0019, 1)
    } else {
        b1
    };
    if !b2.bios_loaded {
        let irq_check = spec_read16(b2, 0x0300_22DC) | irq_mask | 0x0001u16;
        let b3 = bytes_write16(b2, 0x0300_22DC, irq_check);
        lemma_bytes_write16_keeps_vcount(b2, 0x0300_22DC, irq_check);
        let irq_check_alt = spec_read16(b3, 0x0300_22F8) | irq_mask | 0x0001u16;
        lemma_bytes_write16_keeps_vcount(b3, 0x0300_22F8, irq_check_alt);
    }
}

proof fn lemma_serial_keeps_vcount(b: BusState, old_value: u16, value: u16)
    requires
        b.io.len() == IO_SIZE,
    ensures
        vcount_kept(b, serial_side_effects(b, old_value, value)),
{
    let mode = value & 0x3000;
    if mode == 0x2000 {
        let effective = value | 0x007C;
        let b1 = if effective != value {
            lemma_store16_keeps_vcount(b, REG_SIOCNT, effective);
            io_store16(b, REG_SIOCNT, effective)
        } else {
            b
        };
        let a1 = io_store16(b1, REG_SIOMULTI0, 0xFFFF);
        lemma_store16_keeps_vcount(b1, REG_SIOMULTI0, 0xFFFF);
        let a2 = io_store16(a1, REG_SIOMULTI1, 0xFFFF);
        lemma_store16_keeps_vcount(a1, REG_SIOMULTI1, 0xFFFF);
        let a3 = io_store16(a2, REG_SIOMULTI2, 0xFFFF);
        lemma_store16_keeps_vcount(a2, REG_SIOMULTI2, 0xFFFF);
        let a4 = io_store16(a3, REG_SIOMULTI3, 0xFFFF);
        lemma_store16_keeps_vcount(a3, REG_SIOMULTI3, 0xFFFF);
        lemma_request_interrupt_keeps_vcount(a4, IRQ_SERIAL);
    } else if mode == 0x1000 {
        let a1 = io_store16(b, REG_SIODATA32_L, 0xFFFF);
        lemma_store16_keeps_vcount(b, REG_SIODATA32_L, 0xFFFF);
        let a2 = io_store16(a1, REG_SIODATA32_H, 0xFFFF);
        lemma_store16_keeps_vcount(a1, REG_SIODATA32_H, 0xFFFF);
        let a3 = spec_request_interrupt(a2, IRQ_SERIAL);
        lemma_request_interrupt_keeps_vcount(a2, IRQ_SERIAL);
        lemma_store16_keeps_vcount(a3, REG_SIOCNT, value & !0x0080u16);
    }
}

/// Addresses aligned down to a halfword or a word are even.
pub proof fn lemma_aligned_addresses(x: u32)
    by (bit_vector)
    ensures
        (x & !1u32) % 2 == 0,
        (x & !3u32) % 2 == 0,
{
}

/// An aligned halfword write, with what it starts, leaves the VCOUNT bytes alone.
pub proof fn lemma_write16_keeps_vcount(b: BusState, addr: u32, value: u16, depth: nat)
    requires
        b.io.len() == IO_SIZE,
        addr % 2 == 0,
    ensures
        vcount_kept(b, spec_write16(b, addr, value, depth)),
    decreases depth, 3nat, 0nat,
{
    if addr == REG_VCOUNT || addr == REG_KEYINPUT {
    } else if addr == REG_IF {
        lemma_store16_keeps_vcount(b, REG_IF, io16(b, REG_IF) & !value);
    } else if in_io(addr) {
        let old_value = io16(b, addr);
        lemma_store16_keeps_vcount(b, addr, value);
        lemma_side_effects_keep_vcount(io_store16(b, addr, value), addr, old_value, value, depth);
    } else if in_vram(addr) || in_palette(addr) {
    } else {
        lemma_bytes_write16_keeps_vcount(b, addr, value);
    }
}

proof fn lemma_side_effects_keep_vcount(b: BusState, addr: u32, old_value: u16, value: u16, depth: nat)
    requires
        b.io.len() == IO_SIZE,
    ensures
        vcount_kept(b, spec_io_side_effects(b, addr, old_value, value, depth)),
    decreases depth, 2nat, 0nat,
{
    if addr == REG_SIOCNT {
        lemma_serial_keeps_vcount(b, old_value, value);
    } else if spec_timer_index_from_reload_addr(addr) is Some {
    } else if spec_dma_channel_from_cnt_h_addr(addr) is Some {
        let channel = spec_dma_channel_from_cnt_h_addr(addr)->0;
        let newly_enabled = (value & 0x8000) != 0 && (old_value & 0x8000) == 0;
        let start_timing = (value >> 12u16) & 0x3;
        if newly_enabled && start_timing == 0 && depth > 0 {
            lemma_run_dma_keeps_vcount(b, channel as int, (depth - 1) as nat);
        }
    } else if spec_timer_index_from_ctrl_addr(addr) is Some {
        let idx = spec_timer_index_from_ctrl_addr(addr)->0;
        let b1 = BusState { timer_divider: b.timer_divider.update(idx as int, 0), ..b };
        lemma_store16_keeps_vcount(b1, timer_reload_addr(idx as int), b1.timer_reload[idx as int]);
    }
}

/// An aligned word write, with what it starts, leaves the VCOUNT bytes alone.
pub proof fn lemma_write32_keeps_vcount(b: BusState, addr: u32, value: u32, depth: nat)
    requires
        b.io.len() == IO_SIZE,
        addr % 2 == 0,
    ensures
        vcount_kept(b, spec_write32(b, addr, value, depth)),
    decreases depth, 4nat, 0nat,
{
    if in_io(addr) {
        let b1 = spec_write16(b, addr, (value & 0xFFFFu32) as u16, depth);
        lemma_write16_keeps_vcount(b, addr, (value & 0xFFFFu32) as u16, depth);
        lemma_write16_keeps_vcount(b1, addr.wrapping_add(2), (value >> 16u32) as u16, depth);
    } else if in_palette(addr) || in_vram(addr) {
    } else {
        let b1 = spec_write8(b, addr, (value & 0xFFu32) as u8);
        let b2 = spec_write8(b1, addr.wrapping_add(1), ((value >> 8u32) & 0xFFu32) as u8);
        let b3 = spec_write8(b2, addr.wrapping_add(2), ((value >> 16u32) & 0xFFu32) as u8);
        lemma_write8_keeps_vcount(b, addr, (value & 0xFFu32) as u8);
        lemma_write8_keeps_vcount(b1, addr.wrapping_add(1), ((value >> 8u32) & 0xFFu32) as u8);
        lemma_write8_keeps_vcount(b2, addr.wrapping_add(2), ((value >> 16u32) & 0xFFu32) as u8);
        lemma_write8_keeps_vcount(b3, addr.wrapping_add(3), ((value >> 24u32) & 0xFFu32) as u8);
    }
}

proof fn lemma_dma_copy_keeps_vcount(b: BusState, p: DmaParams, src: u32, dst: u32, count: nat, depth: nat)
    requires
        b.io.len() == IO_SIZE,
    ensures
        vcount_kept(b, spec_dma_copy(b, p, src, dst, count, depth).0),
    decreases depth, 5nat, count,
{
    if count > 0 {
        lemma_aligned_addresses(dst);
        let b1 = if p.transfer32 {
            lemma_write32_keeps_vcount(b, dst & !3u32, spec_read32(b, src & !3u32), depth);
            spec_write32(b, dst & !3u32, spec_read32(b, src & !3u32), depth)
        } else {
            lemma_write16_keeps_vcount(b, dst & !1u32, spec_read16(b, src & !1u32), depth);
            spec_write16(b, dst & !1u32, spec_read16(b, src & !1u32), depth)
        };
        lemma_dma_copy_keeps_vcount(
            b1,
            p,
            spec_update_dma_addr(src, p.src_ctrl, p.unit_size),
            spec_update_dma_addr(dst, p.dst_ctrl, p.unit_size),
            (count - 1) as nat,
            depth,
        );
    }
}

proof fn lemma_store32_keeps_vcount(b: BusState, addr: u32, value: u32)
    requires
        b.io.len() == IO_SIZE,
        IO_START + 8 <= addr,
        addr + 3 < IO_START + IO_SIZE,
    ensures
        vcount_kept(b, io_store32(b, addr, value)),
{
    let b1 = io_store16(b, addr, (value & 0xFFFFu32) as u16);
    lemma_store16_keeps_vcount(b, addr, (value & 0xFFFFu32) as u16);
    lemma_store16_keeps_vcount(b1, addr.wrapping_add(2), (value >> 16u32) as u16);
}

proof fn lemma_run_dma_keeps_vcount(b: BusState, ch: int, depth: nat)
    requires
        b.io.len() == IO_SIZE,
        0 <= ch < 4,
    ensures
        vcount_kept(b, spec_run_dma(b, ch, depth)),
    decreases depth, 6nat, 0nat,
{
    let sad = dma_sad_addr(ch);
    let dad = dma_dad_addr(ch);
    let src = spec_read32(b, sad);
    let dst = spec_read32(b, dad);
    let cnt_l = io16(b, dma_cnt_l_addr(ch));
    let cnt_h = io16(b, dma_cnt_h_addr(ch));
    let p = dma_params(cnt_h);
    let start_timing = (cnt_h >> 12u16) & 0x3;
    let repeat = (cnt_h & 0x0200) != 0;
    let (b1, src2, dst2) = spec_dma_copy(b, p, src, dst, dma_word_count(ch, cnt_l), depth);
    lemma_dma_copy_keeps_vcount(b, p, src, dst, dma_word_count(ch, cnt_l), depth);
    let b2 = io_store32(b1, sad, src2);
    lemma_store32_keeps_vcount(b1, sad, src2);
    let b3 = if p.dst_ctrl == 3 && repeat && start_timing != 0 {
        lemma_store32_keeps_vcount(b2, dad, dst);
        io_store32(b2, dad, dst)
    } else {
        lemma_store32_keeps_vcount(b2, dad, dst2);
        io_store32(b2, dad, dst2)
    };
    let cnt_h2 = if !repeat || start_timing == 0 {
        cnt_h & !0x8000u16
    } else {
        cnt_h
    };
    let b4 = if !repeat || start_timing == 0 {
        lemma_store16_keeps_vcount(b3, dma_cnt_h_addr(ch), cnt_h2);
        io_store16(b3, dma_cnt_h_addr(ch), cnt_h2)
    } else {
        b3
    };
    if (cnt_h2 & 0x4000) != 0 {
        lemma_request_interrupt_keeps_vcount(b4, dma_irq_mask(ch));
    }
}

/// DMA channels started by a timing event leave VCOUNT alone.
pub proof fn lemma_trigger_dma_keeps_vcount(b: BusState, timing: u16, ch: nat)
    requires
        b.io.len() == IO_SIZE,
    ensures
        vcount_kept(b, spec_trigger_dma_from(b, timing, ch)),
    decreases 4 - ch,
{
    if ch < 4 {
        let cnt_h = io16(b, dma_cnt_h_addr(ch as int));
        let enabled = (cnt_h & 0x8000) != 0;
        let start_timing = (cnt_h >> 12u16) & 0x3;
        let b1 = if enabled && start_timing == timing {
            lemma_run_dma_keeps_vcount(b, ch as int, DMA_NEST_LIMIT as nat);
            spec_run_dma(b, ch as int, DMA_NEST_LIMIT as nat)
        } else {
            b
        };
        lemma_trigger_dma_keeps_vcount(b1, timing, ch + 1);
    }
}

/// Only the video clock moves VCOUNT: no byte write, and no aligned halfword or word
/// write (with every DMA transfer that it starts), changes what VCOUNT reads.
pub proof fn law_writes_keep_vcount(b: BusState, addr: u32, byte: u8, half: u16, word: u32, depth: nat)
    requires
        b.wf(),
    ensures
        spec_read16(spec_write8(b, addr, byte), REG_VCOUNT) == spec_read16(b, REG_VCOUNT),
        addr % 2 == 0 ==> spec_read16(spec_write16(b, addr, half, depth), REG_VCOUNT) == spec_read16(
            b,
            REG_VCOUNT,
        ),
        addr % 2 == 0 ==> spec_read16(spec_write32(b, addr, word, depth), REG_VCOUNT) == spec_read16(
            b,
            REG_VCOUNT,
        ),
{
    lemma_write8_keeps_vcount(b, addr, byte);
    if addr % 2 == 0 {
        lemma_write16_keeps_vcount(b, addr, half, depth);
        lemma_write32_keeps_vcount(b, addr, word, depth);
    }
}

/// One prescaler period of timer `i`: the counter increments, and on overflow reloads
/// (raising the timer's interrupt when enabled in `ctrl`).
pub open spec fn timer_period(b: BusState, i: int, ctrl: u16) -> BusState {
    let counter = io16(b, timer_reload_addr(i)).wrapping_add(1);
    let (b1, counter2) = if counter == 0 {
        if (ctrl & 0x0040) != 0 {
            (spec_request_interrupt(b, timer_irq_mask(i)), b.timer_reload[i])
        } else {
            (b, b.timer_reload[i])
        }
    } else {
        (b, counter)
    };
    io_store16(b1, timer_reload_addr(i), counter2)
}

pub open spec fn with_divider(b: BusState, i: int, v: u32) -> BusState {
    BusState { timer_divider: b.timer_divider.update(i, v), ..b }
}

proof fn lemma_timer_run_unfold(b: BusState, i: int, ctrl: u16, p: u32, d: u32)
    ensures
        p > 0 && d >= p ==> spec_timer_run(b, i, ctrl, p, d) == spec_timer_run(
            timer_period(b, i, ctrl),
            i,
            ctrl,
            p,
            (d - p) as u32,
        ),
        !(p > 0 && d >= p) ==> spec_timer_run(b, i, ctrl, p, d) == with_divider(b, i, d),
{
}

proof fn lemma_request_interrupt_shape(b: BusState, m: u16, v: u32, i: int)
    requires
        b.wf(),
        0 <= i < 4,
    ensures
        spec_request_interrupt(with_divider(b, i, v), m) == with_divider(spec_request_interrupt(b, m), i, v),
        spec_request_interrupt(b, m).wf(),
        spec_request_interrupt(b, m).io == io_store16(b, REG_IF, io16(b, REG_IF) | m).io,
        spec_request_interrupt(b, m).timer_divider == b.timer_divider,
        spec_request_interrupt(b, m).timer_reload == b.timer_reload,
        spec_request_interrupt(b, m).bios_loaded == b.bios_loaded,
{
    let bd = with_divider(b, i, v);
    let b1 = io_store16(b, REG_IF, io16(b, REG_IF) | m);
    if !b.bios_loaded {
        let irq_check = spec_read16(b1, 0x0300_22DC) | m | 0x0001u16;
        let b3 = bytes_write16(b1, 0x0300_22DC, irq_check);
        lemma_iwram_bytes_write16(b1, 0x0300_22DC, irq_check);
        let irq_check_alt = spec_read16(b3, 0x0300_22F8) | m | 0x0001u16;
        lemma_iwram_bytes_write16(b3, 0x0300_22F8, irq_check_alt);
    }
    assert(spec_request_interrupt(bd, m) =~= with_divider(spec_request_interrupt(b, m), i, v));
}

proof fn lemma_timer_period_shape(b: BusState, i: int, ctrl: u16, k: int, v: u32)
    requires
        b.wf(),
        0 <= i < 4,
        0 <= k < 4,
    ensures
        timer_period(with_divider(b, k, v), i, ctrl) == with_divider(timer_period(b, i, ctrl), k, v),
        timer_period(b, i, ctrl).wf(),
        io16(timer_period(b, i, ctrl), timer_ctrl_addr(k)) == io16(b, timer_ctrl_addr(k)),
        timer_period(b, i, ctrl).timer_divider == b.timer_divider,
{
    let counter = io16(b, timer_reload_addr(i)).wrapping_add(1);
    if counter == 0 && (ctrl & 0x0040) != 0 {
        lemma_request_interrupt_shape(b, timer_irq_mask(i), v, k);
    }
    assert(timer_period(with_divider(b, k, v), i, ctrl) =~= with_divider(timer_period(b, i, ctrl), k, v));
}

proof fn lemma_timer_run_ignores_divider(b: BusState, i: int, ctrl: u16, p: u32, d: u32, v: u32)
    requires
        b.wf(),
        0 <= i < 4,
    ensures
        spec_timer_run(with_divider(b, i, v), i, ctrl, p, d) == spec_timer_run(b, i, ctrl, p, d),
    decreases d,
{
    lemma_timer_run_unfold(b, i, ctrl, p, d);
    lemma_timer_run_unfold(with_divider(b, i, v), i, ctrl, p, d);
    if p > 0 && d >= p {
        lemma_timer_period_shape(b, i, ctrl, i, v);
        lemma_timer_run_ignores_divider(timer_period(b, i, ctrl), i, ctrl, p, (d - p) as u32, v);
    } else {
        assert(with_divider(with_divider(b, i, v), i, d) =~= with_divider(b, i, d));
    }
}

proof fn lemma_timer_run_split(b: BusState, i: int, ctrl: u16, p: u32, x: u32, c: u32)
    requires
        b.wf(),
        0 <= i < 4,
        p > 0,
        p <= MAX_TIMER_PRESCALER,
        x + c <= u32::MAX,
    ensures
        spec_timer_run(b, i, ctrl, p, x).timer_divider[i] <= x,
        spec_timer_run(b, i, ctrl, p, x).wf(),
        io16(spec_timer_run(b, i, ctrl, p, x), timer_ctrl_addr(i)) == io16(b, timer_ctrl_addr(i)),
        spec_timer_run(
            spec_timer_run(b, i, ctrl, p, x),
            i,
            ctrl,
            p,
            (spec_timer_run(b, i, ctrl, p, x).timer_divider[i] + c) as u32,
        ) == spec_timer_run(b, i, ctrl, p, (x + c) as u32),
    decreases x,
{
    lemma_timer_run_unfold(b, i, ctrl, p, x);
    lemma_timer_run_unfold(b, i, ctrl, p, (x + c) as u32);
    if x >= p {
        lemma_timer_period_shape(b, i, ctrl, i, 0);
        lemma_timer_run_split(timer_period(b, i, ctrl), i, ctrl, p, (x - p) as u32, c);
        assert((x + c - p) as u32 == ((x - p) as u32 + c) as u32);
    } else {
        lemma_timer_run_ignores_divider(b, i, ctrl, p, (x + c) as u32, x);
        assert(with_divider(b, i, x).timer_divider[i] == x);
    }
}

/// Ticking one timer by `a` cycles and then by `c` cycles leaves the bus as ticking
/// it once by `a + c` cycles (as long as `a + c` leaves room for a prescaler phase in
/// 32 bits).
pub proof fn law_timer_tick_additive(b: BusState, i: int, a: u32, c: u32)
    requires
        b.wf(),
        0 <= i < 4,
        a + c <= u32::MAX - MAX_TIMER_PRESCALER,
    ensures
        spec_tick_timer(spec_tick_timer(b, i, a), i, c) == spec_tick_timer(b, i, (a + c) as u32),
{
    assert(b.timer_divider[i] < MAX_TIMER_PRESCALER);
    let ctrl = io16(b, timer_ctrl_addr(i));
    if !((ctrl & 0x0080) == 0 || (ctrl & 0x0004) != 0) {
        let p = spec_timer_prescaler(ctrl & 0x3);
        let x = (b.timer_divider[i] + a) as u32;
        lemma_timer_run_split(b, i, ctrl, p, x, c);
        assert(b.timer_divider[i].wrapping_add(a) == x);
        assert(b.timer_divider[i].wrapping_add((a + c) as u32) == (x + c) as u32);
        let b1 = spec_timer_run(b, i, ctrl, p, x);
        assert(b1.timer_divider[i].wrapping_add(c) == (b1.timer_divider[i] + c) as u32);
    }
}

proof fn lemma_or_swap(x: u16, m1: u16, m2: u16)
    by (bit_vector)
    ensures
        ((x | m1) | m2) == ((x | m2) | m1),
        ((((x | m1) | 1u16) | m2) | 1u16) == ((((x | m2) | 1u16) | m1) | 1u16),
{
}

proof fn lemma_request_interrupt_commute(b: BusState, m1: u16, m2: u16)
    requires
        b.wf(),
    ensures
        spec_request_interrupt(spec_request_interrupt(b, m1), m2) == spec_request_interrupt(
            spec_request_interrupt(b, m2),
            m1,
        ),
{
    let a1 = spec_request_interrupt(b, m1);
    let a2 = spec_request_interrupt(b, m2);
    lemma_request_interrupt_shape(b, m1, 0, 0);
    lemma_request_interrupt_shape(b, m2, 0, 0);
    law_request_interrupt(b, m1);
    law_request_interrupt(b, m2);
    law_request_interrupt(a1, m2);
    law_request_interrupt(a2, m1);
    lemma_request_interrupt_shape(a1, m2, 0, 0);
    lemma_request_interrupt_shape(a2, m1, 0, 0);
    lemma_or_swap(io16(b, REG_IF), m1, m2);
    lemma_or_swap(spec_read16(b, 0x0300_22DC), m1, m2);
    lemma_or_swap(spec_read16(b, 0x0300_22F8), m1, m2);
    let r12 = spec_request_interrupt(a1, m2);
    let r21 = spec_request_interrupt(a2, m1);
    assert(r12.io =~= r21.io);
    assert(r12.iwram =~= r21.iwram);
    assert(r12 =~= r21);
}

proof fn lemma_request_interrupt_store_commute(b: BusState, m: u16, k: int, v: u16)
    requires
        b.wf(),
        0 <= k < 4,
    ensures
        spec_request_interrupt(io_store16(b, timer_reload_addr(k), v), m) == io_store16(
            spec_request_interrupt(b, m),
            timer_reload_addr(k),
            v,
        ),
{
    let x = io_store16(b, timer_reload_addr(k), v);
    lemma_request_interrupt_shape(b, m, 0, 0);
    lemma_request_interrupt_shape(x, m, 0, 0);
    assert(io16(x, REG_IF) == io16(b, REG_IF));
    if !b.bios_loaded {
        assert(spec_read16(x, 0x0300_22DC) == spec_read16(b, 0x0300_22DC));
    }
    let l = spec_request_interrupt(x, m);
    let r = io_store16(spec_request_interrupt(b, m), timer_reload_addr(k), v);
    assert(l.io =~= r.io);
    assert(l.iwram =~= r.iwram);
    assert(l =~= r);
}

proof fn lemma_timer_period_commute(b: BusState, i: int, j: int, ci: u16, cj: u16)
    requires
        b.wf(),
        0 <= i < 4,
        0 <= j < 4,
        i != j,
    ensures
        timer_period(timer_period(b, j, cj), i, ci) == timer_period(timer_period(b, i, ci), j, cj),
{
    let pj = timer_period(b, j, cj);
    let pi = timer_period(b, i, ci);
    lemma_timer_period_shape(b, i, ci, i, 0);
    lemma_timer_period_shape(b, j, cj, j, 0);
    let ci_counter = io16(b, timer_reload_addr(i)).wrapping_add(1);
    let cj_counter = io16(b, timer_reload_addr(j)).wrapping_add(1);
    let req_i = ci_counter == 0 && (ci & 0x0040) != 0;
    let req_j = cj_counter == 0 && (cj & 0x0040) != 0;
    if req_j {
        lemma_request_interrupt_shape(b, timer_irq_mask(j), 0, 0);
    }
    if req_i {
        lemma_request_interrupt_shape(b, timer_irq_mask(i), 0, 0);
    }
    assert(io16(pj, timer_reload_addr(i)) == io16(b, timer_reload_addr(i)));
    assert(io16(pi, timer_reload_addr(j)) == io16(b, timer_reload_addr(j)));
    assert(pj.timer_reload == b.timer_reload);
    assert(pi.timer_reload == b.timer_reload);
    let vi = if ci_counter == 0 { b.timer_reload[i] } else { ci_counter };
    let vj = if cj_counter == 0 { b.timer_reload[j] } else { cj_counter };
    let ri = if req_i { spec_request_interrupt(b, timer_irq_mask(i)) } else { b };
    if req_i {
        let rj = if req_j { spec_request_interrupt(b, timer_irq_mask(j)) } else { b };
        lemma_request_interrupt_store_commute(rj, timer_irq_mask(i), j, vj);
        if req_j {
            lemma_request_interrupt_shape(rj, timer_irq_mask(i), 0, 0);
            lemma_request_interrupt_commute(b, timer_irq_mask(i), timer_irq_mask(j));
        }
    }
    if req_j {
        lemma_request_interrupt_store_commute(ri, timer_irq_mask(j), i, vi);
        if req_i {
            lemma_request_interrupt_shape(ri, timer_irq_mask(j), 0, 0);
        }
    }
    let l = timer_period(pj, i, ci);
    let r = timer_period(pi, j, cj);
    assert(l.io =~= r.io);
    assert(l =~= r);
}

proof fn lemma_timer_run_keeps(b: BusState, i: int, ci: u16, p: u32, d: u32, k: int)
    requires
        b.wf(),
        0 < p <= MAX_TIMER_PRESCALER,
        0 <= i < 4,
        0 <= k < 4,
    ensures
        spec_timer_run(b, i, ci, p, d).wf(),
        io16(spec_timer_run(b, i, ci, p, d), timer_ctrl_addr(k)) == io16(b, timer_ctrl_addr(k)),
        k != i ==> spec_timer_run(b, i, ci, p, d).timer_divider[k] == b.timer_divider[k],
    decreases d,
{
    lemma_timer_run_unfold(b, i, ci, p, d);
    if p > 0 && d >= p {
        lemma_timer_period_shape(b, i, ci, k, 0);
        lemma_timer_run_keeps(timer_period(b, i, ci), i, ci, p, (d - p) as u32, k);
    }
}

proof fn lemma_timer_run_other_divider(b: BusState, i: int, ci: u16, p: u32, d: u32, k: int, v: u32)
    requires
        b.wf(),
        0 <= i < 4,
        0 <= k < 4,
        k != i,
    ensures
        spec_timer_run(with_divider(b, k, v), i, ci, p, d) == with_divider(spec_timer_run(b, i, ci, p, d), k, v),
    decreases d,
{
    lemma_timer_run_unfold(b, i, ci, p, d);
    lemma_timer_run_unfold(with_divider(b, k, v), i, ci, p, d);
    if p > 0 && d >= p {
        lemma_timer_period_shape(b, i, ci, k, v);
        lemma_timer_run_other_divider(timer_period(b, i, ci), i, ci, p, (d - p) as u32, k, v);
    } else {
        assert(with_divider(with_divider(b, k, v), i, d) =~= with_divider(with_divider(b, i, d), k, v));
    }
}

proof fn lemma_timer_run_period_commute(b: BusState, i: int, ci: u16, p: u32, d: u32, j: int, cj: u16)
    requires
        b.wf(),
        0 <= i < 4,
        0 <= j < 4,
        i != j,
    ensures
        spec_timer_run(timer_period(b, j, cj), i, ci, p, d) == timer_period(spec_timer_run(b, i, ci, p, d), j, cj),
    decreases d,
{
    lemma_timer_run_unfold(b, i, ci, p, d);
    lemma_timer_run_unfold(timer_period(b, j, cj), i, ci, p, d);
    lemma_timer_period_shape(b, j, cj, i, d);
    if p > 0 && d >= p {
        lemma_timer_period_shape(b, i, ci, i, 0);
        lemma_timer_period_commute(b, i, j, ci, cj);
        lemma_timer_run_period_commute(timer_period(b, i, ci), i, ci, p, (d - p) as u32, j, cj);
    }
}

proof fn lemma_timer_runs_commute(b: BusState, i: int, ci: u16, pi: u32, di: u32, j: int, cj: u16, pj: u32, dj: u32)
    requires
        b.wf(),
        0 < pi <= MAX_TIMER_PRESCALER,
        0 < pj <= MAX_TIMER_PRESCALER,
        0 <= i < 4,
        0 <= j < 4,
        i != j,
    ensures
        spec_timer_run(spec_timer_run(b, i, ci, pi, di), j, cj, pj, dj) == spec_timer_run(
            spec_timer_run(b, j, cj, pj, dj),
            i,
            ci,
            pi,
            di,
        ),
    decreases dj,
{
    let x = spec_timer_run(b, i, ci, pi, di);
    lemma_timer_run_keeps(b, i, ci, pi, di, 0);
    lemma_timer_run_unfold(x, j, cj, pj, dj);
    lemma_timer_run_unfold(b, j, cj, pj, dj);
    if pj > 0 && dj >= pj {
        lemma_timer_run_period_commute(b, i, ci, pi, di, j, cj);
        lemma_timer_period_shape(b, j, cj, j, 0);
        lemma_timer_runs_commute(timer_period(b, j, cj), i, ci, pi, di, j, cj, pj, (dj - pj) as u32);
    } else {
        lemma_timer_run_other_divider(b, i, ci, pi, di, j, dj);
    }
}

proof fn lemma_tick_timer_keeps(b: BusState, i: int, a: u32, k: int)
    requires
        b.wf(),
        0 <= i < 4,
        0 <= k < 4,
    ensures
        spec_tick_timer(b, i, a).wf(),
        io16(spec_tick_timer(b, i, a), timer_ctrl_addr(k)) == io16(b, timer_ctrl_addr(k)),
        k != i ==> spec_tick_timer(b, i, a).timer_divider[k] == b.timer_divider[k],
{
    let ctrl = io16(b, timer_ctrl_addr(i));
    if !((ctrl & 0x0080) == 0 || (ctrl & 0x0004) != 0) {
        let p = spec_timer_prescaler(ctrl & 0x3);
        lemma_timer_run_keeps(b, i, ctrl, p, b.timer_divider[i].wrapping_add(a), k);
    }
}

proof fn lemma_tick_timers_commute(b: BusState, i: int, a: u32, j: int, c: u32)
    requires
        b.wf(),
        0 <= i < 4,
        0 <= j < 4,
        i != j,
    ensures
        spec_tick_timer(spec_tick_timer(b, i, a), j, c) == spec_tick_timer(spec_tick_timer(b, j, c), i, a),
{
    lemma_tick_timer_keeps(b, i, a, i);
    lemma_tick_timer_keeps(b, i, a, j);
    lemma_tick_timer_keeps(b, j, c, i);
    lemma_tick_timer_keeps(b, j, c, j);
    let ctrl_i = io16(b, timer_ctrl_addr(i));
    let ctrl_j = io16(b, timer_ctrl_addr(j));
    let run_i = !((ctrl_i & 0x0080) == 0 || (ctrl_i & 0x0004) != 0);
    let run_j = !((ctrl_j & 0x0080) == 0 || (ctrl_j & 0x0004) != 0);
    if run_i && run_j {
        lemma_timer_runs_commute(
            b,
            i,
            ctrl_i,
            spec_timer_prescaler(ctrl_i & 0x3),
            b.timer_divider[i].wrapping_add(a),
            j,
            ctrl_j,
            spec_timer_prescaler(ctrl_j & 0x3),
            b.timer_divider[j].wrapping_add(c),
        );
    }
}

/// Timers are additive in time: ticking all four timers by `a` cycles and then by `c`
/// cycles leaves the bus as ticking them once by `a + c` cycles (as long as `a + c`
/// leaves room for a prescaler phase in 32 bits). The interrupts they raise only set
/// bits, so their order does not matter.
pub proof fn law_tick_timers_additive(b: BusState, a: u32, c: u32)
    requires
        b.wf(),
        a + c <= u32::MAX - MAX_TIMER_PRESCALER,
    ensures
        spec_tick_timers(spec_tick_timers(b, a), c) == spec_tick_timers(b, (a + c) as u32),
{
    let ac = (a + c) as u32;
    let a0 = spec_tick_timer(b, 0, a);
    let a1 = spec_tick_timer(a0, 1, a);
    let a2 = spec_tick_timer(a1, 2, a);
    lemma_tick_timer_keeps(b, 0, a, 1);
    lemma_tick_timer_keeps(b, 0, a, 2);
    lemma_tick_timer_keeps(b, 0, a, 3);
    lemma_tick_timer_keeps(a0, 1, a, 2);
    lemma_tick_timer_keeps(a0, 1, a, 3);
    lemma_tick_timer_keeps(a1, 2, a, 3);
    // Timer 0's second tick moves in front of the first ticks of timers 3, 2 and 1.
    lemma_tick_timers_commute(a2, 3, a, 0, c);
    lemma_tick_timers_commute(a1, 2, a, 0, c);
    lemma_tick_timers_commute(a0, 1, a, 0, c);
    law_timer_tick_additive(b, 0, a, c);
    let b0 = spec_tick_timer(b, 0, ac);
    lemma_tick_timer_keeps(b, 0, ac, 1);
    lemma_tick_timer_keeps(b, 0, ac, 2);
    lemma_tick_timer_keeps(b, 0, ac, 3);
    // Then timer 1's.
    let c1 = spec_tick_timer(b0, 1, a);
    lemma_tick_timer_keeps(b0, 1, a, 1);
    lemma_tick_timer_keeps(b0, 1, a, 2);
    lemma_tick_timer_keeps(b0, 1, a, 3);
    let c2 = spec_tick_timer(c1, 2, a);
    lemma_tick_timer_keeps(c1, 2, a, 3);
    lemma_tick_timers_commute(c2, 3, a, 1, c);
    lemma_tick_timers_commute(c1, 2, a, 1, c);
    law_timer_tick_additive(b0, 1, a, c);
    let b1 = spec_tick_timer(b0, 1, ac);
    lemma_tick_timer_keeps(b0, 1, ac, 2);
    lemma_tick_timer_keeps(b0, 1, ac, 3);
    // Then timer 2's.
    let d2 = spec_tick_timer(b1, 2, a);
    lemma_tick_timer_keeps(b1, 2, a, 3);
    lemma_tick_timers_commute(d2, 3, a, 2, c);
    law_timer_tick_additive(b1, 2, a, c);
    let b2 = spec_tick_timer(b1, 2, ac);
    lemma_tick_timer_keeps(b1, 2, ac, 3);
    // Finally timer 3.
    law_timer_tick_additive(b2, 3, a, c);
}

proof fn lemma_timer_run_keeps_vcount(b: BusState, i: int, ctrl: u16, p: u32, d: u32)
    requires
        b.io.len() == IO_SIZE,
        0 <= i < 4,
    ensures
        vcount_kept(b, spec_timer_run(b, i, ctrl, p, d)),
    decreases d,
{
    lemma_timer_run_unfold(b, i, ctrl, p, d);
    if p > 0 && d >= p {
        let counter = io16(b, timer_reload_addr(i)).wrapping_add(1);
        let b1 = if counter == 0 && (ctrl & 0x0040) != 0 {
            lemma_request_interrupt_keeps_vcount(b, timer_irq_mask(i));
            spec_request_interrupt(b, timer_irq_mask(i))
        } else {
            b
        };
        let c2 = if counter == 0 {
            b.timer_reload[i]
        } else {
            counter
        };
        lemma_store16_keeps_vcount(b1, timer_reload_addr(i), c2);
        lemma_timer_run_keeps_vcount(timer_period(b, i, ctrl), i, ctrl, p, (d - p) as u32);
    }
}

/// Ticking the timers leaves the VCOUNT bytes alone.
pub proof fn lemma_tick_timers_keep_vcount(b: BusState, cycles: u32)
    requires
        b.io.len() == IO_SIZE,
    ensures
        vcount_kept(b, spec_tick_timers(b, cycles)),
{
    let b0 = spec_tick_timer(b, 0, cycles);
    let b1 = spec_tick_timer(b0, 1, cycles);
    let b2 = spec_tick_timer(b1, 2, cycles);
    assert forall|x: BusState, k: int| x.io.len() == IO_SIZE && 0 <= k < 4 implies vcount_kept(
        x,
        #[trigger] spec_tick_timer(x, k, cycles),
    ) by {
        let ctrl = io16(x, timer_ctrl_addr(k));
        if !((ctrl & 0x0080) == 0 || (ctrl & 0x0004) != 0) {
            lemma_timer_run_keeps_vcount(
                x,
                k,
                ctrl,
                spec_timer_prescaler(ctrl & 0x3),
                x.timer_divider[k].wrapping_add(cycles),
            );
        }
    }
    assert(vcount_kept(b, b0));
    assert(vcount_kept(b0, b1));
    assert(vcount_kept(b1, b2));
    assert(vcount_kept(b2, spec_tick_timer(b2, 3, cycles)));
}

// ---------------------------------------------------------------------------
// DMA address control
// ---------------------------------------------------------------------------

/// A DMA register word stored with no side effect reads back as stored.
proof fn lemma_read32_after_store32(b: BusState, addr: u32, v: u32)
    requires
        b.io.len() == IO_SIZE,
        IO_START <= addr,
        addr + 3 < IO_START + IO_SIZE,
    ensures
        spec_read32(io_store32(b, addr, v), addr) == v,
        io_store32(b, addr, v).io.len() == IO_SIZE,
{
    lemma_word_bytes(v);
}

/// The addresses a DMA copy ends at: an incrementing address (control 0) moves by
/// `count` units, a fixed one (control 2) stays.
proof fn lemma_dma_copy_addresses(b: BusState, p: DmaParams, src: u32, dst: u32, count: nat, depth: nat)
    ensures
        p.src_ctrl == 0 ==> spec_dma_copy(b, p, src, dst, count, depth).1 as int == (src + p.unit_size * count)
            % 0x1_0000_0000,
        p.src_ctrl == 2 ==> spec_dma_copy(b, p, src, dst, count, depth).1 == src,
        p.dst_ctrl == 0 ==> spec_dma_copy(b, p, src, dst, count, depth).2 as int == (dst + p.unit_size * count)
            % 0x1_0000_0000,
        p.dst_ctrl == 2 ==> spec_dma_copy(b, p, src, dst, count, depth).2 == dst,
    decreases count,
{
    let m = 0x1_0000_0000int;
    if count == 0 {
        vstd::arithmetic::div_mod::lemma_small_mod(src as nat, m as nat);
        vstd::arithmetic::div_mod::lemma_small_mod(dst as nat, m as nat);
    } else {
        let b1 = if p.transfer32 {
            spec_write32(b, dst & !3u32, spec_read32(b, src & !3u32), depth)
        } else {
            spec_write16(b, dst & !1u32, spec_read16(b, src & !1u32), depth)
        };
        let s1 = spec_update_dma_addr(src, p.src_ctrl, p.unit_size);
        let d1 = spec_update_dma_addr(dst, p.dst_ctrl, p.unit_size);
        lemma_dma_copy_addresses(b1, p, s1, d1, (count - 1) as nat, depth);
        let u = p.unit_size as int;
        assert(src.wrapping_add(p.unit_size) as int == (src + u) % m) by {
            if src + u > u32::MAX {
                vstd::arithmetic::div_mod::lemma_fundamental_div_mod_converse(src + u, m, 1, src + u - m);
            } else {
                vstd::arithmetic::div_mod::lemma_small_mod((src + u) as nat, m as nat);
            }
        }
        assert(dst.wrapping_add(p.unit_size) as int == (dst + u) % m) by {
            if dst + u > u32::MAX {
                vstd::arithmetic::div_mod::lemma_fundamental_div_mod_converse(dst + u, m, 1, dst + u - m);
            } else {
                vstd::arithmetic::div_mod::lemma_small_mod((dst + u) as nat, m as nat);
            }
        }
        assert(((src + u) % m + u * (count - 1)) % m == (src + u * count) % m) by {
            vstd::arithmetic::div_mod::lemma_add_mod_noop(src + u, u * (count - 1), m);
            vstd::arithmetic::div_mod::lemma_mod_twice(src + u, m);
            vstd::arithmetic::div_mod::lemma_add_mod_noop((src + u) % m, u * (count - 1), m);
            assert(src + u + u * (count - 1) == src + u * count) by (nonlinear_arith);
        }
        assert(((dst + u) % m + u * (count - 1)) % m == (dst + u * count) % m) by {
            vstd::arithmetic::div_mod::lemma_add_mod_noop(dst + u, u * (count - 1), m);
            vstd::arithmetic::div_mod::lemma_mod_twice(dst + u, m);
            vstd::arithmetic::div_mod::lemma_add_mod_noop((dst + u) % m, u * (count - 1), m);
            assert(dst + u + u * (count - 1) == dst + u * count) by (nonlinear_arith);
        }
    }
}

/// DMA address control: the destination control is CNT_H bits 5-6 and the source
/// control bits 7-8. After a transfer the address registers hold where the transfer
/// ended: an incrementing address (control 0) has moved on by the unit count times
/// the unit size (4 bytes when bit 10 is set, else 2), a fixed one (control 2) is
/// unchanged, each whatever the other address's control is. A count of 0 means the
/// channel maximum.
pub proof fn law_dma_address_control(b: BusState, ch: int, depth: nat)
    requires
        b.wf(),
        0 <= ch < 4,
    ensures
        ({
            let cnt_h = io16(b, dma_cnt_h_addr(ch));
            let cnt_l = io16(b, dma_cnt_l_addr(ch));
            let unit: int = if (cnt_h & 0x0400) != 0 {
                4
            } else {
                2
            };
            let count: int = if cnt_l == 0 {
                if ch == 3 {
                    0x1_0000
                } else {
                    0x4000
                }
            } else {
                cnt_l as int
            };
            let sad = spec_read32(b, dma_sad_addr(ch));
            let dad = spec_read32(b, dma_dad_addr(ch));
            let r = spec_run_dma(b, ch, depth);
            &&& ((cnt_h >> 5u16) & 0x3) == 0 ==> spec_read32(r, dma_dad_addr(ch)) as int == (dad + unit * count)
                % 0x1_0000_0000
            &&& ((cnt_h >> 5u16) & 0x3) == 2 ==> spec_read32(r, dma_dad_addr(ch)) == dad
            &&& ((cnt_h >> 7u16) & 0x3) == 0 ==> spec_read32(r, dma_sad_addr(ch)) as int == (sad + unit * count)
                % 0x1_0000_0000
            &&& ((cnt_h >> 7u16) & 0x3) == 2 ==> spec_read32(r, dma_sad_addr(ch)) == sad
        }),
{
    let sad_a = dma_sad_addr(ch);
    let dad_a = dma_dad_addr(ch);
    let src = spec_read32(b, sad_a);
    let dst = spec_read32(b, dad_a);
    let cnt_l = io16(b, dma_cnt_l_addr(ch));
    let cnt_h = io16(b, dma_cnt_h_addr(ch));
    let p = dma_params(cnt_h);
    let start_timing = (cnt_h >> 12u16) & 0x3;
    let repeat = (cnt_h & 0x0200) != 0;
    let (b1, src2, dst2) = spec_dma_copy(b, p, src, dst, dma_word_count(ch, cnt_l), depth);
    lemma_dma_copy_addresses(b, p, src, dst, dma_word_count(ch, cnt_l), depth);
    lemma_run_dma_keeps_vcount(b, ch, depth);
    lemma_dma_copy_keeps_vcount(b, p, src, dst, dma_word_count(ch, cnt_l), depth);
    let b2 = io_store32(b1, sad_a, src2);
    lemma_read32_after_store32(b1, sad_a, src2);
    let d3 = if p.dst_ctrl == 3 && repeat && start_timing != 0 {
        dst
    } else {
        dst2
    };
    let b3 = io_store32(b2, dad_a, d3);
    lemma_read32_after_store32(b2, dad_a, d3);
    assert(spec_read32(b3, sad_a) == src2);
    let cnt_h2 = if !repeat || start_timing == 0 {
        cnt_h & !0x8000u16
    } else {
        cnt_h
    };
    let b4 = if !repeat || start_timing == 0 {
        io_store16(b3, dma_cnt_h_addr(ch), cnt_h2)
    } else {
        b3
    };
    assert(spec_read32(b4, sad_a) == src2);
    assert(spec_read32(b4, dad_a) == d3);
    lemma_request_interrupt_io(b4, dma_irq_mask(ch));
}

/// Raising an interrupt changes no I/O register but IF.
proof fn lemma_request_interrupt_io(b: BusState, m: u16)
    ensures
        spec_request_interrupt(b, m).io == io_store16(b, REG_IF, io16(b, REG_IF) | m).io,
{
}

proof fn lemma_dma_word_copy_frame(b: BusState, p: DmaParams, src: u32, dst: u32, n: nat, depth: nat, o: u32)
    requires
        b.wf(),
        p.transfer32,
        p.dst_ctrl == 0,
        p.unit_size == 4,
        crate::cpu_laws::ewram_words(dst, n as int),
        EWRAM_START <= o < EWRAM_START + EWRAM_SIZE,
        o < dst || o >= dst + 4 * n,
    ensures
        spec_read8(spec_dma_copy(b, p, src, dst, n, depth).0, o) == spec_read8(b, o),
        spec_dma_copy(b, p, src, dst, n, depth).0.wf(),
    decreases n,
{
    if n > 0 {
        lemma_align_down(dst);
        let v = spec_read32(b, src & !3u32);
        let b1 = spec_write32(b, dst, v, depth);
        lemma_ewram_write32_frame(b, dst, v, depth, o);
        lemma_ewram_write32_wf(b, dst, v, depth);
        assert(dst.wrapping_add(4) == dst + 4);
        lemma_dma_word_copy_frame(
            b1,
            p,
            spec_update_dma_addr(src, p.src_ctrl, 4),
            dst.wrapping_add(4),
            (n - 1) as nat,
            depth,
            o,
        );
    }
}

#[verifier::spinoff_prover]
#[verifier::rlimit(100)]
proof fn lemma_dma_word_copy(b: BusState, p: DmaParams, src: u32, dst: u32, n: nat, depth: nat, k: int)
    requires
        b.wf(),
        p.transfer32,
        p.dst_ctrl == 0,
        p.src_ctrl == 0 || p.src_ctrl == 2,
        p.unit_size == 4,
        crate::cpu_laws::ewram_words(src, if p.src_ctrl == 0 {
            n as int
        } else {
            1
        }),
        crate::cpu_laws::ewram_words(dst, n as int),
        (src + 4 * (if p.src_ctrl == 0 {
            n as int
        } else {
            1
        }) <= dst || dst + 4 * n <= src),
        0 <= k < n,
    ensures
        spec_read32(spec_dma_copy(b, p, src, dst, n, depth).0, (dst + 4 * k) as u32) == spec_read32(
            b,
            (if p.src_ctrl == 0 {
                src + 4 * k
            } else {
                src as int
            }) as u32,
        ),
    decreases n,
{
    lemma_align_down(dst);
    lemma_align_down(src);
    let v = spec_read32(b, src);
    let b1 = spec_write32(b, dst, v, depth);
    lemma_ewram_write32_wf(b, dst, v, depth);
    let s1 = spec_update_dma_addr(src, p.src_ctrl, 4);
    let d1 = dst.wrapping_add(4);
    assert(d1 == dst + 4);
    assert(p.src_ctrl == 0 ==> s1 == src + 4);
    assert(p.src_ctrl == 2 ==> s1 == src);
    if k == 0 {
        law_ewram_read32_after_write32(b, dst, v, depth);
        lemma_dma_word_copy_frame(b1, p, s1, d1, (n - 1) as nat, depth, dst);
        lemma_dma_word_copy_frame(b1, p, s1, d1, (n - 1) as nat, depth, (dst + 1) as u32);
        lemma_dma_word_copy_frame(b1, p, s1, d1, (n - 1) as nat, depth, (dst + 2) as u32);
        lemma_dma_word_copy_frame(b1, p, s1, d1, (n - 1) as nat, depth, (dst + 3) as u32);
        assert(dst.wrapping_add(1) == dst + 1);
        assert(dst.wrapping_add(2) == dst + 2);
        assert(dst.wrapping_add(3) == dst + 3);
    } else {
        lemma_dma_word_copy(b1, p, s1, d1, (n - 1) as nat, depth, k - 1);
        let a = (if p.src_ctrl == 0 {
            src + 4 * k
        } else {
            src as int
        }) as u32;
        lemma_ewram_write32_frame(b, dst, v, depth, a);
        lemma_ewram_write32_frame(b, dst, v, depth, (a + 1) as u32);
        lemma_ewram_write32_frame(b, dst, v, depth, (a + 2) as u32);
        lemma_ewram_write32_frame(b, dst, v, depth, (a + 3) as u32);
        assert(a.wrapping_add(1) == a + 1);
        assert(a.wrapping_add(2) == a + 2);
        assert(a.wrapping_add(3) == a + 3);
        assert(d1 + 4 * (k - 1) == dst + 4 * k);
        assert(p.src_ctrl == 0 ==> s1 + 4 * (k - 1) == src + 4 * k);
    }
}

/// A 32-bit DMA transfer with an incrementing destination (control 0, CNT_H bits
/// 5-6) writes unit `k` at DAD + 4k: that word reads as source unit `k` for an
/// incrementing source (control 0, bits 7-8), or as the one source word for a fixed
/// source (control 2) (shown here for source and destination in work RAM, apart from
/// each other).
pub proof fn law_dma_copies_units(b: BusState, ch: int, depth: nat, k: int)
    requires
        b.wf(),
        0 <= ch < 4,
        ({
            let cnt_h = io16(b, dma_cnt_h_addr(ch));
            let cnt_l = io16(b, dma_cnt_l_addr(ch));
            let count: int = if cnt_l == 0 {
                if ch == 3 {
                    0x1_0000
                } else {
                    0x4000
                }
            } else {
                cnt_l as int
            };
            let sc = (cnt_h >> 7u16) & 0x3;
            let src_words: int = if sc == 0 {
                count
            } else {
                1
            };
            let src = spec_read32(b, dma_sad_addr(ch));
            let dst = spec_read32(b, dma_dad_addr(ch));
            &&& (cnt_h & 0x0400) != 0
            &&& ((cnt_h >> 5u16) & 0x3) == 0
            &&& (sc == 0 || sc == 2)
            &&& crate::cpu_laws::ewram_words(src, src_words)
            &&& crate::cpu_laws::ewram_words(dst, count)
            &&& (src + 4 * src_words <= dst || dst + 4 * count <= src)
            &&& 0 <= k < count
        }),
    ensures
        ({
            let cnt_h = io16(b, dma_cnt_h_addr(ch));
            let src = spec_read32(b, dma_sad_addr(ch));
            let dst = spec_read32(b, dma_dad_addr(ch));
            spec_read32(spec_run_dma(b, ch, depth), (dst + 4 * k) as u32) == spec_read32(
                b,
                (if ((cnt_h >> 7u16) & 0x3) == 0 {
                    src + 4 * k
                } else {
                    src as int
                }) as u32,
            )
        }),
{
    let sad_a = dma_sad_addr(ch);
    let dad_a = dma_dad_addr(ch);
    let src = spec_read32(b, sad_a);
    let dst = spec_read32(b, dad_a);
    let cnt_l = io16(b, dma_cnt_l_addr(ch));
    let cnt_h = io16(b, dma_cnt_h_addr(ch));
    let p = dma_params(cnt_h);
    lemma_dma_word_copy(b, p, src, dst, dma_word_count(ch, cnt_l), depth, k);
    let b1 = spec_dma_copy(b, p, src, dst, dma_word_count(ch, cnt_l), depth).0;
    assert(spec_run_dma(b, ch, depth).ewram == b1.ewram);
}

} // verus!
