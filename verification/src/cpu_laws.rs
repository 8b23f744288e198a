//! Properties of the core that span several operations or hold for every input.
use vstd::prelude::*;
use crate::cpu::{
    spec_switch_mode, spec_condition_passed, spec_write_cpsr_fields, spec_branch_exchange,
    spec_hle_div, spec_add_with_flags, spec_mode_from_cpsr, spec_sub_with_flags, thumb_state, pc_of, CpuMode, CpuState,
    CPSR_THUMB, BIOSLESS_IRQ_RETURN_MAGIC, CPSR_C, CPSR_IRQ_DISABLE, REG_LR, flag_of,
    spec_decode_shifted_register_operand, spec_handle_irq,
};
use crate::cpu::{spec_clear_from, spec_register_ram_reset};
use crate::cpu::{
    bus_w16, bus_w32, spec_block_transfer_from, spec_thumb_multiple_from, spec_cpuset_words, spec_cpuset_halves,
    spec_hle_swi, spec_clear_region, spec_read_user_reg, spec_write_user_reg, spec_read_arm_reg, with_reg,
    spec_arm_halfword_transfer, spec_arm_swap, spec_arm_single_data_transfer, spec_arm_block_transfer,
    spec_arm_data_group, spec_thumb_reg_offset, spec_thumb_imm_offset, spec_thumb_halfword, spec_thumb_sp_rel,
    spec_thumb_ldm_stm, spec_thumb_push_pop, spec_exec_arm, spec_exec_thumb, count_low_ones, REG_SP,
    spec_step, REG_PC, spec_thumb_alu, with_flag, with_cv, CPSR_N, CPSR_Z, spec_hle_cpuset,
};
use crate::bus::{spec_read16, spec_read32, spec_read8, spec_write8, IO_SIZE, DMA_NEST_LIMIT, REG_VCOUNT};
use crate::bus_laws::{
    lemma_align_down, lemma_ewram_write32_frame, lemma_ewram_write32_wf, law_ewram_read32_after_write32,
    vcount_kept, lemma_write8_keeps_vcount, lemma_write16_keeps_vcount, lemma_write32_keeps_vcount,
    lemma_aligned_addresses,
};
use crate::bus::{
    BusState, in_iwram, iwram_offset, BIOS_SIZE, EWRAM_SIZE, EWRAM_START, IWRAM_SIZE, IWRAM_START,
    OAM_SIZE, OAM_START, PALETTE_RAM_SIZE, PALETTE_RAM_START, VRAM_SIZE, VRAM_START, GAMEPAK_ROM_START,
    io16, spec_has_pending_interrupts, REG_IE, REG_IF,
};

verus! {

/// Switching to any mode and back to the starting one gives back every visible
/// register and the starting mode.
pub proof fn law_switch_mode_round_trip(c: CpuState, m: CpuMode)
    requires
        c.wf(),
    ensures
        spec_switch_mode(spec_switch_mode(c, m), c.mode).regs == c.regs,
        spec_switch_mode(spec_switch_mode(c, m), c.mode).mode == c.mode,
{
    let c1 = spec_switch_mode(c, m);
    let c2 = spec_switch_mode(c1, c.mode);
    assert(c2.regs =~= c.regs);
}

/// A mode switch enters the new mode, keeps the status register, and never banks the
/// registers r0-r7 and PC.
pub proof fn law_switch_mode_keeps_low_registers(c: CpuState, m: CpuMode, i: int)
    requires
        c.wf(),
        0 <= i < 8 || i == 15,
    ensures
        spec_switch_mode(c, m).regs[i] == c.regs[i],
        spec_switch_mode(c, m).regs.len() == 16,
        spec_switch_mode(c, m).mode == m,
        spec_switch_mode(c, m).cpsr == c.cpsr,
{
}

/// Condition codes come in complementary pairs (EQ/NE, CS/CC, ..., GT/LE); AL always
/// passes and the reserved code never does.
pub proof fn law_condition_pairs(c: CpuState, cond: u8)
    ensures
        cond < 14 && cond % 2 == 0 ==> spec_condition_passed(c, cond) != spec_condition_passed(
            c,
            (cond + 1) as u8,
        ),
        spec_condition_passed(c, 0xE),
        !spec_condition_passed(c, 0xF),
{
}

/// MSR never changes the THUMB bit, and in user mode it changes only the flag bits
/// (and, when the mode field agrees with the mode, no register).
pub proof fn law_msr_cpsr_protection(c: CpuState, value: u32, field_mask: u8)
    requires
        c.wf(),
    ensures
        spec_write_cpsr_fields(c, value, field_mask).cpsr & CPSR_THUMB == c.cpsr & CPSR_THUMB,
        c.mode == CpuMode::User ==> spec_write_cpsr_fields(c, value, field_mask).cpsr & 0x0FFF_FFFF
            == c.cpsr & 0x0FFF_FFFF,
        c.mode == CpuMode::User && spec_mode_from_cpsr(c.cpsr) == c.mode ==> spec_write_cpsr_fields(
            c,
            value,
            field_mask,
        ).regs == c.regs,
{
    let m0 = crate::cpu::field_mask_bits(field_mask) & 0xF000_00DFu32;
    let um = m0 & 0xF000_0000u32;
    let mask = if c.mode == CpuMode::User {
        um
    } else {
        m0
    };
    let cp = c.cpsr;
    let raw = (cp & !mask) | (value & mask);
    let fb = cp & 0x1Fu32;
    assert((m0 & 0x20u32) == 0 && (um & 0x20u32) == 0) by (bit_vector)
        requires
            m0 == crate::cpu::field_mask_bits(field_mask) & 0xF000_00DFu32,
            um == m0 & 0xF000_0000u32,
    ;
    assert(raw & 0x20u32 == cp & 0x20u32 && ((raw & !0x1Fu32) | (fb & 0x1Fu32)) & 0x20u32 == cp
        & 0x20u32) by (bit_vector)
        requires
            raw == (cp & !mask) | (value & mask),
            mask & 0x20u32 == 0,
            fb == cp & 0x1Fu32,
    ;
    if c.mode == CpuMode::User {
        assert(raw & 0x0FFF_FFFFu32 == cp & 0x0FFF_FFFFu32 && raw & 0x1Fu32 == cp & 0x1Fu32 && ((raw
            & !0x1Fu32) | (fb & 0x1Fu32)) & 0x0FFF_FFFFu32 == cp & 0x0FFF_FFFFu32) by (bit_vector)
            requires
                raw == (cp & !um) | (value & um),
                um == m0 & 0xF000_0000u32,
                fb == cp & 0x1Fu32,
        ;
    }
}

/// BX: bit 0 of the target selects the THUMB state and PC is the target aligned for
/// that state, except that BX to 0 from BIOS code enters the cartridge in ARM state;
/// no other status bit and no other visible register changes.
pub proof fn law_branch_exchange_state(c: CpuState, target: u32, i: int)
    requires
        c.wf(),
        !(c.biosless_irq_active && (target & !1u32) == BIOSLESS_IRQ_RETURN_MAGIC),
        0 <= i < 15,
    ensures
        target == 0 && pc_of(c) < BIOS_SIZE ==> pc_of(spec_branch_exchange(c, target)) == GAMEPAK_ROM_START
            && !thumb_state(spec_branch_exchange(c, target)),
        !(target == 0 && pc_of(c) < BIOS_SIZE) ==> thumb_state(spec_branch_exchange(c, target)) == ((
        target & 1) != 0),
        !(target == 0 && pc_of(c) < BIOS_SIZE) ==> pc_of(spec_branch_exchange(c, target)) == (if (target
            & 1) != 0 {
            target & !1u32
        } else {
            target & !3u32
        }),
        spec_branch_exchange(c, target).cpsr & !CPSR_THUMB == c.cpsr & !CPSR_THUMB,
        spec_branch_exchange(c, target).regs[i] == c.regs[i],
        spec_branch_exchange(c, target).mode == c.mode,
{
    let cp = c.cpsr;
    assert((cp | 0x20u32) & 0x20u32 != 0 && (cp & !0x20u32) & 0x20u32 == 0 && (cp | 0x20u32) & !0x20u32
        == cp & !0x20u32 && (cp & !0x20u32) & !0x20u32 == cp & !0x20u32) by (bit_vector);
}

/// Operand 2 as a register shifted by an immediate 0: LSL #0 is the register itself
/// with the carry kept, LSR #0 and ASR #0 mean a shift by 32, and ROR #0 is RRX.
pub proof fn law_shift_by_immediate_zero(c: CpuState, instr: u32)
    requires
        c.wf(),
        instr & 0x10 == 0,
        (instr >> 7u32) & 0x1F == 0,
        instr & 0xF != 15,
    ensures
        ({
            let v = c.regs[(instr & 0xF) as int];
            let cf = flag_of(c, CPSR_C);
            let t = (instr >> 5u32) & 0x3;
            spec_decode_shifted_register_operand(c, instr) == if t == 0 {
                (v, cf)
            } else if t == 1 {
                (0u32, (v >> 31u32) == 1)
            } else if t == 2 {
                (if (v >> 31u32) == 1 {
                    u32::MAX
                } else {
                    0u32
                }, (v >> 31u32) == 1)
            } else {
                ((if cf {
                    1u32
                } else {
                    0u32
                } << 31u32) | (v >> 1u32), (v & 1) == 1)
            }
        }),
{
    let v = c.regs[(instr & 0xF) as int];
    assert(((v >> 31u32) != 0 <==> (v >> 31u32) == 1) && ((v & 1) != 0 <==> (v & 1) == 1)) by (bit_vector);
}

/// IRQ entry from ARM state in a mode other than IRQ and FIQ: the interrupt is taken
/// exactly when a BIOS image is mapped, IRQs are enabled and an enabled interrupt is
/// pending; it then enters IRQ mode at vector 0x18 in ARM state with IRQs disabled,
/// the return address PC + 4 in LR, the old status in SPSR_irq and r0-r12 kept.
/// Otherwise nothing changes.
pub proof fn law_irq_entry(c: CpuState, b: BusState, i: int)
    requires
        c.wf(),
        !thumb_state(c),
        c.mode != CpuMode::Irq,
        c.mode != CpuMode::Fiq,
        0 <= i < 13,
    ensures
        spec_handle_irq(c, b).1 == (b.bios_loaded && (c.cpsr & CPSR_IRQ_DISABLE) == 0
            && spec_has_pending_interrupts(b)),
        !spec_handle_irq(c, b).1 ==> spec_handle_irq(c, b).0 == c,
        spec_handle_irq(c, b).1 ==> {
            let n = spec_handle_irq(c, b).0;
            &&& n.mode == CpuMode::Irq
            &&& pc_of(n) == 0x18
            &&& n.regs[REG_LR as int] == pc_of(c).wrapping_add(4)
            &&& n.spsr_irq == c.cpsr
            &&& (n.cpsr & CPSR_IRQ_DISABLE) != 0
            &&& !thumb_state(n)
            &&& n.regs[i] == c.regs[i]
        },
{
    let c1 = spec_switch_mode(CpuState { spsr_irq: c.cpsr, ..c }, CpuMode::Irq);
    let x = c1.cpsr;
    assert(((x & !0x20u32) | 0x80u32) & 0x80u32 != 0 && ((x & !0x20u32) | 0x80u32) & 0x20u32 == 0)
        by (bit_vector);
}

/// Div on a non-negative dividend and a positive divisor gives the quotient and the
/// remainder of ordinary division.
pub proof fn law_div_nonnegative(c: CpuState)
    requires
        c.wf(),
        0 <= (c.regs[0] as i32),
        0 < (c.regs[1] as i32),
    ensures
        spec_hle_div(c).regs[0] == c.regs[0] / c.regs[1],
        spec_hle_div(c).regs[1] == c.regs[0] % c.regs[1],
{
    let n = c.regs[0];
    let d = c.regs[1];
    assert((0 <= (n as i32) ==> (n as i32) as int == n as int) && (0 < (d as i32) ==> (d as i32) as int == d as int))
        by (bit_vector);
}

/// The add and subtract flag helpers agree with integer arithmetic: the result is the
/// sum (difference) modulo 2^32, carry is the unsigned carry-out (no borrow).
pub proof fn law_add_sub_flags(lhs: u32, rhs: u32)
    ensures
        spec_add_with_flags(lhs, rhs).0 as int == (lhs as int + rhs as int) % 0x1_0000_0000,
        spec_add_with_flags(lhs, rhs).1 == (lhs as int + rhs as int >= 0x1_0000_0000),
        spec_sub_with_flags(lhs, rhs).0 as int == (lhs as int - rhs as int) % 0x1_0000_0000,
        spec_sub_with_flags(lhs, rhs).1 == (lhs >= rhs),
{
}

/// Whether the byte at `start + k` is IWRAM byte `j`.
pub open spec fn writes_iwram_byte(start: u32, k: nat, j: int) -> bool {
    in_iwram((start + k) as u32) && iwram_offset((start + k) as u32) == j
}

/// Zeroing bytes `start + i .. start + size` leaves IWRAM byte `j` alone when none of
/// those addresses is that byte.
proof fn lemma_clear_keeps_iwram_byte(b: BusState, start: u32, i: nat, size: nat, j: int)
    requires
        b.iwram.len() == IWRAM_SIZE,
        0 <= j < IWRAM_SIZE,
        start + size <= u32::MAX,
        forall|k: nat| i <= k < size ==> !#[trigger] writes_iwram_byte(start, k, j),
    ensures
        spec_clear_from(b, start, i, size).iwram.len() == IWRAM_SIZE,
        spec_clear_from(b, start, i, size).iwram[j] == b.iwram[j],
    decreases size - i,
{
    if i < size {
        let b1 = crate::bus::spec_write8(b, (start + i) as u32, 0);
        assert(!writes_iwram_byte(start, i, j));
        assert(b1.iwram.len() == IWRAM_SIZE);
        assert(b1.iwram[j] == b.iwram[j]);
        lemma_clear_keeps_iwram_byte(b1, start, i + 1, size, j);
    }
}

/// A zero IWRAM byte stays zero while bytes are zeroed.
proof fn lemma_clear_keeps_zero(b: BusState, start: u32, i: nat, size: nat, j: int)
    requires
        b.iwram.len() == IWRAM_SIZE,
        0 <= j < IWRAM_SIZE,
        b.iwram[j] == 0,
        start + size <= u32::MAX,
    ensures
        spec_clear_from(b, start, i, size).iwram.len() == IWRAM_SIZE,
        spec_clear_from(b, start, i, size).iwram[j] == 0,
    decreases size - i,
{
    if i < size {
        let b1 = crate::bus::spec_write8(b, (start + i) as u32, 0);
        assert(b1.iwram.len() == IWRAM_SIZE);
        assert(b1.iwram[j] == 0);
        lemma_clear_keeps_zero(b1, start, i + 1, size, j);
    }
}

/// Zeroing IWRAM from its start for `size` bytes zeroes byte `j < size`.
proof fn lemma_clear_zeroes_iwram(b: BusState, i: nat, size: nat, j: int)
    requires
        b.iwram.len() == IWRAM_SIZE,
        i <= j < size <= IWRAM_SIZE,
    ensures
        spec_clear_from(b, IWRAM_START, i, size).iwram.len() == IWRAM_SIZE,
        spec_clear_from(b, IWRAM_START, i, size).iwram[j] == 0,
    decreases size - i,
{
    let addr = (IWRAM_START + i) as u32;
    let b1 = crate::bus::spec_write8(b, addr, 0);
    assert(b1.iwram.len() == IWRAM_SIZE);
    if i == j {
        assert(addr - IWRAM_START == i);
        assert((i as int) % (IWRAM_SIZE as int) == i) by {
            vstd::arithmetic::div_mod::lemma_small_mod(i, IWRAM_SIZE as nat);
        }
        assert(iwram_offset(addr) == j);
        assert(b1.iwram[j] == 0);
        lemma_clear_keeps_zero(b1, IWRAM_START, i + 1, size, j);
    } else {
        lemma_clear_zeroes_iwram(b1, i + 1, size, j);
    }
}

/// Clearing a memory outside IWRAM leaves all of IWRAM alone.
proof fn lemma_clear_other_region(b: BusState, start: u32, size: nat, j: int)
    requires
        b.iwram.len() == IWRAM_SIZE,
        0 <= j < IWRAM_SIZE,
        start + size <= IWRAM_START || IWRAM_START + 0x0100_0000 <= start,
        start + size <= u32::MAX,
    ensures
        spec_clear_from(b, start, 0, size).iwram.len() == IWRAM_SIZE,
        spec_clear_from(b, start, 0, size).iwram[j] == b.iwram[j],
{
    lemma_clear_keeps_iwram_byte(b, start, 0, size, j);
}

/// RegisterRamReset keeps the top 0x200 bytes of IWRAM whatever it is asked to clear,
/// and when asked to clear IWRAM it zeroes the rest of it.
pub proof fn law_register_ram_reset_iwram(b: BusState, flags: u32, j: int)
    requires
        b.wf(),
        0 <= j < IWRAM_SIZE,
    ensures
        IWRAM_SIZE - 0x200 <= j ==> spec_register_ram_reset(b, flags).iwram[j] == b.iwram[j],
        j < IWRAM_SIZE - 0x200 && (flags & 2) != 0 ==> spec_register_ram_reset(b, flags).iwram[j] == 0,
{
    let b1 = if (flags & 1) != 0 {
        lemma_clear_other_region(b, EWRAM_START, EWRAM_SIZE as nat, j);
        crate::cpu::spec_clear_region(b, EWRAM_START, EWRAM_SIZE as nat)
    } else {
        b
    };
    let b2 = if (flags & 2) != 0 {
        if IWRAM_SIZE - 0x200 <= j {
            assert forall|k: nat| 0 <= k < (IWRAM_SIZE - 0x200) implies !#[trigger] writes_iwram_byte(
                IWRAM_START,
                k,
                j,
            ) by {}
            lemma_clear_keeps_iwram_byte(b1, IWRAM_START, 0, (IWRAM_SIZE - 0x200) as nat, j);
        } else {
            lemma_clear_zeroes_iwram(b1, 0, (IWRAM_SIZE - 0x200) as nat, j);
        }
        crate::cpu::spec_clear_region(b1, IWRAM_START, (IWRAM_SIZE - 0x200) as nat)
    } else {
        b1
    };
    let b3 = if (flags & 4) != 0 {
        lemma_clear_other_region(b2, PALETTE_RAM_START, PALETTE_RAM_SIZE as nat, j);
        crate::cpu::spec_clear_region(b2, PALETTE_RAM_START, PALETTE_RAM_SIZE as nat)
    } else {
        b2
    };
    let b4 = if (flags & 8) != 0 {
        lemma_clear_other_region(b3, VRAM_START, VRAM_SIZE as nat, j);
        crate::cpu::spec_clear_region(b3, VRAM_START, VRAM_SIZE as nat)
    } else {
        b3
    };
    if (flags & 16) != 0 {
        lemma_clear_other_region(b4, OAM_START, OAM_SIZE as nat, j);
    }
}

// ---------------------------------------------------------------------------
// The core never writes the video line counter
// ---------------------------------------------------------------------------

/// An aligned word store of the core leaves the VCOUNT bytes alone.
proof fn lemma_w32_keeps_vcount(b: BusState, a: u32, v: u32)
    requires
        b.io.len() == IO_SIZE,
    ensures
        vcount_kept(b, bus_w32(b, a & !3u32, v)),
{
    lemma_aligned_addresses(a);
    lemma_write32_keeps_vcount(b, a & !3u32, v, DMA_NEST_LIMIT as nat);
}

/// An aligned halfword store of the core leaves the VCOUNT bytes alone.
proof fn lemma_w16_keeps_vcount(b: BusState, a: u32, v: u16)
    requires
        b.io.len() == IO_SIZE,
    ensures
        vcount_kept(b, bus_w16(b, a & !1u32, v)),
{
    lemma_aligned_addresses(a);
    lemma_write16_keeps_vcount(b, a & !1u32, v, DMA_NEST_LIMIT as nat);
}

proof fn lemma_clear_keeps_vcount(b: BusState, start: u32, i: nat, size: nat)
    requires
        b.io.len() == IO_SIZE,
    ensures
        vcount_kept(b, spec_clear_from(b, start, i, size)),
    decreases size - i,
{
    if i < size {
        lemma_write8_keeps_vcount(b, (start + i) as u32, 0);
        lemma_clear_keeps_vcount(spec_write8(b, (start + i) as u32, 0), start, i + 1, size);
    }
}

proof fn lemma_block_from_keeps_vcount(c: CpuState, b: BusState, reg_list: u32, reg: int, addr: u32, load: bool, user: bool)
    requires
        b.io.len() == IO_SIZE,
    ensures
        vcount_kept(b, spec_block_transfer_from(c, b, reg_list, reg, addr, load, user).1),
    decreases 16 - reg,
{
    if 0 <= reg < 16 {
        let value = if user {
            spec_read_user_reg(c, reg)
        } else {
            spec_read_arm_reg(c, reg)
        };
        let c1 = if user {
            spec_write_user_reg(c, reg, spec_read32(b, addr & !3u32))
        } else {
            with_reg(c, reg, spec_read32(b, addr & !3u32))
        };
        lemma_block_from_keeps_vcount(c, b, reg_list, reg + 1, addr, load, user);
        lemma_block_from_keeps_vcount(c1, b, reg_list, reg + 1, addr.wrapping_add(4), load, user);
        lemma_w32_keeps_vcount(b, addr, value);
        lemma_block_from_keeps_vcount(
            c,
            bus_w32(b, addr & !3u32, value),
            reg_list,
            reg + 1,
            addr.wrapping_add(4),
            load,
            user,
        );
    }
}

proof fn lemma_thumb_multiple_keeps_vcount(c: CpuState, b: BusState, reg_list: u32, reg: int, addr: u32, load: bool)
    requires
        b.io.len() == IO_SIZE,
    ensures
        vcount_kept(b, spec_thumb_multiple_from(c, b, reg_list, reg, addr, load).1),
    decreases 8 - reg,
{
    if 0 <= reg < 8 {
        lemma_thumb_multiple_keeps_vcount(c, b, reg_list, reg + 1, addr, load);
        lemma_thumb_multiple_keeps_vcount(
            with_reg(c, reg, spec_read32(b, addr & !3u32)),
            b,
            reg_list,
            reg + 1,
            addr.wrapping_add(4),
            load,
        );
        lemma_w32_keeps_vcount(b, addr, c.regs[reg]);
        lemma_thumb_multiple_keeps_vcount(
            c,
            bus_w32(b, addr & !3u32, c.regs[reg]),
            reg_list,
            reg + 1,
            addr.wrapping_add(4),
            load,
        );
    }
}

proof fn lemma_cpuset_keeps_vcount(b: BusState, src: u32, dst: u32, n: nat, fill: bool, w: u32, h: u16)
    requires
        b.io.len() == IO_SIZE,
    ensures
        vcount_kept(b, spec_cpuset_words(b, src, dst, n, fill, w).0),
        vcount_kept(b, spec_cpuset_halves(b, src, dst, n, fill, h).0),
    decreases n,
{
    if n > 0 {
        let (vw, sw) = if fill {
            (w, src)
        } else {
            (spec_read32(b, src & !3u32), src.wrapping_add(4))
        };
        let (vh, sh) = if fill {
            (h, src)
        } else {
            (spec_read16(b, src & !1u32), src.wrapping_add(2))
        };
        lemma_w32_keeps_vcount(b, dst, vw);
        lemma_w16_keeps_vcount(b, dst, vh);
        lemma_cpuset_keeps_vcount(bus_w32(b, dst & !3u32, vw), sw, dst.wrapping_add(4), (n - 1) as nat, fill, w, h);
        lemma_cpuset_keeps_vcount(bus_w16(b, dst & !1u32, vh), sh, dst.wrapping_add(2), (n - 1) as nat, fill, w, h);
    }
}

proof fn lemma_hle_swi_keeps_vcount(c: CpuState, b: BusState, swi: u8)
    requires
        b.io.len() == IO_SIZE,
    ensures
        vcount_kept(b, spec_hle_swi(c, b, swi).1),
{
    let flags = c.regs[0];
    let b1 = if (flags & 1) != 0 {
        lemma_clear_keeps_vcount(b, EWRAM_START, 0, EWRAM_SIZE as nat);
        spec_clear_region(b, EWRAM_START, EWRAM_SIZE as nat)
    } else {
        b
    };
    let b2 = if (flags & 2) != 0 {
        lemma_clear_keeps_vcount(b1, IWRAM_START, 0, (IWRAM_SIZE - 0x200) as nat);
        spec_clear_region(b1, IWRAM_START, (IWRAM_SIZE - 0x200) as nat)
    } else {
        b1
    };
    let b3 = if (flags & 4) != 0 {
        lemma_clear_keeps_vcount(b2, PALETTE_RAM_START, 0, PALETTE_RAM_SIZE as nat);
        spec_clear_region(b2, PALETTE_RAM_START, PALETTE_RAM_SIZE as nat)
    } else {
        b2
    };
    let b4 = if (flags & 8) != 0 {
        lemma_clear_keeps_vcount(b3, VRAM_START, 0, VRAM_SIZE as nat);
        spec_clear_region(b3, VRAM_START, VRAM_SIZE as nat)
    } else {
        b3
    };
    if (flags & 16) != 0 {
        lemma_clear_keeps_vcount(b4, OAM_START, 0, OAM_SIZE as nat);
    }
    assert forall|s: u32, d: u32, n: nat, f: bool, w: u32| b.io.len() == IO_SIZE implies #[trigger] vcount_kept(
        b,
        spec_cpuset_words(b, s, d, n, f, w).0,
    ) by {
        lemma_cpuset_keeps_vcount(b, s, d, n, f, w, 0);
    }
    assert forall|s: u32, d: u32, n: nat, f: bool, h: u16| b.io.len() == IO_SIZE implies #[trigger] vcount_kept(
        b,
        spec_cpuset_halves(b, s, d, n, f, h).0,
    ) by {
        lemma_cpuset_keeps_vcount(b, s, d, n, f, 0, h);
    }
}

/// Every store the core can make on `b` leaves the VCOUNT bytes alone.
proof fn lemma_stores_keep_vcount(b: BusState)
    requires
        b.io.len() == IO_SIZE,
    ensures
        forall|a: u32, v: u32| vcount_kept(b, #[trigger] bus_w32(b, a & !3u32, v)),
        forall|a: u32, v: u16| vcount_kept(b, #[trigger] bus_w16(b, a & !1u32, v)),
        forall|a: u32, v: u8| vcount_kept(b, #[trigger] spec_write8(b, a, v)),
{
    assert forall|a: u32, v: u32| vcount_kept(b, #[trigger] bus_w32(b, a & !3u32, v)) by {
        lemma_w32_keeps_vcount(b, a, v);
    }
    assert forall|a: u32, v: u16| vcount_kept(b, #[trigger] bus_w16(b, a & !1u32, v)) by {
        lemma_w16_keeps_vcount(b, a, v);
    }
    assert forall|a: u32, v: u8| vcount_kept(b, #[trigger] spec_write8(b, a, v)) by {
        lemma_write8_keeps_vcount(b, a, v);
    }
}

proof fn lemma_arm_transfers_keep_vcount(c: CpuState, b: BusState, instr: u32)
    requires
        b.io.len() == IO_SIZE,
    ensures
        vcount_kept(b, spec_arm_halfword_transfer(c, b, instr).1),
        vcount_kept(b, spec_arm_swap(c, b, instr).1),
        vcount_kept(b, spec_arm_single_data_transfer(c, b, instr).1),
        vcount_kept(b, spec_arm_block_transfer(c, b, instr).1),
        vcount_kept(b, spec_arm_data_group(c, b, instr).1),
{
    lemma_stores_keep_vcount(b);
    assert forall|c2: CpuState, l: u32, a: u32, ld: bool, u: bool| vcount_kept(
        b,
        #[trigger] spec_block_transfer_from(c2, b, l, 0, a, ld, u).1,
    ) by {
        lemma_block_from_keeps_vcount(c2, b, l, 0, a, ld, u);
    }
}

proof fn lemma_thumb_transfers_keep_vcount(c: CpuState, b: BusState, instr: u16)
    requires
        b.io.len() == IO_SIZE,
    ensures
        vcount_kept(b, spec_thumb_reg_offset(c, b, instr).1),
        vcount_kept(b, spec_thumb_imm_offset(c, b, instr).1),
        vcount_kept(b, spec_thumb_halfword(c, b, instr).1),
        vcount_kept(b, spec_thumb_sp_rel(c, b, instr).1),
        vcount_kept(b, spec_thumb_ldm_stm(c, b, instr).1),
        vcount_kept(b, spec_thumb_push_pop(c, b, instr).1),
{
    lemma_stores_keep_vcount(b);
    assert forall|c2: CpuState, l: u32, a: u32, ld: bool| vcount_kept(
        b,
        #[trigger] spec_thumb_multiple_from(c2, b, l, 0, a, ld).1,
    ) by {
        lemma_thumb_multiple_keeps_vcount(c2, b, l, 0, a, ld);
    }
    let reg_list = (instr & 0xFF) as u32;
    let sp = c.regs[REG_SP as int];
    let count = (count_low_ones(reg_list, 8) + if ((instr >> 8u16) & 1) != 0 {
        1nat
    } else {
        0nat
    }) as u32;
    let start = sp.wrapping_sub((count * 4) as u32);
    let b1 = spec_thumb_multiple_from(c, b, reg_list, 0, start, false).1;
    lemma_thumb_multiple_keeps_vcount(c, b, reg_list, 0, start, false);
    lemma_w32_keeps_vcount(b1, spec_thumb_multiple_from(c, b, reg_list, 0, start, false).2, c.regs[REG_LR as int]);
}

#[verifier::spinoff_prover]
proof fn lemma_exec_arm_keeps_vcount(c: CpuState, b: BusState, instr: u32)
    requires
        b.io.len() == IO_SIZE,
    ensures
        vcount_kept(b, spec_exec_arm(c, b, instr).1),
{
    reveal(spec_exec_arm);
    lemma_arm_transfers_keep_vcount(c, b, instr);
    lemma_hle_swi_keeps_vcount(c, b, (instr & 0x00FF_FFFF) as u8);
}

#[verifier::spinoff_prover]
#[verifier::rlimit(100)]
proof fn lemma_exec_thumb_keeps_vcount(c: CpuState, b: BusState, instr: u16)
    requires
        b.io.len() == IO_SIZE,
    ensures
        vcount_kept(b, spec_exec_thumb(c, b, instr).1),
{
    reveal(spec_exec_thumb);
    lemma_thumb_transfers_keep_vcount(c, b, instr);
    lemma_hle_swi_keeps_vcount(c, b, (instr & 0x00FF) as u8);
}

/// No instruction of either set, and no BIOS call emulated in their place, changes
/// what VCOUNT reads.
pub proof fn law_instructions_keep_vcount(c: CpuState, b: BusState, arm: u32, thumb: u16)
    requires
        b.wf(),
    ensures
        spec_read16(spec_exec_arm(c, b, arm).1, REG_VCOUNT) == spec_read16(b, REG_VCOUNT),
        spec_read16(spec_exec_thumb(c, b, thumb).1, REG_VCOUNT) == spec_read16(b, REG_VCOUNT),
{
    lemma_exec_arm_keeps_vcount(c, b, arm);
    lemma_exec_thumb_keeps_vcount(c, b, thumb);
}

/// A step of the core (instruction, interrupt entry or halt) leaves the VCOUNT bytes
/// alone.
pub proof fn lemma_step_keeps_vcount(c: CpuState, b: BusState)
    requires
        b.io.len() == IO_SIZE,
    ensures
        vcount_kept(b, spec_step(c, b).1),
{
    let pc = pc_of(c);
    lemma_exec_thumb_keeps_vcount(with_reg(c, REG_PC as int, pc.wrapping_add(2)), b, spec_read16(b, pc));
    lemma_exec_arm_keeps_vcount(with_reg(c, REG_PC as int, pc.wrapping_add(4)), b, spec_read32(b, pc));
}

// ---------------------------------------------------------------------------
// THUMB register ALU operations
// ---------------------------------------------------------------------------

proof fn lemma_alu_bits(x: u32, instr: u16, v: u64)
    by (bit_vector)
    ensures
        (instr & 0xFC00u16) == 0x4000u16 ==> (instr & 0xF800u16) == 0x4000u16 && (instr & 0xE000u16) == 0x4000u16,
        ((x | 0x8000_0000u32) & 0x8000_0000u32) != 0,
        ((x & !0x8000_0000u32) & 0x8000_0000u32) == 0,
        ((x | 0x4000_0000u32) & 0x4000_0000u32) != 0,
        ((x & !0x4000_0000u32) & 0x4000_0000u32) == 0,
        ((x | 0x4000_0000u32) & 0x8000_0000u32) == (x & 0x8000_0000u32),
        ((x & !0x4000_0000u32) & 0x8000_0000u32) == (x & 0x8000_0000u32),
        ((x | 0x2000_0000u32) & 0x8000_0000u32) == (x & 0x8000_0000u32),
        ((x & !0x2000_0000u32) & 0x8000_0000u32) == (x & 0x8000_0000u32),
        ((x | 0x1000_0000u32) & 0x8000_0000u32) == (x & 0x8000_0000u32),
        ((x & !0x1000_0000u32) & 0x8000_0000u32) == (x & 0x8000_0000u32),
        ((x | 0x2000_0000u32) & 0x4000_0000u32) == (x & 0x4000_0000u32),
        ((x & !0x2000_0000u32) & 0x4000_0000u32) == (x & 0x4000_0000u32),
        ((x | 0x1000_0000u32) & 0x4000_0000u32) == (x & 0x4000_0000u32),
        ((x & !0x1000_0000u32) & 0x4000_0000u32) == (x & 0x4000_0000u32),
        (v as u32) as int == v as int % 0x1_0000_0000,
        ((x >> 31u32) != 0) == (x >= 0x8000_0000u32),
        (instr & 0x7u16) < 8,
        ((instr >> 0u16) & 0x7u16) == (instr & 0x7u16),
        ((instr >> 3u16) & 0x7u16) < 8,
{
}

/// The value a THUMB register ALU operation (`op`, format 4) computes from `lhs` (Rd)
/// and `rhs` (Rs) with carry `c`, for the operations that write Rd, as an integer.
pub open spec fn thumb_alu_value(op: u16, lhs: u32, rhs: u32, c: bool) -> int {
    let ci: int = if c {
        1
    } else {
        0
    };
    if op == 0x5 {
        (lhs + rhs + ci) % 0x1_0000_0000
    } else if op == 0x6 {
        (lhs - rhs - (1 - ci)) % 0x1_0000_0000
    } else if op == 0x9 {
        (0 - rhs) % 0x1_0000_0000
    } else {
        (lhs * rhs) % 0x1_0000_0000
    }
}

/// THUMB register ALU operations (format 4, `Rd := Rd op Rs`): AND, EOR, ORR and BIC
/// combine the two registers bit by bit, MVN complements Rs, ADC, SBC, NEG and MUL
/// compute the sum, the difference with borrow, the negation and the product modulo
/// 2^32; TST, CMP and CMN write no register. N and Z follow the written value, the
/// bus is untouched, and only Rd changes.
pub proof fn law_thumb_alu(c: CpuState, b: BusState, instr: u16, i: int)
    requires
        c.wf(),
        (instr & 0xFC00) == 0x4000,
        0 <= i < 16,
    ensures
        ({
            let op = (instr >> 6u16) & 0xF;
            let rd = (instr & 0x7) as int;
            let lhs = c.regs[rd];
            let rhs = c.regs[((instr >> 3u16) & 0x7) as int];
            let r = spec_exec_thumb(c, b, instr);
            let n = r.0;
            &&& r.1 == b
            &&& r.2 == 1
            &&& n.regs.len() == 16
            &&& (i != rd ==> n.regs[i] == c.regs[i])
            &&& (op == 0x0 ==> n.regs[rd] == lhs & rhs)
            &&& (op == 0x1 ==> n.regs[rd] == lhs ^ rhs)
            &&& (op == 0xC ==> n.regs[rd] == lhs | rhs)
            &&& (op == 0xE ==> n.regs[rd] == lhs & !rhs)
            &&& (op == 0xF ==> n.regs[rd] == !rhs)
            &&& ((op == 0x5 || op == 0x6 || op == 0x9 || op == 0xD) ==> n.regs[rd] as int == thumb_alu_value(
                op,
                lhs,
                rhs,
                flag_of(c, CPSR_C),
            ))
            &&& ((op == 0x8 || op == 0xA || op == 0xB) ==> n.regs == c.regs)
            &&& ((op == 0x0 || op == 0x1 || op == 0xC || op == 0xE || op == 0xF || op == 0x5 || op == 0x6
                || op == 0x9 || op == 0xD) ==> (flag_of(n, CPSR_N) == (n.regs[rd] >= 0x8000_0000u32) && flag_of(
                n,
                CPSR_Z,
            ) == (n.regs[rd] == 0)))
        }),
{
    lemma_thumb_alu_dispatch(c, b, instr);
    lemma_thumb_alu_result(c, instr, i);
}

#[verifier::spinoff_prover]
#[verifier::rlimit(100)]
proof fn lemma_thumb_alu_dispatch(c: CpuState, b: BusState, instr: u16)
    requires
        (instr & 0xFC00) == 0x4000,
    ensures
        spec_exec_thumb(c, b, instr) == (spec_thumb_alu(c, instr), b, 1u32),
{
    reveal(spec_exec_thumb);
    lemma_alu_bits(0, instr, 0);
}

#[verifier::spinoff_prover]
proof fn lemma_thumb_alu_result(c: CpuState, instr: u16, i: int)
    requires
        c.wf(),
        0 <= i < 16,
    ensures
        ({
            let op = (instr >> 6u16) & 0xF;
            let rd = (instr & 0x7) as int;
            let lhs = c.regs[rd];
            let rhs = c.regs[((instr >> 3u16) & 0x7) as int];
            let n = spec_thumb_alu(c, instr);
            &&& n.regs.len() == 16
            &&& (i != rd ==> n.regs[i] == c.regs[i])
            &&& (op == 0x0 ==> n.regs[rd] == lhs & rhs)
            &&& (op == 0x1 ==> n.regs[rd] == lhs ^ rhs)
            &&& (op == 0xC ==> n.regs[rd] == lhs | rhs)
            &&& (op == 0xE ==> n.regs[rd] == lhs & !rhs)
            &&& (op == 0xF ==> n.regs[rd] == !rhs)
            &&& ((op == 0x5 || op == 0x6 || op == 0x9 || op == 0xD) ==> n.regs[rd] as int == thumb_alu_value(
                op,
                lhs,
                rhs,
                flag_of(c, CPSR_C),
            ))
            &&& ((op == 0x8 || op == 0xA || op == 0xB) ==> n.regs == c.regs)
            &&& ((op == 0x0 || op == 0x1 || op == 0xC || op == 0xE || op == 0xF || op == 0x5 || op == 0x6
                || op == 0x9 || op == 0xD) ==> (flag_of(n, CPSR_N) == (n.regs[rd] >= 0x8000_0000u32) && flag_of(
                n,
                CPSR_Z,
            ) == (n.regs[rd] == 0)))
        }),
{
    lemma_thumb_alu_regs(c, instr, i);
    lemma_thumb_alu_flags(c, instr);
}

#[verifier::spinoff_prover]
#[verifier::rlimit(100)]
proof fn lemma_thumb_alu_regs(c: CpuState, instr: u16, i: int)
    requires
        c.wf(),
        0 <= i < 16,
    ensures
        ({
            let op = (instr >> 6u16) & 0xF;
            let rd = (instr & 0x7) as int;
            let lhs = c.regs[rd];
            let rhs = c.regs[((instr >> 3u16) & 0x7) as int];
            let n = spec_thumb_alu(c, instr);
            &&& n.regs.len() == 16
            &&& (i != rd ==> n.regs[i] == c.regs[i])
            &&& (op == 0x0 ==> n.regs[rd] == lhs & rhs)
            &&& (op == 0x1 ==> n.regs[rd] == lhs ^ rhs)
            &&& (op == 0xC ==> n.regs[rd] == lhs | rhs)
            &&& (op == 0xE ==> n.regs[rd] == lhs & !rhs)
            &&& (op == 0xF ==> n.regs[rd] == !rhs)
            &&& ((op == 0x5 || op == 0x6 || op == 0x9 || op == 0xD) ==> n.regs[rd] as int == thumb_alu_value(
                op,
                lhs,
                rhs,
                flag_of(c, CPSR_C),
            ))
            &&& ((op == 0x8 || op == 0xA || op == 0xB) ==> n.regs == c.regs)
        }),
{
    let rd = (instr & 0x7) as int;
    let lhs = c.regs[rd];
    let rhs = c.regs[((instr >> 3u16) & 0x7) as int];
    let carry_in: u64 = if flag_of(c, CPSR_C) {
        1
    } else {
        0
    };
    lemma_alu_bits(c.cpsr, instr, ((lhs as u64) + (rhs as u64) + carry_in) as u64);
    lemma_alu_bits(c.cpsr, instr, (lhs as u64).wrapping_sub(rhs as u64).wrapping_sub((1 - carry_in) as u64));
}

#[verifier::spinoff_prover]
#[verifier::rlimit(100)]
proof fn lemma_thumb_alu_flags(c: CpuState, instr: u16)
    requires
        c.wf(),
    ensures
        ({
            let op = (instr >> 6u16) & 0xF;
            let rd = (instr & 0x7) as int;
            let n = spec_thumb_alu(c, instr);
            (op == 0x0 || op == 0x1 || op == 0xC || op == 0xE || op == 0xF || op == 0x5 || op == 0x6 || op
                == 0x9 || op == 0xD) ==> (flag_of(n, CPSR_N) == (n.regs[rd] >= 0x8000_0000u32) && flag_of(
                n,
                CPSR_Z,
            ) == (n.regs[rd] == 0))
        }),
{
    let op = (instr >> 6u16) & 0xF;
    let rd = (instr & 0x7) as int;
    let n = spec_thumb_alu(c, instr);
    lemma_alu_bits(0, instr, 0);
    if op == 0x0 || op == 0x1 || op == 0xC || op == 0xE || op == 0xF || op == 0x5 || op == 0x6 || op == 0x9
        || op == 0xD {
        let res = n.regs[rd];
        let mid = with_reg(c, rd, res);
        let mid2 = with_flag(mid, CPSR_N, (res >> 31u32) != 0);
        lemma_alu_bits(res, instr, 0);
        lemma_alu_bits(mid.cpsr, instr, 0);
        lemma_alu_bits(mid2.cpsr, instr, 0);
        let nz = with_flag(mid2, CPSR_Z, res == 0);
        lemma_alu_bits(nz.cpsr, instr, 0);
        lemma_cv_keeps_nz(nz);
    }
}

/// Setting C and V leaves N and Z alone.
proof fn lemma_cv_keeps_nz(x: CpuState)
    ensures
        forall|cf: bool, v: bool|
            #![trigger with_cv(x, cf, v)]
            flag_of(with_cv(x, cf, v), CPSR_N) == flag_of(x, CPSR_N) && flag_of(with_cv(x, cf, v), CPSR_Z)
                == flag_of(x, CPSR_Z),
{
    assert forall|cf: bool, v: bool|
        #![trigger with_cv(x, cf, v)]
        flag_of(with_cv(x, cf, v), CPSR_N) == flag_of(x, CPSR_N) && flag_of(with_cv(x, cf, v), CPSR_Z)
            == flag_of(x, CPSR_Z) by {
        lemma_alu_bits(x.cpsr, 0, 0);
        lemma_alu_bits(with_flag(x, CPSR_C, cf).cpsr, 0, 0);
    }
}

// ---------------------------------------------------------------------------
// CpuSet / CpuFastSet
// ---------------------------------------------------------------------------

proof fn lemma_mod_step(x: int, step: int, n: int)
    requires
        0 <= x,
        0 <= step,
        0 <= n,
    ensures
        ((x + step) % 0x1_0000_0000 + step * n) % 0x1_0000_0000 == (x + step * (n + 1)) % 0x1_0000_0000,
{
    let m = 0x1_0000_0000int;
    vstd::arithmetic::div_mod::lemma_add_mod_noop(x + step, step * n, m);
    vstd::arithmetic::div_mod::lemma_mod_twice(x + step, m);
    vstd::arithmetic::div_mod::lemma_add_mod_noop((x + step) % m, step * n, m);
    assert(x + step + step * n == x + step * (n + 1)) by (nonlinear_arith);
}

/// A word copy of `n` words leaves source and destination `4n` bytes further on; a
/// halfword copy `2n`.
proof fn lemma_cpuset_addresses(b: BusState, src: u32, dst: u32, n: nat, fv: u32, hv: u16)
    ensures
        spec_cpuset_words(b, src, dst, n, false, fv).1 as int == (src + 4 * n) % 0x1_0000_0000,
        spec_cpuset_words(b, src, dst, n, false, fv).2 as int == (dst + 4 * n) % 0x1_0000_0000,
        spec_cpuset_halves(b, src, dst, n, false, hv).1 as int == (src + 2 * n) % 0x1_0000_0000,
        spec_cpuset_halves(b, src, dst, n, false, hv).2 as int == (dst + 2 * n) % 0x1_0000_0000,
    decreases n,
{
    if n == 0 {
        vstd::arithmetic::div_mod::lemma_small_mod(src as nat, 0x1_0000_0000);
        vstd::arithmetic::div_mod::lemma_small_mod(dst as nat, 0x1_0000_0000);
    } else {
        let bw = bus_w32(b, dst & !3u32, spec_read32(b, src & !3u32));
        let bh = bus_w16(b, dst & !1u32, spec_read16(b, src & !1u32));
        lemma_cpuset_addresses(bw, src.wrapping_add(4), dst.wrapping_add(4), (n - 1) as nat, fv, hv);
        lemma_cpuset_addresses(bh, src.wrapping_add(2), dst.wrapping_add(2), (n - 1) as nat, fv, hv);
        lemma_wrapping_add_mod(src, 4);
        lemma_wrapping_add_mod(dst, 4);
        lemma_wrapping_add_mod(src, 2);
        lemma_wrapping_add_mod(dst, 2);
        lemma_mod_step(src as int, 4, (n - 1) as int);
        lemma_mod_step(dst as int, 4, (n - 1) as int);
        lemma_mod_step(src as int, 2, (n - 1) as int);
        lemma_mod_step(dst as int, 2, (n - 1) as int);
    }
}

proof fn lemma_wrapping_add_mod(x: u32, y: u32)
    ensures
        x.wrapping_add(y) as int == (x + y) % 0x1_0000_0000,
{
    if x + y > u32::MAX {
        vstd::arithmetic::div_mod::lemma_fundamental_div_mod_converse(x + y, 0x1_0000_0000, 1, x + y - 0x1_0000_0000);
    } else {
        vstd::arithmetic::div_mod::lemma_small_mod((x + y) as nat, 0x1_0000_0000);
    }
}

/// CpuSet and CpuFastSet in copy mode (emulated without a BIOS image) move r0 and r1
/// past what they copied: a count field `n` in r2 means `n` units for CpuSet and `8n`
/// units (blocks of eight) for CpuFastSet, a unit being a word when bit 26 of r2 is
/// set and a halfword otherwise.
pub proof fn law_cpuset_advances(c: CpuState, b: BusState, fast: bool)
    requires
        c.wf(),
        (c.regs[2] & 0x0100_0000) == 0,
        (c.regs[2] & 0x1F_FFFF) != 0,
    ensures
        ({
            let n = (c.regs[2] & 0x1F_FFFF) as int;
            let units = if fast {
                8 * n
            } else {
                n
            };
            let size = if (c.regs[2] & 0x0400_0000) != 0 {
                4int
            } else {
                2int
            };
            let r = spec_hle_swi(c, b, if fast {
                0x0Cu8
            } else {
                0x0Bu8
            }).0;
            &&& r.regs[0] as int == (c.regs[0] + size * units) % 0x1_0000_0000
            &&& r.regs[1] as int == (c.regs[1] + size * units) % 0x1_0000_0000
        }),
{
    lemma_swi_cpuset(c, b, fast);
    let mode = c.regs[2];
    let units0 = mode & 0x1F_FFFF;
    let units: nat = if fast {
        (units0 * 8) as nat
    } else {
        units0 as nat
    };
    lemma_cpuset_addresses(b, c.regs[0], c.regs[1], units, spec_read32(b, c.regs[0] & !3u32), spec_read16(b, c.regs[0] & !1u32));
}

proof fn lemma_swi_cpuset(c: CpuState, b: BusState, fast: bool)
    ensures
        spec_hle_swi(c, b, if fast {
            0x0Cu8
        } else {
            0x0Bu8
        }).0 == spec_hle_cpuset(c, b, fast).0,
        spec_hle_swi(c, b, if fast {
            0x0Cu8
        } else {
            0x0Bu8
        }).1 == spec_hle_cpuset(c, b, fast).1,
{
}

/// `n` words from `a` lie in work RAM below its first mirror, word-aligned.
pub open spec fn ewram_words(a: u32, n: int) -> bool {
    &&& a % 4 == 0
    &&& EWRAM_START <= a
    &&& a + 4 * n <= EWRAM_START + EWRAM_SIZE
}

proof fn lemma_word_copy_frame(b: BusState, src: u32, dst: u32, n: nat, fv: u32, o: u32)
    requires
        b.wf(),
        ewram_words(dst, n as int),
        EWRAM_START <= o < EWRAM_START + EWRAM_SIZE,
        o < dst || o >= dst + 4 * n,
    ensures
        spec_read8(spec_cpuset_words(b, src, dst, n, false, fv).0, o) == spec_read8(b, o),
        spec_cpuset_words(b, src, dst, n, false, fv).0.wf(),
    decreases n,
{
    if n > 0 {
        lemma_align_down(dst);
        lemma_align_down(src);
        let v = spec_read32(b, src & !3u32);
        let b1 = bus_w32(b, dst & !3u32, v);
        lemma_ewram_write32_frame(b, dst, v, DMA_NEST_LIMIT as nat, o);
        lemma_ewram_write32_wf(b, dst, v, DMA_NEST_LIMIT as nat);
        assert(dst.wrapping_add(4) == dst + 4);
        lemma_word_copy_frame(b1, src.wrapping_add(4), dst.wrapping_add(4), (n - 1) as nat, fv, o);
    }
}

#[verifier::spinoff_prover]
#[verifier::rlimit(100)]
proof fn lemma_word_copy(b: BusState, src: u32, dst: u32, n: nat, fv: u32, k: int)
    requires
        b.wf(),
        ewram_words(src, n as int),
        ewram_words(dst, n as int),
        src + 4 * n <= dst || dst + 4 * n <= src,
        0 <= k < n,
    ensures
        spec_read32(spec_cpuset_words(b, src, dst, n, false, fv).0, (dst + 4 * k) as u32) == spec_read32(
            b,
            (src + 4 * k) as u32,
        ),
    decreases n,
{
    lemma_align_down(dst);
    lemma_align_down(src);
    let v = spec_read32(b, src);
    let b1 = bus_w32(b, dst, v);
    lemma_ewram_write32_wf(b, dst, v, DMA_NEST_LIMIT as nat);
    let s1 = src.wrapping_add(4);
    let d1 = dst.wrapping_add(4);
    assert(s1 == src + 4);
    assert(d1 == dst + 4);
    if k == 0 {
        law_ewram_read32_after_write32(b, dst, v, DMA_NEST_LIMIT as nat);
        lemma_word_copy_frame(b1, s1, d1, (n - 1) as nat, fv, dst);
        lemma_word_copy_frame(b1, s1, d1, (n - 1) as nat, fv, (dst + 1) as u32);
        lemma_word_copy_frame(b1, s1, d1, (n - 1) as nat, fv, (dst + 2) as u32);
        lemma_word_copy_frame(b1, s1, d1, (n - 1) as nat, fv, (dst + 3) as u32);
        assert(dst.wrapping_add(1) == dst + 1);
        assert(dst.wrapping_add(2) == dst + 2);
        assert(dst.wrapping_add(3) == dst + 3);
    } else {
        lemma_word_copy(b1, s1, d1, (n - 1) as nat, fv, k - 1);
        let a = (src + 4 * k) as u32;
        lemma_ewram_write32_frame(b, dst, v, DMA_NEST_LIMIT as nat, a);
        lemma_ewram_write32_frame(b, dst, v, DMA_NEST_LIMIT as nat, (a + 1) as u32);
        lemma_ewram_write32_frame(b, dst, v, DMA_NEST_LIMIT as nat, (a + 2) as u32);
        lemma_ewram_write32_frame(b, dst, v, DMA_NEST_LIMIT as nat, (a + 3) as u32);
        assert(a.wrapping_add(1) == a + 1);
        assert(a.wrapping_add(2) == a + 2);
        assert(a.wrapping_add(3) == a + 3);
        assert(s1 + 4 * (k - 1) == src + 4 * k);
        assert(d1 + 4 * (k - 1) == dst + 4 * k);
    }
}

/// CpuSet and CpuFastSet copy words: in word copy mode (bit 26 set, fill bit 24 clear),
/// with a count field `n` in r2, the calls copy `n` and `8n` words from r0 to r1, so
/// word `k` of the destination reads as word `k` of the source (shown here for
/// source and destination in work RAM, apart from each other).
pub proof fn law_cpuset_copies_words(c: CpuState, b: BusState, fast: bool, k: int)
    requires
        c.wf(),
        b.wf(),
        (c.regs[2] & 0x0100_0000) == 0,
        (c.regs[2] & 0x0400_0000) != 0,
        ({
            let n = (c.regs[2] & 0x1F_FFFF) as int;
            let units = if fast {
                8 * n
            } else {
                n
            };
            &&& ewram_words(c.regs[0], units)
            &&& ewram_words(c.regs[1], units)
            &&& (c.regs[0] + 4 * units <= c.regs[1] || c.regs[1] + 4 * units <= c.regs[0])
            &&& 0 <= k < units
        }),
    ensures
        spec_read32(spec_hle_swi(c, b, if fast {
            0x0Cu8
        } else {
            0x0Bu8
        }).1, (c.regs[1] + 4 * k) as u32) == spec_read32(b, (c.regs[0] + 4 * k) as u32),
{
    lemma_swi_cpuset(c, b, fast);
    let mode = c.regs[2];
    let units0 = mode & 0x1F_FFFF;
    let units: nat = if fast {
        (units0 * 8) as nat
    } else {
        units0 as nat
    };
    lemma_word_copy(b, c.regs[0], c.regs[1], units, spec_read32(b, c.regs[0] & !3u32), k);
}

} // verus!
