//! ARM7TDMI core: register banking, status register, barrel shifter, ARM and THUMB
//! instruction sets, exceptions and the high-level BIOS calls used without a BIOS image.
use vstd::prelude::*;
use crate::bus::{
    Bus, BusState, spec_read8, spec_read16, spec_read32, spec_write8, spec_write16, spec_write32,
    spec_has_pending_interrupts, spec_claim_pending_interrupt, DMA_NEST_LIMIT, BIOS_SIZE,
    EWRAM_SIZE, EWRAM_START, GAMEPAK_ROM_START, IWRAM_SIZE, IWRAM_START, OAM_SIZE, OAM_START,
    PALETTE_RAM_SIZE, PALETTE_RAM_START, VRAM_SIZE, VRAM_START, REG_IF, IO_LAST,
};

verus! {

pub const REG_SP: usize = 13;
pub const REG_LR: usize = 14;
pub const REG_PC: usize = 15;

pub const CPSR_N: u32 = 0x8000_0000;
pub const CPSR_Z: u32 = 0x4000_0000;
pub const CPSR_C: u32 = 0x2000_0000;
pub const CPSR_V: u32 = 0x1000_0000;
pub const CPSR_THUMB: u32 = 0x0000_0020;
pub const CPSR_IRQ_DISABLE: u32 = 0x0000_0080;
pub const BIOSLESS_IRQ_RETURN_MAGIC: u32 = 0xFFFF_FFE0;

#[derive(Debug, Clone, Copy, PartialEq, Eq, Structural)]
pub enum CpuMode {
    User,
    Fiq,
    Irq,
    Supervisor,
    Abort,
    Undefined,
    System,
}

/// A taken branch seen by branch tracing: the instruction at `from` (`instr`, in THUMB
/// state when `thumb`) left the PC at `to` instead of the next instruction.
#[derive(Debug, Clone, Copy, PartialEq, Eq, Structural)]
pub struct BranchTrace {
    pub thumb: bool,
    pub from: u32,
    pub instr: u32,
    pub to: u32,
}

/// An instruction that the core does not decode, met while unknown instructions are
/// reported: its state, its encoding and its address.
#[derive(Debug, Clone, Copy, PartialEq, Eq, Structural)]
pub struct UnknownInstruction {
    pub thumb: bool,
    pub instr: u32,
    pub addr: u32,
}

/// Abstract state of the core.
#[verifier::ext_equal]
pub ghost struct CpuState {
    pub regs: Seq<u32>,
    pub cpsr: u32,
    pub mode: CpuMode,
    pub spsr_irq: u32,
    pub spsr_svc: u32,
    pub spsr_fiq: u32,
    pub spsr_abt: u32,
    pub spsr_und: u32,
    pub banked_sp_irq: u32,
    pub banked_lr_irq: u32,
    pub banked_sp_svc: u32,
    pub banked_lr_svc: u32,
    pub banked_r8_fiq: u32,
    pub banked_r9_fiq: u32,
    pub banked_r10_fiq: u32,
    pub banked_r11_fiq: u32,
    pub banked_r12_fiq: u32,
    pub banked_sp_fiq: u32,
    pub banked_lr_fiq: u32,
    pub banked_sp_abt: u32,
    pub banked_lr_abt: u32,
    pub banked_sp_und: u32,
    pub banked_lr_und: u32,
    pub banked_r8_sys: u32,
    pub banked_r9_sys: u32,
    pub banked_r10_sys: u32,
    pub banked_r11_sys: u32,
    pub banked_r12_sys: u32,
    pub banked_sp_sys: u32,
    pub banked_lr_sys: u32,
    pub biosless_irq_active: bool,
    pub biosless_irq_saved: Seq<u32>,
    pub biosless_irq_lr: u32,
    pub halted: bool,
    pub cycles: u64,
    pub trace_branches: bool,
    pub last_branch: Option<BranchTrace>,
    pub strict_unknown: bool,
    pub unknown_hit: Option<UnknownInstruction>,
}

impl CpuState {
    pub open spec fn wf(self) -> bool {
        self.regs.len() == 16 && self.biosless_irq_saved.len() == 5
    }
}

pub struct Cpu {
    regs: [u32; 16],
    cpsr: u32,
    mode: CpuMode,
    spsr_irq: u32,
    spsr_svc: u32,
    spsr_fiq: u32,
    spsr_abt: u32,
    spsr_und: u32,
    banked_sp_irq: u32,
    banked_lr_irq: u32,
    banked_sp_svc: u32,
    banked_lr_svc: u32,
    banked_r8_fiq: u32,
    banked_r9_fiq: u32,
    banked_r10_fiq: u32,
    banked_r11_fiq: u32,
    banked_r12_fiq: u32,
    banked_sp_fiq: u32,
    banked_lr_fiq: u32,
    banked_sp_abt: u32,
    banked_lr_abt: u32,
    banked_sp_und: u32,
    banked_lr_und: u32,
    banked_r8_sys: u32,
    banked_r9_sys: u32,
    banked_r10_sys: u32,
    banked_r11_sys: u32,
    banked_r12_sys: u32,
    banked_sp_sys: u32,
    banked_lr_sys: u32,
    biosless_irq_active: bool,
    biosless_irq_saved: [u32; 5],
    biosless_irq_lr: u32,
    pub halted: bool,
    pub cycles: u64,
    trace_branches: bool,
    last_branch: Option<BranchTrace>,
    strict_unknown: bool,
    unknown_hit: Option<UnknownInstruction>,
}

impl View for Cpu {
    type V = CpuState;

    closed spec fn view(&self) -> CpuState {
        CpuState {
            regs: self.regs@,
            cpsr: self.cpsr,
            mode: self.mode,
            spsr_irq: self.spsr_irq,
            spsr_svc: self.spsr_svc,
            spsr_fiq: self.spsr_fiq,
            spsr_abt: self.spsr_abt,
            spsr_und: self.spsr_und,
            banked_sp_irq: self.banked_sp_irq,
            banked_lr_irq: self.banked_lr_irq,
            banked_sp_svc: self.banked_sp_svc,
            banked_lr_svc: self.banked_lr_svc,
            banked_r8_fiq: self.banked_r8_fiq,
            banked_r9_fiq: self.banked_r9_fiq,
            banked_r10_fiq: self.banked_r10_fiq,
            banked_r11_fiq: self.banked_r11_fiq,
            banked_r12_fiq: self.banked_r12_fiq,
            banked_sp_fiq: self.banked_sp_fiq,
            banked_lr_fiq: self.banked_lr_fiq,
            banked_sp_abt: self.banked_sp_abt,
            banked_lr_abt: self.banked_lr_abt,
            banked_sp_und: self.banked_sp_und,
            banked_lr_und: self.banked_lr_und,
            banked_r8_sys: self.banked_r8_sys,
            banked_r9_sys: self.banked_r9_sys,
            banked_r10_sys: self.banked_r10_sys,
            banked_r11_sys: self.banked_r11_sys,
            banked_r12_sys: self.banked_r12_sys,
            banked_sp_sys: self.banked_sp_sys,
            banked_lr_sys: self.banked_lr_sys,
            biosless_irq_active: self.biosless_irq_active,
            biosless_irq_saved: self.biosless_irq_saved@,
            biosless_irq_lr: self.biosless_irq_lr,
            halted: self.halted,
            cycles: self.cycles,
            trace_branches: self.trace_branches,
            strict_unknown: self.strict_unknown,
            unknown_hit: self.unknown_hit,
            last_branch: self.last_branch,
        }
    }
}

// ---------------------------------------------------------------------------
// Register and status-register model
// ---------------------------------------------------------------------------

pub open spec fn pc_of(c: CpuState) -> u32 {
    c.regs[REG_PC as int]
}

pub open spec fn with_reg(c: CpuState, i: int, v: u32) -> CpuState {
    CpuState { regs: c.regs.update(i, v), ..c }
}

pub open spec fn with_cpsr(c: CpuState, cpsr: u32) -> CpuState {
    CpuState { cpsr, ..c }
}

pub open spec fn flag_of(c: CpuState, bit: u32) -> bool {
    (c.cpsr & bit) != 0
}

pub open spec fn with_flag(c: CpuState, bit: u32, value: bool) -> CpuState {
    if value {
        with_cpsr(c, c.cpsr | bit)
    } else {
        with_cpsr(c, c.cpsr & !bit)
    }
}

/// N from bit 31 of `value`, Z from `value == 0`.
pub open spec fn with_nz(c: CpuState, value: u32) -> CpuState {
    with_flag(with_flag(c, CPSR_N, (value >> 31u32) != 0), CPSR_Z, value == 0)
}

/// C, then V.
pub open spec fn with_cv(c: CpuState, carry: bool, overflow: bool) -> CpuState {
    with_flag(with_flag(c, CPSR_C, carry), CPSR_V, overflow)
}

pub open spec fn thumb_state(c: CpuState) -> bool {
    (c.cpsr & CPSR_THUMB) != 0
}

/// Register as an ARM instruction reads it: PC reads 8 bytes past the instruction.
pub open spec fn spec_read_arm_reg(c: CpuState, index: int) -> u32 {
    if index == REG_PC as int {
        pc_of(c).wrapping_add(4)
    } else {
        c.regs[index]
    }
}

pub open spec fn spec_mode_from_cpsr(cpsr: u32) -> CpuMode {
    let m = cpsr & 0x1F;
    if m == 0x10 {
        CpuMode::User
    } else if m == 0x11 {
        CpuMode::Fiq
    } else if m == 0x12 {
        CpuMode::Irq
    } else if m == 0x13 {
        CpuMode::Supervisor
    } else if m == 0x17 {
        CpuMode::Abort
    } else if m == 0x1B {
        CpuMode::Undefined
    } else {
        CpuMode::System
    }
}

pub open spec fn valid_mode_bits(m: u32) -> bool {
    m == 0x10 || m == 0x11 || m == 0x12 || m == 0x13 || m == 0x17 || m == 0x1B || m == 0x1F
}

/// A status word whose mode field is not a valid mode takes the fallback mode field.
pub open spec fn spec_sanitize_cpsr_mode_bits(cpsr: u32, fallback_mode_bits: u32) -> u32 {
    if valid_mode_bits(cpsr & 0x1F) {
        cpsr
    } else {
        (cpsr & !0x1Fu32) | (fallback_mode_bits & 0x1F)
    }
}

/// Saved status register of the current mode (modes without one read 0).
pub open spec fn spec_current_spsr(c: CpuState) -> u32 {
    match c.mode {
        CpuMode::Irq => c.spsr_irq,
        CpuMode::Supervisor => c.spsr_svc,
        CpuMode::Fiq => c.spsr_fiq,
        CpuMode::Abort => c.spsr_abt,
        CpuMode::Undefined => c.spsr_und,
        _ => 0,
    }
}

/// Registers of the mode being left go to its bank; the shared user/system registers
/// come back.
pub open spec fn bank_out(c: CpuState) -> CpuState {
    let r = c.regs;
    match c.mode {
        CpuMode::Fiq => CpuState {
            banked_r8_fiq: r[8],
            banked_r9_fiq: r[9],
            banked_r10_fiq: r[10],
            banked_r11_fiq: r[11],
            banked_r12_fiq: r[12],
            banked_sp_fiq: r[13],
            banked_lr_fiq: r[14],
            regs: r.update(8, c.banked_r8_sys).update(9, c.banked_r9_sys).update(
                10,
                c.banked_r10_sys,
            ).update(11, c.banked_r11_sys).update(12, c.banked_r12_sys).update(
                13,
                c.banked_sp_sys,
            ).update(14, c.banked_lr_sys),
            ..c
        },
        CpuMode::Irq => CpuState {
            banked_sp_irq: r[13],
            banked_lr_irq: r[14],
            regs: r.update(13, c.banked_sp_sys).update(14, c.banked_lr_sys),
            ..c
        },
        CpuMode::Supervisor => CpuState {
            banked_sp_svc: r[13],
            banked_lr_svc: r[14],
            regs: r.update(13, c.banked_sp_sys).update(14, c.banked_lr_sys),
            ..c
        },
        CpuMode::Abort => CpuState {
            banked_sp_abt: r[13],
            banked_lr_abt: r[14],
            regs: r.update(13, c.banked_sp_sys).update(14, c.banked_lr_sys),
            ..c
        },
        CpuMode::Undefined => CpuState {
            banked_sp_und: r[13],
            banked_lr_und: r[14],
            regs: r.update(13, c.banked_sp_sys).update(14, c.banked_lr_sys),
            ..c
        },
        _ => c,
    }
}

/// The shared registers go to the user/system bank; the bank of the mode entered
/// comes in.
pub open spec fn bank_in(c: CpuState, m: CpuMode) -> CpuState {
    let r = c.regs;
    match m {
        CpuMode::Fiq => CpuState {
            banked_r8_sys: r[8],
            banked_r9_sys: r[9],
            banked_r10_sys: r[10],
            banked_r11_sys: r[11],
            banked_r12_sys: r[12],
            banked_sp_sys: r[13],
            banked_lr_sys: r[14],
            regs: r.update(8, c.banked_r8_fiq).update(9, c.banked_r9_fiq).update(
                10,
                c.banked_r10_fiq,
            ).update(11, c.banked_r11_fiq).update(12, c.banked_r12_fiq).update(
                13,
                c.banked_sp_fiq,
            ).update(14, c.banked_lr_fiq),
            ..c
        },
        CpuMode::Irq => CpuState {
            banked_sp_sys: r[13],
            banked_lr_sys: r[14],
            regs: r.update(13, c.banked_sp_irq).update(14, c.banked_lr_irq),
            ..c
        },
        CpuMode::Supervisor => CpuState {
            banked_sp_sys: r[13],
            banked_lr_sys: r[14],
            regs: r.update(13, c.banked_sp_svc).update(14, c.banked_lr_svc),
            ..c
        },
        CpuMode::Abort => CpuState {
            banked_sp_sys: r[13],
            banked_lr_sys: r[14],
            regs: r.update(13, c.banked_sp_abt).update(14, c.banked_lr_abt),
            ..c
        },
        CpuMode::Undefined => CpuState {
            banked_sp_sys: r[13],
            banked_lr_sys: r[14],
            regs: r.update(13, c.banked_sp_und).update(14, c.banked_lr_und),
            ..c
        },
        _ => c,
    }
}

/// Register banking on a mode change (nothing happens when the mode stays).
pub open spec fn spec_switch_mode(c: CpuState, new_mode: CpuMode) -> CpuState {
    if c.mode == new_mode {
        c
    } else {
        CpuState { mode: new_mode, ..bank_in(bank_out(c), new_mode) }
    }
}

/// Status register restored from the saved one of the current mode.
pub open spec fn spec_restore_cpsr_from_spsr(c: CpuState) -> CpuState {
    let raw = match c.mode {
        CpuMode::Irq => c.spsr_irq,
        CpuMode::Supervisor => c.spsr_svc,
        CpuMode::Fiq => c.spsr_fiq,
        CpuMode::Abort => c.spsr_abt,
        CpuMode::Undefined => c.spsr_und,
        _ => c.cpsr,
    };
    let restored = spec_sanitize_cpsr_mode_bits(raw, c.cpsr & 0x1F);
    let c1 = with_cpsr(c, restored);
    let new_mode = spec_mode_from_cpsr(restored);
    if new_mode != c.mode {
        spec_switch_mode(c1, new_mode)
    } else {
        c1
    }
}

/// Byte lanes selected by the four field bits of an MSR instruction.
pub open spec fn field_mask_bits(field_mask: u8) -> u32 {
    (if (field_mask & 1) != 0 {
        0x0000_00FFu32
    } else {
        0
    }) | (if (field_mask & 2) != 0 {
        0x0000_FF00u32
    } else {
        0
    }) | (if (field_mask & 4) != 0 {
        0x00FF_0000u32
    } else {
        0
    }) | (if (field_mask & 8) != 0 {
        0xFF00_0000u32
    } else {
        0
    })
}

/// MSR to CPSR: flags, control byte without T, and (outside user mode) the mode bits.
pub open spec fn spec_write_cpsr_fields(c: CpuState, value: u32, field_mask: u8) -> CpuState {
    let m0 = field_mask_bits(field_mask) & 0xF000_00DFu32;
    let mask = if c.mode == CpuMode::User {
        m0 & 0xF000_0000u32
    } else {
        m0
    };
    let raw = (c.cpsr & !mask) | (value & mask);
    let cpsr = spec_sanitize_cpsr_mode_bits(raw, c.cpsr & 0x1F);
    let c1 = with_cpsr(c, cpsr);
    let new_mode = spec_mode_from_cpsr(cpsr);
    if new_mode != c.mode {
        spec_switch_mode(c1, new_mode)
    } else {
        c1
    }
}

pub open spec fn merge_psr(old: u32, value: u32, mask: u32) -> u32 {
    (old & !mask) | (value & mask)
}

/// MSR to SPSR of the current mode (modes without SPSR ignore it).
pub open spec fn spec_write_spsr_fields(c: CpuState, value: u32, field_mask: u8) -> CpuState {
    let mask = field_mask_bits(field_mask) & 0xF000_00FFu32;
    match c.mode {
        CpuMode::Irq => CpuState { spsr_irq: merge_psr(c.spsr_irq, value, mask), ..c },
        CpuMode::Supervisor => CpuState { spsr_svc: merge_psr(c.spsr_svc, value, mask), ..c },
        CpuMode::Fiq => CpuState { spsr_fiq: merge_psr(c.spsr_fiq, value, mask), ..c },
        CpuMode::Abort => CpuState { spsr_abt: merge_psr(c.spsr_abt, value, mask), ..c },
        CpuMode::Undefined => CpuState { spsr_und: merge_psr(c.spsr_und, value, mask), ..c },
        _ => c,
    }
}

pub open spec fn privileged_bank_mode(m: CpuMode) -> bool {
    m == CpuMode::Fiq || m == CpuMode::Irq || m == CpuMode::Supervisor || m == CpuMode::Abort
        || m == CpuMode::Undefined
}

/// User-bank register as LDM/STM with the S bit see it.
pub open spec fn spec_read_user_reg(c: CpuState, reg: int) -> u32 {
    if 8 <= reg <= 12 && c.mode == CpuMode::Fiq {
        if reg == 8 {
            c.banked_r8_sys
        } else if reg == 9 {
            c.banked_r9_sys
        } else if reg == 10 {
            c.banked_r10_sys
        } else if reg == 11 {
            c.banked_r11_sys
        } else {
            c.banked_r12_sys
        }
    } else if reg == 13 && privileged_bank_mode(c.mode) {
        c.banked_sp_sys
    } else if reg == 14 && privileged_bank_mode(c.mode) {
        c.banked_lr_sys
    } else if reg == 15 {
        spec_read_arm_reg(c, 15)
    } else {
        c.regs[reg]
    }
}

/// User-bank register written by LDM with the S bit.
pub open spec fn spec_write_user_reg(c: CpuState, reg: int, value: u32) -> CpuState {
    if 8 <= reg <= 12 && c.mode == CpuMode::Fiq {
        if reg == 8 {
            CpuState { banked_r8_sys: value, ..c }
        } else if reg == 9 {
            CpuState { banked_r9_sys: value, ..c }
        } else if reg == 10 {
            CpuState { banked_r10_sys: value, ..c }
        } else if reg == 11 {
            CpuState { banked_r11_sys: value, ..c }
        } else {
            CpuState { banked_r12_sys: value, ..c }
        }
    } else if reg == 13 && privileged_bank_mode(c.mode) {
        CpuState { banked_sp_sys: value, ..c }
    } else if reg == 14 && privileged_bank_mode(c.mode) {
        CpuState { banked_lr_sys: value, ..c }
    } else if reg == 15 {
        with_reg(c, 15, value & !3u32)
    } else {
        with_reg(c, reg, value)
    }
}

/// Condition field of an instruction evaluated against N, Z, C, V.
pub open spec fn spec_condition_passed(c: CpuState, cond: u8) -> bool {
    let n = flag_of(c, CPSR_N);
    let z = flag_of(c, CPSR_Z);
    let cf = flag_of(c, CPSR_C);
    let v = flag_of(c, CPSR_V);
    if cond == 0x0 {
        z
    } else if cond == 0x1 {
        !z
    } else if cond == 0x2 {
        cf
    } else if cond == 0x3 {
        !cf
    } else if cond == 0x4 {
        n
    } else if cond == 0x5 {
        !n
    } else if cond == 0x6 {
        v
    } else if cond == 0x7 {
        !v
    } else if cond == 0x8 {
        cf && !z
    } else if cond == 0x9 {
        !cf || z
    } else if cond == 0xA {
        n == v
    } else if cond == 0xB {
        n != v
    } else if cond == 0xC {
        !z && (n == v)
    } else if cond == 0xD {
        z || (n != v)
    } else {
        cond == 0xE
    }
}

/// Sum with carry-out and signed overflow.
pub open spec fn spec_add_with_flags(lhs: u32, rhs: u32) -> (u32, bool, bool) {
    (
        lhs.wrapping_add(rhs),
        lhs + rhs > u32::MAX,
        (lhs as i32) + (rhs as i32) > i32::MAX || (lhs as i32) + (rhs as i32) < i32::MIN,
    )
}

/// Difference with carry (= no borrow) and signed overflow.
pub open spec fn spec_sub_with_flags(lhs: u32, rhs: u32) -> (u32, bool, bool) {
    (
        lhs.wrapping_sub(rhs),
        lhs >= rhs,
        (lhs as i32) - (rhs as i32) > i32::MAX || (lhs as i32) - (rhs as i32) < i32::MIN,
    )
}

/// `x` rotated right by `n` bit positions (modulo 32).
pub open spec fn spec_rotate_right(x: u32, n: u32) -> u32 {
    let s = n % 32;
    if s == 0 {
        x
    } else {
        (x >> s) | (x << ((32 - s) as u32))
    }
}

/// Number of set bits among the low `n` bits of `x`.
pub open spec fn count_low_ones(x: u32, n: nat) -> nat
    decreases n,
{
    if n == 0 {
        0
    } else {
        count_low_ones(x, (n - 1) as nat) + (if (x >> ((n - 1) as u32)) & 1 == 1 {
            1nat
        } else {
            0nat
        })
    }
}

// ---------------------------------------------------------------------------
// Executable helpers with exact contracts
// ---------------------------------------------------------------------------

pub fn add_with_flags(lhs: u32, rhs: u32) -> (r: (u32, bool, bool))
    ensures
        r == spec_add_with_flags(lhs, rhs),
{
    let res = lhs.wrapping_add(rhs);
    let carry = res < lhs;
    let overflow = ((lhs ^ rhs) & 0x8000_0000) == 0 && ((lhs ^ res) & 0x8000_0000) != 0;
    proof {
        assert(res == (lhs + rhs) as u32) by (bit_vector)
            requires
                res == (if lhs + rhs > 0xFFFF_FFFF {
                    (lhs + rhs - 0x1_0000_0000) as u32
                } else {
                    (lhs + rhs) as u32
                }),
        ;
        assert((((lhs ^ rhs) & 0x8000_0000u32) == 0 && ((lhs ^ ((lhs + rhs) as u32)) & 0x8000_0000u32)
            != 0) == ((lhs as i32) + (rhs as i32) > 0x7FFF_FFFF || (lhs as i32) + (rhs as i32)
            < -0x8000_0000)) by (bit_vector);
        assert(carry == (lhs + rhs > 0xFFFF_FFFF)) by (bit_vector)
            requires
                res == (lhs + rhs) as u32,
                carry == (res < lhs),
        ;
    }
    (res, carry, overflow)
}

pub fn sub_with_flags(lhs: u32, rhs: u32) -> (r: (u32, bool, bool))
    ensures
        r == spec_sub_with_flags(lhs, rhs),
{
    let res = lhs.wrapping_sub(rhs);
    let borrow = lhs < rhs;
    let carry = !borrow;
    let overflow = ((lhs ^ rhs) & 0x8000_0000) != 0 && ((lhs ^ res) & 0x8000_0000) != 0;
    proof {
        assert(res == (lhs - rhs) as u32) by (bit_vector)
            requires
                res == (if lhs - rhs < 0 {
                    (lhs - rhs + 0x1_0000_0000) as u32
                } else {
                    (lhs - rhs) as u32
                }),
        ;
        assert((((lhs ^ rhs) & 0x8000_0000u32) != 0 && ((lhs ^ ((lhs - rhs) as u32)) & 0x8000_0000u32)
            != 0) == ((lhs as i32) - (rhs as i32) > 0x7FFF_FFFF || (lhs as i32) - (rhs as i32)
            < -0x8000_0000)) by (bit_vector);
    }
    (res, carry, overflow)
}

pub fn rotate_right(x: u32, n: u32) -> (r: u32)
    ensures
        r == spec_rotate_right(x, n),
{
    let s = n % 32;
    if s == 0 {
        x
    } else {
        (x >> s) | (x << (32 - s))
    }
}

/// Number of set bits among the low 16 bits.
pub fn count_ones16(x: u32) -> (r: u32)
    ensures
        r == count_low_ones(x, 16),
        r <= 16,
{
    let mut count: u32 = 0;
    let mut i: u32 = 0;
    while i < 16
        invariant
            i <= 16,
            count == count_low_ones(x, i as nat),
            count <= i,
        decreases 16 - i,
    {
        if (x >> i) & 1 == 1 {
            count = count + 1;
        }
        i = i + 1;
    }
    count
}

/// Number of set bits among the low 8 bits.
pub fn count_ones8(x: u32) -> (r: u32)
    ensures
        r == count_low_ones(x, 8),
        r <= 8,
{
    let mut count: u32 = 0;
    let mut i: u32 = 0;
    while i < 8
        invariant
            i <= 8,
            count == count_low_ones(x, i as nat),
            count <= i,
        decreases 8 - i,
    {
        if (x >> i) & 1 == 1 {
            count = count + 1;
        }
        i = i + 1;
    }
    count
}

pub fn mode_from_cpsr(cpsr: u32) -> (r: CpuMode)
    ensures
        r == spec_mode_from_cpsr(cpsr),
{
    let m = cpsr & 0x1F;
    if m == 0x10 {
        CpuMode::User
    } else if m == 0x11 {
        CpuMode::Fiq
    } else if m == 0x12 {
        CpuMode::Irq
    } else if m == 0x13 {
        CpuMode::Supervisor
    } else if m == 0x17 {
        CpuMode::Abort
    } else if m == 0x1B {
        CpuMode::Undefined
    } else {
        CpuMode::System
    }
}

pub fn sanitize_cpsr_mode_bits(cpsr: u32, fallback_mode_bits: u32) -> (r: u32)
    ensures
        r == spec_sanitize_cpsr_mode_bits(cpsr, fallback_mode_bits),
{
    let mode = cpsr & 0x1F;
    let valid = mode == 0x10 || mode == 0x11 || mode == 0x12 || mode == 0x13 || mode == 0x17
        || mode == 0x1B || mode == 0x1F;
    if valid {
        cpsr
    } else {
        (cpsr & !0x1Fu32) | (fallback_mode_bits & 0x1F)
    }
}

/// Register field of 4 bits at `shift`.
fn reg4(instr: u32, shift: u32) -> (r: usize)
    requires
        shift < 32,
    ensures
        r == ((instr >> shift) & 0xF) as usize,
        r < 16,
{
    proof {
        assert((instr >> shift) & 0xFu32 < 16) by (bit_vector);
    }
    ((instr >> shift) & 0xF) as usize
}

/// Register field of 3 bits at `shift` of a THUMB instruction.
fn reg3(instr: u16, shift: u16) -> (r: usize)
    requires
        shift < 16,
    ensures
        r == ((instr >> shift) & 0x7) as usize,
        r < 8,
{
    proof {
        assert((instr >> shift) & 0x7u16 < 8) by (bit_vector);
    }
    ((instr >> shift) & 0x7) as usize
}


/// Operand 2 shifted by an amount taken from a register.
pub open spec fn spec_shift_by_register(value: u32, shift_type: u32, amount: u32, c_in: bool) -> (u32, bool) {
    if amount == 0 {
        (value, c_in)
    } else if shift_type == 0 {
        if amount < 32 {
            (value << amount, ((value >> ((32 - amount) as u32)) & 1) != 0)
        } else if amount == 32 {
            (0, (value & 1) != 0)
        } else {
            (0, false)
        }
    } else if shift_type == 1 {
        if amount < 32 {
            (value >> amount, ((value >> ((amount - 1) as u32)) & 1) != 0)
        } else if amount == 32 {
            (0, (value >> 31u32) != 0)
        } else {
            (0, false)
        }
    } else if shift_type == 2 {
        if amount < 32 {
            (((value as i32) >> amount) as u32, ((value >> ((amount - 1) as u32)) & 1) != 0)
        } else {
            let sign = (value >> 31u32) != 0;
            (if sign {
                u32::MAX
            } else {
                0
            }, sign)
        }
    } else {
        let rot = amount & 31;
        if rot == 0 {
            (value, (value >> 31u32) != 0)
        } else {
            let res = spec_rotate_right(value, rot);
            (res, (res >> 31u32) != 0)
        }
    }
}

/// Operand 2 shifted by a 5-bit immediate (amount 0 encodes LSR/ASR #32 and RRX).
pub open spec fn spec_shift_by_immediate(value: u32, shift_type: u32, shift_imm: u32, c_in: bool) -> (u32, bool) {
    if shift_type == 0 {
        if shift_imm == 0 {
            (value, c_in)
        } else {
            (value << shift_imm, ((value >> ((32 - shift_imm) as u32)) & 1) != 0)
        }
    } else if shift_type == 1 {
        if shift_imm == 0 {
            (0, (value >> 31u32) != 0)
        } else {
            (value >> shift_imm, ((value >> ((shift_imm - 1) as u32)) & 1) != 0)
        }
    } else if shift_type == 2 {
        if shift_imm == 0 {
            let carry = (value >> 31u32) != 0;
            (if carry {
                u32::MAX
            } else {
                0
            }, carry)
        } else {
            (((value as i32) >> shift_imm) as u32, ((value >> ((shift_imm - 1) as u32)) & 1) != 0)
        }
    } else {
        if shift_imm == 0 {
            let carry_in: u32 = if c_in {
                1
            } else {
                0
            };
            ((carry_in << 31u32) | (value >> 1u32), (value & 1) != 0)
        } else {
            let res = spec_rotate_right(value, shift_imm);
            (res, (res >> 31u32) != 0)
        }
    }
}

/// Shifted-register operand 2 of a data-processing instruction, with shifter carry.
pub open spec fn spec_decode_shifted_register_operand(c: CpuState, instr: u32) -> (u32, bool) {
    let rm = (instr & 0xF) as int;
    let shift_type = (instr >> 5u32) & 0x3;
    let register_shift = (instr & 0x10) != 0;
    let value = if register_shift && rm == REG_PC as int {
        pc_of(c).wrapping_add(8)
    } else {
        spec_read_arm_reg(c, rm)
    };
    if register_shift {
        let rs = ((instr >> 8u32) & 0xF) as int;
        let amount = spec_read_arm_reg(c, rs) & 0xFF;
        spec_shift_by_register(value, shift_type, amount, flag_of(c, CPSR_C))
    } else {
        spec_shift_by_immediate(value, shift_type, (instr >> 7u32) & 0x1F, flag_of(c, CPSR_C))
    }
}

/// Shifted-register offset of a single data transfer.
pub open spec fn spec_apply_arm_address_shift(c: CpuState, value: u32, shift_type: u32, shift_imm: u32) -> u32 {
    if shift_type == 0 {
        value.wrapping_shl(shift_imm)
    } else if shift_type == 1 {
        if shift_imm == 0 {
            0
        } else {
            value >> shift_imm
        }
    } else if shift_type == 2 {
        if shift_imm == 0 {
            if (value >> 31u32) != 0 {
                u32::MAX
            } else {
                0
            }
        } else {
            ((value as i32) >> shift_imm) as u32
        }
    } else {
        if shift_imm == 0 {
            let carry_in: u32 = if flag_of(c, CPSR_C) {
                1
            } else {
                0
            };
            (carry_in << 31u32) | (value >> 1u32)
        } else {
            spec_rotate_right(value, shift_imm)
        }
    }
}

/// BX: T from bit 0 of the target, PC from the aligned target; BX to 0 from BIOS
/// code hands over to the cartridge; return from an emulated IRQ callback.
pub open spec fn spec_branch_exchange(c: CpuState, target: u32) -> CpuState {
    if c.biosless_irq_active && (target & !1u32) == BIOSLESS_IRQ_RETURN_MAGIC {
        let return_pc = c.biosless_irq_lr.wrapping_sub(4);
        let s = c.biosless_irq_saved;
        let c1 = CpuState {
            biosless_irq_active: false,
            regs: c.regs.update(0, s[0]).update(1, s[1]).update(2, s[2]).update(3, s[3]).update(
                12,
                s[4],
            ).update(14, c.biosless_irq_lr),
            ..c
        };
        let c2 = spec_restore_cpsr_from_spsr(c1);
        if thumb_state(c2) {
            with_reg(c2, REG_PC as int, return_pc & !1u32)
        } else {
            with_reg(c2, REG_PC as int, return_pc & !3u32)
        }
    } else if target == 0 && pc_of(c) < BIOS_SIZE {
        spec_force_boot_to_rom(c)
    } else if (target & 1) != 0 {
        with_reg(with_cpsr(c, c.cpsr | CPSR_THUMB), REG_PC as int, target & !1u32)
    } else {
        with_reg(with_cpsr(c, c.cpsr & !CPSR_THUMB), REG_PC as int, target & !3u32)
    }
}

/// ARM state at the cartridge entry point.
pub open spec fn spec_force_boot_to_rom(c: CpuState) -> CpuState {
    with_reg(with_cpsr(c, c.cpsr & !CPSR_THUMB), REG_PC as int, GAMEPAK_ROM_START)
}

/// SWI exception entry: supervisor mode, return address in LR, vector 0x08.
pub open spec fn spec_software_interrupt(c: CpuState, from_thumb: bool) -> CpuState {
    let c1 = spec_switch_mode(CpuState { spsr_svc: c.cpsr, ..c }, CpuMode::Supervisor);
    let lr = if from_thumb {
        pc_of(c1) | 1
    } else {
        pc_of(c1)
    };
    let c2 = with_reg(c1, REG_LR as int, lr);
    let c3 = with_cpsr(c2, (c2.cpsr & !CPSR_THUMB) | CPSR_IRQ_DISABLE);
    with_reg(c3, REG_PC as int, 0x0000_0008)
}

pub open spec fn initial_cpu_state() -> CpuState {
    CpuState {
        regs: Seq::new(16, |i: int| 0u32).update(REG_PC as int, GAMEPAK_ROM_START),
        cpsr: 0x0000_001F,
        mode: CpuMode::System,
        spsr_irq: 0,
        spsr_svc: 0,
        spsr_fiq: 0,
        spsr_abt: 0,
        spsr_und: 0,
        banked_sp_irq: 0x0300_7FA0,
        banked_lr_irq: 0,
        banked_sp_svc: 0x0300_7FE0,
        banked_lr_svc: 0,
        banked_r8_fiq: 0,
        banked_r9_fiq: 0,
        banked_r10_fiq: 0,
        banked_r11_fiq: 0,
        banked_r12_fiq: 0,
        banked_sp_fiq: 0,
        banked_lr_fiq: 0,
        banked_sp_abt: 0,
        banked_lr_abt: 0,
        banked_sp_und: 0,
        banked_lr_und: 0,
        banked_r8_sys: 0,
        banked_r9_sys: 0,
        banked_r10_sys: 0,
        banked_r11_sys: 0,
        banked_r12_sys: 0,
        banked_sp_sys: 0x0300_7F00,
        banked_lr_sys: 0,
        biosless_irq_active: false,
        biosless_irq_saved: Seq::new(5, |i: int| 0u32),
        biosless_irq_lr: 0,
        halted: false,
        cycles: 0,
        trace_branches: false,
        last_branch: None,
        strict_unknown: false,
        unknown_hit: None,
    }
}

/// State after a reset: like a fresh core, with SP at the top of the user stack; the
/// branch-tracing and unknown-instruction settings stay.
pub open spec fn reset_cpu_state(trace_branches: bool, strict_unknown: bool) -> CpuState {
    CpuState { trace_branches, strict_unknown, ..with_reg(initial_cpu_state(), REG_SP as int, 0x0300_7F00) }
}

/// An undecoded instruction runs as a one-cycle no-op; while unknown instructions are
/// reported, the first one is recorded.
pub open spec fn spec_note_unknown(c: CpuState, thumb: bool, instr: u32, addr: u32) -> CpuState {
    if c.strict_unknown && c.unknown_hit is None {
        CpuState { unknown_hit: Some(UnknownInstruction { thumb, instr, addr }), ..c }
    } else {
        c
    }
}

impl Cpu {
    pub fn new() -> (cpu: Cpu)
        ensures
            cpu@ == initial_cpu_state(),
    {
        let mut cpu = Cpu {
            regs: [0u32; 16],
            cpsr: 0x0000_001F,
            mode: CpuMode::System,
            spsr_irq: 0,
            spsr_svc: 0,
            spsr_fiq: 0,
            spsr_abt: 0,
            spsr_und: 0,
            banked_sp_irq: 0x0300_7FA0,
            banked_lr_irq: 0,
            banked_sp_svc: 0x0300_7FE0,
            banked_lr_svc: 0,
            banked_r8_fiq: 0,
            banked_r9_fiq: 0,
            banked_r10_fiq: 0,
            banked_r11_fiq: 0,
            banked_r12_fiq: 0,
            banked_sp_fiq: 0,
            banked_lr_fiq: 0,
            banked_sp_abt: 0,
            banked_lr_abt: 0,
            banked_sp_und: 0,
            banked_lr_und: 0,
            banked_r8_sys: 0,
            banked_r9_sys: 0,
            banked_r10_sys: 0,
            banked_r11_sys: 0,
            banked_r12_sys: 0,
            banked_sp_sys: 0x0300_7F00,
            banked_lr_sys: 0,
            biosless_irq_active: false,
            biosless_irq_saved: [0u32; 5],
            biosless_irq_lr: 0,
            halted: false,
            cycles: 0,
            trace_branches: false,
            last_branch: None,
            strict_unknown: false,
            unknown_hit: None,
        };
        cpu.regs[REG_PC] = GAMEPAK_ROM_START;
        cpu
    }

    pub fn reset(&mut self)
        ensures
            final(self)@ == reset_cpu_state(old(self)@.trace_branches, old(self)@.strict_unknown),
    {
        self.regs = [0u32; 16];
        self.regs[REG_SP] = 0x0300_7F00;
        self.regs[REG_PC] = GAMEPAK_ROM_START;
        self.cpsr = 0x0000_001F;
        self.mode = CpuMode::System;
        self.spsr_irq = 0;
        self.spsr_svc = 0;
        self.spsr_fiq = 0;
        self.spsr_abt = 0;
        self.spsr_und = 0;
        self.banked_sp_irq = 0x0300_7FA0;
        self.banked_lr_irq = 0;
        self.banked_sp_svc = 0x0300_7FE0;
        self.banked_lr_svc = 0;
        self.banked_r8_fiq = 0;
        self.banked_r9_fiq = 0;
        self.banked_r10_fiq = 0;
        self.banked_r11_fiq = 0;
        self.banked_r12_fiq = 0;
        self.banked_sp_fiq = 0;
        self.banked_lr_fiq = 0;
        self.banked_sp_abt = 0;
        self.banked_lr_abt = 0;
        self.banked_sp_und = 0;
        self.banked_lr_und = 0;
        self.banked_r8_sys = self.regs[8];
        self.banked_r9_sys = self.regs[9];
        self.banked_r10_sys = self.regs[10];
        self.banked_r11_sys = self.regs[11];
        self.banked_r12_sys = self.regs[12];
        self.banked_sp_sys = self.regs[REG_SP];
        self.banked_lr_sys = self.regs[REG_LR];
        self.biosless_irq_active = false;
        self.biosless_irq_saved = [0u32; 5];
        self.biosless_irq_lr = 0;
        self.halted = false;
        self.cycles = 0;
        self.last_branch = None;
        self.unknown_hit = None;
        assert(self.regs@ =~= reset_cpu_state(old(self)@.trace_branches, old(self)@.strict_unknown).regs);
    }

    pub proof fn lemma_wf(&self)
        ensures
            self@.wf(),
    {
    }

    /// Whether the core waits for an interrupt (after a halt request).
    pub fn is_halted(&self) -> (r: bool)
        ensures
            r == self@.halted,
    {
        self.halted
    }

    pub fn pc(&self) -> (r: u32)
        ensures
            r == pc_of(self@),
    {
        self.regs[REG_PC]
    }

    pub fn set_pc(&mut self, value: u32)
        ensures
            final(self)@ == with_reg(old(self)@, REG_PC as int, value),
    {
        self.regs[REG_PC] = value;
    }

    pub fn read_reg(&self, index: usize) -> (r: u32)
        requires
            index < 16,
        ensures
            r == self@.regs[index as int],
    {
        self.regs[index]
    }

    pub fn write_reg(&mut self, index: usize, value: u32)
        requires
            index < 16,
        ensures
            final(self)@ == with_reg(old(self)@, index as int, value),
    {
        self.regs[index] = value;
    }

    pub fn is_thumb(&self) -> (r: bool)
        ensures
            r == thumb_state(self@),
    {
        (self.cpsr & CPSR_THUMB) != 0
    }

    pub fn cpsr(&self) -> (r: u32)
        ensures
            r == self@.cpsr,
    {
        self.cpsr
    }

    /// Switches between THUMB and ARM state (the T bit of CPSR) without a branch.
    pub fn set_thumb(&mut self, enabled: bool)
        ensures
            final(self)@ == with_flag(old(self)@, CPSR_THUMB, enabled),
    {
        self.set_flag(CPSR_THUMB, enabled);
    }

    /// Cycles executed since power-on or reset.
    pub fn cycles(&self) -> (r: u64)
        ensures
            r == self@.cycles,
    {
        self.cycles
    }

    pub fn mode(&self) -> (r: CpuMode)
        ensures
            r == self@.mode,
    {
        self.mode
    }

    /// ARM state at the cartridge entry point.
    pub fn force_boot_to_rom(&mut self)
        ensures
            final(self)@ == spec_force_boot_to_rom(old(self)@),
    {
        self.cpsr = self.cpsr & !CPSR_THUMB;
        self.set_pc(GAMEPAK_ROM_START);
    }

    fn flag(&self, bit: u32) -> (r: bool)
        ensures
            r == flag_of(self@, bit),
    {
        (self.cpsr & bit) != 0
    }

    fn set_flag(&mut self, bit: u32, value: bool)
        ensures
            final(self)@ == with_flag(old(self)@, bit, value),
    {
        if value {
            self.cpsr = self.cpsr | bit;
        } else {
            self.cpsr = self.cpsr & !bit;
        }
    }

    fn set_nz(&mut self, value: u32)
        ensures
            final(self)@ == with_nz(old(self)@, value),
    {
        self.set_flag(CPSR_N, (value >> 31u32) != 0);
        self.set_flag(CPSR_Z, value == 0);
    }

    fn set_cv(&mut self, carry: bool, overflow: bool)
        ensures
            final(self)@ == with_cv(old(self)@, carry, overflow),
    {
        self.set_flag(CPSR_C, carry);
        self.set_flag(CPSR_V, overflow);
    }

    fn condition_passed(&self, cond: u8) -> (r: bool)
        ensures
            r == spec_condition_passed(self@, cond),
    {
        let n = self.flag(CPSR_N);
        let z = self.flag(CPSR_Z);
        let c = self.flag(CPSR_C);
        let v = self.flag(CPSR_V);
        match cond {
            0x0 => z,
            0x1 => !z,
            0x2 => c,
            0x3 => !c,
            0x4 => n,
            0x5 => !n,
            0x6 => v,
            0x7 => !v,
            0x8 => c && !z,
            0x9 => !c || z,
            0xA => n == v,
            0xB => n != v,
            0xC => !z && (n == v),
            0xD => z || (n != v),
            0xE => true,
            _ => false,
        }
    }

    fn read_arm_reg(&self, index: usize) -> (r: u32)
        requires
            index < 16,
        ensures
            r == spec_read_arm_reg(self@, index as int),
    {
        if index == REG_PC {
            self.pc().wrapping_add(4)
        } else {
            self.regs[index]
        }
    }

    fn current_spsr(&self) -> (r: u32)
        ensures
            r == spec_current_spsr(self@),
    {
        match self.mode {
            CpuMode::Irq => self.spsr_irq,
            CpuMode::Supervisor => self.spsr_svc,
            CpuMode::Fiq => self.spsr_fiq,
            CpuMode::Abort => self.spsr_abt,
            CpuMode::Undefined => self.spsr_und,
            _ => 0,
        }
    }

    fn switch_mode(&mut self, new_mode: CpuMode)
        ensures
            final(self)@ == spec_switch_mode(old(self)@, new_mode),
    {
        if self.mode == new_mode {
            return;
        }
        match self.mode {
            CpuMode::Fiq => {
                self.banked_r8_fiq = self.regs[8];
                self.banked_r9_fiq = self.regs[9];
                self.banked_r10_fiq = self.regs[10];
                self.banked_r11_fiq = self.regs[11];
                self.banked_r12_fiq = self.regs[12];
                self.banked_sp_fiq = self.regs[REG_SP];
                self.banked_lr_fiq = self.regs[REG_LR];
                self.regs[8] = self.banked_r8_sys;
                self.regs[9] = self.banked_r9_sys;
                self.regs[10] = self.banked_r10_sys;
                self.regs[11] = self.banked_r11_sys;
                self.regs[12] = self.banked_r12_sys;
                self.regs[REG_SP] = self.banked_sp_sys;
                self.regs[REG_LR] = self.banked_lr_sys;
            },
            CpuMode::Irq => {
                self.banked_sp_irq = self.regs[REG_SP];
                self.banked_lr_irq = self.regs[REG_LR];
                self.regs[REG_SP] = self.banked_sp_sys;
                self.regs[REG_LR] = self.banked_lr_sys;
            },
            CpuMode::Supervisor => {
                self.banked_sp_svc = self.regs[REG_SP];
                self.banked_lr_svc = self.regs[REG_LR];
                self.regs[REG_SP] = self.banked_sp_sys;
                self.regs[REG_LR] = self.banked_lr_sys;
            },
            CpuMode::Abort => {
                self.banked_sp_abt = self.regs[REG_SP];
                self.banked_lr_abt = self.regs[REG_LR];
                self.regs[REG_SP] = self.banked_sp_sys;
                self.regs[REG_LR] = self.banked_lr_sys;
            },
            CpuMode::Undefined => {
                self.banked_sp_und = self.regs[REG_SP];
                self.banked_lr_und = self.regs[REG_LR];
                self.regs[REG_SP] = self.banked_sp_sys;
                self.regs[REG_LR] = self.banked_lr_sys;
            },
            _ => {},
        }
        let ghost mid = self@;
        assert(mid == bank_out(old(self)@));
        match new_mode {
            CpuMode::Fiq => {
                self.banked_r8_sys = self.regs[8];
                self.banked_r9_sys = self.regs[9];
                self.banked_r10_sys = self.regs[10];
                self.banked_r11_sys = self.regs[11];
                self.banked_r12_sys = self.regs[12];
                self.banked_sp_sys = self.regs[REG_SP];
                self.banked_lr_sys = self.regs[REG_LR];
                self.regs[8] = self.banked_r8_fiq;
                self.regs[9] = self.banked_r9_fiq;
                self.regs[10] = self.banked_r10_fiq;
                self.regs[11] = self.banked_r11_fiq;
                self.regs[12] = self.banked_r12_fiq;
                self.regs[REG_SP] = self.banked_sp_fiq;
                self.regs[REG_LR] = self.banked_lr_fiq;
            },
            CpuMode::Irq => {
                self.banked_sp_sys = self.regs[REG_SP];
                self.banked_lr_sys = self.regs[REG_LR];
                self.regs[REG_SP] = self.banked_sp_irq;
                self.regs[REG_LR] = self.banked_lr_irq;
            },
            CpuMode::Supervisor => {
                self.banked_sp_sys = self.regs[REG_SP];
                self.banked_lr_sys = self.regs[REG_LR];
                self.regs[REG_SP] = self.banked_sp_svc;
                self.regs[REG_LR] = self.banked_lr_svc;
            },
            CpuMode::Abort => {
                self.banked_sp_sys = self.regs[REG_SP];
                self.banked_lr_sys = self.regs[REG_LR];
                self.regs[REG_SP] = self.banked_sp_abt;
                self.regs[REG_LR] = self.banked_lr_abt;
            },
            CpuMode::Undefined => {
                self.banked_sp_sys = self.regs[REG_SP];
                self.banked_lr_sys = self.regs[REG_LR];
                self.regs[REG_SP] = self.banked_sp_und;
                self.regs[REG_LR] = self.banked_lr_und;
            },
            _ => {},
        }
        self.mode = new_mode;
    }

    fn restore_cpsr_from_spsr(&mut self)
        ensures
            final(self)@ == spec_restore_cpsr_from_spsr(old(self)@),
    {
        let raw_restored = match self.mode {
            CpuMode::Irq => self.spsr_irq,
            CpuMode::Supervisor => self.spsr_svc,
            CpuMode::Fiq => self.spsr_fiq,
            CpuMode::Abort => self.spsr_abt,
            CpuMode::Undefined => self.spsr_und,
            _ => self.cpsr,
        };
        let restored = sanitize_cpsr_mode_bits(raw_restored, self.cpsr & 0x1F);
        let old_mode = self.mode;
        let new_mode = mode_from_cpsr(restored);
        self.cpsr = restored;
        if new_mode != old_mode {
            self.switch_mode(new_mode);
        }
    }

    fn write_cpsr_fields(&mut self, value: u32, field_mask: u8)
        ensures
            final(self)@ == spec_write_cpsr_fields(old(self)@, value, field_mask),
    {
        let mask0 = psr_field_mask(field_mask);
        // ARMv4T: allow only architecturally relevant CPSR bits and block T writes via MSR.
        let mut mask = mask0 & 0xF000_00DF;
        // In User mode, only flag bits are writable.
        if self.mode == CpuMode::User {
            mask = mask & 0xF000_0000;
        }
        let old_mode = self.mode;
        let old_mode_bits = self.cpsr & 0x1F;
        let raw = (self.cpsr & !mask) | (value & mask);
        self.cpsr = sanitize_cpsr_mode_bits(raw, old_mode_bits);
        let new_mode = mode_from_cpsr(self.cpsr);
        if new_mode != old_mode {
            self.switch_mode(new_mode);
        }
    }

    fn write_spsr_fields(&mut self, value: u32, field_mask: u8)
        ensures
            final(self)@ == spec_write_spsr_fields(old(self)@, value, field_mask),
    {
        let mask0 = psr_field_mask(field_mask);
        // ARMv4T: reserved SPSR bits [27:8] are treated as zero/ignored.
        let mask = mask0 & 0xF000_00FF;
        match self.mode {
            CpuMode::Irq => {
                self.spsr_irq = (self.spsr_irq & !mask) | (value & mask);
            },
            CpuMode::Supervisor => {
                self.spsr_svc = (self.spsr_svc & !mask) | (value & mask);
            },
            CpuMode::Fiq => {
                self.spsr_fiq = (self.spsr_fiq & !mask) | (value & mask);
            },
            CpuMode::Abort => {
                self.spsr_abt = (self.spsr_abt & !mask) | (value & mask);
            },
            CpuMode::Undefined => {
                self.spsr_und = (self.spsr_und & !mask) | (value & mask);
            },
            _ => {
                // Modes without SPSR ignore MSR SPSR writes.
            },
        }
    }

    fn read_user_reg(&self, reg: usize) -> (r: u32)
        requires
            reg < 16,
        ensures
            r == spec_read_user_reg(self@, reg as int),
    {
        let fiq = self.mode == CpuMode::Fiq;
        let banked = fiq || self.mode == CpuMode::Irq || self.mode == CpuMode::Supervisor
            || self.mode == CpuMode::Abort || self.mode == CpuMode::Undefined;
        if reg == 8 && fiq {
            self.banked_r8_sys
        } else if reg == 9 && fiq {
            self.banked_r9_sys
        } else if reg == 10 && fiq {
            self.banked_r10_sys
        } else if reg == 11 && fiq {
            self.banked_r11_sys
        } else if reg == 12 && fiq {
            self.banked_r12_sys
        } else if reg == REG_SP && banked {
            self.banked_sp_sys
        } else if reg == REG_LR && banked {
            self.banked_lr_sys
        } else if reg == REG_PC {
            self.read_arm_reg(REG_PC)
        } else {
            self.regs[reg]
        }
    }

    fn write_user_reg(&mut self, reg: usize, value: u32)
        requires
            reg < 16,
        ensures
            final(self)@ == spec_write_user_reg(old(self)@, reg as int, value),
    {
        let fiq = self.mode == CpuMode::Fiq;
        let banked = fiq || self.mode == CpuMode::Irq || self.mode == CpuMode::Supervisor
            || self.mode == CpuMode::Abort || self.mode == CpuMode::Undefined;
        if reg == 8 && fiq {
            self.banked_r8_sys = value;
        } else if reg == 9 && fiq {
            self.banked_r9_sys = value;
        } else if reg == 10 && fiq {
            self.banked_r10_sys = value;
        } else if reg == 11 && fiq {
            self.banked_r11_sys = value;
        } else if reg == 12 && fiq {
            self.banked_r12_sys = value;
        } else if reg == REG_SP && banked {
            self.banked_sp_sys = value;
        } else if reg == REG_LR && banked {
            self.banked_lr_sys = value;
        } else if reg == REG_PC {
            self.regs[REG_PC] = value & !3u32;
        } else {
            self.regs[reg] = value;
        }
    }

    fn branch_exchange(&mut self, target: u32)
        ensures
            final(self)@ == spec_branch_exchange(old(self)@, target),
    {
        if self.biosless_irq_active && (target & !1u32) == BIOSLESS_IRQ_RETURN_MAGIC {
            let return_pc = self.biosless_irq_lr.wrapping_sub(4);
            self.biosless_irq_active = false;
            self.regs[0] = self.biosless_irq_saved[0];
            self.regs[1] = self.biosless_irq_saved[1];
            self.regs[2] = self.biosless_irq_saved[2];
            self.regs[3] = self.biosless_irq_saved[3];
            self.regs[12] = self.biosless_irq_saved[4];
            self.regs[REG_LR] = self.biosless_irq_lr;
            self.restore_cpsr_from_spsr();
            if self.is_thumb() {
                self.set_pc(return_pc & !1u32);
            } else {
                self.set_pc(return_pc & !3u32);
            }
            return;
        }
        // Real BIOS eventually hands control to cartridge code; if execution is in BIOS
        // and BX resolves to 0, treat that as boot handoff to ROM entry.
        if target == 0 && self.pc() < BIOS_SIZE as u32 {
            self.force_boot_to_rom();
            return;
        }
        if (target & 1) != 0 {
            self.cpsr = self.cpsr | CPSR_THUMB;
            self.set_pc(target & !1u32);
        } else {
            self.cpsr = self.cpsr & !CPSR_THUMB;
            self.set_pc(target & !3u32);
        }
    }

    fn software_interrupt(&mut self, from_thumb: bool)
        ensures
            final(self)@ == spec_software_interrupt(old(self)@, from_thumb),
    {
        self.spsr_svc = self.cpsr;
        self.switch_mode(CpuMode::Supervisor);
        self.regs[REG_LR] = if from_thumb {
            self.pc() | 1
        } else {
            self.pc()
        };
        self.cpsr = self.cpsr & !CPSR_THUMB;
        self.cpsr = self.cpsr | CPSR_IRQ_DISABLE;
        self.set_pc(0x0000_0008);
    }

    fn decode_shifted_register_operand(&self, instr: u32) -> (r: (u32, bool))
        ensures
            r == spec_decode_shifted_register_operand(self@, instr),
    {
        proof {
            assert(instr & 0xFu32 < 16 && (instr >> 7u32) & 0x1Fu32 < 32) by (bit_vector);
        }
        let rm = (instr & 0xF) as usize;
        let shift_type = (instr >> 5u32) & 0x3;
        let register_shift = (instr & 0x10) != 0;
        let value = if register_shift && rm == REG_PC {
            // ARM quirk: for register-specified shifts, Rm=PC reads as current instruction + 12.
            self.pc().wrapping_add(8)
        } else {
            self.read_arm_reg(rm)
        };
        let c_in = self.flag(CPSR_C);
        if register_shift {
            let rs = reg4(instr, 8);
            let amount = self.read_arm_reg(rs) & 0xFF;
            return shift_by_register(value, shift_type, amount, c_in);
        }
        let shift_imm = (instr >> 7u32) & 0x1F;
        shift_by_immediate(value, shift_type, shift_imm, c_in)
    }

    fn apply_arm_address_shift(&self, value: u32, shift_type: u32, shift_imm: u32) -> (r: u32)
        requires
            shift_imm < 32,
        ensures
            r == spec_apply_arm_address_shift(self@, value, shift_type, shift_imm),
    {
        if shift_type == 0 {
            value.wrapping_shl(shift_imm)
        } else if shift_type == 1 {
            if shift_imm == 0 {
                0
            } else {
                value >> shift_imm
            }
        } else if shift_type == 2 {
            if shift_imm == 0 {
                if (value >> 31u32) != 0 {
                    u32::MAX
                } else {
                    0
                }
            } else {
                ((value as i32) >> shift_imm) as u32
            }
        } else {
            if shift_imm == 0 {
                let carry_in = if self.flag(CPSR_C) {
                    1u32
                } else {
                    0u32
                };
                (carry_in << 31u32) | (value >> 1u32)
            } else {
                rotate_right(value, shift_imm)
            }
        }
    }
}

fn psr_field_mask(field_mask: u8) -> (r: u32)
    ensures
        r == field_mask_bits(field_mask),
{
    let f = if (field_mask & 1) != 0 {
        0x0000_00FFu32
    } else {
        0
    };
    let x = if (field_mask & 2) != 0 {
        0x0000_FF00u32
    } else {
        0
    };
    let st = if (field_mask & 4) != 0 {
        0x00FF_0000u32
    } else {
        0
    };
    let fl = if (field_mask & 8) != 0 {
        0xFF00_0000u32
    } else {
        0
    };
    f | x | st | fl
}

fn shift_by_register(value: u32, shift_type: u32, amount: u32, c_in: bool) -> (r: (u32, bool))
    ensures
        r == spec_shift_by_register(value, shift_type, amount, c_in),
{
    if amount == 0 {
        return (value, c_in);
    }
    if shift_type == 0 {
        if amount < 32 {
            (value << amount, ((value >> (32 - amount)) & 1) != 0)
        } else if amount == 32 {
            (0, (value & 1) != 0)
        } else {
            (0, false)
        }
    } else if shift_type == 1 {
        if amount < 32 {
            (value >> amount, ((value >> (amount - 1)) & 1) != 0)
        } else if amount == 32 {
            (0, (value >> 31u32) != 0)
        } else {
            (0, false)
        }
    } else if shift_type == 2 {
        if amount < 32 {
            (((value as i32) >> amount) as u32, ((value >> (amount - 1)) & 1) != 0)
        } else {
            let sign = (value >> 31u32) != 0;
            (if sign {
                u32::MAX
            } else {
                0
            }, sign)
        }
    } else {
        let rot = amount & 31;
        if rot == 0 {
            (value, (value >> 31u32) != 0)
        } else {
            let res = rotate_right(value, rot);
            (res, (res >> 31u32) != 0)
        }
    }
}

fn shift_by_immediate(value: u32, shift_type: u32, shift_imm: u32, c_in: bool) -> (r: (u32, bool))
    requires
        shift_imm < 32,
    ensures
        r == spec_shift_by_immediate(value, shift_type, shift_imm, c_in),
{
    if shift_type == 0 {
        if shift_imm == 0 {
            (value, c_in)
        } else {
            (value << shift_imm, ((value >> (32 - shift_imm)) & 1) != 0)
        }
    } else if shift_type == 1 {
        if shift_imm == 0 {
            (0, (value >> 31u32) != 0)
        } else {
            (value >> shift_imm, ((value >> (shift_imm - 1)) & 1) != 0)
        }
    } else if shift_type == 2 {
        if shift_imm == 0 {
            let carry = (value >> 31u32) != 0;
            (if carry {
                u32::MAX
            } else {
                0
            }, carry)
        } else {
            (((value as i32) >> shift_imm) as u32, ((value >> (shift_imm - 1)) & 1) != 0)
        }
    } else {
        if shift_imm == 0 {
            let carry_in = if c_in {
                1u32
            } else {
                0u32
            };
            ((carry_in << 31u32) | (value >> 1u32), (value & 1) != 0)
        } else {
            let res = rotate_right(value, shift_imm);
            (res, (res >> 31u32) != 0)
        }
    }
}


// ---------------------------------------------------------------------------
// ARM instruction set
// ---------------------------------------------------------------------------

pub open spec fn bus_w16(b: BusState, addr: u32, value: u16) -> BusState {
    spec_write16(b, addr, value, DMA_NEST_LIMIT as nat)
}

pub open spec fn bus_w32(b: BusState, addr: u32, value: u32) -> BusState {
    spec_write32(b, addr, value, DMA_NEST_LIMIT as nat)
}

pub open spec fn field4(instr: u32, shift: u32) -> int {
    ((instr >> shift) & 0xF) as int
}

pub open spec fn bit(instr: u32, mask: u32) -> bool {
    (instr & mask) != 0
}

/// MUL / MLA.
pub open spec fn spec_arm_multiply(c: CpuState, instr: u32) -> (CpuState, u32) {
    let rd = field4(instr, 16);
    let rn = field4(instr, 12);
    let rs = field4(instr, 8);
    let rm = field4(instr, 0);
    let product = c.regs[rm].wrapping_mul(c.regs[rs]);
    let result = if bit(instr, 0x0020_0000) {
        product.wrapping_add(c.regs[rn])
    } else {
        product
    };
    let c1 = with_reg(c, rd, result);
    (if bit(instr, 0x0010_0000) {
        with_nz(c1, result)
    } else {
        c1
    }, 3)
}

/// UMULL / UMLAL / SMULL / SMLAL: 64-bit product (plus RdHi:RdLo) in RdHi:RdLo.
pub open spec fn spec_arm_long_multiply(c: CpuState, instr: u32) -> (CpuState, u32) {
    let is_signed = bit(instr, 0x0040_0000);
    let accumulate = bit(instr, 0x0020_0000);
    let rd_hi = field4(instr, 16);
    let rd_lo = field4(instr, 12);
    let rm_val = c.regs[field4(instr, 0)];
    let rs_val = c.regs[field4(instr, 8)];
    let product: u64 = if is_signed {
        ((rm_val as i32) as i64).wrapping_mul((rs_val as i32) as i64) as u64
    } else {
        (rm_val as u64).wrapping_mul(rs_val as u64)
    };
    let result: u64 = if accumulate {
        product.wrapping_add(((c.regs[rd_hi] as u64) << 32u64) | (c.regs[rd_lo] as u64))
    } else {
        product
    };
    let c1 = with_reg(with_reg(c, rd_hi, (result >> 32u64) as u32), rd_lo, (result & 0xFFFF_FFFFu64) as u32);
    let c2 = if bit(instr, 0x0010_0000) {
        with_flag(with_flag(c1, CPSR_N, (result >> 63u64) != 0), CPSR_Z, result == 0)
    } else {
        c1
    };
    (c2, if accumulate {
        5
    } else {
        4
    })
}

/// LDRH / STRH / LDRSB / LDRSH.
pub open spec fn spec_arm_halfword_transfer(c: CpuState, b: BusState, instr: u32) -> (CpuState, BusState, u32) {
    let pre = bit(instr, 0x0100_0000);
    let up = bit(instr, 0x0080_0000);
    let writeback = bit(instr, 0x0020_0000);
    let load = bit(instr, 0x0010_0000);
    let rn = field4(instr, 16);
    let rd = field4(instr, 12);
    let s = bit(instr, 0x40);
    let h = bit(instr, 0x20);
    let offset = if bit(instr, 0x0040_0000) {
        (((instr >> 8u32) & 0xF) << 4u32) | (instr & 0xF)
    } else {
        c.regs[field4(instr, 0)]
    };
    let base = c.regs[rn];
    let offset_addr = if up {
        base.wrapping_add(offset)
    } else {
        base.wrapping_sub(offset)
    };
    let addr = if pre {
        offset_addr
    } else {
        base
    };
    let (c1, b1) = if load {
        let value: u32 = if !s && h {
            spec_read16(b, addr & !1u32) as u32
        } else if s && !h {
            ((spec_read8(b, addr) as i8) as i32) as u32
        } else if s && h {
            ((spec_read16(b, addr & !1u32) as i16) as i32) as u32
        } else {
            c.regs[rd]
        };
        (with_reg(c, rd, value), b)
    } else if !s && h {
        let value = if rd == REG_PC as int {
            pc_of(c).wrapping_add(4)
        } else {
            c.regs[rd]
        };
        (c, bus_w16(b, addr & !1u32, value as u16))
    } else {
        (c, b)
    };
    let c2 = if (writeback || !pre) && !(load && rd == rn) {
        with_reg(c1, rn, offset_addr)
    } else {
        c1
    };
    let c3 = if rd == REG_PC as int && load {
        with_reg(c2, REG_PC as int, c2.regs[REG_PC as int] & !3u32)
    } else {
        c2
    };
    (c3, b1, 3)
}

/// SWP / SWPB.
pub open spec fn spec_arm_swap(c: CpuState, b: BusState, instr: u32) -> (CpuState, BusState, u32) {
    let rd = field4(instr, 12);
    let addr = c.regs[field4(instr, 16)];
    let src = c.regs[field4(instr, 0)];
    let (old, b1) = if bit(instr, 0x0040_0000) {
        (spec_read8(b, addr) as u32, spec_write8(b, addr, src as u8))
    } else {
        (
            spec_rotate_right(spec_read32(b, addr & !3u32), ((addr & 3) * 8) as u32),
            bus_w32(b, addr & !3u32, src),
        )
    };
    (with_reg(c, rd, old), b1, 4)
}

/// Immediate operand 2: 8 bits rotated right by twice the rotate field.
pub open spec fn spec_rotated_immediate(instr: u32) -> u32 {
    spec_rotate_right(instr & 0xFF, (((instr >> 8u32) & 0xF) * 2) as u32)
}

/// Result, carry and overflow of an ALU operation of the data-processing group
/// (opcodes 8..=B only set flags; their result is not written).
pub open spec fn spec_alu(c: CpuState, opcode: u32, rn_val: u32, op2: u32, shifter_carry: bool) -> (u32, bool, bool) {
    let carry_in: u64 = if flag_of(c, CPSR_C) {
        1
    } else {
        0
    };
    let v_old = flag_of(c, CPSR_V);
    if opcode == 0x0 || opcode == 0x8 {
        (rn_val & op2, shifter_carry, v_old)
    } else if opcode == 0x1 || opcode == 0x9 {
        (rn_val ^ op2, shifter_carry, v_old)
    } else if opcode == 0x2 || opcode == 0xA {
        spec_sub_with_flags(rn_val, op2)
    } else if opcode == 0x3 {
        spec_sub_with_flags(op2, rn_val)
    } else if opcode == 0x4 || opcode == 0xB {
        spec_add_with_flags(rn_val, op2)
    } else if opcode == 0x5 {
        let res64 = (rn_val as u64) + (op2 as u64) + carry_in;
        let result = res64 as u32;
        (result, res64 > 0xFFFF_FFFF, (!(rn_val ^ op2) & (rn_val ^ result) & 0x8000_0000u32) != 0)
    } else if opcode == 0x6 {
        let res64 = (rn_val as u64).wrapping_sub(op2 as u64).wrapping_sub((1 - carry_in) as u64);
        let result = res64 as u32;
        (
            result,
            (res64 >> 32u64) == 0,
            ((rn_val ^ op2) & 0x8000_0000u32) != 0 && ((rn_val ^ result) & 0x8000_0000u32) != 0,
        )
    } else if opcode == 0x7 {
        let res64 = (op2 as u64).wrapping_sub(rn_val as u64).wrapping_sub((1 - carry_in) as u64);
        let result = res64 as u32;
        (
            result,
            (res64 >> 32u64) == 0,
            ((op2 ^ rn_val) & 0x8000_0000u32) != 0 && ((op2 ^ result) & 0x8000_0000u32) != 0,
        )
    } else if opcode == 0xC {
        (rn_val | op2, shifter_carry, v_old)
    } else if opcode == 0xD {
        (op2, shifter_carry, v_old)
    } else if opcode == 0xE {
        (rn_val & !op2, shifter_carry, v_old)
    } else {
        (!op2, shifter_carry, v_old)
    }
}

/// True for the arithmetic opcodes, which set V.
pub open spec fn alu_sets_v(opcode: u32) -> bool {
    (0x2 <= opcode && opcode <= 0x7) || opcode == 0xA || opcode == 0xB
}

/// Operand 2 of a data-processing instruction and the shifter carry.
pub open spec fn spec_dp_operand2(c: CpuState, instr: u32) -> (u32, bool) {
    if bit(instr, 0x0200_0000) {
        let value = spec_rotated_immediate(instr);
        let rot = ((instr >> 8u32) & 0xF) * 2;
        (value, if rot == 0 {
            flag_of(c, CPSR_C)
        } else {
            (value & 0x8000_0000u32) != 0
        })
    } else {
        spec_decode_shifted_register_operand(c, instr)
    }
}

/// Result register and flags written by a data-processing instruction.
pub open spec fn spec_dp_writeback(c: CpuState, instr: u32, result: u32, carry: bool, overflow: bool) -> CpuState {
    let opcode = (instr >> 21u32) & 0xF;
    let test_only = 0x8 <= opcode && opcode <= 0xB;
    let c1 = if test_only {
        c
    } else {
        with_reg(c, field4(instr, 12), result)
    };
    if bit(instr, 0x0010_0000) || test_only {
        let cn = with_flag(with_nz(c1, result), CPSR_C, carry);
        if alu_sets_v(opcode) {
            with_flag(cn, CPSR_V, overflow)
        } else {
            cn
        }
    } else {
        c1
    }
}

/// A data-processing write to PC: aligned, and with S the status register comes back.
pub open spec fn spec_dp_pc_fixup(c: CpuState, instr: u32) -> CpuState {
    let rd = field4(instr, 12);
    if rd == REG_PC as int && bit(instr, 0x0010_0000) {
        let cr = spec_restore_cpsr_from_spsr(c);
        if thumb_state(cr) {
            with_reg(cr, REG_PC as int, cr.regs[REG_PC as int] & !1u32)
        } else {
            with_reg(cr, REG_PC as int, cr.regs[REG_PC as int] & !3u32)
        }
    } else if rd == REG_PC as int {
        with_reg(c, REG_PC as int, c.regs[REG_PC as int] & !3u32)
    } else {
        c
    }
}

/// Data processing: AND, EOR, SUB, RSB, ADD, ADC, SBC, RSC, TST, TEQ, CMP, CMN, ORR,
/// MOV, BIC, MVN. With S and Rd = PC, CPSR comes back from SPSR.
pub open spec fn spec_arm_data_processing(c: CpuState, instr: u32) -> (CpuState, u32) {
    let (op2, shifter_carry) = spec_dp_operand2(c, instr);
    let rn_val = spec_read_arm_reg(c, field4(instr, 16));
    let (result, carry, overflow) = spec_alu(c, (instr >> 21u32) & 0xF, rn_val, op2, shifter_carry);
    (spec_dp_pc_fixup(spec_dp_writeback(c, instr, result, carry, overflow), instr), 1)
}

/// LDR / STR / LDRB / STRB.
pub open spec fn spec_arm_single_data_transfer(c: CpuState, b: BusState, instr: u32) -> (CpuState, BusState, u32) {
    let pre = bit(instr, 0x0100_0000);
    let up = bit(instr, 0x0080_0000);
    let byte = bit(instr, 0x0040_0000);
    let writeback = bit(instr, 0x0020_0000);
    let load = bit(instr, 0x0010_0000);
    let rn = field4(instr, 16);
    let rd = field4(instr, 12);
    let offset = if !bit(instr, 0x0200_0000) {
        instr & 0xFFF
    } else {
        spec_apply_arm_address_shift(
            c,
            spec_read_arm_reg(c, field4(instr, 0)),
            (instr >> 5u32) & 0x3,
            (instr >> 7u32) & 0x1F,
        )
    };
    let base = spec_read_arm_reg(c, rn);
    let offset_addr = if up {
        base.wrapping_add(offset)
    } else {
        base.wrapping_sub(offset)
    };
    let addr = if pre {
        offset_addr
    } else {
        base
    };
    let (c1, b1) = if load {
        let value = if byte {
            spec_read8(b, addr) as u32
        } else {
            spec_rotate_right(spec_read32(b, addr & !3u32), ((addr & 3) * 8) as u32)
        };
        (with_reg(c, rd, value), b)
    } else {
        let value = if rd == REG_PC as int {
            pc_of(c).wrapping_add(4)
        } else {
            c.regs[rd]
        };
        (c, if byte {
            spec_write8(b, addr, value as u8)
        } else {
            bus_w32(b, addr & !3u32, value)
        })
    };
    let c2 = if (writeback || !pre) && !(load && rd == rn) {
        with_reg(c1, rn, offset_addr)
    } else {
        c1
    };
    let c3 = if rd == REG_PC as int && load {
        with_reg(c2, REG_PC as int, c2.regs[REG_PC as int] & !3u32)
    } else {
        c2
    };
    (c3, b1, 3)
}

/// Registers `reg ..= 15` of `reg_list` transferred from `addr` upwards; `user`
/// selects the user bank.
pub open spec fn spec_block_transfer_from(
    c: CpuState,
    b: BusState,
    reg_list: u32,
    reg: int,
    addr: u32,
    load: bool,
    user: bool,
) -> (CpuState, BusState)
    decreases 16 - reg,
{
    if reg >= 16 || reg < 0 {
        (c, b)
    } else if (reg_list >> (reg as u32)) & 1 == 0 {
        spec_block_transfer_from(c, b, reg_list, reg + 1, addr, load, user)
    } else if load {
        let value = spec_read32(b, addr & !3u32);
        let c1 = if user {
            spec_write_user_reg(c, reg, value)
        } else {
            with_reg(c, reg, value)
        };
        spec_block_transfer_from(c1, b, reg_list, reg + 1, addr.wrapping_add(4), load, user)
    } else {
        let value = if user {
            spec_read_user_reg(c, reg)
        } else {
            spec_read_arm_reg(c, reg)
        };
        spec_block_transfer_from(
            c,
            bus_w32(b, addr & !3u32, value),
            reg_list,
            reg + 1,
            addr.wrapping_add(4),
            load,
            user,
        )
    }
}

/// LDM / STM in the four addressing modes, with write-back and the S bit.
pub open spec fn spec_arm_block_transfer(c: CpuState, b: BusState, instr: u32) -> (CpuState, BusState, u32) {
    let pre = bit(instr, 0x0100_0000);
    let up = bit(instr, 0x0080_0000);
    let writeback = bit(instr, 0x0020_0000);
    let load = bit(instr, 0x0010_0000);
    let rn = field4(instr, 16);
    let reg_list = instr & 0xFFFF;
    let s_bit = bit(instr, 0x0040_0000);
    let pc_in_list = (reg_list & 0x8000) != 0;
    let count = count_low_ones(reg_list, 16) as u32;
    if count == 0 {
        (c, b, 1)
    } else {
        let base = spec_read_arm_reg(c, rn);
        let addr = if up && !pre {
            base
        } else if up && pre {
            base.wrapping_add(4)
        } else if !up && !pre {
            base.wrapping_sub(((count - 1) * 4) as u32)
        } else {
            base.wrapping_sub((count * 4) as u32)
        };
        let (c1, b1) = spec_block_transfer_from(c, b, reg_list, 0, addr, load, s_bit && !pc_in_list);
        let c2 = if writeback && !(load && ((reg_list >> (rn as u32)) & 1) != 0) {
            with_reg(
                c1,
                rn,
                if up {
                    base.wrapping_add((count * 4) as u32)
                } else {
                    base.wrapping_sub((count * 4) as u32)
                },
            )
        } else {
            c1
        };
        let c3 = if load && s_bit && pc_in_list {
            spec_restore_cpsr_from_spsr(c2)
        } else {
            c2
        };
        let c4 = if load && ((reg_list >> 15u32) & 1) != 0 {
            with_reg(c3, REG_PC as int, c3.regs[REG_PC as int] & !3u32)
        } else {
            c3
        };
        (c4, b1, (3 + count) as u32)
    }
}


proof fn lemma_aligned_not_io_last(a: u32)
    ensures
        (a & !3u32) != IO_LAST,
        (a & !3u32) != IO_LAST - 2,
        (a & !1u32) != IO_LAST,
{
    assert((a & !3u32) != 0x0400_03FFu32 && (a & !3u32) != 0x0400_03FDu32 && (a & !1u32)
        != 0x0400_03FFu32) by (bit_vector);
}

impl Cpu {
    fn arm_multiply(&mut self, instr: u32) -> (r: u32)
        ensures
            (final(self)@, r) == spec_arm_multiply(old(self)@, instr),
    {
        let accumulate = (instr & 0x0020_0000) != 0;
        let set_flags = (instr & 0x0010_0000) != 0;
        let rd = reg4(instr, 16);
        let rn = reg4(instr, 12);
        let rs = reg4(instr, 8);
        let rm = reg4(instr, 0);
        let mut result = self.regs[rm].wrapping_mul(self.regs[rs]);
        if accumulate {
            result = result.wrapping_add(self.regs[rn]);
        }
        self.regs[rd] = result;
        if set_flags {
            self.set_nz(result);
        }
        3
    }

    fn arm_long_multiply(&mut self, instr: u32) -> (r: u32)
        ensures
            (final(self)@, r) == spec_arm_long_multiply(old(self)@, instr),
    {
        let is_signed = (instr & 0x0040_0000) != 0;
        let accumulate = (instr & 0x0020_0000) != 0;
        let set_flags = (instr & 0x0010_0000) != 0;
        let rd_hi = reg4(instr, 16);
        let rd_lo = reg4(instr, 12);
        let rs = reg4(instr, 8);
        let rm = reg4(instr, 0);
        let rm_val = self.regs[rm];
        let rs_val = self.regs[rs];
        // 64-bit product, signed or unsigned.
        let mut result: u64 = if is_signed {
            ((rm_val as i32) as i64).wrapping_mul((rs_val as i32) as i64) as u64
        } else {
            (rm_val as u64).wrapping_mul(rs_val as u64)
        };
        // The accumulating forms add the previous RdHi:RdLo.
        if accumulate {
            let hi = self.regs[rd_hi] as u64;
            let lo = self.regs[rd_lo] as u64;
            let acc_val = (hi << 32u64) | lo;
            result = result.wrapping_add(acc_val);
        }
        self.regs[rd_hi] = (result >> 32u64) as u32;
        self.regs[rd_lo] = (result & 0xFFFF_FFFF) as u32;
        if set_flags {
            // N is bit 63; Z covers the whole 64-bit result. C and V are left as they were.
            self.set_flag(CPSR_N, (result >> 63u64) != 0);
            self.set_flag(CPSR_Z, result == 0);
        }
        if accumulate {
            5
        } else {
            4
        }
    }

    fn arm_halfword_transfer(&mut self, bus: &mut Bus, instr: u32) -> (r: u32)
        ensures
            (final(self)@, final(bus)@, r) == spec_arm_halfword_transfer(old(self)@, old(bus)@, instr),
    {
        let pre = (instr & 0x0100_0000) != 0;
        let up = (instr & 0x0080_0000) != 0;
        let immediate = (instr & 0x0040_0000) != 0;
        let writeback = (instr & 0x0020_0000) != 0;
        let load = (instr & 0x0010_0000) != 0;
        let rn = reg4(instr, 16);
        let rd = reg4(instr, 12);
        let s = (instr & 0x40) != 0;
        let h = (instr & 0x20) != 0;
        let offset = if immediate {
            let hi = (instr >> 8u32) & 0xF;
            let lo = instr & 0xF;
            (hi << 4u32) | lo
        } else {
            let rm = reg4(instr, 0);
            self.regs[rm]
        };
        let base = self.regs[rn];
        let offset_addr = if up {
            base.wrapping_add(offset)
        } else {
            base.wrapping_sub(offset)
        };
        let addr = if pre {
            offset_addr
        } else {
            base
        };
        proof {
            lemma_aligned_not_io_last(addr);
        }
        if load {
            let value: u32 = if !s && h {
                bus.read16(addr & !1u32) as u32
            } else if s && !h {
                ((bus.read8(addr) as i8) as i32) as u32
            } else if s && h {
                ((bus.read16(addr & !1u32) as i16) as i32) as u32
            } else {
                self.regs[rd]
            };
            self.regs[rd] = value;
        } else if !s && h {
            // STRH
            let value = if rd == REG_PC {
                self.pc().wrapping_add(4)
            } else {
                self.regs[rd]
            };
            bus.write16(addr & !1u32, value as u16);
        }
        let base_overwritten = load && (rd == rn);
        if (writeback || !pre) && !base_overwritten {
            self.regs[rn] = offset_addr;
        }
        // A halfword load into PC is word-aligned.
        if rd == REG_PC && load {
            self.regs[REG_PC] = self.regs[REG_PC] & !3u32;
        }
        3
    }

    fn arm_swap(&mut self, bus: &mut Bus, instr: u32) -> (r: u32)
        ensures
            (final(self)@, final(bus)@, r) == spec_arm_swap(old(self)@, old(bus)@, instr),
    {
        let byte = (instr & 0x0040_0000) != 0;
        let rn = reg4(instr, 16);
        let rd = reg4(instr, 12);
        let rm = reg4(instr, 0);
        let addr = self.regs[rn];
        let src = self.regs[rm];
        proof {
            lemma_aligned_not_io_last(addr);
            assert((addr & 3u32) * 8 < 32) by (bit_vector);
        }
        let old = if byte {
            let value = bus.read8(addr) as u32;
            bus.write8(addr, src as u8);
            value
        } else {
            let shift = (addr & 3) * 8;
            let value = rotate_right(bus.read32(addr & !3u32), shift);
            bus.write32(addr & !3u32, src);
            value
        };
        self.regs[rd] = old;
        4
    }

    fn alu(&self, opcode: u32, rn_val: u32, op2: u32, shifter_carry: bool) -> (r: (u32, bool, bool))
        ensures
            r == spec_alu(self@, opcode, rn_val, op2, shifter_carry),
    {
        let carry_in: u64 = if self.flag(CPSR_C) {
            1
        } else {
            0
        };
        let v_old = self.flag(CPSR_V);
        if opcode == 0x0 || opcode == 0x8 {
            (rn_val & op2, shifter_carry, v_old)
        } else if opcode == 0x1 || opcode == 0x9 {
            (rn_val ^ op2, shifter_carry, v_old)
        } else if opcode == 0x2 || opcode == 0xA {
            sub_with_flags(rn_val, op2)
        } else if opcode == 0x3 {
            sub_with_flags(op2, rn_val)
        } else if opcode == 0x4 || opcode == 0xB {
            add_with_flags(rn_val, op2)
        } else if opcode == 0x5 {
            let res64 = (rn_val as u64) + (op2 as u64) + carry_in;
            let result = res64 as u32;
            (result, res64 > 0xFFFF_FFFF, (!(rn_val ^ op2) & (rn_val ^ result) & 0x8000_0000) != 0)
        } else if opcode == 0x6 {
            let res64 = (rn_val as u64).wrapping_sub(op2 as u64).wrapping_sub(1 - carry_in);
            let result = res64 as u32;
            (
                result,
                (res64 >> 32u64) == 0,
                ((rn_val ^ op2) & 0x8000_0000) != 0 && ((rn_val ^ result) & 0x8000_0000) != 0,
            )
        } else if opcode == 0x7 {
            let res64 = (op2 as u64).wrapping_sub(rn_val as u64).wrapping_sub(1 - carry_in);
            let result = res64 as u32;
            (
                result,
                (res64 >> 32u64) == 0,
                ((op2 ^ rn_val) & 0x8000_0000) != 0 && ((op2 ^ result) & 0x8000_0000) != 0,
            )
        } else if opcode == 0xC {
            (rn_val | op2, shifter_carry, v_old)
        } else if opcode == 0xD {
            (op2, shifter_carry, v_old)
        } else if opcode == 0xE {
            (rn_val & !op2, shifter_carry, v_old)
        } else {
            (!op2, shifter_carry, v_old)
        }
    }

    fn dp_operand2(&self, instr: u32) -> (r: (u32, bool))
        ensures
            r == spec_dp_operand2(self@, instr),
    {
        if (instr & 0x0200_0000) != 0 {
            let imm8 = instr & 0xFF;
            proof {
                assert(((instr >> 8u32) & 0xFu32) * 2 < 32) by (bit_vector);
            }
            let rot = ((instr >> 8u32) & 0xF) * 2;
            let value = rotate_right(imm8, rot);
            let carry = if rot == 0 {
                self.flag(CPSR_C)
            } else {
                (value & 0x8000_0000) != 0
            };
            (value, carry)
        } else {
            self.decode_shifted_register_operand(instr)
        }
    }

    fn dp_writeback(&mut self, instr: u32, result: u32, carry: bool, overflow: bool)
        ensures
            final(self)@ == spec_dp_writeback(old(self)@, instr, result, carry, overflow),
    {
        let opcode = (instr >> 21u32) & 0xF;
        let set_flags = (instr & 0x0010_0000) != 0;
        let rd = reg4(instr, 12);
        let test_only = 0x8 <= opcode && opcode <= 0xB;
        if !test_only {
            self.regs[rd] = result;
        }
        if set_flags || test_only {
            self.set_nz(result);
            self.set_flag(CPSR_C, carry);
            if (0x2 <= opcode && opcode <= 0x7) || opcode == 0xA || opcode == 0xB {
                self.set_flag(CPSR_V, overflow);
            }
        }
    }

    fn dp_pc_fixup(&mut self, instr: u32)
        ensures
            final(self)@ == spec_dp_pc_fixup(old(self)@, instr),
    {
        let set_flags = (instr & 0x0010_0000) != 0;
        let rd = reg4(instr, 12);
        if rd == REG_PC && set_flags {
            self.restore_cpsr_from_spsr();
            if self.is_thumb() {
                self.regs[REG_PC] = self.regs[REG_PC] & !1u32;
            } else {
                self.regs[REG_PC] = self.regs[REG_PC] & !3u32;
            }
        } else if rd == REG_PC {
            self.regs[REG_PC] = self.regs[REG_PC] & !3u32;
        }
    }

    fn arm_data_processing(&mut self, instr: u32) -> (r: u32)
        ensures
            (final(self)@, r) == spec_arm_data_processing(old(self)@, instr),
    {
        let opcode = (instr >> 21u32) & 0xF;
        let rn = reg4(instr, 16);
        let (op2, shifter_carry) = self.dp_operand2(instr);
        let rn_val = self.read_arm_reg(rn);
        let (result, carry, overflow) = self.alu(opcode, rn_val, op2, shifter_carry);
        self.dp_writeback(instr, result, carry, overflow);
        self.dp_pc_fixup(instr);
        1
    }

    fn arm_single_data_transfer(&mut self, bus: &mut Bus, instr: u32) -> (r: u32)
        ensures
            (final(self)@, final(bus)@, r) == spec_arm_single_data_transfer(old(self)@, old(bus)@, instr),
    {
        let immediate_offset = (instr & 0x0200_0000) == 0;
        let pre_index = (instr & 0x0100_0000) != 0;
        let up = (instr & 0x0080_0000) != 0;
        let byte = (instr & 0x0040_0000) != 0;
        let writeback = (instr & 0x0020_0000) != 0;
        let load = (instr & 0x0010_0000) != 0;
        let rn = reg4(instr, 16);
        let rd = reg4(instr, 12);
        let offset = if immediate_offset {
            instr & 0xFFF
        } else {
            let rm = reg4(instr, 0);
            let shift_type = (instr >> 5u32) & 0x3;
            proof {
                assert((instr >> 7u32) & 0x1Fu32 < 32) by (bit_vector);
            }
            let shift_imm = (instr >> 7u32) & 0x1F;
            let value = self.read_arm_reg(rm);
            self.apply_arm_address_shift(value, shift_type, shift_imm)
        };
        let base = self.read_arm_reg(rn);
        let offset_addr = if up {
            base.wrapping_add(offset)
        } else {
            base.wrapping_sub(offset)
        };
        let addr = if pre_index {
            offset_addr
        } else {
            base
        };
        proof {
            lemma_aligned_not_io_last(addr);
            assert((addr & 3u32) * 8 < 32) by (bit_vector);
        }
        if load {
            let value = if byte {
                bus.read8(addr) as u32
            } else {
                let shift = (addr & 3) * 8;
                rotate_right(bus.read32(addr & !3u32), shift)
            };
            self.regs[rd] = value;
        } else {
            let value = if rd == REG_PC {
                self.pc().wrapping_add(4)
            } else {
                self.regs[rd]
            };
            if byte {
                bus.write8(addr, value as u8);
            } else {
                bus.write32(addr & !3u32, value);
            }
        }
        let base_overwritten = load && (rd == rn);
        if (writeback || !pre_index) && !base_overwritten {
            self.regs[rn] = offset_addr;
        }
        if rd == REG_PC && load {
            self.regs[REG_PC] = self.regs[REG_PC] & !3u32;
        }
        3
    }

    #[verifier::rlimit(100)]
    fn arm_block_transfer(&mut self, bus: &mut Bus, instr: u32) -> (r: u32)
        ensures
            (final(self)@, final(bus)@, r) == spec_arm_block_transfer(old(self)@, old(bus)@, instr),
    {
        let pre = (instr & 0x0100_0000) != 0;
        let up = (instr & 0x0080_0000) != 0;
        let writeback = (instr & 0x0020_0000) != 0;
        let load = (instr & 0x0010_0000) != 0;
        let rn = reg4(instr, 16);
        let reg_list = instr & 0xFFFF;
        // The S bit: user-bank transfer, or CPSR restore when PC is loaded.
        let s_bit = (instr & 0x0040_0000) != 0;
        let pc_in_list = (reg_list & 0x8000) != 0;
        let count = count_ones16(reg_list);
        if count == 0 {
            return 1;
        }
        let base = self.read_arm_reg(rn);
        let mut addr = if up && !pre {
            base
        } else if up && pre {
            base.wrapping_add(4)
        } else if !up && !pre {
            base.wrapping_sub((count - 1) * 4)
        } else {
            base.wrapping_sub(count * 4)
        };
        let user = s_bit && !pc_in_list;
        let ghost target = spec_block_transfer_from(self@, bus@, reg_list, 0, addr, load, user);
        let mut reg: usize = 0;
        while reg < 16
            invariant
                reg <= 16,
                spec_block_transfer_from(self@, bus@, reg_list, reg as int, addr, load, user) == target,
            decreases 16 - reg,
        {
            if ((reg_list >> (reg as u32)) & 1) != 0 {
                proof {
                    lemma_aligned_not_io_last(addr);
                }
                if load {
                    let value = bus.read32(addr & !3u32);
                    if user {
                        self.write_user_reg(reg, value);
                    } else {
                        self.regs[reg] = value;
                    }
                } else {
                    let value = if user {
                        self.read_user_reg(reg)
                    } else {
                        self.read_arm_reg(reg)
                    };
                    bus.write32(addr & !3u32, value);
                }
                addr = addr.wrapping_add(4);
            }
            reg = reg + 1;
        }
        if writeback {
            let base_loaded = load && ((reg_list >> (rn as u32)) & 1) != 0;
            let bytes = count * 4;
            if !base_loaded {
                self.regs[rn] = if up {
                    base.wrapping_add(bytes)
                } else {
                    base.wrapping_sub(bytes)
                };
            }
        }
        // Exception return: LDM with S and PC in the list restores CPSR.
        if load && s_bit && pc_in_list {
            self.restore_cpsr_from_spsr();
        }
        if load && ((reg_list >> 15u32) & 1) != 0 {
            self.regs[REG_PC] = self.regs[REG_PC] & !3u32;
        }
        3 + count
    }
}


// ---------------------------------------------------------------------------
// High-level BIOS calls
// ---------------------------------------------------------------------------

/// Bytes `start + i .. start + size` written with 0, in order.
pub open spec fn spec_clear_from(b: BusState, start: u32, i: nat, size: nat) -> BusState
    decreases size - i,
{
    if i >= size {
        b
    } else {
        spec_clear_from(spec_write8(b, (start + i) as u32, 0), start, i + 1, size)
    }
}

pub open spec fn spec_clear_region(b: BusState, start: u32, size: nat) -> BusState {
    spec_clear_from(b, start, 0, size)
}

/// RegisterRamReset: clears the memories selected by the flags in r0 (the top 0x200
/// bytes of internal work RAM stay).
pub open spec fn spec_register_ram_reset(b: BusState, flags: u32) -> BusState {
    let b1 = if (flags & 1) != 0 {
        spec_clear_region(b, EWRAM_START, EWRAM_SIZE as nat)
    } else {
        b
    };
    let b2 = if (flags & 2) != 0 {
        spec_clear_region(b1, IWRAM_START, (IWRAM_SIZE - 0x200) as nat)
    } else {
        b1
    };
    let b3 = if (flags & 4) != 0 {
        spec_clear_region(b2, PALETTE_RAM_START, PALETTE_RAM_SIZE as nat)
    } else {
        b2
    };
    let b4 = if (flags & 8) != 0 {
        spec_clear_region(b3, VRAM_START, VRAM_SIZE as nat)
    } else {
        b3
    };
    if (flags & 16) != 0 {
        spec_clear_region(b4, OAM_START, OAM_SIZE as nat)
    } else {
        b4
    }
}

/// IntrWait: acknowledge the awaited interrupts that are already pending, or halt.
pub open spec fn spec_hle_intr_wait(c: CpuState, b: BusState, ignore_existing: bool, irq_mask: u16) -> (CpuState, BusState) {
    let pending0 = spec_read16(b, REG_IF) & irq_mask;
    let b1 = if ignore_existing && pending0 != 0 {
        bus_w16(b, REG_IF, pending0)
    } else {
        b
    };
    let pending = if ignore_existing {
        0
    } else {
        pending0
    };
    if pending == 0 {
        (CpuState { halted: true, ..c }, b1)
    } else {
        (c, bus_w16(b1, REG_IF, pending))
    }
}

/// Magnitude of a signed word.
pub open spec fn magnitude(x: i32) -> u32 {
    (if x < 0 {
        -x
    } else {
        x as int
    }) as u32
}

/// Div: r0 = r0 / r1 truncated toward zero, r1 = remainder (sign of the dividend),
/// r3 = |quotient|; division by zero leaves 0, the dividend and 0.
pub open spec fn spec_hle_div(c: CpuState) -> CpuState {
    let num = c.regs[0] as i32;
    let den = c.regs[1] as i32;
    if den == 0 {
        with_reg(with_reg(with_reg(c, 0, 0), 1, num as u32), 3, 0)
    } else {
        let q_mag = magnitude(num) / magnitude(den);
        let r_mag = magnitude(num) % magnitude(den);
        let q: u32 = if (num < 0) != (den < 0) {
            (-(q_mag as int)) as u32
        } else {
            q_mag
        };
        let r: u32 = if num < 0 {
            (-(r_mag as int)) as u32
        } else {
            r_mag
        };
        with_reg(with_reg(with_reg(c, 0, q), 1, r), 3, q_mag)
    }
}

/// `n` words copied (or filled with `fill_value`) from `src` to `dst`.
pub open spec fn spec_cpuset_words(b: BusState, src: u32, dst: u32, n: nat, fill: bool, fill_value: u32) -> (BusState, u32, u32)
    decreases n,
{
    if n == 0 {
        (b, src, dst)
    } else {
        let (value, src2) = if fill {
            (fill_value, src)
        } else {
            (spec_read32(b, src & !3u32), src.wrapping_add(4))
        };
        spec_cpuset_words(bus_w32(b, dst & !3u32, value), src2, dst.wrapping_add(4), (n - 1) as nat, fill, fill_value)
    }
}

/// `n` halfwords copied (or filled with `fill_value`) from `src` to `dst`.
pub open spec fn spec_cpuset_halves(b: BusState, src: u32, dst: u32, n: nat, fill: bool, fill_value: u16) -> (BusState, u32, u32)
    decreases n,
{
    if n == 0 {
        (b, src, dst)
    } else {
        let (value, src2) = if fill {
            (fill_value, src)
        } else {
            (spec_read16(b, src & !1u32), src.wrapping_add(2))
        };
        spec_cpuset_halves(bus_w16(b, dst & !1u32, value), src2, dst.wrapping_add(2), (n - 1) as nat, fill, fill_value)
    }
}

/// CpuSet / CpuFastSet: r0 source, r1 destination, r2 count and mode (fill bit 24,
/// word bit 26); the fast form counts in blocks of eight words.
pub open spec fn spec_hle_cpuset(c: CpuState, b: BusState, fast: bool) -> (CpuState, BusState) {
    let src = c.regs[0];
    let dst = c.regs[1];
    let mode = c.regs[2];
    let fill = (mode & 0x0100_0000) != 0;
    let word = (mode & 0x0400_0000) != 0;
    let units0 = mode & 0x1F_FFFF;
    let units: nat = if fast {
        (units0 * 8) as nat
    } else {
        units0 as nat
    };
    if units == 0 {
        (c, b)
    } else {
        let (b1, src2, dst2) = if word {
            spec_cpuset_words(b, src, dst, units, fill, spec_read32(b, src & !3u32))
        } else {
            spec_cpuset_halves(b, src, dst, units, fill, spec_read16(b, src & !1u32))
        };
        (with_reg(with_reg(c, 0, src2), 1, dst2), b1)
    }
}

/// BIOS call emulated without a BIOS image.
pub open spec fn spec_hle_swi(c: CpuState, b: BusState, swi: u8) -> (CpuState, BusState, u32) {
    let (c1, b1) = if swi == 0x00 {
        (with_reg(c, REG_PC as int, GAMEPAK_ROM_START), b)
    } else if swi == 0x01 {
        (c, spec_register_ram_reset(b, c.regs[0]))
    } else if swi == 0x04 {
        spec_hle_intr_wait(c, b, c.regs[0] != 0, c.regs[1] as u16)
    } else if swi == 0x05 {
        spec_hle_intr_wait(c, b, true, 1)
    } else if swi == 0x06 {
        (spec_hle_div(c), b)
    } else if swi == 0x0B {
        spec_hle_cpuset(c, b, false)
    } else if swi == 0x0C {
        spec_hle_cpuset(c, b, true)
    } else {
        (c, b)
    };
    (c1, b1, 6)
}

// ---------------------------------------------------------------------------
// THUMB instruction set
// ---------------------------------------------------------------------------

pub open spec fn tfield3(instr: u16, shift: u16) -> int {
    ((instr >> shift) & 0x7) as int
}

/// Format 1: LSL / LSR / ASR by an immediate.
pub open spec fn spec_thumb_shift_imm(c: CpuState, instr: u16) -> CpuState {
    let op = (instr >> 11u16) & 0x3;
    let shift = ((instr >> 6u16) & 0x1F) as u32;
    let rd = tfield3(instr, 0);
    let val = c.regs[tfield3(instr, 3)];
    let amount: u32 = if shift == 0 {
        32
    } else {
        shift
    };
    let (result, carry) = if op == 0 {
        if shift == 0 {
            (val, flag_of(c, CPSR_C))
        } else {
            (val << shift, ((val >> ((32 - shift) as u32)) & 1) != 0)
        }
    } else if op == 1 {
        if amount < 32 {
            (val >> amount, ((val >> ((amount - 1) as u32)) & 1) != 0)
        } else {
            (0, (val >> 31u32) != 0)
        }
    } else {
        if amount < 32 {
            (((val as i32) >> amount) as u32, ((val >> ((amount - 1) as u32)) & 1) != 0)
        } else {
            let sign = (val >> 31u32) != 0;
            (if sign {
                0xFFFF_FFFFu32
            } else {
                0
            }, sign)
        }
    };
    with_flag(with_nz(with_reg(c, rd, result), result), CPSR_C, carry)
}

/// Format 2: ADD / SUB with a register or a 3-bit immediate.
pub open spec fn spec_thumb_add_sub(c: CpuState, instr: u16) -> CpuState {
    let op2: u32 = if ((instr >> 10u16) & 1) != 0 {
        ((instr >> 6u16) & 0x7) as u32
    } else {
        c.regs[tfield3(instr, 6)]
    };
    let lhs = c.regs[tfield3(instr, 3)];
    let (result, carry, overflow) = if ((instr >> 9u16) & 1) != 0 {
        spec_sub_with_flags(lhs, op2)
    } else {
        spec_add_with_flags(lhs, op2)
    };
    with_cv(with_nz(with_reg(c, tfield3(instr, 0), result), result), carry, overflow)
}

/// Format 3: MOV / CMP / ADD / SUB with an 8-bit immediate.
pub open spec fn spec_thumb_imm(c: CpuState, instr: u16) -> CpuState {
    let op = (instr >> 11u16) & 0x3;
    let rd = tfield3(instr, 8);
    let imm = (instr & 0x00FF) as u32;
    if op == 0 {
        with_nz(with_reg(c, rd, imm), imm)
    } else if op == 1 {
        let (res, cf, v) = spec_sub_with_flags(c.regs[rd], imm);
        with_cv(with_nz(c, res), cf, v)
    } else if op == 2 {
        let (res, cf, v) = spec_add_with_flags(c.regs[rd], imm);
        with_cv(with_nz(with_reg(c, rd, res), res), cf, v)
    } else {
        let (res, cf, v) = spec_sub_with_flags(c.regs[rd], imm);
        with_cv(with_nz(with_reg(c, rd, res), res), cf, v)
    }
}

/// Format 4: register ALU operations.
pub open spec fn spec_thumb_alu(c: CpuState, instr: u16) -> CpuState {
    let op = (instr >> 6u16) & 0xF;
    let rd = tfield3(instr, 0);
    let lhs = c.regs[rd];
    let rhs = c.regs[tfield3(instr, 3)];
    let carry_in: u64 = if flag_of(c, CPSR_C) {
        1
    } else {
        0
    };
    let amount = rhs & 0xFF;
    if op == 0x0 {
        with_nz(with_reg(c, rd, lhs & rhs), lhs & rhs)
    } else if op == 0x1 {
        with_nz(with_reg(c, rd, lhs ^ rhs), lhs ^ rhs)
    } else if op == 0x2 {
        let res = lhs.wrapping_shl(amount);
        with_nz(with_reg(c, rd, res), res)
    } else if op == 0x3 {
        let res = lhs.wrapping_shr(amount);
        with_nz(with_reg(c, rd, res), res)
    } else if op == 0x4 {
        let res = (lhs as i32).wrapping_shr(amount) as u32;
        with_nz(with_reg(c, rd, res), res)
    } else if op == 0x5 {
        let res64 = (lhs as u64) + (rhs as u64) + carry_in;
        let res = res64 as u32;
        let overflow = (!(lhs ^ rhs) & (lhs ^ res) & 0x8000_0000u32) != 0;
        with_cv(with_nz(with_reg(c, rd, res), res), res64 > 0xFFFF_FFFF, overflow)
    } else if op == 0x6 {
        let res64 = (lhs as u64).wrapping_sub(rhs as u64).wrapping_sub((1 - carry_in) as u64);
        let res = res64 as u32;
        let overflow = ((lhs ^ rhs) & 0x8000_0000u32) != 0 && ((lhs ^ res) & 0x8000_0000u32) != 0;
        with_cv(with_nz(with_reg(c, rd, res), res), (res64 >> 32u64) == 0, overflow)
    } else if op == 0x7 {
        let res = spec_rotate_right(lhs, amount & 31);
        with_nz(with_reg(c, rd, res), res)
    } else if op == 0x8 {
        with_nz(c, lhs & rhs)
    } else if op == 0x9 {
        let (res, cf, v) = spec_sub_with_flags(0, rhs);
        with_cv(with_nz(with_reg(c, rd, res), res), cf, v)
    } else if op == 0xA {
        let (res, cf, v) = spec_sub_with_flags(lhs, rhs);
        with_cv(with_nz(c, res), cf, v)
    } else if op == 0xB {
        let (res, cf, v) = spec_add_with_flags(lhs, rhs);
        with_cv(with_nz(c, res), cf, v)
    } else if op == 0xC {
        with_nz(with_reg(c, rd, lhs | rhs), lhs | rhs)
    } else if op == 0xD {
        let res = lhs.wrapping_mul(rhs);
        with_nz(with_reg(c, rd, res), res)
    } else if op == 0xE {
        with_nz(with_reg(c, rd, lhs & !rhs), lhs & !rhs)
    } else {
        with_nz(with_reg(c, rd, !rhs), !rhs)
    }
}

/// Format 5: ADD / CMP / MOV on high registers, and BX.
pub open spec fn spec_thumb_hi_reg(c: CpuState, instr: u16) -> CpuState {
    let op = (instr >> 8u16) & 0x3;
    let rs = tfield3(instr, 3) + 8 * ((instr >> 6u16) & 1) as int;
    let rd = tfield3(instr, 0) + 8 * ((instr >> 7u16) & 1) as int;
    let rhs = if rs == REG_PC as int {
        pc_of(c).wrapping_add(2) & !3u32
    } else {
        c.regs[rs]
    };
    if op == 0 {
        let c1 = with_reg(c, rd, c.regs[rd].wrapping_add(rhs));
        if rd == REG_PC as int {
            with_reg(c1, REG_PC as int, c1.regs[REG_PC as int] & !3u32)
        } else {
            c1
        }
    } else if op == 1 {
        let (res, cf, v) = spec_sub_with_flags(c.regs[rd], rhs);
        with_cv(with_nz(c, res), cf, v)
    } else if op == 2 {
        let c1 = with_reg(c, rd, rhs);
        if rd == REG_PC as int {
            with_reg(c1, REG_PC as int, c1.regs[REG_PC as int] & !1u32)
        } else {
            c1
        }
    } else {
        spec_branch_exchange(c, rhs)
    }
}

/// Register-offset loads and stores, including signed byte and halfword loads.
pub open spec fn spec_thumb_reg_offset(c: CpuState, b: BusState, instr: u16) -> (CpuState, BusState) {
    let op = (instr >> 9u16) & 0x7;
    let rd = tfield3(instr, 0);
    let addr = c.regs[tfield3(instr, 3)].wrapping_add(c.regs[tfield3(instr, 6)]);
    if op == 0 {
        (c, bus_w32(b, addr & !3u32, c.regs[rd]))
    } else if op == 1 {
        (with_reg(c, rd, spec_read32(b, addr & !3u32)), b)
    } else if op == 2 {
        (c, spec_write8(b, addr, c.regs[rd] as u8))
    } else if op == 3 {
        (with_reg(c, rd, spec_read8(b, addr) as u32), b)
    } else if op == 4 {
        (c, bus_w16(b, addr & !1u32, c.regs[rd] as u16))
    } else if op == 5 {
        (with_reg(c, rd, ((spec_read8(b, addr) as i8) as i32) as u32), b)
    } else if op == 6 {
        (with_reg(c, rd, spec_read16(b, addr & !1u32) as u32), b)
    } else {
        (with_reg(c, rd, ((spec_read16(b, addr & !1u32) as i16) as i32) as u32), b)
    }
}

/// Immediate-offset word and byte loads and stores.
pub open spec fn spec_thumb_imm_offset(c: CpuState, b: BusState, instr: u16) -> (CpuState, BusState) {
    let op = (instr >> 11u16) & 0x3;
    let offset5 = ((instr >> 6u16) & 0x1F) as u32;
    let rd = tfield3(instr, 0);
    let base = c.regs[tfield3(instr, 3)];
    if op == 0 {
        (c, bus_w32(b, base.wrapping_add(offset5 << 2u32) & !3u32, c.regs[rd]))
    } else if op == 1 {
        (with_reg(c, rd, spec_read32(b, base.wrapping_add(offset5 << 2u32) & !3u32)), b)
    } else if op == 2 {
        (c, spec_write8(b, base.wrapping_add(offset5), c.regs[rd] as u8))
    } else {
        (with_reg(c, rd, spec_read8(b, base.wrapping_add(offset5)) as u32), b)
    }
}

/// Halfword loads and stores with an immediate offset.
pub open spec fn spec_thumb_halfword(c: CpuState, b: BusState, instr: u16) -> (CpuState, BusState) {
    let offset5 = ((instr >> 6u16) & 0x1F) as u32;
    let rd = tfield3(instr, 0);
    let addr = c.regs[tfield3(instr, 3)].wrapping_add(offset5 << 1u32);
    if ((instr >> 11u16) & 1) != 0 {
        (with_reg(c, rd, spec_read16(b, addr & !1u32) as u32), b)
    } else {
        (c, bus_w16(b, addr & !1u32, c.regs[rd] as u16))
    }
}

/// SP-relative word loads and stores.
pub open spec fn spec_thumb_sp_rel(c: CpuState, b: BusState, instr: u16) -> (CpuState, BusState) {
    let rd = tfield3(instr, 8);
    let addr = c.regs[REG_SP as int].wrapping_add(((instr & 0xFF) as u32) << 2u32);
    if ((instr >> 11u16) & 1) != 0 {
        (with_reg(c, rd, spec_read32(b, addr & !3u32)), b)
    } else {
        (c, bus_w32(b, addr & !3u32, c.regs[rd]))
    }
}

/// Registers `reg ..= 7` of `reg_list` loaded or stored upwards from `addr`; the
/// final address comes back too.
pub open spec fn spec_thumb_multiple_from(
    c: CpuState,
    b: BusState,
    reg_list: u32,
    reg: int,
    addr: u32,
    load: bool,
) -> (CpuState, BusState, u32)
    decreases 8 - reg,
{
    if reg >= 8 || reg < 0 {
        (c, b, addr)
    } else if (reg_list >> (reg as u32)) & 1 == 0 {
        spec_thumb_multiple_from(c, b, reg_list, reg + 1, addr, load)
    } else if load {
        spec_thumb_multiple_from(
            with_reg(c, reg, spec_read32(b, addr & !3u32)),
            b,
            reg_list,
            reg + 1,
            addr.wrapping_add(4),
            load,
        )
    } else {
        spec_thumb_multiple_from(
            c,
            bus_w32(b, addr & !3u32, c.regs[reg]),
            reg_list,
            reg + 1,
            addr.wrapping_add(4),
            load,
        )
    }
}

/// LDMIA / STMIA; the base register is written back unless it was loaded.
pub open spec fn spec_thumb_ldm_stm(c: CpuState, b: BusState, instr: u16) -> (CpuState, BusState) {
    let load = ((instr >> 11u16) & 1) != 0;
    let rb = tfield3(instr, 8);
    let reg_list = (instr & 0xFF) as u32;
    let (c1, b1, addr) = spec_thumb_multiple_from(c, b, reg_list, 0, c.regs[rb], load);
    if load && ((reg_list >> (rb as u32)) & 1) != 0 {
        (c1, b1)
    } else {
        (with_reg(c1, rb, addr), b1)
    }
}

/// PUSH (optionally LR) and POP (optionally PC, which selects the state by bit 0).
pub open spec fn spec_thumb_push_pop(c: CpuState, b: BusState, instr: u16) -> (CpuState, BusState) {
    let r = ((instr >> 8u16) & 1) != 0;
    let reg_list = (instr & 0xFF) as u32;
    let sp = c.regs[REG_SP as int];
    if ((instr >> 11u16) & 1) != 0 {
        let (c1, b1, addr) = spec_thumb_multiple_from(c, b, reg_list, 0, sp, true);
        if r {
            let pc_val = spec_read32(b1, addr & !3u32);
            let c2 = if (pc_val & 1) != 0 {
                with_reg(with_cpsr(c1, c1.cpsr | CPSR_THUMB), REG_PC as int, pc_val & !1u32)
            } else {
                with_reg(with_cpsr(c1, c1.cpsr & !CPSR_THUMB), REG_PC as int, pc_val & !3u32)
            };
            (with_reg(c2, REG_SP as int, addr.wrapping_add(4)), b1)
        } else {
            (with_reg(c1, REG_SP as int, addr), b1)
        }
    } else {
        let count = (count_low_ones(reg_list, 8) + if r {
            1nat
        } else {
            0nat
        }) as u32;
        let start = sp.wrapping_sub((count * 4) as u32);
        let (c1, b1, addr) = spec_thumb_multiple_from(c, b, reg_list, 0, start, false);
        let b2 = if r {
            bus_w32(b1, addr & !3u32, c.regs[REG_LR as int])
        } else {
            b1
        };
        (with_reg(c1, REG_SP as int, sp.wrapping_sub((count * 4) as u32)), b2)
    }
}

/// Sign-extended 11-bit branch offset, doubled.
pub open spec fn spec_thumb_branch_offset(instr: u16) -> i32 {
    let v = (instr & 0x07FF) as int;
    (if v >= 0x400 {
        (v - 0x800) * 2
    } else {
        v * 2
    }) as i32
}

/// The THUMB instructions that neither read nor write memory, nor call the BIOS.
pub open spec fn spec_thumb_branch_group(c: CpuState, instr: u16) -> (CpuState, u32) {
    if (instr & 0xF000) == 0xD000 {
        let cond = ((instr >> 8u16) & 0xF) as u8;
        if spec_condition_passed(c, cond) {
            let signed = (((instr & 0xFF) as i8) as int * 2) as i32;
            (with_reg(c, REG_PC as int, pc_of(c).wrapping_add(2).wrapping_add_signed(signed)), 3)
        } else {
            (c, 3)
        }
    } else if (instr & 0xF800) == 0xE000 {
        (
            with_reg(
                c,
                REG_PC as int,
                pc_of(c).wrapping_add(2).wrapping_add_signed(spec_thumb_branch_offset(instr)),
            ),
            3,
        )
    } else if (instr & 0xF800) == 0xF000 {
        let imm11 = (instr & 0x07FF) as u32;
        let signed = (((imm11 << 21u32) as i32) >> 9u32) as u32;
        (with_reg(c, REG_LR as int, pc_of(c).wrapping_add(2).wrapping_add(signed)), 2)
    } else {
        let imm11 = ((instr & 0x07FF) as u32) << 1u32;
        let target = c.regs[REG_LR as int].wrapping_add(imm11);
        (with_reg(with_reg(c, REG_LR as int, pc_of(c) | 1), REG_PC as int, target & !1u32), 3)
    }
}

/// One THUMB instruction (PC already points past it).
#[verifier::opaque]
pub open spec fn spec_exec_thumb(c: CpuState, b: BusState, instr: u16) -> (CpuState, BusState, u32) {
    if (instr & 0xF800) <= 0x1000 {
        (spec_thumb_shift_imm(c, instr), b, 1)
    } else if (instr & 0xF800) == 0x1800 {
        (spec_thumb_add_sub(c, instr), b, 1)
    } else if (instr & 0xE000) == 0x2000 {
        (spec_thumb_imm(c, instr), b, 1)
    } else if (instr & 0xFC00) == 0x4000 {
        (spec_thumb_alu(c, instr), b, 1)
    } else if (instr & 0xFC00) == 0x4400 {
        (spec_thumb_hi_reg(c, instr), b, 3)
    } else if (instr & 0xF800) == 0x4800 {
        let imm = ((instr & 0xFF) as u32) << 2u32;
        let addr = (pc_of(c).wrapping_add(2) & !3u32).wrapping_add(imm);
        (with_reg(c, tfield3(instr, 8), spec_read32(b, addr & !3u32)), b, 3)
    } else if (instr & 0xF000) == 0x5000 {
        let (c1, b1) = spec_thumb_reg_offset(c, b, instr);
        (c1, b1, 2)
    } else if (instr & 0xE000) == 0x6000 {
        let (c1, b1) = spec_thumb_imm_offset(c, b, instr);
        (c1, b1, 2)
    } else if (instr & 0xF000) == 0x8000 {
        let (c1, b1) = spec_thumb_halfword(c, b, instr);
        (c1, b1, 2)
    } else if (instr & 0xF000) == 0x9000 {
        let (c1, b1) = spec_thumb_sp_rel(c, b, instr);
        (c1, b1, 2)
    } else if (instr & 0xF000) == 0xA000 {
        let imm = ((instr & 0xFF) as u32) << 2u32;
        let base = if ((instr >> 11u16) & 1) != 0 {
            c.regs[REG_SP as int]
        } else {
            pc_of(c).wrapping_add(2) & !3u32
        };
        (with_reg(c, tfield3(instr, 8), base.wrapping_add(imm)), b, 1)
    } else if (instr & 0xFF00) == 0xB000 {
        let imm = ((instr & 0x7F) as u32) << 2u32;
        let sp = c.regs[REG_SP as int];
        (with_reg(c, REG_SP as int, if ((instr >> 7u16) & 1) != 0 {
            sp.wrapping_sub(imm)
        } else {
            sp.wrapping_add(imm)
        }), b, 1)
    } else if (instr & 0xF000) == 0xC000 {
        let (c1, b1) = spec_thumb_ldm_stm(c, b, instr);
        (c1, b1, 2)
    } else if (instr & 0xF600) == 0xB400 {
        let (c1, b1) = spec_thumb_push_pop(c, b, instr);
        (c1, b1, 3)
    } else if (instr & 0xF000) == 0xD000 && (instr & 0x0F00) != 0x0F00 {
        let (c1, cy) = spec_thumb_branch_group(c, instr);
        (c1, b, cy)
    } else if (instr & 0xFF00) == 0xDF00 {
        if b.bios_loaded {
            (spec_software_interrupt(c, true), b, 3)
        } else {
            spec_hle_swi(c, b, (instr & 0x00FF) as u8)
        }
    } else if (instr & 0xF800) == 0xE000 || (instr & 0xF800) == 0xF000 || (instr & 0xF800) == 0xF800 {
        let (c1, cy) = spec_thumb_branch_group(c, instr);
        (c1, b, cy)
    } else {
        (spec_note_unknown(c, true, instr as u32, pc_of(c).wrapping_sub(2)), b, 1)
    }
}


fn clear_region(bus: &mut Bus, start: u32, size: u32)
    requires
        start + size <= u32::MAX,
    ensures
        final(bus)@ == spec_clear_region(old(bus)@, start, size as nat),
{
    let mut i: u32 = 0;
    let ghost target = spec_clear_region(old(bus)@, start, size as nat);
    while i < size
        invariant
            i <= size,
            start + size <= u32::MAX,
            spec_clear_from(bus@, start, i as nat, size as nat) == target,
        decreases size - i,
    {
        bus.write8(start + i, 0);
        i = i + 1;
    }
}

fn magnitude_of(x: i32) -> (r: u32)
    ensures
        r == magnitude(x),
{
    if x < 0 {
        (-(x as i64)) as u32
    } else {
        x as u32
    }
}

impl Cpu {
    fn hle_intr_wait(&mut self, bus: &mut Bus, ignore_existing: bool, irq_mask: u16)
        ensures
            (final(self)@, final(bus)@) == spec_hle_intr_wait(old(self)@, old(bus)@, ignore_existing, irq_mask),
    {
        let mut pending = bus.read_io16(REG_IF) & irq_mask;
        if ignore_existing {
            if pending != 0 {
                bus.write_io16(REG_IF, pending);
            }
            pending = 0;
        }
        if pending == 0 {
            self.halted = true;
        } else {
            bus.write_io16(REG_IF, pending);
        }
    }

    fn hle_div(&mut self)
        ensures
            final(self)@ == spec_hle_div(old(self)@),
    {
        let num = self.regs[0] as i32;
        let den = self.regs[1] as i32;
        if den == 0 {
            self.regs[0] = 0;
            self.regs[1] = num as u32;
            self.regs[3] = 0;
        } else {
            let n_mag = magnitude_of(num);
            let d_mag = magnitude_of(den);
            let q_mag = n_mag / d_mag;
            let r_mag = n_mag % d_mag;
            let q: u32 = if (num < 0) != (den < 0) {
                (-(q_mag as i64)) as u32
            } else {
                q_mag
            };
            let r: u32 = if num < 0 {
                (-(r_mag as i64)) as u32
            } else {
                r_mag
            };
            self.regs[0] = q;
            self.regs[1] = r;
            self.regs[3] = q_mag;
        }
    }

    fn hle_cpuset(&mut self, bus: &mut Bus, fast: bool)
        ensures
            (final(self)@, final(bus)@) == spec_hle_cpuset(old(self)@, old(bus)@, fast),
    {
        let mut src = self.regs[0];
        let mut dst = self.regs[1];
        let mode = self.regs[2];
        let fill = (mode & 0x0100_0000) != 0;
        let word = (mode & 0x0400_0000) != 0;
        let mut units = mode & 0x1F_FFFF;
        proof {
            assert(mode & 0x1F_FFFFu32 <= 0x1F_FFFF) by (bit_vector);
        }
        if fast {
            units = units * 8;
        }
        if units == 0 {
            return;
        }
        let ghost b0 = bus@;
        if word {
            let fill_value = bus.read32(src & !3u32);
            let ghost target = spec_cpuset_words(b0, src, dst, units as nat, fill, fill_value);
            let mut i: u32 = 0;
            while i < units
                invariant
                    i <= units,
                    spec_cpuset_words(bus@, src, dst, (units - i) as nat, fill, fill_value) == target,
                decreases units - i,
            {
                let value = if fill {
                    fill_value
                } else {
                    let v = bus.read32(src & !3u32);
                    src = src.wrapping_add(4);
                    v
                };
                proof {
                    lemma_aligned_not_io_last(dst);
                }
                bus.write32(dst & !3u32, value);
                dst = dst.wrapping_add(4);
                i = i + 1;
            }
        } else {
            let fill_value = bus.read16(src & !1u32);
            let ghost target = spec_cpuset_halves(b0, src, dst, units as nat, fill, fill_value);
            let mut i: u32 = 0;
            while i < units
                invariant
                    i <= units,
                    spec_cpuset_halves(bus@, src, dst, (units - i) as nat, fill, fill_value) == target,
                decreases units - i,
            {
                let value = if fill {
                    fill_value
                } else {
                    let v = bus.read16(src & !1u32);
                    src = src.wrapping_add(2);
                    v
                };
                proof {
                    lemma_aligned_not_io_last(dst);
                }
                bus.write16(dst & !1u32, value);
                dst = dst.wrapping_add(2);
                i = i + 1;
            }
        }
        self.regs[0] = src;
        self.regs[1] = dst;
    }

    fn hle_swi(&mut self, bus: &mut Bus, swi: u8) -> (r: u32)
        ensures
            (final(self)@, final(bus)@, r) == spec_hle_swi(old(self)@, old(bus)@, swi),
    {
        if swi == 0x00 {
            self.set_pc(GAMEPAK_ROM_START);
        } else if swi == 0x01 {
            let flags = self.regs[0];
            if (flags & 1) != 0 {
                clear_region(bus, EWRAM_START, EWRAM_SIZE as u32);
            }
            if (flags & 2) != 0 {
                // RegisterRamReset preserves the last 0x200 bytes of IWRAM.
                clear_region(bus, IWRAM_START, (IWRAM_SIZE - 0x200) as u32);
            }
            if (flags & 4) != 0 {
                clear_region(bus, PALETTE_RAM_START, PALETTE_RAM_SIZE as u32);
            }
            if (flags & 8) != 0 {
                clear_region(bus, VRAM_START, VRAM_SIZE as u32);
            }
            if (flags & 16) != 0 {
                clear_region(bus, OAM_START, OAM_SIZE as u32);
            }
        } else if swi == 0x04 {
            let ignore_existing = self.regs[0] != 0;
            let irq_mask = self.regs[1] as u16;
            self.hle_intr_wait(bus, ignore_existing, irq_mask);
        } else if swi == 0x05 {
            // VBlankIntrWait(ignore_existing=true, irq_mask=VBlank)
            self.hle_intr_wait(bus, true, 1);
        } else if swi == 0x06 {
            self.hle_div();
        } else if swi == 0x0B {
            self.hle_cpuset(bus, false);
        } else if swi == 0x0C {
            self.hle_cpuset(bus, true);
        }
        6
    }

    fn thumb_shift_imm(&mut self, instr: u16)
        ensures
            final(self)@ == spec_thumb_shift_imm(old(self)@, instr),
    {
        let op = (instr >> 11u16) & 0x3;
        proof {
            assert((instr >> 6u16) & 0x1Fu16 < 32) by (bit_vector);
        }
        let shift = ((instr >> 6u16) & 0x1F) as u32;
        let rs = reg3(instr, 3);
        let rd = reg3(instr, 0);
        let val = self.regs[rs];
        let amount: u32 = if shift == 0 {
            32
        } else {
            shift
        };
        let (result, carry) = if op == 0 {
            // LSL
            if shift == 0 {
                (val, self.flag(CPSR_C))
            } else {
                (val << shift, ((val >> (32 - shift)) & 1) != 0)
            }
        } else if op == 1 {
            // LSR: an amount of 0 encodes 32, which clears the register and moves bit 31 to C.
            if amount < 32 {
                (val >> amount, ((val >> (amount - 1)) & 1) != 0)
            } else {
                (0, (val >> 31u32) != 0)
            }
        } else {
            // ASR: an amount of 0 encodes 32, which fills with the sign bit.
            if amount < 32 {
                (((val as i32) >> amount) as u32, ((val >> (amount - 1)) & 1) != 0)
            } else {
                let sign = (val >> 31u32) != 0;
                (if sign {
                    0xFFFF_FFFFu32
                } else {
                    0
                }, sign)
            }
        };
        self.regs[rd] = result;
        self.set_nz(result);
        self.set_flag(CPSR_C, carry);
    }

    fn thumb_add_sub(&mut self, instr: u16)
        ensures
            final(self)@ == spec_thumb_add_sub(old(self)@, instr),
    {
        let immediate = ((instr >> 10u16) & 1) != 0;
        let sub = ((instr >> 9u16) & 1) != 0;
        let op2 = if immediate {
            ((instr >> 6u16) & 0x7) as u32
        } else {
            let rs = reg3(instr, 6);
            self.regs[rs]
        };
        let rn = reg3(instr, 3);
        let rd = reg3(instr, 0);
        let lhs = self.regs[rn];
        let (result, carry, overflow) = if sub {
            sub_with_flags(lhs, op2)
        } else {
            add_with_flags(lhs, op2)
        };
        self.regs[rd] = result;
        self.set_nz(result);
        self.set_cv(carry, overflow);
    }

    fn thumb_imm(&mut self, instr: u16)
        ensures
            final(self)@ == spec_thumb_imm(old(self)@, instr),
    {
        let op = (instr >> 11u16) & 0x3;
        let rd = reg3(instr, 8);
        let imm = (instr & 0x00FF) as u32;
        if op == 0 {
            self.regs[rd] = imm;
            self.set_nz(imm);
        } else if op == 1 {
            let (res, c, v) = sub_with_flags(self.regs[rd], imm);
            self.set_nz(res);
            self.set_cv(c, v);
        } else if op == 2 {
            let (res, c, v) = add_with_flags(self.regs[rd], imm);
            self.regs[rd] = res;
            self.set_nz(res);
            self.set_cv(c, v);
        } else {
            let (res, c, v) = sub_with_flags(self.regs[rd], imm);
            self.regs[rd] = res;
            self.set_nz(res);
            self.set_cv(c, v);
        }
    }

    fn thumb_alu(&mut self, instr: u16)
        ensures
            final(self)@ == spec_thumb_alu(old(self)@, instr),
    {
        let op = (instr >> 6u16) & 0xF;
        let rs = reg3(instr, 3);
        let rd = reg3(instr, 0);
        let lhs = self.regs[rd];
        let rhs = self.regs[rs];
        let carry_in: u64 = if self.flag(CPSR_C) {
            1
        } else {
            0
        };
        let amount = rhs & 0xFF;
        if op == 0x0 {
            self.regs[rd] = lhs & rhs;
            self.set_nz(lhs & rhs);
        } else if op == 0x1 {
            self.regs[rd] = lhs ^ rhs;
            self.set_nz(lhs ^ rhs);
        } else if op == 0x2 {
            let res = lhs.wrapping_shl(amount);
            self.regs[rd] = res;
            self.set_nz(res);
        } else if op == 0x3 {
            let res = lhs.wrapping_shr(amount);
            self.regs[rd] = res;
            self.set_nz(res);
        } else if op == 0x4 {
            let res = (lhs as i32).wrapping_shr(amount) as u32;
            self.regs[rd] = res;
            self.set_nz(res);
        } else if op == 0x5 {
            let res64 = (lhs as u64) + (rhs as u64) + carry_in;
            let res = res64 as u32;
            let overflow = (!(lhs ^ rhs) & (lhs ^ res) & 0x8000_0000) != 0;
            self.regs[rd] = res;
            self.set_nz(res);
            self.set_cv(res64 > 0xFFFF_FFFF, overflow);
        } else if op == 0x6 {
            let res64 = (lhs as u64).wrapping_sub(rhs as u64).wrapping_sub(1 - carry_in);
            let res = res64 as u32;
            let overflow = ((lhs ^ rhs) & 0x8000_0000) != 0 && ((lhs ^ res) & 0x8000_0000) != 0;
            self.regs[rd] = res;
            self.set_nz(res);
            self.set_cv((res64 >> 32u64) == 0, overflow);
        } else if op == 0x7 {
            let res = rotate_right(lhs, amount & 31);
            self.regs[rd] = res;
            self.set_nz(res);
        } else if op == 0x8 {
            self.set_nz(lhs & rhs);
        } else if op == 0x9 {
            let (res, c, v) = sub_with_flags(0, rhs);
            self.regs[rd] = res;
            self.set_nz(res);
            self.set_cv(c, v);
        } else if op == 0xA {
            let (res, c, v) = sub_with_flags(lhs, rhs);
            self.set_nz(res);
            self.set_cv(c, v);
        } else if op == 0xB {
            let (res, c, v) = add_with_flags(lhs, rhs);
            self.set_nz(res);
            self.set_cv(c, v);
        } else if op == 0xC {
            self.regs[rd] = lhs | rhs;
            self.set_nz(lhs | rhs);
        } else if op == 0xD {
            let res = lhs.wrapping_mul(rhs);
            self.regs[rd] = res;
            self.set_nz(res);
        } else if op == 0xE {
            self.regs[rd] = lhs & !rhs;
            self.set_nz(lhs & !rhs);
        } else {
            self.regs[rd] = !rhs;
            self.set_nz(!rhs);
        }
    }

    fn thumb_hi_reg(&mut self, instr: u16)
        ensures
            final(self)@ == spec_thumb_hi_reg(old(self)@, instr),
    {
        let op = (instr >> 8u16) & 0x3;
        proof {
            assert((instr >> 7u16) & 1u16 <= 1 && (instr >> 6u16) & 1u16 <= 1) by (bit_vector);
        }
        let h1 = ((instr >> 7u16) & 1) as usize;
        let h2 = ((instr >> 6u16) & 1) as usize;
        let rs = reg3(instr, 3) + 8 * h2;
        let rd = reg3(instr, 0) + 8 * h1;
        let rhs = if rs == REG_PC {
            (self.pc().wrapping_add(2)) & !3u32
        } else {
            self.regs[rs]
        };
        if op == 0 {
            self.regs[rd] = self.regs[rd].wrapping_add(rhs);
            if rd == REG_PC {
                self.regs[REG_PC] = self.regs[REG_PC] & !3u32;
            }
        } else if op == 1 {
            let (res, c, v) = sub_with_flags(self.regs[rd], rhs);
            self.set_nz(res);
            self.set_cv(c, v);
        } else if op == 2 {
            self.regs[rd] = rhs;
            if rd == REG_PC {
                self.regs[REG_PC] = self.regs[REG_PC] & !1u32;
            }
        } else {
            self.branch_exchange(rhs);
        }
    }

    fn thumb_reg_offset(&mut self, bus: &mut Bus, instr: u16)
        ensures
            (final(self)@, final(bus)@) == spec_thumb_reg_offset(old(self)@, old(bus)@, instr),
    {
        let op = (instr >> 9u16) & 0x7;
        let rm = reg3(instr, 6);
        let rb = reg3(instr, 3);
        let rd = reg3(instr, 0);
        let addr = self.regs[rb].wrapping_add(self.regs[rm]);
        proof {
            lemma_aligned_not_io_last(addr);
        }
        if op == 0 {
            bus.write32(addr & !3u32, self.regs[rd]);
        } else if op == 1 {
            self.regs[rd] = bus.read32(addr & !3u32);
        } else if op == 2 {
            bus.write8(addr, self.regs[rd] as u8);
        } else if op == 3 {
            self.regs[rd] = bus.read8(addr) as u32;
        } else if op == 4 {
            bus.write16(addr & !1u32, self.regs[rd] as u16);
        } else if op == 5 {
            self.regs[rd] = ((bus.read8(addr) as i8) as i32) as u32;
        } else if op == 6 {
            self.regs[rd] = bus.read16(addr & !1u32) as u32;
        } else {
            self.regs[rd] = ((bus.read16(addr & !1u32) as i16) as i32) as u32;
        }
    }

    fn thumb_imm_offset(&mut self, bus: &mut Bus, instr: u16)
        ensures
            (final(self)@, final(bus)@) == spec_thumb_imm_offset(old(self)@, old(bus)@, instr),
    {
        let op = (instr >> 11u16) & 0x3;
        let offset5 = ((instr >> 6u16) & 0x1F) as u32;
        let rb = reg3(instr, 3);
        let rd = reg3(instr, 0);
        let base = self.regs[rb];
        if op == 0 {
            let addr = base.wrapping_add(offset5 << 2u32);
            proof {
                lemma_aligned_not_io_last(addr);
            }
            bus.write32(addr & !3u32, self.regs[rd]);
        } else if op == 1 {
            let addr = base.wrapping_add(offset5 << 2u32);
            self.regs[rd] = bus.read32(addr & !3u32);
        } else if op == 2 {
            let addr = base.wrapping_add(offset5);
            bus.write8(addr, self.regs[rd] as u8);
        } else {
            let addr = base.wrapping_add(offset5);
            self.regs[rd] = bus.read8(addr) as u32;
        }
    }

    fn thumb_halfword(&mut self, bus: &mut Bus, instr: u16)
        ensures
            (final(self)@, final(bus)@) == spec_thumb_halfword(old(self)@, old(bus)@, instr),
    {
        let load = ((instr >> 11u16) & 1) != 0;
        let offset5 = ((instr >> 6u16) & 0x1F) as u32;
        let rb = reg3(instr, 3);
        let rd = reg3(instr, 0);
        let addr = self.regs[rb].wrapping_add(offset5 << 1u32);
        proof {
            lemma_aligned_not_io_last(addr);
        }
        if load {
            self.regs[rd] = bus.read16(addr & !1u32) as u32;
        } else {
            bus.write16(addr & !1u32, self.regs[rd] as u16);
        }
    }

    fn thumb_sp_rel(&mut self, bus: &mut Bus, instr: u16)
        ensures
            (final(self)@, final(bus)@) == spec_thumb_sp_rel(old(self)@, old(bus)@, instr),
    {
        let load = ((instr >> 11u16) & 1) != 0;
        let rd = reg3(instr, 8);
        let imm = ((instr & 0xFF) as u32) << 2u32;
        let addr = self.regs[REG_SP].wrapping_add(imm);
        proof {
            lemma_aligned_not_io_last(addr);
        }
        if load {
            self.regs[rd] = bus.read32(addr & !3u32);
        } else {
            bus.write32(addr & !3u32, self.regs[rd]);
        }
    }

    fn thumb_multiple(&mut self, bus: &mut Bus, reg_list: u32, start: u32, load: bool) -> (r: u32)
        ensures
            (final(self)@, final(bus)@, r) == spec_thumb_multiple_from(old(self)@, old(bus)@, reg_list, 0, start, load),
    {
        let mut addr = start;
        let ghost target = spec_thumb_multiple_from(self@, bus@, reg_list, 0, start, load);
        let mut reg: usize = 0;
        while reg < 8
            invariant
                reg <= 8,
                spec_thumb_multiple_from(self@, bus@, reg_list, reg as int, addr, load) == target,
            decreases 8 - reg,
        {
            if ((reg_list >> (reg as u32)) & 1) != 0 {
                proof {
                    lemma_aligned_not_io_last(addr);
                }
                if load {
                    self.regs[reg] = bus.read32(addr & !3u32);
                } else {
                    bus.write32(addr & !3u32, self.regs[reg]);
                }
                addr = addr.wrapping_add(4);
            }
            reg = reg + 1;
        }
        addr
    }

    fn thumb_ldm_stm(&mut self, bus: &mut Bus, instr: u16)
        ensures
            (final(self)@, final(bus)@) == spec_thumb_ldm_stm(old(self)@, old(bus)@, instr),
    {
        let load = ((instr >> 11u16) & 1) != 0;
        let rb = reg3(instr, 8);
        let reg_list = (instr & 0xFF) as u32;
        let start = self.regs[rb];
        let addr = self.thumb_multiple(bus, reg_list, start, load);
        // The base register keeps a loaded value.
        let base_loaded = load && ((reg_list >> (rb as u32)) & 1) != 0;
        if !base_loaded {
            self.regs[rb] = addr;
        }
    }

    fn thumb_push_pop(&mut self, bus: &mut Bus, instr: u16)
        ensures
            (final(self)@, final(bus)@) == spec_thumb_push_pop(old(self)@, old(bus)@, instr),
    {
        let load = ((instr >> 11u16) & 1) != 0;
        let r = ((instr >> 8u16) & 1) != 0;
        let reg_list = (instr & 0xFF) as u32;
        let sp = self.regs[REG_SP];
        if load {
            let mut addr = self.thumb_multiple(bus, reg_list, sp, true);
            if r {
                proof {
                    lemma_aligned_not_io_last(addr);
                }
                let pc_val = bus.read32(addr & !3u32);
                addr = addr.wrapping_add(4);
                // POP {PC} selects the instruction set from bit 0 of the loaded value.
                if (pc_val & 1) != 0 {
                    self.cpsr = self.cpsr | CPSR_THUMB;
                    self.regs[REG_PC] = pc_val & !1u32;
                } else {
                    self.cpsr = self.cpsr & !CPSR_THUMB;
                    self.regs[REG_PC] = pc_val & !3u32;
                }
            }
            self.regs[REG_SP] = addr;
        } else {
            let mut count = count_ones8(reg_list);
            if r {
                count = count + 1;
            }
            let lr = self.regs[REG_LR];
            let start = sp.wrapping_sub(count * 4);
            let addr = self.thumb_multiple(bus, reg_list, start, false);
            if r {
                proof {
                    lemma_aligned_not_io_last(addr);
                }
                bus.write32(addr & !3u32, lr);
            }
            self.regs[REG_SP] = sp.wrapping_sub(count * 4);
        }
    }

    fn thumb_branch_group(&mut self, instr: u16) -> (r: u32)
        ensures
            (final(self)@, r) == spec_thumb_branch_group(old(self)@, instr),
    {
        if (instr & 0xF000) == 0xD000 {
            let cond = ((instr >> 8u16) & 0xF) as u8;
            if self.condition_passed(cond) {
                let imm8 = (instr & 0xFF) as i8;
                let signed = (imm8 as i32) * 2;
                let target = self.pc().wrapping_add(2).wrapping_add_signed(signed);
                self.set_pc(target);
            }
            3
        } else if (instr & 0xF800) == 0xE000 {
            let v = (instr & 0x07FF) as i32;
            let signed = if v >= 0x400 {
                (v - 0x800) * 2
            } else {
                v * 2
            };
            let target = self.pc().wrapping_add(2).wrapping_add_signed(signed);
            self.set_pc(target);
            3
        } else if (instr & 0xF800) == 0xF000 {
            // First half of BL: LR = address of this instruction + 4 + offset << 12.
            let imm11 = (instr & 0x07FF) as u32;
            let signed = (((imm11 << 21u32) as i32) >> 9u32) as u32;
            self.regs[REG_LR] = self.pc().wrapping_add(2).wrapping_add(signed);
            2
        } else {
            // Second half of BL: PC already points to the next THUMB instruction.
            let imm11 = ((instr & 0x07FF) as u32) << 1u32;
            let next = self.pc();
            let target = self.regs[REG_LR].wrapping_add(imm11);
            self.regs[REG_LR] = next | 1;
            self.set_pc(target & !1u32);
            3
        }
    }

    /// Executes one THUMB instruction; PC already points past it. Returns the cycles spent.
    pub fn exec_thumb(&mut self, bus: &mut Bus, instr: u16) -> (r: u32)
        ensures
            (final(self)@, final(bus)@, r) == spec_exec_thumb(old(self)@, old(bus)@, instr),
            1 <= r <= MAX_STEP_CYCLES,
    {
        proof {
            reveal(spec_exec_thumb);
            lemma_exec_thumb_cycles(self@, bus@, instr);
        }
        if (instr & 0xF800) <= 0x1000 {
            self.thumb_shift_imm(instr);
            return 1;
        }
        if (instr & 0xF800) == 0x1800 {
            self.thumb_add_sub(instr);
            return 1;
        }
        if (instr & 0xE000) == 0x2000 {
            self.thumb_imm(instr);
            return 1;
        }
        if (instr & 0xFC00) == 0x4000 {
            self.thumb_alu(instr);
            return 1;
        }
        if (instr & 0xFC00) == 0x4400 {
            self.thumb_hi_reg(instr);
            return 3;
        }
        if (instr & 0xF800) == 0x4800 {
            // PC-relative load: literal base is the instruction address + 4, word-aligned.
            let rd = reg3(instr, 8);
            let imm = ((instr & 0xFF) as u32) << 2u32;
            let addr = ((self.pc().wrapping_add(2)) & !3u32).wrapping_add(imm);
            self.regs[rd] = bus.read32(addr & !3u32);
            return 3;
        }
        if (instr & 0xF000) == 0x5000 {
            self.thumb_reg_offset(bus, instr);
            return 2;
        }
        if (instr & 0xE000) == 0x6000 {
            self.thumb_imm_offset(bus, instr);
            return 2;
        }
        if (instr & 0xF000) == 0x8000 {
            self.thumb_halfword(bus, instr);
            return 2;
        }
        if (instr & 0xF000) == 0x9000 {
            self.thumb_sp_rel(bus, instr);
            return 2;
        }
        if (instr & 0xF000) == 0xA000 {
            // ADD Rd, SP/PC, #imm (the PC form uses the instruction address + 4, aligned).
            let sp = ((instr >> 11u16) & 1) != 0;
            let rd = reg3(instr, 8);
            let imm = ((instr & 0xFF) as u32) << 2u32;
            let base = if sp {
                self.regs[REG_SP]
            } else {
                (self.pc().wrapping_add(2)) & !3u32
            };
            self.regs[rd] = base.wrapping_add(imm);
            return 1;
        }
        if (instr & 0xFF00) == 0xB000 {
            let sub = ((instr >> 7u16) & 1) != 0;
            let imm = ((instr & 0x7F) as u32) << 2u32;
            if sub {
                self.regs[REG_SP] = self.regs[REG_SP].wrapping_sub(imm);
            } else {
                self.regs[REG_SP] = self.regs[REG_SP].wrapping_add(imm);
            }
            return 1;
        }
        if (instr & 0xF000) == 0xC000 {
            self.thumb_ldm_stm(bus, instr);
            return 2;
        }
        if (instr & 0xF600) == 0xB400 {
            self.thumb_push_pop(bus, instr);
            return 3;
        }
        if (instr & 0xF000) == 0xD000 && (instr & 0x0F00) != 0x0F00 {
            return self.thumb_branch_group(instr);
        }
        if (instr & 0xFF00) == 0xDF00 {
            let swi = (instr & 0x00FF) as u8;
            if bus.has_bios() {
                self.software_interrupt(true);
                return 3;
            }
            return self.hle_swi(bus, swi);
        }
        if (instr & 0xF800) == 0xE000 || (instr & 0xF800) == 0xF000 || (instr & 0xF800) == 0xF800 {
            return self.thumb_branch_group(instr);
        }
        let addr = self.pc().wrapping_sub(2);
        self.note_unknown(true, instr as u32, addr);
        1
    }
}


// ---------------------------------------------------------------------------
// ARM dispatch, interrupts and the step function
// ---------------------------------------------------------------------------

/// MSR: write the selected fields of CPSR, or of SPSR with bit 22.
pub open spec fn spec_msr(c: CpuState, instr: u32, value: u32) -> CpuState {
    let field_mask = ((instr >> 16u32) & 0xF) as u8;
    if bit(instr, 0x0040_0000) {
        spec_write_spsr_fields(c, value, field_mask)
    } else {
        spec_write_cpsr_fields(c, value, field_mask)
    }
}

/// Multiply, swap, load/store and data-processing groups.
pub open spec fn spec_arm_data_group(c: CpuState, b: BusState, instr: u32) -> (CpuState, BusState, u32) {
    if (instr & 0x0FC0_00F0) == 0x0000_0090 {
        let (c1, cy) = spec_arm_multiply(c, instr);
        (c1, b, cy)
    } else if (instr & 0x0FB0_0FF0) == 0x0100_0090 {
        spec_arm_swap(c, b, instr)
    } else if (instr & 0x0F80_00F0) == 0x0080_0090 {
        let (c1, cy) = spec_arm_long_multiply(c, instr);
        (c1, b, cy)
    } else if (instr & 0x0E00_0090) == 0x0000_0090 {
        spec_arm_halfword_transfer(c, b, instr)
    } else if ((instr >> 25u32) & 0x7) == 0x4 {
        spec_arm_block_transfer(c, b, instr)
    } else if ((instr >> 26u32) & 0x3) == 0x1 {
        spec_arm_single_data_transfer(c, b, instr)
    } else if ((instr >> 26u32) & 0x3) == 0x0 {
        let (c1, cy) = spec_arm_data_processing(c, instr);
        (c1, b, cy)
    } else {
        (spec_note_unknown(c, false, instr, pc_of(c).wrapping_sub(4)), b, 1)
    }
}

/// Branches, status-register transfers and SWI, then the other groups.
pub open spec fn spec_arm_dispatch(c: CpuState, b: BusState, instr: u32) -> (CpuState, BusState, u32) {
    let msr_op = (instr >> 23u32) & 0x1F;
    let msr_bits_21_20 = (instr >> 20u32) & 0x3;
    if (instr & 0x0FFF_FFF0) == 0x012F_FF10 {
        (spec_branch_exchange(c, c.regs[field4(instr, 0)]), b, 3)
    } else if (instr & 0x0FBF_0FFF) == 0x010F_0000 {
        (with_reg(c, field4(instr, 12), c.cpsr), b, 1)
    } else if (instr & 0x0FBF_0FFF) == 0x014F_0000 {
        (with_reg(c, field4(instr, 12), spec_current_spsr(c)), b, 1)
    } else if msr_op == 0x2 && msr_bits_21_20 == 0x2 && ((instr >> 4u32) & 0xFF) == 0 {
        (spec_msr(c, instr, c.regs[field4(instr, 0)]), b, 1)
    } else if msr_op == 0x6 && msr_bits_21_20 == 0x2 {
        (spec_msr(c, instr, spec_rotated_immediate(instr)), b, 1)
    } else if (instr & 0x0F00_0000) == 0x0F00_0000 {
        let swi = (instr & 0x00FF_FFFF) as u8;
        if swi == 0x04 || swi == 0x05 || !b.bios_loaded {
            spec_hle_swi(c, b, swi)
        } else {
            (spec_software_interrupt(c, false), b, 3)
        }
    } else if ((instr >> 25u32) & 0x7) == 0x5 {
        let signed = (((instr & 0x00FF_FFFF) << 8u32) as i32) >> 6u32;
        let c1 = if bit(instr, 0x0100_0000) {
            with_reg(c, REG_LR as int, pc_of(c))
        } else {
            c
        };
        (with_reg(c1, REG_PC as int, pc_of(c).wrapping_add(4).wrapping_add_signed(signed)), b, 3)
    } else {
        spec_arm_data_group(c, b, instr)
    }
}

/// One ARM instruction (PC already points past it). Returns the cycles spent.
#[verifier::opaque]
pub open spec fn spec_exec_arm(c: CpuState, b: BusState, instr: u32) -> (CpuState, BusState, u32) {
    let cond = ((instr >> 28u32) & 0xF) as u8;
    if !spec_condition_passed(c, cond) {
        (c, b, 1)
    } else {
        spec_arm_dispatch(c, b, instr)
    }
}

/// IRQ exception entry (taken only with a BIOS image, IRQs enabled and an enabled
/// interrupt pending): IRQ mode, return address in LR, ARM state, vector 0x18.
pub open spec fn spec_handle_irq(c: CpuState, b: BusState) -> (CpuState, bool) {
    if !b.bios_loaded || (c.cpsr & CPSR_IRQ_DISABLE) != 0 || !spec_has_pending_interrupts(b)
        || spec_claim_pending_interrupt(b) is None {
        (c, false)
    } else {
        let c1 = spec_switch_mode(CpuState { spsr_irq: c.cpsr, ..c }, CpuMode::Irq);
        let lr = if thumb_state(c1) {
            pc_of(c1).wrapping_add(2)
        } else {
            pc_of(c1).wrapping_add(4)
        };
        let c2 = with_reg(c1, REG_LR as int, lr);
        let c3 = with_cpsr(c2, (c2.cpsr & !CPSR_THUMB) | CPSR_IRQ_DISABLE);
        (with_reg(c3, REG_PC as int, 0x0000_0018), true)
    }
}

/// `c` with its cycle counter set to `before + n`.
pub open spec fn add_cycles(c: CpuState, before: u64, n: u32) -> CpuState {
    CpuState { cycles: (before + n) as u64, ..c }
}

/// One step of the core: wake from halt, take an interrupt, or fetch and execute the
/// instruction at PC in the current state. Returns the cycles spent.
pub open spec fn spec_execute_step(c: CpuState, b: BusState) -> (CpuState, BusState, u32) {
    if c.halted {
        if !b.bios_loaded && spec_has_pending_interrupts(b) {
            (add_cycles(CpuState { halted: false, ..c }, c.cycles, 1), b, 1)
        } else {
            let (c1, taken) = spec_handle_irq(c, b);
            if taken {
                (add_cycles(CpuState { halted: false, ..c1 }, c.cycles, 7), b, 7)
            } else {
                (c1, b, 1)
            }
        }
    } else {
        let (c1, taken) = spec_handle_irq(c, b);
        if taken {
            (add_cycles(c1, c.cycles, 7), b, 7)
        } else {
            let pc = pc_of(c);
            let (c2, b2, spent) = if thumb_state(c) {
                spec_exec_thumb(with_reg(c, REG_PC as int, pc.wrapping_add(2)), b, spec_read16(b, pc))
            } else {
                spec_exec_arm(with_reg(c, REG_PC as int, pc.wrapping_add(4)), b, spec_read32(b, pc))
            };
            (add_cycles(c2, c.cycles, spent), b2, spent)
        }
    }
}

/// The branch that tracing records for a step from `c` that ended in `next`: only an
/// executed instruction that did not fall through to the next one, and only while
/// tracing is on.
pub open spec fn spec_branch_event(c: CpuState, b: BusState, next: CpuState) -> Option<BranchTrace> {
    let pc = pc_of(c);
    let thumb = thumb_state(c);
    let expected = if thumb {
        pc.wrapping_add(2)
    } else {
        pc.wrapping_add(4)
    };
    if !c.trace_branches || c.halted || spec_handle_irq(c, b).1 || pc_of(next) == expected {
        None
    } else {
        Some(
            BranchTrace {
                thumb,
                from: pc,
                instr: if thumb {
                    spec_read16(b, pc) as u32
                } else {
                    spec_read32(b, pc)
                },
                to: pc_of(next),
            },
        )
    }
}

/// Status register at the BIOS reset vector: Supervisor mode, IRQ and FIQ masked.
pub const BIOS_BOOT_CPSR: u32 = 0x0000_00D3;
/// Status register at a direct cartridge boot: System mode.
pub const ROM_BOOT_CPSR: u32 = 0x0000_001F;

pub open spec fn spec_force_boot_to_bios(c: CpuState) -> CpuState {
    with_reg(with_cpsr(spec_switch_mode(c, CpuMode::Supervisor), BIOS_BOOT_CPSR), REG_PC as int, 0)
}

pub open spec fn spec_jump_to_rom_entry(c: CpuState) -> CpuState {
    with_reg(with_cpsr(spec_switch_mode(c, CpuMode::System), ROM_BOOT_CPSR), REG_PC as int, GAMEPAK_ROM_START)
}

/// One step, recording the traced branch it took (if any).
pub open spec fn spec_step(c: CpuState, b: BusState) -> (CpuState, BusState, u32) {
    let (c1, b1, n) = spec_execute_step(c, b);
    (CpuState { last_branch: spec_branch_event(c, b, c1), ..c1 }, b1, n)
}

/// Most cycles any step takes (an LDM/STM of all sixteen registers).
pub const MAX_STEP_CYCLES: u32 = 19;

proof fn lemma_count_low_ones_bound(x: u32, n: nat)
    ensures
        count_low_ones(x, n) <= n,
    decreases n,
{
    if n > 0 {
        lemma_count_low_ones_bound(x, (n - 1) as nat);
    }
}

pub proof fn lemma_exec_arm_cycles(c: CpuState, b: BusState, instr: u32)
    ensures
        1 <= spec_exec_arm(c, b, instr).2 <= MAX_STEP_CYCLES,
{
    reveal(spec_exec_arm);
    lemma_count_low_ones_bound(instr & 0xFFFF, 16);
}

#[verifier::rlimit(50)]
pub proof fn lemma_exec_thumb_cycles(c: CpuState, b: BusState, instr: u16)
    ensures
        1 <= spec_exec_thumb(c, b, instr).2 <= MAX_STEP_CYCLES,
{
    reveal(spec_exec_thumb);
}

pub proof fn lemma_step_cycles(c: CpuState, b: BusState)
    ensures
        1 <= spec_step(c, b).2 <= MAX_STEP_CYCLES,
{
    let pc = pc_of(c);
    lemma_exec_arm_cycles(with_reg(c, REG_PC as int, pc.wrapping_add(4)), b, spec_read32(b, pc));
    lemma_exec_thumb_cycles(with_reg(c, REG_PC as int, pc.wrapping_add(2)), b, spec_read16(b, pc));
}

impl Cpu {
    fn msr(&mut self, instr: u32, value: u32)
        ensures
            final(self)@ == spec_msr(old(self)@, instr, value),
    {
        let field_mask = ((instr >> 16u32) & 0xF) as u8;
        let write_spsr = (instr & 0x0040_0000) != 0;
        if write_spsr {
            self.write_spsr_fields(value, field_mask);
        } else {
            self.write_cpsr_fields(value, field_mask);
        }
    }

    fn arm_data_group(&mut self, bus: &mut Bus, instr: u32) -> (r: u32)
        ensures
            (final(self)@, final(bus)@, r) == spec_arm_data_group(old(self)@, old(bus)@, instr),
    {
        // MUL/MLA
        if (instr & 0x0FC0_00F0) == 0x0000_0090 {
            return self.arm_multiply(instr);
        }
        // SWP / SWPB
        if (instr & 0x0FB0_0FF0) == 0x0100_0090 {
            return self.arm_swap(bus, instr);
        }
        // Long multiply (UMULL, UMLAL, SMULL, SMLAL)
        if (instr & 0x0F80_00F0) == 0x0080_0090 {
            return self.arm_long_multiply(instr);
        }
        // Halfword and signed transfer.
        if (instr & 0x0E00_0090) == 0x0000_0090 {
            return self.arm_halfword_transfer(bus, instr);
        }
        // Block data transfer LDM/STM
        if ((instr >> 25u32) & 0x7) == 0x4 {
            return self.arm_block_transfer(bus, instr);
        }
        // Single data transfer LDR/STR
        if ((instr >> 26u32) & 0x3) == 0x1 {
            return self.arm_single_data_transfer(bus, instr);
        }
        // Data processing
        if ((instr >> 26u32) & 0x3) == 0x0 {
            return self.arm_data_processing(instr);
        }
        let addr = self.pc().wrapping_sub(4);
        self.note_unknown(false, instr, addr);
        1
    }

    fn arm_dispatch(&mut self, bus: &mut Bus, instr: u32) -> (r: u32)
        ensures
            (final(self)@, final(bus)@, r) == spec_arm_dispatch(old(self)@, old(bus)@, instr),
    {
        // BX Rm
        if (instr & 0x0FFF_FFF0) == 0x012F_FF10 {
            let rm = reg4(instr, 0);
            let target = self.regs[rm];
            self.branch_exchange(target);
            return 3;
        }
        // MRS Rd, CPSR
        if (instr & 0x0FBF_0FFF) == 0x010F_0000 {
            let rd = reg4(instr, 12);
            self.regs[rd] = self.cpsr;
            return 1;
        }
        // MRS Rd, SPSR
        if (instr & 0x0FBF_0FFF) == 0x014F_0000 {
            let rd = reg4(instr, 12);
            self.regs[rd] = self.current_spsr();
            return 1;
        }
        // MSR CPSR/SPSR fields, Rm. The explicit bitfield decode avoids false positives
        // while accepting non-canonical Rd encodings.
        let msr_op = (instr >> 23u32) & 0x1F;
        let msr_bits_21_20 = (instr >> 20u32) & 0x3;
        if msr_op == 0x2 && msr_bits_21_20 == 0x2 && ((instr >> 4u32) & 0xFF) == 0 {
            let rm = reg4(instr, 0);
            let value = self.regs[rm];
            self.msr(instr, value);
            return 1;
        }
        // MSR CPSR/SPSR fields, #immediate
        if msr_op == 0x6 && msr_bits_21_20 == 0x2 {
            let imm8 = instr & 0xFF;
            proof {
                assert(((instr >> 8u32) & 0xFu32) * 2 < 32) by (bit_vector);
            }
            let rot = ((instr >> 8u32) & 0xF) * 2;
            let value = rotate_right(imm8, rot);
            self.msr(instr, value);
            return 1;
        }
        // SWI
        if (instr & 0x0F00_0000) == 0x0F00_0000 {
            let swi = (instr & 0x00FF_FFFF) as u8;
            if swi == 0x04 || swi == 0x05 {
                return self.hle_swi(bus, swi);
            }
            if bus.has_bios() {
                self.software_interrupt(false);
                return 3;
            }
            return self.hle_swi(bus, swi);
        }
        // B / BL
        if ((instr >> 25u32) & 0x7) == 0x5 {
            let imm24 = instr & 0x00FF_FFFF;
            let signed = ((imm24 << 8u32) as i32) >> 6u32;
            let pc = self.pc();
            if (instr & 0x0100_0000) != 0 {
                self.regs[REG_LR] = pc;
            }
            let target = pc.wrapping_add(4).wrapping_add_signed(signed);
            self.set_pc(target);
            return 3;
        }
        self.arm_data_group(bus, instr)
    }

    /// Executes one ARM instruction; PC already points past it. Returns the cycles spent.
    pub fn exec_arm(&mut self, bus: &mut Bus, instr: u32) -> (r: u32)
        ensures
            (final(self)@, final(bus)@, r) == spec_exec_arm(old(self)@, old(bus)@, instr),
            1 <= r <= MAX_STEP_CYCLES,
    {
        proof {
            reveal(spec_exec_arm);
            lemma_exec_arm_cycles(self@, bus@, instr);
        }
        let cond = ((instr >> 28u32) & 0xF) as u8;
        if !self.condition_passed(cond) {
            return 1;
        }
        self.arm_dispatch(bus, instr)
    }

    fn handle_irq(&mut self, bus: &mut Bus) -> (r: bool)
        ensures
            (final(self)@, r) == spec_handle_irq(old(self)@, old(bus)@),
            final(bus)@ == old(bus)@,
    {
        if !bus.has_bios() {
            return false;
        }
        if (self.cpsr & CPSR_IRQ_DISABLE) != 0 {
            return false;
        }
        if !bus.has_pending_interrupts() {
            return false;
        }
        if bus.claim_pending_interrupt().is_none() {
            return false;
        }
        self.spsr_irq = self.cpsr;
        self.switch_mode(CpuMode::Irq);
        self.regs[REG_LR] = if self.is_thumb() {
            self.pc().wrapping_add(2)
        } else {
            self.pc().wrapping_add(4)
        };
        self.cpsr = self.cpsr & !CPSR_THUMB;
        self.cpsr = self.cpsr | CPSR_IRQ_DISABLE;
        if bus.has_bios() {
            // Standard ARM IRQ vector entry via BIOS.
            self.set_pc(0x0000_0018);
        } else {
            // Without a BIOS image: emulate the BIOS IRQ dispatcher callback.
            let handler = bus.read32(0x03FF_FFFC);
            if handler == 0 {
                self.set_pc(0x0000_0018);
                return true;
            }
            self.biosless_irq_active = true;
            self.biosless_irq_saved[0] = self.regs[0];
            self.biosless_irq_saved[1] = self.regs[1];
            self.biosless_irq_saved[2] = self.regs[2];
            self.biosless_irq_saved[3] = self.regs[3];
            self.biosless_irq_saved[4] = self.regs[12];
            self.biosless_irq_lr = self.regs[REG_LR];
            self.regs[REG_LR] = BIOSLESS_IRQ_RETURN_MAGIC;
            if (handler & 1) != 0 {
                self.cpsr = self.cpsr | CPSR_THUMB;
                self.set_pc(handler & !1u32);
            } else {
                self.cpsr = self.cpsr & !CPSR_THUMB;
                self.set_pc(handler & !3u32);
            }
        }
        true
    }

    /// One step: wake from halt, take a pending interrupt, or execute one instruction.
    /// Returns the cycles spent (at most `MAX_STEP_CYCLES`).
    pub fn step(&mut self, bus: &mut Bus) -> (r: u32)
        requires
            old(self)@.cycles + MAX_STEP_CYCLES <= u64::MAX,
        ensures
            (final(self)@, final(bus)@, r) == spec_step(old(self)@, old(bus)@),
            1 <= r <= MAX_STEP_CYCLES,
    {
        proof {
            lemma_step_cycles(self@, bus@);
        }
        let traced = self.trace_branches;
        if self.halted {
            if !bus.has_bios() && bus.has_pending_interrupts() {
                // Without a BIOS, SWI IntrWait/Halt still resumes when IF/IE/IME match,
                // even though the BIOS IRQ exception vector is not entered.
                self.halted = false;
                self.cycles = self.cycles + 1;
                self.last_branch = None;
                return 1;
            }
            if self.handle_irq(bus) {
                self.halted = false;
                self.cycles = self.cycles + 7;
                self.last_branch = None;
                return 7;
            }
            self.last_branch = None;
            return 1;
        }
        if self.handle_irq(bus) {
            self.cycles = self.cycles + 7;
            self.last_branch = None;
            return 7;
        }
        let cycles_before = self.cycles;
        let pc = self.pc();
        let thumb = self.is_thumb();
        let (spent, instr) = if thumb {
            let instr = bus.read16(pc);
            self.set_pc(pc.wrapping_add(2));
            (self.exec_thumb(bus, instr), instr as u32)
        } else {
            let instr = bus.read32(pc);
            self.set_pc(pc.wrapping_add(4));
            (self.exec_arm(bus, instr), instr)
        };
        self.cycles = cycles_before + spent as u64;
        let expected_next = if thumb {
            pc.wrapping_add(2)
        } else {
            pc.wrapping_add(4)
        };
        let new_pc = self.pc();
        self.last_branch = if traced && new_pc != expected_next {
            Some(BranchTrace { thumb, from: pc, instr, to: new_pc })
        } else {
            None
        };
        spent
    }

    /// Turns branch tracing on or off: while on, every step records the branch it took.
    /// Records an undecoded instruction while unknown instructions are reported.
    fn note_unknown(&mut self, thumb: bool, instr: u32, addr: u32)
        ensures
            final(self)@ == spec_note_unknown(old(self)@, thumb, instr, addr),
    {
        if self.strict_unknown && self.unknown_hit.is_none() {
            self.unknown_hit = Some(UnknownInstruction { thumb, instr, addr });
        }
    }

    /// Turns the reporting of undecoded instructions on or off.
    pub fn set_strict_unknown(&mut self, enabled: bool)
        ensures
            final(self)@ == (CpuState { strict_unknown: enabled, ..old(self)@ }),
    {
        self.strict_unknown = enabled;
    }

    /// The first undecoded instruction met since the last call (while reporting was
    /// on), and clears it.
    pub fn take_unknown_instruction(&mut self) -> (r: Option<UnknownInstruction>)
        ensures
            r == old(self)@.unknown_hit,
            final(self)@ == (CpuState { unknown_hit: None, ..old(self)@ }),
    {
        let r = self.unknown_hit;
        self.unknown_hit = None;
        r
    }

    pub fn set_trace_branches(&mut self, enabled: bool)
        ensures
            final(self)@ == (CpuState { trace_branches: enabled, ..old(self)@ }),
    {
        self.trace_branches = enabled;
    }

    /// The branch the last step took, when tracing was on and it took one.
    pub fn last_branch(&self) -> (r: Option<BranchTrace>)
        ensures
            r == self@.last_branch,
    {
        self.last_branch
    }

    /// Reset vector of the BIOS: ARM state, Supervisor mode with IRQ and FIQ masked, PC 0.
    pub fn force_boot_to_bios(&mut self)
        ensures
            final(self)@ == spec_force_boot_to_bios(old(self)@),
    {
        self.switch_mode(CpuMode::Supervisor);
        self.cpsr = BIOS_BOOT_CPSR;
        self.set_pc(0);
    }

    /// Cartridge entry point in ARM state, System mode, interrupts enabled.
    pub fn jump_to_rom_entry(&mut self)
        ensures
            final(self)@ == spec_jump_to_rom_entry(old(self)@),
    {
        self.switch_mode(CpuMode::System);
        self.cpsr = ROM_BOOT_CPSR;
        self.set_pc(GAMEPAK_ROM_START);
    }
}

impl Default for Cpu {
    fn default() -> (cpu: Cpu)
        ensures
            cpu@ == initial_cpu_state(),
    {
        Cpu::new()
    }
}

} // verus!
