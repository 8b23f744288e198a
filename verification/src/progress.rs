//! Frame-by-frame progress watching: anomalies of the program counter, periodic
//! snapshots and "stuck" warnings. The decisions are made here; printing them is the
//! caller's business.
use vstd::prelude::*;
use crate::gba::DebugSnapshot;

verus! {

/// Debug output settings; `None` or `Some(0)` turns a feature off.
#[derive(Debug, Clone, Copy)]
pub struct DebugOptions {
    pub interval_frames: Option<u32>,
    pub stuck_threshold: Option<u32>,
    pub bios_watchdog_frames: Option<u32>,
}

/// What the progress watcher remembers between frames.
#[derive(Debug, Clone, Copy)]
pub struct ProgressState {
    pub last_pc: u32,
    pub same_pc_frames: u32,
}

/// What one frame's progress check found.
#[derive(Debug, Clone, Copy)]
pub struct ProgressReport {
    /// The PC left every region code can run from.
    pub non_exec_pc: bool,
    /// The PC moved by more than `LARGE_PC_JUMP` since the previous frame.
    pub large_pc_jump: bool,
    /// PC of the previous frame.
    pub prev_pc: u32,
    /// `pc - prev_pc`, wrapping.
    pub pc_delta: u32,
    /// The periodic snapshot is due this frame.
    pub log_snapshot: bool,
    /// The PC has stayed put for exactly the stuck threshold.
    pub potential_stuck: bool,
    /// Frames the PC has stayed put, this one included.
    pub same_pc_frames: u32,
}

/// A jump of the PC between frames larger than this is reported.
pub const LARGE_PC_JUMP: u32 = 0x0100_0000;

/// Whether `pc` lies in BIOS, EWRAM, IWRAM or cartridge ROM.
pub open spec fn spec_is_probably_executable(pc: u32) -> bool {
    ||| pc < 0x0000_4000
    ||| 0x0200_0000 <= pc < 0x0300_0000
    ||| 0x0300_0000 <= pc < 0x0400_0000
    ||| 0x0800_0000 <= pc < 0x0E00_0000
}

pub fn is_probably_executable(pc: u32) -> (r: bool)
    ensures
        r == spec_is_probably_executable(pc),
{
    pc < 0x0000_4000 || (0x0200_0000 <= pc && pc < 0x0300_0000) || (0x0300_0000 <= pc && pc
        < 0x0400_0000) || (0x0800_0000 <= pc && pc < 0x0E00_0000)
}

pub open spec fn abs_diff(a: u32, b: u32) -> int {
    if a >= b {
        a - b
    } else {
        b - a
    }
}

pub open spec fn option_enabled(o: Option<u32>) -> bool {
    o matches Some(n) && n != 0
}

/// Progress check of frame `frame` whose snapshot is `snap`: updates the state and
/// says what to report.
pub fn update_progress(frame: u32, snap: &DebugSnapshot, debug: DebugOptions, state: &mut ProgressState) -> (r:
    ProgressReport)
    ensures
        final(state).last_pc == snap.pc,
        final(state).same_pc_frames == (if snap.pc == old(state).last_pc {
            old(state).same_pc_frames.saturating_add(1)
        } else {
            0
        }),
        r.same_pc_frames == final(state).same_pc_frames,
        r.prev_pc == old(state).last_pc,
        r.pc_delta == snap.pc.wrapping_sub(old(state).last_pc),
        r.non_exec_pc == !spec_is_probably_executable(snap.pc),
        r.large_pc_jump == (abs_diff(snap.pc, old(state).last_pc) > LARGE_PC_JUMP),
        r.log_snapshot == (option_enabled(debug.interval_frames) && frame % debug.interval_frames->0 == 0),
        r.potential_stuck == (option_enabled(debug.stuck_threshold) && final(state).same_pc_frames
            == debug.stuck_threshold->0),
{
    let pc = snap.pc;
    let prev = state.last_pc;
    let abs_delta = if pc >= prev {
        pc - prev
    } else {
        prev - pc
    };
    if pc == prev {
        state.same_pc_frames = state.same_pc_frames.saturating_add(1);
    } else {
        state.same_pc_frames = 0;
    }
    state.last_pc = pc;
    let log_snapshot = match debug.interval_frames {
        Some(interval) => interval != 0 && frame % interval == 0,
        None => false,
    };
    let potential_stuck = match debug.stuck_threshold {
        Some(threshold) => threshold != 0 && state.same_pc_frames == threshold,
        None => false,
    };
    ProgressReport {
        non_exec_pc: !is_probably_executable(pc),
        large_pc_jump: abs_delta > LARGE_PC_JUMP,
        prev_pc: prev,
        pc_delta: pc.wrapping_sub(prev),
        log_snapshot,
        potential_stuck,
        same_pc_frames: state.same_pc_frames,
    }
}

} // verus!
