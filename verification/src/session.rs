//! Decisions of an emulation session around the frames: emulation speed, window
//! scale, the buttons held on the keyboard, and the BIOS watchdog.
use vstd::prelude::*;
use crate::input::{
    BUTTON_A, BUTTON_B, BUTTON_DOWN, BUTTON_L, BUTTON_LEFT, BUTTON_R, BUTTON_RIGHT, BUTTON_SELECT,
    BUTTON_START, BUTTON_UP, BUTTON_MASK,
};
use crate::progress::DebugOptions;

verus! {

/// Frames the BIOS watchdog allows a windowed session with a BIOS when none is given.
pub const DEFAULT_BIOS_WATCHDOG_FRAMES: u32 = 240;
/// Window scale when none is given.
pub const DEFAULT_WINDOW_SCALE: u32 = 4;

/// Frames emulated per displayed frame: 1 to 3, anything else counts as 1.
pub fn normalize_speed(multiplier: u32) -> (r: u32)
    ensures
        r == (if 1 <= multiplier <= 3 {
            multiplier
        } else {
            1u32
        }),
{
    if 1 <= multiplier && multiplier <= 3 {
        multiplier
    } else {
        1
    }
}

/// The speed after the speed key: x1, x2, x3, then back to x1.
pub fn next_speed(speed: u32) -> (r: u32)
    ensures
        r == (if speed == 1 {
            2u32
        } else if speed == 2 {
            3u32
        } else {
            1u32
        }),
{
    if speed == 1 {
        2
    } else if speed == 2 {
        3
    } else {
        1
    }
}

/// Pixel magnification of the window for scale setting `scale` (1 to 6 give 1, 2, 4,
/// 8, 16 and 32; anything else gives 4).
pub fn window_scale_factor(scale: u32) -> (r: u32)
    ensures
        r == (if scale == 1 {
            1u32
        } else if scale == 2 {
            2u32
        } else if scale == 3 {
            4u32
        } else if scale == 4 {
            8u32
        } else if scale == 5 {
            16u32
        } else if scale == 6 {
            32u32
        } else {
            4u32
        }),
{
    match scale {
        1 => 1,
        2 => 2,
        3 => 4,
        4 => 8,
        5 => 16,
        6 => 32,
        _ => 4,
    }
}

/// The console buttons held on the keyboard.
#[derive(Debug, Clone, Copy)]
pub struct HeldKeys {
    pub a: bool,
    pub b: bool,
    pub select: bool,
    pub start: bool,
    pub right: bool,
    pub left: bool,
    pub up: bool,
    pub down: bool,
    pub r: bool,
    pub l: bool,
}

pub open spec fn bit_if(held: bool, button: u16) -> u16 {
    if held {
        button
    } else {
        0
    }
}

pub open spec fn spec_key_mask(k: HeldKeys) -> u16 {
    bit_if(k.a, BUTTON_A) | bit_if(k.b, BUTTON_B) | bit_if(k.select, BUTTON_SELECT) | bit_if(
        k.start,
        BUTTON_START,
    ) | bit_if(k.right, BUTTON_RIGHT) | bit_if(k.left, BUTTON_LEFT) | bit_if(k.up, BUTTON_UP) | bit_if(
        k.down,
        BUTTON_DOWN,
    ) | bit_if(k.r, BUTTON_R) | bit_if(k.l, BUTTON_L)
}

fn bit_if_exec(held: bool, button: u16) -> (r: u16)
    ensures
        r == bit_if(held, button),
{
    if held {
        button
    } else {
        0
    }
}

/// The button mask of the held keys.
pub fn key_mask(k: &HeldKeys) -> (r: u16)
    ensures
        r == spec_key_mask(*k),
{
    bit_if_exec(k.a, BUTTON_A) | bit_if_exec(k.b, BUTTON_B) | bit_if_exec(k.select, BUTTON_SELECT)
        | bit_if_exec(k.start, BUTTON_START) | bit_if_exec(k.right, BUTTON_RIGHT) | bit_if_exec(
        k.left,
        BUTTON_LEFT,
    ) | bit_if_exec(k.up, BUTTON_UP) | bit_if_exec(k.down, BUTTON_DOWN) | bit_if_exec(k.r, BUTTON_R)
        | bit_if_exec(k.l, BUTTON_L)
}

proof fn lemma_mask_bits(a: bool, b: bool, se: bool, st: bool, ri: bool, le: bool, u: bool, d: bool, r: bool, l: bool)
    by (bit_vector)
    ensures
        ({
            let m = (if a { 1u16 } else { 0u16 }) | (if b { 2u16 } else { 0u16 }) | (if se { 4u16 } else { 0u16 })
                | (if st { 8u16 } else { 0u16 }) | (if ri { 0x10u16 } else { 0u16 }) | (if le { 0x20u16 } else { 0u16 })
                | (if u { 0x40u16 } else { 0u16 }) | (if d { 0x80u16 } else { 0u16 }) | (if r { 0x100u16 } else { 0u16 })
                | (if l { 0x200u16 } else { 0u16 });
            &&& ((m & 1u16) != 0) == a
            &&& ((m & 2u16) != 0) == b
            &&& ((m & 4u16) != 0) == se
            &&& ((m & 8u16) != 0) == st
            &&& ((m & 0x10u16) != 0) == ri
            &&& ((m & 0x20u16) != 0) == le
            &&& ((m & 0x40u16) != 0) == u
            &&& ((m & 0x80u16) != 0) == d
            &&& ((m & 0x100u16) != 0) == r
            &&& ((m & 0x200u16) != 0) == l
            &&& (m & !0x3FFu16) == 0
        }),
{
}

/// Each console button is held exactly when its key is (Z is A, X is B, Backspace is
/// Select, Enter is Start, the arrows are the pad, S is R, A is L), and no bit outside
/// the ten buttons is ever set.
pub proof fn law_key_mask_bits(k: HeldKeys)
    ensures
        ((spec_key_mask(k) & BUTTON_A) != 0) == k.a,
        ((spec_key_mask(k) & BUTTON_B) != 0) == k.b,
        ((spec_key_mask(k) & BUTTON_SELECT) != 0) == k.select,
        ((spec_key_mask(k) & BUTTON_START) != 0) == k.start,
        ((spec_key_mask(k) & BUTTON_RIGHT) != 0) == k.right,
        ((spec_key_mask(k) & BUTTON_LEFT) != 0) == k.left,
        ((spec_key_mask(k) & BUTTON_UP) != 0) == k.up,
        ((spec_key_mask(k) & BUTTON_DOWN) != 0) == k.down,
        ((spec_key_mask(k) & BUTTON_R) != 0) == k.r,
        ((spec_key_mask(k) & BUTTON_L) != 0) == k.l,
        (spec_key_mask(k) & !BUTTON_MASK) == 0,
{
    lemma_mask_bits(k.a, k.b, k.select, k.start, k.right, k.left, k.up, k.down, k.r, k.l);
}

/// Debug options of a session: a windowed session booted with a BIOS gets the default
/// BIOS watchdog unless one was given.
pub fn session_debug_options(debug: DebugOptions, headless: bool, bios_selected: bool) -> (r: DebugOptions)
    ensures
        r == (if !headless && bios_selected && debug.bios_watchdog_frames is None {
            DebugOptions { bios_watchdog_frames: Some(DEFAULT_BIOS_WATCHDOG_FRAMES), ..debug }
        } else {
            debug
        }),
{
    if !headless && bios_selected && debug.bios_watchdog_frames.is_none() {
        DebugOptions { bios_watchdog_frames: Some(DEFAULT_BIOS_WATCHDOG_FRAMES), ..debug }
    } else {
        debug
    }
}

/// The BIOS watchdog after a frame that ended at `pc`: counts consecutive frames
/// ending in the BIOS, and fires when the count reaches the limit (a limit of 0 or
/// none never fires). Returns the new count and whether it fired.
pub fn bios_watchdog_step(bios_frames: u32, pc: u32, limit: Option<u32>) -> (r: (u32, bool))
    ensures
        r.0 == (if pc < 0x0000_4000 {
            bios_frames.saturating_add(1)
        } else {
            0
        }),
        r.1 == (limit matches Some(n) && n != 0 && r.0 == n),
{
    let frames = if pc < 0x0000_4000 {
        bios_frames.saturating_add(1)
    } else {
        0
    };
    let fired = match limit {
        Some(n) => n != 0 && frames == n,
        None => false,
    };
    (frames, fired)
}

} // verus!
