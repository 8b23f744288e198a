//! Drawing of the launcher screen: the title lines, the ROM carousel and the settings
//! panel, over a background the caller has painted.
use vstd::prelude::*;
use crate::canvas::{
    draw_chars, draw_outline, draw_text, draw_wrapped_text, draw_rect, spec_draw_text,
    spec_draw_wrapped_text, spec_draw_rect, spec_outline, UI_PIXELS,
};
use crate::launcher::{LauncherAudioOutput, LauncherState, LauncherView, RomEntry};

verus! {

/// Longest text the launcher draws; longer names and paths are left out.
pub const MAX_LAUNCHER_TEXT: usize = 0x1_0000;

// ---------------------------------------------------------------------------
// Decimal text and labels
// ---------------------------------------------------------------------------

pub open spec fn digit_char(d: u32) -> char {
    (((d as u8) + 48) as u8) as char
}

/// `n` in decimal, without leading zeros.
pub open spec fn decimal_chars(n: u32) -> Seq<char>
    decreases n,
{
    if n < 10 {
        seq![digit_char(n)]
    } else {
        decimal_chars(n / 10) + seq![digit_char(n % 10)]
    }
}

fn push_decimal(out: &mut Vec<char>, n: u32)
    ensures
        final(out)@ == old(out)@ + decimal_chars(n),
    decreases n,
{
    if n >= 10 {
        push_decimal(out, n / 10);
    }
    let d = n % 10;
    out.push(((d as u8) + 48) as char);
    assert(final(out)@ =~= old(out)@ + decimal_chars(n)) by {
        if n >= 10 {
            assert(decimal_chars(n) == decimal_chars(n / 10) + seq![digit_char(n % 10)]);
        }
    }
}

fn push_str(out: &mut Vec<char>, s: &str)
    ensures
        final(out)@ == old(out)@ + s@,
{
    let n = s.unicode_len();
    let ghost start = out@;
    let mut k: usize = 0;
    while k < n
        invariant
            k <= n,
            n == s@.len(),
            out@ == start + s@.subrange(0, k as int),
        decreases n - k,
    {
        out.push(s.get_char(k));
        k = k + 1;
        assert(out@ =~= start + s@.subrange(0, k as int));
    }
    assert(s@.subrange(0, n as int) =~= s@);
}

pub open spec fn scale_label(v: LauncherView) -> Seq<char> {
    "Window Scale: "@ + decimal_chars(v.scale) + "x"@
}

/// The BIOS row shows the BIOS file's name (or ON) when the BIOS is used, else OFF.
pub open spec fn bios_label(v: LauncherView) -> Seq<char> {
    "Use BIOS: "@ + if v.use_bios {
        match v.bios_name {
            Some(n) => n@,
            None => "ON"@,
        }
    } else {
        "OFF"@
    }
}

pub open spec fn audio_label(v: LauncherView) -> Seq<char> {
    "Audio Output: "@ + match v.audio_output {
        LauncherAudioOutput::Default => "Default"@,
        LauncherAudioOutput::Muted => "Muted"@,
    }
}

pub open spec fn volume_label(v: LauncherView) -> Seq<char> {
    "Master Volume: "@ + decimal_chars(v.master_volume_percent as u32) + "%"@
}

pub open spec fn setting_label(v: LauncherView, i: int) -> Seq<char> {
    if i == 0 {
        scale_label(v)
    } else if i == 1 {
        bios_label(v)
    } else if i == 2 {
        audio_label(v)
    } else {
        volume_label(v)
    }
}

fn setting_label_exec(state: &LauncherState, i: usize) -> (r: Vec<char>)
    requires
        i < 4,
    ensures
        r@ == setting_label(state@, i as int),
{
    let mut out: Vec<char> = Vec::new();
    if i == 0 {
        push_str(&mut out, "Window Scale: ");
        push_decimal(&mut out, state.scale());
        push_str(&mut out, "x");
    } else if i == 1 {
        push_str(&mut out, "Use BIOS: ");
        if state.use_bios() {
            match state.bios_name() {
                Some(n) => push_str(&mut out, n.as_str()),
                None => push_str(&mut out, "ON"),
            }
        } else {
            push_str(&mut out, "OFF");
        }
    } else if i == 2 {
        push_str(&mut out, "Audio Output: ");
        match state.audio_output() {
            LauncherAudioOutput::Default => push_str(&mut out, "Default"),
            LauncherAudioOutput::Muted => push_str(&mut out, "Muted"),
        }
    } else {
        push_str(&mut out, "Master Volume: ");
        push_decimal(&mut out, state.master_volume_percent() as u32);
        push_str(&mut out, "%");
    }
    out
}

// ---------------------------------------------------------------------------
// Guarded text
// ---------------------------------------------------------------------------

/// Text of scale 1, drawn only when it is at most `MAX_LAUNCHER_TEXT` long.
pub open spec fn small_text(fb: Seq<u32>, x: i32, y: i32, color: u32, t: Seq<char>) -> Seq<u32> {
    if t.len() <= MAX_LAUNCHER_TEXT {
        spec_draw_text(fb, x, y, 1, color, t)
    } else {
        fb
    }
}

/// Wrapped text of scale 1, drawn only when it is at most `MAX_LAUNCHER_TEXT` long.
pub open spec fn small_wrapped(fb: Seq<u32>, x: i32, y: i32, w: i32, color: u32, t: Seq<char>) -> Seq<u32> {
    if t.len() <= MAX_LAUNCHER_TEXT {
        spec_draw_wrapped_text(fb, x, y, w, 1, color, t)
    } else {
        fb
    }
}

fn small_chars_exec(fb: &mut Vec<u32>, x: i32, y: i32, color: u32, t: &Vec<char>)
    requires
        old(fb)@.len() == UI_PIXELS,
        0 <= x <= 0x1000,
        0 <= y <= 0x1000,
    ensures
        final(fb)@ == small_text(old(fb)@, x, y, color, t@),
        final(fb)@.len() == UI_PIXELS,
{
    if t.len() <= MAX_LAUNCHER_TEXT {
        assert(t@.len() <= 0x1_0000);
        assert(x <= 0x1000);
        assert(8 * t@.len() <= 0x8_0000);
        assert(x + 8 * 1 * t@.len() <= 0x1000_0000);
        draw_chars(fb, x, y, 1, color, t);
    }
}

fn small_text_exec(fb: &mut Vec<u32>, x: i32, y: i32, color: u32, t: &str)
    requires
        old(fb)@.len() == UI_PIXELS,
        0 <= x <= 0x1000,
        0 <= y <= 0x1000,
    ensures
        final(fb)@ == small_text(old(fb)@, x, y, color, t@),
        final(fb)@.len() == UI_PIXELS,
{
    if t.unicode_len() <= MAX_LAUNCHER_TEXT {
        assert(t@.len() <= 0x1_0000);
        assert(x <= 0x1000);
        assert(8 * t@.len() <= 0x8_0000);
        assert(x + 8 * 1 * t@.len() <= 0x1000_0000);
        draw_text(fb, x, y, 1, color, t);
    }
}

fn small_wrapped_exec(fb: &mut Vec<u32>, x: i32, y: i32, w: i32, color: u32, t: &str)
    requires
        old(fb)@.len() == UI_PIXELS,
        0 <= x <= 0x1000,
        0 <= y <= 0x1000,
    ensures
        final(fb)@ == small_wrapped(old(fb)@, x, y, w, color, t@),
        final(fb)@.len() == UI_PIXELS,
{
    if t.unicode_len() <= MAX_LAUNCHER_TEXT {
        draw_wrapped_text(fb, x, y, w, 1, color, t);
    }
}

// ---------------------------------------------------------------------------
// Carousel
// ---------------------------------------------------------------------------

pub const CARD_W: i32 = 232;
pub const CARD_H: i32 = 332;
pub const CARD_STEP: i32 = 258;
pub const CAROUSEL_X: i32 = 72;
pub const CAROUSEL_Y: i32 = 178;

/// The name shown on a ROM card.
pub open spec fn rom_card_name(e: RomEntry) -> Seq<char> {
    match e.name {
        Some(n) => n@,
        None => "unknown.gba"@,
    }
}

/// The card of ROM `idx` in carousel slot `slot`.
pub open spec fn spec_card(fb: Seq<u32>, v: LauncherView, slot: int, idx: int) -> Seq<u32> {
    let x = (CAROUSEL_X + slot * CARD_STEP) as i32;
    let y = CAROUSEL_Y;
    let sel = idx == v.selected_rom;
    let frame: u32 = if sel {
        0xFF45_D6E8
    } else {
        0xFF4A_576B
    };
    let fill: u32 = if sel {
        0xCC17_2435
    } else {
        0xAA12_1822
    };
    let f1 = spec_draw_rect(fb, x, y, CARD_W, CARD_H, fill);
    let f2 = spec_outline(f1, x, y, CARD_W, CARD_H, frame, 3);
    let f3 = spec_draw_rect(f2, (x + 16) as i32, (y + 18) as i32, (CARD_W - 32) as i32, 190, 0xFF1D_2B40);
    let f4 = spec_draw_rect(f3, (x + 24) as i32, (y + 26) as i32, (CARD_W - 48) as i32, 88, 0xFF2A_3F5E);
    let f5 = spec_draw_rect(f4, (x + 24) as i32, (y + 122) as i32, (CARD_W - 48) as i32, 78, 0xFF37_4C70);
    let name_color: u32 = if sel {
        0xFFEE_F7FF
    } else {
        0xFFD3_DBE8
    };
    let f6 = small_wrapped(
        f5,
        (x + 16) as i32,
        (y + 228) as i32,
        (CARD_W - 28) as i32,
        name_color,
        rom_card_name(v.roms[idx]),
    );
    if sel {
        spec_draw_text(f6, (x + 16) as i32, (y + CARD_H - 28) as i32, 1, 0xFF66_EAFF, "READY"@)
    } else {
        f6
    }
}

/// Cards of the ROMs `start + slot .. end`, in slots `slot..`.
pub open spec fn cards_from(fb: Seq<u32>, v: LauncherView, start: int, end: int, slot: int) -> Seq<u32>
    decreases end - start - slot,
{
    if slot < 0 || start + slot >= end {
        fb
    } else {
        cards_from(spec_card(fb, v, slot, start + slot), v, start, end, slot + 1)
    }
}

pub open spec fn visible_start(v: LauncherView) -> int {
    if v.selected_rom >= 1 {
        v.selected_rom - 1
    } else {
        0
    }
}

pub open spec fn visible_end(v: LauncherView) -> int {
    if visible_start(v) + 4 < v.roms.len() {
        visible_start(v) + 4
    } else {
        v.roms.len() as int
    }
}

pub open spec fn spec_game_carousel(fb: Seq<u32>, v: LauncherView) -> Seq<u32> {
    cards_from(fb, v, visible_start(v), visible_end(v), 0)
}

fn draw_card(fb: &mut Vec<u32>, state: &LauncherState, slot: usize, idx: usize)
    requires
        old(fb)@.len() == UI_PIXELS,
        slot < 4,
        idx < state@.roms.len(),
    ensures
        final(fb)@ == spec_card(old(fb)@, state@, slot as int, idx as int),
        final(fb)@.len() == UI_PIXELS,
{
    let x = CAROUSEL_X + (slot as i32) * CARD_STEP;
    let y = CAROUSEL_Y;
    let sel = idx == state.selected_rom();
    let frame: u32 = if sel {
        0xFF45_D6E8
    } else {
        0xFF4A_576B
    };
    let fill: u32 = if sel {
        0xCC17_2435
    } else {
        0xAA12_1822
    };
    draw_rect(fb, x, y, CARD_W, CARD_H, fill);
    draw_outline(fb, x, y, CARD_W, CARD_H, frame, 3);
    draw_rect(fb, x + 16, y + 18, CARD_W - 32, 190, 0xFF1D_2B40);
    draw_rect(fb, x + 24, y + 26, CARD_W - 48, 88, 0xFF2A_3F5E);
    draw_rect(fb, x + 24, y + 122, CARD_W - 48, 78, 0xFF37_4C70);
    let name_color: u32 = if sel {
        0xFFEE_F7FF
    } else {
        0xFFD3_DBE8
    };
    let entry = &state.roms()[idx];
    match &entry.name {
        Some(n) => small_wrapped_exec(fb, x + 16, y + 228, CARD_W - 28, name_color, n.as_str()),
        None => small_wrapped_exec(fb, x + 16, y + 228, CARD_W - 28, name_color, "unknown.gba"),
    }
    if sel {
        proof {
            reveal_strlit("READY");
            assert("READY"@.len() < 200);
        }
        draw_text(fb, x + 16, y + CARD_H - 28, 1, 0xFF66_EAFF, "READY");
    }
}

/// Draws the ROM carousel: up to four cards from the one before the selected ROM.
pub fn draw_game_carousel(fb: &mut Vec<u32>, state: &LauncherState)
    requires
        old(fb)@.len() == UI_PIXELS,
    ensures
        final(fb)@ == spec_game_carousel(old(fb)@, state@),
        final(fb)@.len() == UI_PIXELS,
{
    let (start, end) = state.visible_range();
    let ghost v = state@;
    let ghost target = spec_game_carousel(fb@, v);
    let mut slot: usize = 0;
    while slot < 4 && start < end && slot < end - start
        invariant
            v == state@,
            start == visible_start(v),
            end == visible_end(v),
            end <= v.roms.len(),
            end <= start + 4,
            slot <= 4,
            fb@.len() == UI_PIXELS,
            cards_from(fb@, v, start as int, end as int, slot as int) == target,
        decreases 4 - slot,
    {
        draw_card(fb, state, slot, start + slot);
        slot = slot + 1;
    }
}

// ---------------------------------------------------------------------------
// Settings panel
// ---------------------------------------------------------------------------

pub const PANEL_X: i32 = 910;
pub const PANEL_Y: i32 = 178;
pub const PANEL_W: i32 = 320;
pub const PANEL_H: i32 = 420;

/// Settings row `i` with its label.
pub open spec fn spec_setting_row(fb: Seq<u32>, v: LauncherView, i: int) -> Seq<u32> {
    let y = (PANEL_Y + 86 + i * 66) as i32;
    let sel = i == v.selected_setting;
    let bg: u32 = if sel {
        0xFF2C_3A52
    } else {
        0xFF1B_2535
    };
    let fg: u32 = if sel {
        0xFFEE_F7FF
    } else {
        0xFFD2_DBE8
    };
    let edge: u32 = if sel {
        0xFF6D_DFF0
    } else {
        0xFF45_5873
    };
    let f1 = spec_draw_rect(fb, (PANEL_X + 18) as i32, y, (PANEL_W - 36) as i32, 48, bg);
    let f2 = spec_outline(f1, (PANEL_X + 18) as i32, y, (PANEL_W - 36) as i32, 48, edge, 1);
    small_text(f2, (PANEL_X + 30) as i32, (y + 16) as i32, fg, setting_label(v, i))
}

pub open spec fn setting_rows_from(fb: Seq<u32>, v: LauncherView, i: int) -> Seq<u32>
    decreases 4 - i,
{
    if i >= 4 || i < 0 {
        fb
    } else {
        setting_rows_from(spec_setting_row(fb, v, i), v, i + 1)
    }
}

pub open spec fn spec_settings_panel(fb: Seq<u32>, v: LauncherView) -> Seq<u32> {
    let hint: u32 = 0xFFC6_D2E4;
    let f1 = spec_draw_rect(fb, PANEL_X, PANEL_Y, PANEL_W, PANEL_H, 0xB013_1A27);
    let f2 = spec_outline(f1, PANEL_X, PANEL_Y, PANEL_W, PANEL_H, 0xFF60_748F, 2);
    let tx = (PANEL_X + 20) as i32;
    let f3 = spec_draw_text(f2, tx, (PANEL_Y + 20) as i32, 2, 0xFFE4_E9F2, "Settings"@);
    let f4 = setting_rows_from(f3, v, 0);
    let f5 = spec_draw_text(f4, tx, (PANEL_Y + 318) as i32, 1, 0xFF9F_AEC2, "Audio Backend"@);
    let f6 = small_wrapped(f5, tx, (PANEL_Y + 338) as i32, (PANEL_W - 40) as i32, hint, v.audio_backend_info);
    let f7 = spec_draw_text(f6, tx, (PANEL_Y + 384) as i32, 1, 0xFF9F_AEC2, "Controls"@);
    let f8 = spec_draw_text(f7, tx, (PANEL_Y + 402) as i32, 1, hint, "Left/Right: Pick game"@);
    let f9 = spec_draw_text(f8, tx, (PANEL_Y + 420) as i32, 1, hint, "Up/Down: Select setting"@);
    let f10 = spec_draw_text(f9, tx, (PANEL_Y + 438) as i32, 1, hint, "A / D: Change value"@);
    let f11 = spec_draw_text(f10, tx, (PANEL_Y + 456) as i32, 1, hint, "R: Rescan ROMs"@);
    spec_draw_text(f11, tx, (PANEL_Y + 474) as i32, 1, hint, "Enter: Launch game"@)
}

/// Draws the settings panel with the four settings, the sound backend and the keys.
pub fn draw_settings_panel(fb: &mut Vec<u32>, state: &LauncherState)
    requires
        old(fb)@.len() == UI_PIXELS,
    ensures
        final(fb)@ == spec_settings_panel(old(fb)@, state@),
        final(fb)@.len() == UI_PIXELS,
{
    let ghost v = state@;
    let hint: u32 = 0xFFC6_D2E4;
    draw_rect(fb, PANEL_X, PANEL_Y, PANEL_W, PANEL_H, 0xB013_1A27);
    draw_outline(fb, PANEL_X, PANEL_Y, PANEL_W, PANEL_H, 0xFF60_748F, 2);
    proof {
        reveal_strlit("Settings");
        assert("Settings"@.len() < 200);
    }
    draw_text(fb, PANEL_X + 20, PANEL_Y + 20, 2, 0xFFE4_E9F2, "Settings");
    let ghost rows_target = setting_rows_from(fb@, v, 0);
    let mut i: usize = 0;
    while i < 4
        invariant
            i <= 4,
            v == state@,
            fb@.len() == UI_PIXELS,
            setting_rows_from(fb@, v, i as int) == rows_target,
        decreases 4 - i,
    {
        let y = PANEL_Y + 86 + (i as i32) * 66;
        let sel = i == state.selected_setting();
        let bg: u32 = if sel {
            0xFF2C_3A52
        } else {
            0xFF1B_2535
        };
        let fg: u32 = if sel {
            0xFFEE_F7FF
        } else {
            0xFFD2_DBE8
        };
        let edge: u32 = if sel {
            0xFF6D_DFF0
        } else {
            0xFF45_5873
        };
        draw_rect(fb, PANEL_X + 18, y, PANEL_W - 36, 48, bg);
        draw_outline(fb, PANEL_X + 18, y, PANEL_W - 36, 48, edge, 1);
        let label = setting_label_exec(state, i);
        small_chars_exec(fb, PANEL_X + 30, y + 16, fg, &label);
        i = i + 1;
    }
    proof {
        reveal_strlit("Audio Backend");
        assert("Audio Backend"@.len() < 200);
        reveal_strlit("Controls");
        assert("Controls"@.len() < 200);
        reveal_strlit("Left/Right: Pick game");
        assert("Left/Right: Pick game"@.len() < 200);
        reveal_strlit("Up/Down: Select setting");
        assert("Up/Down: Select setting"@.len() < 200);
        reveal_strlit("A / D: Change value");
        assert("A / D: Change value"@.len() < 200);
        reveal_strlit("R: Rescan ROMs");
        assert("R: Rescan ROMs"@.len() < 200);
        reveal_strlit("Enter: Launch game");
        assert("Enter: Launch game"@.len() < 200);
    }
    draw_text(fb, PANEL_X + 20, PANEL_Y + 318, 1, 0xFF9F_AEC2, "Audio Backend");
    small_wrapped_exec(fb, PANEL_X + 20, PANEL_Y + 338, PANEL_W - 40, hint, state.audio_backend_info().as_str());
    draw_text(fb, PANEL_X + 20, PANEL_Y + 384, 1, 0xFF9F_AEC2, "Controls");
    draw_text(fb, PANEL_X + 20, PANEL_Y + 402, 1, hint, "Left/Right: Pick game");
    draw_text(fb, PANEL_X + 20, PANEL_Y + 420, 1, hint, "Up/Down: Select setting");
    draw_text(fb, PANEL_X + 20, PANEL_Y + 438, 1, hint, "A / D: Change value");
    draw_text(fb, PANEL_X + 20, PANEL_Y + 456, 1, hint, "R: Rescan ROMs");
    draw_text(fb, PANEL_X + 20, PANEL_Y + 474, 1, hint, "Enter: Launch game");
}

// ---------------------------------------------------------------------------
// The screen
// ---------------------------------------------------------------------------

pub open spec fn spec_launcher(fb: Seq<u32>, v: LauncherView, rom_dir: Seq<char>) -> Seq<u32> {
    let f1 = spec_draw_text(fb, 48, 44, 3, 0xFFF6_F6F8, "GBA Library"@);
    let f2 = spec_draw_text(
        f1,
        48,
        84,
        1,
        0xFFB9_C3D1,
        "Nintendo Switch-inspired launcher | Left/Right: game | Up/Down: setting | A/D: change | Enter: launch"@,
    );
    let f3 = small_text(f2, 48, 112, 0xFF9D_A7B6, "ROM Directory: "@ + rom_dir);
    let f4 = spec_game_carousel(f3, v);
    let f5 = spec_settings_panel(f4, v);
    if v.roms.len() == 0 {
        let f6 = spec_draw_rect(f5, 72, 220, 760, 96, 0xAA33_2B2B);
        spec_draw_text(f6, 98, 258, 2, 0xFFFF_DDDD, "No .gba ROMs found in current directory."@)
    } else {
        f5
    }
}

/// Draws the launcher screen over the background: title, key help, the ROM directory
/// (`rom_dir` as shown to the player), the carousel, the settings panel, and a notice
/// when there is no ROM.
pub fn draw_launcher(fb: &mut Vec<u32>, state: &LauncherState, rom_dir: &str)
    requires
        old(fb)@.len() == UI_PIXELS,
    ensures
        final(fb)@ == spec_launcher(old(fb)@, state@, rom_dir@),
        final(fb)@.len() == UI_PIXELS,
{
    proof {
        reveal_strlit("GBA Library");
        assert("GBA Library"@.len() < 200);
        reveal_strlit(
            "Nintendo Switch-inspired launcher | Left/Right: game | Up/Down: setting | A/D: change | Enter: launch",
        );
        reveal_strlit("No .gba ROMs found in current directory.");
        assert("No .gba ROMs found in current directory."@.len() < 200);
    }
    draw_text(fb, 48, 44, 3, 0xFFF6_F6F8, "GBA Library");
    assert("Nintendo Switch-inspired launcher | Left/Right: game | Up/Down: setting | A/D: change | Enter: launch"@.len() < 200);
    draw_text(
        fb,
        48,
        84,
        1,
        0xFFB9_C3D1,
        "Nintendo Switch-inspired launcher | Left/Right: game | Up/Down: setting | A/D: change | Enter: launch",
    );
    let mut dir_line: Vec<char> = Vec::new();
    push_str(&mut dir_line, "ROM Directory: ");
    push_str(&mut dir_line, rom_dir);
    small_chars_exec(fb, 48, 112, 0xFF9D_A7B6, &dir_line);
    draw_game_carousel(fb, state);
    draw_settings_panel(fb, state);
    if state.roms().len() == 0 {
        draw_rect(fb, 72, 220, 760, 96, 0xAA33_2B2B);
        draw_text(fb, 98, 258, 2, 0xFFFF_DDDD, "No .gba ROMs found in current directory.");
    }
}

} // verus!
