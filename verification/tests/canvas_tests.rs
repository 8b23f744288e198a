use gba_emu::canvas::{
    draw_char, draw_outline, draw_text, draw_wrapped_text, draw_rect, is_white_space, pack_rgb,
    split_whitespace_words, UI_HEIGHT, UI_WIDTH,
};

fn canvas() -> Vec<u32> {
    vec![0u32; UI_WIDTH * UI_HEIGHT]
}

fn lit(fb: &[u32], x: usize, y: usize) -> u32 {
    fb[y * UI_WIDTH + x]
}

#[test]
fn pack_rgb_value() {
    assert_eq!(pack_rgb(0x12, 0x34, 0x56), 0xFF12_3456);
}

#[test]
fn rect_is_clipped() {
    let mut fb = canvas();
    draw_rect(&mut fb, -5, -5, 10, 10, 7);
    assert_eq!(lit(&fb, 0, 0), 7);
    assert_eq!(lit(&fb, 4, 4), 7);
    assert_eq!(lit(&fb, 5, 4), 0);
    draw_rect(&mut fb, 1275, 715, 100, 100, 9);
    assert_eq!(lit(&fb, 1279, 719), 9);
    assert_eq!(lit(&fb, 1274, 719), 0);
    assert_eq!(fb.iter().filter(|&&p| p != 0).count(), 25 + 25);
}

#[test]
fn empty_rect_draws_nothing() {
    let mut fb = canvas();
    draw_rect(&mut fb, 10, 10, 0, 5, 1);
    draw_rect(&mut fb, 10, 10, 5, -1, 1);
    assert!(fb.iter().all(|&p| p == 0));
}

#[test]
fn outline_leaves_inside() {
    let mut fb = canvas();
    draw_outline(&mut fb, 10, 10, 20, 10, 3, 2);
    assert_eq!(lit(&fb, 10, 10), 3);
    assert_eq!(lit(&fb, 29, 19), 3);
    assert_eq!(lit(&fb, 15, 15), 0);
    assert_eq!(lit(&fb, 11, 15), 3);
}

#[test]
fn glyph_pixels() {
    let mut fb = canvas();
    // 'I' in the basic font has its top row 0x1E (columns 1..=4).
    draw_char(&mut fb, 0, 0, 1, 5, 'I');
    assert_eq!(lit(&fb, 0, 0), 0);
    assert_eq!(lit(&fb, 1, 0), 5);
    assert_eq!(lit(&fb, 4, 0), 5);
    assert_eq!(lit(&fb, 5, 0), 0);
}

#[test]
fn non_latin_character_draws_question_mark() {
    let mut a = canvas();
    let mut b = canvas();
    draw_char(&mut a, 0, 0, 2, 1, 'é');
    draw_char(&mut b, 0, 0, 2, 1, '?');
    assert_eq!(a, b);
    assert!(a.iter().any(|&p| p == 1));
}

#[test]
fn text_advances_eight_pixels_per_scale() {
    let mut a = canvas();
    let mut b = canvas();
    draw_text(&mut a, 0, 0, 2, 1, "AB");
    draw_char(&mut b, 0, 0, 2, 1, 'A');
    draw_char(&mut b, 16, 0, 2, 1, 'B');
    assert_eq!(a, b);
}

#[test]
fn white_space_matches_std() {
    for c in ['\t', '\n', ' ', '\u{85}', '\u{A0}', '\u{2009}', '\u{3000}', 'a', '0', '\u{200B}', '\u{FEFF}'] {
        assert_eq!(is_white_space(c), c.is_whitespace(), "{:?}", c);
    }
    for u in 0..0x3100u32 {
        if let Some(c) = char::from_u32(u) {
            assert_eq!(is_white_space(c), c.is_whitespace(), "{:?}", c);
        }
    }
}

#[test]
fn words_split_like_std() {
    for text in ["  hello   world ", "one", "", "   ", "a\tb\nc", "x\u{3000}y"] {
        let chars: Vec<char> = text.chars().collect();
        let got: Vec<String> = split_whitespace_words(&chars).iter().map(|w| w.iter().collect()).collect();
        let want: Vec<String> = text.split_whitespace().map(|w| w.to_string()).collect();
        assert_eq!(got, want);
    }
}

#[test]
fn wrapped_text_breaks_lines() {
    let mut a = canvas();
    let mut b = canvas();
    // 48 pixels at scale 1 hold 6 characters: "aa bb" fits, "cc" goes below.
    draw_wrapped_text(&mut a, 0, 0, 48, 1, 1, "aa bb cc");
    draw_text(&mut b, 0, 0, 1, 1, "aa bb");
    draw_text(&mut b, 0, 10, 1, 1, "cc");
    assert_eq!(a, b);
}

#[test]
fn wrapped_text_stops_after_three_lines() {
    let mut a = canvas();
    let mut b = canvas();
    // 16 pixels hold 2 characters: no word fits after a separator, so the first line
    // stays blank, "aa" and "bb" take lines two and three, and the rest is dropped.
    draw_wrapped_text(&mut a, 0, 0, 16, 1, 1, "aa bb cc dd");
    draw_text(&mut b, 0, 10, 1, 1, "aa");
    draw_text(&mut b, 0, 20, 1, 1, "bb");
    assert_eq!(a, b);
}

use gba_emu::launcher::{LauncherKeys, LauncherState, RomEntry};
use gba_emu::launcher_view::{draw_game_carousel, draw_launcher, draw_settings_panel};

fn launcher(n: usize) -> LauncherState {
    let roms = (0..n)
        .map(|i| RomEntry { path: format!("r/{i}.gba"), name: if i == 1 { None } else { Some(format!("game {i}")) } })
        .collect();
    LauncherState::new(roms, Some("b/gba_bios.bin".to_string()), Some("gba_bios.bin".to_string()), 2, "none".to_string())
}

#[test]
fn carousel_draws_selected_card_frame() {
    let mut fb = canvas();
    draw_game_carousel(&mut fb, &launcher(3));
    // Selected card (slot 0) has the cyan frame at its top-left corner.
    assert_eq!(lit(&fb, 72, 178), 0xFF45_D6E8);
    // Second card (slot 1) is not selected.
    assert_eq!(lit(&fb, 72 + 258, 178), 0xFF4A_576B);
    // No fourth card for three ROMs.
    assert_eq!(lit(&fb, 72 + 3 * 258, 178), 0);
}

#[test]
fn carousel_card_shows_unknown_name_without_file_name() {
    let mut a = canvas();
    let mut s = launcher(3);
    s.handle_input(LauncherKeys { left: false, right: true, up: false, down: false, lower: false, raise: false });
    draw_game_carousel(&mut a, &s);
    let mut b = a.clone();
    // The card of ROM 1 sits in slot 1; its name line is "unknown.gba".
    draw_text(&mut b, 72 + 258 + 16, 178 + 228, 1, 0xFFEE_F7FF, "unknown.gba");
    assert_eq!(a, b);
}

#[test]
fn settings_rows_show_values() {
    let mut a = canvas();
    let s = launcher(1);
    draw_settings_panel(&mut a, &s);
    let mut b = a.clone();
    draw_text(&mut b, 940, 264 + 16, 1, 0xFFEE_F7FF, "Window Scale: 2x");
    draw_text(&mut b, 940, 330 + 16, 1, 0xFFD2_DBE8, "Use BIOS: gba_bios.bin");
    draw_text(&mut b, 940, 396 + 16, 1, 0xFFD2_DBE8, "Audio Output: Default");
    draw_text(&mut b, 940, 462 + 16, 1, 0xFFD2_DBE8, "Master Volume: 80%");
    assert_eq!(a, b);
}

#[test]
fn empty_library_notice() {
    let mut fb = canvas();
    draw_launcher(&mut fb, &launcher(0), ".");
    assert_eq!(lit(&fb, 72, 220), 0xAA33_2B2B);
    let mut fb2 = canvas();
    draw_launcher(&mut fb2, &launcher(1), ".");
    assert_ne!(lit(&fb2, 80, 230), 0xAA33_2B2B);
}
