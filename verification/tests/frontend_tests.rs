use gba_emu::gba::DebugSnapshot;
use gba_emu::launcher::{is_gba_extension, LauncherAudioOutput, LauncherKeys, LauncherState, RomEntry};
use gba_emu::progress::{is_probably_executable, update_progress, DebugOptions, ProgressState};
use gba_emu::session::{
    bios_watchdog_step, key_mask, next_speed, normalize_speed, session_debug_options,
    window_scale_factor, HeldKeys,
};

fn snap_at(pc: u32) -> DebugSnapshot {
    let mut gba = gba_emu::gba::Gba::new();
    gba.cpu.set_pc(pc);
    gba.debug_snapshot()
}

fn no_debug() -> DebugOptions {
    DebugOptions { interval_frames: None, stuck_threshold: None, bios_watchdog_frames: None }
}

#[test]
fn executable_regions() {
    assert!(is_probably_executable(0x0000_0100));
    assert!(is_probably_executable(0x0200_0000));
    assert!(is_probably_executable(0x03FF_FFFF));
    assert!(is_probably_executable(0x0800_0000));
    assert!(!is_probably_executable(0x0400_0000));
    assert!(!is_probably_executable(0x0E00_0000));
    assert!(!is_probably_executable(0x0000_4000));
}

#[test]
fn progress_counts_same_pc_frames_and_reports_stuck() {
    let mut state = ProgressState { last_pc: 0x0800_0000, same_pc_frames: 0 };
    let debug = DebugOptions { interval_frames: Some(2), stuck_threshold: Some(2), bios_watchdog_frames: None };
    let snap = snap_at(0x0800_0000);
    let r1 = update_progress(1, &snap, debug, &mut state);
    assert_eq!(r1.same_pc_frames, 1);
    assert!(!r1.potential_stuck);
    assert!(!r1.log_snapshot);
    let r2 = update_progress(2, &snap, debug, &mut state);
    assert_eq!(r2.same_pc_frames, 2);
    assert!(r2.potential_stuck);
    assert!(r2.log_snapshot);
    let r3 = update_progress(3, &snap, debug, &mut state);
    assert!(!r3.potential_stuck);
}

#[test]
fn progress_reports_anomalies() {
    let mut state = ProgressState { last_pc: 0x0800_0000, same_pc_frames: 5 };
    let r = update_progress(1, &snap_at(0x0400_0000), no_debug(), &mut state);
    assert!(r.non_exec_pc);
    assert!(r.large_pc_jump);
    assert_eq!(r.prev_pc, 0x0800_0000);
    assert_eq!(r.pc_delta, 0xFC00_0000);
    assert_eq!(state.last_pc, 0x0400_0000);
    assert_eq!(state.same_pc_frames, 0);
    let r2 = update_progress(2, &snap_at(0x0400_0010), no_debug(), &mut state);
    assert!(!r2.large_pc_jump);
}

#[test]
fn speed_helpers() {
    assert_eq!(normalize_speed(0), 1);
    assert_eq!(normalize_speed(3), 3);
    assert_eq!(normalize_speed(4), 1);
    assert_eq!(next_speed(1), 2);
    assert_eq!(next_speed(2), 3);
    assert_eq!(next_speed(3), 1);
}

#[test]
fn window_scales() {
    let got: Vec<u32> = (0..8).map(window_scale_factor).collect();
    assert_eq!(got, vec![4, 1, 2, 4, 8, 16, 32, 4]);
}

#[test]
fn keys_to_button_mask() {
    let k = HeldKeys {
        a: true, b: false, select: false, start: true, right: false, left: true, up: false,
        down: false, r: false, l: true,
    };
    assert_eq!(key_mask(&k), 0x0001 | 0x0008 | 0x0020 | 0x0200);
}

#[test]
fn watchdog_fires_once_at_limit() {
    let (f1, t1) = bios_watchdog_step(0, 0x100, Some(2));
    assert_eq!((f1, t1), (1, false));
    let (f2, t2) = bios_watchdog_step(f1, 0x100, Some(2));
    assert_eq!((f2, t2), (2, true));
    let (f3, t3) = bios_watchdog_step(f2, 0x100, Some(2));
    assert_eq!((f3, t3), (3, false));
    assert_eq!(bios_watchdog_step(f3, 0x0800_0000, Some(2)), (0, false));
    assert_eq!(bios_watchdog_step(1, 0, Some(0)), (2, false));
}

#[test]
fn default_watchdog_only_for_windowed_bios_sessions() {
    assert_eq!(session_debug_options(no_debug(), false, true).bios_watchdog_frames, Some(240));
    assert_eq!(session_debug_options(no_debug(), true, true).bios_watchdog_frames, None);
    assert_eq!(session_debug_options(no_debug(), false, false).bios_watchdog_frames, None);
    let given = DebugOptions { bios_watchdog_frames: Some(7), ..no_debug() };
    assert_eq!(session_debug_options(given, false, true).bios_watchdog_frames, Some(7));
}

fn keys() -> LauncherKeys {
    LauncherKeys { left: false, right: false, up: false, down: false, lower: false, raise: false }
}

fn roms(n: usize) -> Vec<RomEntry> {
    (0..n)
        .map(|i| RomEntry { path: format!("dir/rom{i}.gba"), name: Some(format!("rom{i}.gba")) })
        .collect()
}

#[test]
fn launcher_defaults() {
    let s = LauncherState::new(roms(2), None, None, 9, "none".to_string());
    assert_eq!(s.scale(), 6);
    assert!(!s.use_bios());
    assert_eq!(s.master_volume_percent(), 80);
    assert_eq!(s.audio_output(), LauncherAudioOutput::Default);
    let t = LauncherState::new(roms(2), Some("bios.bin".to_string()), Some("bios.bin".to_string()), 0, "none".to_string());
    assert_eq!(t.scale(), 1);
    assert!(t.use_bios());
}

#[test]
fn launcher_navigation_is_clamped() {
    let mut s = LauncherState::new(roms(2), None, None, 4, String::new());
    s.handle_input(LauncherKeys { left: true, ..keys() });
    assert_eq!(s.selected_rom(), 0);
    s.handle_input(LauncherKeys { right: true, ..keys() });
    s.handle_input(LauncherKeys { right: true, ..keys() });
    assert_eq!(s.selected_rom(), 1);
    for _ in 0..5 {
        s.handle_input(LauncherKeys { down: true, ..keys() });
    }
    assert_eq!(s.selected_setting(), 3);
    s.handle_input(LauncherKeys { up: true, ..keys() });
    assert_eq!(s.selected_setting(), 2);
}

#[test]
fn launcher_settings_change() {
    let mut s = LauncherState::new(roms(1), Some("b.bin".to_string()), None, 5, String::new());
    s.adjust_setting(true);
    s.adjust_setting(true);
    assert_eq!(s.scale(), 6);
    for _ in 0..10 {
        s.adjust_setting(false);
    }
    assert_eq!(s.scale(), 1);
    s.handle_input(LauncherKeys { down: true, ..keys() });
    s.adjust_setting(true);
    assert!(!s.use_bios());
    s.handle_input(LauncherKeys { down: true, ..keys() });
    s.adjust_setting(false);
    assert_eq!(s.audio_output(), LauncherAudioOutput::Muted);
    s.handle_input(LauncherKeys { down: true, ..keys() });
    for _ in 0..10 {
        s.adjust_setting(true);
    }
    assert_eq!(s.master_volume_percent(), 100);
    for _ in 0..30 {
        s.adjust_setting(false);
    }
    assert_eq!(s.master_volume_percent(), 0);
}

#[test]
fn launcher_choice() {
    let mut s = LauncherState::new(roms(3), Some("b.bin".to_string()), None, 2, String::new());
    s.handle_input(LauncherKeys { right: true, ..keys() });
    let c = s.finalize_selection().unwrap();
    assert_eq!(c.rom_path, "dir/rom1.gba");
    assert_eq!(c.bios_path.as_deref(), Some("b.bin"));
    assert_eq!(c.scale, 2);
    assert_eq!(c.master_volume_percent, 80);
    let empty = LauncherState::new(Vec::new(), None, None, 2, String::new());
    assert!(empty.finalize_selection().is_none());
}

#[test]
fn launcher_rescan_resets_selection() {
    let mut s = LauncherState::new(roms(3), None, None, 2, String::new());
    s.handle_input(LauncherKeys { right: true, ..keys() });
    s.handle_input(LauncherKeys { right: true, ..keys() });
    assert_eq!(s.selected_rom(), 2);
    s.set_roms(roms(2));
    assert_eq!(s.selected_rom(), 0);
}

#[test]
fn carousel_window() {
    let mut s = LauncherState::new(roms(6), None, None, 2, String::new());
    assert_eq!(s.visible_range(), (0, 4));
    for _ in 0..4 {
        s.handle_input(LauncherKeys { right: true, ..keys() });
    }
    assert_eq!(s.visible_range(), (3, 6));
}

#[test]
fn gba_extension() {
    assert!(is_gba_extension("gba"));
    assert!(is_gba_extension("GbA"));
    assert!(!is_gba_extension("gb"));
    assert!(!is_gba_extension("gbc"));
    assert!(!is_gba_extension("gbaa"));
}

#[test]
fn key_mask_of_z_enter_up() {
    let keys = HeldKeys {
        a: true,
        b: false,
        select: false,
        start: true,
        right: false,
        left: false,
        up: true,
        down: false,
        r: false,
        l: false,
    };
    assert_eq!(key_mask(&keys), 0x0049);
}
