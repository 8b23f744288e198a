use gba_emu::cli::{parse_args, parse_u32, CliError, CliFlag};

fn args(list: &[&str]) -> Vec<String> {
    list.iter().map(|s| s.to_string()).collect()
}

#[test]
fn parse_full_command_line() {
    let a = parse_args(&args(&[
        "--rom", "game.gba", "--bios", "bios.bin", "--speed", "2", "--frames", "600",
        "--debug-interval", "60", "--stuck-threshold", "30", "--bios-watchdog", "120",
        "--trace-branches", "--roms-dir", "roms", "--scale", "3",
    ]))
    .unwrap();
    assert_eq!(a.rom_path.as_deref(), Some("game.gba"));
    assert_eq!(a.bios_path.as_deref(), Some("bios.bin"));
    assert_eq!(a.speed_multiplier, Some(2));
    assert_eq!(a.frames, Some(600));
    assert_eq!(a.debug_interval, Some(60));
    assert_eq!(a.stuck_threshold, Some(30));
    assert_eq!(a.bios_watchdog, Some(120));
    assert!(a.trace_branches);
    assert!(!a.launcher);
    assert_eq!(a.roms_dir.as_deref(), Some("roms"));
    assert_eq!(a.window_scale, Some(3));
}

#[test]
fn rom_is_required() {
    match parse_args(&args(&[])) {
        Err(CliError::MissingRom) => {}
        other => panic!("unexpected {:?}", other),
    }
    match parse_args(&args(&["--frames", "10"])) {
        Err(CliError::MissingRom) => {}
        other => panic!("unexpected {:?}", other),
    }
}

#[test]
fn launcher_without_rom_is_accepted() {
    let a = parse_args(&args(&["--launcher", "--frames", "5"])).unwrap();
    assert!(a.launcher);
    assert!(a.rom_path.is_none());
    assert!(a.wants_launcher());
}

#[test]
fn help_wins_over_missing_rom() {
    match parse_args(&args(&["--help"])) {
        Err(CliError::HelpRequested) => {}
        other => panic!("unexpected {:?}", other),
    }
}

#[test]
fn explicit_launcher_with_rom() {
    let a = parse_args(&args(&["--rom", "x.gba", "--launcher"])).unwrap();
    assert!(a.launcher);
}

#[test]
fn later_option_wins() {
    let a = parse_args(&args(&["--rom", "a.gba", "--rom", "b.gba"])).unwrap();
    assert_eq!(a.rom_path.as_deref(), Some("b.gba"));
}

#[test]
fn missing_value_is_reported() {
    match parse_args(&args(&["--rom"])) {
        Err(CliError::MissingValue(CliFlag::Rom)) => {}
        other => panic!("unexpected {:?}", other),
    }
    match parse_args(&args(&["--frames"])) {
        Err(CliError::MissingValue(CliFlag::Frames)) => {}
        other => panic!("unexpected {:?}", other),
    }
}

#[test]
fn invalid_number_is_reported() {
    match parse_args(&args(&["--frames", "ten"])) {
        Err(CliError::InvalidNumber(CliFlag::Frames, v)) => assert_eq!(v, "ten"),
        other => panic!("unexpected {:?}", other),
    }
}

#[test]
fn speed_and_scale_ranges() {
    match parse_args(&args(&["--speed", "4"])) {
        Err(CliError::OutOfRange(CliFlag::Speed, 4)) => {}
        other => panic!("unexpected {:?}", other),
    }
    match parse_args(&args(&["--scale", "0"])) {
        Err(CliError::OutOfRange(CliFlag::Scale, 0)) => {}
        other => panic!("unexpected {:?}", other),
    }
    assert_eq!(parse_args(&args(&["--rom", "g.gba", "--scale", "6"])).unwrap().window_scale, Some(6));
}

#[test]
fn unknown_argument_and_help() {
    match parse_args(&args(&["--fast"])) {
        Err(CliError::UnknownArgument(a)) => assert_eq!(a, "--fast"),
        other => panic!("unexpected {:?}", other),
    }
    assert!(matches!(parse_args(&args(&["-h"])), Err(CliError::HelpRequested)));
    assert!(matches!(parse_args(&args(&["--help", "--bogus"])), Err(CliError::HelpRequested)));
}

#[test]
fn flag_names() {
    assert_eq!(CliFlag::Rom.name(), "--rom");
    assert_eq!(CliFlag::StuckThreshold.name(), "--stuck-threshold");
    assert_eq!(CliFlag::Scale.name(), "--scale");
}

#[test]
fn parse_u32_matches_std() {
    for s in ["0", "7", "+12", "4294967295", "4294967296", "", "+", "-1", " 1", "1 ", "12a", "007", "99999999999"] {
        assert_eq!(parse_u32(s), s.parse::<u32>().ok(), "input {:?}", s);
    }
}
