//! Command-line arguments of the emulator.
use vstd::prelude::*;

verus! {

/// The settings given on the command line.
#[derive(Debug, Clone)]
pub struct CliArgs {
    pub rom_path: Option<String>,
    pub bios_path: Option<String>,
    pub speed_multiplier: Option<u32>,
    pub frames: Option<u32>,
    pub debug_interval: Option<u32>,
    pub stuck_threshold: Option<u32>,
    pub bios_watchdog: Option<u32>,
    pub trace_branches: bool,
    pub launcher: bool,
    pub roms_dir: Option<String>,
    pub window_scale: Option<u32>,
}

impl CliArgs {
    /// Whether the launcher picks the game: asked for, or no ROM given.
    pub fn wants_launcher(&self) -> (r: bool)
        ensures
            r == (self.launcher || self.rom_path is None),
    {
        self.launcher || self.rom_path.is_none()
    }
}

/// An option that takes a value.
#[derive(Debug, Clone, Copy, PartialEq, Eq, Structural)]
pub enum CliFlag {
    Rom,
    Bios,
    Frames,
    Speed,
    DebugInterval,
    StuckThreshold,
    BiosWatchdog,
    RomsDir,
    Scale,
}

/// The option as written on the command line.
pub open spec fn flag_text(f: CliFlag) -> Seq<char> {
    match f {
        CliFlag::Rom => "--rom"@,
        CliFlag::Bios => "--bios"@,
        CliFlag::Frames => "--frames"@,
        CliFlag::Speed => "--speed"@,
        CliFlag::DebugInterval => "--debug-interval"@,
        CliFlag::StuckThreshold => "--stuck-threshold"@,
        CliFlag::BiosWatchdog => "--bios-watchdog"@,
        CliFlag::RomsDir => "--roms-dir"@,
        CliFlag::Scale => "--scale"@,
    }
}

impl CliFlag {
    /// The option as written on the command line.
    pub fn name(&self) -> (r: &'static str)
        ensures
            r@ == flag_text(*self),
    {
        match self {
            CliFlag::Rom => "--rom",
            CliFlag::Bios => "--bios",
            CliFlag::Frames => "--frames",
            CliFlag::Speed => "--speed",
            CliFlag::DebugInterval => "--debug-interval",
            CliFlag::StuckThreshold => "--stuck-threshold",
            CliFlag::BiosWatchdog => "--bios-watchdog",
            CliFlag::RomsDir => "--roms-dir",
            CliFlag::Scale => "--scale",
        }
    }
}

/// Why the command line was not accepted (or help was asked for).
#[derive(Debug, Clone)]
pub enum CliError {
    /// The option is the last argument.
    MissingValue(CliFlag),
    /// The option's value is not a decimal `u32`.
    InvalidNumber(CliFlag, String),
    /// `--speed` outside 1..=3 or `--scale` outside 1..=6.
    OutOfRange(CliFlag, u32),
    UnknownArgument(String),
    HelpRequested,
    /// No `--rom` was given and the launcher was not asked for.
    MissingRom,
}

/// Lowest and highest `--speed`.
pub const MIN_SPEED: u32 = 1;
pub const MAX_SPEED: u32 = 3;
/// Lowest and highest `--scale`.
pub const MIN_SCALE: u32 = 1;
pub const MAX_SCALE: u32 = 6;

// ---------------------------------------------------------------------------
// Decimal numbers
// ---------------------------------------------------------------------------

pub open spec fn is_decimal_digit(c: char) -> bool {
    '0' <= c && c <= '9'
}

pub open spec fn all_decimal(s: Seq<char>) -> bool {
    forall|i: int| 0 <= i < s.len() ==> is_decimal_digit(#[trigger] s[i])
}

pub open spec fn decimal_value(s: Seq<char>) -> nat
    decreases s.len(),
{
    if s.len() == 0 {
        0
    } else {
        decimal_value(s.drop_last()) * 10 + (s.last() as nat - '0' as nat) as nat
    }
}

/// `u32` parsing of decimal text: an optional `+`, then at least one digit, with a
/// value that fits in `u32`; anything else (signs, spaces, other characters) fails.
pub open spec fn spec_parse_u32(s: Seq<char>) -> Option<u32> {
    let digits = if s.len() > 0 && s[0] == '+' {
        s.drop_first()
    } else {
        s
    };
    if digits.len() > 0 && all_decimal(digits) && decimal_value(digits) <= u32::MAX {
        Some(decimal_value(digits) as u32)
    } else {
        None
    }
}

proof fn lemma_decimal_value_grows(s: Seq<char>, k: int)
    requires
        all_decimal(s),
        0 <= k <= s.len(),
    ensures
        decimal_value(s.subrange(0, k)) <= decimal_value(s),
    decreases s.len() - k,
{
    if k < s.len() {
        lemma_decimal_value_grows(s, k + 1);
        let t = s.subrange(0, k + 1);
        assert(t.drop_last() =~= s.subrange(0, k));
        assert(is_decimal_digit(s[k]));
    } else {
        assert(s.subrange(0, k) =~= s);
    }
}

/// Parses decimal text as `u32` (see `spec_parse_u32`).
pub fn parse_u32(s: &str) -> (r: Option<u32>)
    ensures
        r == spec_parse_u32(s@),
{
    let n = s.unicode_len();
    let mut start: usize = 0;
    if n > 0 && s.get_char(0) == '+' {
        start = 1;
    }
    let ghost digits = if s@.len() > 0 && s@[0] == '+' {
        s@.drop_first()
    } else {
        s@
    };
    assert(digits =~= s@.subrange(start as int, n as int));
    if start >= n {
        return None;
    }
    let mut value: u32 = 0;
    let mut i: usize = start;
    while i < n
        invariant
            start <= i <= n,
            n == s@.len(),
            start < n,
            digits =~= s@.subrange(start as int, n as int),
            digits == (if s@.len() > 0 && s@[0] == '+' {
                s@.drop_first()
            } else {
                s@
            }),
            all_decimal(s@.subrange(start as int, i as int)),
            value == decimal_value(s@.subrange(start as int, i as int)),
        decreases n - i,
    {
        let c = s.get_char(i);
        if !('0' <= c && c <= '9') {
            assert(!all_decimal(digits)) by {
                assert(digits[i - start] == c);
                assert(!is_decimal_digit(digits[i - start]));
            }
            return None;
        }
        let d = (c as u32) - ('0' as u32);
        let ghost next = s@.subrange(start as int, i + 1);
        assert(next.drop_last() =~= s@.subrange(start as int, i as int));
        assert(all_decimal(next)) by {
            assert forall|j: int| 0 <= j < next.len() implies is_decimal_digit(#[trigger] next[j]) by {
                if j < next.len() - 1 {
                    assert(next[j] == s@.subrange(start as int, i as int)[j]);
                }
            }
        }
        assert(next.last() == c);
        assert(decimal_value(next) == value * 10 + d);
        if value > 429_496_729 || (value == 429_496_729 && d > 5) {
            assert(decimal_value(next) > u32::MAX);
            proof {
                if all_decimal(digits) {
                    lemma_decimal_value_grows(digits, i + 1 - start);
                    assert(digits.subrange(0, i + 1 - start) =~= next);
                }
            }
            return None;
        }
        value = value * 10 + d;
        i = i + 1;
    }
    Some(value)
}

// ---------------------------------------------------------------------------
// Arguments
// ---------------------------------------------------------------------------

pub open spec fn empty_cli_args() -> CliArgs {
    CliArgs {
        rom_path: None,
        bios_path: None,
        speed_multiplier: None,
        frames: None,
        debug_interval: None,
        stuck_threshold: None,
        bios_watchdog: None,
        trace_branches: false,
        launcher: false,
        roms_dir: None,
        window_scale: None,
    }
}

/// A ROM is required unless the launcher, which picks one, was asked for.
pub open spec fn finish_cli_args(a: CliArgs) -> Result<CliArgs, CliError> {
    if a.rom_path is None && !a.launcher {
        Err(CliError::MissingRom)
    } else {
        Ok(a)
    }
}

/// The numeric value of option `flag` at `args[i]`, checked against `lo..=hi`.
pub open spec fn number_arg(args: Seq<String>, i: int, flag: CliFlag, lo: u32, hi: u32) -> Result<u32, CliError> {
    if i + 1 >= args.len() {
        Err(CliError::MissingValue(flag))
    } else {
        match spec_parse_u32(args[i + 1]@) {
            None => Err(CliError::InvalidNumber(flag, args[i + 1])),
            Some(v) => if lo <= v && v <= hi {
                Ok(v)
            } else {
                Err(CliError::OutOfRange(flag, v))
            },
        }
    }
}

/// The arguments from `args[i]` on, applied over `acc`.
pub open spec fn parse_args_from(args: Seq<String>, i: int, acc: CliArgs) -> Result<CliArgs, CliError>
    decreases args.len() - i,
{
    if i >= args.len() || i < 0 {
        finish_cli_args(acc)
    } else {
        let a = args[i]@;
        if a == "--rom"@ || a == "--bios"@ || a == "--roms-dir"@ {
            if i + 1 >= args.len() {
                Err(
                    CliError::MissingValue(
                        if a == "--rom"@ {
                            CliFlag::Rom
                        } else if a == "--bios"@ {
                            CliFlag::Bios
                        } else {
                            CliFlag::RomsDir
                        },
                    ),
                )
            } else {
                let v = Some(args[i + 1]);
                let acc1 = if a == "--rom"@ {
                    CliArgs { rom_path: v, ..acc }
                } else if a == "--bios"@ {
                    CliArgs { bios_path: v, ..acc }
                } else {
                    CliArgs { roms_dir: v, ..acc }
                };
                parse_args_from(args, i + 2, acc1)
            }
        } else if a == "--frames"@ || a == "--speed"@ || a == "--debug-interval"@ || a
            == "--stuck-threshold"@ || a == "--bios-watchdog"@ || a == "--scale"@ {
            let flag = if a == "--frames"@ {
                CliFlag::Frames
            } else if a == "--speed"@ {
                CliFlag::Speed
            } else if a == "--debug-interval"@ {
                CliFlag::DebugInterval
            } else if a == "--stuck-threshold"@ {
                CliFlag::StuckThreshold
            } else if a == "--bios-watchdog"@ {
                CliFlag::BiosWatchdog
            } else {
                CliFlag::Scale
            };
            let (lo, hi) = if flag == CliFlag::Speed {
                (MIN_SPEED, MAX_SPEED)
            } else if flag == CliFlag::Scale {
                (MIN_SCALE, MAX_SCALE)
            } else {
                (0u32, u32::MAX)
            };
            match number_arg(args, i, flag, lo, hi) {
                Err(e) => Err(e),
                Ok(v) => {
                    let acc1 = if flag == CliFlag::Frames {
                        CliArgs { frames: Some(v), ..acc }
                    } else if flag == CliFlag::Speed {
                        CliArgs { speed_multiplier: Some(v), ..acc }
                    } else if flag == CliFlag::DebugInterval {
                        CliArgs { debug_interval: Some(v), ..acc }
                    } else if flag == CliFlag::StuckThreshold {
                        CliArgs { stuck_threshold: Some(v), ..acc }
                    } else if flag == CliFlag::BiosWatchdog {
                        CliArgs { bios_watchdog: Some(v), ..acc }
                    } else {
                        CliArgs { window_scale: Some(v), ..acc }
                    };
                    parse_args_from(args, i + 2, acc1)
                },
            }
        } else if a == "--trace-branches"@ {
            parse_args_from(args, i + 1, CliArgs { trace_branches: true, ..acc })
        } else if a == "--launcher"@ {
            parse_args_from(args, i + 1, CliArgs { launcher: true, ..acc })
        } else if a == "-h"@ || a == "--help"@ {
            Err(CliError::HelpRequested)
        } else {
            Err(CliError::UnknownArgument(args[i]))
        }
    }
}

/// The command line (without the program name) read from left to right; a later
/// option overrides an earlier one.
pub open spec fn spec_parse_args(args: Seq<String>) -> Result<CliArgs, CliError> {
    parse_args_from(args, 0, empty_cli_args())
}

fn is_arg(arg: &String, text: &str) -> (r: bool)
    ensures
        r == (arg@ == text@),
{
    let owned = text.to_owned();
    *arg == owned
}

fn parse_u32_arg(args: &Vec<String>, i: usize, flag: CliFlag, lo: u32, hi: u32) -> (r: Result<u32, CliError>)
    requires
        i < args.len(),
    ensures
        r == number_arg(args@, i as int, flag, lo, hi),
{
    if i + 1 >= args.len() {
        return Err(CliError::MissingValue(flag));
    }
    match parse_u32(args[i + 1].as_str()) {
        None => Err(CliError::InvalidNumber(flag, args[i + 1].clone())),
        Some(v) => {
            if lo <= v && v <= hi {
                Ok(v)
            } else {
                Err(CliError::OutOfRange(flag, v))
            }
        },
    }
}

/// Reads the command line (without the program name).
pub fn parse_args(args: &Vec<String>) -> (r: Result<CliArgs, CliError>)
    ensures
        r == spec_parse_args(args@),
{
    let mut acc = CliArgs {
        rom_path: None,
        bios_path: None,
        speed_multiplier: None,
        frames: None,
        debug_interval: None,
        stuck_threshold: None,
        bios_watchdog: None,
        trace_branches: false,
        launcher: false,
        roms_dir: None,
        window_scale: None,
    };
    let mut i: usize = 0;
    while i < args.len()
        invariant
            i <= args.len(),
            parse_args_from(args@, i as int, acc) == spec_parse_args(args@),
        decreases args.len() - i,
    {
        let arg = &args[i];
        let is_rom = is_arg(arg, "--rom");
        let is_bios = is_arg(arg, "--bios");
        let is_roms_dir = is_arg(arg, "--roms-dir");
        if is_rom || is_bios || is_roms_dir {
            let flag = if is_rom {
                CliFlag::Rom
            } else if is_bios {
                CliFlag::Bios
            } else {
                CliFlag::RomsDir
            };
            if i + 1 >= args.len() {
                return Err(CliError::MissingValue(flag));
            }
            let v = Some(args[i + 1].clone());
            if is_rom {
                acc.rom_path = v;
            } else if is_bios {
                acc.bios_path = v;
            } else {
                acc.roms_dir = v;
            }
            i = i + 2;
            continue;
        }
        let is_frames = is_arg(arg, "--frames");
        let is_speed = is_arg(arg, "--speed");
        let is_interval = is_arg(arg, "--debug-interval");
        let is_stuck = is_arg(arg, "--stuck-threshold");
        let is_watchdog = is_arg(arg, "--bios-watchdog");
        let is_scale = is_arg(arg, "--scale");
        if is_frames || is_speed || is_interval || is_stuck || is_watchdog || is_scale {
            let flag = if is_frames {
                CliFlag::Frames
            } else if is_speed {
                CliFlag::Speed
            } else if is_interval {
                CliFlag::DebugInterval
            } else if is_stuck {
                CliFlag::StuckThreshold
            } else if is_watchdog {
                CliFlag::BiosWatchdog
            } else {
                CliFlag::Scale
            };
            let (lo, hi) = match flag {
                CliFlag::Speed => (MIN_SPEED, MAX_SPEED),
                CliFlag::Scale => (MIN_SCALE, MAX_SCALE),
                _ => (0u32, u32::MAX),
            };
            let v = match parse_u32_arg(args, i, flag, lo, hi) {
                Err(e) => {
                    return Err(e);
                },
                Ok(v) => v,
            };
            match flag {
                CliFlag::Frames => acc.frames = Some(v),
                CliFlag::Speed => acc.speed_multiplier = Some(v),
                CliFlag::DebugInterval => acc.debug_interval = Some(v),
                CliFlag::StuckThreshold => acc.stuck_threshold = Some(v),
                CliFlag::BiosWatchdog => acc.bios_watchdog = Some(v),
                _ => acc.window_scale = Some(v),
            }
            i = i + 2;
            continue;
        }
        if is_arg(arg, "--trace-branches") {
            acc.trace_branches = true;
        } else if is_arg(arg, "--launcher") {
            acc.launcher = true;
        } else if is_arg(arg, "-h") || is_arg(arg, "--help") {
            return Err(CliError::HelpRequested);
        } else {
            return Err(CliError::UnknownArgument(arg.clone()));
        }
        i = i + 1;
    }
    if acc.rom_path.is_none() && !acc.launcher {
        return Err(CliError::MissingRom);
    }
    Ok(acc)
}

proof fn lemma_parse_from_rom_or_launcher(args: Seq<String>, i: int, acc: CliArgs)
    ensures
        parse_args_from(args, i, acc) matches Ok(a) ==> (a.rom_path is Some || a.launcher),
    decreases args.len() - i,
{
    if 0 <= i < args.len() {
        let a = args[i]@;
        lemma_parse_from_rom_or_launcher(args, i + 1, CliArgs { trace_branches: true, ..acc });
        lemma_parse_from_rom_or_launcher(args, i + 1, CliArgs { launcher: true, ..acc });
        if i + 1 < args.len() {
            let v = Some(args[i + 1]);
            lemma_parse_from_rom_or_launcher(args, i + 2, CliArgs { rom_path: v, ..acc });
            lemma_parse_from_rom_or_launcher(args, i + 2, CliArgs { bios_path: v, ..acc });
            lemma_parse_from_rom_or_launcher(args, i + 2, CliArgs { roms_dir: v, ..acc });
            if let Some(n) = spec_parse_u32(args[i + 1]@) {
                lemma_parse_from_rom_or_launcher(args, i + 2, CliArgs { frames: Some(n), ..acc });
                lemma_parse_from_rom_or_launcher(args, i + 2, CliArgs { speed_multiplier: Some(n), ..acc });
                lemma_parse_from_rom_or_launcher(args, i + 2, CliArgs { debug_interval: Some(n), ..acc });
                lemma_parse_from_rom_or_launcher(args, i + 2, CliArgs { stuck_threshold: Some(n), ..acc });
                lemma_parse_from_rom_or_launcher(args, i + 2, CliArgs { bios_watchdog: Some(n), ..acc });
                lemma_parse_from_rom_or_launcher(args, i + 2, CliArgs { window_scale: Some(n), ..acc });
            }
        }
    }
}

/// `--rom` is required: an accepted command line names a ROM, unless it asks for the
/// launcher, which picks one.
pub proof fn law_rom_required(args: Seq<String>)
    ensures
        spec_parse_args(args) matches Ok(a) ==> (a.rom_path is Some || a.launcher),
{
    lemma_parse_from_rom_or_launcher(args, 0, empty_cli_args());
}

} // verus!
