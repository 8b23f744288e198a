//! State of the game launcher: the ROM carousel, the settings panel and the choice
//! handed to the emulator.
use vstd::prelude::*;

verus! {

/// Where the emulator's sound goes.
#[derive(Debug, Clone, Copy, PartialEq, Eq, Structural)]
pub enum LauncherAudioOutput {
    Default,
    Muted,
}

/// Rows of the settings panel.
pub const SETTING_SCALE: usize = 0;
pub const SETTING_BIOS: usize = 1;
pub const SETTING_AUDIO: usize = 2;
pub const SETTING_VOLUME: usize = 3;

pub const MIN_LAUNCHER_SCALE: u32 = 1;
pub const MAX_LAUNCHER_SCALE: u32 = 6;
pub const DEFAULT_VOLUME_PERCENT: u8 = 80;
pub const VOLUME_STEP: u8 = 5;

/// Cards shown at once in the ROM carousel.
pub const CAROUSEL_SLOTS: usize = 4;

/// Whether a file extension names a GBA ROM (`gba` in any ASCII case).
pub open spec fn spec_is_gba_extension(ext: Seq<char>) -> bool {
    &&& ext.len() == 3
    &&& (ext[0] == 'g' || ext[0] == 'G')
    &&& (ext[1] == 'b' || ext[1] == 'B')
    &&& (ext[2] == 'a' || ext[2] == 'A')
}

pub fn is_gba_extension(ext: &str) -> (r: bool)
    ensures
        r == spec_is_gba_extension(ext@),
{
    if ext.unicode_len() != 3 {
        return false;
    }
    let c0 = ext.get_char(0);
    let c1 = ext.get_char(1);
    let c2 = ext.get_char(2);
    (c0 == 'g' || c0 == 'G') && (c1 == 'b' || c1 == 'B') && (c2 == 'a' || c2 == 'A')
}

/// Keys pressed in one launcher frame.
#[derive(Debug, Clone, Copy)]
pub struct LauncherKeys {
    /// Previous game.
    pub left: bool,
    /// Next game.
    pub right: bool,
    /// Previous setting.
    pub up: bool,
    /// Next setting.
    pub down: bool,
    /// Lower the selected setting.
    pub lower: bool,
    /// Raise the selected setting.
    pub raise: bool,
}

/// A ROM file offered by the launcher: its path, and its file name when it has one.
#[derive(Debug, Clone)]
pub struct RomEntry {
    pub path: String,
    pub name: Option<String>,
}

/// What the player picked.
#[derive(Debug, Clone)]
pub struct LauncherChoice {
    pub rom_path: String,
    pub bios_path: Option<String>,
    pub scale: u32,
    pub audio_output: LauncherAudioOutput,
    pub master_volume_percent: u8,
}

#[verifier::ext_equal]
pub ghost struct LauncherView {
    pub roms: Seq<RomEntry>,
    pub selected_rom: int,
    pub selected_setting: int,
    pub scale: u32,
    pub use_bios: bool,
    pub bios_candidate: Option<String>,
    pub bios_name: Option<String>,
    pub audio_output: LauncherAudioOutput,
    pub master_volume_percent: u8,
    pub audio_backend_info: Seq<char>,
}

impl LauncherView {
    pub open spec fn wf(self) -> bool {
        &&& self.selected_setting <= SETTING_VOLUME
        &&& 0 <= self.selected_setting
        &&& 0 <= self.selected_rom
        &&& MIN_LAUNCHER_SCALE <= self.scale <= MAX_LAUNCHER_SCALE
        &&& self.master_volume_percent <= 100
        &&& self.bios_candidate is None ==> !self.use_bios
    }
}

pub struct LauncherState {
    roms: Vec<RomEntry>,
    selected_rom: usize,
    selected_setting: usize,
    scale: u32,
    use_bios: bool,
    bios_candidate: Option<String>,
    bios_name: Option<String>,
    audio_output: LauncherAudioOutput,
    master_volume_percent: u8,
    audio_backend_info: String,
}

impl View for LauncherState {
    type V = LauncherView;

    closed spec fn view(&self) -> LauncherView {
        LauncherView {
            roms: self.roms@,
            selected_rom: self.selected_rom as int,
            selected_setting: self.selected_setting as int,
            scale: self.scale,
            use_bios: self.use_bios,
            bios_candidate: self.bios_candidate,
            bios_name: self.bios_name,
            audio_output: self.audio_output,
            master_volume_percent: self.master_volume_percent,
            audio_backend_info: self.audio_backend_info@,
        }
    }
}

/// `default_scale` clamped to the launcher's scale range.
pub open spec fn clamp_scale(default_scale: u32) -> u32 {
    if default_scale < MIN_LAUNCHER_SCALE {
        MIN_LAUNCHER_SCALE
    } else if default_scale > MAX_LAUNCHER_SCALE {
        MAX_LAUNCHER_SCALE
    } else {
        default_scale
    }
}

/// The setting row `s` changed by one step (`raise` up, else down).
pub open spec fn spec_adjust(v: LauncherView, raise: bool) -> LauncherView {
    if v.selected_setting == SETTING_SCALE {
        LauncherView {
            scale: if raise {
                if v.scale + 1 > MAX_LAUNCHER_SCALE {
                    MAX_LAUNCHER_SCALE
                } else {
                    (v.scale + 1) as u32
                }
            } else if v.scale <= MIN_LAUNCHER_SCALE + 1 {
                MIN_LAUNCHER_SCALE
            } else {
                (v.scale - 1) as u32
            },
            ..v
        }
    } else if v.selected_setting == SETTING_BIOS {
        if v.bios_candidate is Some {
            LauncherView { use_bios: !v.use_bios, ..v }
        } else {
            v
        }
    } else if v.selected_setting == SETTING_AUDIO {
        LauncherView {
            audio_output: match v.audio_output {
                LauncherAudioOutput::Default => LauncherAudioOutput::Muted,
                LauncherAudioOutput::Muted => LauncherAudioOutput::Default,
            },
            ..v
        }
    } else {
        LauncherView {
            master_volume_percent: if raise {
                if v.master_volume_percent + VOLUME_STEP > 100 {
                    100u8
                } else {
                    (v.master_volume_percent + VOLUME_STEP) as u8
                }
            } else if v.master_volume_percent < VOLUME_STEP {
                0u8
            } else {
                (v.master_volume_percent - VOLUME_STEP) as u8
            },
            ..v
        }
    }
}

/// One frame of launcher keys, handled in the order left, right, up, down, lower, raise.
pub open spec fn spec_handle_input(v: LauncherView, k: LauncherKeys) -> LauncherView {
    let v1 = if k.left && v.selected_rom > 0 {
        LauncherView { selected_rom: v.selected_rom - 1, ..v }
    } else {
        v
    };
    let v2 = if k.right && v1.selected_rom + 1 < v1.roms.len() {
        LauncherView { selected_rom: v1.selected_rom + 1, ..v1 }
    } else {
        v1
    };
    let v3 = if k.up {
        LauncherView {
            selected_setting: if v2.selected_setting > 0 {
                v2.selected_setting - 1
            } else {
                0
            },
            ..v2
        }
    } else {
        v2
    };
    let v4 = if k.down {
        LauncherView {
            selected_setting: if v3.selected_setting + 1 > SETTING_VOLUME {
                SETTING_VOLUME as int
            } else {
                v3.selected_setting + 1
            },
            ..v3
        }
    } else {
        v3
    };
    let v5 = if k.lower {
        spec_adjust(v4, false)
    } else {
        v4
    };
    if k.raise {
        spec_adjust(v5, true)
    } else {
        v5
    }
}

impl LauncherState {
    pub open spec fn wf(&self) -> bool {
        self@.wf()
    }

    /// A launcher over `roms` (first one selected), offering the BIOS when there is a
    /// candidate (`bios_name` is the candidate's file name, when it has one).
    pub fn new(
        roms: Vec<RomEntry>,
        bios_candidate: Option<String>,
        bios_name: Option<String>,
        default_scale: u32,
        audio_backend_info: String,
    ) -> (s: LauncherState)
        ensures
            s.wf(),
            s@ == (LauncherView {
                roms: roms@,
                selected_rom: 0,
                selected_setting: 0,
                scale: clamp_scale(default_scale),
                use_bios: bios_candidate is Some,
                bios_candidate,
                bios_name,
                audio_output: LauncherAudioOutput::Default,
                master_volume_percent: DEFAULT_VOLUME_PERCENT,
                audio_backend_info: audio_backend_info@,
            }),
    {
        let scale = if default_scale < MIN_LAUNCHER_SCALE {
            MIN_LAUNCHER_SCALE
        } else if default_scale > MAX_LAUNCHER_SCALE {
            MAX_LAUNCHER_SCALE
        } else {
            default_scale
        };
        let use_bios = bios_candidate.is_some();
        LauncherState {
            roms,
            selected_rom: 0,
            selected_setting: 0,
            scale,
            use_bios,
            bios_candidate,
            bios_name,
            audio_output: LauncherAudioOutput::Default,
            master_volume_percent: DEFAULT_VOLUME_PERCENT,
            audio_backend_info,
        }
    }

    /// Changes the selected setting by one step.
    pub fn adjust_setting(&mut self, raise: bool)
        requires
            old(self).wf(),
        ensures
            final(self).wf(),
            final(self)@ == spec_adjust(old(self)@, raise),
    {
        if self.selected_setting == SETTING_SCALE {
            if raise {
                self.scale = if self.scale + 1 > MAX_LAUNCHER_SCALE {
                    MAX_LAUNCHER_SCALE
                } else {
                    self.scale + 1
                };
            } else {
                self.scale = if self.scale <= MIN_LAUNCHER_SCALE + 1 {
                    MIN_LAUNCHER_SCALE
                } else {
                    self.scale - 1
                };
            }
        } else if self.selected_setting == SETTING_BIOS {
            if self.bios_candidate.is_some() {
                self.use_bios = !self.use_bios;
            }
        } else if self.selected_setting == SETTING_AUDIO {
            self.audio_output = match self.audio_output {
                LauncherAudioOutput::Default => LauncherAudioOutput::Muted,
                LauncherAudioOutput::Muted => LauncherAudioOutput::Default,
            };
        } else if raise {
            self.master_volume_percent = if self.master_volume_percent + VOLUME_STEP > 100 {
                100
            } else {
                self.master_volume_percent + VOLUME_STEP
            };
        } else {
            self.master_volume_percent = if self.master_volume_percent < VOLUME_STEP {
                0
            } else {
                self.master_volume_percent - VOLUME_STEP
            };
        }
    }

    /// Applies one frame of key presses.
    pub fn handle_input(&mut self, keys: LauncherKeys)
        requires
            old(self).wf(),
        ensures
            final(self).wf(),
            final(self)@ == spec_handle_input(old(self)@, keys),
    {
        if keys.left && self.selected_rom > 0 {
            self.selected_rom = self.selected_rom - 1;
        }
        if keys.right && self.selected_rom < self.roms.len() && self.selected_rom + 1 < self.roms.len() {
            self.selected_rom = self.selected_rom + 1;
        }
        if keys.up {
            self.selected_setting = if self.selected_setting > 0 {
                self.selected_setting - 1
            } else {
                0
            };
        }
        if keys.down {
            self.selected_setting = if self.selected_setting + 1 > SETTING_VOLUME {
                SETTING_VOLUME
            } else {
                self.selected_setting + 1
            };
        }
        if keys.lower {
            self.adjust_setting(false);
        }
        if keys.raise {
            self.adjust_setting(true);
        }
    }

    /// Replaces the ROM list after a rescan; a selection past its end goes back to the
    /// first ROM.
    pub fn set_roms(&mut self, roms: Vec<RomEntry>)
        requires
            old(self).wf(),
        ensures
            final(self).wf(),
            final(self)@ == (LauncherView {
                roms: roms@,
                selected_rom: if old(self)@.selected_rom >= roms@.len() {
                    0
                } else {
                    old(self)@.selected_rom
                },
                ..old(self)@
            }),
    {
        self.roms = roms;
        if self.selected_rom >= self.roms.len() {
            self.selected_rom = 0;
        }
    }

    /// The player's choice, if the selected ROM exists.
    pub fn finalize_selection(&self) -> (r: Option<LauncherChoice>)
        ensures
            r is Some <==> 0 <= self@.selected_rom < self@.roms.len(),
            r matches Some(c) ==> {
                &&& c.rom_path == self@.roms[self@.selected_rom].path
                &&& c.bios_path == (if self@.use_bios {
                    self@.bios_candidate
                } else {
                    None
                })
                &&& c.scale == self@.scale
                &&& c.audio_output == self@.audio_output
                &&& c.master_volume_percent == self@.master_volume_percent
            },
    {
        if self.selected_rom >= self.roms.len() {
            return None;
        }
        let rom_path = self.roms[self.selected_rom].path.clone();
        let bios_path = if self.use_bios {
            match &self.bios_candidate {
                Some(p) => Some(p.clone()),
                None => None,
            }
        } else {
            None
        };
        Some(
            LauncherChoice {
                rom_path,
                bios_path,
                scale: self.scale,
                audio_output: self.audio_output,
                master_volume_percent: self.master_volume_percent,
            },
        )
    }

    /// The ROMs shown in the carousel: from the one before the selected one, at most
    /// four. Returns the index range `start..end`.
    pub fn visible_range(&self) -> (r: (usize, usize))
        ensures
            r.0 == (if self@.selected_rom >= 1 {
                self@.selected_rom - 1
            } else {
                0
            }),
            r.1 == (if r.0 + CAROUSEL_SLOTS < self@.roms.len() {
                r.0 + CAROUSEL_SLOTS
            } else {
                self@.roms.len() as int
            }),
    {
        let start = if self.selected_rom >= 1 {
            self.selected_rom - 1
        } else {
            0
        };
        let end = if start < self.roms.len() && self.roms.len() - start > CAROUSEL_SLOTS {
            start + CAROUSEL_SLOTS
        } else {
            self.roms.len()
        };
        (start, end)
    }

    pub fn roms(&self) -> (r: &Vec<RomEntry>)
        ensures
            r@ == self@.roms,
    {
        &self.roms
    }

    pub fn selected_rom(&self) -> (r: usize)
        ensures
            r == self@.selected_rom,
    {
        self.selected_rom
    }

    pub fn selected_setting(&self) -> (r: usize)
        ensures
            r == self@.selected_setting,
    {
        self.selected_setting
    }

    pub fn scale(&self) -> (r: u32)
        ensures
            r == self@.scale,
    {
        self.scale
    }

    pub fn use_bios(&self) -> (r: bool)
        ensures
            r == self@.use_bios,
    {
        self.use_bios
    }

    pub fn bios_candidate(&self) -> (r: &Option<String>)
        ensures
            *r == self@.bios_candidate,
    {
        &self.bios_candidate
    }

    pub fn bios_name(&self) -> (r: &Option<String>)
        ensures
            *r == self@.bios_name,
    {
        &self.bios_name
    }

    pub fn audio_output(&self) -> (r: LauncherAudioOutput)
        ensures
            r == self@.audio_output,
    {
        self.audio_output
    }

    pub fn master_volume_percent(&self) -> (r: u8)
        ensures
            r == self@.master_volume_percent,
    {
        self.master_volume_percent
    }

    /// What the settings panel says about the sound backend.
    pub fn audio_backend_info(&self) -> (r: &String)
        ensures
            r@ == self@.audio_backend_info,
    {
        &self.audio_backend_info
    }
}

/// While the library is not empty the selection stays on a ROM: key presses never
/// move it off the list, so Enter can always launch a game.
pub proof fn law_selection_stays_on_a_rom(v: LauncherView, keys: LauncherKeys)
    requires
        v.wf(),
        0 <= v.selected_rom < v.roms.len(),
    ensures
        0 <= spec_handle_input(v, keys).selected_rom < spec_handle_input(v, keys).roms.len(),
        spec_handle_input(v, keys).roms == v.roms,
        spec_handle_input(v, keys).wf(),
{
}

} // verus!
