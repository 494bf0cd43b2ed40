//! The timer's settings: their defaults, the check that falls back to the
//! defaults, and the choice made from the outcome of loading them.

use crate::behaviour::lemma_settings_kept;
use crate::text::{blank, is_blank, is_white_space};
use vstd::prelude::*;

verus! {

/// The timer's settings.
#[derive(Debug, Clone)]
pub struct Config {
    pub work_minutes: u64,
    pub short_break_minutes: u64,
    pub long_break_minutes: u64,
    /// A long break follows every this many completed work sessions.
    pub long_break_every: u64,
    pub auto_start_breaks: bool,
    pub auto_start_work: bool,
    /// Whether the clock face shows seconds; without them it shows whole
    /// minutes only.
    pub show_seconds: bool,
    pub sound_path: String,
    pub log_dir: String,
}

impl Config {
    /// The built-in settings: 25 minutes of work, 5 of short break, 15 of
    /// long break every 4 work sessions, both auto starts on, seconds shown,
    /// no sound, and logs under `logs`.
    pub open spec fn is_default(self) -> bool {
        &&& self.work_minutes == 25
        &&& self.short_break_minutes == 5
        &&& self.long_break_minutes == 15
        &&& self.long_break_every == 4
        &&& self.auto_start_breaks
        &&& self.auto_start_work
        &&& self.show_seconds
        &&& self.sound_path@ == Seq::<char>::empty()
        &&& self.log_dir@ == "logs"@
    }

    /// Settings that the timer accepts: every length and the long-break
    /// cadence are positive and the log directory is not blank.
    pub open spec fn is_valid(self) -> bool {
        &&& self.work_minutes > 0
        &&& self.short_break_minutes > 0
        &&& self.long_break_minutes > 0
        &&& self.long_break_every > 0
        &&& !blank(self.log_dir@)
    }
}

impl Default for Config {
    fn default() -> (config: Self)
        ensures
            config.is_default(),
    {
        broadcast use vstd::string::group_string_axioms;

        Config {
            work_minutes: 25,
            short_break_minutes: 5,
            long_break_minutes: 15,
            long_break_every: 4,
            auto_start_breaks: true,
            auto_start_work: true,
            show_seconds: true,
            sound_path: String::new(),
            log_dir: "logs".to_string(),
        }
    }
}

/// The value an absent auto-start setting takes.
pub fn default_true() -> (b: bool)
    ensures
        b,
{
    true
}

/// The defaults were chosen, with `note` to show.
pub open spec fn falls_back(chosen: (Config, Option<String>), note: Seq<char>) -> bool {
    &&& chosen.0.is_default()
    &&& chosen.1 is Some
    &&& chosen.1->0@ == note
}

/// The note shown when loaded settings are refused.
pub open spec fn invalid_note() -> Seq<char> {
    "config.toml invalid; using defaults"@
}

/// Keeps valid settings; replaces invalid ones by the defaults, with a note.
pub fn validate_config(config: Config) -> (checked: (Config, Option<String>))
    ensures
        config.is_valid() ==> checked.0 == config && checked.1 is None,
        !config.is_valid() ==> falls_back(checked, invalid_note()),
        (checked.1 is None) <==> {
            &&& config.work_minutes > 0
            &&& config.short_break_minutes > 0
            &&& config.long_break_minutes > 0
            &&& config.long_break_every > 0
            &&& exists|i: int|
                0 <= i < config.log_dir@.len() && !is_white_space(#[trigger] config.log_dir@[i])
        },
        checked.1 is None ==> checked.0 == config,
{
    proof {
        lemma_settings_kept(config);
    }
    broadcast use vstd::string::group_string_axioms;

    if config.work_minutes == 0 || config.short_break_minutes == 0 || config.long_break_minutes
        == 0 || config.long_break_every == 0 || is_blank(config.log_dir.as_str()) {
        return (Config::default(), Some("config.toml invalid; using defaults".to_string()));
    }
    (config, None)
}

/// What came of looking for, reading and parsing the settings file.
pub enum ConfigLoad {
    /// There is no settings file.
    Missing,
    /// The file exists but could not be read; the error's text.
    Unreadable(String),
    /// The file was read but is not valid settings; the error's text.
    Malformed(String),
    /// The file parsed into these settings.
    Parsed(Config),
}

/// The note shown when the settings file is missing.
pub open spec fn missing_note() -> Seq<char> {
    "config.toml not found; using defaults"@
}

/// The note shown when the settings file could not be read.
pub open spec fn unreadable_note(err: Seq<char>) -> Seq<char> {
    "config.toml read error: "@ + err + "; using defaults"@
}

/// The note shown when the settings file did not parse.
pub open spec fn malformed_note(err: Seq<char>) -> Seq<char> {
    "config.toml parse error: "@ + err + "; using defaults"@
}

/// The settings to run with, and the note to show, given what came of
/// loading the settings file: the defaults with a note when it is missing,
/// unreadable or malformed, else the parsed settings as `validate_config`
/// judges them.
pub fn resolve_config(load: ConfigLoad) -> (chosen: (Config, Option<String>))
    ensures
        match load {
            ConfigLoad::Missing => falls_back(chosen, missing_note()),
            ConfigLoad::Unreadable(err) => falls_back(chosen, unreadable_note(err@)),
            ConfigLoad::Malformed(err) => falls_back(chosen, malformed_note(err@)),
            ConfigLoad::Parsed(config) => if config.is_valid() {
                chosen.0 == config && chosen.1 is None
            } else {
                falls_back(chosen, invalid_note())
            },
        },
{
    broadcast use vstd::string::group_string_axioms;

    match load {
        ConfigLoad::Missing => {
            (Config::default(), Some("config.toml not found; using defaults".to_string()))
        },
        ConfigLoad::Unreadable(err) => {
            let mut note = "config.toml read error: ".to_string();
            note.append(err.as_str());
            note.append("; using defaults");
            (Config::default(), Some(note))
        },
        ConfigLoad::Malformed(err) => {
            let mut note = "config.toml parse error: ".to_string();
            note.append(err.as_str());
            note.append("; using defaults");
            (Config::default(), Some(note))
        },
        ConfigLoad::Parsed(config) => validate_config(config),
    }
}

} // verus!
