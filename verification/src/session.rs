//! The kinds of session, the two states of the countdown, and the ways a
//! session can end.

use crate::config::Config;
use vstd::prelude::*;

verus! {

/// The kind of the current session.
#[derive(Clone, Copy, Debug, PartialEq, Eq, Structural)]
pub enum SessionType {
    Work,
    ShortBreak,
    LongBreak,
}

impl SessionType {
    /// The name shown for the session and written to the log.
    pub open spec fn label_text(self) -> Seq<char> {
        match self {
            SessionType::Work => "Work"@,
            SessionType::ShortBreak => "Short Break"@,
            SessionType::LongBreak => "Long Break"@,
        }
    }

    /// The configured length of the session, in minutes.
    pub open spec fn minutes(self, config: Config) -> u64 {
        match self {
            SessionType::Work => config.work_minutes,
            SessionType::ShortBreak => config.short_break_minutes,
            SessionType::LongBreak => config.long_break_minutes,
        }
    }

    /// Whether the session is a break.
    pub open spec fn is_rest(self) -> bool {
        self != SessionType::Work
    }

    /// The name shown for the session.
    pub fn label(self) -> (name: &'static str)
        ensures
            name@ == self.label_text(),
    {
        match self {
            SessionType::Work => "Work",
            SessionType::ShortBreak => "Short Break",
            SessionType::LongBreak => "Long Break",
        }
    }

    /// The configured length of the session, in minutes.
    pub fn duration_minutes(self, config: &Config) -> (minutes: u64)
        ensures
            minutes == self.minutes(*config),
    {
        match self {
            SessionType::Work => config.work_minutes,
            SessionType::ShortBreak => config.short_break_minutes,
            SessionType::LongBreak => config.long_break_minutes,
        }
    }
}

/// Whether the countdown runs.
#[derive(Clone, Copy, Debug, PartialEq, Eq, Structural)]
pub enum TimerStatus {
    Running,
    Paused,
}

impl TimerStatus {
    /// The name shown for the status.
    pub open spec fn label_text(self) -> Seq<char> {
        match self {
            TimerStatus::Running => "Running"@,
            TimerStatus::Paused => "Paused"@,
        }
    }

    /// The name shown for the status.
    pub fn label(self) -> (name: &'static str)
        ensures
            name@ == self.label_text(),
    {
        match self {
            TimerStatus::Running => "Running",
            TimerStatus::Paused => "Paused",
        }
    }
}

/// How a session ended, as the log records it.
#[derive(Clone, Copy, Debug, PartialEq, Eq, Structural)]
pub enum Outcome {
    Completed,
    Cancelled,
    Skipped,
}

impl Outcome {
    /// The word the log records.
    pub open spec fn label_text(self) -> Seq<char> {
        match self {
            Outcome::Completed => "completed"@,
            Outcome::Cancelled => "cancelled"@,
            Outcome::Skipped => "skipped"@,
        }
    }

    /// The word the log records.
    pub fn label(self) -> (word: &'static str)
        ensures
            word@ == self.label_text(),
    {
        match self {
            Outcome::Completed => "completed",
            Outcome::Cancelled => "cancelled",
            Outcome::Skipped => "skipped",
        }
    }
}

} // verus!
