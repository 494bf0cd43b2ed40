//! The records of ended sessions that the timer appends to its daily log.

use crate::clock::{date_text, local_date, rfc3339_text, to_rfc3339, Stamp};
use crate::session::{Outcome, SessionType};
use vstd::prelude::*;

verus! {

/// One line of the log: when a session started and ended, its kind, its
/// configured length in minutes and how it ended.
#[derive(Debug, Clone)]
pub struct LogEntry {
    pub start_ts: String,
    pub end_ts: String,
    pub session_type: String,
    pub duration_min: u64,
    pub status: String,
}

/// The contents of a log line.
pub struct LogEntryView {
    pub start_ts: Seq<char>,
    pub end_ts: Seq<char>,
    pub session_type: Seq<char>,
    pub duration_min: u64,
    pub status: Seq<char>,
}

impl View for LogEntry {
    type V = LogEntryView;

    open spec fn view(&self) -> LogEntryView {
        LogEntryView {
            start_ts: self.start_ts@,
            end_ts: self.end_ts@,
            session_type: self.session_type@,
            duration_min: self.duration_min,
            status: self.status@,
        }
    }
}

/// A log line and the name of the daily file it goes to.
#[derive(Debug, Clone)]
pub struct LogRecord {
    pub file_name: String,
    pub entry: LogEntry,
}

/// The contents of a log record.
pub struct LogRecordView {
    pub file_name: Seq<char>,
    pub entry: LogEntryView,
}

impl View for LogRecord {
    type V = LogRecordView;

    open spec fn view(&self) -> LogRecordView {
        LogRecordView { file_name: self.file_name@, entry: self.entry@ }
    }
}

/// The name of the log file of a day: the date and `.jsonl`.
pub open spec fn file_name_of(date: Seq<char>) -> Seq<char> {
    date + ".jsonl"@
}

/// The record of a session of kind `session` and `duration_min` minutes
/// that started at `start`, ended at `end` as `outcome` says; it goes to the
/// file of the local date of `end`.
pub open spec fn record_of(
    start: Stamp,
    end: Stamp,
    session: SessionType,
    duration_min: u64,
    outcome: Outcome,
) -> LogRecordView {
    LogRecordView {
        file_name: file_name_of(date_text(end.secs, end.nanos, end.offset_secs)),
        entry: LogEntryView {
            start_ts: rfc3339_text(start.secs, start.nanos, start.offset_secs),
            end_ts: rfc3339_text(end.secs, end.nanos, end.offset_secs),
            session_type: session.label_text(),
            duration_min,
            status: outcome.label_text(),
        },
    }
}

/// The name of the log file of the day `date`.
pub fn log_file_name(date: &str) -> (name: String)
    ensures
        name@ == file_name_of(date@),
{
    let mut name = String::new();
    name.append(date);
    name.append(".jsonl");
    name
}

impl LogEntry {
    /// The log line of a session, from its start and end texts.
    pub fn new(
        start_ts: String,
        end_ts: String,
        session: SessionType,
        duration_min: u64,
        outcome: Outcome,
    ) -> (entry: LogEntry)
        ensures
            entry@ == (LogEntryView {
                start_ts: start_ts@,
                end_ts: end_ts@,
                session_type: session.label_text(),
                duration_min,
                status: outcome.label_text(),
            }),
    {
        broadcast use vstd::string::group_string_axioms;

        LogEntry {
            start_ts,
            end_ts,
            session_type: session.label().to_string(),
            duration_min,
            status: outcome.label().to_string(),
        }
    }
}

/// The log record of a session that started at `start` and ends at `end`.
pub fn make_log_record(
    start: &Stamp,
    end: &Stamp,
    session: SessionType,
    duration_min: u64,
    outcome: Outcome,
) -> (record: LogRecord)
    requires
        start.in_range(),
        end.in_range(),
    ensures
        record@ == record_of(*start, *end, session, duration_min, outcome),
{
    let date = local_date(end);
    let file_name = log_file_name(date.as_str());
    let entry = LogEntry::new(to_rfc3339(start), to_rfc3339(end), session, duration_min, outcome);
    LogRecord { file_name, entry }
}

} // verus!
