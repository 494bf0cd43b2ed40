//! What the timer's operations are for, stated directly on the settings'
//! fields and on the words and tables the original program uses, so that
//! each holds whatever form the step functions take.

use crate::clock::{date_text, rfc3339_text, Stamp};
use crate::config::{invalid_note, malformed_note, missing_note, unreadable_note, Config};
use crate::glyph::{glyph, lemma_glyph_shape, thick, timer_row};
use crate::laws::{
    all_digits, lemma_pad2_reads_back, lemma_thick_doubles, lemma_timer_row_width, numeral_value,
};
use crate::session::{Outcome, SessionType, TimerStatus};
use crate::text::{clock_text, face_text, is_white_space};
use crate::timer::{fits, help_text, key_command, App, Clock, Command, EffectView, NANOS_PER_SEC};
use vstd::prelude::*;

verus! {

/// The configured minutes of a session of kind `session`, read off the
/// settings' fields.
pub open spec fn minutes_field(config: Config, session: SessionType) -> int {
    match session {
        SessionType::Work => config.work_minutes as int,
        SessionType::ShortBreak => config.short_break_minutes as int,
        SessionType::LongBreak => config.long_break_minutes as int,
    }
}

/// The auto-start flag of sessions of kind `session`, read off the
/// settings' fields.
pub open spec fn auto_start_field(config: Config, session: SessionType) -> bool {
    if session == SessionType::Work {
        config.auto_start_work
    } else {
        config.auto_start_breaks
    }
}

/// `effect` records the current session of `app` ending at `end` with the
/// status word `status`: its start, its end, its name, its configured
/// minutes (not the time that passed), and the daily file of `end`.
pub open spec fn logs_session(app: App, effect: EffectView, status: Seq<char>, end: Stamp) -> bool {
    match effect {
        EffectView::Log(r) => {
            &&& r.file_name == date_text(end.secs, end.nanos, end.offset_secs) + ".jsonl"@
            &&& r.entry.start_ts == rfc3339_text(
                app.session_start.secs,
                app.session_start.nanos,
                app.session_start.offset_secs,
            )
            &&& r.entry.end_ts == rfc3339_text(end.secs, end.nanos, end.offset_secs)
            &&& r.entry.session_type == match app.session_type {
                SessionType::Work => "Work"@,
                SessionType::ShortBreak => "Short Break"@,
                SessionType::LongBreak => "Long Break"@,
            }
            &&& r.entry.duration_min == minutes_field(app.config, app.session_type)
            &&& r.entry.status == status
        },
        EffectView::PlaySound => false,
    }
}

/// `next` is a session of kind `session` that has just begun at `clock`:
/// its full configured length is left, it started at the wall clock, and it
/// runs exactly when the auto-start flag of its own kind is set.
pub open spec fn begins_with_flags(next: App, config: Config, session: SessionType, clock: Clock) -> bool {
    &&& next.session_type == session
    &&& next.remaining_nanos == minutes_field(config, session) * 60 * NANOS_PER_SEC
    &&& next.session_start == clock.wall
    &&& (next.status == TimerStatus::Running) == auto_start_field(config, session)
    &&& next.status == TimerStatus::Running ==> next.last_tick == clock.mono_nanos
}

/// The session that follows: after work a break, long exactly when the
/// completed work sessions, counting this one if it completed, reach a
/// multiple of the cadence; after a break, work.
pub open spec fn following_kind(app: App, completed: bool) -> SessionType {
    if app.session_type == SessionType::Work {
        if completed && (app.completed_work_sessions + 1) % (app.config.long_break_every as int)
            == 0 {
            SessionType::LongBreak
        } else {
            SessionType::ShortBreak
        }
    } else {
        SessionType::Work
    }
}

/// Moving on begins the following session with the auto-start flag of its
/// own kind, and counts the session only if it was completed work.
pub proof fn lemma_advance_follows_settings(app: App, completed: bool, clock: Clock)
    requires
        app.wf(),
        app.can_advance(completed),
        clock.wall.in_range(),
    ensures
        begins_with_flags(
            app.advanced(completed, clock),
            app.config,
            following_kind(app, completed),
            clock,
        ),
        (app.advanced(completed, clock).status == TimerStatus::Running) <==> (if app.advanced(
            completed,
            clock,
        ).session_type == SessionType::Work {
            app.config.auto_start_work
        } else {
            app.config.auto_start_breaks
        }),
        app.advanced(completed, clock).completed_work_sessions == if app.session_type
            == SessionType::Work && completed {
            app.completed_work_sessions + 1
        } else {
            app.completed_work_sessions as int
        },
        app.advanced(completed, clock).config == app.config,
{
}

/// Skipping logs the session once as skipped and moves on exactly as
/// advancing without completion does: the following session begins with the
/// auto-start flag of its own kind, and nothing is counted.
pub proof fn lemma_skip_moves_on(app: App, clock: Clock)
    requires
        app.wf(),
        app.can_apply(Command::Skip),
        clock.wall.in_range(),
    ensures
        app.applied(Command::Skip, clock).0 == app.advanced(false, clock),
        begins_with_flags(
            app.applied(Command::Skip, clock).0,
            app.config,
            following_kind(app, false),
            clock,
        ),
        app.applied(Command::Skip, clock).0.completed_work_sessions
            == app.completed_work_sessions,
        app.applied(Command::Skip, clock).1.len() == 1,
        logs_session(app, app.applied(Command::Skip, clock).1[0], "skipped"@, clock.wall),
{
}

/// A tick that runs a session out logs it as completed, asks for the sound
/// after the record, and begins the following session with the auto-start
/// flag of its own kind.
pub proof fn lemma_run_out_follows_settings(app: App, clock: Clock)
    requires
        app.wf(),
        app.status == TimerStatus::Running,
        !app.should_exit,
        app.elapsed(clock) >= app.remaining_nanos,
        app.can_advance(true),
        clock.wall.in_range(),
    ensures
        begins_with_flags(app.ticked(clock).0, app.config, following_kind(app, true), clock),
        app.ticked(clock).1.len() == 2,
        logs_session(app, app.ticked(clock).1[0], "completed"@, clock.wall),
        app.ticked(clock).1[1] == EffectView::PlaySound,
{
}

/// Quitting logs a session under way once as cancelled, with its configured
/// minutes whatever time has passed, and logs nothing for a session not yet
/// under way; cancelling always logs the session so.
pub proof fn lemma_cancelled_records(app: App, clock: Clock)
    requires
        app.wf(),
        clock.wall.in_range(),
    ensures
        app.applied(Command::Quit, clock).0.should_exit,
        app.remaining_nanos < minutes_field(app.config, app.session_type) * 60 * NANOS_PER_SEC
            ==> {
            &&& app.applied(Command::Quit, clock).1.len() == 1
            &&& logs_session(app, app.applied(Command::Quit, clock).1[0], "cancelled"@, clock.wall)
        },
        app.remaining_nanos == minutes_field(app.config, app.session_type) * 60 * NANOS_PER_SEC
            ==> app.applied(Command::Quit, clock).1.len() == 0,
        app.applied(Command::Cancel, clock).1.len() == 1,
        logs_session(app, app.applied(Command::Cancel, clock).1[0], "cancelled"@, clock.wall),
{
}

/// The settings check keeps exactly the settings whose three lengths and
/// long-break cadence are positive and whose log directory holds a
/// character that is not white space.
pub proof fn lemma_settings_kept(config: Config)
    ensures
        config.is_valid() <==> {
            &&& config.work_minutes > 0
            &&& config.short_break_minutes > 0
            &&& config.long_break_minutes > 0
            &&& config.long_break_every > 0
            &&& exists|i: int| 0 <= i < config.log_dir@.len() && !is_white_space(#[trigger] config.log_dir@[i])
        },
{
}

/// The glyphs cell by cell: each drawable character's seven rows of
/// seven cells, spaces and `#`, as the clock face draws them; any other
/// character draws seven blank rows.
pub proof fn lemma_glyph_table(c: char)
    ensures
        c == '0' ==> glyph(c) == seq![
            seq![' ', '#', '#', '#', '#', '#', ' '],
            seq!['#', ' ', ' ', ' ', ' ', ' ', '#'],
            seq!['#', ' ', ' ', ' ', ' ', ' ', '#'],
            seq!['#', ' ', ' ', ' ', ' ', ' ', '#'],
            seq!['#', ' ', ' ', ' ', ' ', ' ', '#'],
            seq!['#', ' ', ' ', ' ', ' ', ' ', '#'],
            seq![' ', '#', '#', '#', '#', '#', ' '],
        ],
        c == '1' ==> glyph(c) == seq![
            seq![' ', ' ', ' ', '#', ' ', ' ', ' '],
            seq![' ', ' ', '#', '#', ' ', ' ', ' '],
            seq![' ', '#', ' ', '#', ' ', ' ', ' '],
            seq![' ', ' ', ' ', '#', ' ', ' ', ' '],
            seq![' ', ' ', ' ', '#', ' ', ' ', ' '],
            seq![' ', ' ', ' ', '#', ' ', ' ', ' '],
            seq![' ', '#', '#', '#', '#', '#', ' '],
        ],
        c == '2' ==> glyph(c) == seq![
            seq![' ', '#', '#', '#', '#', '#', ' '],
            seq!['#', ' ', ' ', ' ', ' ', ' ', '#'],
            seq![' ', ' ', ' ', ' ', ' ', ' ', '#'],
            seq![' ', ' ', '#', '#', '#', '#', ' '],
            seq![' ', '#', ' ', ' ', ' ', ' ', ' '],
            seq!['#', ' ', ' ', ' ', ' ', ' ', ' '],
            seq!['#', '#', '#', '#', '#', '#', '#'],
        ],
        c == '3' ==> glyph(c) == seq![
            seq![' ', '#', '#', '#', '#', '#', ' '],
            seq!['#', ' ', ' ', ' ', ' ', ' ', '#'],
            seq![' ', ' ', ' ', ' ', ' ', ' ', '#'],
            seq![' ', ' ', '#', '#', '#', '#', ' '],
            seq![' ', ' ', ' ', ' ', ' ', ' ', '#'],
            seq!['#', ' ', ' ', ' ', ' ', ' ', '#'],
            seq![' ', '#', '#', '#', '#', '#', ' '],
        ],
        c == '4' ==> glyph(c) == seq![
            seq!['#', ' ', ' ', ' ', ' ', '#', ' '],
            seq!['#', ' ', ' ', ' ', ' ', '#', ' '],
            seq!['#', ' ', ' ', ' ', ' ', '#', ' '],
            seq!['#', '#', '#', '#', '#', '#', '#'],
            seq![' ', ' ', ' ', ' ', ' ', '#', ' '],
            seq![' ', ' ', ' ', ' ', ' ', '#', ' '],
            seq![' ', ' ', ' ', ' ', ' ', '#', ' '],
        ],
        c == '5' ==> glyph(c) == seq![
            seq!['#', '#', '#', '#', '#', '#', '#'],
            seq!['#', ' ', ' ', ' ', ' ', ' ', ' '],
            seq!['#', ' ', ' ', ' ', ' ', ' ', ' '],
            seq!['#', '#', '#', '#', '#', '#', ' '],
            seq![' ', ' ', ' ', ' ', ' ', ' ', '#'],
            seq!['#', ' ', ' ', ' ', ' ', ' ', '#'],
            seq![' ', '#', '#', '#', '#', '#', ' '],
        ],
        c == '6' ==> glyph(c) == seq![
            seq![' ', '#', '#', '#', '#', '#', ' '],
            seq!['#', ' ', ' ', ' ', ' ', ' ', '#'],
            seq!['#', ' ', ' ', ' ', ' ', ' ', ' '],
            seq!['#', '#', '#', '#', '#', '#', ' '],
            seq!['#', ' ', ' ', ' ', ' ', ' ', '#'],
            seq!['#', ' ', ' ', ' ', ' ', ' ', '#'],
            seq![' ', '#', '#', '#', '#', '#', ' '],
        ],
        c == '7' ==> glyph(c) == seq![
            seq!['#', '#', '#', '#', '#', '#', '#'],
            seq![' ', ' ', ' ', ' ', ' ', '#', ' '],
            seq![' ', ' ', ' ', ' ', '#', ' ', ' '],
            seq![' ', ' ', ' ', '#', ' ', ' ', ' '],
            seq![' ', ' ', '#', ' ', ' ', ' ', ' '],
            seq![' ', '#', ' ', ' ', ' ', ' ', ' '],
            seq!['#', ' ', ' ', ' ', ' ', ' ', ' '],
        ],
        c == '8' ==> glyph(c) == seq![
            seq![' ', '#', '#', '#', '#', '#', ' '],
            seq!['#', ' ', ' ', ' ', ' ', ' ', '#'],
            seq!['#', ' ', ' ', ' ', ' ', ' ', '#'],
            seq![' ', '#', '#', '#', '#', '#', ' '],
            seq!['#', ' ', ' ', ' ', ' ', ' ', '#'],
            seq!['#', ' ', ' ', ' ', ' ', ' ', '#'],
            seq![' ', '#', '#', '#', '#', '#', ' '],
        ],
        c == '9' ==> glyph(c) == seq![
            seq![' ', '#', '#', '#', '#', '#', ' '],
            seq!['#', ' ', ' ', ' ', ' ', ' ', '#'],
            seq!['#', ' ', ' ', ' ', ' ', ' ', '#'],
            seq![' ', '#', '#', '#', '#', '#', '#'],
            seq![' ', ' ', ' ', ' ', ' ', ' ', '#'],
            seq!['#', ' ', ' ', ' ', ' ', ' ', '#'],
            seq![' ', '#', '#', '#', '#', '#', ' '],
        ],
        c == ':' ==> glyph(c) == seq![
            seq![' ', ' ', ' ', ' ', ' ', ' ', ' '],
            seq![' ', ' ', ' ', '#', ' ', ' ', ' '],
            seq![' ', ' ', ' ', ' ', ' ', ' ', ' '],
            seq![' ', ' ', ' ', ' ', ' ', ' ', ' '],
            seq![' ', ' ', ' ', '#', ' ', ' ', ' '],
            seq![' ', ' ', ' ', ' ', ' ', ' ', ' '],
            seq![' ', ' ', ' ', ' ', ' ', ' ', ' '],
        ],
        !(c == '0' || c == '1' || c == '2' || c == '3' || c == '4' || c == '5' || c == '6' || c == '7' || c == '8' || c == '9' || c == ':') ==> glyph(c) == Seq::new(7, |r: int| seq![' ', ' ', ' ', ' ', ' ', ' ', ' ']),
{
    reveal_strlit("       ");
    reveal_strlit("      #");
    reveal_strlit("     # ");
    reveal_strlit("    #  ");
    reveal_strlit("   #   ");
    reveal_strlit("  #    ");
    reveal_strlit("  ##   ");
    reveal_strlit("  #### ");
    reveal_strlit(" #     ");
    reveal_strlit(" # #   ");
    reveal_strlit(" ##### ");
    reveal_strlit(" ######");
    reveal_strlit("#      ");
    reveal_strlit("#     #");
    reveal_strlit("#    # ");
    reveal_strlit("###### ");
    reveal_strlit("#######");
    assert(glyph(c).len() == 7);
    if c == '0' {
        assert(glyph(c) =~~= seq![seq![' ', '#', '#', '#', '#', '#', ' '], seq!['#', ' ', ' ', ' ', ' ', ' ', '#'], seq!['#', ' ', ' ', ' ', ' ', ' ', '#'], seq!['#', ' ', ' ', ' ', ' ', ' ', '#'], seq!['#', ' ', ' ', ' ', ' ', ' ', '#'], seq!['#', ' ', ' ', ' ', ' ', ' ', '#'], seq![' ', '#', '#', '#', '#', '#', ' ']]);
    }
    if c == '1' {
        assert(glyph(c) =~~= seq![seq![' ', ' ', ' ', '#', ' ', ' ', ' '], seq![' ', ' ', '#', '#', ' ', ' ', ' '], seq![' ', '#', ' ', '#', ' ', ' ', ' '], seq![' ', ' ', ' ', '#', ' ', ' ', ' '], seq![' ', ' ', ' ', '#', ' ', ' ', ' '], seq![' ', ' ', ' ', '#', ' ', ' ', ' '], seq![' ', '#', '#', '#', '#', '#', ' ']]);
    }
    if c == '2' {
        assert(glyph(c) =~~= seq![seq![' ', '#', '#', '#', '#', '#', ' '], seq!['#', ' ', ' ', ' ', ' ', ' ', '#'], seq![' ', ' ', ' ', ' ', ' ', ' ', '#'], seq![' ', ' ', '#', '#', '#', '#', ' '], seq![' ', '#', ' ', ' ', ' ', ' ', ' '], seq!['#', ' ', ' ', ' ', ' ', ' ', ' '], seq!['#', '#', '#', '#', '#', '#', '#']]);
    }
    if c == '3' {
        assert(glyph(c) =~~= seq![seq![' ', '#', '#', '#', '#', '#', ' '], seq!['#', ' ', ' ', ' ', ' ', ' ', '#'], seq![' ', ' ', ' ', ' ', ' ', ' ', '#'], seq![' ', ' ', '#', '#', '#', '#', ' '], seq![' ', ' ', ' ', ' ', ' ', ' ', '#'], seq!['#', ' ', ' ', ' ', ' ', ' ', '#'], seq![' ', '#', '#', '#', '#', '#', ' ']]);
    }
    if c == '4' {
        assert(glyph(c) =~~= seq![seq!['#', ' ', ' ', ' ', ' ', '#', ' '], seq!['#', ' ', ' ', ' ', ' ', '#', ' '], seq!['#', ' ', ' ', ' ', ' ', '#', ' '], seq!['#', '#', '#', '#', '#', '#', '#'], seq![' ', ' ', ' ', ' ', ' ', '#', ' '], seq![' ', ' ', ' ', ' ', ' ', '#', ' '], seq![' ', ' ', ' ', ' ', ' ', '#', ' ']]);
    }
    if c == '5' {
        assert(glyph(c) =~~= seq![seq!['#', '#', '#', '#', '#', '#', '#'], seq!['#', ' ', ' ', ' ', ' ', ' ', ' '], seq!['#', ' ', ' ', ' ', ' ', ' ', ' '], seq!['#', '#', '#', '#', '#', '#', ' '], seq![' ', ' ', ' ', ' ', ' ', ' ', '#'], seq!['#', ' ', ' ', ' ', ' ', ' ', '#'], seq![' ', '#', '#', '#', '#', '#', ' ']]);
    }
    if c == '6' {
        assert(glyph(c) =~~= seq![seq![' ', '#', '#', '#', '#', '#', ' '], seq!['#', ' ', ' ', ' ', ' ', ' ', '#'], seq!['#', ' ', ' ', ' ', ' ', ' ', ' '], seq!['#', '#', '#', '#', '#', '#', ' '], seq!['#', ' ', ' ', ' ', ' ', ' ', '#'], seq!['#', ' ', ' ', ' ', ' ', ' ', '#'], seq![' ', '#', '#', '#', '#', '#', ' ']]);
    }
    if c == '7' {
        assert(glyph(c) =~~= seq![seq!['#', '#', '#', '#', '#', '#', '#'], seq![' ', ' ', ' ', ' ', ' ', '#', ' '], seq![' ', ' ', ' ', ' ', '#', ' ', ' '], seq![' ', ' ', ' ', '#', ' ', ' ', ' '], seq![' ', ' ', '#', ' ', ' ', ' ', ' '], seq![' ', '#', ' ', ' ', ' ', ' ', ' '], seq!['#', ' ', ' ', ' ', ' ', ' ', ' ']]);
    }
    if c == '8' {
        assert(glyph(c) =~~= seq![seq![' ', '#', '#', '#', '#', '#', ' '], seq!['#', ' ', ' ', ' ', ' ', ' ', '#'], seq!['#', ' ', ' ', ' ', ' ', ' ', '#'], seq![' ', '#', '#', '#', '#', '#', ' '], seq!['#', ' ', ' ', ' ', ' ', ' ', '#'], seq!['#', ' ', ' ', ' ', ' ', ' ', '#'], seq![' ', '#', '#', '#', '#', '#', ' ']]);
    }
    if c == '9' {
        assert(glyph(c) =~~= seq![seq![' ', '#', '#', '#', '#', '#', ' '], seq!['#', ' ', ' ', ' ', ' ', ' ', '#'], seq!['#', ' ', ' ', ' ', ' ', ' ', '#'], seq![' ', '#', '#', '#', '#', '#', '#'], seq![' ', ' ', ' ', ' ', ' ', ' ', '#'], seq!['#', ' ', ' ', ' ', ' ', ' ', '#'], seq![' ', '#', '#', '#', '#', '#', ' ']]);
    }
    if c == ':' {
        assert(glyph(c) =~~= seq![seq![' ', ' ', ' ', ' ', ' ', ' ', ' '], seq![' ', ' ', ' ', '#', ' ', ' ', ' '], seq![' ', ' ', ' ', ' ', ' ', ' ', ' '], seq![' ', ' ', ' ', ' ', ' ', ' ', ' '], seq![' ', ' ', ' ', '#', ' ', ' ', ' '], seq![' ', ' ', ' ', ' ', ' ', ' ', ' '], seq![' ', ' ', ' ', ' ', ' ', ' ', ' ']]);
    }
    if !(c == '0' || c == '1' || c == '2' || c == '3' || c == '4' || c == '5' || c == '6' || c == '7' || c == '8' || c == '9' || c == ':') {
        assert("       "@ =~= seq![' ', ' ', ' ', ' ', ' ', ' ', ' ']);
        assert(glyph(c) =~~= Seq::new(7, |r: int| seq![' ', ' ', ' ', ' ', ' ', ' ', ' ']));
    }
}

/// What the keys, the commands and the manual steps do, on the fields: a new
/// work session or short break begins running at its full length; restart
/// runs the session again in full; cancel leaves it paused in full; pausing
/// keeps what is left; resuming keeps what is left and stamps the start only
/// of a session not yet under way. None of these logs anything but cancel.
pub proof fn lemma_manual_commands(app: App, clock: Clock)
    requires
        app.wf(),
        clock.wall.in_range(),
    ensures
        fits(app.config, SessionType::Work) ==> {
            let n = app.applied(Command::NewWork, clock);
            &&& n.0 == (App {
                session_type: SessionType::Work,
                duration_secs: (app.config.work_minutes * 60) as u64,
                remaining_nanos: (app.config.work_minutes * 60 * NANOS_PER_SEC) as u128,
                status: TimerStatus::Running,
                last_tick: clock.mono_nanos,
                session_start: clock.wall,
                ..app
            })
            &&& n.1.len() == 0
        },
        fits(app.config, SessionType::ShortBreak) ==> {
            let n = app.applied(Command::NewBreak, clock);
            &&& n.0 == (App {
                session_type: SessionType::ShortBreak,
                duration_secs: (app.config.short_break_minutes * 60) as u64,
                remaining_nanos: (app.config.short_break_minutes * 60 * NANOS_PER_SEC) as u128,
                status: TimerStatus::Running,
                last_tick: clock.mono_nanos,
                session_start: clock.wall,
                ..app
            })
            &&& n.1.len() == 0
        },
        app.applied(Command::Restart, clock).0 == (App {
            remaining_nanos: (minutes_field(app.config, app.session_type) * 60
                * NANOS_PER_SEC) as u128,
            status: TimerStatus::Running,
            last_tick: clock.mono_nanos,
            session_start: clock.wall,
            ..app
        }),
        app.applied(Command::Restart, clock).1.len() == 0,
        app.applied(Command::Cancel, clock).0 == (App {
            remaining_nanos: (minutes_field(app.config, app.session_type) * 60
                * NANOS_PER_SEC) as u128,
            status: TimerStatus::Paused,
            ..app
        }),
        app.status == TimerStatus::Running ==> {
            &&& app.applied(Command::TogglePause, clock).0 == (App {
                status: TimerStatus::Paused,
                ..app
            })
            &&& app.applied(Command::Start, clock).0 == app
        },
        app.status == TimerStatus::Paused ==> {
            let resumed = (App {
                status: TimerStatus::Running,
                last_tick: clock.mono_nanos,
                session_start: if app.remaining_nanos == minutes_field(
                    app.config,
                    app.session_type,
                ) * 60 * NANOS_PER_SEC {
                    clock.wall
                } else {
                    app.session_start
                },
                ..app
            });
            &&& app.applied(Command::TogglePause, clock).0 == resumed
            &&& app.applied(Command::Start, clock).0 == resumed
        },
        app.applied(Command::TogglePause, clock).1.len() == 0,
        app.applied(Command::Start, clock).1.len() == 0,
{
}

/// A tick of a running timer that does not run the session out takes off
/// exactly the nanoseconds that passed since the last tick (none if the
/// clock reads earlier), and changes nothing else but the time of the last
/// tick.
pub proof fn lemma_tick_counts_down(app: App, clock: Clock)
    requires
        app.wf(),
        app.status == TimerStatus::Running,
        !app.should_exit,
        (if clock.mono_nanos >= app.last_tick {
            clock.mono_nanos - app.last_tick
        } else {
            0
        }) < app.remaining_nanos,
    ensures
        app.ticked(clock).0 == (App {
            remaining_nanos: (app.remaining_nanos - (if clock.mono_nanos >= app.last_tick {
                clock.mono_nanos - app.last_tick
            } else {
                0
            })) as u128,
            last_tick: clock.mono_nanos,
            ..app
        }),
        app.ticked(clock).1.len() == 0,
{
}

/// The words the timer shows and logs, and the keys it answers to.
pub proof fn lemma_words_and_keys()
    ensures
        SessionType::Work.label_text() == "Work"@,
        SessionType::ShortBreak.label_text() == "Short Break"@,
        SessionType::LongBreak.label_text() == "Long Break"@,
        TimerStatus::Running.label_text() == "Running"@,
        TimerStatus::Paused.label_text() == "Paused"@,
        Outcome::Completed.label_text() == "completed"@,
        Outcome::Cancelled.label_text() == "cancelled"@,
        Outcome::Skipped.label_text() == "skipped"@,
        !SessionType::Work.is_rest(),
        SessionType::ShortBreak.is_rest(),
        SessionType::LongBreak.is_rest(),
        help_text()
            == "s: start  p: pause/resume  r: restart  c: cancel  w: work  b: break  n: next  q: quit"@,
        key_command('s') == Some(Command::Start),
        key_command('p') == Some(Command::TogglePause),
        key_command('r') == Some(Command::Restart),
        key_command('c') == Some(Command::Cancel),
        key_command('w') == Some(Command::NewWork),
        key_command('b') == Some(Command::NewBreak),
        key_command('n') == Some(Command::Skip),
        key_command('q') == Some(Command::Quit),
        forall|k: char|
            !(k == 's' || k == 'p' || k == 'r' || k == 'c' || k == 'w' || k == 'b' || k == 'n' || k
                == 'q') ==> #[trigger] key_command(k) is None,
{
}

/// The built-in settings: 25 minutes of work, 5 of short break, 15 of long
/// break every 4 work sessions, both auto starts and seconds on, no sound,
/// logs under `logs`.
pub proof fn lemma_default_settings(config: Config)
    requires
        config.is_default(),
    ensures
        config.work_minutes == 25,
        config.short_break_minutes == 5,
        config.long_break_minutes == 15,
        config.long_break_every == 4,
        config.auto_start_breaks,
        config.auto_start_work,
        config.show_seconds,
        config.sound_path@.len() == 0,
        config.log_dir@ == seq!['l', 'o', 'g', 's'],
{
    reveal_strlit("logs");
}

/// Cell `k` of the stretch of sixteen cells that character `i` takes in a
/// row of the large rendering.
pub open spec fn cell(row: Seq<char>, i: int, k: int) -> char {
    row[16 * i + k]
}

/// Where each glyph stands in a row of the large rendering: the thickened
/// glyph row of character `i` fills the fourteen cells from `16 * i`, and
/// the two cells after it, before the next character, are spaces.
pub proof fn lemma_timer_row_cells(text: Seq<char>, r: int)
    requires
        0 <= r < 7,
    ensures
        forall|i: int, k: int|
            0 <= i < text.len() && 0 <= k < 14 ==> #[trigger] cell(timer_row(text, r), i, k)
                == thick(glyph(text[i])[r])[k],
        forall|i: int, k: int|
            0 <= i < text.len() - 1 && 14 <= k < 16 ==> #[trigger] cell(timer_row(text, r), i, k)
                == ' ',
    decreases text.len(),
{
    if text.len() > 0 {
        let n = text.len() as int;
        lemma_glyph_shape(text.last());
        lemma_thick_doubles(glyph(text.last())[r]);
        if n == 1 {
            assert(text[0] == text.last());
        } else {
            let prefix = text.drop_last();
            lemma_timer_row_cells(prefix, r);
            lemma_timer_row_width(prefix, r);
            assert(timer_row(text, r) == timer_row(prefix, r) + seq![' ', ' '] + thick(
                glyph(text.last())[r],
            ));
            assert forall|i: int, k: int|
                0 <= i < text.len() && 0 <= k < 14 implies #[trigger] cell(timer_row(text, r), i, k)
                == thick(glyph(text[i])[r])[k] by {
                if i < n - 1 {
                    assert(prefix[i] == text[i]);
                    assert(cell(timer_row(prefix, r), i, k) == thick(glyph(prefix[i])[r])[k]);
                }
            }
            assert forall|i: int, k: int|
                0 <= i < text.len() - 1 && 14 <= k < 16 implies #[trigger] cell(
                timer_row(text, r),
                i,
                k,
            ) == ' ' by {
                if i < n - 2 {
                    assert(cell(timer_row(prefix, r), i, k) == ' ');
                }
            }
        }
    }
}

/// The notes shown when the settings fall back to the defaults, word for
/// word, with the error's text in the middle where there is one.
pub proof fn lemma_fallback_notes(err: Seq<char>)
    ensures
        missing_note() == "config.toml not found; using defaults"@,
        invalid_note() == "config.toml invalid; using defaults"@,
        unreadable_note(err) == "config.toml read error: "@ + err + "; using defaults"@,
        malformed_note(err) == "config.toml parse error: "@ + err + "; using defaults"@,
{
}

/// With seconds hidden the face is the whole minutes alone: a numeral of at
/// least two digits, with no colon, that reads back to the seconds divided
/// by sixty; with seconds shown it is the `MM:SS` face.
pub proof fn lemma_minutes_face(secs: nat)
    ensures
        face_text(secs, true) == clock_text(secs),
        face_text(secs, false).len() >= 2,
        all_digits(face_text(secs, false)),
        numeral_value(face_text(secs, false)) == secs / 60,
{
    lemma_pad2_reads_back(secs / 60);
}

} // verus!
