//! The timer's state machine. Each step takes the clock's reading and
//! gives the new state and, in order, the work the caller must do: append a
//! record to the log, or play the completion sound.

use crate::behaviour::{
    begins_with_flags, following_kind, lemma_advance_follows_settings, lemma_cancelled_records,
    lemma_skip_moves_on, logs_session, minutes_field,
};
use crate::clock::Stamp;
use crate::config::Config;
use crate::glyph::{big_timer_lines, repeat_rows, timer_rows, views};
use crate::log::{make_log_record, record_of, LogRecord, LogRecordView};
use crate::session::{Outcome, SessionType, TimerStatus};
use crate::text::{face_text, format_face};
use vstd::prelude::*;

verus! {

/// Nanoseconds in a second.
pub const NANOS_PER_SEC: u128 = 1_000_000_000;

/// A reading of the clocks: a monotonic count of nanoseconds, and the wall
/// clock.
#[derive(Clone, Copy, Debug)]
pub struct Clock {
    pub mono_nanos: u128,
    pub wall: Stamp,
}

/// Work the caller carries out after a step, in order.
#[derive(Debug, Clone)]
pub enum Effect {
    /// Append this record to the log.
    Log(LogRecord),
    /// Play the completion sound.
    PlaySound,
}

/// The contents of an effect.
pub enum EffectView {
    Log(LogRecordView),
    PlaySound,
}

impl View for Effect {
    type V = EffectView;

    open spec fn view(&self) -> EffectView {
        match self {
            Effect::Log(record) => EffectView::Log(record@),
            Effect::PlaySound => EffectView::PlaySound,
        }
    }
}

/// The contents of a sequence of effects.
pub open spec fn effect_views(effects: Seq<Effect>) -> Seq<EffectView> {
    effects.map_values(|e: Effect| e@)
}

/// What a key asks of the timer.
#[derive(Clone, Copy, Debug, PartialEq, Eq, Structural)]
pub enum Command {
    Start,
    TogglePause,
    Restart,
    Cancel,
    NewWork,
    NewBreak,
    Skip,
    Quit,
}

/// The command bound to a key, if any.
pub open spec fn key_command(key: char) -> Option<Command> {
    if key == 's' {
        Some(Command::Start)
    } else if key == 'p' {
        Some(Command::TogglePause)
    } else if key == 'r' {
        Some(Command::Restart)
    } else if key == 'c' {
        Some(Command::Cancel)
    } else if key == 'w' {
        Some(Command::NewWork)
    } else if key == 'b' {
        Some(Command::NewBreak)
    } else if key == 'n' {
        Some(Command::Skip)
    } else if key == 'q' {
        Some(Command::Quit)
    } else {
        None
    }
}

impl Command {
    /// The command bound to a key, if any.
    pub fn from_key(key: char) -> (command: Option<Command>)
        ensures
            command == key_command(key),
    {
        if key == 's' {
            Some(Command::Start)
        } else if key == 'p' {
            Some(Command::TogglePause)
        } else if key == 'r' {
            Some(Command::Restart)
        } else if key == 'c' {
            Some(Command::Cancel)
        } else if key == 'w' {
            Some(Command::NewWork)
        } else if key == 'b' {
            Some(Command::NewBreak)
        } else if key == 'n' {
            Some(Command::Skip)
        } else if key == 'q' {
            Some(Command::Quit)
        } else {
            None
        }
    }
}

/// The length of a session of kind `session`, in seconds, fits in a `u64`.
pub open spec fn fits(config: Config, session: SessionType) -> bool {
    session.minutes(config) * 60 <= u64::MAX
}

/// Every session length, in seconds, fits in a `u64`.
pub open spec fn lengths_fit(config: Config) -> bool {
    &&& fits(config, SessionType::Work)
    &&& fits(config, SessionType::ShortBreak)
    &&& fits(config, SessionType::LongBreak)
}

/// The length of a session of kind `session`, in seconds.
pub open spec fn session_secs(config: Config, session: SessionType) -> u64 {
    (session.minutes(config) * 60) as u64
}

/// Whether a session of kind `session` starts running by itself.
pub open spec fn auto_starts(config: Config, session: SessionType) -> bool {
    match session {
        SessionType::Work => config.auto_start_work,
        _ => config.auto_start_breaks,
    }
}

/// Whether the timer can run with these settings: a positive long-break
/// cadence, and every session length in seconds within a `u64`.
pub open spec fn runnable(config: Config) -> bool {
    config.long_break_every > 0 && lengths_fit(config)
}

impl Config {
    /// Whether the length of a session of kind `session`, in seconds, fits
    /// in a `u64`.
    pub fn length_fits(&self, session: SessionType) -> (b: bool)
        ensures
            b == fits(*self, session),
    {
        session.duration_minutes(self) <= u64::MAX / 60
    }
}

/// The text of the key help line.
pub open spec fn help_text() -> Seq<char> {
    "s: start  p: pause/resume  r: restart  c: cancel  w: work  b: break  n: next  q: quit"@
}

/// What the display shows.
pub struct Screen {
    pub session_label: &'static str,
    pub status_label: &'static str,
    pub running: bool,
    pub timer_lines: Vec<String>,
    pub resting: bool,
    pub message: String,
    pub help: &'static str,
}

/// The timer: its settings, the current session and the countdown.
pub struct App {
    pub config: Config,
    pub session_type: SessionType,
    pub status: TimerStatus,
    /// The length of the current session, in seconds.
    pub duration_secs: u64,
    /// What is left of the current session, in nanoseconds.
    pub remaining_nanos: u128,
    /// The monotonic clock at the last time the countdown was brought up to
    /// date.
    pub last_tick: u128,
    /// The wall clock when the current session started.
    pub session_start: Stamp,
    pub completed_work_sessions: u64,
    pub message: Option<String>,
    pub should_exit: bool,
}

impl App {
    /// The state invariant: the session has its configured length, in
    /// seconds within a `u64`, no more than that is left, and the start of
    /// the session is a calendar instant.
    pub open spec fn wf(self) -> bool {
        &&& fits(self.config, self.session_type)
        &&& self.duration_secs == session_secs(self.config, self.session_type)
        &&& self.remaining_nanos <= self.duration_secs * NANOS_PER_SEC
        &&& self.session_start.in_range()
    }

    /// The length of the current session, in nanoseconds.
    pub open spec fn full_nanos(self) -> u128 {
        (self.duration_secs * NANOS_PER_SEC) as u128
    }

    /// A session of kind `session` begins at `clock`, running when
    /// `auto_start` says so.
    pub open spec fn begun(self, session: SessionType, auto_start: bool, clock: Clock) -> App {
        let secs = session_secs(self.config, session);
        App {
            session_type: session,
            duration_secs: secs,
            remaining_nanos: (secs * NANOS_PER_SEC) as u128,
            status: if auto_start { TimerStatus::Running } else { TimerStatus::Paused },
            last_tick: if auto_start { clock.mono_nanos } else { self.last_tick },
            session_start: clock.wall,
            ..self
        }
    }

    /// The current session starts over at `clock`, paused or running.
    pub open spec fn reset(self, paused: bool, clock: Clock) -> App {
        let secs = session_secs(self.config, self.session_type);
        App {
            duration_secs: secs,
            remaining_nanos: (secs * NANOS_PER_SEC) as u128,
            status: if paused { TimerStatus::Paused } else { TimerStatus::Running },
            last_tick: if paused { self.last_tick } else { clock.mono_nanos },
            session_start: if paused { self.session_start } else { clock.wall },
            ..self
        }
    }

    /// The record of the current session ending at `end` as `outcome` says.
    pub open spec fn record(self, outcome: Outcome, end: Stamp) -> EffectView {
        EffectView::Log(
            record_of(
                self.session_start,
                end,
                self.session_type,
                self.duration_secs / 60,
                outcome,
            ),
        )
    }

    /// The kind of session that follows the current one: a break follows
    /// work, long when the work session completes and brings the number of
    /// completed work sessions to a multiple of the cadence; work follows a
    /// break.
    pub open spec fn next_session(self, completed: bool) -> SessionType {
        match self.session_type {
            SessionType::Work => if completed && (self.completed_work_sessions + 1)
                % self.config.long_break_every as int == 0 {
                SessionType::LongBreak
            } else {
                SessionType::ShortBreak
            },
            _ => SessionType::Work,
        }
    }

    /// The completed work sessions after the current session ends.
    pub open spec fn count_after(self, completed: bool) -> u64 {
        if self.session_type == SessionType::Work && completed {
            (self.completed_work_sessions + 1) as u64
        } else {
            self.completed_work_sessions
        }
    }

    /// A tick at `clock` runs the current session out.
    pub open spec fn runs_out(self, clock: Clock) -> bool {
        &&& self.status == TimerStatus::Running
        &&& !self.should_exit
        &&& self.elapsed(clock) >= self.remaining_nanos
    }

    /// Moving on from the current session cannot fail: the next session's
    /// length fits, and counting a completed work session has a positive
    /// cadence to compare with and room in the count.
    pub open spec fn can_advance(self, completed: bool) -> bool {
        &&& self.session_type == SessionType::Work && completed ==> {
            &&& self.config.long_break_every > 0
            &&& self.completed_work_sessions < u64::MAX
        }
        &&& fits(self.config, self.next_session(completed))
    }

    /// Carrying out `command` cannot fail: a session it begins has a length
    /// that fits, and skipping can move on.
    pub open spec fn can_apply(self, command: Command) -> bool {
        match command {
            Command::NewWork => fits(self.config, SessionType::Work),
            Command::NewBreak => fits(self.config, SessionType::ShortBreak),
            Command::Skip => self.can_advance(false),
            _ => true,
        }
    }

    /// A tick at `clock` cannot fail: if it runs the session out, the timer
    /// can move on.
    pub open spec fn can_tick(self, clock: Clock) -> bool {
        self.runs_out(clock) ==> self.can_advance(true)
    }

    /// The timer moves on from the current session to the next one.
    pub open spec fn advanced(self, completed: bool, clock: Clock) -> App {
        let next = self.next_session(completed);
        App { completed_work_sessions: self.count_after(completed), ..self }.begun(
            next,
            auto_starts(self.config, next),
            clock,
        )
    }

    /// The current session ends as `outcome` says: it is logged, the sound
    /// is asked for if wanted and the session completed, and the timer moves
    /// on or, when it does not advance, stops.
    pub open spec fn finished(self, outcome: Outcome, advance: bool, play_sound: bool, clock: Clock) -> (
        App,
        Seq<EffectView>,
    ) {
        let logged = seq![self.record(outcome, clock.wall)];
        let effects = if play_sound && outcome == Outcome::Completed {
            logged.push(EffectView::PlaySound)
        } else {
            logged
        };
        if advance {
            (self.advanced(outcome == Outcome::Completed, clock), effects)
        } else {
            (App { should_exit: true, ..self }, effects)
        }
    }

    /// The nanoseconds that passed since the countdown was last brought up
    /// to date, none if the clock reads earlier.
    pub open spec fn elapsed(self, clock: Clock) -> u128 {
        if clock.mono_nanos >= self.last_tick {
            (clock.mono_nanos - self.last_tick) as u128
        } else {
            0
        }
    }

    /// A tick of the clock: a running timer counts down the time that
    /// passed, and when it runs out the session completes.
    pub open spec fn ticked(self, clock: Clock) -> (App, Seq<EffectView>) {
        if self.status != TimerStatus::Running || self.should_exit {
            (self, seq![])
        } else if self.elapsed(clock) >= self.remaining_nanos {
            App { remaining_nanos: 0, ..self }.finished(Outcome::Completed, true, true, clock)
        } else {
            (
                App {
                    remaining_nanos: (self.remaining_nanos - self.elapsed(clock)) as u128,
                    last_tick: clock.mono_nanos,
                    ..self
                },
                seq![],
            )
        }
    }

    /// Pause a running timer, or run a paused one; a session that runs for
    /// the first time starts at `clock`.
    pub open spec fn toggled(self, clock: Clock) -> (App, Seq<EffectView>) {
        match self.status {
            TimerStatus::Running => (App { status: TimerStatus::Paused, ..self }, seq![]),
            TimerStatus::Paused => (
                App {
                    status: TimerStatus::Running,
                    last_tick: clock.mono_nanos,
                    session_start: if self.remaining_nanos == self.full_nanos() {
                        clock.wall
                    } else {
                        self.session_start
                    },
                    ..self
                },
                seq![],
            ),
        }
    }

    /// Asking to quit: a session under way is logged as cancelled, and the
    /// timer stops.
    pub open spec fn quit(self, clock: Clock) -> (App, Seq<EffectView>) {
        (
            App { should_exit: true, ..self },
            if self.remaining_nanos < self.full_nanos() {
                seq![self.record(Outcome::Cancelled, clock.wall)]
            } else {
                seq![]
            },
        )
    }

    /// What a command does.
    pub open spec fn applied(self, command: Command, clock: Clock) -> (App, Seq<EffectView>) {
        match command {
            Command::Start => if self.status == TimerStatus::Paused {
                self.toggled(clock)
            } else {
                (self, seq![])
            },
            Command::TogglePause => self.toggled(clock),
            Command::Restart => (self.reset(false, clock), seq![]),
            Command::Cancel => (
                self.reset(true, clock),
                seq![self.record(Outcome::Cancelled, clock.wall)],
            ),
            Command::NewWork => (self.begun(SessionType::Work, true, clock), seq![]),
            Command::NewBreak => (self.begun(SessionType::ShortBreak, true, clock), seq![]),
            Command::Skip => self.finished(Outcome::Skipped, true, false, clock),
            Command::Quit => self.quit(clock),
        }
    }
}

impl App {
    /// A timer at the start of a paused work session, with no completed
    /// work sessions, showing `message`.
    pub fn new(config: Config, message: Option<String>, clock: &Clock) -> (app: App)
        requires
            fits(config, SessionType::Work),
            clock.wall.in_range(),
        ensures
            app.wf(),
            app == (App {
                config,
                session_type: SessionType::Work,
                status: TimerStatus::Paused,
                duration_secs: session_secs(config, SessionType::Work),
                remaining_nanos: (session_secs(config, SessionType::Work) * NANOS_PER_SEC) as u128,
                last_tick: clock.mono_nanos,
                session_start: clock.wall,
                completed_work_sessions: 0,
                message,
                should_exit: false,
            }),
    {
        let duration_secs = config.work_minutes * 60;
        App {
            config,
            session_type: SessionType::Work,
            status: TimerStatus::Paused,
            duration_secs,
            remaining_nanos: duration_secs as u128 * NANOS_PER_SEC,
            last_tick: clock.mono_nanos,
            session_start: clock.wall,
            completed_work_sessions: 0,
            message,
            should_exit: false,
        }
    }

    /// A tick of the clock.
    pub fn on_tick(&mut self, clock: &Clock, effects: &mut Vec<Effect>)
        requires
            old(self).wf(),
            old(self).can_tick(*clock),
            clock.wall.in_range(),
        ensures
            final(self).wf(),
            *final(self) == old(self).ticked(*clock).0,
            effect_views(final(effects)@) == effect_views(old(effects)@) + old(self).ticked(
                *clock,
            ).1,
    {
        if self.status != TimerStatus::Running || self.should_exit {
            return;
        }
        let delta = clock.mono_nanos.saturating_sub(self.last_tick);
        if delta >= self.remaining_nanos {
            self.remaining_nanos = 0;
            self.finish_current(Outcome::Completed, true, true, clock, effects);
        } else {
            self.remaining_nanos = self.remaining_nanos - delta;
            self.last_tick = clock.mono_nanos;
        }
    }

    /// The kind of session that follows the current one.
    fn following(&self, completed: bool) -> (next: SessionType)
        requires
            self.session_type == SessionType::Work && completed ==> {
                &&& self.config.long_break_every > 0
                &&& self.completed_work_sessions < u64::MAX
            },
        ensures
            next == self.next_session(completed),
    {
        match self.session_type {
            SessionType::Work => {
                if completed && (self.completed_work_sessions + 1) % self.config.long_break_every
                    == 0 {
                    SessionType::LongBreak
                } else {
                    SessionType::ShortBreak
                }
            },
            SessionType::ShortBreak | SessionType::LongBreak => SessionType::Work,
        }
    }

    /// Whether moving on from the current session can be done.
    pub fn can_move_on(&self, completed: bool) -> (b: bool)
        ensures
            b == self.can_advance(completed),
    {
        if self.session_type == SessionType::Work && completed && (self.config.long_break_every
            == 0 || self.completed_work_sessions == u64::MAX) {
            return false;
        }
        self.config.length_fits(self.following(completed))
    }

    /// Whether `command` can be carried out.
    pub fn can_run(&self, command: Command) -> (b: bool)
        ensures
            b == self.can_apply(command),
    {
        match command {
            Command::NewWork => self.config.length_fits(SessionType::Work),
            Command::NewBreak => self.config.length_fits(SessionType::ShortBreak),
            Command::Skip => self.can_move_on(false),
            _ => true,
        }
    }

    /// Whether a tick at `clock` can be carried out.
    pub fn can_tick_at(&self, clock: &Clock) -> (b: bool)
        ensures
            b == self.can_tick(*clock),
    {
        let runs_out = self.status == TimerStatus::Running && !self.should_exit
            && clock.mono_nanos.saturating_sub(self.last_tick) >= self.remaining_nanos;
        !runs_out || self.can_move_on(true)
    }

    /// Pause a running timer, or run a paused one.
    pub fn toggle_pause(&mut self, clock: &Clock)
        requires
            old(self).wf(),
            clock.wall.in_range(),
        ensures
            final(self).wf(),
            *final(self) == old(self).toggled(*clock).0,
    {
        match self.status {
            TimerStatus::Running => {
                self.status = TimerStatus::Paused;
            },
            TimerStatus::Paused => {
                if self.remaining_nanos == self.duration_secs as u128 * NANOS_PER_SEC {
                    self.session_start = clock.wall;
                }
                self.status = TimerStatus::Running;
                self.last_tick = clock.mono_nanos;
            },
        }
    }

    /// Run a paused timer; a running one is left as it is.
    pub fn start(&mut self, clock: &Clock)
        requires
            old(self).wf(),
            clock.wall.in_range(),
        ensures
            final(self).wf(),
            *final(self) == old(self).applied(Command::Start, *clock).0,
    {
        if self.status == TimerStatus::Paused {
            self.toggle_pause(clock);
        }
    }

    /// Start the current session over, running.
    pub fn restart(&mut self, clock: &Clock)
        requires
            old(self).wf(),
            clock.wall.in_range(),
        ensures
            final(self).wf(),
            *final(self) == old(self).reset(false, *clock),
    {
        self.reset_current(false, clock);
    }

    /// Log the current session as cancelled and start it over, paused.
    pub fn cancel(&mut self, clock: &Clock, effects: &mut Vec<Effect>)
        requires
            old(self).wf(),
            clock.wall.in_range(),
        ensures
            final(self).wf(),
            *final(self) == old(self).applied(Command::Cancel, *clock).0,
            effect_views(final(effects)@) == effect_views(old(effects)@) + old(self).applied(
                Command::Cancel,
                *clock,
            ).1,
    {
        self.log_current(Outcome::Cancelled, clock, effects);
        self.reset_current(true, clock);
    }

    /// Begin a work session, running.
    pub fn start_new_work_session(&mut self, clock: &Clock)
        requires
            old(self).wf(),
            fits(old(self).config, SessionType::Work),
            clock.wall.in_range(),
        ensures
            final(self).wf(),
            *final(self) == old(self).begun(SessionType::Work, true, *clock),
    {
        self.set_session(SessionType::Work, true, clock);
    }

    /// Begin a short break, running.
    pub fn start_new_break_session(&mut self, clock: &Clock)
        requires
            old(self).wf(),
            fits(old(self).config, SessionType::ShortBreak),
            clock.wall.in_range(),
        ensures
            final(self).wf(),
            *final(self) == old(self).begun(SessionType::ShortBreak, true, *clock),
    {
        self.set_session(SessionType::ShortBreak, true, clock);
    }

    /// Log the current session as skipped and move on to the next one.
    pub fn skip(&mut self, clock: &Clock, effects: &mut Vec<Effect>)
        requires
            old(self).wf(),
            old(self).can_advance(false),
            clock.wall.in_range(),
        ensures
            begins_with_flags(
                *final(self),
                old(self).config,
                following_kind(*old(self), false),
                *clock,
            ),
            final(self).completed_work_sessions == old(self).completed_work_sessions,
            effect_views(final(effects)@).len() == old(effects)@.len() + 1,
            logs_session(
                *old(self),
                effect_views(final(effects)@)[old(effects)@.len() as int],
                "skipped"@,
                clock.wall,
            ),
            final(self).wf(),
            *final(self) == old(self).finished(Outcome::Skipped, true, false, *clock).0,
            effect_views(final(effects)@) == effect_views(old(effects)@) + old(self).finished(
                Outcome::Skipped,
                true,
                false,
                *clock,
            ).1,
    {
        self.finish_current(Outcome::Skipped, true, false, clock, effects);
        proof {
            lemma_skip_moves_on(*old(self), *clock);
        }
    }

    /// Stop the timer; a session under way is logged as cancelled.
    pub fn request_exit(&mut self, clock: &Clock, effects: &mut Vec<Effect>)
        requires
            old(self).wf(),
            clock.wall.in_range(),
        ensures
            final(self).wf(),
            *final(self) == old(self).quit(*clock).0,
            effect_views(final(effects)@) == effect_views(old(effects)@) + old(self).quit(
                *clock,
            ).1,
            final(self).should_exit,
            old(self).remaining_nanos < minutes_field(old(self).config, old(self).session_type)
                * 60 * NANOS_PER_SEC ==> {
                &&& effect_views(final(effects)@).len() == old(effects)@.len() + 1
                &&& logs_session(
                    *old(self),
                    effect_views(final(effects)@)[old(effects)@.len() as int],
                    "cancelled"@,
                    clock.wall,
                )
            },
            old(self).remaining_nanos == minutes_field(old(self).config, old(self).session_type)
                * 60 * NANOS_PER_SEC ==> effect_views(final(effects)@) == effect_views(
                old(effects)@,
            ),
    {
        proof {
            lemma_cancelled_records(*old(self), *clock);
        }
        if self.remaining_nanos < self.duration_secs as u128 * NANOS_PER_SEC {
            self.log_current(Outcome::Cancelled, clock, effects);
        }
        self.should_exit = true;
    }

    /// End the current session as `outcome` says: log it, ask for the sound
    /// when `should_play_sound` and it completed, then move on when
    /// `advance`, else stop.
    pub fn finish_current(
        &mut self,
        outcome: Outcome,
        advance: bool,
        should_play_sound: bool,
        clock: &Clock,
        effects: &mut Vec<Effect>,
    )
        requires
            old(self).wf(),
            advance ==> old(self).can_advance(outcome == Outcome::Completed),
            clock.wall.in_range(),
        ensures
            final(self).wf(),
            *final(self) == old(self).finished(outcome, advance, should_play_sound, *clock).0,
            effect_views(final(effects)@) == effect_views(old(effects)@) + old(self).finished(
                outcome,
                advance,
                should_play_sound,
                *clock,
            ).1,
    {
        let ghost before = effect_views(old(effects)@);
        self.log_current(outcome, clock, effects);
        if should_play_sound && outcome == Outcome::Completed {
            let ghost logged = effects@;
            effects.push(Effect::PlaySound);
            assert(effect_views(effects@) =~= effect_views(logged).push(EffectView::PlaySound));
        }
        assert(effect_views(effects@) =~= before + old(self).finished(
            outcome,
            advance,
            should_play_sound,
            *clock,
        ).1);
        if advance {
            self.advance_session(outcome == Outcome::Completed, clock);
        } else {
            self.should_exit = true;
        }
    }

    /// Move on from the current session to the next one.
    pub fn advance_session(&mut self, completed: bool, clock: &Clock)
        requires
            old(self).wf(),
            old(self).can_advance(completed),
            clock.wall.in_range(),
        ensures
            final(self).wf(),
            *final(self) == old(self).advanced(completed, *clock),
            begins_with_flags(
                *final(self),
                old(self).config,
                following_kind(*old(self), completed),
                *clock,
            ),
            (final(self).status == TimerStatus::Running) <==> (if final(self).session_type
                == SessionType::Work {
                old(self).config.auto_start_work
            } else {
                old(self).config.auto_start_breaks
            }),
    {
        proof {
            lemma_advance_follows_settings(*old(self), completed, *clock);
        }
        let next = match self.session_type {
            SessionType::Work => {
                if completed {
                    self.completed_work_sessions = self.completed_work_sessions + 1;
                    if self.completed_work_sessions % self.config.long_break_every == 0 {
                        SessionType::LongBreak
                    } else {
                        SessionType::ShortBreak
                    }
                } else {
                    SessionType::ShortBreak
                }
            },
            SessionType::ShortBreak | SessionType::LongBreak => SessionType::Work,
        };
        let auto_start = match next {
            SessionType::Work => self.config.auto_start_work,
            SessionType::ShortBreak | SessionType::LongBreak => self.config.auto_start_breaks,
        };
        self.set_session(next, auto_start, clock);
    }

    /// Begin a session of kind `session_type`, running when `auto_start`.
    pub fn set_session(&mut self, session_type: SessionType, auto_start: bool, clock: &Clock)
        requires
            fits(old(self).config, session_type),
            clock.wall.in_range(),
        ensures
            final(self).wf(),
            *final(self) == old(self).begun(session_type, auto_start, *clock),
    {
        self.session_type = session_type;
        let minutes = self.session_type.duration_minutes(&self.config);
        self.duration_secs = minutes * 60;
        self.remaining_nanos = self.duration_secs as u128 * NANOS_PER_SEC;
        if auto_start {
            self.status = TimerStatus::Running;
            self.last_tick = clock.mono_nanos;
        } else {
            self.status = TimerStatus::Paused;
        }
        self.session_start = clock.wall;
    }

    /// Start the current session over, paused or running.
    pub fn reset_current(&mut self, paused: bool, clock: &Clock)
        requires
            old(self).wf(),
            clock.wall.in_range(),
        ensures
            final(self).wf(),
            *final(self) == old(self).reset(paused, *clock),
    {
        let minutes = self.session_type.duration_minutes(&self.config);
        self.duration_secs = minutes * 60;
        self.remaining_nanos = self.duration_secs as u128 * NANOS_PER_SEC;
        if paused {
            self.status = TimerStatus::Paused;
        } else {
            self.status = TimerStatus::Running;
            self.last_tick = clock.mono_nanos;
            self.session_start = clock.wall;
        }
    }

    /// Ask for the current session to be logged as ending, now, as
    /// `outcome` says.
    pub fn log_current(&self, outcome: Outcome, clock: &Clock, effects: &mut Vec<Effect>)
        requires
            self.wf(),
            clock.wall.in_range(),
        ensures
            effect_views(final(effects)@) == effect_views(old(effects)@).push(
                self.record(outcome, clock.wall),
            ),
    {
        let record = make_log_record(
            &self.session_start,
            &clock.wall,
            self.session_type,
            self.duration_secs / 60,
            outcome,
        );
        let ghost before = effects@;
        effects.push(Effect::Log(record));
        assert(effect_views(effects@) =~= effect_views(before).push(
            self.record(outcome, clock.wall),
        ));
    }

    /// A log record could not be written: show why.
    pub fn log_failed(&mut self, err: &str)
        ensures
            final(self).message is Some,
            final(self).message->0@ == "Log write failed: "@ + err@,
            *final(self) == (App { message: final(self).message, ..*old(self) }),
    {
        broadcast use vstd::string::group_string_axioms;

        let mut note = "Log write failed: ".to_string();
        note.append(err);
        self.message = Some(note);
    }

    /// Carry out a command.
    pub fn apply(&mut self, command: Command, clock: &Clock, effects: &mut Vec<Effect>)
        requires
            old(self).wf(),
            old(self).can_apply(command),
            clock.wall.in_range(),
        ensures
            final(self).wf(),
            *final(self) == old(self).applied(command, *clock).0,
            effect_views(final(effects)@) == effect_views(old(effects)@) + old(self).applied(
                command,
                *clock,
            ).1,
    {
        let ghost before = effect_views(effects@);
        match command {
            Command::Start => self.start(clock),
            Command::TogglePause => self.toggle_pause(clock),
            Command::Restart => self.restart(clock),
            Command::Cancel => self.cancel(clock, effects),
            Command::NewWork => self.start_new_work_session(clock),
            Command::NewBreak => self.start_new_break_session(clock),
            Command::Skip => self.skip(clock, effects),
            Command::Quit => self.request_exit(clock, effects),
        }
        proof {
            if command == Command::Start || command == Command::TogglePause || command
                == Command::Restart || command == Command::NewWork || command == Command::NewBreak {
                assert(effect_views(effects@) =~= before + seq![]);
            }
        }
    }

    /// What the display shows: the session and status names, the large
    /// clock face of the whole seconds left (whole minutes only when the
    /// settings hide seconds), whether the session is a break, the message
    /// (`Ready` when there is none) and the key help.
    pub fn screen(&self) -> (screen: Screen)
        requires
            self.wf(),
        ensures
            screen.session_label@ == self.session_type.label_text(),
            screen.status_label@ == self.status.label_text(),
            screen.running == (self.status == TimerStatus::Running),
            views(screen.timer_lines@) == repeat_rows(
                timer_rows(
                    face_text(
                        (self.remaining_nanos / NANOS_PER_SEC) as nat,
                        self.config.show_seconds,
                    ),
                ),
                2,
            ),
            screen.resting == self.session_type.is_rest(),
            screen.message@ == match self.message {
                Some(m) => m@,
                None => "Ready"@,
            },
            screen.help@ == help_text(),
    {
        broadcast use vstd::string::group_string_axioms;

        let secs = (self.remaining_nanos / NANOS_PER_SEC) as u64;
        let text = format_face(secs, self.config.show_seconds);
        let message = match &self.message {
            Some(m) => m.clone(),
            None => "Ready".to_string(),
        };
        Screen {
            session_label: self.session_type.label(),
            status_label: self.status.label(),
            running: self.status == TimerStatus::Running,
            timer_lines: big_timer_lines(text.as_str()),
            resting: self.session_type != SessionType::Work,
            message,
            help: "s: start  p: pause/resume  r: restart  c: cancel  w: work  b: break  n: next  q: quit",
        }
    }
}

} // verus!
