use terminal_tomato::clock::Stamp;
use terminal_tomato::config::Config;
use terminal_tomato::log::{log_file_name, make_log_record, LogEntry};
use terminal_tomato::session::{Outcome, SessionType, TimerStatus};
use terminal_tomato::timer::{App, Clock, Command, Effect};

const SEC: u128 = 1_000_000_000;
const MORNING: i64 = 1_772_010_000;
const SHORT: SessionType = SessionType::ShortBreak;
const LONG: SessionType = SessionType::LongBreak;

fn clock_at(secs: u64) -> Clock {
    Clock {
        mono_nanos: secs as u128 * SEC,
        wall: Stamp { secs: MORNING + secs as i64, nanos: 0, offset_secs: 0 },
    }
}

fn config(every: u64, auto_breaks: bool, auto_work: bool) -> Config {
    Config {
        work_minutes: 25,
        short_break_minutes: 5,
        long_break_minutes: 15,
        long_break_every: every,
        auto_start_breaks: auto_breaks,
        auto_start_work: auto_work,
        show_seconds: true,
        sound_path: String::new(),
        log_dir: "logs".to_string(),
    }
}

fn logged(effect: &Effect) -> &LogEntry {
    match effect {
        Effect::Log(record) => &record.entry,
        Effect::PlaySound => panic!("expected a log record"),
    }
}

/// Runs the current session out with one tick at `secs` and returns the effects.
fn run_out(app: &mut App, secs: u64) -> Vec<Effect> {
    let mut fx = Vec::new();
    app.on_tick(&clock_at(secs), &mut fx);
    fx
}

#[test]
fn a_new_timer_waits_at_a_full_work_session() {
    let app = App::new(config(4, true, true), Some("hello".to_string()), &clock_at(0));
    assert_eq!(app.session_type, SessionType::Work);
    assert_eq!(app.status, TimerStatus::Paused);
    assert_eq!(app.duration_secs, 1500);
    assert_eq!(app.remaining_nanos, 1500 * SEC);
    assert_eq!(app.completed_work_sessions, 0);
    assert_eq!(app.message.as_deref(), Some("hello"));
    assert!(!app.should_exit);
}

#[test]
fn ticks_count_down_only_while_running() {
    let mut app = App::new(config(4, true, true), None, &clock_at(0));
    let mut fx = Vec::new();
    app.on_tick(&clock_at(10), &mut fx);
    assert_eq!(app.remaining_nanos, 1500 * SEC);
    app.toggle_pause(&clock_at(10));
    app.on_tick(&clock_at(70), &mut fx);
    assert_eq!(app.remaining_nanos, 1440 * SEC);
    app.on_tick(&clock_at(100), &mut fx);
    assert_eq!(app.remaining_nanos, 1410 * SEC);
    assert!(fx.is_empty());
}

#[test]
fn two_ticks_count_as_one() {
    let mut split = App::new(config(4, true, true), None, &clock_at(0));
    let mut whole = App::new(config(4, true, true), None, &clock_at(0));
    split.start(&clock_at(0));
    whole.start(&clock_at(0));
    let mut fx = Vec::new();
    split.on_tick(&clock_at(300), &mut fx);
    split.on_tick(&clock_at(900), &mut fx);
    whole.on_tick(&clock_at(900), &mut fx);
    assert_eq!(split.remaining_nanos, whole.remaining_nanos);
    assert_eq!(split.last_tick, whole.last_tick);
    assert_eq!(split.remaining_nanos, 600 * SEC);
}

#[test]
fn pause_and_resume_keep_what_is_left() {
    let mut app = App::new(config(4, true, true), None, &clock_at(0));
    app.start(&clock_at(0));
    let mut fx = Vec::new();
    app.on_tick(&clock_at(100), &mut fx);
    app.toggle_pause(&clock_at(100));
    assert_eq!(app.status, TimerStatus::Paused);
    app.on_tick(&clock_at(1000), &mut fx);
    app.toggle_pause(&clock_at(1000));
    assert_eq!(app.status, TimerStatus::Running);
    assert_eq!(app.remaining_nanos, 1400 * SEC);
    assert_eq!(app.session_start.secs, MORNING);
    app.on_tick(&clock_at(1010), &mut fx);
    assert_eq!(app.remaining_nanos, 1390 * SEC);
    app.start(&clock_at(1020));
    assert_eq!(app.last_tick, 1010 * SEC);
}

#[test]
fn completing_work_logs_plays_and_moves_to_a_break() {
    let mut app = App::new(config(4, true, true), None, &clock_at(0));
    app.start(&clock_at(0));
    let fx = run_out(&mut app, 1500);
    assert_eq!(fx.len(), 2);
    let entry = logged(&fx[0]);
    assert_eq!(entry.start_ts, "2026-02-25T09:00:00+00:00");
    assert_eq!(entry.end_ts, "2026-02-25T09:25:00+00:00");
    assert_eq!(entry.session_type, "Work");
    assert_eq!(entry.duration_min, 25);
    assert_eq!(entry.status, "completed");
    match &fx[0] {
        Effect::Log(record) => assert_eq!(record.file_name, "2026-02-25.jsonl"),
        Effect::PlaySound => panic!("expected a log record"),
    }
    assert!(matches!(fx[1], Effect::PlaySound));
    assert_eq!(app.session_type, SessionType::ShortBreak);
    assert_eq!(app.status, TimerStatus::Running);
    assert_eq!(app.remaining_nanos, 300 * SEC);
    assert_eq!(app.completed_work_sessions, 1);
    assert_eq!(app.last_tick, 1500 * SEC);
}

#[test]
fn every_fourth_completed_work_session_earns_a_long_break() {
    let mut app = App::new(config(4, true, true), None, &clock_at(0));
    app.start(&clock_at(0));
    let mut t = 0u64;
    let mut breaks = Vec::new();
    for _ in 0..8 {
        t += 1500;
        run_out(&mut app, t);
        breaks.push(app.session_type);
        t += app.duration_secs;
        run_out(&mut app, t);
        assert_eq!(app.session_type, SessionType::Work);
    }
    assert_eq!(
        breaks,
        vec![SHORT, SHORT, SHORT, LONG, SHORT, SHORT, SHORT, LONG]
    );
    assert_eq!(app.completed_work_sessions, 8);
}

#[test]
fn without_auto_start_the_next_session_waits() {
    let mut app = App::new(config(4, false, false), None, &clock_at(0));
    app.start(&clock_at(0));
    run_out(&mut app, 1500);
    assert_eq!(app.session_type, SessionType::ShortBreak);
    assert_eq!(app.status, TimerStatus::Paused);
    app.start(&clock_at(2000));
    assert_eq!(app.status, TimerStatus::Running);
    assert_eq!(app.session_start.secs, MORNING + 2000);
    run_out(&mut app, 2300);
    assert_eq!(app.session_type, SessionType::Work);
    assert_eq!(app.status, TimerStatus::Paused);
}

#[test]
fn skipping_logs_and_does_not_count() {
    let mut app = App::new(config(1, true, true), None, &clock_at(0));
    let mut fx = Vec::new();
    app.skip(&clock_at(5), &mut fx);
    assert_eq!(fx.len(), 1);
    assert_eq!(logged(&fx[0]).status, "skipped");
    assert_eq!(app.session_type, SessionType::ShortBreak);
    assert_eq!(app.completed_work_sessions, 0);
    app.skip(&clock_at(6), &mut fx);
    assert_eq!(app.session_type, SessionType::Work);
    assert_eq!(logged(&fx[1]).session_type, "Short Break");
    assert_eq!(logged(&fx[1]).duration_min, 5);
}

#[test]
fn cancel_logs_and_waits_at_the_start() {
    let mut app = App::new(config(4, true, true), None, &clock_at(0));
    app.start(&clock_at(0));
    let mut fx = Vec::new();
    app.on_tick(&clock_at(60), &mut fx);
    app.cancel(&clock_at(60), &mut fx);
    assert_eq!(fx.len(), 1);
    assert_eq!(logged(&fx[0]).status, "cancelled");
    assert_eq!(app.status, TimerStatus::Paused);
    assert_eq!(app.remaining_nanos, 1500 * SEC);
    assert_eq!(app.session_type, SessionType::Work);
}

#[test]
fn restart_runs_the_session_again_in_full() {
    let mut app = App::new(config(4, true, true), None, &clock_at(0));
    app.start(&clock_at(0));
    let mut fx = Vec::new();
    app.on_tick(&clock_at(60), &mut fx);
    app.restart(&clock_at(61));
    assert_eq!(app.status, TimerStatus::Running);
    assert_eq!(app.remaining_nanos, 1500 * SEC);
    assert_eq!(app.last_tick, 61 * SEC);
    assert_eq!(app.session_start.secs, MORNING + 61);
    assert!(fx.is_empty());
}

#[test]
fn new_sessions_on_request() {
    let mut app = App::new(config(4, false, false), None, &clock_at(0));
    app.start_new_break_session(&clock_at(3));
    assert_eq!(app.session_type, SessionType::ShortBreak);
    assert_eq!(app.status, TimerStatus::Running);
    assert_eq!(app.remaining_nanos, 300 * SEC);
    app.start_new_work_session(&clock_at(4));
    assert_eq!(app.session_type, SessionType::Work);
    assert_eq!(app.status, TimerStatus::Running);
    assert_eq!(app.remaining_nanos, 1500 * SEC);
}

#[test]
fn quitting_logs_only_a_session_under_way() {
    let mut fresh = App::new(config(4, true, true), None, &clock_at(0));
    let mut fx = Vec::new();
    fresh.request_exit(&clock_at(1), &mut fx);
    assert!(fresh.should_exit);
    assert!(fx.is_empty());

    let mut busy = App::new(config(4, true, true), None, &clock_at(0));
    busy.start(&clock_at(0));
    busy.on_tick(&clock_at(1), &mut fx);
    busy.request_exit(&clock_at(1), &mut fx);
    assert!(busy.should_exit);
    assert_eq!(fx.len(), 1);
    assert_eq!(logged(&fx[0]).status, "cancelled");
    let before = busy.remaining_nanos;
    busy.on_tick(&clock_at(500), &mut fx);
    assert_eq!(busy.remaining_nanos, before);
}

#[test]
fn finishing_without_advance_stops() {
    let mut app = App::new(config(4, true, true), None, &clock_at(0));
    let mut fx = Vec::new();
    app.finish_current(Outcome::Completed, false, true, &clock_at(9), &mut fx);
    assert!(app.should_exit);
    assert_eq!(fx.len(), 2);
    assert_eq!(app.session_type, SessionType::Work);
    let mut quiet = App::new(config(4, true, true), None, &clock_at(0));
    let mut fx = Vec::new();
    quiet.finish_current(Outcome::Completed, true, false, &clock_at(9), &mut fx);
    assert_eq!(fx.len(), 1);
    assert_eq!(quiet.completed_work_sessions, 1);
}

#[test]
fn keys_map_to_commands() {
    assert_eq!(Command::from_key('s'), Some(Command::Start));
    assert_eq!(Command::from_key('p'), Some(Command::TogglePause));
    assert_eq!(Command::from_key('r'), Some(Command::Restart));
    assert_eq!(Command::from_key('c'), Some(Command::Cancel));
    assert_eq!(Command::from_key('w'), Some(Command::NewWork));
    assert_eq!(Command::from_key('b'), Some(Command::NewBreak));
    assert_eq!(Command::from_key('n'), Some(Command::Skip));
    assert_eq!(Command::from_key('q'), Some(Command::Quit));
    assert_eq!(Command::from_key('x'), None);
    assert_eq!(Command::from_key('S'), None);
}

#[test]
fn commands_act_as_their_methods() {
    let mut app = App::new(config(4, true, true), None, &clock_at(0));
    let mut fx = Vec::new();
    app.apply(Command::Start, &clock_at(0), &mut fx);
    assert_eq!(app.status, TimerStatus::Running);
    app.apply(Command::TogglePause, &clock_at(0), &mut fx);
    assert_eq!(app.status, TimerStatus::Paused);
    app.apply(Command::Skip, &clock_at(1), &mut fx);
    assert_eq!(app.session_type, SessionType::ShortBreak);
    app.apply(Command::NewWork, &clock_at(2), &mut fx);
    assert_eq!(app.session_type, SessionType::Work);
    app.apply(Command::Quit, &clock_at(3), &mut fx);
    assert!(app.should_exit);
    assert_eq!(fx.len(), 1);
}

#[test]
fn a_failed_log_write_is_shown() {
    let mut app = App::new(config(4, true, true), None, &clock_at(0));
    app.log_failed("disk full");
    assert_eq!(app.message.as_deref(), Some("Log write failed: disk full"));
    assert_eq!(app.screen().message, "Log write failed: disk full");
}

#[test]
fn the_screen() {
    let mut app = App::new(config(4, true, true), None, &clock_at(0));
    let screen = app.screen();
    assert_eq!(screen.session_label, "Work");
    assert_eq!(screen.status_label, "Paused");
    assert!(!screen.running);
    assert!(!screen.resting);
    assert_eq!(screen.message, "Ready");
    assert_eq!(
        screen.help,
        "s: start  p: pause/resume  r: restart  c: cancel  w: work  b: break  n: next  q: quit"
    );
    assert_eq!(screen.timer_lines, terminal_tomato::glyph::big_timer_lines("25:00"));
    app.start(&clock_at(0));
    let mut fx = Vec::new();
    app.on_tick(&clock_at(1500), &mut fx);
    let screen = app.screen();
    assert_eq!(screen.session_label, "Short Break");
    assert_eq!(screen.status_label, "Running");
    assert!(screen.running);
    assert!(screen.resting);
    assert_eq!(screen.timer_lines, terminal_tomato::glyph::big_timer_lines("05:00"));
}

#[test]
fn session_names_and_lengths() {
    let c = config(4, true, true);
    assert_eq!(SessionType::Work.label(), "Work");
    assert_eq!(SessionType::ShortBreak.label(), "Short Break");
    assert_eq!(SessionType::LongBreak.label(), "Long Break");
    assert_eq!(SessionType::Work.duration_minutes(&c), 25);
    assert_eq!(SessionType::ShortBreak.duration_minutes(&c), 5);
    assert_eq!(SessionType::LongBreak.duration_minutes(&c), 15);
    assert_eq!(Outcome::Completed.label(), "completed");
    assert_eq!(Outcome::Cancelled.label(), "cancelled");
    assert_eq!(Outcome::Skipped.label(), "skipped");
}

#[test]
fn session_lengths_that_fit() {
    let mut huge = config(4, true, true);
    assert!(huge.length_fits(SessionType::LongBreak));
    huge.long_break_minutes = u64::MAX / 60 + 1;
    assert!(!huge.length_fits(SessionType::LongBreak));
    assert!(huge.length_fits(SessionType::Work));
    huge.long_break_minutes = u64::MAX / 60;
    assert!(huge.length_fits(SessionType::LongBreak));
}

#[test]
fn an_overlong_break_matters_only_when_it_begins() {
    let mut settings = config(1, true, true);
    settings.long_break_minutes = u64::MAX;
    let mut app = App::new(settings, None, &clock_at(0));
    assert!(app.can_run(Command::Skip));
    assert!(app.can_run(Command::NewBreak));
    app.start(&clock_at(0));
    assert!(app.can_tick_at(&clock_at(10)));
    assert!(!app.can_tick_at(&clock_at(1500)));
}

#[test]
fn a_zero_cadence_matters_only_when_work_completes() {
    let mut app = App::new(config(0, true, true), None, &clock_at(0));
    let mut fx = Vec::new();
    assert!(app.can_run(Command::Skip));
    app.apply(Command::Skip, &clock_at(1), &mut fx);
    assert_eq!(app.session_type, SessionType::ShortBreak);
    app.apply(Command::Skip, &clock_at(2), &mut fx);
    app.apply(Command::Start, &clock_at(2), &mut fx);
    assert!(app.can_tick_at(&clock_at(3)));
    assert!(!app.can_tick_at(&clock_at(2000)));
}

#[test]
fn an_overlong_work_session_cannot_be_begun() {
    let mut settings = config(4, true, true);
    settings.work_minutes = u64::MAX;
    assert!(!settings.length_fits(SessionType::Work));
}

#[test]
fn log_records_in_another_offset() {
    let start = Stamp { secs: MORNING, nanos: 0, offset_secs: 5 * 3600 + 1800 };
    let end = Stamp { secs: MORNING + 54_000, nanos: 500_000_000, offset_secs: 5 * 3600 + 1800 };
    let record = make_log_record(&start, &end, SessionType::LongBreak, 15, Outcome::Cancelled);
    assert_eq!(record.entry.start_ts, "2026-02-25T14:30:00+05:30");
    assert_eq!(record.entry.end_ts, "2026-02-26T05:30:00.500+05:30");
    assert_eq!(record.file_name, "2026-02-26.jsonl");
    assert_eq!(record.entry.session_type, "Long Break");
    assert_eq!(record.entry.duration_min, 15);
    assert_eq!(record.entry.status, "cancelled");
    assert_eq!(log_file_name("2026-01-01"), "2026-01-01.jsonl");
    assert!(Stamp { secs: 0, nanos: 0, offset_secs: 86_400 }.is_in_range() == false);
    assert!(start.is_in_range());
}

#[test]
fn hidden_seconds_show_whole_minutes() {
    let mut settings = config(4, true, true);
    settings.show_seconds = false;
    let mut app = App::new(settings, None, &clock_at(0));
    assert_eq!(app.screen().timer_lines, terminal_tomato::glyph::big_timer_lines("25"));
    app.start(&clock_at(0));
    let mut fx = Vec::new();
    app.on_tick(&clock_at(61), &mut fx);
    assert_eq!(app.screen().timer_lines, terminal_tomato::glyph::big_timer_lines("23"));
}

#[test]
fn a_run_of_completed_sessions_alternates() {
    let mut app = App::new(config(3, true, true), None, &clock_at(0));
    for k in 1u64..=7 {
        app.advance_session(true, &clock_at(k));
        assert_eq!(app.completed_work_sessions, k);
        let expected = if k % 3 == 0 { SessionType::LongBreak } else { SessionType::ShortBreak };
        assert_eq!(app.session_type, expected);
        app.advance_session(true, &clock_at(k));
        assert_eq!(app.session_type, SessionType::Work);
        assert_eq!(app.completed_work_sessions, k);
    }
}

#[test]
fn a_full_counter_matters_only_when_work_completes() {
    let mut app = App::new(config(4, true, true), None, &clock_at(0));
    app.completed_work_sessions = u64::MAX;
    app.start(&clock_at(0));
    assert!(app.can_tick_at(&clock_at(10)));
    let mut fx = Vec::new();
    app.on_tick(&clock_at(10), &mut fx);
    assert!(!app.can_tick_at(&clock_at(1500)));
    app.skip(&clock_at(20), &mut fx);
    assert!(app.can_tick_at(&clock_at(5000)));
}
