//! Properties of the timer that span its operations.

use crate::config::{falls_back, invalid_note, Config};
use crate::session::{Outcome, SessionType, TimerStatus};
use crate::glyph::{glyph, lemma_glyph_shape, repeat_rows, thick, timer_row, timer_rows};
use crate::text::{clock_text, decimal, digit, pad2};
use crate::timer::{runnable, App, Clock, Command, EffectView, NANOS_PER_SEC};
use vstd::prelude::*;

verus! {

/// Every command and every tick keeps the state invariant.
pub proof fn lemma_steps_keep_invariant(app: App, command: Command, clock: Clock)
    requires
        app.wf(),
        app.can_apply(command),
        app.can_tick(clock),
        clock.wall.in_range(),
    ensures
        app.applied(command, clock).0.wf(),
        app.ticked(clock).0.wf(),
{
}

/// Pausing a running timer and running it again leaves the session and
/// what is left of it as they were; only the time of the last tick moves,
/// and the start is stamped anew only if nothing of the session had passed.
/// Neither step asks for any effect.
pub proof fn lemma_pause_then_resume(app: App, pause_at: Clock, resume_at: Clock)
    requires
        app.wf(),
        app.status == TimerStatus::Running,
    ensures
        app.toggled(pause_at).1 == Seq::<EffectView>::empty(),
        app.toggled(pause_at).0.status == TimerStatus::Paused,
        app.toggled(pause_at).0.remaining_nanos == app.remaining_nanos,
        app.toggled(pause_at).0.toggled(resume_at).1 == Seq::<EffectView>::empty(),
        app.toggled(pause_at).0.toggled(resume_at).0 == (App {
            last_tick: resume_at.mono_nanos,
            session_start: if app.remaining_nanos == app.full_nanos() {
                resume_at.wall
            } else {
                app.session_start
            },
            ..app
        }),
{
}

/// A paused or stopping timer ignores the clock.
pub proof fn lemma_paused_ignores_ticks(app: App, clock: Clock)
    requires
        app.status == TimerStatus::Paused || app.should_exit,
    ensures
        app.ticked(clock) == (app, Seq::<EffectView>::empty()),
{
}

/// Two ticks that do not run the session out leave the timer as one tick
/// at the later reading does: no time is lost or counted twice.
pub proof fn lemma_ticks_compose(app: App, first: Clock, second: Clock)
    requires
        app.wf(),
        app.status == TimerStatus::Running,
        !app.should_exit,
        app.last_tick <= first.mono_nanos <= second.mono_nanos,
        second.mono_nanos - app.last_tick < app.remaining_nanos,
    ensures
        app.ticked(first).1 == Seq::<EffectView>::empty(),
        app.ticked(first).0.ticked(second).1 == Seq::<EffectView>::empty(),
        app.ticked(first).0.ticked(second).0 == app.ticked(second).0,
        app.ticked(second).0.remaining_nanos == app.remaining_nanos - (second.mono_nanos
            - app.last_tick),
{
}

/// A tick that runs the session out logs it as completed, asks for the
/// sound, and begins the next session at its full length.
pub proof fn lemma_run_out_completes(app: App, clock: Clock)
    requires
        app.wf(),
        app.status == TimerStatus::Running,
        !app.should_exit,
        app.elapsed(clock) >= app.remaining_nanos,
    ensures
        app.ticked(clock).1 == seq![
            App { remaining_nanos: 0, ..app }.record(Outcome::Completed, clock.wall),
            EffectView::PlaySound,
        ],
        app.ticked(clock).0.session_type == app.next_session(true),
        app.ticked(clock).0.remaining_nanos == app.ticked(clock).0.full_nanos(),
        app.ticked(clock).0.completed_work_sessions == app.count_after(true),
{
}

/// The break that follows a completed work session is long exactly when
/// the completed work sessions reach a multiple of the cadence; a skipped
/// work session is followed by a short break and is not counted; work
/// follows every break, however it ends.
pub proof fn lemma_break_cadence(app: App, clock: Clock)
    requires
        app.wf(),
        runnable(app.config),
        app.session_type == SessionType::Work ==> app.completed_work_sessions < u64::MAX,
        clock.wall.in_range(),
    ensures
        app.session_type == SessionType::Work ==> {
            let done = app.finished(Outcome::Completed, true, true, clock).0;
            &&& (done.session_type == SessionType::LongBreak) == ((app.completed_work_sessions + 1)
                % (app.config.long_break_every as int) == 0)
            &&& done.session_type != SessionType::Work
            &&& done.completed_work_sessions == app.completed_work_sessions + 1
        },
        app.session_type == SessionType::Work ==> {
            let skipped = app.applied(Command::Skip, clock).0;
            &&& skipped.session_type == SessionType::ShortBreak
            &&& skipped.completed_work_sessions == app.completed_work_sessions
        },
        app.session_type != SessionType::Work ==> {
            &&& app.finished(Outcome::Completed, true, true, clock).0.session_type
                == SessionType::Work
            &&& app.applied(Command::Skip, clock).0.session_type == SessionType::Work
            &&& app.finished(Outcome::Completed, true, true, clock).0.completed_work_sessions
                == app.completed_work_sessions
        },
{
}

/// The timer after `steps` sessions in a row, each ending as completed and
/// moving on at `clock`.
pub open spec fn completed_run(app: App, steps: nat, clock: Clock) -> App
    decreases steps,
{
    if steps == 0 {
        app
    } else {
        completed_run(app, (steps - 1) as nat, clock).advanced(true, clock)
    }
}

proof fn lemma_completed_pairs(app: App, pairs: nat, clock: Clock)
    requires
        app.wf(),
        runnable(app.config),
        clock.wall.in_range(),
        app.session_type == SessionType::Work,
        app.completed_work_sessions + pairs <= u64::MAX,
    ensures
        completed_run(app, 2 * pairs, clock).wf(),
        completed_run(app, 2 * pairs, clock).config == app.config,
        completed_run(app, 2 * pairs, clock).session_type == SessionType::Work,
        completed_run(app, 2 * pairs, clock).completed_work_sessions
            == app.completed_work_sessions + pairs,
    decreases pairs,
{
    if pairs > 0 {
        lemma_completed_pairs(app, (pairs - 1) as nat, clock);
        let before = completed_run(app, (2 * (pairs - 1)) as nat, clock);
        assert(completed_run(app, (2 * pairs - 1) as nat, clock) == before.advanced(true, clock));
        assert(completed_run(app, 2 * pairs, clock) == completed_run(
            app,
            (2 * pairs - 1) as nat,
            clock,
        ).advanced(true, clock));
    }
}

/// Over a run of sessions that all complete, work and breaks alternate:
/// after `2k - 1` sessions from the start of a work session, `k` more work
/// sessions are counted and the timer is in a break, long exactly when the
/// count is a multiple of the cadence; after `2k` it is at work again, with
/// the same count.
pub proof fn lemma_break_cadence_over_runs(app: App, k: nat, clock: Clock)
    requires
        app.wf(),
        runnable(app.config),
        clock.wall.in_range(),
        app.session_type == SessionType::Work,
        k >= 1,
        app.completed_work_sessions + k <= u64::MAX,
    ensures
        completed_run(app, (2 * k - 1) as nat, clock).completed_work_sessions
            == app.completed_work_sessions + k,
        completed_run(app, (2 * k - 1) as nat, clock).session_type == if (
        app.completed_work_sessions + k) % (app.config.long_break_every as int) == 0 {
            SessionType::LongBreak
        } else {
            SessionType::ShortBreak
        },
        completed_run(app, 2 * k, clock).session_type == SessionType::Work,
        completed_run(app, 2 * k, clock).completed_work_sessions == app.completed_work_sessions
            + k,
{
    lemma_completed_pairs(app, (k - 1) as nat, clock);
    lemma_completed_pairs(app, k, clock);
    let before = completed_run(app, (2 * (k - 1)) as nat, clock);
    assert(completed_run(app, (2 * k - 1) as nat, clock) == before.advanced(true, clock));
}

/// A session that begins, or begins again, has its full configured length
/// left: `minutes * 60` seconds.
pub proof fn lemma_sessions_begin_full(app: App, command: Command, clock: Clock)
    requires
        app.wf(),
        app.can_apply(command),
        clock.wall.in_range(),
        command == Command::Restart || command == Command::Cancel || command == Command::NewWork
            || command == Command::NewBreak || command == Command::Skip,
    ensures
        app.applied(command, clock).0.remaining_nanos == app.applied(command, clock).0.session_type.minutes(
            app.config,
        ) * 60 * NANOS_PER_SEC,
{
}

/// Only a tick that runs a work session out counts it; no command changes
/// the count.
pub proof fn lemma_only_completed_work_counts(app: App, command: Command, clock: Clock)
    requires
        app.wf(),
        app.can_apply(command),
        app.can_tick(clock),
        clock.wall.in_range(),
    ensures
        app.applied(command, clock).0.completed_work_sessions == app.completed_work_sessions,
        app.ticked(clock).0.completed_work_sessions == if app.status == TimerStatus::Running
            && !app.should_exit && app.session_type == SessionType::Work && app.elapsed(clock)
            >= app.remaining_nanos {
            app.completed_work_sessions + 1
        } else {
            app.completed_work_sessions as int
        },
{
}

/// Quitting always stops the timer, and logs the session as cancelled
/// exactly when some of it has passed.
pub proof fn lemma_quit_logs_started_sessions(app: App, clock: Clock)
    requires
        app.wf(),
    ensures
        app.applied(Command::Quit, clock).0.should_exit,
        app.applied(Command::Quit, clock).1.len() == if app.remaining_nanos < app.full_nanos() {
            1int
        } else {
            0
        },
{
}

/// Cancelling logs the session once as cancelled and leaves it paused at
/// its full length; restarting leaves it running at its full length and
/// logs nothing.
pub proof fn lemma_cancel_and_restart(app: App, clock: Clock)
    requires
        app.wf(),
        clock.wall.in_range(),
    ensures
        app.applied(Command::Cancel, clock).1 == seq![app.record(Outcome::Cancelled, clock.wall)],
        app.applied(Command::Cancel, clock).0.status == TimerStatus::Paused,
        app.applied(Command::Cancel, clock).0.remaining_nanos == app.full_nanos(),
        app.applied(Command::Cancel, clock).0.session_type == app.session_type,
        app.applied(Command::Restart, clock).1 == Seq::<EffectView>::empty(),
        app.applied(Command::Restart, clock).0.status == TimerStatus::Running,
        app.applied(Command::Restart, clock).0.remaining_nanos == app.full_nanos(),
        app.applied(Command::Restart, clock).0.session_type == app.session_type,
{
}

/// The default settings pass the check.
pub proof fn lemma_defaults_valid(config: Config)
    requires
        config.is_default(),
    ensures
        config.is_valid(),
{
    reveal_strlit("logs");
    assert(!crate::text::is_white_space(config.log_dir@[0]));
}

/// Whatever settings go in, the checked settings are valid, so checking them
/// again keeps them and gives no note.
pub proof fn lemma_checked_settings_valid(config: Config, checked: (Config, Option<String>))
    requires
        config.is_valid() ==> checked.0 == config && checked.1 is None,
        !config.is_valid() ==> falls_back(checked, invalid_note()),
    ensures
        checked.0.is_valid(),
{
    if !config.is_valid() {
        lemma_defaults_valid(checked.0);
    }
}

/// Five cells that tell the drawable glyphs apart.
pub open spec fn glyph_marks(g: Seq<Seq<char>>) -> (char, char, char, char, char) {
    (g[0][3], g[2][6], g[3][1], g[4][0], g[6][0])
}

/// The characters the clock face draws: the digits and the colon.
pub open spec fn drawable(c: char) -> bool {
    ||| c == '0'
    ||| c == '1'
    ||| c == '2'
    ||| c == '3'
    ||| c == '4'
    ||| c == '5'
    ||| c == '6'
    ||| c == '7'
    ||| c == '8'
    ||| c == '9'
    ||| c == ':'
}

proof fn lemma_glyph_marks(c: char)
    requires
        drawable(c),
    ensures
        c == '0' ==> glyph_marks(glyph(c)) == ('#', '#', ' ', '#', ' '),
        c == '1' ==> glyph_marks(glyph(c)) == ('#', ' ', ' ', ' ', ' '),
        c == '2' ==> glyph_marks(glyph(c)) == ('#', '#', ' ', ' ', '#'),
        c == '3' ==> glyph_marks(glyph(c)) == ('#', '#', ' ', ' ', ' '),
        c == '4' ==> glyph_marks(glyph(c)) == (' ', ' ', '#', ' ', ' '),
        c == '5' ==> glyph_marks(glyph(c)) == ('#', ' ', '#', ' ', ' '),
        c == '6' ==> glyph_marks(glyph(c)) == ('#', ' ', '#', '#', ' '),
        c == '7' ==> glyph_marks(glyph(c)) == ('#', ' ', ' ', ' ', '#'),
        c == '8' ==> glyph_marks(glyph(c)) == ('#', '#', '#', '#', ' '),
        c == '9' ==> glyph_marks(glyph(c)) == ('#', '#', '#', ' ', ' '),
        c == ':' ==> glyph_marks(glyph(c)) == (' ', ' ', ' ', ' ', ' '),
{
    lemma_glyph_shape(c);
    reveal_strlit("       ");
    reveal_strlit("      #");
    reveal_strlit("     # ");
    reveal_strlit("    #  ");
    reveal_strlit("   #   ");
    reveal_strlit("  #    ");
    reveal_strlit("  ##   ");
    reveal_strlit("  #### ");
    reveal_strlit(" #     ");
    reveal_strlit(" # #   ");
    reveal_strlit(" ##### ");
    reveal_strlit(" ######");
    reveal_strlit("#      ");
    reveal_strlit("#     #");
    reveal_strlit("#    # ");
    reveal_strlit("###### ");
    reveal_strlit("#######");
}

/// No two drawable characters share a glyph, and every digit draws at
/// least one `#`: its glyph differs from the blank one.
pub proof fn lemma_glyphs_distinct(a: char, b: char)
    requires
        drawable(a),
        drawable(b),
    ensures
        (glyph(a) == glyph(b)) <==> (a == b),
        a != ':' ==> exists|r: int, k: int| 0 <= r < 7 && 0 <= k < 7 && #[trigger] glyph(a)[r][k] == '#',
        a != ':' ==> glyph(a) != glyph(' '),
{
    lemma_glyph_marks(a);
    lemma_glyph_marks(b);
    lemma_glyph_shape(' ');
    if a != ':' {
        reveal_strlit("       ");
        assert(glyph_marks(glyph(' ')) == (' ', ' ', ' ', ' ', ' '));
        let m = glyph_marks(glyph(a));
        if m.0 == '#' {
            assert(glyph(a)[0][3] == '#');
        } else if m.1 == '#' {
            assert(glyph(a)[2][6] == '#');
        } else if m.2 == '#' {
            assert(glyph(a)[3][1] == '#');
        } else if m.3 == '#' {
            assert(glyph(a)[4][0] == '#');
        } else {
            assert(glyph(a)[6][0] == '#');
        }
    }
}

/// Thickening doubles a row's width: each cell becomes two equal cells, two
/// spaces for a space and two `#` for anything else.
pub proof fn lemma_thick_doubles(row: Seq<char>)
    ensures
        thick(row).len() == 2 * row.len(),
        forall|i: int|
            0 <= i < row.len() ==> {
                &&& #[trigger] thick(row)[2 * i] == (if row[i] == ' ' { ' ' } else { '#' })
                &&& thick(row)[2 * i + 1] == thick(row)[2 * i]
            },
    decreases row.len(),
{
    if row.len() > 0 {
        lemma_thick_doubles(row.drop_last());
        assert forall|i: int| 0 <= i < row.len() implies {
            &&& #[trigger] thick(row)[2 * i] == (if row[i] == ' ' { ' ' } else { '#' })
            &&& thick(row)[2 * i + 1] == thick(row)[2 * i]
        } by {
            if i < row.len() - 1 {
                assert(row.drop_last()[i] == row[i]);
            }
        }
    }
}

/// Repeating rows gives `scale` copies of each row, in order: the copy `j`
/// of row `i` stands at `i * scale + j`.
pub proof fn lemma_repeat_rows(rows: Seq<Seq<char>>, scale: nat)
    ensures
        repeat_rows(rows, scale).len() == rows.len() * scale,
        forall|i: int, j: int|
            0 <= i < rows.len() && 0 <= j < scale ==> #[trigger] repeat_rows(rows, scale)[i
                * scale + j] == #[trigger] rows[i],
    decreases rows.len(),
{
    if rows.len() > 0 {
        let n = rows.len() - 1;
        lemma_repeat_rows(rows.drop_last(), scale);
        assert(n * scale + scale == rows.len() * scale) by (nonlinear_arith)
            requires
                n == rows.len() - 1,
        ;
        assert forall|i: int, j: int|
            0 <= i < rows.len() && 0 <= j < scale implies #[trigger] repeat_rows(rows, scale)[i
                * scale + j] == #[trigger] rows[i] by {
            if i < n {
                assert(i * scale + j < n * scale) by (nonlinear_arith)
                    requires
                        0 <= i < n,
                        0 <= j < scale,
                ;
                assert(rows.drop_last()[i] == rows[i]);
            } else {
                assert(i * scale == n * scale);
            }
        }
    }
}

proof fn lemma_repeat_rows_by_index(rows: Seq<Seq<char>>, scale: nat)
    requires
        scale > 0,
    ensures
        repeat_rows(rows, scale) =~= Seq::new(rows.len() * scale, |x: int| rows[x / scale as int]),
{
    lemma_repeat_rows(rows, scale);
    assert forall|x: int| 0 <= x < rows.len() * scale implies #[trigger] repeat_rows(rows, scale)[x]
        == rows[x / scale as int] by {
        let i = x / scale as int;
        let j = x % scale as int;
        assert(x == i * scale + j && 0 <= j < scale && 0 <= i < rows.len()) by (nonlinear_arith)
            requires
                0 <= x < rows.len() * scale,
                scale > 0,
                i == x / scale as int,
                j == x % scale as int,
        ;
        assert(repeat_rows(rows, scale)[i * scale + j] == rows[i]);
    }
}

/// Repeating by one keeps the rows, repeating by zero leaves none, and
/// repeating by `a` and then by `b` is repeating by `a * b`.
pub proof fn lemma_repeat_rows_compose(rows: Seq<Seq<char>>, a: nat, b: nat)
    ensures
        repeat_rows(rows, 1) == rows,
        repeat_rows(rows, 0) == Seq::<Seq<char>>::empty(),
        repeat_rows(repeat_rows(rows, a), b) == repeat_rows(rows, a * b),
{
    lemma_repeat_rows_by_index(rows, 1);
    assert(repeat_rows(rows, 1) =~= rows);
    lemma_repeat_rows(rows, 0);
    assert(repeat_rows(rows, 0) =~= Seq::<Seq<char>>::empty());
    lemma_repeat_rows(rows, a);
    lemma_repeat_rows(repeat_rows(rows, a), b);
    lemma_repeat_rows(rows, a * b);
    if a == 0 || b == 0 {
        assert(rows.len() * a * b == 0) by (nonlinear_arith)
            requires
                a == 0 || b == 0,
        ;
        assert(rows.len() * (a * b) == 0) by (nonlinear_arith)
            requires
                a == 0 || b == 0,
        ;
        assert(repeat_rows(repeat_rows(rows, a), b) =~= repeat_rows(rows, a * b));
    } else {
        let once = repeat_rows(rows, a);
        lemma_repeat_rows_by_index(rows, a);
        lemma_repeat_rows_by_index(once, b);
        assert(a * b > 0) by (nonlinear_arith)
            requires
                a > 0,
                b > 0,
        ;
        lemma_repeat_rows_by_index(rows, a * b);
        assert(rows.len() * a * b == rows.len() * (a * b)) by (nonlinear_arith);
        assert forall|x: int| 0 <= x < rows.len() * (a * b) implies #[trigger] repeat_rows(
            once,
            b,
        )[x] == repeat_rows(rows, a * b)[x] by {
            vstd::arithmetic::div_mod::lemma_div_denominator(x, b as int, a as int);
            assert(b as int * a as int == (a * b) as int) by (nonlinear_arith);
            assert(x / (b as int) < once.len()) by (nonlinear_arith)
                requires
                    0 <= x < rows.len() * (a * b),
                    once.len() == rows.len() * a,
                    b > 0,
            ;
        }
        assert(repeat_rows(once, b) =~= repeat_rows(rows, a * b));
    }
}

/// The width of every row of the large rendering of a text of `n`
/// characters: fourteen cells a glyph and two between neighbours.
pub open spec fn timer_width(n: nat) -> int {
    if n == 0 {
        0
    } else {
        16 * n - 2
    }
}

/// Every row of the large rendering has the width `timer_width` gives.
pub proof fn lemma_timer_row_width(text: Seq<char>, r: int)
    requires
        0 <= r < 7,
    ensures
        timer_row(text, r).len() == timer_width(text.len()),
    decreases text.len(),
{
    if text.len() > 0 {
        lemma_glyph_shape(text.last());
        lemma_thick_doubles(glyph(text.last())[r]);
        if text.len() == 1 {
            assert(text[0] == text.last());
        } else {
            lemma_timer_row_width(text.drop_last(), r);
        }
    }
}

/// The large rendering of any text is fourteen rows of one width: the seven
/// glyph rows, each drawn twice.
pub proof fn lemma_timer_lines_shape(text: Seq<char>)
    ensures
        repeat_rows(timer_rows(text), 2).len() == 14,
        forall|k: int|
            0 <= k < 14 ==> {
                &&& #[trigger] repeat_rows(timer_rows(text), 2)[k] == timer_row(text, k / 2)
                &&& repeat_rows(timer_rows(text), 2)[k].len() == timer_width(text.len())
            },
{
    lemma_repeat_rows(timer_rows(text), 2);
    assert forall|k: int| 0 <= k < 14 implies {
        &&& #[trigger] repeat_rows(timer_rows(text), 2)[k] == timer_row(text, k / 2)
        &&& repeat_rows(timer_rows(text), 2)[k].len() == timer_width(text.len())
    } by {
        let i = k / 2;
        let j = k % 2;
        assert(k == i * 2 + j);
        assert(repeat_rows(timer_rows(text), 2)[i * 2 + j] == timer_rows(text)[i]);
        lemma_timer_row_width(text, i);
    }
}

/// Whether `c` is a decimal digit.
pub open spec fn is_digit(c: char) -> bool {
    '0' as u32 <= c as u32 <= '9' as u32
}

/// The number a decimal digit stands for.
pub open spec fn digit_value(c: char) -> int {
    c as u32 - '0' as u32
}

/// The number a string of decimal digits stands for, read left to right.
pub open spec fn numeral_value(s: Seq<char>) -> int
    decreases s.len(),
{
    if s.len() == 0 {
        0
    } else {
        numeral_value(s.drop_last()) * 10 + digit_value(s.last())
    }
}

/// Every character of `s` is a decimal digit.
pub open spec fn all_digits(s: Seq<char>) -> bool {
    forall|i: int| 0 <= i < s.len() ==> #[trigger] is_digit(s[i])
}

proof fn lemma_digit_reads_back(d: nat)
    requires
        d < 10,
    ensures
        is_digit(digit(d)),
        digit_value(digit(d)) == d,
{
}

proof fn lemma_decimal_reads_back(n: nat)
    ensures
        decimal(n).len() >= 1,
        all_digits(decimal(n)),
        numeral_value(decimal(n)) == n,
    decreases n,
{
    if n < 10 {
        lemma_digit_reads_back(n);
        assert(seq![digit(n)].drop_last() =~= Seq::<char>::empty());
        assert(numeral_value(Seq::<char>::empty()) == 0);
        assert(numeral_value(seq![digit(n)]) == n);
    } else {
        lemma_decimal_reads_back(n / 10);
        lemma_digit_reads_back(n % 10);
        let prefix = decimal(n / 10);
        assert(decimal(n) == prefix.push(digit(n % 10)));
        assert(prefix.push(digit(n % 10)).drop_last() =~= prefix);
        assert(numeral_value(decimal(n)) == numeral_value(prefix) * 10 + (n % 10) as int);
        assert((n / 10) * 10 + n % 10 == n);
        assert forall|i: int| 0 <= i < decimal(n).len() implies #[trigger] is_digit(
            decimal(n)[i],
        ) by {
            if i < prefix.len() {
                assert(decimal(n)[i] == prefix[i]);
            }
        }
    }
}

/// A padded numeral reads back to its number, has at least two digits, and
/// exactly two under a hundred.
pub proof fn lemma_pad2_reads_back(n: nat)
    ensures
        pad2(n).len() >= 2,
        all_digits(pad2(n)),
        numeral_value(pad2(n)) == n,
        n < 100 ==> pad2(n).len() == 2,
{
    if n < 10 {
        lemma_digit_reads_back(n);
        lemma_digit_reads_back(0);
        assert(seq!['0', digit(n)].drop_last() =~= seq!['0']);
        assert(seq!['0'].drop_last() =~= Seq::<char>::empty());
        assert(numeral_value(Seq::<char>::empty()) == 0);
        assert(numeral_value(seq!['0']) == 0);
        assert(numeral_value(seq!['0', digit(n)]) == n);
    } else {
        lemma_decimal_reads_back(n);
        lemma_decimal_reads_back(n / 10);
        assert(decimal(n) == decimal(n / 10).push(digit(n % 10)));
        if n < 100 {
            lemma_pad2_small(n);
        }
    }
}

/// The clock face reads back to its seconds: it is a minutes numeral of at
/// least two digits, a colon, and a two-digit seconds numeral under sixty,
/// with no other colon, and minutes times sixty plus seconds gives the
/// seconds it shows. `format_duration(d)` is the face of `whole_secs(d)`.
pub proof fn lemma_clock_face_reads_back(secs: nat)
    ensures
        clock_text(secs) == pad2(secs / 60) + seq![':'] + pad2(secs % 60),
        pad2(secs / 60).len() >= 2,
        pad2(secs % 60).len() == 2,
        all_digits(pad2(secs / 60)),
        all_digits(pad2(secs % 60)),
        numeral_value(pad2(secs % 60)) < 60,
        numeral_value(pad2(secs / 60)) * 60 + numeral_value(pad2(secs % 60)) == secs,
{
    lemma_pad2_reads_back(secs / 60);
    lemma_pad2_reads_back(secs % 60);
}

/// A padded numeral under a hundred has exactly two digits.
proof fn lemma_pad2_small(n: nat)
    requires
        n < 100,
    ensures
        pad2(n).len() == 2,
{
    if n >= 10 {
        assert(decimal(n) == decimal(n / 10).push(crate::text::digit(n % 10)));
    }
}

/// Under a hundred minutes the clock face is five characters, `MM:SS`,
/// with the colon in the middle.
pub proof fn lemma_clock_face_width(secs: nat)
    requires
        secs < 6000,
    ensures
        clock_text(secs).len() == 5,
        clock_text(secs)[2] == ':',
{
    lemma_pad2_small(secs / 60);
    lemma_pad2_small(secs % 60);
}

} // verus!
