//! Text helpers: white space, zero-padded decimal numbers and the `MM:SS`
//! clock face.

use std::time::Duration;
use vstd::prelude::*;

verus! {

/// Whether `c` has the Unicode `White_Space` property, the set of code
/// points that `char::is_whitespace` and `str::trim` treat as white space.
pub open spec fn is_white_space(c: char) -> bool {
    let n = c as u32;
    ||| 0x9 <= n <= 0xd
    ||| n == 0x20
    ||| n == 0x85
    ||| n == 0xa0
    ||| n == 0x1680
    ||| 0x2000 <= n <= 0x200a
    ||| n == 0x2028
    ||| n == 0x2029
    ||| n == 0x202f
    ||| n == 0x205f
    ||| n == 0x3000
}

/// A text is blank when trimming its white space leaves nothing.
pub open spec fn blank(s: Seq<char>) -> bool {
    forall|i: int| 0 <= i < s.len() ==> #[trigger] is_white_space(s[i])
}

/// Executable test for the Unicode `White_Space` property.
pub fn is_white_space_char(c: char) -> (r: bool)
    ensures
        r == is_white_space(c),
{
    let n: u32 = c as u32;
    (0x9 <= n && n <= 0xd) || n == 0x20 || n == 0x85 || n == 0xa0 || n == 0x1680
        || (0x2000 <= n && n <= 0x200a) || n == 0x2028 || n == 0x2029 || n == 0x202f
        || n == 0x205f || n == 0x3000
}

/// Whether `s.trim()` is empty, i.e. `s` holds nothing but white space.
pub fn is_blank(s: &str) -> (r: bool)
    ensures
        r == blank(s@),
{
    broadcast use vstd::string::group_string_axioms;

    let mut all_white = true;
    for c in it: s.chars()
        invariant
            it.seq() == s@,
            all_white == (forall|i: int| 0 <= i < it.index() ==> #[trigger] is_white_space(s@[i])),
    {
        if !is_white_space_char(c) {
            all_white = false;
        }
    }
    all_white
}

/// The character of a decimal digit.
pub open spec fn digit(d: nat) -> char {
    if d == 0 { '0' }
    else if d == 1 { '1' }
    else if d == 2 { '2' }
    else if d == 3 { '3' }
    else if d == 4 { '4' }
    else if d == 5 { '5' }
    else if d == 6 { '6' }
    else if d == 7 { '7' }
    else if d == 8 { '8' }
    else { '9' }
}

/// The decimal numeral of `n`, without leading zeros.
pub open spec fn decimal(n: nat) -> Seq<char>
    decreases n,
{
    if n < 10 {
        seq![digit(n)]
    } else {
        decimal(n / 10).push(digit(n % 10))
    }
}

/// The decimal numeral of `n`, padded with zeros to at least two digits
/// (what `{:02}` prints).
pub open spec fn pad2(n: nat) -> Seq<char> {
    if n < 10 {
        seq!['0', digit(n)]
    } else {
        decimal(n)
    }
}

/// The clock face of a number of seconds: whole minutes, a colon, and the
/// seconds left over, each at least two digits wide.
pub open spec fn clock_text(secs: nat) -> Seq<char> {
    pad2(secs / 60) + seq![':'] + pad2(secs % 60)
}

fn digit_str(d: u64) -> (s: &'static str)
    requires
        d < 10,
    ensures
        s@ == seq![digit(d as nat)],
{
    if d == 0 {
        proof { reveal_strlit("0"); }
        "0"
    } else if d == 1 {
        proof { reveal_strlit("1"); }
        "1"
    } else if d == 2 {
        proof { reveal_strlit("2"); }
        "2"
    } else if d == 3 {
        proof { reveal_strlit("3"); }
        "3"
    } else if d == 4 {
        proof { reveal_strlit("4"); }
        "4"
    } else if d == 5 {
        proof { reveal_strlit("5"); }
        "5"
    } else if d == 6 {
        proof { reveal_strlit("6"); }
        "6"
    } else if d == 7 {
        proof { reveal_strlit("7"); }
        "7"
    } else if d == 8 {
        proof { reveal_strlit("8"); }
        "8"
    } else {
        proof { reveal_strlit("9"); }
        "9"
    }
}

/// Appends the decimal numeral of `n` to `out`.
pub fn push_decimal(out: &mut String, n: u64)
    ensures
        final(out)@ == old(out)@ + decimal(n as nat),
    decreases n,
{
    if n >= 10 {
        push_decimal(out, n / 10);
    }
    out.append(digit_str(n % 10));
    proof {
        if n >= 10 {
            assert(decimal(n as nat) == decimal((n / 10) as nat).push(digit((n % 10) as nat)));
        }
    }
}

/// Appends the numeral of `n` padded with zeros to two digits.
pub fn push_pad2(out: &mut String, n: u64)
    ensures
        final(out)@ == old(out)@ + pad2(n as nat),
{
    if n < 10 {
        out.append(digit_str(0));
    }
    push_decimal(out, n);
}

/// The `MM:SS` clock face of a number of seconds.
pub fn format_clock(secs: u64) -> (s: String)
    ensures
        s@ == clock_text(secs as nat),
{
    let mut out = String::new();
    push_pad2(&mut out, secs / 60);
    proof { reveal_strlit(":"); }
    out.append(":");
    push_pad2(&mut out, secs % 60);
    out
}

/// The clock face of a number of seconds: `MM:SS` when seconds are shown,
/// else the whole minutes alone, at least two digits wide.
pub open spec fn face_text(secs: nat, show_seconds: bool) -> Seq<char> {
    if show_seconds {
        clock_text(secs)
    } else {
        pad2(secs / 60)
    }
}

/// The clock face of a number of seconds, with or without the seconds.
pub fn format_face(secs: u64, show_seconds: bool) -> (s: String)
    ensures
        s@ == face_text(secs as nat, show_seconds),
{
    if show_seconds {
        format_clock(secs)
    } else {
        let mut out = String::new();
        push_pad2(&mut out, secs / 60);
        out
    }
}

/// What `Duration::as_secs` returns for `d`: the whole seconds it holds.
pub uninterp spec fn whole_secs(d: Duration) -> u64;

/// Calls `Duration::as_secs`; the contract claims only that the result is
/// `whole_secs` of the duration, the same for the same duration.
#[verifier::external_body]
fn duration_as_secs(d: &Duration) -> (s: u64)
    ensures
        s == whole_secs(*d),
{
    d.as_secs()
}

/// The `MM:SS` clock face of a duration's whole seconds.
pub fn format_duration(duration: Duration) -> (s: String)
    ensures
        s@ == clock_text(whole_secs(duration) as nat),
{
    let total = duration_as_secs(&duration);
    format_clock(total)
}

} // verus!
