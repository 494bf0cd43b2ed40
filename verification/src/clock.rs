//! Instants on the wall clock, and their calendar text through `chrono`.

use vstd::prelude::*;

verus! {

/// An instant on the wall clock: seconds and nanoseconds since the Unix
/// epoch, and the local offset from UTC in seconds.
#[derive(Clone, Copy, Debug, PartialEq, Eq, Structural)]
pub struct Stamp {
    pub secs: i64,
    pub nanos: u32,
    pub offset_secs: i32,
}

/// The first second of the year 1 (UTC).
pub const EARLIEST_SECS: i64 = -62_135_596_800;

/// The last second of the year 9999 (UTC).
pub const LATEST_SECS: i64 = 253_402_300_799;

impl Stamp {
    /// The instant lies in the years 1 to 9999, its nanoseconds are under a
    /// second, and its offset is under a day either way.
    pub open spec fn in_range(self) -> bool {
        &&& EARLIEST_SECS <= self.secs <= LATEST_SECS
        &&& self.nanos < 1_000_000_000
        &&& -86_400 < self.offset_secs < 86_400
    }

    /// Whether the instant is one that the calendar text is made for.
    pub fn is_in_range(&self) -> (b: bool)
        ensures
            b == self.in_range(),
    {
        EARLIEST_SECS <= self.secs && self.secs <= LATEST_SECS && self.nanos < 1_000_000_000
            && -86_400 < self.offset_secs && self.offset_secs < 86_400
    }
}

/// What `chrono::DateTime::to_rfc3339` writes for the instant `secs`,
/// `nanos` shown at the offset `offset_secs`.
pub uninterp spec fn rfc3339_text(secs: i64, nanos: u32, offset_secs: i32) -> Seq<char>;

/// What `chrono::DateTime::format` with `%Y-%m-%d` writes for the instant
/// `secs`, `nanos` shown at the offset `offset_secs`: its local date.
pub uninterp spec fn date_text(secs: i64, nanos: u32, offset_secs: i32) -> Seq<char>;

/// Calls `chrono::DateTime::to_rfc3339` on the instant at its offset; the
/// contract claims only that the text is `rfc3339_text` of the three numbers.
/// `FixedOffset::east_opt` and `DateTime::from_timestamp` return `Some` for
/// every stamp in range.
#[verifier::external_body]
pub(crate) fn to_rfc3339(stamp: &Stamp) -> (text: String)
    requires
        stamp.in_range(),
    ensures
        text@ == rfc3339_text(stamp.secs, stamp.nanos, stamp.offset_secs),
{
    let offset = chrono::FixedOffset::east_opt(stamp.offset_secs).unwrap();
    let utc = chrono::DateTime::from_timestamp(stamp.secs, stamp.nanos).unwrap();
    utc.with_timezone(&offset).to_rfc3339()
}

/// Calls `chrono::DateTime::format` with `%Y-%m-%d` on the instant at its
/// offset; the contract claims only that the text is `date_text` of the
/// three numbers.
#[verifier::external_body]
pub(crate) fn local_date(stamp: &Stamp) -> (text: String)
    requires
        stamp.in_range(),
    ensures
        text@ == date_text(stamp.secs, stamp.nanos, stamp.offset_secs),
{
    let offset = chrono::FixedOffset::east_opt(stamp.offset_secs).unwrap();
    let utc = chrono::DateTime::from_timestamp(stamp.secs, stamp.nanos).unwrap();
    format!("{}", utc.with_timezone(&offset).format("%Y-%m-%d"))
}

} // verus!
