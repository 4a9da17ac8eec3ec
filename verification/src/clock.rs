//! Wall-clock readings and their text.

use vstd::prelude::*;

verus! {

/// Seconds between two refreshes of the quote.
pub const REFRESH_PERIOD: i64 = 30;

/// The earliest instant of chrono's calendar: the first second of the year -262143.
pub const MIN_UNIX_SECONDS: i64 = -8_334_601_228_800;

/// The latest instant of chrono's calendar: the last second of the year 262142.
pub const MAX_UNIX_SECONDS: i64 = 8_210_266_876_799;

/// One day in seconds; an offset from UTC stays strictly below it.
pub const DAY_SECONDS: i32 = 86_400;

/// Whether an instant and an offset from UTC make a date and time that can
/// be written down.
pub open spec fn representable(unix_seconds: int, offset_seconds: int) -> bool {
    &&& MIN_UNIX_SECONDS <= unix_seconds <= MAX_UNIX_SECONDS
    &&& -DAY_SECONDS < offset_seconds < DAY_SECONDS
}

/// Whether the quote is refreshed at this second: the alignment points are
/// the multiples of the refresh period on the wall clock.
pub open spec fn is_alignment_point(unix_seconds: int) -> bool {
    unix_seconds % (REFRESH_PERIOD as int) == 0
}

/// The local date and time of an instant, written as `YYYY-MM-DD HH:MM:SS`:
/// `unix_seconds` counts the seconds since 1970-01-01 00:00:00 UTC, and
/// `offset_seconds` is what the local clock is ahead of UTC.
pub uninterp spec fn clock_text(unix_seconds: int, offset_seconds: int) -> Seq<char>;

/// One look at the wall clock.
#[derive(Clone, Copy, Debug, PartialEq, Eq, Structural)]
pub struct ClockReading {
    /// Seconds since 1970-01-01 00:00:00 UTC.
    pub unix_seconds: i64,
    /// Seconds that local time is ahead of UTC.
    pub offset_seconds: i32,
}

/// Calls `chrono::Local::now` and keeps two numbers of the answer: its
/// `timestamp()` and the `local_minus_utc()` of its offset.
///
/// Trusted: the contract is not proved. It claims only what holds of every
/// `DateTime` that chrono hands out: the instant lies in the range of its
/// calendar, and the offset is less than a day either way. Nothing is said
/// about which instant it is.
#[verifier::external_body]
fn local_now() -> (now: ClockReading)
    ensures
        now.wf(),
{
    let now = chrono::Local::now();
    ClockReading { unix_seconds: now.timestamp(), offset_seconds: now.offset().local_minus_utc() }
}

/// Has chrono write an instant in the given offset: `DateTime::from_timestamp`
/// and `FixedOffset::east_opt` make the date and time, and `format` with
/// `%Y-%m-%d %H:%M:%S` writes them.
///
/// Trusted: the contract is not proved. It claims that chrono accepts the two
/// numbers exactly when they are `representable`, that the text depends on
/// them alone, and that it has at least the nineteen characters of the
/// pattern (a year takes four digits or more).
#[verifier::external_body]
fn format_local(unix_seconds: i64, offset_seconds: i32) -> (text: Option<String>)
    ensures
        text is Some <==> representable(unix_seconds as int, offset_seconds as int),
        text matches Some(t) ==> t@ == clock_text(unix_seconds as int, offset_seconds as int)
            && t@.len() >= 19,
{
    let utc = chrono::DateTime::from_timestamp(unix_seconds, 0)?;
    let zone = chrono::FixedOffset::east_opt(offset_seconds)?;
    Some(utc.with_timezone(&zone).format("%Y-%m-%d %H:%M:%S").to_string())
}

impl ClockReading {
    /// A reading is well formed when its date and time can be written down.
    pub open spec fn wf(&self) -> bool {
        representable(self.unix_seconds as int, self.offset_seconds as int)
    }

    /// The text of this reading.
    pub open spec fn text(&self) -> Seq<char> {
        clock_text(self.unix_seconds as int, self.offset_seconds as int)
    }

    /// The reading of an instant in an offset, if the two are representable.
    pub fn new(unix_seconds: i64, offset_seconds: i32) -> (reading: Option<ClockReading>)
        ensures
            reading is Some <==> representable(unix_seconds as int, offset_seconds as int),
            reading matches Some(r) ==> r.unix_seconds == unix_seconds && r.offset_seconds
                == offset_seconds,
    {
        if MIN_UNIX_SECONDS <= unix_seconds && unix_seconds <= MAX_UNIX_SECONDS && -DAY_SECONDS
            < offset_seconds && offset_seconds < DAY_SECONDS {
            Some(ClockReading { unix_seconds, offset_seconds })
        } else {
            None
        }
    }

    /// Reads the wall clock in the machine's time zone.
    pub fn now() -> (now: ClockReading)
        ensures
            now.wf(),
    {
        local_now()
    }

    /// Writes the reading as `YYYY-MM-DD HH:MM:SS`.
    pub fn to_text(&self) -> (text: String)
        requires
            self.wf(),
        ensures
            text@ == self.text(),
            text@.len() >= 19,
    {
        format_local(self.unix_seconds, self.offset_seconds).unwrap()
    }

    /// Whether the quote is due at this reading.
    pub fn at_alignment_point(&self) -> (due: bool)
        ensures
            due == is_alignment_point(self.unix_seconds as int),
    {
        self.unix_seconds % REFRESH_PERIOD == 0
    }
}

} // verus!
