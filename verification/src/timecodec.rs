//! Timestamp codec: parsing a timestamp out of a filename stem and rendering
//! timestamps for captions and output names.
//!
//! Instants are plain `i64` values, seconds since the Unix epoch in UTC, so
//! the scheduling arithmetic elsewhere in the crate is ordinary verified
//! integer arithmetic. Only parsing a stem against the configured strptime
//! pattern and rendering a timestamp as text go through chrono; each such
//! call sits behind a trusted wrapper, and its result is given a name that
//! the wrappers' callers reason with.

use vstd::prelude::*;

use crate::error::Error;

verus! {

/// Greatest supported instant: 9999-12-31 23:59:59 UTC.
pub const MAX_STAMP: i64 = 253402300799;

/// Least supported instant: 0000-01-01 00:00:00 UTC, a day boundary.
pub const MIN_STAMP: i64 = -62167219200;

/// The timestamp encoded by a filename stem under a strptime pattern, or
/// `None` where the stem does not match the pattern in full.
pub uninterp spec fn stamp_of(stem: Seq<char>, pattern: Seq<char>) -> Option<i64>;

/// The caption rendering `DD.MM.YYYY, HH:MM:SS` of a timestamp.
pub uninterp spec fn caption_of(stamp: i64) -> Seq<char>;

/// The filesystem-safe output-name rendering `YYYYMMDDThhmmssZ` of a
/// timestamp.
pub uninterp spec fn token_of(stamp: i64) -> Seq<char>;

/// What chrono's `with_ymd_and_hms` yields in UTC for the six fields (the
/// year read through its cast to `i32`): the instant, or `None` where
/// chrono has no such date and time.
pub uninterp spec fn civil_stamp(
    year: u32,
    month: u32,
    day: u32,
    hour: u32,
    minute: u32,
    second: u32,
) -> Option<i64>;

/// Relies on chrono's `NaiveDateTime::parse_from_str` (read as UTC via
/// `and_utc`, taken to seconds via `timestamp`): the outcome is a function of
/// the stem and the pattern alone, and the call returns an error rather than
/// panicking on a stem that does not match.
#[verifier::external_body]
fn parse_stamp(stem: &str, pattern: &str) -> (r: Option<i64>)
    ensures
        r == stamp_of(stem@, pattern@),
{
    match chrono::NaiveDateTime::parse_from_str(stem, pattern) {
        Ok(d) => Some(d.and_utc().timestamp()),
        Err(_) => None,
    }
}

/// Relies on chrono's `DateTime::from_timestamp` and strftime rendering with
/// `%d.%m.%Y, %H:%M:%S`: `from_timestamp` is documented to return `Some` for
/// every second count in `[MIN_STAMP, MAX_STAMP]`, a window far inside
/// chrono's range, and the rendering is a function of the timestamp alone.
#[verifier::external_body]
pub(crate) fn format_caption(stamp: i64) -> (r: String)
    requires
        MIN_STAMP <= stamp <= MAX_STAMP,
    ensures
        r@ == caption_of(stamp),
{
    let date_time = chrono::DateTime::from_timestamp(stamp, 0).unwrap();
    date_time.format("%d.%m.%Y, %H:%M:%S").to_string()
}

/// Relies on chrono's `DateTime::from_timestamp` and strftime rendering with
/// `%Y%m%dT%H%M%SZ`: `from_timestamp` is documented to return `Some` for
/// every second count in `[MIN_STAMP, MAX_STAMP]`, a window far inside
/// chrono's range, and the rendering is a function of the timestamp alone.
#[verifier::external_body]
pub(crate) fn format_token(stamp: i64) -> (r: String)
    requires
        MIN_STAMP <= stamp <= MAX_STAMP,
    ensures
        r@ == token_of(stamp),
{
    let date_time = chrono::DateTime::from_timestamp(stamp, 0).unwrap();
    date_time.format("%Y%m%dT%H%M%SZ").to_string()
}

/// Relies on chrono's `Utc.with_ymd_and_hms`, which returns a `LocalResult`
/// rather than panicking: for UTC the outcome is single-valued and a function
/// of the six fields alone.
#[verifier::external_body]
pub(crate) fn ymd_hms_stamp(
    year: u32,
    month: u32,
    day: u32,
    hour: u32,
    minute: u32,
    second: u32,
) -> (r: Option<i64>)
    ensures
        r == civil_stamp(year, month, day, hour, minute, second),
{
    match chrono::TimeZone::with_ymd_and_hms(
        &chrono::Utc,
        year as i32,
        month,
        day,
        hour,
        minute,
        second,
    ) {
        chrono::LocalResult::Single(t) => Some(t.timestamp()),
        _ => None,
    }
}

/// Whether an instant lies in the supported window: the years 0000 through
/// 9999. These are exactly the years the strptime `%Y` field reads without
/// an explicit sign and renders as four digits, so captions and output
/// tokens stay fixed-width and free of `+`/`-` marks, and the window keeps
/// the scheduling arithmetic far from `i64` overflow.
pub open spec fn supported(stamp: i64) -> bool {
    MIN_STAMP <= stamp <= MAX_STAMP
}

/// Whether a stem parses under a pattern to a supported instant.
pub open spec fn parses(stem: Seq<char>, pattern: Seq<char>) -> bool {
    match stamp_of(stem, pattern) {
        Some(stamp) => supported(stamp),
        None => false,
    }
}

/// Parses a filename stem against the configured timestamp pattern and
/// returns the instant together with its caption rendering. A stem that
/// does not match the pattern, or whose instant lies outside the supported
/// four-digit-year window, is a `FilenameFormat` error naming the stem.
pub fn parse_date(stem: &str, pattern: &str) -> (r: Result<(i64, String), Error>)
    ensures
        match r {
            Ok((stamp, caption)) => {
                &&& parses(stem@, pattern@)
                &&& stamp_of(stem@, pattern@) == Some(stamp)
                &&& caption@ == caption_of(stamp)
            },
            Err(e) => {
                &&& !parses(stem@, pattern@)
                &&& e matches Error::FilenameFormat(s) && s@ == stem@
            },
        },
{
    match parse_stamp(stem, pattern) {
        Some(stamp) => {
            if MIN_STAMP <= stamp && stamp <= MAX_STAMP {
                let caption = format_caption(stamp);
                Ok((stamp, caption))
            } else {
                Err(Error::FilenameFormat(String::from_str(stem)))
            }
        },
        None => Err(Error::FilenameFormat(String::from_str(stem))),
    }
}

} // verus!
