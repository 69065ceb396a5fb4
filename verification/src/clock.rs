//! Time as the marketplace sees it: whole seconds since the Unix epoch, UTC.

use std::fmt::Write;
use vstd::prelude::*;

use crate::errors::text_of;

verus! {

/// A moment, in whole seconds since 1970-01-01 00:00:00 UTC. The ledger
/// stores dates at this resolution.
pub type Timestamp = i64;

/// How long a listing stays open.
pub const LISTING_SECONDS: i64 = 60;

/// How long the sweeper rests between two sweeps.
pub const SWEEP_INTERVAL_SECONDS: u64 = 30;

/// The days between 0001-01-01 and the epoch, by which `chrono` counts.
pub const EPOCH_DAY: i64 = 719_163;

/// The pattern under which the ledger stores a date: year, month, day, hour,
/// minute and second, each with all its digits.
pub open spec fn date_pattern() -> Seq<char> {
    "%Y-%m-%d %H:%M:%S"@
}

/// The moments whose day number, counted as `chrono` counts it, fits in 32
/// bits: no other moment is ever read from the clock.
pub open spec fn in_clock_range(secs: int) -> bool {
    (i32::MIN - EPOCH_DAY) * 86_400 <= secs < (i32::MAX - EPOCH_DAY + 1) * 86_400
}

/// What `chrono` writes for the moment `secs` under `pattern`; `None` where
/// it has no date for `secs` or cannot follow `pattern`.
pub uninterp spec fn utc_rendering(secs: i64, pattern: Seq<char>) -> Option<Seq<char>>;

/// The stored text of a moment.
pub open spec fn date_text(secs: i64) -> Option<Seq<char>> {
    utc_rendering(secs, date_pattern())
}

/// `chrono::Utc::now` followed by `DateTime::timestamp`: the current time.
/// `now` builds its result with `DateTime::from_timestamp`, which refuses a
/// moment whose day number does not fit in an `i32`; nothing else is claimed.
#[verifier::external_body]
pub(crate) fn utc_now() -> (secs: Timestamp)
    ensures
        in_clock_range(secs as int),
{
    chrono::Utc::now().timestamp()
}

/// `chrono::DateTime::from_timestamp` followed by `DateTime::format`, written
/// into a string: the result is a function of the two arguments, and failure
/// of either step gives `None`.
#[verifier::external_body]
pub(crate) fn render_utc(secs: Timestamp, pattern: &str) -> (text: Option<String>)
    ensures
        text_of(text) == utc_rendering(secs, pattern@),
{
    let moment = chrono::DateTime::<chrono::Utc>::from_timestamp(secs, 0)?;
    let mut text = String::new();
    match write!(text, "{}", moment.format(pattern)) {
        Ok(()) => Some(text),
        Err(_) => None,
    }
}

/// The text under which the ledger stores the moment `secs`, where it has a
/// calendar date.
pub fn stored_date(secs: Timestamp) -> (text: Option<String>)
    ensures
        text_of(text) == date_text(secs),
{
    render_utc(secs, "%Y-%m-%d %H:%M:%S")
}

/// The moment that `chrono` reads from `text` under `pattern`, taken as a UTC
/// time; `None` where `text` does not follow `pattern` or names no moment.
pub uninterp spec fn utc_reading(text: Seq<char>, pattern: Seq<char>) -> Option<i64>;

/// `chrono::NaiveDateTime::parse_from_str`, then `NaiveDateTime::and_utc` and
/// `DateTime::timestamp`: the result is a function of the two arguments, and
/// a text that cannot be read gives `None`.
#[verifier::external_body]
pub(crate) fn read_utc(text: &str, pattern: &str) -> (secs: Option<Timestamp>)
    ensures
        secs == utc_reading(text@, pattern@),
{
    match chrono::NaiveDateTime::parse_from_str(text, pattern) {
        Ok(moment) => Some(moment.and_utc().timestamp()),
        Err(_) => None,
    }
}

/// The moment that a stored text stands for, where it stands for one.
pub fn parse_stored_date(text: &str) -> (secs: Option<Timestamp>)
    ensures
        secs == utc_reading(text@, date_pattern()),
{
    read_utc(text, "%Y-%m-%d %H:%M:%S")
}

/// When a listing opened at `opened` closes.
pub open spec fn closing_time(opened: int) -> int {
    opened + LISTING_SECONDS
}

} // verus!
