//! The wall clock, read through `chrono`.

use vstd::prelude::*;

verus! {

/// Milliseconds since 1970-01-01 00:00:00 UTC, as `chrono::Utc::now` reports
/// them at the moment of the call.
///
/// Nothing is claimed of the value: two readings may even go backwards when
/// the system clock is adjusted. `Utc::now` itself gives up only where the
/// system clock stands before 1970.
#[verifier::external_body]
pub(crate) fn now_millis() -> (ms: i64) {
    chrono::Utc::now().timestamp_millis()
}

/// The moment `millis` milliseconds after 1970-01-01 00:00:00 UTC, written
/// as `chrono` writes it in the layout `%Y-%m-%d %H:%M:%S UTC`; `None` for a
/// moment outside the years that `chrono` can name.
pub uninterp spec fn spec_utc_text(millis: i64) -> Option<Seq<char>>;

/// The moment `millis` milliseconds after 1970-01-01 00:00:00 UTC as a text:
/// `chrono::DateTime::from_timestamp_millis` makes the moment, and
/// `DateTime::format` writes it in the layout `%Y-%m-%d %H:%M:%S UTC`.
///
/// The text is a function of `millis` alone, since the moment is taken in
/// UTC and no locale enters. `from_timestamp_millis` has no moment for a
/// count that leads out of the years it can name, and then there is no
/// text.
#[verifier::external_body]
pub(crate) fn utc_text(millis: i64) -> (text: Option<String>)
    ensures
        text is Some <==> spec_utc_text(millis) is Some,
        text matches Some(t) ==> spec_utc_text(millis) == Some(t@),
{
    match chrono::DateTime::from_timestamp_millis(millis) {
        Some(moment) => Some(moment.format("%Y-%m-%d %H:%M:%S UTC").to_string()),
        None => None,
    }
}

/// Milliseconds that passed from `start` to `now`; zero where the clock went
/// backwards in between.
pub open spec fn spec_elapsed_between(start: i64, now: i64) -> int {
    if now > start {
        now - start
    } else {
        0
    }
}

/// Milliseconds that passed from `start` to `now`, both readings of the
/// wall clock.
pub fn elapsed_between(start: i64, now: i64) -> (ms: u64)
    ensures
        ms == spec_elapsed_between(start, now),
{
    if now > start {
        let span: i128 = now as i128 - start as i128;
        span as u64
    } else {
        0
    }
}

} // verus!
