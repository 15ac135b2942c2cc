//! The wall clock and the calendar, both supplied by `chrono`.

use vstd::prelude::*;

verus! {

/// The calendar date (`YYYY-MM-DD`, UTC) of the instant `seconds` after the
/// Unix epoch, as `chrono` renders it; `None` where the instant lies outside
/// the range that `chrono` can represent.
pub uninterp spec fn calendar_date(seconds: int) -> Option<Seq<char>>;

/// The current time in whole seconds since the Unix epoch. Trusted: calls
/// `chrono::Utc::now` and `DateTime::timestamp`; nothing is promised of the
/// value, which differs from call to call.
#[verifier::external_body]
pub(crate) fn current_timestamp() -> i64 {
    chrono::Utc::now().timestamp()
}

/// Renders the date of a timestamp. Trusted: calls
/// `chrono::DateTime::from_timestamp` and formats the result with the
/// pattern `%Y-%m-%d`; the contract only names that result.
#[verifier::external_body]
pub(crate) fn format_date(seconds: i64) -> (r: Option<String>)
    ensures
        crate::text::opt_text(r) == calendar_date(seconds as int),
{
    chrono::DateTime::from_timestamp(seconds, 0).map(|d| d.format("%Y-%m-%d").to_string())
}

} // verus!
