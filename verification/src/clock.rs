//! Times of day as text. The times themselves are chrono's; this module
//! only asks chrono to write one out.

use vstd::prelude::*;

verus! {

/// chrono's date and time without a time zone, held as an opaque value.
#[verifier::external_type_specification]
#[verifier::external_body]
pub struct ExNaiveDateTime(chrono::NaiveDateTime);

/// The text that chrono writes for a date and time under a strftime
/// pattern.
pub uninterp spec fn clock_text(at: chrono::NaiveDateTime, pattern: Seq<char>) -> Seq<char>;

/// The pattern of the report's times: year, month and day, then hour,
/// minute and second.
pub open spec fn report_pattern() -> Seq<char> {
    "%Y-%m-%d %H:%M:%S"@
}

/// Calls chrono's `NaiveDateTime::format` and writes the outcome to a
/// string. The text is a function of the time and the pattern alone, which
/// is all the contract says of it. Only the report's pattern is admitted: it
/// names fields that every date and time has, so the writing cannot fail.
#[verifier::external_body]
pub(crate) fn format_clock(at: &chrono::NaiveDateTime, pattern: &str) -> (r: String)
    requires
        pattern@ == report_pattern(),
    ensures
        r@ == clock_text(*at, pattern@),
{
    at.format(pattern).to_string()
}

} // verus!
