//! The time of day as it is written into an object key.

use vstd::prelude::*;

verus! {

/// What chrono writes for the moment `secs` seconds after the start of 1970,
/// taken in UTC and laid out by `pattern`; `None` where chrono has no date for
/// that moment.
pub uninterp spec fn utc_text(secs: int, pattern: Seq<char>) -> Option<Seq<char>>;

/// The layout of a stamp in chrono's notation: day, month and year with
/// hyphens between them, an underscore, then hour, minute and second with
/// colons between them.
pub open spec fn stamp_pattern() -> Seq<char> {
    "%d-%m-%Y_%H:%M:%S"@
}

/// One of the ten digits.
pub open spec fn is_digit(c: char) -> bool {
    '0' <= c <= '9'
}

/// Two digits stand at `at` and `at + 1`.
pub open spec fn two_digits(s: Seq<char>, at: int) -> bool {
    0 <= at && at + 1 < s.len() && is_digit(s[at]) && is_digit(s[at + 1])
}

/// A year as it is written in a stamp: four digits, or a sign followed by
/// four digits or more.
pub open spec fn is_year(y: Seq<char>) -> bool {
    if y.len() == 4 {
        forall|i: int| 0 <= i < 4 ==> is_digit(#[trigger] y[i])
    } else {
        &&& y.len() >= 5
        &&& y[0] == '+' || y[0] == '-'
        &&& forall|i: int| 1 <= i < y.len() ==> is_digit(#[trigger] y[i])
    }
}

/// The shape `DD-MM-YYYY_HH:MM:SS`, where the year takes more than four
/// places only outside the years 0 to 9999.
pub open spec fn is_stamp(s: Seq<char>) -> bool {
    let n = s.len() as int;
    &&& n >= 19
    &&& two_digits(s, 0)
    &&& s[2] == '-'
    &&& two_digits(s, 3)
    &&& s[5] == '-'
    &&& is_year(s.subrange(6, n - 9))
    &&& s[n - 9] == '_'
    &&& two_digits(s, n - 8)
    &&& s[n - 6] == ':'
    &&& two_digits(s, n - 5)
    &&& s[n - 3] == ':'
    &&& two_digits(s, n - 2)
}

/// `DateTime::from_timestamp_secs` and `DateTime::format` of chrono. The first
/// gives no date for seconds outside the range chrono can hold, and then there
/// is no text. Otherwise the text is that date, in UTC, laid out by `pattern`:
/// each of `%d`, `%m`, `%H`, `%M`, `%S` is written as two digits, `%Y` as four
/// digits or, outside the years 0 to 9999, as a sign and the digits, and every
/// other character of the pattern stands for itself. The same seconds give the
/// same text wherever this runs.
#[verifier::external_body]
fn format_utc(secs: i64, pattern: &str) -> (text: Option<String>)
    requires
        pattern@ == stamp_pattern(),
    ensures
        text matches Some(t) ==> utc_text(secs as int, pattern@) == Some(t@) && is_stamp(t@),
        text is None ==> utc_text(secs as int, pattern@) is None,
{
    match chrono::DateTime::from_timestamp_secs(secs) {
        Some(moment) => Some(moment.format(pattern).to_string()),
        None => None,
    }
}

/// The stamp of the moment `secs` seconds after the start of 1970, in UTC;
/// `None` where that moment lies outside the dates chrono can hold.
pub fn stamp_at(secs: i64) -> (text: Option<String>)
    ensures
        text matches Some(t) ==> utc_text(secs as int, stamp_pattern()) == Some(t@) && is_stamp(t@),
        text is None ==> utc_text(secs as int, stamp_pattern()) is None,
{
    format_utc(secs, "%d-%m-%Y_%H:%M:%S")
}

} // verus!
