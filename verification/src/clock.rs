//! The local time, as the text that reports carry.

use vstd::prelude::*;

verus! {

/// How a timestamp is laid out: time of day, a hyphen, then day, month and
/// year.
pub const TIMESTAMP_PATTERN: &'static str = "%H:%M:%S-%d/%m/%Y";

/// Whether `c` is one of the ten decimal digits.
pub open spec fn is_digit(c: char) -> bool {
    '0' <= c <= '9'
}

/// Whether `s` holds decimal digits only.
pub open spec fn all_digits(s: Seq<char>) -> bool {
    forall|i: int| 0 <= i < s.len() ==> is_digit(#[trigger] s[i])
}

/// Whether `s` holds two decimal digits at `at` and the character `then`
/// behind them.
pub open spec fn two_digits_then(s: Seq<char>, at: int, then: char) -> bool
    recommends
        0 <= at,
        at + 2 < s.len(),
{
    is_digit(s[at]) && is_digit(s[at + 1]) && s[at + 2] == then
}

/// Whether `s` is a year as a timestamp writes it: four digits for the
/// years 0 to 9999, and for any other year a sign and at least four digits.
pub open spec fn is_year(s: Seq<char>) -> bool {
    ||| s.len() == 4 && all_digits(s)
    ||| s.len() >= 5 && (s[0] == '+' || s[0] == '-') && all_digits(s.subrange(1, s.len() as int))
}

/// Whether `s` is laid out as `TIMESTAMP_PATTERN` says: hour, minute and
/// second in two digits each with colons between, a hyphen, day and month in
/// two digits each with a slash behind each, and the year.
pub open spec fn is_timestamp(s: Seq<char>) -> bool {
    &&& s.len() >= 19
    &&& two_digits_then(s, 0, ':')
    &&& two_digits_then(s, 3, ':')
    &&& two_digits_then(s, 6, '-')
    &&& two_digits_then(s, 9, '/')
    &&& two_digits_then(s, 12, '/')
    &&& is_year(s.subrange(15, s.len() as int))
}

/// Calls `chrono::offset::Local::now` and formats the result with
/// `DateTime::format`. Which time the text tells depends on the clock and on
/// the time zone of the machine, and nothing is claimed of it. What is
/// claimed is the layout, which chrono's formatting gives to every time:
/// `%H`, `%M`, `%S`, `%d` and `%m` are written in two digits padded with a
/// zero, the characters between them as they stand in the pattern, and `%Y`
/// in four digits, or with a sign and at least four digits outside the
/// years 0 to 9999. The pattern is fixed by the `requires`, because
/// formatting panics on a pattern that chrono cannot read.
#[verifier::external_body]
fn local_time(pattern: &str) -> (r: String)
    requires
        pattern@ == TIMESTAMP_PATTERN@,
    ensures
        is_timestamp(r@),
{
    chrono::offset::Local::now().format(pattern).to_string()
}

/// The local time of the call, laid out as `TIMESTAMP_PATTERN` says. Which
/// time it is depends on the clock.
pub fn timestamp() -> (r: String)
    ensures
        is_timestamp(r@),
{
    local_time(TIMESTAMP_PATTERN)
}

} // verus!
