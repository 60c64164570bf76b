//! Field checks: lengths, e-mail addresses and calendar dates.
use vstd::prelude::*;
use crate::models::Date;
use crate::text::chars_of;

verus! {

/// Whether the `validator` crate accepts a text as an e-mail address
/// (its `ValidateEmail::validate_email`, after the HTML5 rules).
pub uninterp spec fn email_valid(s: Seq<char>) -> bool;

/// The date that `chrono::NaiveDate::parse_from_str` reads from `s` with
/// format `fmt`, as (year, month, day); `None` when it reads none.
pub uninterp spec fn date_parsed(s: Seq<char>, fmt: Seq<char>) -> Option<(int, int, int)>;

/// A text's length in characters lies in `min..=max` (the `length`
/// rule of the `validator` crate, which counts `chars()`).
pub open spec fn length_within(s: Seq<char>, min: int, max: int) -> bool {
    min <= s.len() && s.len() <= max
}

/// `validator::ValidateEmail::validate_email` on a text: named
/// `email_valid`; an accepted text is never empty and holds an `@`
/// (the function's first test).
#[verifier::external_body]
pub fn is_valid_email(s: &str) -> (b: bool)
    ensures
        b == email_valid(s@),
        b ==> s@.len() > 0 && s@.contains('@'),
{
    validator::ValidateEmail::validate_email(&s)
}

/// `chrono::NaiveDate::parse_from_str(s, fmt)`: named `date_parsed`; a
/// date it reads has its month in `1..=12` and its day in `1..=31`.
#[verifier::external_body]
pub fn parse_date(s: &str, fmt: &str) -> (r: Option<Date>)
    ensures
        match r {
            Some(d) => date_parsed(s@, fmt@) == Some((d.year as int, d.month as int, d.day as int))
                && 1 <= d.month <= 12 && 1 <= d.day <= 31,
            None => date_parsed(s@, fmt@) is None,
        },
{
    match chrono::NaiveDate::parse_from_str(s, fmt) {
        Ok(d) => Some(
            Date {
                year: chrono::Datelike::year(&d),
                month: chrono::Datelike::month(&d),
                day: chrono::Datelike::day(&d),
            },
        ),
        Err(_) => None,
    }
}

/// Whether `s` has between `min` and `max` characters.
pub fn has_length_within(s: &str, min: u64, max: u64) -> (b: bool)
    ensures
        b == length_within(s@, min as int, max as int),
{
    let n = chars_of(s).len();
    min as u128 <= n as u128 && n as u128 <= max as u128
}

/// Whether `s` has at least `min` characters.
pub fn has_length_at_least(s: &str, min: u64) -> (b: bool)
    ensures
        b == (s@.len() >= min),
{
    let n = chars_of(s).len();
    min as u128 <= n as u128
}

} // verus!
