//! What the library takes from its surroundings: the wall clock and a random
//! number generator.  Nothing here is verified; each function states only what
//! holds of every value that can come back.

use vstd::prelude::*;

verus! {

/// A decimal digit.
pub open spec fn is_digit(c: char) -> bool {
    '0' <= c && c <= '9'
}

/// A time of day written as `HH:MM:SS`.
pub open spec fn is_clock_time(s: Seq<char>) -> bool {
    &&& s.len() == 8
    &&& is_digit(s[0])
    &&& is_digit(s[1])
    &&& s[2] == ':'
    &&& is_digit(s[3])
    &&& is_digit(s[4])
    &&& s[5] == ':'
    &&& is_digit(s[6])
    &&& is_digit(s[7])
}

/// The local time of day, from `chrono::Local::now` formatted with
/// `%H:%M:%S`.  Trusted: hour, minute and second are each written with two
/// digits, zero-padded, and separated by colons.
#[verifier::external_body]
pub(crate) fn time_of_day() -> (now: String)
    ensures
        is_clock_time(now@),
{
    chrono::Local::now().format("%H:%M:%S").to_string()
}

/// The local date and time with its offset, from `chrono::Local::now` and
/// `DateTime::to_rfc3339`.  Nothing is claimed of the text.
#[verifier::external_body]
pub(crate) fn date_time() -> (now: String) {
    chrono::Local::now().to_rfc3339()
}

/// A number drawn by `fastrand::u32` over the whole range of `u32`.  Nothing
/// is claimed of the number.
#[verifier::external_body]
pub(crate) fn random_number() -> (n: u32) {
    fastrand::u32(..)
}

} // verus!
