//! The time of day as it stands before a line.

use vstd::prelude::*;
use crate::text::is_digit;

verus! {

/// The number that the digit `c` stands for.
pub open spec fn digit_value(c: char) -> int
    recommends
        is_digit(c),
{
    c as int - '0' as int
}

/// `c` reads as a time of day on a 24-hour clock, with a space behind it:
/// `HH:MM `, hours and minutes both with two digits.
pub open spec fn is_clock(c: Seq<char>) -> bool {
    &&& c.len() == 6
    &&& is_digit(c[0])
    &&& is_digit(c[1])
    &&& c[2] == ':'
    &&& is_digit(c[3])
    &&& is_digit(c[4])
    &&& c[5] == ' '
    &&& 10 * digit_value(c[0]) + digit_value(c[1]) < 24
    &&& 10 * digit_value(c[3]) + digit_value(c[4]) < 60
}

/// The local time of day, now.
///
/// Trusted: the body calls `chrono::Local::now`, `chrono::DateTime::format`
/// with the format `%H:%M ` and the `Display` impl of what that returns. Which
/// time comes back depends on the moment and on the machine's time zone, so
/// the contract claims only the shape that the format gives every time: the
/// hour from 00 to 23 and the minute from 00 to 59, each padded with zeros to
/// two digits, a colon between them and a space behind.
#[verifier::external_body]
pub(crate) fn local_clock() -> (clock: String)
    ensures
        is_clock(clock@),
{
    chrono::Local::now().format("%H:%M ").to_string()
}

} // verus!
