//! What the protocol takes from the wall clock.

use vstd::prelude::*;

verus! {

/// Whether a character is one of `0`..`9`.
pub open spec fn is_decimal_digit(c: char) -> bool {
    '0' <= c && c <= '9'
}

/// Whether a text has the form of a request id: a time of day in nine
/// decimal digits, two for the hour (00 to 23), two for the minute (00 to
/// 59), two for the second (00 to 60, where 60 is a leap second) and three
/// for the milliseconds.
pub open spec fn is_request_id(text: Seq<char>) -> bool {
    &&& text.len() == 9
    &&& forall|i: int| 0 <= i < text.len() ==> is_decimal_digit(#[trigger] text[i])
    &&& (text[0] <= '1' || (text[0] == '2' && text[1] <= '3'))
    &&& text[2] <= '5'
    &&& (text[4] <= '5' || (text[4] == '6' && text[5] == '0'))
}

/// Reads the wall clock with `chrono::Local::now` and gives the seconds since
/// the Unix epoch, as `DateTime::timestamp` counts them. Nothing is claimed
/// of the result: it is the time.
#[verifier::external_body]
fn clock_seconds() -> (seconds: i64) {
    chrono::Local::now().timestamp()
}

/// The format in which a request id is written: hour, minute, second and
/// the fraction of the second in three digits, with nothing in between.
pub open spec fn spec_request_id_format() -> Seq<char> {
    "%H%M%S%3f"@
}

/// Reads the wall clock with `chrono::Local::now` and writes the local time
/// of day with `DateTime::format`. The contract covers the one format of
/// request ids. Which time it is is not claimed, only the form that the
/// format gives to every time: `%H` is the hour (00 to 23), `%M` the minute
/// (00 to 59) and `%S` the second (00 to 60), each padded with zeros to two
/// digits, and `%3f` is the fraction of the second in three digits.
#[verifier::external_body]
fn clock_time_of_day(format: &str) -> (written: String)
    requires
        format@ == spec_request_id_format(),
    ensures
        is_request_id(written@),
{
    chrono::Local::now().format(format).to_string()
}

/// The current time, in seconds since the Unix epoch.
pub fn unix_time() -> (seconds: i64) {
    clock_seconds()
}

/// An id for the next request: the local time of day down to the
/// millisecond, in nine decimal digits. It helps the server to tell requests
/// apart and is no secret.
pub fn make_request_id() -> (id: String)
    ensures
        is_request_id(id@),
{
    clock_time_of_day("%H%M%S%3f")
}

} // verus!
