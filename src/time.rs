//! Timestamps of the response: a naive local-format time string read as
//! UTC, with the response's UTC offset.

use vstd::prelude::*;
use crate::decimal::{nat_digits, push_digits};
use crate::parsing::{result_view, ErrorKind, ErrorView, ParsingError};

verus! {

/// An offset-aware timestamp: seconds since the Unix epoch in UTC, and the
/// offset of local time from UTC in seconds.
#[derive(Clone, Copy, Debug, PartialEq, Eq, Structural)]
pub struct Timestamp {
    pub utc_seconds: i64,
    pub offset_seconds: i32,
}

/// The wall-clock reading of a timestamp, in seconds since the epoch.
pub open spec fn wall_clock(t: Timestamp) -> int {
    t.utc_seconds + t.offset_seconds
}

/// Seconds since the epoch of a time written as `%Y-%m-%dT%H:%M`, read as
/// UTC; `None` when the text is not such a time.
pub uninterp spec fn naive_seconds_of(text: Seq<char>) -> Option<i64>;

/// Relies on chrono's `NaiveDateTime::parse_from_str` with the format
/// `%Y-%m-%dT%H:%M`, then `and_utc().timestamp()` for the seconds.
#[verifier::external_body]
fn parse_naive_seconds(text: &str) -> (r: Option<i64>)
    ensures
        r == naive_seconds_of(text@),
{
    match chrono::NaiveDateTime::parse_from_str(text, "%Y-%m-%dT%H:%M") {
        Ok(t) => Some(t.and_utc().timestamp()),
        Err(_) => None,
    }
}

/// Relies on chrono's `FixedOffset::east_opt`: an offset exists exactly
/// when `-86400 < secs < 86400`, and is then `secs` seconds ahead of UTC
/// (`local_minus_utc`).
#[verifier::external_body]
fn east_offset(secs: i32) -> (r: Option<i32>)
    ensures
        r == (if -86_400 < secs && secs < 86_400 { Some(secs) } else { None }),
{
    match chrono::FixedOffset::east_opt(secs) {
        Some(o) => Some(o.local_minus_utc()),
        None => None,
    }
}

/// Relies on chrono's `FixedOffset::west_opt`: an offset exists exactly
/// when `-86400 < secs < 86400`, and is then `secs` seconds behind UTC
/// (`local_minus_utc` is `-secs`).
#[verifier::external_body]
fn west_offset(secs: i32) -> (r: Option<i32>)
    ensures
        r == (if -86_400 < secs && secs < 86_400 { Some((-secs) as i32) } else { None }),
{
    match chrono::FixedOffset::west_opt(secs) {
        Some(o) => Some(o.local_minus_utc()),
        None => None,
    }
}

/// Decimal text of an integer, with a minus sign when negative.
pub open spec fn int_text(n: int) -> Seq<char> {
    if n < 0 {
        seq!['-'] + nat_digits((-n) as nat)
    } else {
        nat_digits(n as nat)
    }
}

/// Appends the decimal text of `n`.
pub fn push_int(out: &mut String, n: i64)
    ensures
        final(out)@ == old(out)@ + int_text(n as int),
{
    if n < 0 {
        out.append("-");
        let m: u64 = (0i128 - n as i128) as u64;
        push_digits(out, m);
        proof {
            reveal_strlit("-");
            assert(final(out)@ =~= old(out)@ + int_text(n as int));
        }
    } else {
        push_digits(out, n as u64);
    }
}

/// The message of a time string that does not parse.
pub open spec fn time_text_message(text: Seq<char>) -> Seq<char> {
    "Failed to parse iso8601 from '"@ + text + "'"@
}

/// The message of an offset out of range.
pub open spec fn offset_message(offset: int) -> Seq<char> {
    "Failed to parse offset from '"@ + int_text(offset) + "'"@
}

/// The timestamp of `text` at `offset` seconds from UTC, or the time error.
pub open spec fn time_outcome(text: Seq<char>, offset: int) -> Result<Timestamp, ErrorView> {
    match naive_seconds_of(text) {
        None => Err((ErrorKind::Time, time_text_message(text))),
        Some(s) => if -86_400 < offset && offset < 86_400 {
            Ok(Timestamp { utc_seconds: s, offset_seconds: offset as i32 })
        } else {
            Err((ErrorKind::Time, offset_message(offset)))
        },
    }
}

/// Combines a naive time string (`%Y-%m-%dT%H:%M`, read as UTC) and the
/// response's UTC offset in seconds into a timestamp. The offset is taken
/// by sign and magnitude: west of UTC when negative, east otherwise.
pub fn convert_date_time(iso8601: &str, offset: i64) -> (r: Result<Timestamp, ParsingError>)
    ensures
        result_view(r) == time_outcome(iso8601@, offset as int),
{
    let utc_seconds = match parse_naive_seconds(iso8601) {
        Some(s) => s,
        None => {
            let mut msg = String::from_str("Failed to parse iso8601 from '");
            msg.append(iso8601);
            msg.append("'");
            proof {
                reveal_strlit("Failed to parse iso8601 from '");
                reveal_strlit("'");
                assert(msg@ =~= time_text_message(iso8601@));
            }
            return Err(ParsingError::TimeError(msg));
        },
    };
    let magnitude: u64 = if offset < 0 { (0i128 - offset as i128) as u64 } else { offset as u64 };
    let shifted = if magnitude >= 0x8000_0000u64 {
        None
    } else if offset < 0 {
        west_offset(magnitude as i32)
    } else {
        east_offset(magnitude as i32)
    };
    match shifted {
        Some(secs) => Ok(Timestamp { utc_seconds, offset_seconds: secs }),
        None => {
            let mut msg = String::from_str("Failed to parse offset from '");
            push_int(&mut msg, offset);
            msg.append("'");
            proof {
                assert(msg@ =~= offset_message(offset as int));
            }
            Err(ParsingError::TimeError(msg))
        },
    }
}

/// One naive time at two offsets: the wall-clock readings differ by the
/// difference of the offsets, and the instant in UTC is the same. At
/// `+7200` and `-7200` the readings are four hours apart.
pub proof fn lemma_offset_shift(text: Seq<char>, east: int, west: int)
    requires
        time_outcome(text, east) is Ok,
        time_outcome(text, west) is Ok,
    ensures
        wall_clock(time_outcome(text, east)->Ok_0) - wall_clock(time_outcome(text, west)->Ok_0)
            == east - west,
        time_outcome(text, east)->Ok_0.utc_seconds == time_outcome(text, west)->Ok_0.utc_seconds,
{
}

} // verus!
