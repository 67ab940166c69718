use vstd::prelude::*;

use crate::text::two_digits;

verus! {

/// `chrono::NaiveTime::format("%H:%M")` of the time `secs` seconds after
/// midnight: the hour (`%H`, 00-23) and the minute (`%M`, 00-59), each with
/// two digits, separated by `:`.
pub open spec fn clock_text(secs: nat) -> Seq<char> {
    two_digits(secs / 3600) + seq![':'] + two_digits((secs % 3600) / 60)
}

/// Formats, through `chrono`, the time of day `secs` seconds after midnight
/// as `%H:%M`.
#[verifier::external_body]
pub(crate) fn format_clock(secs: u32) -> (res: String)
    requires
        secs < 86400,
    ensures
        res@ == clock_text(secs as nat),
{
    chrono::NaiveTime::from_num_seconds_from_midnight_opt(secs, 0).unwrap().format("%H:%M").to_string()
}


/// The seconds elapsed since midnight (UTC) at the Unix time `ts`.
pub open spec fn seconds_of_day(ts: i64) -> nat {
    ((ts as int) % 86400) as nat
}

/// The seconds elapsed since midnight (UTC) at the Unix time `ts`.
pub fn time_of_day(ts: i64) -> (r: u32)
    ensures
        r == seconds_of_day(ts),
        r < 86400,
{
    let m: i64 = ts % 86400;
    let r: i64 = if m < 0 {
        m + 86400
    } else {
        m
    };
    r as u32
}

/// `%H:%M` of the Unix time `ts`, in UTC.
pub open spec fn clock_of(ts: i64) -> Seq<char> {
    clock_text(seconds_of_day(ts))
}

/// The hour and minute of the Unix time `ts`, in UTC, as `HH:MM`.
pub fn format_time(ts: i64) -> (s: String)
    ensures
        s@ == clock_of(ts),
{
    format_clock(time_of_day(ts))
}


} // verus!
