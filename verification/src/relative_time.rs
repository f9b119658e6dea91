//! Human-readable "time ago" labels for project timestamps.

use vstd::prelude::*;
use crate::text::{decimal_chars, string_from_chars, vec_append_str};

verus! {

/// The instant an RFC 3339 timestamp names, as chrono's
/// `DateTime::parse_from_rfc3339` reads it: whole seconds since the Unix
/// epoch (`timestamp`) and the nanoseconds past them
/// (`timestamp_subsec_nanos`); none when the text does not parse.
pub uninterp spec fn rfc3339_instant(s: Seq<char>) -> Option<(i64, u32)>;

/// Whether chrono's `DateTime::parse_from_rfc3339` accepts `s`.
pub open spec fn rfc3339_valid(s: Seq<char>) -> bool {
    rfc3339_instant(s) is Some
}

/// Calls chrono's `DateTime::parse_from_rfc3339` on `s` and reads the
/// parsed instant's `timestamp` and `timestamp_subsec_nanos`.
#[verifier::external_body]
fn parse_rfc3339(s: &str) -> (r: Option<(i64, u32)>)
    ensures
        r == rfc3339_instant(s@),
{
    match chrono::DateTime::parse_from_rfc3339(s) {
        Ok(dt) => Some((dt.timestamp(), dt.timestamp_subsec_nanos())),
        Err(_) => None,
    }
}

/// A reading of the system clock against the Unix epoch: whole seconds and
/// the nanoseconds past them, after the epoch or (on a clock set back that
/// far) before it.
#[derive(Clone, Copy, Debug)]
pub enum ClockReading {
    After { secs: u64, nanos: u32 },
    Before { secs: u64, nanos: u32 },
}

/// Calls `SystemTime::now` and `duration_since(UNIX_EPOCH)`; a clock before
/// the epoch comes back as the error's duration. std documents the
/// nanoseconds of a `Duration` as below one second; the rest depends on the
/// clock, so nothing more is stated.
#[verifier::external_body]
fn read_clock() -> (r: ClockReading)
    ensures
        match r {
            ClockReading::After { nanos, .. } => nanos < 1_000_000_000,
            ClockReading::Before { nanos, .. } => nanos < 1_000_000_000,
        },
{
    match std::time::SystemTime::now().duration_since(std::time::UNIX_EPOCH) {
        Ok(d) => ClockReading::After { secs: d.as_secs(), nanos: d.subsec_nanos() },
        Err(e) => ClockReading::Before { secs: e.duration().as_secs(), nanos: e.duration().subsec_nanos() },
    }
}

/// Nanoseconds since the epoch of a clock reading (negative before it).
pub open spec fn clock_nanos(c: ClockReading) -> int {
    match c {
        ClockReading::After { secs, nanos } => secs * 1_000_000_000 + nanos,
        ClockReading::Before { secs, nanos } => -(secs * 1_000_000_000 + nanos),
    }
}

/// Nanoseconds since the epoch of a parsed instant.
pub open spec fn instant_nanos(i: (i64, u32)) -> int {
    i.0 * 1_000_000_000 + i.1
}

/// `n` limited to the range of `i64`.
pub open spec fn clamp_i64(n: int) -> int {
    if n > i64::MAX { i64::MAX as int } else if n < i64::MIN { i64::MIN as int } else { n }
}

/// The whole seconds from `from` to `to` (nanoseconds), the fraction
/// dropped toward zero, as chrono's `num_seconds` counts them, within the
/// range of `i64`.
pub open spec fn seconds_between(from: int, to: int) -> int {
    let d = to - from;
    clamp_i64(if d >= 0 { d / 1_000_000_000 } else { -((-d) / 1_000_000_000) })
}

/// The whole seconds from a parsed instant to a clock reading.
pub fn elapsed_seconds(instant: (i64, u32), now: ClockReading) -> (r: i64)
    ensures
        r == seconds_between(instant_nanos(instant), clock_nanos(now)),
{
    let (ts, n) = instant;
    assert(-9_300_000_000_000_000_000_000_000_000 <= ts * 1_000_000_000 <= 9_300_000_000_000_000_000_000_000_000)
        by (nonlinear_arith)
        requires
            i64::MIN <= ts <= i64::MAX,
    ;
    let from: i128 = (ts as i128) * 1_000_000_000 + (n as i128);
    let now_ns: i128 = match now {
        ClockReading::After { secs, nanos } => {
            assert(secs * 1_000_000_000 <= 18_500_000_000_000_000_000_000_000_000) by (nonlinear_arith)
                requires
                    secs <= u64::MAX,
            ;
            (secs as i128) * 1_000_000_000 + (nanos as i128)
        },
        ClockReading::Before { secs, nanos } => {
            assert(secs * 1_000_000_000 <= 18_500_000_000_000_000_000_000_000_000) by (nonlinear_arith)
                requires
                    secs <= u64::MAX,
            ;
            -((secs as i128) * 1_000_000_000 + (nanos as i128))
        },
    };
    let d: i128 = now_ns - from;
    let q: i128 = if d >= 0 { d / 1_000_000_000 } else { -((-d) / 1_000_000_000) };
    if q > i64::MAX as i128 {
        i64::MAX
    } else if q < i64::MIN as i128 {
        i64::MIN
    } else {
        q as i64
    }
}

/// `"<n> <unit> ago"`, with an `s` after the unit unless `n` is one.
pub open spec fn counted(n: nat, unit: Seq<char>) -> Seq<char> {
    crate::text::decimal(n) + " "@ + unit + (if n == 1 { ""@ } else { "s"@ }) + " ago"@
}

/// The label for an age of `secs` whole seconds.
pub open spec fn relative_label(secs: int) -> Seq<char> {
    let minutes = secs / 60;
    let hours = secs / 3600;
    let days = secs / 86400;
    if secs < 60 {
        "Just now"@
    } else if minutes < 60 {
        crate::text::decimal(minutes as nat) + " min ago"@
    } else if hours < 24 {
        crate::text::decimal(hours as nat) + " hr ago"@
    } else if days == 1 {
        "Yesterday"@
    } else if days < 7 {
        crate::text::decimal(days as nat) + " days ago"@
    } else if days < 30 {
        counted((days / 7) as nat, "week"@)
    } else if days < 365 {
        counted((days / 30) as nat, "month"@)
    } else {
        counted((days / 365) as nat, "year"@)
    }
}

fn counted_label(n: u64, unit: &str) -> (r: String)
    ensures
        r@ == counted(n as nat, unit@),
{
    let mut v = decimal_chars(n);
    vec_append_str(&mut v, " ");
    vec_append_str(&mut v, unit);
    if n != 1 {
        vec_append_str(&mut v, "s");
    } else {
        proof {
            reveal_strlit("");
        }
        assert(v@ + ""@ =~= v@);
    }
    vec_append_str(&mut v, " ago");
    string_from_chars(&v)
}

fn number_label(n: u64, suffix: &str) -> (r: String)
    ensures
        r@ == crate::text::decimal(n as nat) + suffix@,
{
    let mut v = decimal_chars(n);
    vec_append_str(&mut v, suffix);
    string_from_chars(&v)
}

/// How long ago something happened, given its age in whole seconds: `Just
/// now` under a minute, then minutes, hours, `Yesterday`, days, weeks
/// (seven days), months (thirty days) and years (365 days).
pub fn relative_time_label(secs: i64) -> (r: String)
    ensures
        r@ == relative_label(secs as int),
{
    if secs < 60 {
        return String::from_str("Just now");
    }
    let s = secs as u64;
    let minutes = s / 60;
    let hours = s / 3600;
    let days = s / 86400;
    if minutes < 60 {
        number_label(minutes, " min ago")
    } else if hours < 24 {
        number_label(hours, " hr ago")
    } else if days == 1 {
        String::from_str("Yesterday")
    } else if days < 7 {
        number_label(days, " days ago")
    } else if days < 30 {
        counted_label(days / 7, "week")
    } else if days < 365 {
        counted_label(days / 30, "month")
    } else {
        counted_label(days / 365, "year")
    }
}

/// How long ago an RFC 3339 timestamp was, as a label; `Unknown` when the
/// timestamp does not parse. The age is counted from the parsed instant to
/// the system clock's reading, which the caller cannot know in advance.
pub fn format_timestamp(timestamp: &str) -> (r: String)
    ensures
        !rfc3339_valid(timestamp@) ==> r@ == "Unknown"@,
        rfc3339_valid(timestamp@) ==> exists|now: ClockReading|
            r@ == relative_label(seconds_between(instant_nanos(rfc3339_instant(timestamp@)->0), clock_nanos(now))),
{
    match parse_rfc3339(timestamp) {
        Some(instant) => {
            let now = read_clock();
            relative_time_label(elapsed_seconds(instant, now))
        },
        None => String::from_str("Unknown"),
    }
}

} // verus!
