//! Instants in time, as seconds and nanoseconds since the Unix epoch.

use vstd::prelude::*;
use chrono::TimeZone;

verus! {

/// An instant: whole seconds since 1970-01-01T00:00:00Z and the nanoseconds past them.
#[derive(Clone, Copy, PartialEq, Eq, Structural, Debug, PartialOrd, Ord, Hash)]
pub struct Timestamp {
    pub secs: i64,
    pub nanos: u32,
}

/// Nanoseconds since the epoch.
pub open spec fn ts_nanos(t: Timestamp) -> int {
    t.secs * 1_000_000_000 + t.nanos
}

/// Integer division rounding toward zero, as `TimeDelta::num_seconds` and friends round.
pub open spec fn trunc_div(a: int, b: int) -> int
    recommends
        b > 0,
{
    if a >= 0 { a / b } else { -((-a) / b) }
}

/// Whole seconds from `earlier` to `later`, rounded toward zero
/// (`later.signed_duration_since(earlier).num_seconds()`).
pub open spec fn seconds_between(later: Timestamp, earlier: Timestamp) -> int {
    trunc_div(ts_nanos(later) - ts_nanos(earlier), 1_000_000_000)
}

/// Whole milliseconds from `earlier` to `later`, rounded toward zero.
pub open spec fn millis_between(later: Timestamp, earlier: Timestamp) -> int {
    trunc_div(ts_nanos(later) - ts_nanos(earlier), 1_000_000)
}

fn trunc_div_exec(a: i128, b: i128) -> (q: i128)
    requires
        b > 0,
        -100_000_000_000_000_000_000_000_000_000i128 <= a <= 100_000_000_000_000_000_000_000_000_000i128,
    ensures
        q == trunc_div(a as int, b as int),
{
    if a >= 0 { a / b } else { -((-a) / b) }
}

fn diff_nanos(later: &Timestamp, earlier: &Timestamp) -> (d: i128)
    ensures
        d == ts_nanos(*later) - ts_nanos(*earlier),
        -100_000_000_000_000_000_000_000_000_000i128 <= d <= 100_000_000_000_000_000_000_000_000_000i128,
{
    let s = (later.secs as i128) - (earlier.secs as i128);
    let n = (later.nanos as i128) - (earlier.nanos as i128);
    assert(-20_000_000_000_000_000_000i128 <= s <= 20_000_000_000_000_000_000i128);
    assert(-20_000_000_000_000_000_000_000_000_000i128 <= s * 1_000_000_000 <= 20_000_000_000_000_000_000_000_000_000i128) by (nonlinear_arith)
        requires -20_000_000_000_000_000_000i128 <= s <= 20_000_000_000_000_000_000i128;
    s * 1_000_000_000 + n
}

/// Whole seconds from `earlier` to `later`, rounded toward zero.
pub fn secs_between(later: &Timestamp, earlier: &Timestamp) -> (r: i128)
    ensures
        r == seconds_between(*later, *earlier),
{
    trunc_div_exec(diff_nanos(later, earlier), 1_000_000_000)
}

/// Whole milliseconds from `earlier` to `later`, rounded toward zero.
pub fn ms_between(later: &Timestamp, earlier: &Timestamp) -> (r: i128)
    ensures
        r == millis_between(*later, *earlier),
{
    trunc_div_exec(diff_nanos(later, earlier), 1_000_000)
}

/// `chrono::Local::now()`: the current instant. What it returns depends on the clock;
/// chrono documents sub-second nanoseconds below two billion (leap seconds past one billion).
#[verifier::external_body]
pub fn now() -> (t: Timestamp)
    ensures
        t.nanos < 2_000_000_000,
{
    let n = chrono::Local::now();
    Timestamp { secs: n.timestamp(), nanos: n.timestamp_subsec_nanos() }
}

/// The `strftime` patterns the library renders local times with; each is made of specifiers
/// chrono knows, so formatting with it cannot fail.
pub open spec fn local_pattern(p: Seq<char>) -> bool {
    p == "%Y%m%d"@ || p == "%Y-%m-%dT%H:%M:%SZ"@ || p == "%H:%M:%S"@ || p == "%Y%m%d_%H%M%S"@
}

/// `DateTime::format` on the local-time rendering of an instant. What it returns depends on the
/// machine's time zone, so nothing is stated of the text. chrono panics when the text of a
/// pattern with an unknown specifier is taken, so only the library's fixed patterns are admitted.
#[verifier::external_body]
pub fn format_local(t: &Timestamp, pattern: &str) -> (s: String)
    requires
        local_pattern(pattern@),
{
    match chrono::Local.timestamp_opt(t.secs, t.nanos).single() {
        Some(dt) => dt.format(pattern).to_string(),
        None => String::new(),
    }
}

/// `DateTime::to_rfc3339` on the local-time rendering of an instant. What it returns depends on
/// the machine's time zone, so nothing is stated of the text.
#[verifier::external_body]
pub fn rfc3339_local(t: &Timestamp) -> (s: String)
{
    match chrono::Local.timestamp_opt(t.secs, t.nanos).single() {
        Some(dt) => dt.to_rfc3339(),
        None => String::new(),
    }
}

} // verus!
