//! Log parsers: one per source format, the timestamp chain they share, and format detection.


pub mod common;
pub mod syslog;
pub mod plain;
pub mod web_log;
pub mod csv;
pub mod json;
pub mod splunk;
pub mod evtx;
pub mod ai_proxy;
pub mod pcap;

use vstd::prelude::*;
use chrono::TimeZone;
use crate::models::{LogRecord, ParsingQuality};
use crate::num::parse_i64;
use crate::pattern::regex_find;
use crate::text::{owned, concat, seq_contains, seq_starts_with, seq_trim_start, lowercase, uppercase,
    to_lowercase, to_uppercase, str_contains, str_starts_with, str_eq, trim_start, parse_i64_spec};
use crate::time::{Timestamp, now};

verus! {

/// A parser of one log format.
pub trait LogParser {
    /// The lines the parser takes.
    spec fn accepts(&self, raw: Seq<char>) -> bool;

    /// The record a raw line becomes.
    fn parse(&self, raw: &str) -> LogRecord
        requires
            self.accepts(raw@);

    /// The format's name, as records carry it.
    fn format_name(&self) -> String;
}

/// The instant an RFC 3339 text denotes (`DateTime::parse_from_rfc3339`).
pub uninterp spec fn rfc3339_instant(s: Seq<char>) -> Option<Timestamp>;

/// The instant an RFC 2822 text denotes (`DateTime::parse_from_rfc2822`).
pub uninterp spec fn rfc2822_instant(s: Seq<char>) -> Option<Timestamp>;

/// The instant a text with an explicit offset denotes in a `strftime` format (`DateTime::parse_from_str`).
pub uninterp spec fn offset_instant(s: Seq<char>, format: Seq<char>) -> Option<Timestamp>;

/// Whether chrono's calendar holds the day `day` days after 1970-01-01 (its range of years is
/// bounded).
pub uninterp spec fn utc_day_in_range(day: int) -> bool;

/// Whether chrono represents the UTC instant `secs` seconds and `nanos` nanoseconds after the
/// epoch (`Utc.timestamp_opt(..).single()` is some): the nanoseconds are below two billion, past
/// one billion only in the last second of a minute (a leap second), and the day is in range.
pub open spec fn utc_representable(secs: i64, nanos: u32) -> bool {
    &&& nanos < 2_000_000_000
    &&& (nanos >= 1_000_000_000 ==> (secs % 86_400) % 60 == 59)
    &&& utc_day_in_range(secs / 86_400)
}

/// `DateTime::parse_from_rfc3339`.
#[verifier::external_body]
fn parse_rfc3339(s: &str) -> (r: Option<Timestamp>)
    ensures
        r == rfc3339_instant(s@),
{
    chrono::DateTime::parse_from_rfc3339(s).ok().map(|d| Timestamp { secs: d.timestamp(), nanos: d.timestamp_subsec_nanos() })
}

/// `DateTime::parse_from_rfc2822`.
#[verifier::external_body]
fn parse_rfc2822(s: &str) -> (r: Option<Timestamp>)
    ensures
        r == rfc2822_instant(s@),
{
    chrono::DateTime::parse_from_rfc2822(s).ok().map(|d| Timestamp { secs: d.timestamp(), nanos: d.timestamp_subsec_nanos() })
}

/// `DateTime::parse_from_str(s, format)`.
#[verifier::external_body]
fn parse_with_offset(s: &str, format: &str) -> (r: Option<Timestamp>)
    ensures
        r == offset_instant(s@, format@),
{
    chrono::DateTime::parse_from_str(s, format).ok().map(|d| Timestamp { secs: d.timestamp(), nanos: d.timestamp_subsec_nanos() })
}

/// Whether `NaiveDateTime::parse_from_str(s, format)` reads the text: a date and time in the
/// format, before any time zone applies.
pub uninterp spec fn naive_parses(s: Seq<char>, format: Seq<char>) -> bool;

/// `NaiveDateTime::parse_from_str(s, format)` read as local time (when unambiguous). The instant
/// depends on the machine's time zone, so only this is stated: there is none where the naive
/// parse fails.
#[verifier::external_body]
fn parse_local(s: &str, format: &str) -> (r: Option<Timestamp>)
    ensures
        r is Some ==> naive_parses(s@, format@),
{
    let ndt = chrono::NaiveDateTime::parse_from_str(s, format).ok()?;
    let d = chrono::Local.from_local_datetime(&ndt).single()?;
    Some(Timestamp { secs: d.timestamp(), nanos: d.timestamp_subsec_nanos() })
}

/// The current local year (`Local::now().format("%Y")`); it depends on the clock and the time zone.
#[verifier::external_body]
fn current_year() -> (y: String)
{
    chrono::Local::now().format("%Y").to_string()
}

/// `Utc.timestamp_opt(secs, nanos).single()`.
#[verifier::external_body]
fn utc_instant(secs: i64, nanos: u32) -> (r: Option<Timestamp>)
    ensures
        r is Some <==> utc_representable(secs, nanos),
        r is Some ==> utc_day_in_range(secs / 86_400),
        nanos < 1_000_000_000 && -1_000_000 <= secs / 86_400 <= 1_000_000 ==> r is Some,
        r matches Some(t) ==> t == (Timestamp { secs, nanos }),
{
    chrono::Utc.timestamp_opt(secs, nanos).single().map(|d| Timestamp { secs: d.timestamp(), nanos: d.timestamp_subsec_nanos() })
}

/// The instant of a Unix timestamp: milliseconds above ten billion, seconds otherwise.
pub open spec fn unix_instant(s: Seq<char>) -> Option<Timestamp> {
    match parse_i64_spec(s) {
        Some(ts) => if ts > 10_000_000_000 {
            let secs = ts / 1000;
            let nanos = (ts % 1000) * 1_000_000;
            if utc_representable(secs as i64, nanos as u32) { Some(Timestamp { secs: secs as i64, nanos: nanos as u32 }) } else { None }
        } else {
            if utc_representable(ts as i64, 0) { Some(Timestamp { secs: ts as i64, nanos: 0 }) } else { None }
        },
        None => None,
    }
}

/// What [`parse_timestamp_robust`] states of its reading `r` of the text `s`.
pub open spec fn robust_reading(s: Seq<char>, r: (Timestamp, ParsingQuality)) -> bool {
    &&& r.1 == ParsingQuality::Success || r.1 == ParsingQuality::PartialTimestamp
    &&& rfc3339_instant(s) matches Some(t) ==> r == (t, ParsingQuality::Success)
    &&& rfc3339_instant(s) is None ==> (offset_instant(s, "%Y-%m-%dT%H:%M:%S"@) matches Some(t)
        ==> r == (t, ParsingQuality::Success))
    &&& r.1 == ParsingQuality::PartialTimestamp ==> rfc3339_instant(s) is None
        && offset_instant(s, "%Y-%m-%dT%H:%M:%S"@) is None && rfc2822_instant(s) is None
        && offset_instant(s, "%Y-%m-%dT%H:%M:%S%.fZ"@) is None && unix_instant(s) is None
    &&& (no_reading(s) ==> r.1 == ParsingQuality::PartialTimestamp)
    &&& later_forms(s, r)
}

/// What [`parse_timestamp_robust`] states of the forms it tries after the local ISO 8601 one:
/// where no earlier form reads the text, an RFC 2822 date, then a fractional UTC stamp, then
/// (once no year makes `MM/DD HH:MM:SS` a local time) a Unix time gives the instant.
pub open spec fn later_forms(s: Seq<char>, r: (Timestamp, ParsingQuality)) -> bool {
    let before_2822 = rfc3339_instant(s) is None && offset_instant(s, "%Y-%m-%dT%H:%M:%S"@) is None
        && !naive_parses(s, "%Y-%m-%dT%H:%M:%S"@);
    &&& before_2822 ==> (rfc2822_instant(s) matches Some(t) ==> r == (t, ParsingQuality::Success))
    &&& before_2822 && rfc2822_instant(s) is None ==> (offset_instant(s, "%Y-%m-%dT%H:%M:%S%.fZ"@) matches Some(t)
        ==> r == (t, ParsingQuality::Success))
    &&& before_2822 && rfc2822_instant(s) is None && offset_instant(s, "%Y-%m-%dT%H:%M:%S%.fZ"@) is None
        && (forall|y: Seq<char>| !#[trigger] naive_parses(y + "/"@ + s, "%Y/%m/%d %H:%M:%S"@))
        ==> (unix_instant(s) matches Some(t) ==> r == (t, ParsingQuality::Success))
}

/// None of the forms [`parse_timestamp_robust`] tries reads the text, whatever year the clock
/// supplies for the `MM/DD HH:MM:SS` form.
pub open spec fn no_reading(s: Seq<char>) -> bool {
    &&& rfc3339_instant(s) is None
    &&& offset_instant(s, "%Y-%m-%dT%H:%M:%S"@) is None
    &&& !naive_parses(s, "%Y-%m-%dT%H:%M:%S"@)
    &&& rfc2822_instant(s) is None
    &&& offset_instant(s, "%Y-%m-%dT%H:%M:%S%.fZ"@) is None
    &&& (forall|y: Seq<char>| !#[trigger] naive_parses(y + "/"@ + s, "%Y/%m/%d %H:%M:%S"@))
    &&& unix_instant(s) is None
}

/// Best-effort timestamp parsing: RFC 3339, ISO 8601 with an offset, local IS 8601, RFC 2822,
/// fractional UTC, `MM/DD HH:MM:SS` in the current year, then Unix seconds or milliseconds; the
/// current time, marked as a fallback, when none applies. The local-time forms depend on the time
/// zone and the year on the clock, so only the other forms are stated exactly.
pub fn parse_timestamp_robust(s: &str) -> (r: (Timestamp, ParsingQuality))
    ensures
        r.1 == ParsingQuality::Success || r.1 == ParsingQuality::PartialTimestamp,
        rfc3339_instant(s@) matches Some(t) ==> r == (t, ParsingQuality::Success),
        rfc3339_instant(s@) is None ==> (offset_instant(s@, "%Y-%m-%dT%H:%M:%S"@) matches Some(t)
            ==> r == (t, ParsingQuality::Success)),
        r.1 == ParsingQuality::PartialTimestamp ==> rfc3339_instant(s@) is None
            && offset_instant(s@, "%Y-%m-%dT%H:%M:%S"@) is None && rfc2822_instant(s@) is None
            && offset_instant(s@, "%Y-%m-%dT%H:%M:%S%.fZ"@) is None && unix_instant(s@) is None,
        no_reading(s@) ==> r.1 == ParsingQuality::PartialTimestamp,
        later_forms(s@, r),
{
    if let Some(t) = parse_rfc3339(s) {
        return (t, ParsingQuality::Success);
    }
    if let Some(t) = parse_with_offset(s, "%Y-%m-%dT%H:%M:%S") {
        return (t, ParsingQuality::Success);
    }
    if let Some(t) = parse_local(s, "%Y-%m-%dT%H:%M:%S") {
        return (t, ParsingQuality::Success);
    }
    if let Some(t) = parse_rfc2822(s) {
        return (t, ParsingQuality::Success);
    }
    if let Some(t) = parse_with_offset(s, "%Y-%m-%dT%H:%M:%S%.fZ") {
        return (t, ParsingQuality::Success);
    }
    let year = current_year();
    let prefix = concat(year.as_str(), "/");
    let dated = concat(prefix.as_str(), s);
    if let Some(t) = parse_local(dated.as_str(), "%Y/%m/%d %H:%M:%S") {
        assert(dated@ == year@ + "/"@ + s@);
        return (t, ParsingQuality::Success);
    }
    if let Some(ts) = parse_i64(s) {
        if ts > 10_000_000_000 {
            let nanos: u32 = ((ts % 1000) as u32) * 1_000_000;
            if let Some(t) = utc_instant(ts / 1000, nanos) {
                return (t, ParsingQuality::Success);
            }
        } else {
            if let Some(t) = utc_instant(ts, 0) {
                return (t, ParsingQuality::Success);
            }
        }
    }
    (now(), ParsingQuality::PartialTimestamp)
}

/// The formats the pipeline knows.
#[derive(Debug, Clone, Copy, PartialEq, Eq, Structural)]
pub enum LogFormat {
    JsonArray,
    NdJson,
    PlainText,
    Csv,
    Evtx,
    AiProxy,
    Pcap,
    Syslog,
    WebLog,
    Elastic,
    Auto,
}

/// The text of bytes, invalid UTF-8 replaced (`String::from_utf8_lossy`).
pub uninterp spec fn lossy_text(bytes: Seq<u8>) -> Seq<char>;

/// The extension of a path's file name (`Path::extension`).
pub uninterp spec fn path_extension(path: Seq<char>) -> Option<Seq<char>>;

/// `String::from_utf8_lossy`.
#[verifier::external_body]
pub(crate) fn utf8_lossy(bytes: &[u8]) -> (s: String)
    ensures
        s@ == lossy_text(bytes@),
{
    String::from_utf8_lossy(bytes).into_owned()
}

/// `Path::new(path).extension()` as a string.
#[verifier::external_body]
fn extension(path: &str) -> (r: Option<String>)
    ensures
        crate::text::opt_view(r) == path_extension(path@),
{
    std::path::Path::new(path).extension().and_then(|e| e.to_str()).map(|e| e.to_string())
}

/// An `.evtx` file or chunk header (`ElfFile\0`, `ElfChnk`) at `i`.
pub open spec fn evtx_magic_at(c: Seq<u8>, i: int) -> bool {
    c.subrange(i, i + 8) == seq![69u8, 108, 102, 70, 105, 108, 101, 0]
        || c.subrange(i, i + 7) == seq![69u8, 108, 102, 67, 104, 110, 107]
}

/// A pcap (either byte order) or pcapng magic number at `i`.
pub open spec fn pcap_magic_at(c: Seq<u8>, i: int) -> bool {
    c.subrange(i, i + 4) == seq![0xA1u8, 0xB2, 0xC3, 0xD4] || c.subrange(i, i + 4) == seq![0xD4u8, 0xC3, 0xB2, 0xA1]
        || c.subrange(i, i + 4) == seq![0x0Au8, 0x0D, 0x0D, 0x0A]
}

/// The first binary magic among the first 512 bytes (scanning positions `i` to the window end).
pub open spec fn magic_scan(c: Seq<u8>, i: int) -> Option<LogFormat>
    decreases (if c.len() < 512 { c.len() as int } else { 512 }) - 7 - i,
{
    let window: int = if c.len() < 512 { c.len() as int } else { 512 };
    if window < 8 || i < 0 || i >= window - 7 {
        None
    } else if evtx_magic_at(c, i) {
        Some(LogFormat::Evtx)
    } else if pcap_magic_at(c, i) {
        Some(LogFormat::Pcap)
    } else {
        magic_scan(c, i + 1)
    }
}

/// The format an extension asks for, if it decides one.
pub open spec fn extension_format(ext: Seq<char>) -> Option<LogFormat> {
    let e = lowercase(ext);
    if e == "evtx"@ {
        Some(LogFormat::Evtx)
    } else if e == "pcap"@ || e == "pcapng"@ {
        Some(LogFormat::Pcap)
    } else if e == "csv"@ {
        Some(LogFormat::Csv)
    } else if e == "syslog"@ || e == "auth"@ {
        Some(LogFormat::Syslog)
    } else if e == "access"@ || e == "error"@ {
        Some(LogFormat::WebLog)
    } else {
        None
    }
}

pub open spec fn syslog_pattern_1() -> Seq<char> { r"(?m)^[A-Z][a-z]{2}\s+\d{1,2}\s+\d{2}:\d{2}:\d{2}"@ }
pub open spec fn syslog_pattern_2() -> Seq<char> { r"(?m)^\d{4}-\d{2}-\d{2}T\d{2}:\d{2}:\d{2}"@ }
pub open spec fn syslog_pattern_3() -> Seq<char> { r"(?m)^\d{2}/\d{2}\s\d{2}:\d{2}:\d{2}\s\["@ }

/// The format the text of a file suggests.
pub open spec fn text_format(s: Seq<char>) -> LogFormat {
    let t = seq_trim_start(s);
    let l = lowercase(s);
    if seq_starts_with(t, "{"@) && (seq_contains(l, "_index"@) || seq_contains(l, "_source"@)
        || seq_contains(l, "agent.type"@) || seq_contains(l, "textpayload"@)) {
        LogFormat::Elastic
    } else if seq_starts_with(t, "{"@) && (seq_contains(l, "\"usage\""@) || seq_contains(l, "\"security_flags\""@)) {
        LogFormat::AiProxy
    } else if (seq_contains(s, "<"@) && seq_contains(s, ">"@))
        || crate::pattern::regex_first_match(syslog_pattern_1(), s) is Some
        || crate::pattern::regex_first_match(syslog_pattern_2(), s) is Some
        || crate::pattern::regex_first_match(syslog_pattern_3(), s) is Some {
        LogFormat::Syslog
    } else if (seq_contains(s, "GET /"@) || seq_contains(s, "POST /"@) || seq_contains(s, "PUT /"@))
        && (seq_contains(s, "HTTP/1.1"@) || seq_contains(s, "HTTP/1.0"@) || seq_contains(s, "HTTP/2.0"@)) {
        LogFormat::WebLog
    } else if seq_starts_with(t, "["@) {
        LogFormat::JsonArray
    } else if seq_starts_with(t, "{"@) {
        LogFormat::NdJson
    } else if seq_contains(uppercase(s), "LINEID,DATE,TIME"@) {
        LogFormat::Csv
    } else {
        LogFormat::PlainText
    }
}

/// The format of a file: binary magic first, then the path's extension, then its text (without a
/// UTF-8 byte-order mark).
pub open spec fn detect_spec(content: Seq<u8>, path: Option<Seq<char>>) -> LogFormat {
    match magic_scan(content, 0) {
        Some(f) => f,
        None => {
            let by_ext = match path {
                Some(p) => match path_extension(p) {
                    Some(e) => extension_format(e),
                    None => None,
                },
                None => None,
            };
            match by_ext {
                Some(f) => f,
                None => {
                    let body = if content.len() >= 3 && content.subrange(0, 3) == seq![0xEFu8, 0xBB, 0xBF] {
                        content.subrange(3, content.len() as int)
                    } else {
                        content
                    };
                    text_format(lossy_text(body))
                }
            }
        }
    }
}

fn bytes_at(c: &[u8], i: usize, pat: &[u8]) -> (b: bool)
    requires
        i + pat@.len() <= c@.len(),
    ensures
        b == (c@.subrange(i as int, i + pat@.len()) == pat@),
{
    let mut j: usize = 0;
    while j < pat.len()
        invariant
            0 <= j <= pat@.len(),
            i + pat@.len() <= c@.len(),
            c@.len() == c.len(),
            forall|k: int| 0 <= k < j ==> c@[i + k] == pat@[k],
        decreases pat@.len() - j,
    {
        if c[i + j] != pat[j] {
            assert(c@.subrange(i as int, i + pat@.len())[j as int] != pat@[j as int]);
            return false;
        }
        j += 1;
    }
    assert(c@.subrange(i as int, i + pat@.len()) =~= pat@);
    true
}

fn scan_magic(content: &[u8]) -> (r: Option<LogFormat>)
    ensures
        r == magic_scan(content@, 0),
{
    let window: usize = if content.len() < 512 { content.len() } else { 512 };
    if window < 8 {
        return None;
    }
    let mut i: usize = 0;
    while i < window - 7
        invariant
            window == (if content@.len() < 512 { content@.len() as int } else { 512 }),
            window >= 8,
            0 <= i <= window - 7,
            magic_scan(content@, 0) == magic_scan(content@, i as int),
        decreases window - 7 - i,
    {
        let evtx = bytes_at(content, i, &[69u8, 108, 102, 70, 105, 108, 101, 0]) || bytes_at(content, i, &[69u8, 108, 102, 67, 104, 110, 107]);
        assert([69u8, 108, 102, 70, 105, 108, 101, 0]@ =~= seq![69u8, 108, 102, 70, 105, 108, 101, 0]);
        assert([69u8, 108, 102, 67, 104, 110, 107]@ =~= seq![69u8, 108, 102, 67, 104, 110, 107]);
        if evtx {
            return Some(LogFormat::Evtx);
        }
        let pcap = bytes_at(content, i, &[0xA1u8, 0xB2, 0xC3, 0xD4]) || bytes_at(content, i, &[0xD4u8, 0xC3, 0xB2, 0xA1])
            || bytes_at(content, i, &[0x0Au8, 0x0D, 0x0D, 0x0A]);
        assert([0xA1u8, 0xB2, 0xC3, 0xD4]@ =~= seq![0xA1u8, 0xB2, 0xC3, 0xD4]);
        assert([0xD4u8, 0xC3, 0xB2, 0xA1]@ =~= seq![0xD4u8, 0xC3, 0xB2, 0xA1]);
        assert([0x0Au8, 0x0D, 0x0D, 0x0A]@ =~= seq![0x0Au8, 0x0D, 0x0D, 0x0A]);
        if pcap {
            return Some(LogFormat::Pcap);
        }
        i += 1;
    }
    None
}

fn format_of_extension(ext: &str) -> (r: Option<LogFormat>)
    ensures
        r == extension_format(ext@),
{
    let e = to_lowercase(ext);
    let e = e.as_str();
    if str_eq(e, "evtx") {
        Some(LogFormat::Evtx)
    } else if str_eq(e, "pcap") || str_eq(e, "pcapng") {
        Some(LogFormat::Pcap)
    } else if str_eq(e, "csv") {
        Some(LogFormat::Csv)
    } else if str_eq(e, "syslog") || str_eq(e, "auth") {
        Some(LogFormat::Syslog)
    } else if str_eq(e, "access") || str_eq(e, "error") {
        Some(LogFormat::WebLog)
    } else {
        None
    }
}

fn format_of_text(s: &str) -> (r: LogFormat)
    ensures
        r == text_format(s@),
{
    let t = trim_start(s);
    let t = t.as_str();
    let l = to_lowercase(s);
    let l = l.as_str();
    if str_starts_with(t, "{") && (str_contains(l, "_index") || str_contains(l, "_source")
        || str_contains(l, "agent.type") || str_contains(l, "textpayload")) {
        return LogFormat::Elastic;
    }
    if str_starts_with(t, "{") && (str_contains(l, "\"usage\"") || str_contains(l, "\"security_flags\"")) {
        return LogFormat::AiProxy;
    }
    if (str_contains(s, "<") && str_contains(s, ">"))
        || regex_find(r"(?m)^[A-Z][a-z]{2}\s+\d{1,2}\s+\d{2}:\d{2}:\d{2}", s).is_some()
        || regex_find(r"(?m)^\d{4}-\d{2}-\d{2}T\d{2}:\d{2}:\d{2}", s).is_some()
        || regex_find(r"(?m)^\d{2}/\d{2}\s\d{2}:\d{2}:\d{2}\s\[", s).is_some() {
        return LogFormat::Syslog;
    }
    if (str_contains(s, "GET /") || str_contains(s, "POST /") || str_contains(s, "PUT /"))
        && (str_contains(s, "HTTP/1.1") || str_contains(s, "HTTP/1.0") || str_contains(s, "HTTP/2.0")) {
        return LogFormat::WebLog;
    }
    if str_starts_with(t, "[") {
        LogFormat::JsonArray
    } else if str_starts_with(t, "{") {
        LogFormat::NdJson
    } else {
        let u = to_uppercase(s);
        if str_contains(u.as_str(), "LINEID,DATE,TIME") {
            LogFormat::Csv
        } else {
            LogFormat::PlainText
        }
    }
}

/// Format detection for files.
pub struct AutoDetector;

impl AutoDetector {
    /// The format of a file from its content and, optionally, its path.
    pub fn detect(content: &[u8], path: Option<&str>) -> (f: LogFormat)
        ensures
            f == detect_spec(content@, crate::text::opt_str_view(path)),
    {
        if let Some(f) = scan_magic(content) {
            return f;
        }
        if let Some(p) = path {
            if let Some(ext) = extension(p) {
                if let Some(f) = format_of_extension(ext.as_str()) {
                    return f;
                }
            }
        }
        let bom = content.len() >= 3 && bytes_at(content, 0, &[0xEFu8, 0xBB, 0xBF]);
        assert([0xEFu8, 0xBB, 0xBF]@ =~= seq![0xEFu8, 0xBB, 0xBF]);
        let s = if bom {
            let body = content.split_at(3).1;
            assert(body@ =~= content@.subrange(3, content@.len() as int));
            utf8_lossy(body)
        } else {
            utf8_lossy(content)
        };
        format_of_text(s.as_str())
    }
}

/// Where the content carries no EVTX or PCAP magic, the file's extension decides the format, in
/// any letter case: `evtx` is EVTX, `pcap` and `pcapng` packet captures, `csv` the CBS CSV form,
/// `syslog` and `auth` syslog, `access` and `error` web server logs.
pub proof fn law_extension_decides(content: Seq<u8>, path: Seq<char>, ext: Seq<char>)
    requires
        magic_scan(content, 0) is None,
        path_extension(path) == Some(ext),
    ensures
        lowercase(ext) == "evtx"@ ==> detect_spec(content, Some(path)) == LogFormat::Evtx,
        lowercase(ext) == "pcap"@ || lowercase(ext) == "pcapng"@ ==> detect_spec(content, Some(path)) == LogFormat::Pcap,
        lowercase(ext) == "csv"@ ==> detect_spec(content, Some(path)) == LogFormat::Csv,
        lowercase(ext) == "syslog"@ || lowercase(ext) == "auth"@ ==> detect_spec(content, Some(path)) == LogFormat::Syslog,
        lowercase(ext) == "access"@ || lowercase(ext) == "error"@ ==> detect_spec(content, Some(path)) == LogFormat::WebLog,
{
    reveal_strlit("evtx");
    reveal_strlit("pcap");
    reveal_strlit("pcapng");
    reveal_strlit("csv");
    reveal_strlit("syslog");
    reveal_strlit("auth");
    reveal_strlit("access");
    reveal_strlit("error");
    assert("pcap"@[0] != "evtx"@[0]);
    assert("pcapng"@.len() != "evtx"@.len());
    assert("pcapng"@.len() != "pcap"@.len());
    assert("csv"@.len() != "evtx"@.len());
    assert("csv"@.len() != "pcap"@.len());
    assert("csv"@.len() != "pcapng"@.len());
    assert("syslog"@.len() != "evtx"@.len());
    assert("syslog"@.len() != "pcap"@.len());
    assert("syslog"@[0] != "pcapng"@[0]);
    assert("syslog"@.len() != "csv"@.len());
    assert("auth"@[0] != "evtx"@[0]);
    assert("auth"@[0] != "pcap"@[0]);
    assert("auth"@.len() != "pcapng"@.len());
    assert("auth"@.len() != "csv"@.len());
    assert("auth"@.len() != "syslog"@.len());
    assert("access"@.len() != "evtx"@.len());
    assert("access"@.len() != "pcap"@.len());
    assert("access"@[0] != "pcapng"@[0]);
    assert("access"@.len() != "csv"@.len());
    assert("access"@[0] != "syslog"@[0]);
    assert("access"@.len() != "auth"@.len());
    assert("error"@.len() != "evtx"@.len());
    assert("error"@.len() != "pcap"@.len());
    assert("error"@.len() != "pcapng"@.len());
    assert("error"@.len() != "csv"@.len());
    assert("error"@.len() != "syslog"@.len());
    assert("error"@.len() != "auth"@.len());
    assert("error"@.len() != "access"@.len());
}

} // verus!
