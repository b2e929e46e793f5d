//! Syslog: RFC 5424, RFC 3164 with and without priority, ISO-stamped syslog and Netlogon lines.

use vstd::prelude::*;
use crate::metadata::Metadata;
use crate::models::{LogRecord, ParsingQuality, parser_defaults};
use crate::num::{parse_unsigned, u64_to_string};
use crate::parsers::{LogParser, parse_timestamp_robust, robust_reading};
use crate::parsers::common::{group_or, groups_view, group, has_group};
use crate::pattern::{regex_first_captures, regex_captures};
use crate::text::{owned, trim, seq_trim, to_uppercase, uppercase, decimal, opt_view, parse_unsigned_spec};

verus! {

pub open spec fn rfc5424_pattern() -> Seq<char> {
    r"^<(\d+)>(\d+)\s+([^\s]+)\s+([^\s]+)\s+([^\s]+)\s+([^\s]+)\s+([^\s]+)\s+(?:\[.*\])?\s*(.*)$"@
}

pub open spec fn rfc3164_pattern() -> Seq<char> {
    r"^<(\d+)>([A-Z][a-z]{2}\s+\d{1,2}\s+\d{2}:\d{2}:\d{2})\s+([^\s]+)\s+([^:\s]+):?\s*(.*)$"@
}

pub open spec fn bare3164_pattern() -> Seq<char> {
    r"^([A-Z][a-z]{2}\s+\d{1,2}\s+\d{2}:\d{2}:\d{2})\s+([^\s]+)\s+([^:\s]+):?\s*(.*)$"@
}

pub open spec fn iso_pattern() -> Seq<char> {
    r"^(\d{4}-\d{2}-\d{2}T\d{2}:\d{2}:\d{2}(?:\.\d+)?(?:Z|[+-]\d{2}:\d{2}))\s+([^\s]+)\s+([^:\[\s]+)(?:\[(\d+)\])?:\s*(.*)$"@
}

pub open spec fn netlogon_pattern() -> Seq<char> {
    r"^(\d{2}/\d{2}\s\d{2}:\d{2}:\d{2})\s\[([^\]]+)\]\s(?:\[(\d+)\]\s)?(.*)$"@
}

/// The severity name of a syslog severity number.
pub open spec fn severity_name(n: nat) -> Seq<char> {
    if n <= 1 {
        "CRITICAL"@
    } else if n <= 3 {
        "ERROR"@
    } else if n == 4 {
        "WARNING"@
    } else if n <= 6 {
        "INFO"@
    } else if n == 7 {
        "DEBUG"@
    } else {
        "INFO"@
    }
}

pub fn map_severity(n: u64) -> (s: String)
    ensures
        s@ == severity_name(n as nat),
{
    if n <= 1 {
        owned("CRITICAL")
    } else if n <= 3 {
        owned("ERROR")
    } else if n == 4 {
        owned("WARNING")
    } else if n <= 6 {
        owned("INFO")
    } else if n == 7 {
        owned("DEBUG")
    } else {
        owned("INFO")
    }
}

/// The priority in a capture group: its decimal value when it fits 32 bits, zero otherwise.
pub open spec fn priority(text: Seq<char>) -> nat {
    match parse_unsigned_spec(text, 10, 4294967295) {
        Some(n) => n,
        None => 0,
    }
}

/// What a syslog line yields: (message, severity, source, metadata, timestamp text); no timestamp
/// text means the line matched no syslog form and is kept degraded.
pub open spec fn syslog_parse(raw: Seq<char>) -> (Seq<char>, Option<Seq<char>>, Option<Seq<char>>, Map<Seq<char>, Seq<char>>, Option<Seq<char>>) {
    let t = seq_trim(raw);
    let empty = Map::<Seq<char>, Seq<char>>::empty();
    if let Some(c) = regex_first_captures(rfc5424_pattern(), t) {
        let pri = priority(group_or(c, 1, Seq::empty()));
        let md = empty.insert("syslog_priority"@, decimal(pri)).insert("syslog_facility"@, decimal(pri / 8))
            .insert("syslog_severity_num"@, decimal(pri % 8)).insert("hostname"@, group_or(c, 4, "-"@))
            .insert("app_name"@, group_or(c, 5, "-"@)).insert("proc_id"@, group_or(c, 6, "-"@))
            .insert("msg_id"@, group_or(c, 7, "-"@));
        (group_or(c, 8, Seq::empty()), Some(severity_name(pri % 8)), Some("syslog_rfc5424"@), md, Some(group_or(c, 3, Seq::empty())))
    } else if let Some(c) = regex_first_captures(rfc3164_pattern(), t) {
        let pri = priority(group_or(c, 1, Seq::empty()));
        let md = empty.insert("syslog_priority"@, decimal(pri)).insert("hostname"@, group_or(c, 3, "-"@))
            .insert("tag"@, group_or(c, 4, "-"@));
        (group_or(c, 5, Seq::empty()), Some(severity_name(pri % 8)), Some("syslog_rfc3164"@), md, Some(group_or(c, 2, Seq::empty())))
    } else if let Some(c) = regex_first_captures(bare3164_pattern(), t) {
        let md = empty.insert("hostname"@, group_or(c, 2, "-"@)).insert("tag"@, group_or(c, 3, "-"@));
        (group_or(c, 4, Seq::empty()), Some("INFO"@), Some("syslog_bare"@), md, Some(group_or(c, 1, Seq::empty())))
    } else if let Some(c) = regex_first_captures(iso_pattern(), t) {
        let md0 = empty.insert("hostname"@, group_or(c, 2, "-"@)).insert("tag"@, group_or(c, 3, "-"@));
        let md = if 4 < c.len() && c[4] is Some { md0.insert("pid"@, c[4]->0) } else { md0 };
        (group_or(c, 5, Seq::empty()), Some("INFO"@), Some("syslog_iso"@), md, Some(group_or(c, 1, Seq::empty())))
    } else if let Some(c) = regex_first_captures(netlogon_pattern(), t) {
        let md = if 3 < c.len() && c[3] is Some { empty.insert("pid"@, c[3]->0) } else { empty };
        (group_or(c, 4, Seq::empty()), Some(uppercase(group_or(c, 2, "INFO"@))), Some("syslog_netlogon"@), md,
            Some(group_or(c, 1, Seq::empty())))
    } else {
        (t, None, None, empty, None)
    }
}

/// Syslog lines in their common forms.
pub struct SyslogParser;

fn empty_string() -> (s: String)
    ensures
        s@ == Seq::<char>::empty(),
{
    proof {
        reveal_strlit("");
        assert(""@ =~= Seq::<char>::empty());
    }
    owned("")
}

fn priority_of(caps: &Vec<Option<String>>) -> (p: u64)
    ensures
        p == priority(group_or(groups_view(caps@), 1, Seq::empty())),
        p <= 4294967295,
{
    let e = empty_string();
    let g = group(caps, 1, e.as_str());
    match parse_unsigned(g.as_str(), 10, 4294967295u64) {
        Some(n) => n,
        None => 0,
    }
}

/// A record of a matched line with the given fields.
fn matched_record(message: String, severity: String, source: &str, metadata: Metadata, ts_text: &str, raw: &str) -> (r: LogRecord)
    ensures
        r.message == message,
        opt_view(r.severity) == Some(severity@),
        opt_view(r.source) == Some(source@),
        r.metadata@ == metadata@,
        r.raw@ == raw@,
        r.original_format@ == "syslog"@,
        robust_reading(ts_text@, (r.timestamp, r.quality)),
        r.outcome is None && r.unparsed_raw is None && r.additional_context is None,
        r.parent_process_id is None && r.parent_process_name is None,
        parser_defaults(r),
{
    let (ts, quality) = parse_timestamp_robust(ts_text);
    let mut r = LogRecord::blank_at(ts);
    r.message = message;
    r.severity = Some(severity);
    r.source = Some(owned(source));
    r.metadata = metadata;
    r.raw = owned(raw);
    r.original_format = owned("syslog");
    r.quality = quality;
    r
}

impl LogParser for SyslogParser {
    open spec fn accepts(&self, raw: Seq<char>) -> bool {
        true
    }

    fn format_name(&self) -> (s: String)
        ensures
            s@ == "syslog"@,
    {
        owned("syslog")
    }

    /// The record of a syslog line: priority-derived severity and the header fields as metadata;
    /// a line in no known form is kept whole and degraded.
    fn parse(&self, raw: &str) -> (r: LogRecord)
        ensures
            r.message@ == syslog_parse(raw@).0,
            opt_view(r.severity) == syslog_parse(raw@).1,
            opt_view(r.source) == syslog_parse(raw@).2,
            r.metadata@ == syslog_parse(raw@).3,
            r.raw@ == raw@,
            r.original_format@ == "syslog"@,
            syslog_parse(raw@).4 is None ==> r.quality == ParsingQuality::Degraded,
            syslog_parse(raw@).4 matches Some(ts) ==> robust_reading(ts, (r.timestamp, r.quality)),
            r.outcome is None && r.unparsed_raw is None && r.additional_context is None,
            r.parent_process_id is None && r.parent_process_name is None,
            parser_defaults(r),
    {
        let trimmed = trim(raw);
        let t = trimmed.as_str();
        let e = empty_string();
        if let Some(c) = regex_captures(r"^<(\d+)>(\d+)\s+([^\s]+)\s+([^\s]+)\s+([^\s]+)\s+([^\s]+)\s+([^\s]+)\s+(?:\[.*\])?\s*(.*)$", t) {
            let pri = priority_of(&c);
            let mut md = Metadata::new();
            md.insert(owned("syslog_priority"), u64_to_string(pri));
            md.insert(owned("syslog_facility"), u64_to_string(pri / 8));
            md.insert(owned("syslog_severity_num"), u64_to_string(pri % 8));
            md.insert(owned("hostname"), group(&c, 4, "-"));
            md.insert(owned("app_name"), group(&c, 5, "-"));
            md.insert(owned("proc_id"), group(&c, 6, "-"));
            md.insert(owned("msg_id"), group(&c, 7, "-"));
            let ts = group(&c, 3, e.as_str());
            return matched_record(group(&c, 8, e.as_str()), map_severity(pri % 8), "syslog_rfc5424", md, ts.as_str(), raw);
        }
        if let Some(c) = regex_captures(r"^<(\d+)>([A-Z][a-z]{2}\s+\d{1,2}\s+\d{2}:\d{2}:\d{2})\s+([^\s]+)\s+([^:\s]+):?\s*(.*)$", t) {
            let pri = priority_of(&c);
            let mut md = Metadata::new();
            md.insert(owned("syslog_priority"), u64_to_string(pri));
            md.insert(owned("hostname"), group(&c, 3, "-"));
            md.insert(owned("tag"), group(&c, 4, "-"));
            let ts = group(&c, 2, e.as_str());
            return matched_record(group(&c, 5, e.as_str()), map_severity(pri % 8), "syslog_rfc3164", md, ts.as_str(), raw);
        }
        if let Some(c) = regex_captures(r"^([A-Z][a-z]{2}\s+\d{1,2}\s+\d{2}:\d{2}:\d{2})\s+([^\s]+)\s+([^:\s]+):?\s*(.*)$", t) {
            let mut md = Metadata::new();
            md.insert(owned("hostname"), group(&c, 2, "-"));
            md.insert(owned("tag"), group(&c, 3, "-"));
            let ts = group(&c, 1, e.as_str());
            return matched_record(group(&c, 4, e.as_str()), owned("INFO"), "syslog_bare", md, ts.as_str(), raw);
        }
        if let Some(c) = regex_captures(r"^(\d{4}-\d{2}-\d{2}T\d{2}:\d{2}:\d{2}(?:\.\d+)?(?:Z|[+-]\d{2}:\d{2}))\s+([^\s]+)\s+([^:\[\s]+)(?:\[(\d+)\])?:\s*(.*)$", t) {
            let mut md = Metadata::new();
            md.insert(owned("hostname"), group(&c, 2, "-"));
            md.insert(owned("tag"), group(&c, 3, "-"));
            if has_group(&c, 4) {
                md.insert(owned("pid"), group(&c, 4, "-"));
            }
            let ts = group(&c, 1, e.as_str());
            return matched_record(group(&c, 5, e.as_str()), owned("INFO"), "syslog_iso", md, ts.as_str(), raw);
        }
        if let Some(c) = regex_captures(r"^(\d{2}/\d{2}\s\d{2}:\d{2}:\d{2})\s\[([^\]]+)\]\s(?:\[(\d+)\]\s)?(.*)$", t) {
            let mut md = Metadata::new();
            if has_group(&c, 3) {
                md.insert(owned("pid"), group(&c, 3, "-"));
            }
            let level = group(&c, 2, "INFO");
            let ts = group(&c, 1, e.as_str());
            return matched_record(group(&c, 4, e.as_str()), to_uppercase(level.as_str()), "syslog_netlogon", md, ts.as_str(), raw);
        }
        let mut r = LogRecord::new(owned(t), owned(raw), "syslog");
        r.quality = ParsingQuality::Degraded;
        r
    }
}

/// The severity of a syslog line with a priority (RFC 5424, else RFC 3164), by the priority's
/// severity part (the priority modulo 8): 0 and 1 are CRITICAL, 2 and 3 ERROR, 4 WARNING, 5 and 6
/// INFO, 7 DEBUG.
pub proof fn law_syslog_severity_table(raw: Seq<char>, c: Seq<Option<Seq<char>>>)
    requires
        regex_first_captures(rfc5424_pattern(), seq_trim(raw)) == Some(c)
            || (regex_first_captures(rfc5424_pattern(), seq_trim(raw)) is None
                && regex_first_captures(rfc3164_pattern(), seq_trim(raw)) == Some(c)),
    ensures
        ({
            let n = priority(group_or(c, 1, Seq::empty())) % 8;
            &&& n <= 1 ==> syslog_parse(raw).1 == Some("CRITICAL"@)
            &&& 2 <= n <= 3 ==> syslog_parse(raw).1 == Some("ERROR"@)
            &&& n == 4 ==> syslog_parse(raw).1 == Some("WARNING"@)
            &&& 5 <= n <= 6 ==> syslog_parse(raw).1 == Some("INFO"@)
            &&& n == 7 ==> syslog_parse(raw).1 == Some("DEBUG"@)
        }),
{
}

} // verus!
