//! Web server access logs in the Common and Combined formats.

use vstd::prelude::*;
use crate::metadata::Metadata;
use crate::models::{LogRecord, ParsingQuality, parser_defaults};
use crate::parsers::{LogParser, parse_timestamp_robust};
use crate::parsers::common::{group_or, groups_view, group, has_group};
use crate::pattern::{regex_first_captures, regex_captures};
use crate::text::{owned, concat, trim, seq_trim, seq_starts_with, str_starts_with, opt_view};

verus! {

pub open spec fn combined_pattern() -> Seq<char> {
    r#"^([^\s]+)\s+([^\s]+)\s+([^\s]+)\s+\[([^\]]+)\]\s+"([A-Z]+)\s+([^\s]+)\s+([^"]+)"\s+(\d+)\s+([^\s]+)(?:\s+"([^"]*)"\s+"([^"]*)")?.*$"#@
}

/// Server errors (5xx) are errors, client errors (4xx) warnings, the rest informational.
pub open spec fn http_severity(status: Seq<char>) -> Seq<char> {
    if seq_starts_with(status, "5"@) {
        "ERROR"@
    } else if seq_starts_with(status, "4"@) {
        "WARNING"@
    } else {
        "INFO"@
    }
}

/// The severity of an HTTP status code.
pub fn map_http_status_to_severity(status: &str) -> (s: String)
    ensures
        s@ == http_severity(status@),
{
    if str_starts_with(status, "5") {
        owned("ERROR")
    } else if str_starts_with(status, "4") {
        owned("WARNING")
    } else {
        owned("INFO")
    }
}

/// What an access-log line yields: (message, severity, metadata, timestamp text) when it is in the
/// Combined or Common format.
pub open spec fn web_parse(raw: Seq<char>) -> Option<(Seq<char>, Seq<char>, Map<Seq<char>, Seq<char>>, Seq<char>)> {
    match regex_first_captures(combined_pattern(), seq_trim(raw)) {
        Some(c) => {
            let status = group_or(c, 8, "000"@);
            let md0 = Map::<Seq<char>, Seq<char>>::empty().insert("client_ip"@, group_or(c, 1, "-"@))
                .insert("http_method"@, group_or(c, 5, "-"@)).insert("http_path"@, group_or(c, 6, "-"@))
                .insert("http_protocol"@, group_or(c, 7, "-"@)).insert("http_status"@, status)
                .insert("body_bytes_sent"@, group_or(c, 9, "0"@));
            let md1 = if 10 < c.len() && c[10] is Some { md0.insert("http_referer"@, c[10]->0) } else { md0 };
            let md = if 11 < c.len() && c[11] is Some { md1.insert("user_agent"@, c[11]->0) } else { md1 };
            let msg = group_or(c, 5, "-"@) + " "@ + group_or(c, 6, "-"@) + " "@ + group_or(c, 7, "-"@) + " -> "@ + status;
            Some((msg, http_severity(status), md, group_or(c, 4, Seq::empty())))
        }
        None => None,
    }
}

/// Access logs.
pub struct WebLogParser;

impl LogParser for WebLogParser {
    open spec fn accepts(&self, raw: Seq<char>) -> bool {
        true
    }

    fn format_name(&self) -> (s: String)
        ensures
            s@ == "web_access"@,
    {
        owned("web_access")
    }

    /// The request as message (`METHOD PATH PROTOCOL -> STATUS`), the status's severity and the
    /// request fields as metadata; another line is kept whole and degraded.
    fn parse(&self, raw: &str) -> (r: LogRecord)
        ensures
            r.raw@ == raw@,
            r.original_format@ == "web_access"@,
            r.outcome is None && r.unparsed_raw is None && r.additional_context is None,
            r.parent_process_id is None && r.parent_process_name is None,
            parser_defaults(r),
            match web_parse(raw@) {
                Some((msg, sev, md, _)) => {
                    &&& r.message@ == msg
                    &&& opt_view(r.severity) == Some(sev)
                    &&& opt_view(r.source) == Some("web_log"@)
                    &&& r.metadata@ == md
                    &&& (r.quality == ParsingQuality::Success || r.quality == ParsingQuality::PartialTimestamp)
                }
                None => {
                    &&& r.message@ == seq_trim(raw@)
                    &&& r.severity is None && r.source is None
                    &&& r.metadata@ == Map::<Seq<char>, Seq<char>>::empty()
                    &&& r.quality == ParsingQuality::Degraded
                }
            },
    {
        let trimmed = trim(raw);
        let t = trimmed.as_str();
        if let Some(c) = regex_captures(r#"^([^\s]+)\s+([^\s]+)\s+([^\s]+)\s+\[([^\]]+)\]\s+"([A-Z]+)\s+([^\s]+)\s+([^"]+)"\s+(\d+)\s+([^\s]+)(?:\s+"([^"]*)"\s+"([^"]*)")?.*$"#, t) {
            let method = group(&c, 5, "-");
            let path = group(&c, 6, "-");
            let protocol = group(&c, 7, "-");
            let status = group(&c, 8, "000");
            let mut md = Metadata::new();
            md.insert(owned("client_ip"), group(&c, 1, "-"));
            md.insert(owned("http_method"), owned(method.as_str()));
            md.insert(owned("http_path"), owned(path.as_str()));
            md.insert(owned("http_protocol"), owned(protocol.as_str()));
            md.insert(owned("http_status"), owned(status.as_str()));
            md.insert(owned("body_bytes_sent"), group(&c, 9, "0"));
            if has_group(&c, 10) {
                md.insert(owned("http_referer"), group(&c, 10, ""));
            }
            if has_group(&c, 11) {
                md.insert(owned("user_agent"), group(&c, 11, ""));
            }
            proof {
                reveal_strlit("");
            }
            let ts_text = group(&c, 4, "");
            let (ts, quality) = parse_timestamp_robust(ts_text.as_str());
            let a = concat(method.as_str(), " ");
            let b = concat(a.as_str(), path.as_str());
            let d = concat(b.as_str(), " ");
            let e = concat(d.as_str(), protocol.as_str());
            let f = concat(e.as_str(), " -> ");
            let msg = concat(f.as_str(), status.as_str());
            let mut r = LogRecord::blank_at(ts);
            r.message = msg;
            r.severity = Some(map_http_status_to_severity(status.as_str()));
            r.source = Some(owned("web_log"));
            r.metadata = md;
            r.raw = owned(raw);
            r.original_format = owned("web_access");
            r.quality = quality;
            return r;
        }
        let mut r = LogRecord::new(owned(t), owned(raw), "web_access");
        r.quality = ParsingQuality::Degraded;
        r
    }
}

} // verus!
