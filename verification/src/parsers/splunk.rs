//! Splunk BOTS exports: `{"result": {...}}` documents mapped onto the Sysmon field names.

use vstd::prelude::*;
use crate::json::{JsonValue, json_get, json_document, parse_json_document};
use crate::metadata::Metadata;
use crate::models::{LogRecord, ParsingQuality, record_defaults};
use crate::parsers::{LogParser, parse_timestamp_robust};
use crate::text::{owned, concat, trim, seq_trim, opt_view};
use crate::time::now;

verus! {

/// A string member, or a number member as its text.
pub open spec fn splunk_value(v: JsonValue, key: Seq<char>) -> Option<Seq<char>> {
    match json_get(v, key) {
        Some(JsonValue::Str(s)) => Some(s@),
        Some(JsonValue::Number(n)) => Some(n.text@),
        _ => None,
    }
}

/// The event of a document: its `result` member, or the document itself.
pub open spec fn splunk_result(root: JsonValue) -> JsonValue {
    match json_get(root, "result"@) {
        Some(r) => r,
        None => root,
    }
}

/// Splunk field to record metadata key.
pub open spec fn splunk_mapping(k: int) -> (Seq<char>, Seq<char>) {
    if k == 0 { ("EventCode"@, "EventID"@) }
    else if k == 1 { ("CommandLine"@, "CommandLine"@) }
    else if k == 2 { ("Image"@, "Image"@) }
    else if k == 3 { ("ParentImage"@, "ParentImage"@) }
    else if k == 4 { ("ParentCommandLine"@, "ParentCommandLine"@) }
    else if k == 5 { ("User"@, "User"@) }
    else if k == 6 { ("LogName"@, "LogName"@) }
    else if k == 7 { ("SourceName"@, "SourceName"@) }
    else if k == 8 { ("PipeName"@, "PipeName"@) }
    else if k == 9 { ("ShareName"@, "ShareName"@) }
    else if k == 10 { ("TargetFilename"@, "TargetFilename"@) }
    else if k == 11 { ("DestinationIp"@, "DestinationIp"@) }
    else { ("DestinationPort"@, "DestinationPort"@) }
}

pub open spec fn ins_value(m: Map<Seq<char>, Seq<char>>, key: Seq<char>, v: Option<Seq<char>>) -> Map<Seq<char>, Seq<char>> {
    match v {
        Some(x) => m.insert(key, x),
        None => m,
    }
}

/// The metadata of an event: source type, host, then the mapped fields among the first `n`.
pub open spec fn splunk_metadata(v: JsonValue, n: int) -> Map<Seq<char>, Seq<char>>
    decreases n,
{
    if n <= 0 {
        ins_value(ins_value(Map::empty(), "sourcetype"@, splunk_value(v, "sourcetype"@)), "host"@, splunk_value(v, "host"@))
    } else {
        ins_value(splunk_metadata(v, n - 1), splunk_mapping(n - 1).1, splunk_value(v, splunk_mapping(n - 1).0))
    }
}

/// The message of an event: its raw text, or its source type.
pub open spec fn splunk_message(v: JsonValue) -> Seq<char> {
    match splunk_value(v, "_raw"@) {
        Some(r) => if r.len() > 0 { r } else {
            "Splunk Event: "@ + match splunk_value(v, "sourcetype"@) { Some(s) => s, None => "unknown"@ }
        },
        None => "Splunk Event: "@ + match splunk_value(v, "sourcetype"@) { Some(s) => s, None => "unknown"@ },
    }
}

/// The Splunk BOTS parser.
pub struct SplunkParser;

impl SplunkParser {
    pub fn new() -> (p: SplunkParser) {
        SplunkParser
    }

    fn get_value(v: &JsonValue, key: &str) -> (r: Option<String>)
        ensures
            opt_view(r) == splunk_value(*v, key@),
    {
        match v.get(key) {
            Some(JsonValue::Str(s)) => Some(owned(s.as_str())),
            Some(JsonValue::Number(n)) => Some(owned(n.text.as_str())),
            _ => None,
        }
    }

    fn mapping(k: usize) -> (r: (&'static str, &'static str))
        requires
            k < 13,
        ensures
            (r.0@, r.1@) == splunk_mapping(k as int),
    {
        if k == 0 { ("EventCode", "EventID") }
        else if k == 1 { ("CommandLine", "CommandLine") }
        else if k == 2 { ("Image", "Image") }
        else if k == 3 { ("ParentImage", "ParentImage") }
        else if k == 4 { ("ParentCommandLine", "ParentCommandLine") }
        else if k == 5 { ("User", "User") }
        else if k == 6 { ("LogName", "LogName") }
        else if k == 7 { ("SourceName", "SourceName") }
        else if k == 8 { ("PipeName", "PipeName") }
        else if k == 9 { ("ShareName", "ShareName") }
        else if k == 10 { ("TargetFilename", "TargetFilename") }
        else if k == 11 { ("DestinationIp", "DestinationIp") }
        else { ("DestinationPort", "DestinationPort") }
    }

    fn metadata_of(v: &JsonValue) -> (md: Metadata)
        ensures
            md@ == splunk_metadata(*v, 13),
    {
        let mut md = Metadata::new();
        if let Some(st) = Self::get_value(v, "sourcetype") {
            md.insert(owned("sourcetype"), st);
        }
        if let Some(h) = Self::get_value(v, "host") {
            md.insert(owned("host"), h);
        }
        let mut k: usize = 0;
        while k < 13
            invariant
                0 <= k <= 13,
                md@ == splunk_metadata(*v, k as int),
            decreases 13 - k,
        {
            let (from, to) = Self::mapping(k);
            if let Some(x) = Self::get_value(v, from) {
                md.insert(owned(to), x);
            }
            k += 1;
        }
        md
    }

    fn message_of(v: &JsonValue) -> (m: String)
        ensures
            m@ == splunk_message(*v),
    {
        match Self::get_value(v, "_raw") {
            Some(r) if r.unicode_len() > 0 => r,
            _ => {
                let st = match Self::get_value(v, "sourcetype") {
                    Some(s) => s,
                    None => owned("unknown"),
                };
                concat("Splunk Event: ", st.as_str())
            }
        }
    }
}

impl LogParser for SplunkParser {
    open spec fn accepts(&self, raw: Seq<char>) -> bool {
        true
    }

    fn format_name(&self) -> (s: String)
        ensures
            s@ == "splunk_bots"@,
    {
        owned("splunk_bots")
    }

    /// The event of a Splunk export (its `result` member, or the document): raw text as message,
    /// level or severity, user as subject and the Sysmon fields as metadata; text that is not
    /// JSON is degraded.
    fn parse(&self, raw: &str) -> (r: LogRecord)
        ensures
            r.raw@ == raw@,
            r.original_format@ == "splunk_bots"@,
            opt_view(r.source) == Some("splunk_bots"@),
            record_defaults(r),
            r.parent_process_id is None && r.parent_process_name is None,
            match json_document(seq_trim(raw@)) {
                None => {
                    &&& r.message@ == "DEGRADED: Malformed Splunk JSON"@ && opt_view(r.severity) == Some("WARN"@)
                    &&& opt_view(r.outcome) == Some("Degraded"@) && opt_view(r.unparsed_raw) == Some(raw@)
                    &&& r.quality == ParsingQuality::Degraded && r.subject_id is None && r.additional_context is None
                    &&& r.metadata@ == Map::<Seq<char>, Seq<char>>::empty()
                }
                Some(root) => {
                    let v = splunk_result(root);
                    &&& r.message@ == splunk_message(v)
                    &&& opt_view(r.severity) == (if splunk_value(v, "level"@) is Some { splunk_value(v, "level"@) } else { splunk_value(v, "severity"@) })
                    &&& opt_view(r.subject_id) == splunk_value(v, "user"@)
                    &&& opt_view(r.outcome) == Some("Success"@) && r.unparsed_raw is None
                    &&& r.metadata@ == splunk_metadata(v, 13)
                    &&& r.additional_context == Some(v)
                    &&& splunk_value(v, "_time"@) is None ==> r.quality == ParsingQuality::PartialTimestamp
                    &&& (r.quality == ParsingQuality::Success || r.quality == ParsingQuality::PartialTimestamp)
                }
            },
    {
        let trimmed = trim(raw);
        let root = match parse_json_document(trimmed.as_str()) {
            Some(v) => v,
            None => {
                let mut r = LogRecord::blank_at(now());
                r.message = owned("DEGRADED: Malformed Splunk JSON");
                r.severity = Some(owned("WARN"));
                r.source = Some(owned("splunk_bots"));
                r.outcome = Some(owned("Degraded"));
                r.raw = owned(raw);
                r.unparsed_raw = Some(owned(raw));
                r.original_format = owned("splunk_bots");
                r.quality = ParsingQuality::Degraded;
                return r;
            }
        };
        let result = match JsonValue::take_member(root, "result") {
            Ok(x) => x,
            Err(w) => w,
        };
        let (ts, ts_quality) = match Self::get_value(&result, "_time") {
            Some(t) => parse_timestamp_robust(t.as_str()),
            None => (now(), ParsingQuality::PartialTimestamp),
        };
        let quality = if ts_quality == ParsingQuality::PartialTimestamp { ParsingQuality::PartialTimestamp } else { ParsingQuality::Success };
        let message = Self::message_of(&result);
        let md = Self::metadata_of(&result);
        let severity = match Self::get_value(&result, "level") {
            Some(l) => Some(l),
            None => Self::get_value(&result, "severity"),
        };
        let subject = Self::get_value(&result, "user");
        let mut r = LogRecord::blank_at(ts);
        r.message = message;
        r.severity = severity;
        r.source = Some(owned("splunk_bots"));
        r.subject_id = subject;
        r.outcome = Some(owned("Success"));
        r.metadata = md;
        r.raw = owned(raw);
        r.original_format = owned("splunk_bots");
        r.quality = quality;
        r.additional_context = Some(result);
        r
    }
}

} // verus!
