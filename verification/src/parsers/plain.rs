//! Free text: every line becomes a record, with a best-effort timestamp and severity.

use vstd::prelude::*;
use crate::models::{LogRecord, ParsingQuality, parser_defaults};
use crate::parsers::{LogParser, parse_timestamp_robust};
use crate::pattern::{regex_find, regex_first_match};
use crate::text::{owned, trim, seq_trim, seq_contains, uppercase, to_uppercase, str_contains, opt_view};
use crate::time::now;

verus! {

pub open spec fn plain_timestamp_pattern() -> Seq<char> {
    r"^[A-Z][a-z]{2}\s+\d{1,2}\s+\d{2}:\d{2}:\d{2}"@
}

/// The severity a free-text line suggests.
pub open spec fn plain_severity(t: Seq<char>) -> Seq<char> {
    let u = uppercase(t);
    if seq_contains(u, "ERROR"@) || seq_contains(u, "FAIL"@) {
        "ERROR"@
    } else if seq_contains(u, "WARN"@) {
        "WARNING"@
    } else {
        "INFO"@
    }
}

/// Any text line.
pub struct PlainTextParser;

impl LogParser for PlainTextParser {
    open spec fn accepts(&self, raw: Seq<char>) -> bool {
        true
    }

    fn format_name(&self) -> (s: String)
        ensures
            s@ == "plaintext_fallback"@,
    {
        owned("plaintext_fallback")
    }

    /// The trimmed line as message, its severity from its words, its timestamp from a leading
    /// `Mon DD HH:MM:SS` (else a fallback); a blank line is an empty informational record.
    fn parse(&self, raw: &str) -> (r: LogRecord)
        ensures
            r.message@ == seq_trim(raw@),
            opt_view(r.severity) == Some(if seq_trim(raw@).len() == 0 { "INFO"@ } else { plain_severity(seq_trim(raw@)) }),
            opt_view(r.source) == Some("local_file"@),
            opt_view(r.outcome) == Some("Success"@),
            r.raw@ == raw@,
            opt_view(r.unparsed_raw) == Some(raw@),
            r.original_format@ == "plaintext_fallback"@,
            seq_trim(raw@).len() == 0 ==> r.quality == ParsingQuality::Success,
            seq_trim(raw@).len() > 0 && regex_first_match(plain_timestamp_pattern(), seq_trim(raw@)) is None
                ==> r.quality == ParsingQuality::PartialTimestamp,
            r.quality == ParsingQuality::Success || r.quality == ParsingQuality::PartialTimestamp,
            r.metadata@ == Map::<Seq<char>, Seq<char>>::empty(),
            r.additional_context is None && r.parent_process_id is None && r.parent_process_name is None,
            parser_defaults(r),
    {
        let trimmed = trim(raw);
        let t = trimmed.as_str();
        let (ts, quality) = if t.unicode_len() == 0 {
            (now(), ParsingQuality::Success)
        } else {
            match regex_find(r"^[A-Z][a-z]{2}\s+\d{1,2}\s+\d{2}:\d{2}:\d{2}", t) {
                Some(m) => parse_timestamp_robust(m.as_str()),
                None => (now(), ParsingQuality::PartialTimestamp),
            }
        };
        let severity = if t.unicode_len() == 0 {
            owned("INFO")
        } else {
            let u = to_uppercase(t);
            if str_contains(u.as_str(), "ERROR") || str_contains(u.as_str(), "FAIL") {
                owned("ERROR")
            } else if str_contains(u.as_str(), "WARN") {
                owned("WARNING")
            } else {
                owned("INFO")
            }
        };
        let mut r = LogRecord::blank_at(ts);
        r.message = owned(t);
        r.severity = Some(severity);
        r.source = Some(owned("local_file"));
        r.outcome = Some(owned("Success"));
        r.raw = owned(raw);
        r.unparsed_raw = Some(owned(raw));
        r.original_format = owned("plaintext_fallback");
        r.quality = quality;
        r
    }
}

} // verus!
