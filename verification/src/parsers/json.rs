//! Structured JSON logs (cloud and Elastic exports), mapped through a format description.

use vstd::prelude::*;
use vstd::utf8::{encode_utf8, decode_utf8, is_char_boundary};
use crate::analysis::{parse_pid, parse_pid_text};
use crate::config::LogFormatConfig;
use crate::json::{JsonValue, json_dotted, json_dotted_str, json_str, json_text, json_stream_first,
    parse_json_stream_first, json_compact};
use crate::metadata::{Metadata, lookup, lookup2, fold_pairs, mapped, lemma_fold_pairs, entries_map, keys_distinct};
use crate::models::{LogRecord, ParsingQuality, parser_defaults};
use crate::parsers::{LogParser, parse_timestamp_robust, robust_reading};
use crate::text::{owned, concat, trim, seq_trim, opt_view};
use crate::time::now;

verus! {

/// The text a metadata path yields: a string as it is, another value as compact JSON.
pub open spec fn clean_text(v: JsonValue) -> Seq<char> {
    match v {
        JsonValue::Str(s) => s@,
        _ => json_text(v),
    }
}

/// The metadata value a document gives a configured path.
pub open spec fn path_value(v: JsonValue) -> spec_fn(Seq<char>) -> Option<Seq<char>> {
    |path: Seq<char>| match json_dotted(v, path) {
        Some(x) => Some(clean_text(x)),
        None => None,
    }
}

pub open spec fn first_some4(a: Option<Seq<char>>, b: Option<Seq<char>>, c: Option<Seq<char>>, d: Option<Seq<char>>) -> Option<Seq<char>> {
    if a is Some { a } else if b is Some { b } else if c is Some { c } else { d }
}

/// The string at a configured path, if any.
pub open spec fn field_str(v: JsonValue, field: Option<String>) -> Option<Seq<char>> {
    match field {
        Some(f) => json_dotted_str(v, f@),
        None => None,
    }
}

/// The path of a document's time: the configured timestamp field, else `timestamp`.
pub open spec fn time_path(cfg: LogFormatConfig) -> Seq<char> {
    match cfg.timestamp_field {
        Some(f) => f@,
        None => "timestamp"@,
    }
}

/// The reading `(t, q)` of a document's time: what [`crate::parsers::parse_timestamp_robust`]
/// states of the text at its time path, or a fallback marked partial where there is none.
#[verifier::opaque]
pub open spec fn time_reading(v: JsonValue, cfg: LogFormatConfig, t: crate::time::Timestamp, q: ParsingQuality) -> bool {
    match json_dotted_str(v, time_path(cfg)) {
        Some(s) => robust_reading(s, (t, q)),
        None => q == ParsingQuality::PartialTimestamp,
    }
}

/// The message a document carries: the process command line first, then the configured message
/// field, then `message`, `textPayload`, `log` or `msg`.
pub open spec fn json_message(v: JsonValue, cfg: LogFormatConfig) -> Option<Seq<char>> {
    first_some4(
        json_dotted_str(v, "_source.process.command_line"@),
        json_dotted_str(v, "Event.EventData.CommandLine"@),
        field_str(v, cfg.message_field),
        first_some4(json_dotted_str(v, "message"@), json_dotted_str(v, "textPayload"@), json_dotted_str(v, "log"@),
            json_dotted_str(v, "msg"@)),
    )
}

/// The severity a document carries: the configured field, then `severity`, `level` or `logLevel`.
pub open spec fn json_severity(v: JsonValue, cfg: LogFormatConfig) -> Option<Seq<char>> {
    first_some4(field_str(v, cfg.severity_field), json_dotted_str(v, "severity"@), json_dotted_str(v, "level"@),
        json_dotted_str(v, "logLevel"@))
}

/// A raw payload of more than 100 bytes can be cut after 97 bytes.
pub open spec fn truncatable(raw: Seq<char>) -> bool {
    encode_utf8(raw).len() > 100 ==> is_char_boundary(encode_utf8(raw), 97)
}

/// The lines a parser with format `cfg` takes: those whose payload sample, taken only where the
/// line's first JSON value has no message, can be cut after 97 bytes.
pub open spec fn line_accepted(cfg: LogFormatConfig, raw: Seq<char>) -> bool {
    seq_trim(raw).len() > 0 ==> (json_stream_first(seq_trim(raw)) matches Some(v)
        ==> (json_message(v, cfg) is None ==> truncatable(raw)))
}

/// The message of a document without one: a sample of the raw payload, cut after 97 bytes.
pub open spec fn raw_sample_message(raw: Seq<char>) -> Seq<char> {
    "[RAW Forensic Payload] "@ + if encode_utf8(raw).len() > 100 {
        decode_utf8(encode_utf8(raw).subrange(0, 97)) + "..."@
    } else {
        raw
    }
}

/// The first of three keys present.
pub open spec fn lookup3(m: Map<Seq<char>, Seq<char>>, a: Seq<char>, b: Seq<char>, c: Seq<char>) -> Option<Seq<char>> {
    if m.contains_key(a) { Some(m[a]) } else if m.contains_key(b) { Some(m[b]) } else { lookup(m, c) }
}

/// The parent process fields a metadata map names: (id, image).
pub open spec fn parent_fields(md: Map<Seq<char>, Seq<char>>) -> (Option<nat>, Option<Seq<char>>) {
    let id = match lookup2(md, "ParentProcessId"@, "parent_process_id"@) {
        Some(t) => parse_pid(t),
        None => None,
    };
    (id, lookup3(md, "ParentImage"@, "ParentProcessName"@, "parent_image"@))
}

/// JSON documents of one configured format.
pub struct JsonParser {
    config: LogFormatConfig,
    name: String,
}

impl JsonParser {
    /// The format description.
    pub closed spec fn format(&self) -> LogFormatConfig {
        self.config
    }

    /// The format's name.
    pub closed spec fn name_of(&self) -> Seq<char> {
        self.name@
    }

    pub fn new(config: LogFormatConfig, name: &str) -> (p: JsonParser)
        ensures
            p.format() == config,
            p.name_of() == name@,
    {
        JsonParser { config, name: owned(name) }
    }

    fn field_text(v: &JsonValue, field: &Option<String>) -> (r: Option<String>)
        ensures
            opt_view(r) == field_str(*v, *field),
    {
        match field {
            Some(f) => Self::path_text(v, f.as_str()),
            None => None,
        }
    }

    /// The document's time, read from its time field, and the quality of that reading.
    fn time_of(&self, v: &JsonValue) -> (r: (crate::time::Timestamp, ParsingQuality))
        ensures
            r.1 == ParsingQuality::Success || r.1 == ParsingQuality::PartialTimestamp,
            time_reading(*v, self.format(), r.0, r.1),
    {
        reveal(time_reading);
        let ts_field = match &self.config.timestamp_field {
            Some(f) => owned(f.as_str()),
            None => owned("timestamp"),
        };
        proof { reveal_strlit("timestamp"); }
        assert(ts_field@ == time_path(self.format()));
        match Self::path_text(v, ts_field.as_str()) {
            Some(t) => parse_timestamp_robust(t.as_str()),
            None => (now(), ParsingQuality::PartialTimestamp),
        }
    }

    fn path_text(v: &JsonValue, path: &str) -> (r: Option<String>)
        ensures
            opt_view(r) == json_dotted_str(*v, path@),
    {
        match v.get_path(path) {
            Some(x) => match x.as_str() {
                Some(s) => Some(owned(s.as_str())),
                None => None,
            },
            None => None,
        }
    }

    fn message_of(&self, v: &JsonValue) -> (r: Option<String>)
        ensures
            opt_view(r) == json_message(*v, self.format()),
    {
        let mut message = Self::path_text(v, "_source.process.command_line");
        if message.is_none() {
            message = Self::path_text(v, "Event.EventData.CommandLine");
        }
        if message.is_none() {
            message = Self::field_text(v, &self.config.message_field);
        }
        if message.is_none() {
            message = Self::path_text(v, "message");
            if message.is_none() {
                message = Self::path_text(v, "textPayload");
            }
            if message.is_none() {
                message = Self::path_text(v, "log");
            }
            if message.is_none() {
                message = Self::path_text(v, "msg");
            }
        }
        message
    }

    fn severity_of(&self, v: &JsonValue) -> (r: Option<String>)
        ensures
            opt_view(r) == json_severity(*v, self.format()),
    {
        let mut severity = Self::field_text(v, &self.config.severity_field);
        if severity.is_none() {
            severity = Self::path_text(v, "severity");
        }
        if severity.is_none() {
            severity = Self::path_text(v, "level");
        }
        if severity.is_none() {
            severity = Self::path_text(v, "logLevel");
        }
        severity
    }

    fn metadata_of(&self, v: &JsonValue) -> (md: Metadata)
        ensures
            md@ == mapped(self.format().metadata_map@, path_value(*v)),
    {
        let pairs = self.config.metadata_map.to_pairs();
        let ghost f = path_value(*v);
        let mut md = Metadata::new();
        let mut i: usize = 0;
        assert(pairs@.subrange(0, 0) =~= Seq::<(String, String)>::empty());
        while i < pairs.len()
            invariant
                0 <= i <= pairs@.len(),
                f == path_value(*v),
                md@ == fold_pairs(pairs@.subrange(0, i as int), f),
            decreases pairs@.len() - i,
        {
            let ghost pre = pairs@.subrange(0, i as int);
            assert(pairs@.subrange(0, i + 1).drop_last() =~= pre);
            match v.get_path(pairs[i].1.as_str()) {
                Some(x) => {
                    let text = match x.as_str() {
                        Some(s) => owned(s.as_str()),
                        None => json_compact(x),
                    };
                    md.insert(owned(pairs[i].0.as_str()), text);
                }
                None => {}
            }
            i += 1;
        }
        proof {
            assert(pairs@.subrange(0, pairs@.len() as int) =~= pairs@);
            lemma_fold_pairs(pairs@, f);
        }
        md
    }

    fn sample(raw: &str) -> (s: String)
        requires
            truncatable(raw@),
        ensures
            s@ == raw_sample_message(raw@),
    {
        let bytes = raw.as_bytes();
        let sample = if bytes.len() > 100 {
            let (head, _) = raw.split_at(97);
            proof { vstd::utf8::encode_utf8_decode_utf8(head@); }
            concat(head, "...")
        } else {
            owned(raw)
        };
        concat("[RAW Forensic Payload] ", sample.as_str())
    }

    fn parent_of(md: &Metadata) -> (r: (Option<u32>, Option<String>))
        ensures
            (match r.0 { Some(p) => parent_fields(md@).0 == Some(p as nat), None => parent_fields(md@).0 is None }),
            opt_view(r.1) == parent_fields(md@).1,
    {
        let parent_id = match md.get_either("ParentProcessId", "parent_process_id") {
            Some(t) => parse_pid_text(t.as_str()),
            None => None,
        };
        let parent_name = match md.get_either("ParentImage", "ParentProcessName") {
            Some(n) => Some(n),
            None => md.get_owned("parent_image"),
        };
        (parent_id, parent_name)
    }

    /// The record of a document: timestamp, message, severity and the configured metadata paths;
    /// a document without a message keeps a sample of its raw text and is degraded.
    #[verifier::rlimit(40)]
    pub fn parse_value(&self, v: JsonValue, raw: &str) -> (r: LogRecord)
        requires
            json_message(v, self.format()) is None ==> truncatable(raw@),
        ensures
            ({
                let cfg = self.format();
                let msg = match json_message(v, cfg) { Some(m) => m, None => raw_sample_message(raw@) };
                let md = mapped(cfg.metadata_map@, path_value(v)).insert("captured_message"@, msg);
                &&& r.message@ == msg
                &&& opt_view(r.severity) == json_severity(v, cfg)
                &&& opt_view(r.source) == Some(self.name_of())
                &&& r.original_format@ == self.name_of()
                &&& r.metadata@ == md
                &&& r.additional_context == Some(v)
                &&& r.raw@ == raw@
                &&& (json_message(v, cfg) is None ==> r.quality == ParsingQuality::Degraded)
                &&& (json_message(v, cfg) is Some ==> (r.quality == ParsingQuality::Success || r.quality == ParsingQuality::PartialTimestamp))
                &&& opt_view(r.unparsed_raw) == (if json_message(v, cfg) is None { Some(raw@) } else { None })
                &&& opt_view(r.outcome) == Some(if json_message(v, cfg) is None { "Degraded"@ } else { "Success"@ })
                &&& (match r.parent_process_id { Some(p) => parent_fields(md).0 == Some(p as nat), None => parent_fields(md).0 is None })
                &&& opt_view(r.parent_process_name) == parent_fields(md).1
                &&& exists|q: ParsingQuality| #[trigger] time_reading(v, cfg, r.timestamp, q)
                    && (json_message(v, cfg) is Some ==> q == r.quality)
            }),
            parser_defaults(r),
    {
        let (ts, ts_quality) = self.time_of(&v);
        let found = self.message_of(&v);
        let degraded = found.is_none();
        let message = match found {
            Some(m) => m,
            None => Self::sample(raw),
        };
        let quality = if degraded {
            ParsingQuality::Degraded
        } else if ts_quality == ParsingQuality::PartialTimestamp {
            ParsingQuality::PartialTimestamp
        } else {
            ParsingQuality::Success
        };
        let unparsed = if degraded { Some(owned(raw)) } else { None };
        let severity = self.severity_of(&v);
        let mut md = self.metadata_of(&v);
        md.insert(owned("captured_message"), owned(message.as_str()));
        let (parent_id, parent_name) = Self::parent_of(&md);
        let outcome = if degraded { owned("Degraded") } else { owned("Success") };
        let mut r = LogRecord::blank_at(ts);
        r.message = message;
        r.severity = severity;
        r.source = Some(owned(self.name.as_str()));
        r.outcome = Some(outcome);
        r.metadata = md;
        r.raw = owned(raw);
        r.unparsed_raw = unparsed;
        r.original_format = owned(self.name.as_str());
        r.quality = quality;
        r.parent_process_id = parent_id;
        r.parent_process_name = parent_name;
        r.additional_context = Some(v);
        assert(time_reading(v, self.format(), r.timestamp, ts_quality));
        r
    }
}

impl JsonParser {
    /// Whether the parser takes the line (see [`line_accepted`]).
    pub fn accepts_line(&self, raw: &str) -> (b: bool)
        ensures
            b == line_accepted(self.format(), raw@),
    {
        let trimmed = trim(raw);
        if trimmed.unicode_len() == 0 {
            return true;
        }
        match parse_json_stream_first(trimmed.as_str()) {
            Some(v) => {
                match self.message_of(&v) {
                    Some(_) => true,
                    None => {
                        let bytes = raw.as_bytes();
                        bytes.len() <= 100 || raw.is_char_boundary(97)
                    }
                }
            }
            None => true,
        }
    }
}

impl LogParser for JsonParser {
    open spec fn accepts(&self, raw: Seq<char>) -> bool {
        line_accepted(self.format(), raw)
    }

    fn format_name(&self) -> (s: String)
        ensures
            s@ == self.name_of(),
    {
        owned(self.name.as_str())
    }

    /// A blank line is an empty informational record; otherwise the first JSON value of the
    /// trimmed line is mapped, and a line that holds none is degraded.
    fn parse(&self, raw: &str) -> (r: LogRecord)
        ensures
            r.raw@ == raw@,
            r.original_format@ == self.name_of(),
            opt_view(r.source) == Some(self.name_of()),
            parser_defaults(r),
            seq_trim(raw@).len() == 0 ==> {
                &&& r.message@ == Seq::<char>::empty() && opt_view(r.severity) == Some("INFO"@)
                &&& opt_view(r.outcome) == Some("Success"@) && opt_view(r.unparsed_raw) == Some(raw@)
                &&& r.quality == ParsingQuality::Success
            },
            seq_trim(raw@).len() > 0 && json_stream_first(seq_trim(raw@)) is None ==> {
                &&& r.message@ == "DEGRADED: Malformed JSON"@ && opt_view(r.severity) == Some("WARN"@)
                &&& opt_view(r.outcome) == Some("Degraded"@) && opt_view(r.unparsed_raw) == Some(raw@)
                &&& r.quality == ParsingQuality::Degraded
            },
            seq_trim(raw@).len() > 0 ==> (json_stream_first(seq_trim(raw@)) matches Some(v)
                ==> r.additional_context == Some(v) && opt_view(r.severity) == json_severity(v, self.format())
                && r.message@ == match json_message(v, self.format()) { Some(m) => m, None => raw_sample_message(raw@) }),
    {
        let trimmed = trim(raw);
        if trimmed.unicode_len() == 0 {
            let mut r = LogRecord::blank_at(now());
            proof { reveal_strlit(""); assert(""@ =~= Seq::<char>::empty()); }
            r.message = owned("");
            r.severity = Some(owned("INFO"));
            r.source = Some(owned(self.name.as_str()));
            r.outcome = Some(owned("Success"));
            r.raw = owned(raw);
            r.unparsed_raw = Some(owned(raw));
            r.original_format = owned(self.name.as_str());
            return r;
        }
        match parse_json_stream_first(trimmed.as_str()) {
            Some(v) => self.parse_value(v, raw),
            None => {
                let mut r = LogRecord::blank_at(now());
                r.message = owned("DEGRADED: Malformed JSON");
                r.severity = Some(owned("WARN"));
                r.source = Some(owned(self.name.as_str()));
                r.outcome = Some(owned("Degraded"));
                r.raw = owned(raw);
                r.unparsed_raw = Some(owned(raw));
                r.original_format = owned(self.name.as_str());
                r.quality = ParsingQuality::Degraded;
                r
            }
        }
    }
}

} // verus!
