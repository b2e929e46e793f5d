//! Comma-separated CBS logs: `LineId,Date,Time,Level,Component,Content,EventId,EventTemplate`.

use vstd::prelude::*;
use crate::json::JsonValue;
use crate::metadata::Metadata;
use crate::models::{LogRecord, ParsingQuality, parser_defaults};
use crate::parsers::{LogParser, parse_timestamp_robust, rfc3339_instant, offset_instant, rfc2822_instant, unix_instant, no_reading};
use crate::text::{owned, concat, trim, seq_trim, seq_starts_with, str_starts_with, opt_view, split_char, split_on,
    lemma_split_nonempty};
use crate::time::now;

verus! {

/// The trimmed pieces of a CSV line.
pub open spec fn csv_fields(raw: Seq<char>) -> Seq<Seq<char>> {
    split_char(raw, ',').map_values(|p: Seq<char>| seq_trim(p))
}

/// The quality of a CSV line by its number of fields, when the timestamp does not decide it:
/// more than eight is malformed, fewer than six degraded.
pub open spec fn csv_quality(n: nat) -> Option<ParsingQuality> {
    if n > 8 {
        Some(ParsingQuality::Malformed)
    } else if n < 6 {
        Some(ParsingQuality::Degraded)
    } else {
        None
    }
}

/// The timestamp text of a CBS line: its date and time columns joined by `T`.
pub open spec fn cbs_stamp(date: Seq<char>, time: Seq<char>) -> Seq<char> {
    date + "T"@ + time
}

/// The CBS log parser.
pub struct CsvParser;

impl CsvParser {
    pub fn new() -> (p: CsvParser) {
        CsvParser
    }

    /// The date and time columns joined (`DATE` `T` `TIME`) and read as one timestamp, as
    /// [`parse_timestamp_robust`] reads it.
    fn merge_cbs_timestamp(&self, date: &str, time: &str) -> (r: (crate::time::Timestamp, ParsingQuality))
        ensures
            r.1 == ParsingQuality::Success || r.1 == ParsingQuality::PartialTimestamp,
            rfc3339_instant(cbs_stamp(date@, time@)) matches Some(t) ==> r == (t, ParsingQuality::Success),
            rfc3339_instant(cbs_stamp(date@, time@)) is None ==> (offset_instant(cbs_stamp(date@, time@),
                "%Y-%m-%dT%H:%M:%S"@) matches Some(t) ==> r == (t, ParsingQuality::Success)),
            r.1 == ParsingQuality::PartialTimestamp ==> rfc3339_instant(cbs_stamp(date@, time@)) is None
                && offset_instant(cbs_stamp(date@, time@), "%Y-%m-%dT%H:%M:%S"@) is None
                && rfc2822_instant(cbs_stamp(date@, time@)) is None
                && offset_instant(cbs_stamp(date@, time@), "%Y-%m-%dT%H:%M:%S%.fZ"@) is None
                && unix_instant(cbs_stamp(date@, time@)) is None,
            no_reading(cbs_stamp(date@, time@)) ==> r.1 == ParsingQuality::PartialTimestamp,
    {
        proof { reveal_strlit("T"); }
        let a = concat(date, "T");
        let combined = concat(a.as_str(), time);
        assert(combined@ == cbs_stamp(date@, time@));
        parse_timestamp_robust(combined.as_str())
    }
}

impl LogParser for CsvParser {
    open spec fn accepts(&self, raw: Seq<char>) -> bool {
        true
    }

    fn format_name(&self) -> (s: String)
        ensures
            s@ == "csv_cbs"@,
    {
        owned("csv_cbs")
    }

    /// A header or blank line becomes an informational record; another line maps its columns to
    /// the record, keeping all of them as context when there are more than eight.
    fn parse(&self, raw: &str) -> (r: LogRecord)
        ensures
            r.raw@ == raw@,
            r.original_format@ == "csv_cbs"@,
            parser_defaults(r),
            r.parent_process_id is None && r.parent_process_name is None,
            if seq_trim(raw@).len() == 0 || seq_starts_with(raw@, "LineId,Date,Time"@) {
                &&& r.message@ == (if seq_trim(raw@).len() == 0 { Seq::empty() } else { "CSV_HEADER: Schema Definition"@ })
                &&& opt_view(r.severity) == Some("INFO"@) && opt_view(r.source) == Some("csv_cbs"@)
                &&& opt_view(r.outcome) == Some("Success"@) && opt_view(r.unparsed_raw) == Some(raw@)
                &&& r.quality == ParsingQuality::Success && r.additional_context is None
                &&& r.metadata@ == Map::<Seq<char>, Seq<char>>::empty()
            } else {
                let f = csv_fields(raw@);
                &&& r.message@ == (if f.len() > 5 { f[5] } else { "DEGRADED: Schema Mismatch"@ })
                &&& opt_view(r.severity) == (if f.len() > 3 { Some(f[3]) } else { None })
                &&& opt_view(r.source) == (if f.len() > 4 { Some(f[4]) } else { None })
                &&& r.metadata@ == {
                    let m0 = if f.len() > 6 { Map::<Seq<char>, Seq<char>>::empty().insert("event_id"@, f[6]) } else { Map::empty() };
                    let m1 = if f.len() > 7 { m0.insert("event_template"@, f[7]) } else { m0 };
                    m1.insert("line_id"@, f[0])
                }
                &&& match csv_quality(f.len()) {
                    Some(q) => r.quality == q,
                    None => r.quality == ParsingQuality::Success || r.quality == ParsingQuality::PartialTimestamp,
                }
                &&& opt_view(r.outcome) == Some(if r.quality == ParsingQuality::Degraded { "Degraded"@ } else { "Success"@ })
                &&& opt_view(r.unparsed_raw) == (if f.len() < 6 { Some(raw@) } else { None })
                &&& (f.len() > 8 <==> r.additional_context is Some)
            },
    {
        let tr = trim(raw);
        if tr.unicode_len() == 0 || str_starts_with(raw, "LineId,Date,Time") {
            let msg = if tr.unicode_len() == 0 {
                proof { reveal_strlit(""); assert(""@ =~= Seq::<char>::empty()); }
                owned("")
            } else {
                owned("CSV_HEADER: Schema Definition")
            };
            let mut r = LogRecord::blank_at(now());
            r.message = msg;
            r.severity = Some(owned("INFO"));
            r.source = Some(owned("csv_cbs"));
            r.outcome = Some(owned("Success"));
            r.raw = owned(raw);
            r.unparsed_raw = Some(owned(raw));
            r.original_format = owned("csv_cbs");
            return r;
        }
        let pieces = split_on(raw, ',');
        let mut parts: Vec<String> = Vec::new();
        let mut i: usize = 0;
        while i < pieces.len()
            invariant
                0 <= i <= pieces@.len(),
                pieces@.map_values(|p: String| p@) == split_char(raw@, ','),
                parts@.map_values(|p: String| p@) == csv_fields(raw@).subrange(0, i as int),
            decreases pieces@.len() - i,
        {
            let ghost old_parts = parts@;
            assert(pieces@.map_values(|p: String| p@)[i as int] == pieces@[i as int]@);
            assert(csv_fields(raw@)[i as int] == seq_trim(split_char(raw@, ',')[i as int]));
            parts.push(trim(pieces[i].as_str()));
            assert(parts@.map_values(|p: String| p@) =~= old_parts.map_values(|p: String| p@).push(seq_trim(pieces@[i as int]@)));
            i += 1;
            assert(parts@.map_values(|p: String| p@) =~= csv_fields(raw@).subrange(0, i as int));
        }
        let ghost f = csv_fields(raw@);
        assert(parts@.map_values(|p: String| p@) =~= f);
        proof { lemma_split_nonempty(raw@, ','); }
        assert(forall|k: int| 0 <= k < parts@.len() ==> parts@[k]@ == f[k]);
        let n = parts.len();
        let mut quality = ParsingQuality::Success;
        let mut unparsed: Option<String> = None;
        let (ts, ts_quality) = if n >= 3 {
            self.merge_cbs_timestamp(parts[1].as_str(), parts[2].as_str())
        } else {
            quality = ParsingQuality::Degraded;
            unparsed = Some(owned(raw));
            (now(), ParsingQuality::PartialTimestamp)
        };
        if ts_quality == ParsingQuality::PartialTimestamp && quality != ParsingQuality::Degraded {
            quality = ParsingQuality::PartialTimestamp;
        }
        let line_id = owned(parts[0].as_str());
        let severity = if n > 3 { Some(owned(parts[3].as_str())) } else { None };
        let source = if n > 4 { Some(owned(parts[4].as_str())) } else { None };
        let message = if n > 5 {
            owned(parts[5].as_str())
        } else {
            quality = ParsingQuality::Degraded;
            unparsed = Some(owned(raw));
            owned("DEGRADED: Schema Mismatch")
        };
        let mut context: Option<JsonValue> = None;
        if n > 8 {
            quality = ParsingQuality::Malformed;
            let mut items: Vec<JsonValue> = Vec::new();
            let mut k: usize = 0;
            while k < n
                invariant
                    0 <= k <= n,
                    n == parts@.len(),
                decreases n - k,
            {
                items.push(JsonValue::Str(owned(parts[k].as_str())));
                k += 1;
            }
            context = Some(JsonValue::Array(items));
        }
        let mut md = Metadata::new();
        if n > 6 {
            md.insert(owned("event_id"), owned(parts[6].as_str()));
        }
        if n > 7 {
            md.insert(owned("event_template"), owned(parts[7].as_str()));
        }
        md.insert(owned("line_id"), line_id);
        let outcome = if quality == ParsingQuality::Degraded { owned("Degraded") } else { owned("Success") };
        let mut r = LogRecord::blank_at(ts);
        r.message = message;
        r.severity = severity;
        r.source = source;
        r.outcome = Some(outcome);
        r.metadata = md;
        r.additional_context = context;
        r.raw = owned(raw);
        r.unparsed_raw = unparsed;
        r.original_format = owned("csv_cbs");
        r.quality = quality;
        r
    }
}

} // verus!
