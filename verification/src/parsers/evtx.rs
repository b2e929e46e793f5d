//! Windows event log records (`.evtx`), as the JSON documents the event-log reader renders.

use vstd::prelude::*;
use crate::analysis::parse_pid_text;
use crate::json::{JsonValue, json_get, json_str, json_text, json_document, parse_json_document, json_compact};
use crate::metadata::{Metadata, lookup2};
use crate::models::{LogRecord, ParsingQuality, parser_defaults};
use crate::num::u64_to_string;
use crate::parsers::{LogParser, parse_timestamp_robust, robust_reading};
use crate::parsers::json::{parent_fields, lookup3};
use crate::text::{owned, concat, trim, seq_trim, opt_view, decimal, chars_of, string_from_chars, str_eq};
use crate::time::now;

verus! {

/// A string, or an unsigned number as its decimal text.
pub open spec fn str_or_u64(v: JsonValue) -> Option<Seq<char>> {
    match v {
        JsonValue::Str(s) => Some(s@),
        JsonValue::Number(n) => match n.as_u64 { Some(u) => Some(decimal(u as nat)), None => None },
        _ => None,
    }
}

/// The event id of a `System` node: its text (`#text`) or the value itself, `000` otherwise.
pub open spec fn event_id_text(system: JsonValue) -> Option<Seq<char>> {
    match json_get(system, "EventID"@) {
        Some(idv) => Some(match json_get(idv, "#text"@) {
            Some(txt) => match str_or_u64(txt) { Some(s) => s, None => "000"@ },
            None => match str_or_u64(idv) { Some(s) => s, None => "000"@ },
        }),
        None => None,
    }
}

pub open spec fn either_member(v: JsonValue, a: Seq<char>, b: Seq<char>) -> Option<JsonValue> {
    match json_get(v, a) {
        Some(x) => Some(x),
        None => json_get(v, b),
    }
}

/// The `SystemTime` attribute of `TimeCreated`.
pub open spec fn system_time(system: JsonValue) -> Option<Seq<char>> {
    match json_get(system, "TimeCreated"@) {
        Some(tc) => match either_member(tc, "#attributes"@, "#Attributes"@) {
            Some(a) => json_str(json_get(a, "SystemTime"@)),
            None => None,
        },
        None => None,
    }
}

/// The provider's `Name` attribute.
pub open spec fn provider_name(system: JsonValue) -> Option<Seq<char>> {
    match json_get(system, "Provider"@) {
        Some(p) => match either_member(p, "#attributes"@, "#Attributes"@) {
            Some(a) => json_str(json_get(a, "Name"@)),
            None => None,
        },
        None => None,
    }
}

/// A `Data` item: (its name, its value, its text when it is a plain string).
pub open spec fn data_item(item: JsonValue) -> (Option<Seq<char>>, Option<Seq<char>>) {
    let name = match either_member(item, "@Name"@, "Name"@) { Some(n) => json_str(Some(n)), None => None };
    let value = match either_member(item, "#text"@, "Value"@) {
        Some(v) => match str_or_u64(v) { Some(s) => Some(s), None => json_str(Some(item)) },
        None => json_str(Some(item)),
    };
    (name, value)
}

/// The metadata and message fields after the `Data` items: named items add `name: value`, plain
/// strings themselves.
pub open spec fn data_fold(items: Seq<JsonValue>, md: Map<Seq<char>, Seq<char>>) -> (Map<Seq<char>, Seq<char>>, Seq<Seq<char>>)
    decreases items.len(),
{
    if items.len() == 0 {
        (md, Seq::empty())
    } else {
        let (m, f) = data_fold(items.drop_last(), md);
        let item = items.last();
        match data_item(item) {
            (Some(n), Some(v)) => (m.insert(n, v), f.push(n + ": "@ + v)),
            _ => match json_str(Some(item)) {
                Some(s) => (m, f.push(s)),
                None => (m, f),
            },
        }
    }
}

/// `s` without double quotes.
pub open spec fn strip_quotes(s: Seq<char>) -> Seq<char>
    decreases s.len(),
{
    if s.len() == 0 {
        s
    } else if s.last() == '"' {
        strip_quotes(s.drop_last())
    } else {
        strip_quotes(s.drop_last()).push(s.last())
    }
}

/// The flat members of an `EventData` object (all but `Data`): `key: value` each, a non-string
/// value as its JSON text without quotes.
pub open spec fn members_fold(members: Seq<(String, JsonValue)>, md: Map<Seq<char>, Seq<char>>, fields: Seq<Seq<char>>)
    -> (Map<Seq<char>, Seq<char>>, Seq<Seq<char>>)
    decreases members.len(),
{
    if members.len() == 0 {
        (md, fields)
    } else {
        let (m, f) = members_fold(members.drop_last(), md, fields);
        let (k, v) = members.last();
        if k@ == "Data"@ {
            (m, f)
        } else {
            let val = match v { JsonValue::Str(s) => s@, _ => strip_quotes(json_text(v)) };
            (m.insert(k@, val), f.push(k@ + ": "@ + val))
        }
    }
}

/// Fields joined with a separator.
pub open spec fn join(fields: Seq<Seq<char>>, sep: Seq<char>) -> Seq<char>
    decreases fields.len(),
{
    if fields.len() == 0 {
        Seq::empty()
    } else if fields.len() == 1 {
        fields[0]
    } else {
        join(fields.drop_last(), sep) + sep + fields.last()
    }
}

/// The metadata and message of the event data, starting from metadata `md`.
pub open spec fn event_data(event: JsonValue, md: Map<Seq<char>, Seq<char>>) -> (Map<Seq<char>, Seq<char>>, Seq<char>) {
    match json_get(event, "EventData"@) {
        Some(ed) => {
            let (m1, f1) = match json_get(ed, "Data"@) {
                Some(JsonValue::Array(items)) => data_fold(items@, md),
                Some(JsonValue::Str(s)) => (md, seq![s@]),
                _ => (md, Seq::empty()),
            };
            let (m2, f2) = match ed {
                JsonValue::Object(members) => members_fold(members@, m1, f1),
                _ => (m1, f1),
            };
            (m2, if f2.len() == 0 { "No EventData mapped"@ } else { join(f2, " | "@) })
        }
        None => (md, "No EventData available"@),
    }
}

/// The base metadata of an event: its id, computer and channel.
pub open spec fn system_metadata(system: JsonValue, id: Seq<char>) -> Map<Seq<char>, Seq<char>> {
    let m0 = Map::<Seq<char>, Seq<char>>::empty().insert("EventID"@, id);
    let m1 = match json_str(json_get(system, "Computer"@)) { Some(c) => m0.insert("computer"@, c), None => m0 };
    match json_str(json_get(system, "Channel"@)) { Some(c) => m1.insert("channel"@, c), None => m1 }
}

/// The Windows event log parser.
pub struct EvtxParser;

fn str_or_u64_exec(v: &JsonValue) -> (r: Option<String>)
    ensures
        opt_view(r) == str_or_u64(*v),
{
    match v {
        JsonValue::Str(s) => Some(owned(s.as_str())),
        JsonValue::Number(n) => match n.as_u64 {
            Some(u) => Some(u64_to_string(u)),
            None => None,
        },
        _ => None,
    }
}

fn either<'a>(v: &'a JsonValue, a: &str, b: &str) -> (r: Option<&'a JsonValue>)
    ensures
        r matches Some(x) ==> either_member(*v, a@, b@) == Some(*x),
        r is None ==> either_member(*v, a@, b@) is None,
{
    match v.get(a) {
        Some(x) => Some(x),
        None => v.get(b),
    }
}

fn str_of(v: Option<&JsonValue>) -> (r: Option<String>)
    ensures
        opt_view(r) == json_str(match v { Some(x) => Some(*x), None => None }),
{
    match v {
        Some(x) => match x.as_str() {
            Some(s) => Some(owned(s.as_str())),
            None => None,
        },
        None => None,
    }
}

fn strip_quotes_exec(s: &str) -> (r: String)
    ensures
        r@ == strip_quotes(s@),
{
    let v = chars_of(s);
    let mut out: Vec<char> = Vec::new();
    let mut i: usize = 0;
    while i < v.len()
        invariant
            0 <= i <= v@.len(),
            v@ == s@,
            out@ == strip_quotes(v@.subrange(0, i as int)),
        decreases v@.len() - i,
    {
        let ghost pre = v@.subrange(0, i as int);
        assert(v@.subrange(0, i + 1).drop_last() =~= pre);
        if v[i] != '"' {
            out.push(v[i]);
        }
        i += 1;
    }
    assert(v@.subrange(0, v@.len() as int) =~= v@);
    string_from_chars(out.as_slice())
}

pub(crate) fn join_exec(fields: &Vec<String>, sep: &str) -> (r: String)
    ensures
        r@ == join(fields@.map_values(|f: String| f@), sep@),
{
    let ghost fs = fields@.map_values(|f: String| f@);
    if fields.len() == 0 {
        proof { reveal_strlit(""); assert(""@ =~= Seq::<char>::empty()); }
        return owned("");
    }
    let mut acc = owned(fields[0].as_str());
    let mut i: usize = 1;
    assert(fs.subrange(0, 1).len() == 1);
    while i < fields.len()
        invariant
            1 <= i <= fields@.len(),
            fs == fields@.map_values(|f: String| f@),
            acc@ == join(fs.subrange(0, i as int), sep@),
        decreases fields@.len() - i,
    {
        let a = concat(acc.as_str(), sep);
        acc = concat(a.as_str(), fields[i].as_str());
        assert(fs.subrange(0, i + 1).drop_last() =~= fs.subrange(0, i as int));
        i += 1;
    }
    assert(fs.subrange(0, fields@.len() as int) =~= fs);
    acc
}

impl EvtxParser {
    pub fn new() -> (p: EvtxParser) {
        EvtxParser
    }

    fn data_items(items: &Vec<JsonValue>, md: &mut Metadata, fields: &mut Vec<String>)
        requires
            old(fields)@.len() == 0,
        ensures
            (final(md)@, final(fields)@.map_values(|f: String| f@)) == data_fold(items@, old(md)@),
    {
        let ghost md0 = md@;
        let mut i: usize = 0;
        while i < items.len()
            invariant
                0 <= i <= items@.len(),
                (md@, fields@.map_values(|f: String| f@)) == data_fold(items@.subrange(0, i as int), md0),
            decreases items@.len() - i,
        {
            let ghost pre = items@.subrange(0, i as int);
            assert(items@.subrange(0, i + 1).drop_last() =~= pre);
            let ghost before = fields@;
            let item = &items[i];
            let name = match either(item, "@Name", "Name") {
                Some(n) => str_of(Some(n)),
                None => None,
            };
            let value = match either(item, "#text", "Value") {
                Some(v) => match str_or_u64_exec(v) {
                    Some(s) => Some(s),
                    None => str_of(Some(item)),
                },
                None => str_of(Some(item)),
            };
            match (name, value) {
                (Some(n), Some(v)) => {
                    let a = concat(n.as_str(), ": ");
                    let f = concat(a.as_str(), v.as_str());
                    md.insert(n, v);
                    fields.push(f);
                    assert(fields@.map_values(|f: String| f@) =~= before.map_values(|f: String| f@).push(f@));
                }
                _ => {
                    match str_of(Some(item)) {
                        Some(s) => {
                            fields.push(s);
                            assert(fields@.map_values(|f: String| f@) =~= before.map_values(|f: String| f@).push(s@));
                        }
                        None => {}
                    }
                }
            }
            i += 1;
        }
        assert(items@.subrange(0, items@.len() as int) =~= items@);
    }

    fn flat_members(members: &Vec<(String, JsonValue)>, md: &mut Metadata, fields: &mut Vec<String>)
        ensures
            (final(md)@, final(fields)@.map_values(|f: String| f@))
                == members_fold(members@, old(md)@, old(fields)@.map_values(|f: String| f@)),
    {
        let ghost md0 = md@;
        let ghost f0 = fields@.map_values(|f: String| f@);
        let mut i: usize = 0;
        while i < members.len()
            invariant
                0 <= i <= members@.len(),
                (md@, fields@.map_values(|f: String| f@)) == members_fold(members@.subrange(0, i as int), md0, f0),
            decreases members@.len() - i,
        {
            let ghost pre = members@.subrange(0, i as int);
            assert(members@.subrange(0, i + 1).drop_last() =~= pre);
            let ghost before = fields@;
            let (k, v) = (&members[i].0, &members[i].1);
            if !str_eq(k.as_str(), "Data") {
                let val = match v {
                    JsonValue::Str(s) => owned(s.as_str()),
                    _ => {
                        let t = json_compact(v);
                        strip_quotes_exec(t.as_str())
                    }
                };
                let a = concat(k.as_str(), ": ");
                let f = concat(a.as_str(), val.as_str());
                md.insert(owned(k.as_str()), val);
                fields.push(f);
                assert(fields@.map_values(|f: String| f@) =~= before.map_values(|f: String| f@).push(f@));
            }
            i += 1;
        }
        assert(members@.subrange(0, members@.len() as int) =~= members@);
    }

    fn event_data_of(event: &JsonValue, md: &mut Metadata) -> (m: String)
        ensures
            (final(md)@, m@) == event_data(*event, old(md)@),
    {
        match event.get("EventData") {
            Some(ed) => {
                let mut fields: Vec<String> = Vec::new();
                match ed.get("Data") {
                    Some(JsonValue::Array(items)) => {
                        Self::data_items(items, md, &mut fields);
                    }
                    Some(JsonValue::Str(s)) => {
                        fields.push(owned(s.as_str()));
                        assert(fields@.map_values(|f: String| f@) =~= seq![s@]);
                    }
                    _ => {
                        assert(fields@.map_values(|f: String| f@) =~= Seq::<Seq<char>>::empty());
                    }
                }
                match ed {
                    JsonValue::Object(members) => {
                        Self::flat_members(members, md, &mut fields);
                    }
                    _ => {}
                }
                if fields.len() == 0 {
                    owned("No EventData mapped")
                } else {
                    join_exec(&fields, " | ")
                }
            }
            None => owned("No EventData available"),
        }
    }
}

impl LogParser for EvtxParser {
    open spec fn accepts(&self, raw: Seq<char>) -> bool {
        true
    }

    fn format_name(&self) -> (s: String)
        ensures
            s@ == "evtx_binary"@,
    {
        owned("evtx_binary")
    }

    /// A rendered event: `[EventID n] data` as message, id, computer, channel and event data as
    /// metadata, the provider as source; blank lines, text that is not JSON and documents without
    /// an `Event` root are kept as degraded (or, when blank, empty) records.
    fn parse(&self, raw: &str) -> (r: LogRecord)
        ensures
            r.raw@ == raw@,
            r.original_format@ == "evtx_binary"@,
            parser_defaults(r),
            seq_trim(raw@).len() == 0 ==> {
                &&& r.message@ == Seq::<char>::empty() && opt_view(r.severity) == Some("INFO"@)
                &&& opt_view(r.source) == Some("evtx_binary"@) && opt_view(r.outcome) == Some("Success"@)
                &&& opt_view(r.unparsed_raw) == Some(raw@) && r.quality == ParsingQuality::Success
                &&& r.metadata@ == Map::<Seq<char>, Seq<char>>::empty()
            },
            seq_trim(raw@).len() > 0 ==> match json_document(raw@) {
                None => {
                    &&& r.message@ == "DEGRADED: Malformed EVTX-XML record"@ && opt_view(r.severity) == Some("WARN"@)
                    &&& opt_view(r.outcome) == Some("Degraded"@) && opt_view(r.unparsed_raw) == Some(raw@)
                    &&& r.quality == ParsingQuality::Degraded && r.additional_context is None
                    &&& opt_view(r.source) == Some("evtx_binary"@)
                    &&& r.metadata@ == Map::<Seq<char>, Seq<char>>::empty()
                }
                Some(root) => match json_get(root, "Event"@) {
                    None => {
                        &&& r.message@ == "DEGRADED: Missing Event root node"@ && opt_view(r.severity) == Some("WARN"@)
                        &&& opt_view(r.outcome) == Some("Degraded"@) && opt_view(r.unparsed_raw) == Some(raw@)
                        &&& r.quality == ParsingQuality::Degraded && r.additional_context == Some(root)
                        &&& opt_view(r.source) == Some("evtx_binary"@)
                        &&& r.metadata@ == Map::<Seq<char>, Seq<char>>::empty()
                    }
                    Some(event) => {
                        let system = match json_get(event, "System"@) { Some(s) => s, None => root };
                        let id = match event_id_text(system) { Some(t) => t, None => "000"@ };
                        let (md, data) = event_data(event, system_metadata(system, id));
                        &&& r.message@ == "[EventID "@ + id + "] "@ + data
                        &&& r.metadata@ == md
                        &&& opt_view(r.severity) == Some("INFO"@)
                        &&& opt_view(r.source) == provider_name(system)
                        &&& r.additional_context == Some(root)
                        &&& opt_view(r.unparsed_raw) == (if json_get(event, "System"@) is None { Some(raw@) } else { None })
                        &&& (json_get(event, "System"@) is None && event_id_text(system) is Some
                            ==> r.quality == ParsingQuality::Degraded)
                        &&& (!(json_get(event, "System"@) is None && event_id_text(system) is Some) ==> {
                            &&& r.quality != ParsingQuality::Degraded
                            &&& (system_time(system) is None ==> r.quality == ParsingQuality::PartialTimestamp)
                            &&& (r.quality == ParsingQuality::Malformed ==> event_id_text(system) is None)
                            &&& (r.quality == ParsingQuality::Success ==> event_id_text(system) is Some)
                        })
                        &&& opt_view(r.outcome) == Some(if r.quality == ParsingQuality::Degraded { "Degraded"@ } else { "Success"@ })
                        &&& (match r.parent_process_id { Some(p) => parent_fields(md).0 == Some(p as nat), None => parent_fields(md).0 is None })
                        &&& opt_view(r.parent_process_name) == parent_fields(md).1
                    }
                },
            },
    {
        let tr = trim(raw);
        if tr.unicode_len() == 0 {
            let mut r = LogRecord::blank_at(now());
            proof { reveal_strlit(""); assert(""@ =~= Seq::<char>::empty()); }
            r.message = owned("");
            r.severity = Some(owned("INFO"));
            r.source = Some(owned("evtx_binary"));
            r.outcome = Some(owned("Success"));
            r.raw = owned(raw);
            r.unparsed_raw = Some(owned(raw));
            r.original_format = owned("evtx_binary");
            return r;
        }
        let root = match parse_json_document(raw) {
            Some(v) => v,
            None => {
                let mut r = LogRecord::blank_at(now());
                r.message = owned("DEGRADED: Malformed EVTX-XML record");
                r.severity = Some(owned("WARN"));
                r.source = Some(owned("evtx_binary"));
                r.outcome = Some(owned("Degraded"));
                r.raw = owned(raw);
                r.unparsed_raw = Some(owned(raw));
                r.original_format = owned("evtx_binary");
                r.quality = ParsingQuality::Degraded;
                return r;
            }
        };
        let (message, md, source, quality, unparsed) = match root.get("Event") {
            None => {
                let mut r = LogRecord::blank_at(now());
                r.message = owned("DEGRADED: Missing Event root node");
                r.severity = Some(owned("WARN"));
                r.source = Some(owned("evtx_binary"));
                r.outcome = Some(owned("Degraded"));
                r.raw = owned(raw);
                r.unparsed_raw = Some(owned(raw));
                r.original_format = owned("evtx_binary");
                r.quality = ParsingQuality::Degraded;
                r.additional_context = Some(root);
                return r;
            }
            Some(event) => Self::render(&root, event, raw),
        };
        let (ts, ts_quality) = match root.get("Event") {
            Some(event) => {
                let system = match event.get("System") { Some(s) => s, None => &root };
                Self::system_timestamp(system)
            }
            None => (now(), ParsingQuality::PartialTimestamp),
        };
        let quality = if ts_quality == ParsingQuality::PartialTimestamp && quality != ParsingQuality::Degraded {
            ParsingQuality::PartialTimestamp
        } else {
            quality
        };
        let (parent_id, parent_name) = Self::parent_of(&md);
        let outcome = if quality == ParsingQuality::Degraded { owned("Degraded") } else { owned("Success") };
        let mut r = LogRecord::blank_at(ts);
        r.message = message;
        r.severity = Some(owned("INFO"));
        r.source = source;
        r.outcome = Some(outcome);
        r.metadata = md;
        r.raw = owned(raw);
        r.unparsed_raw = unparsed;
        r.original_format = owned("evtx_binary");
        r.quality = quality;
        r.parent_process_id = parent_id;
        r.parent_process_name = parent_name;
        r.additional_context = Some(root);
        r
    }
}

impl EvtxParser {
    fn parent_of(md: &Metadata) -> (r: (Option<u32>, Option<String>))
        ensures
            (match r.0 { Some(p) => parent_fields(md@).0 == Some(p as nat), None => parent_fields(md@).0 is None }),
            opt_view(r.1) == parent_fields(md@).1,
    {
        let parent_id = match md.get_either("ParentProcessId", "parent_process_id") {
            Some(t) => parse_pid_text(t.as_str()),
            None => None,
        };
        let parent_name = match md.get_either("ParentImage", "ParentProcessName") {
            Some(n) => Some(n),
            None => md.get_owned("parent_image"),
        };
        (parent_id, parent_name)
    }

    fn system_timestamp(system: &JsonValue) -> (r: (crate::time::Timestamp, ParsingQuality))
        ensures
            r.1 == ParsingQuality::Success || r.1 == ParsingQuality::PartialTimestamp,
            system_time(*system) is None ==> r.1 == ParsingQuality::PartialTimestamp,
            system_time(*system) matches Some(t) ==> robust_reading(t, r),
    {
        let text = match system.get("TimeCreated") {
            Some(tc) => match either(tc, "#attributes", "#Attributes") {
                Some(a) => str_of(a.get("SystemTime")),
                None => None,
            },
            None => None,
        };
        match text {
            Some(t) => parse_timestamp_robust(t.as_str()),
            None => (now(), ParsingQuality::PartialTimestamp),
        }
    }

    /// The message, metadata, source, quality before the timestamp, and unparsed text of an event.
    fn render(root: &JsonValue, event: &JsonValue, raw: &str) -> (r: (String, Metadata, Option<String>, ParsingQuality, Option<String>))
        requires
            json_get(*root, "Event"@) == Some(*event),
        ensures
            ({
                let system = match json_get(*event, "System"@) { Some(s) => s, None => *root };
                let id = match event_id_text(system) { Some(t) => t, None => "000"@ };
                let (md, data) = event_data(*event, system_metadata(system, id));
                &&& r.0@ == "[EventID "@ + id + "] "@ + data
                &&& r.1@ == md
                &&& opt_view(r.2) == provider_name(system)
                &&& r.3 == (if event_id_text(system) is None { ParsingQuality::Malformed }
                    else if json_get(*event, "System"@) is None { ParsingQuality::Degraded } else { ParsingQuality::Success })
                &&& opt_view(r.4) == (if json_get(*event, "System"@) is None { Some(raw@) } else { None })
            }),
    {
        let (system, mut quality, unparsed) = match event.get("System") {
            Some(s) => (s, ParsingQuality::Success, None),
            None => (root, ParsingQuality::Degraded, Some(owned(raw))),
        };
        let id = match system.get("EventID") {
            Some(idv) => match idv.get("#text") {
                Some(txt) => match str_or_u64_exec(txt) {
                    Some(s) => s,
                    None => owned("000"),
                },
                None => match str_or_u64_exec(idv) {
                    Some(s) => s,
                    None => owned("000"),
                },
            },
            None => {
                quality = ParsingQuality::Malformed;
                owned("000")
            }
        };
        let mut md = Metadata::new();
        md.insert(owned("EventID"), owned(id.as_str()));
        if let Some(c) = str_of(system.get("Computer")) {
            md.insert(owned("computer"), c);
        }
        if let Some(c) = str_of(system.get("Channel")) {
            md.insert(owned("channel"), c);
        }
        let data = Self::event_data_of(event, &mut md);
        let provider = match system.get("Provider") {
            Some(p) => match either(p, "#attributes", "#Attributes") {
                Some(a) => str_of(a.get("Name")),
                None => None,
            },
            None => None,
        };
        let a = concat("[EventID ", id.as_str());
        let b = concat(a.as_str(), "] ");
        let message = concat(b.as_str(), data.as_str());
        (message, md, provider, quality, unparsed)
    }
}

} // verus!
