//! Telemetry of a posture event: the event id, time, process id, record id, payload, origin and
//! process lineage a forensic report shows for it, recovered from the raw log however it is
//! shaped (an indicator suffix, a captured message, a parser description, a JSON document, or a
//! comma-separated line).

use vstd::prelude::*;
use vstd::utf8::{decode_utf8, encode_utf8, is_char_boundary};
use crate::json::{json_get, json_path, json_str, json_u64, parse_json_document, json_document, JsonValue};
use crate::ledger::PostureEvent;
use crate::metadata::Metadata;
use crate::num::u64_to_string;
use crate::pattern::{regex_captures, regex_first_captures};
use crate::parsers::evtx::{join, join_exec};
use crate::text::{alphanumeric, is_alphanumeric, opt_view, replace_spec, replace_str, chars_of, concat, decimal, find_from, first_occurrence_from, lowercase, owned, seq_contains,
    seq_trim, split_char, split_on, str_contains, str_eq, string_from_chars, to_lowercase, trim};

verus! {

/// The pattern that finds an IPv4 address in a raw log.
pub const ADDRESS_PATTERN: &'static str = "(\\d{1,3}\\.\\d{1,3}\\.\\d{1,3}\\.\\d{1,3})";

/// The marker before the indicators of a packet record.
pub const INDICATOR_MARKER: &'static str = "FORENSIC_INDICATORS:";

/// The value under `k`, or `d`.
pub open spec fn md_or(md: Map<Seq<char>, Seq<char>>, k: Seq<char>, d: Seq<char>) -> Seq<char> {
    if md.contains_key(k) { md[k] } else { d }
}

fn get_or(md: &Metadata, k: &str, d: &str) -> (s: String)
    ensures
        s@ == md_or(md@, k@, d@),
{
    match md.get(k) {
        Some(v) => owned(v.as_str()),
        None => owned(d),
    }
}

// ---- the origin ----

/// The address the pattern finds first, `Unknown` where it finds none; `None` where its match
/// lacks the address group.
pub open spec fn pattern_origin(raw: Seq<char>) -> Option<Seq<char>> {
    match regex_first_captures(ADDRESS_PATTERN@, raw) {
        Some(g) => if g.len() > 1 && g[1] is Some { Some(g[1]->0) } else { None },
        None => Some("Unknown"@),
    }
}

/// The host named in parentheses after the first ` (` of a raw log, up to the first `)`, where
/// it is short (under 32 bytes) and holds no `;` or `:`.
pub open spec fn paren_host(raw: Seq<char>) -> Option<Seq<char>> {
    if seq_contains(raw, " ("@) && raw.contains(')') {
        let pieces = second_piece(raw, " ("@);
        let pot = split_char(pieces, ')')[0];
        if vstd::utf8::encode_utf8(pot).len() < 32 && !pot.contains(';') && !pot.contains(':') {
            Some(pot)
        } else {
            None
        }
    } else {
        None
    }
}

/// The second piece of a text split at `sep`: what lies between its first occurrence and the
/// next (or the end); empty where it does not occur.
pub open spec fn second_piece(s: Seq<char>, sep: Seq<char>) -> Seq<char> {
    match first_occurrence_from(s, sep, 0) {
        Some(i) => match first_occurrence_from(s, sep, i + sep.len()) {
            Some(j) => s.subrange(i + sep.len(), j),
            None => s.subrange(i + sep.len(), s.len() as int),
        },
        None => Seq::empty(),
    }
}

/// Where the event came from: the address in the raw log; else a short parenthesised host; else
/// the metadata's source address or workstation; `Unknown` otherwise. `None` where the address
/// match lacks its group.
pub open spec fn origin_of(raw: Seq<char>, md: Map<Seq<char>, Seq<char>>) -> Option<Seq<char>> {
    match pattern_origin(raw) {
        Some(o0) => {
            let o1 = if o0 == "Unknown"@ || seq_contains(o0, "Negot:"@) {
                match paren_host(raw) {
                    Some(p) => p,
                    None => o0,
                }
            } else {
                o0
            };
            Some(if o1 == "Unknown"@ {
                if md.contains_key("source_ip"@) {
                    md["source_ip"@]
                } else if md.contains_key("source_workstation"@) {
                    md["source_workstation"@]
                } else {
                    o1
                }
            } else {
                o1
            })
        }
        None => None,
    }
}

proof fn lemma_occurrence_fits(hay: Seq<char>, needle: Seq<char>, from: int)
    ensures
        first_occurrence_from(hay, needle, from) matches Some(i) ==> from <= i && i + needle.len() <= hay.len(),
    decreases hay.len() - from,
{
    if !(from < 0 || from + needle.len() > hay.len()) && !(first_occurrence_from(hay, needle, from) == Some(from))
        && from < hay.len() {
        lemma_occurrence_fits(hay, needle, from + 1);
    }
}

fn piece_after(raw: &str, sep: &str) -> (s: String)
    requires
        sep@.len() > 0,
    ensures
        s@ == second_piece(raw@, sep@),
{
    let v = chars_of(raw);
    let sv = chars_of(sep);
    let n = v.len();
    let k = sv.len();
    match find_from(v.as_slice(), sv.as_slice(), 0) {
        Some(i) => {
            proof { lemma_occurrence_fits(v@, sv@, 0); }
            assert(i + k <= n);
            let end = match find_from(v.as_slice(), sv.as_slice(), i + k) {
                Some(j) => {
                    proof { lemma_occurrence_fits(v@, sv@, i + k); }
                    j
                }
                None => n,
            };
            let part = string_from_chars(v.as_slice().split_at(end).0.split_at(i + k).1);
            assert(part@ =~= second_piece(raw@, sep@));
            part
        }
        None => {
            let e = String::new();
            proof { reveal_strlit(""); }
            assert(e@ =~= second_piece(raw@, sep@));
            e
        }
    }
}

fn has_char(s: &str, c: char) -> (b: bool)
    ensures
        b == s@.contains(c),
{
    let v = chars_of(s);
    let mut i: usize = 0;
    while i < v.len()
        invariant
            0 <= i <= v@.len(),
            v@ == s@,
            forall|k: int| 0 <= k < i ==> v@[k] != c,
        decreases v@.len() - i,
    {
        if v[i] == c {
            return true;
        }
        i += 1;
    }
    false
}

fn find_paren_host(raw: &str) -> (r: Option<String>)
    ensures
        match r {
            Some(s) => paren_host(raw@) == Some(s@),
            None => paren_host(raw@) is None,
        },
{
    proof { reveal_strlit(" ("); }
    if !(str_contains(raw, " (") && has_char(raw, ')')) {
        return None;
    }
    let piece = piece_after(raw, " (");
    let parts = split_on(piece.as_str(), ')');
    proof { crate::text::lemma_split_nonempty(piece@, ')'); }
    assert(parts@.map_values(|p: String| p@)[0] == parts@[0]@);
    let pot = &parts[0];
    assert(pot@ == split_char(piece@, ')')[0]);
    let blen = pot.as_str().as_bytes().len();
    assert(blen == vstd::utf8::encode_utf8(pot@).len());
    if blen < 32 && !has_char(pot.as_str(), ';') && !has_char(pot.as_str(), ':') {
        Some(owned(pot.as_str()))
    } else {
        None
    }
}

fn origin(raw: &str, md: &Metadata) -> (r: Option<String>)
    ensures
        match r {
            Some(s) => origin_of(raw@, md@) == Some(s@),
            None => origin_of(raw@, md@) is None,
        },
{
    proof {
        reveal_strlit("Unknown");
        reveal_strlit("Negot:");
    }
    let o0 = match regex_captures(ADDRESS_PATTERN, raw) {
        Some(g) => {
            if g.len() > 1 {
                match &g[1] {
                    Some(x) => owned(x.as_str()),
                    None => {
                        return None;
                    }
                }
            } else {
                return None;
            }
        }
        None => owned("Unknown"),
    };
    let o1 = if str_eq(o0.as_str(), "Unknown") || str_contains(o0.as_str(), "Negot:") {
        match find_paren_host(raw) {
            Some(p) => p,
            None => o0,
        }
    } else {
        o0
    };
    if str_eq(o1.as_str(), "Unknown") {
        match md.get("source_ip") {
            Some(v) => Some(owned(v.as_str())),
            None => match md.get("source_workstation") {
                Some(v) => Some(owned(v.as_str())),
                None => Some(o1),
            },
        }
    } else {
        Some(o1)
    }
}


// ---- the indicator suffix ----

/// The text after the last indicator marker (`split(marker).last()`).
pub open spec fn after_marker(s: Seq<char>) -> Seq<char>
    decreases s.len(),
{
    let m = INDICATOR_MARKER@;
    match first_occurrence_from(s, m, 0) {
        Some(i) => if 0 <= i && i + m.len() <= s.len() && m.len() > 0 {
            after_marker(s.subrange(i + m.len(), s.len() as int))
        } else {
            s
        },
        None => s,
    }
}

fn text_after_marker(raw: &str) -> (s: String)
    ensures
        s@ == after_marker(raw@),
{
    let m = chars_of(INDICATOR_MARKER);
    let v = chars_of(raw);
    let mut start: usize = 0;
    let n = v.len();
    proof {
        reveal_strlit("FORENSIC_INDICATORS:");
        assert(v@.subrange(0, v@.len() as int) =~= v@);
    }
    loop
        invariant
            0 <= start <= v@.len(),
            n == v@.len(),
            m@ == INDICATOR_MARKER@,
            m@.len() == 20,
            after_marker(v@.subrange(start as int, v@.len() as int)) == after_marker(raw@),
            v@ == raw@,
        decreases v@.len() - start,
    {
        let rest = v.as_slice().split_at(start).1;
        let ghost r = rest@;
        assert(r =~= v@.subrange(start as int, v@.len() as int));
        match find_from(rest, m.as_slice(), 0) {
            Some(i) => {
                proof { lemma_occurrence_fits(r, m@, 0); }
                assert(i + 20 <= r.len());
                assert(r.len() == v@.len() - start);
                assert(start + i + 20 <= n);
                assert(r.subrange(i + 20, r.len() as int) =~= v@.subrange(start + i + 20, v@.len() as int));
                start = start + i + 20;
            }
            None => {
                let out = string_from_chars(rest);
                return out;
            }
        }
    }
}

// ---- JSON fields ----

/// The first of `keys` the value has as a member.
pub open spec fn first_present(v: JsonValue, keys: Seq<Seq<char>>) -> Option<JsonValue>
    decreases keys.len(),
{
    if keys.len() == 0 {
        None
    } else {
        match json_get(v, keys[0]) {
            Some(x) => Some(x),
            None => first_present(v, keys.drop_first()),
        }
    }
}

/// The views of literal texts.
pub open spec fn str_views(v: Seq<&str>) -> Seq<Seq<char>> {
    v.map_values(|s: &str| s@)
}

fn first_member<'a>(v: &'a JsonValue, keys: &[&str]) -> (r: Option<&'a JsonValue>)
    ensures
        match r {
            Some(x) => first_present(*v, str_views(keys@)) == Some(*x),
            None => first_present(*v, str_views(keys@)) is None,
        },
{
    let mut i: usize = 0;
    assert(str_views(keys@).subrange(0, keys@.len() as int) =~= str_views(keys@));
    while i < keys.len()
        invariant
            0 <= i <= keys@.len(),
            first_present(*v, str_views(keys@)) == first_present(*v, str_views(keys@).subrange(i as int, keys@.len() as int)),
        decreases keys@.len() - i,
    {
        let ghost rest = str_views(keys@).subrange(i as int, keys@.len() as int);
        assert(rest[0] == keys@[i as int]@);
        assert(rest.drop_first() =~= str_views(keys@).subrange(i + 1, keys@.len() as int));
        match v.get(keys[i]) {
            Some(x) => {
                return Some(x);
            }
            None => {}
        }
        i += 1;
    }
    None
}

/// A number's decimal text or a string's text.
pub open spec fn str_or_number(v: JsonValue) -> Option<Seq<char>> {
    match v {
        JsonValue::Str(s) => Some(s@),
        _ => match json_u64(Some(v)) {
            Some(n) => Some(decimal(n as nat)),
            None => None,
        },
    }
}

/// A number's decimal text, else a string's text.
pub open spec fn number_or_str(v: JsonValue) -> Option<Seq<char>> {
    match json_u64(Some(v)) {
        Some(n) => Some(decimal(n as nat)),
        None => json_str(Some(v)),
    }
}

fn text_or_number(v: &JsonValue) -> (r: Option<String>)
    ensures
        match r {
            Some(s) => str_or_number(*v) == Some(s@),
            None => str_or_number(*v) is None,
        },
{
    match v.as_str() {
        Some(s) => Some(owned(s.as_str())),
        None => match v.as_u64() {
            Some(n) => Some(u64_to_string(n)),
            None => None,
        },
    }
}

fn number_or_text(v: &JsonValue) -> (r: Option<String>)
    ensures
        match r {
            Some(s) => number_or_str(*v) == Some(s@),
            None => number_or_str(*v) is None,
        },
{
    match v.as_u64() {
        Some(n) => Some(u64_to_string(n)),
        None => match v.as_str() {
            Some(s) => Some(owned(s.as_str())),
            None => None,
        },
    }
}

/// The event id of a `System` block: a string, a number, or the text of an object; `N/A`.
pub open spec fn event_id_of(system: JsonValue) -> Seq<char> {
    match json_get(system, "EventID"@) {
        Some(id) => match str_or_number(id) {
            Some(t) => t,
            None => match json_str(json_get(id, "#text"@)) {
                Some(t) => t,
                None => "N/A"@,
            },
        },
        None => "N/A"@,
    }
}

/// The creation time of a `System` block, `stamp` where it has none.
pub open spec fn time_of(system: JsonValue, stamp: Seq<char>) -> Seq<char> {
    match json_get(system, "TimeCreated"@) {
        Some(tc) => match json_str(first_present(tc, seq!["SystemTime"@, "@SystemTime"@])) {
            Some(t) => t,
            None => stamp,
        },
        None => stamp,
    }
}

/// The process id of a `System` block, else the metadata's, else `N/A`.
pub open spec fn pid_of(system: JsonValue, md: Map<Seq<char>, Seq<char>>) -> Seq<char> {
    let p = match json_get(system, "Execution"@) {
        Some(e) => match first_present(e, seq!["ProcessID"@, "@ProcessID"@]) {
            Some(x) => str_or_number(x),
            None => None,
        },
        None => None,
    };
    match p {
        Some(t) => t,
        None => md_or(md, "process_id"@, "N/A"@),
    }
}

/// The record id of a `System` block, else the metadata's line id, else `N/A`.
pub open spec fn rid_of(system: JsonValue, md: Map<Seq<char>, Seq<char>>) -> Seq<char> {
    match json_get(system, "EventRecordID"@) {
        Some(r) => match number_or_str(r) {
            Some(t) => t,
            None => md_or(md, "line_id"@, "N/A"@),
        },
        None => md_or(md, "line_id"@, "N/A"@),
    }
}

fn event_id_text(system: &JsonValue) -> (s: String)
    ensures
        s@ == event_id_of(*system),
{
    proof { reveal_strlit("N/A"); }
    match system.get("EventID") {
        Some(id) => match text_or_number(id) {
            Some(t) => t,
            None => match id.get("#text") {
                Some(t) => match t.as_str() {
                    Some(x) => owned(x.as_str()),
                    None => owned("N/A"),
                },
                None => owned("N/A"),
            },
        },
        None => owned("N/A"),
    }
}

fn time_text(system: &JsonValue, stamp: &str) -> (s: String)
    ensures
        s@ == time_of(*system, stamp@),
{
    match system.get("TimeCreated") {
        Some(tc) => {
            let keys = ["SystemTime", "@SystemTime"];
            let r = first_member(tc, &keys);
            assert(str_views(keys@) =~= seq!["SystemTime"@, "@SystemTime"@]);
            match r {
                Some(x) => match x.as_str() {
                    Some(t) => owned(t.as_str()),
                    None => owned(stamp),
                },
                None => owned(stamp),
            }
        }
        None => owned(stamp),
    }
}

fn pid_text(system: &JsonValue, md: &Metadata) -> (s: String)
    ensures
        s@ == pid_of(*system, md@),
{
    let p = match system.get("Execution") {
        Some(e) => {
            let keys = ["ProcessID", "@ProcessID"];
            let r = first_member(e, &keys);
            assert(str_views(keys@) =~= seq!["ProcessID"@, "@ProcessID"@]);
            match r {
                Some(x) => text_or_number(x),
                None => None,
            }
        }
        None => None,
    };
    match p {
        Some(t) => t,
        None => get_or(md, "process_id", "N/A"),
    }
}

fn rid_text(system: &JsonValue, md: &Metadata) -> (s: String)
    ensures
        s@ == rid_of(*system, md@),
{
    match system.get("EventRecordID") {
        Some(r) => match number_or_text(r) {
            Some(t) => t,
            None => get_or(md, "line_id", "N/A"),
        },
        None => get_or(md, "line_id", "N/A"),
    }
}


// ---- the payload of a JSON event ----

/// The string items of an array, in order.
pub open spec fn string_items(a: Seq<JsonValue>) -> Seq<Seq<char>>
    decreases a.len(),
{
    if a.len() == 0 {
        Seq::empty()
    } else {
        string_items(a.drop_last()) + match a.last() {
            JsonValue::Str(s) => seq![s@],
            _ => Seq::empty(),
        }
    }
}

/// The packet indicators of a document: an array's strings joined with ` | `, or a string.
pub open spec fn indicators_of(v: JsonValue) -> Option<Seq<char>> {
    match json_get(v, "indicators"@) {
        Some(JsonValue::Array(a)) => Some(join(string_items(a@), " | "@)),
        Some(JsonValue::Str(t)) => Some(t@),
        _ => None,
    }
}

/// The member `b` of member `a`.
pub open spec fn get2(v: JsonValue, a: Seq<char>, b: Seq<char>) -> Option<JsonValue> {
    match json_get(v, a) {
        Some(x) => json_get(x, b),
        None => None,
    }
}

/// The command line or message of an Elastic-style `_source` block, if a string.
pub open spec fn source_text(v: JsonValue) -> Option<Seq<char>> {
    match json_get(v, "_source"@) {
        Some(s) => json_str(
            match get2(s, "process"@, "command_line"@) {
                Some(x) => Some(x),
                None => match json_get(s, "message"@) {
                    Some(x) => Some(x),
                    None => match get2(s, "event"@, "original"@) {
                        Some(x) => Some(x),
                        None => get2(v, "process"@, "command_line"@),
                    },
                },
            },
        ),
        None => None,
    }
}

/// The `EventData` members read first, in order.
pub open spec fn event_data_keys() -> Seq<Seq<char>> {
    seq!["TargetImage"@, "GrantedAccess"@, "ScriptBlockText"@, "CommandLine"@, "SourceImage"@, "CallTrace"@,
        "PipeName"@, "TargetObject"@, "Details"@, "RelativeTargetName"@, "ShareName"@]
}

/// The `Data` attribute names whose text is taken.
pub open spec fn listed_name(n: Seq<char>) -> bool {
    n == "RelativeTargetName"@ || n == "ShareName"@ || n == "CommandLine"@ || n == "ScriptBlockText"@
        || n == "TargetImage"@ || n == "SourceImage"@ || n == "GrantedAccess"@ || n == "CallTrace"@
        || n == "url"@ || n == "jobTitle"@
}

/// Text that looks like a network or path artifact (the narrow test).
pub open spec fn path_marker(t: Seq<char>) -> bool {
    seq_contains(t, "TCP"@) || seq_contains(t, "UDP"@) || seq_contains(t, "RDP-Tcp"@) || seq_contains(t, ":\\"@)
        || seq_contains(lowercase(t), ".dit"@) || seq_contains(t, "127.0.0.1"@) || seq_contains(t, "::1"@)
}

/// Text that looks like a network, path, share or tunnelling artifact (the wide test).
pub open spec fn wide_marker(t: Seq<char>) -> bool {
    path_marker(t) || seq_contains(t, "ADMIN$"@) || seq_contains(t, "C$"@)
        || seq_contains(lowercase(t), "bitsadmin"@) || seq_contains(t, "openvpn"@)
}

/// The text of a `Data` element: the element itself or its `#text`, if a string.
pub open spec fn elem_text(e: JsonValue) -> Option<Seq<char>> {
    match e {
        JsonValue::Str(s) => Some(s@),
        _ => json_str(json_get(e, "#text"@)),
    }
}

/// The text of the first element from `i` on with a listed `@Name` and a string `#text`.
pub open spec fn attr_from(a: Seq<JsonValue>, i: int) -> Option<Seq<char>>
    decreases a.len() - i,
{
    if i < 0 || i >= a.len() {
        None
    } else {
        let e = a[i];
        match json_str(json_get(e, "@Name"@)) {
            Some(n) => if listed_name(n) && json_str(json_get(e, "#text"@)) is Some {
                json_str(json_get(e, "#text"@))
            } else {
                attr_from(a, i + 1)
            },
            None => attr_from(a, i + 1),
        }
    }
}

/// The text of the first element from `i` on whose text passes the wide test.
pub open spec fn marked_from(a: Seq<JsonValue>, i: int) -> Option<Seq<char>>
    decreases a.len() - i,
{
    if i < 0 || i >= a.len() {
        None
    } else {
        match elem_text(a[i]) {
            Some(t) => if wide_marker(t) { Some(t) } else { marked_from(a, i + 1) },
            None => marked_from(a, i + 1),
        }
    }
}

/// What the `Data` block of an `EventData` gives: for an array, the first listed attribute's text,
/// else the first marked element's text; otherwise its text where it passes the narrow test.
pub open spec fn data_scan(ed: JsonValue) -> Option<Seq<char>> {
    match json_get(ed, "Data"@) {
        Some(JsonValue::Array(a)) => match attr_from(a@, 0) {
            Some(t) => Some(t),
            None => marked_from(a@, 0),
        },
        Some(d) => match elem_text(d) {
            Some(t) => if path_marker(t) { Some(t) } else { None },
            None => None,
        },
        None => None,
    }
}

/// The payload an `EventData` block gives: its first present member among the known ones, if a
/// string; else what its `Data` gives.
pub open spec fn event_data_text(ek: JsonValue) -> Option<Seq<char>> {
    match json_get(ek, "EventData"@) {
        Some(ed) => match json_str(first_present(ed, event_data_keys())) {
            Some(t) => Some(t),
            None => data_scan(ed),
        },
        None => None,
    }
}

/// The message of a flat document: its first present member among `message`, `textPayload`,
/// `log`, if a string.
pub open spec fn root_text(v: JsonValue) -> Option<Seq<char>> {
    json_str(first_present(v, seq!["message"@, "textPayload"@, "log"@]))
}

fn indicators_text(v: &JsonValue) -> (r: Option<String>)
    ensures
        match r {
            Some(s) => indicators_of(*v) == Some(s@),
            None => indicators_of(*v) is None,
        },
{
    match v.get("indicators") {
        Some(JsonValue::Array(a)) => {
            let mut items: Vec<String> = Vec::new();
            let mut i: usize = 0;
            while i < a.len()
                invariant
                    0 <= i <= a@.len(),
                    items@.map_values(|f: String| f@) == string_items(a@.subrange(0, i as int)),
                decreases a@.len() - i,
            {
                proof {
                    assert(a@.subrange(0, i + 1).drop_last() =~= a@.subrange(0, i as int));
                }
                let ghost before = items@;
                match &a[i] {
                    JsonValue::Str(t) => {
                        items.push(owned(t.as_str()));
                        assert(items@.map_values(|f: String| f@) =~= before.map_values(|f: String| f@) + seq![t@]);
                    }
                    _ => {
                        assert(items@.map_values(|f: String| f@) =~= before.map_values(|f: String| f@) + Seq::<Seq<char>>::empty());
                    }
                }
                i += 1;
            }
            assert(a@.subrange(0, a@.len() as int) =~= a@);
            proof { reveal_strlit(" | "); }
            Some(join_exec(&items, " | "))
        }
        Some(JsonValue::Str(t)) => Some(owned(t.as_str())),
        _ => None,
    }
}

fn member2<'a>(v: &'a JsonValue, a: &str, b: &str) -> (r: Option<&'a JsonValue>)
    ensures
        match r {
            Some(x) => get2(*v, a@, b@) == Some(*x),
            None => get2(*v, a@, b@) is None,
        },
{
    match v.get(a) {
        Some(x) => x.get(b),
        None => None,
    }
}

fn str_of(v: Option<&JsonValue>) -> (r: Option<String>)
    ensures
        match r {
            Some(s) => json_str(match v { Some(x) => Some(*x), None => None }) == Some(s@),
            None => json_str(match v { Some(x) => Some(*x), None => None }) is None,
        },
{
    match v {
        Some(x) => match x.as_str() {
            Some(s) => Some(owned(s.as_str())),
            None => None,
        },
        None => None,
    }
}

fn source_message(v: &JsonValue) -> (r: Option<String>)
    ensures
        match r {
            Some(s) => source_text(*v) == Some(s@),
            None => source_text(*v) is None,
        },
{
    match v.get("_source") {
        Some(s) => {
            let pick = match member2(s, "process", "command_line") {
                Some(x) => Some(x),
                None => match s.get("message") {
                    Some(x) => Some(x),
                    None => match member2(s, "event", "original") {
                        Some(x) => Some(x),
                        None => member2(v, "process", "command_line"),
                    },
                },
            };
            str_of(pick)
        }
        None => None,
    }
}

fn marked(t: &str, wide: bool) -> (b: bool)
    ensures
        b == (if wide { wide_marker(t@) } else { path_marker(t@) }),
{
    let l = to_lowercase(t);
    let narrow = str_contains(t, "TCP") || str_contains(t, "UDP") || str_contains(t, "RDP-Tcp") || str_contains(t, ":\\")
        || str_contains(l.as_str(), ".dit") || str_contains(t, "127.0.0.1") || str_contains(t, "::1");
    if !wide {
        return narrow;
    }
    narrow || str_contains(t, "ADMIN$") || str_contains(t, "C$") || str_contains(l.as_str(), "bitsadmin")
        || str_contains(t, "openvpn")
}

fn element_text(e: &JsonValue) -> (r: Option<String>)
    ensures
        match r {
            Some(s) => elem_text(*e) == Some(s@),
            None => elem_text(*e) is None,
        },
{
    match e {
        JsonValue::Str(s) => Some(owned(s.as_str())),
        _ => str_of(e.get("#text")),
    }
}

fn is_listed(n: &str) -> (b: bool)
    ensures
        b == listed_name(n@),
{
    str_eq(n, "RelativeTargetName") || str_eq(n, "ShareName") || str_eq(n, "CommandLine") || str_eq(n, "ScriptBlockText")
        || str_eq(n, "TargetImage") || str_eq(n, "SourceImage") || str_eq(n, "GrantedAccess") || str_eq(n, "CallTrace")
        || str_eq(n, "url") || str_eq(n, "jobTitle")
}

fn listed_attr(a: &Vec<JsonValue>) -> (r: Option<String>)
    ensures
        match r {
            Some(s) => attr_from(a@, 0) == Some(s@),
            None => attr_from(a@, 0) is None,
        },
{
    let mut i: usize = 0;
    while i < a.len()
        invariant
            0 <= i <= a@.len(),
            attr_from(a@, 0) == attr_from(a@, i as int),
        decreases a@.len() - i,
    {
        let e = &a[i];
        let name = str_of(e.get("@Name"));
        let text = str_of(e.get("#text"));
        match name {
            Some(n) => {
                if is_listed(n.as_str()) {
                    match text {
                        Some(t) => {
                            return Some(t);
                        }
                        None => {}
                    }
                }
            }
            None => {}
        }
        i += 1;
    }
    None
}

fn marked_item(a: &Vec<JsonValue>) -> (r: Option<String>)
    ensures
        match r {
            Some(s) => marked_from(a@, 0) == Some(s@),
            None => marked_from(a@, 0) is None,
        },
{
    let mut j: usize = 0;
    while j < a.len()
        invariant
            0 <= j <= a@.len(),
            marked_from(a@, 0) == marked_from(a@, j as int),
        decreases a@.len() - j,
    {
        match element_text(&a[j]) {
            Some(t) => {
                if marked(t.as_str(), true) {
                    return Some(t);
                }
            }
            None => {}
        }
        j += 1;
    }
    None
}

fn scan_data(ed: &JsonValue) -> (r: Option<String>)
    ensures
        match r {
            Some(s) => data_scan(*ed) == Some(s@),
            None => data_scan(*ed) is None,
        },
{
    match ed.get("Data") {
        Some(JsonValue::Array(a)) => match listed_attr(a) {
            Some(t) => Some(t),
            None => marked_item(a),
        },
        Some(d) => match element_text(d) {
            Some(t) => if marked(t.as_str(), false) { Some(t) } else { None },
            None => None,
        },
        None => None,
    }
}

fn event_data_payload(ek: &JsonValue) -> (r: Option<String>)
    ensures
        match r {
            Some(s) => event_data_text(*ek) == Some(s@),
            None => event_data_text(*ek) is None,
        },
{
    match ek.get("EventData") {
        Some(ed) => {
            let keys = ["TargetImage", "GrantedAccess", "ScriptBlockText", "CommandLine", "SourceImage", "CallTrace",
                "PipeName", "TargetObject", "Details", "RelativeTargetName", "ShareName"];
            let first = first_member(ed, &keys);
            assert(str_views(keys@) =~= event_data_keys());
            match str_of(first) {
                Some(t) => Some(t),
                None => scan_data(ed),
            }
        }
        None => None,
    }
}

fn root_message(v: &JsonValue) -> (r: Option<String>)
    ensures
        match r {
            Some(s) => root_text(*v) == Some(s@),
            None => root_text(*v) is None,
        },
{
    let keys = ["message", "textPayload", "log"];
    let first = first_member(v, &keys);
    assert(str_views(keys@) =~= seq!["message"@, "textPayload"@, "log"@]);
    str_of(first)
}


// ---- the raw scan ----

/// The first position from `from` on where the bytes `pat` occur in `b`.
pub open spec fn byte_window(b: Seq<u8>, pat: Seq<u8>, from: int) -> Option<int>
    decreases b.len() - from,
{
    if from < 0 || from + pat.len() > b.len() {
        None
    } else if b.subrange(from, from + pat.len()) == pat {
        Some(from)
    } else if from >= b.len() {
        None
    } else {
        byte_window(b, pat, from + 1)
    }
}

fn byte_find(b: &[u8], pat: &[u8]) -> (r: Option<usize>)
    ensures
        match r {
            Some(i) => byte_window(b@, pat@, 0) == Some(i as int),
            None => byte_window(b@, pat@, 0) is None,
        },
{
    if pat.len() > b.len() {
        return None;
    }
    let n = b.len();
    let last = n - pat.len();
    let mut i: usize = 0;
    while i <= last
        invariant
            0 <= i <= last + 1,
            last + pat@.len() == b@.len(),
            b@.len() == n,
            byte_window(b@, pat@, 0) == byte_window(b@, pat@, i as int),
        decreases last + 1 - i,
    {
        let mut j: usize = 0;
        let mut same = true;
        while j < pat.len()
            invariant
                0 <= j <= pat@.len(),
                i + pat@.len() <= b@.len(),
                b@.len() == n,
                same == (forall|k: int| 0 <= k < j ==> b@[i + k] == pat@[k]),
            decreases pat@.len() - j,
        {
            if b[i + j] != pat[j] {
                same = false;
            }
            j += 1;
        }
        if same {
            assert(b@.subrange(i as int, i + pat@.len()) =~= pat@);
            return Some(i);
        } else {
            assert(b@.subrange(i as int, i + pat@.len()) != pat@) by {
                let k = choose|k: int| 0 <= k < pat@.len() && b@[i + k] != pat@[k];
                assert(b@.subrange(i as int, i + pat@.len())[k] == b@[i + k]);
            }
        }
        if i == last {
            assert(byte_window(b@, pat@, i + 1) is None);
            return None;
        }
        i += 1;
    }
    None
}

/// Where the raw scan cuts: the first of `tcp`, `udp`, `rdp-tcp` in the lower-cased log, `:\`
/// in the log, `.dit` in the lower-cased log, `127.0.0.1` in the log, as byte positions.
pub open spec fn scan_position(raw: Seq<char>) -> Option<int> {
    let l = encode_utf8(lowercase(raw));
    let r = encode_utf8(raw);
    match byte_window(l, encode_utf8("tcp"@), 0) {
        Some(p) => Some(p),
        None => match byte_window(l, encode_utf8("udp"@), 0) {
            Some(p) => Some(p),
            None => match byte_window(l, encode_utf8("rdp-tcp"@), 0) {
                Some(p) => Some(p),
                None => match byte_window(r, encode_utf8(":\\"@), 0) {
                    Some(p) => Some(p),
                    None => match byte_window(l, encode_utf8(".dit"@), 0) {
                        Some(p) => Some(p),
                        None => byte_window(r, encode_utf8("127.0.0.1"@), 0),
                    },
                },
            },
        },
    }
}

/// A snippet without quotes, double backslashes made single.
pub open spec fn cleaned(x: Seq<char>) -> Seq<char> {
    replace_spec(replace_spec(x, "\""@, ""@), "\\\\"@, "\\"@)
}

/// Whether the raw log shows a network or path artifact the scan looks for.
pub open spec fn raw_has_artifact(raw: Seq<char>) -> bool {
    let l = lowercase(raw);
    seq_contains(l, "tcp"@) || seq_contains(l, "udp"@) || seq_contains(l, "rdp-tcp"@) || seq_contains(raw, ":\\"@)
        || seq_contains(l, ".dit"@) || seq_contains(raw, "127.0.0.1"@)
}

/// The last resort for a JSON event's payload, from its raw log: the indicator suffix; else, where
/// the log shows a network or path artifact, the bytes from ten before to forty-five after its
/// position, unquoted, between ellipses; nothing otherwise. `None` where that cut falls inside a
/// character (or past the end) of the log.
pub open spec fn raw_scan(raw: Seq<char>) -> Option<Option<Seq<char>>> {
    if seq_contains(raw, INDICATOR_MARKER@) {
        Some(Some(seq_trim(after_marker(raw))))
    } else if raw_has_artifact(raw) {
        match scan_position(raw) {
            Some(p) => {
                let rb = encode_utf8(raw);
                let start = if p >= 10 { p - 10 } else { 0 };
                let end = if p + 45 <= rb.len() { p + 45 } else { rb.len() as int };
                if start <= end && is_char_boundary(rb, start) && is_char_boundary(rb, end) {
                    Some(Some("..."@ + cleaned(decode_utf8(rb.subrange(start, end))) + "..."@))
                } else {
                    None
                }
            }
            None => Some(Some("Forensic Path/Link Detected (Raw)"@)),
        }
    } else {
        Some(None)
    }
}

proof fn lemma_prefix_boundary(rb: Seq<u8>, start: int, end: int)
    requires
        vstd::utf8::valid_utf8(rb),
        0 <= start <= end <= rb.len(),
        is_char_boundary(rb, start),
        is_char_boundary(rb, end),
    ensures
        vstd::utf8::valid_utf8(rb.subrange(0, end)),
        is_char_boundary(rb.subrange(0, end), start),
{
    vstd::utf8::valid_utf8_split(rb, end);
    let pre = rb.subrange(0, end);
    if start == end {
        vstd::utf8::is_char_boundary_start_end_of_seq(pre);
    } else {
        vstd::utf8::is_char_boundary_iff_not_is_continuation_byte(rb, start);
        vstd::utf8::is_char_boundary_iff_not_is_continuation_byte(pre, start);
        assert(pre[start] == rb[start]);
    }
}

fn scan_raw(raw: &str) -> (r: Option<Option<String>>)
    ensures
        match r {
            Some(Some(s)) => raw_scan(raw@) == Some(Some(s@)),
            Some(None) => raw_scan(raw@) == Some(None::<Seq<char>>),
            None => raw_scan(raw@) is None,
        },
{
    proof {
        reveal_strlit("FORENSIC_INDICATORS:");
        reveal_strlit("Forensic Path/Link Detected (Raw)");
    }
    if str_contains(raw, INDICATOR_MARKER) {
        let after = text_after_marker(raw);
        return Some(Some(trim(after.as_str())));
    }
    let lower = to_lowercase(raw);
    let l = lower.as_str();
    let found = str_contains(l, "tcp") || str_contains(l, "udp") || str_contains(l, "rdp-tcp") || str_contains(raw, ":\\")
        || str_contains(l, ".dit") || str_contains(raw, "127.0.0.1");
    if !found {
        return Some(None);
    }
    let lb = l.as_bytes();
    let rb = raw.as_bytes();
    let pos = match byte_find(lb, "tcp".as_bytes()) {
        Some(p) => Some(p),
        None => match byte_find(lb, "udp".as_bytes()) {
            Some(p) => Some(p),
            None => match byte_find(lb, "rdp-tcp".as_bytes()) {
                Some(p) => Some(p),
                None => match byte_find(rb, ":\\".as_bytes()) {
                    Some(p) => Some(p),
                    None => match byte_find(lb, ".dit".as_bytes()) {
                        Some(p) => Some(p),
                        None => byte_find(rb, "127.0.0.1".as_bytes()),
                    },
                },
            },
        },
    };
    match pos {
        Some(p) => {
            let n = rb.len();
            let start: usize = if p >= 10 { p - 10 } else { 0 };
            let end: usize = if p <= n && n - p >= 45 { p + 45 } else { n };
            if !(start <= end && raw.is_char_boundary(start) && raw.is_char_boundary(end)) {
                return None;
            }
            proof {
                vstd::utf8::encode_utf8_valid_utf8(raw@);
                lemma_prefix_boundary(rb@, start as int, end as int);
            }
            let (pre, _) = raw.split_at(end);
            let (_, cut) = pre.split_at(start);
            proof {
                vstd::utf8::encode_utf8_decode_utf8(cut@);
                assert(encode_utf8(cut@) =~= rb@.subrange(start as int, end as int));
            }
            let a = replace_str(cut, "\"", "");
            let b = replace_str(a.as_str(), "\\\\", "\\");
            let c = concat("...", b.as_str());
            Some(Some(concat(c.as_str(), "...")))
        }
        None => Some(Some(owned("Forensic Path/Link Detected (Raw)"))),
    }
}


// ---- the telemetry ----

/// The payload of a JSON event: the metadata's forensic payload or captured message, the packet
/// indicators, an Elastic `_source` message, the `EventData` text, a flat document's message, or
/// the raw scan's; `N/A` where none gives one. `None` where the raw scan's cut would fail.
pub open spec fn json_payload(v: JsonValue, ek: JsonValue, md: Map<Seq<char>, Seq<char>>, raw: Seq<char>) -> Option<Seq<char>> {
    if md.contains_key("forensic_payload"@) {
        Some(md["forensic_payload"@])
    } else if md.contains_key("captured_message"@) {
        Some(md["captured_message"@])
    } else {
        match indicators_of(v) {
            Some(t) => Some(t),
            None => match source_text(v) {
                Some(t) => Some(t),
                None => match event_data_text(ek) {
                    Some(t) => Some(t),
                    None => match root_text(v) {
                        Some(t) => Some(t),
                        None => match raw_scan(raw) {
                            Some(Some(t)) => Some(t),
                            Some(None) => Some("N/A"@),
                            None => None,
                        },
                    },
                },
            },
        }
    }
}

/// The payload of a comma-separated line: its sixth field, trimmed; `N/A`.
pub open spec fn csv_payload(raw: Seq<char>) -> Seq<char> {
    if raw.contains(',') {
        let parts = split_char(raw, ',');
        if parts.len() > 5 { seq_trim(parts[5]) } else { "N/A"@ }
    } else {
        "N/A"@
    }
}

/// The telemetry of an event whose time renders as `stamp`: event id, time, process id, record id,
/// payload, origin and lineage. An indicator suffix in the raw log comes first; then a captured
/// message; then the parser's description, unless generic; then a JSON document's fields; then a
/// comma-separated line's. `None` where the address match lacks its group or the raw scan's cut
/// falls inside a character.
pub open spec fn telemetry_spec(e: PostureEvent, stamp: Seq<char>)
    -> Option<(Seq<char>, Seq<char>, Seq<char>, Seq<char>, Seq<char>, Seq<char>, Seq<char>)>
{
    let raw = e.raw_log@;
    let md = e.metadata@;
    let desc = e.description@;
    match origin_of(raw, md) {
        None => None,
        Some(origin) => {
            let lineage = md_or(md, "lineage_chain"@, ""@);
            let eid = md_or(md, "event_id"@, "N/A"@);
            let pid = md_or(md, "process_id"@, "N/A"@);
            let rid = md_or(md, "line_id"@, "N/A"@);
            if seq_contains(raw, INDICATOR_MARKER@) {
                Some(("N/A"@, stamp, "N/A"@, "N/A"@, seq_trim(after_marker(raw)), origin, lineage))
            } else if md.contains_key("captured_message"@) && md["captured_message"@].len() > 0
                && md["captured_message"@] != "Endpoint process event"@ {
                Some((eid, stamp, pid, rid, md["captured_message"@], origin, lineage))
            } else if desc != "NIST Compliance Violation"@ && desc != "Endpoint process event"@ && desc.len() > 0 {
                Some((eid, stamp, pid, rid, desc, origin, lineage))
            } else {
                match json_document(raw) {
                    Some(v) => if v is Null {
                        Some((eid, stamp, pid, rid, csv_payload(raw), origin, lineage))
                    } else {
                        let ek = match json_get(v, "Event"@) {
                            Some(x) => x,
                            None => v,
                        };
                        let system = match json_get(ek, "System"@) {
                            Some(x) => x,
                            None => ek,
                        };
                        match json_payload(v, ek, md, raw) {
                            Some(payload) => Some((event_id_of(system), time_of(system, stamp), pid_of(system, md),
                                rid_of(system, md), payload, origin, lineage)),
                            None => None,
                        }
                    },
                    None => Some((eid, stamp, pid, rid, csv_payload(raw), origin, lineage)),
                }
            }
        }
    }
}

/// The views of seven texts.
pub open spec fn views7(t: (String, String, String, String, String, String, String))
    -> (Seq<char>, Seq<char>, Seq<char>, Seq<char>, Seq<char>, Seq<char>, Seq<char>)
{
    (t.0@, t.1@, t.2@, t.3@, t.4@, t.5@, t.6@)
}

fn payload_of_json(v: &JsonValue, ek: &JsonValue, md: &Metadata, raw: &str) -> (r: Option<String>)
    ensures
        match r {
            Some(s) => json_payload(*v, *ek, md@, raw@) == Some(s@),
            None => json_payload(*v, *ek, md@, raw@) is None,
        },
{
    proof { reveal_strlit("N/A"); }
    match md.get("forensic_payload") {
        Some(p) => {
            return Some(owned(p.as_str()));
        }
        None => {}
    }
    match md.get("captured_message") {
        Some(p) => {
            return Some(owned(p.as_str()));
        }
        None => {}
    }
    match indicators_text(v) {
        Some(t) => {
            return Some(t);
        }
        None => {}
    }
    match source_message(v) {
        Some(t) => {
            return Some(t);
        }
        None => {}
    }
    match event_data_payload(ek) {
        Some(t) => {
            return Some(t);
        }
        None => {}
    }
    match root_message(v) {
        Some(t) => {
            return Some(t);
        }
        None => {}
    }
    match scan_raw(raw) {
        Some(Some(t)) => Some(t),
        Some(None) => Some(owned("N/A")),
        None => None,
    }
}

fn csv_field(raw: &str) -> (s: String)
    ensures
        s@ == csv_payload(raw@),
{
    proof { reveal_strlit("N/A"); }
    if has_char(raw, ',') {
        let parts = split_on(raw, ',');
        assert(parts@.len() == split_char(raw@, ',').len());
        if parts.len() > 5 {
            assert(parts@[5]@ == split_char(raw@, ',')[5]);
            trim(parts[5].as_str())
        } else {
            owned("N/A")
        }
    } else {
        owned("N/A")
    }
}

/// The telemetry a report shows of an event whose time renders as `stamp` (see [`telemetry_spec`]).
pub fn telemetry_of(e: &PostureEvent, stamp: &str) -> (r: Option<(String, String, String, String, String, String, String)>)
    ensures
        match r {
            Some(t) => telemetry_spec(*e, stamp@) == Some(views7(t)),
            None => telemetry_spec(*e, stamp@) is None,
        },
{
    proof {
        reveal_strlit("N/A");
        reveal_strlit("");
        reveal_strlit("Endpoint process event");
        reveal_strlit("NIST Compliance Violation");
        reveal_strlit("FORENSIC_INDICATORS:");
    }
    let raw = e.raw_log.as_str();
    let md = &e.metadata;
    let origin = match origin(raw, md) {
        Some(o) => o,
        None => {
            return None;
        }
    };
    let lineage = get_or(md, "lineage_chain", "");
    if str_contains(raw, INDICATOR_MARKER) {
        let after = text_after_marker(raw);
        return Some((owned("N/A"), owned(stamp), owned("N/A"), owned("N/A"), trim(after.as_str()), origin, lineage));
    }
    let eid = get_or(md, "event_id", "N/A");
    let pid = get_or(md, "process_id", "N/A");
    let rid = get_or(md, "line_id", "N/A");
    match md.get("captured_message") {
        Some(m) => {
            if !m.as_str().is_empty() && !str_eq(m.as_str(), "Endpoint process event") {
                return Some((eid, owned(stamp), pid, rid, owned(m.as_str()), origin, lineage));
            }
        }
        None => {}
    }
    let desc = e.description.as_str();
    if !str_eq(desc, "NIST Compliance Violation") && !str_eq(desc, "Endpoint process event") && !desc.is_empty() {
        return Some((eid, owned(stamp), pid, rid, owned(desc), origin, lineage));
    }
    match parse_json_document(raw) {
        Some(v) => {
            match &v {
                JsonValue::Null => {
                    return Some((eid, owned(stamp), pid, rid, csv_field(raw), origin, lineage));
                }
                _ => {}
            }
            let ek = match v.get("Event") {
                Some(x) => x,
                None => &v,
            };
            let system = match ek.get("System") {
                Some(x) => x,
                None => ek,
            };
            match payload_of_json(&v, ek, md, raw) {
                Some(payload) => Some((event_id_text(system), time_text(system, stamp), pid_text(system, md),
                    rid_text(system, md), payload, origin, lineage)),
                None => None,
            }
        }
        None => Some((eid, owned(stamp), pid, rid, csv_field(raw), origin, lineage)),
    }
}

/// The telemetry a report shows of an event, its time rendered in local time (RFC 3339), which
/// depends on the machine's time zone: [`telemetry_spec`] for that rendering.
pub fn extract_telemetry(e: &PostureEvent) -> (r: Option<(String, String, String, String, String, String, String)>)
    ensures
        exists|stamp: Seq<char>| match r {
            Some(t) => telemetry_spec(*e, stamp) == Some(views7(t)),
            None => #[trigger] telemetry_spec(*e, stamp) is None,
        },
{
    let stamp = crate::time::rfc3339_local(&e.timestamp);
    telemetry_of(e, stamp.as_str())
}


// ---- an identity alias ----

/// A character that may stand in a machine name: alphanumeric or `-`.
pub open spec fn alias_char(c: char) -> bool {
    alphanumeric(c) || c == '-'
}

/// The end of the run of name characters that starts at `i`.
pub open spec fn name_end(s: Seq<char>, i: int) -> int
    decreases s.len() - i,
{
    if i >= s.len() {
        s.len() as int
    } else if !alias_char(s[i]) {
        i
    } else {
        name_end(s, i + 1)
    }
}

/// The probable identity a raw message names, as `Observed: NAME`: the name after the first
/// `\\` (up to its first character that is neither alphanumeric nor `-`); else, in a Netlogon
/// message (`for NAME on account`), the word after the first `for `; else the word after the
/// first `: `, where it is longer than 3 bytes and made of name characters only. `None` where
/// none of these yields a name.
pub open spec fn alias_of(p: Seq<char>) -> Option<Seq<char>> {
    let a = second_piece(p, "\\\\"@);
    let n1 = a.take(name_end(a, 0));
    let n2 = split_char(second_piece(p, "for "@), ' ')[0];
    let n3 = split_char(second_piece(p, ": "@), ' ')[0];
    if seq_contains(p, "\\\\"@) && n1.len() > 0 {
        Some("Observed: "@ + n1)
    } else if seq_contains(p, "for "@) && seq_contains(p, " on account"@) && n2.len() > 0 {
        Some("Observed: "@ + n2)
    } else if seq_contains(p, ": "@) && encode_utf8(n3).len() > 3 && forall|k: int|
        0 <= k < n3.len() ==> #[trigger] alias_char(n3[k]) {
        Some("Observed: "@ + n3)
    } else {
        None
    }
}

fn name_prefix(s: &str) -> (r: String)
    ensures
        r@ == s@.take(name_end(s@, 0)),
{
    let v = chars_of(s);
    let mut i: usize = 0;
    while i < v.len() && (is_alphanumeric(v[i]) || v[i] == '-')
        invariant
            0 <= i <= v@.len(),
            v@ == s@,
            name_end(v@, 0) == name_end(v@, i as int),
        decreases v@.len() - i,
    {
        i += 1;
    }
    string_from_chars(v.as_slice().split_at(i).0)
}

fn all_name_chars(s: &str) -> (b: bool)
    ensures
        b == forall|k: int| 0 <= k < s@.len() ==> #[trigger] alias_char(s@[k]),
{
    let v = chars_of(s);
    let mut i: usize = 0;
    while i < v.len()
        invariant
            0 <= i <= v@.len(),
            v@ == s@,
            forall|k: int| 0 <= k < i ==> #[trigger] alias_char(v@[k]),
        decreases v@.len() - i,
    {
        if !(is_alphanumeric(v[i]) || v[i] == '-') {
            assert(!alias_char(v@[i as int]));
            return false;
        }
        i += 1;
    }
    true
}

fn first_word(s: &str) -> (r: String)
    ensures
        r@ == split_char(s@, ' ')[0],
{
    let parts = split_on(s, ' ');
    proof { crate::text::lemma_split_nonempty(s@, ' '); }
    assert(parts@.map_values(|p: String| p@)[0] == parts@[0]@);
    owned(parts[0].as_str())
}

/// The probable identity alias a raw message names (see [`alias_of`]).
pub fn extract_alias(payload: &str) -> (r: Option<String>)
    ensures
        opt_view(r) == alias_of(payload@),
{
    proof {
        reveal_strlit("\\\\");
        reveal_strlit("for ");
        reveal_strlit(": ");
    }
    if str_contains(payload, "\\\\") {
        let n1 = name_prefix(piece_after(payload, "\\\\").as_str());
        if !n1.as_str().is_empty() {
            return Some(concat("Observed: ", n1.as_str()));
        }
    }
    if str_contains(payload, "for ") && str_contains(payload, " on account") {
        let n2 = first_word(piece_after(payload, "for ").as_str());
        if !n2.as_str().is_empty() {
            return Some(concat("Observed: ", n2.as_str()));
        }
    }
    if str_contains(payload, ": ") {
        let n3 = first_word(piece_after(payload, ": ").as_str());
        if n3.as_str().as_bytes().len() > 3 && all_name_chars(n3.as_str()) {
            return Some(concat("Observed: ", n3.as_str()));
        }
    }
    None
}
} // verus!
