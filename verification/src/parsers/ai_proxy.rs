//! AI proxy logs: model interactions with token usage, latency and security flags.

use vstd::prelude::*;
use crate::json::{JsonValue, JsonNumber, json_get, json_text, json_document, parse_json_document, json_compact};
use crate::metadata::Metadata;
use crate::models::{LogRecord, ParsingQuality, record_defaults};
use crate::num::u64_to_string;
use crate::parsers::{LogParser, parse_timestamp_robust};
use crate::text::{owned, concat, opt_view, decimal};
use crate::time::now;

verus! {

/// Token usage of an interaction.
#[derive(Debug, Clone, Copy)]
pub struct AiUsage {
    pub prompt_tokens: u32,
    pub completion_tokens: u32,
}

/// An optional string member: absent or `null` is none, a string is some, anything else is
/// refused (the outer `None`).
pub open spec fn opt_string_member(v: JsonValue, key: Seq<char>) -> Option<Option<Seq<char>>> {
    match json_get(v, key) {
        None => Some(None),
        Some(JsonValue::Null) => Some(None),
        Some(JsonValue::Str(s)) => Some(Some(s@)),
        _ => None,
    }
}

/// A number member that is an unsigned integer within `max`.
pub open spec fn uint_member(v: JsonValue, key: Seq<char>, max: nat) -> Option<nat> {
    match json_get(v, key) {
        Some(JsonValue::Number(n)) => match n.as_u64 {
            Some(u) => if u <= max { Some(u as nat) } else { None },
            None => None,
        },
        _ => None,
    }
}

/// The `usage` member: absent or `null`, or an object with both token counts within 32 bits.
pub open spec fn usage_member(v: JsonValue) -> Option<Option<(nat, nat)>> {
    match json_get(v, "usage"@) {
        None => Some(None),
        Some(JsonValue::Null) => Some(None),
        Some(u) => if u is Object {
            match (uint_member(u, "prompt_tokens"@, 4294967295), uint_member(u, "completion_tokens"@, 4294967295)) {
                (Some(p), Some(c)) => Some(Some((p, c))),
                _ => None,
            }
        } else {
            None
        },
    }
}

/// An optional unsigned member: absent or `null` is none.
pub open spec fn opt_uint_member(v: JsonValue, key: Seq<char>) -> Option<Option<nat>> {
    match json_get(v, key) {
        None => Some(None),
        Some(JsonValue::Null) => Some(None),
        Some(_) => match uint_member(v, key, 18446744073709551615) {
            Some(n) => Some(Some(n)),
            None => None,
        },
    }
}

/// The `metadata` member: absent or `null`, or an object with an optional latency and optional
/// security flags (an object).
pub open spec fn meta_member(v: JsonValue) -> Option<Option<(Option<nat>, Option<Seq<(String, JsonValue)>>)>> {
    match json_get(v, "metadata"@) {
        None => Some(None),
        Some(JsonValue::Null) => Some(None),
        Some(m) => if m is Object {
            let flags = match json_get(m, "security_flags"@) {
                None => Some(None),
                Some(JsonValue::Null) => Some(None),
                Some(JsonValue::Object(f)) => Some(Some(f@)),
                _ => None,
            };
            match (opt_uint_member(m, "latency_ms"@), flags) {
                (Some(l), Some(f)) => Some(Some((l, f))),
                _ => None,
            }
        } else {
            None
        },
    }
}

/// The document is a payload: an object whose members have the payload's types.
pub open spec fn valid_payload(v: JsonValue) -> bool {
    &&& v is Object
    &&& opt_string_member(v, "timestamp"@) is Some
    &&& opt_string_member(v, "model"@) is Some
    &&& opt_string_member(v, "user_id"@) is Some
    &&& usage_member(v) is Some
    &&& meta_member(v) is Some
}

/// The metadata of the security flags: `ai_security_<flag>` to the flag's JSON text.
pub open spec fn flag_metadata(m: Map<Seq<char>, Seq<char>>, flags: Seq<(String, JsonValue)>) -> Map<Seq<char>, Seq<char>>
    decreases flags.len(),
{
    if flags.len() == 0 {
        m
    } else {
        flag_metadata(m, flags.drop_last()).insert("ai_security_"@ + flags.last().0@, json_text(flags.last().1))
    }
}

/// The metadata of a payload: token counts, latency and security flags.
pub open spec fn ai_metadata(v: JsonValue) -> Map<Seq<char>, Seq<char>> {
    let m0 = Map::<Seq<char>, Seq<char>>::empty();
    let m1 = match usage_member(v) {
        Some(Some((p, c))) => m0.insert("prompt_tokens"@, decimal(p)).insert("completion_tokens"@, decimal(c))
            .insert("total_tokens"@, decimal(p + c)),
        _ => m0,
    };
    match meta_member(v) {
        Some(Some((l, f))) => {
            let m2 = match l { Some(n) => m1.insert("latency_ms"@, decimal(n)), None => m1 };
            match f { Some(flags) => flag_metadata(m2, flags), None => m2 }
        }
        _ => m1,
    }
}

/// The AI proxy parser.
pub struct AiProxyParser;

fn opt_string(v: &JsonValue, key: &str) -> (r: Result<Option<String>, ()>)
    ensures
        r matches Ok(o) ==> opt_string_member(*v, key@) == Some(opt_view(o)),
        r is Err ==> opt_string_member(*v, key@) is None,
{
    match v.get(key) {
        None => Ok(None),
        Some(JsonValue::Null) => Ok(None),
        Some(JsonValue::Str(s)) => Ok(Some(owned(s.as_str()))),
        _ => Err(()),
    }
}

fn uint(v: &JsonValue, key: &str, max: u64) -> (r: Option<u64>)
    ensures
        r matches Some(n) ==> uint_member(*v, key@, max as nat) == Some(n as nat),
        r is None ==> uint_member(*v, key@, max as nat) is None,
{
    match v.get(key) {
        Some(JsonValue::Number(n)) => match n.as_u64 {
            Some(u) => if u <= max { Some(u) } else { None },
            None => None,
        },
        _ => None,
    }
}

fn number(n: u64) -> (v: JsonValue)
    ensures
        v matches JsonValue::Number(x) && x.text@ == decimal(n as nat) && x.as_u64 == Some(n),
{
    let as_i64 = if n <= 9223372036854775807u64 { Some(n as i64) } else { None };
    JsonValue::Number(JsonNumber { text: u64_to_string(n), as_u64: Some(n), as_i64 })
}

fn opt_text(o: &Option<String>) -> (v: JsonValue)
    ensures
        match o {
            Some(s) => v matches JsonValue::Str(t) && t@ == s@,
            None => v is Null,
        },
{
    match o {
        Some(s) => JsonValue::Str(owned(s.as_str())),
        None => JsonValue::Null,
    }
}

impl AiProxyParser {
    pub fn new() -> (p: AiProxyParser) {
        AiProxyParser
    }

    fn usage(v: &JsonValue) -> (r: Result<Option<AiUsage>, ()>)
        ensures
            r matches Ok(Some(u)) ==> usage_member(*v) == Some(Some((u.prompt_tokens as nat, u.completion_tokens as nat))),
            r matches Ok(None) ==> usage_member(*v) == Some(None::<(nat, nat)>),
            r is Err ==> usage_member(*v) is None,
    {
        match v.get("usage") {
            None => Ok(None),
            Some(JsonValue::Null) => Ok(None),
            Some(u) => match u {
                JsonValue::Object(_) => {
                    match (uint(u, "prompt_tokens", 4294967295u64), uint(u, "completion_tokens", 4294967295u64)) {
                        (Some(p), Some(c)) => Ok(Some(AiUsage { prompt_tokens: p as u32, completion_tokens: c as u32 })),
                        _ => Err(()),
                    }
                }
                _ => Err(()),
            },
        }
    }

    /// The latency and the flags' members of the `metadata` member.
    fn meta<'a>(v: &'a JsonValue) -> (r: Result<Option<(Option<u64>, Option<&'a Vec<(String, JsonValue)>>)>, ()>)
        ensures
            r matches Ok(Some((l, f))) ==> meta_member(*v) == Some(Some((
                match l { Some(n) => Some(n as nat), None => None },
                match f { Some(x) => Some(x@), None => None }))),
            r matches Ok(None) ==> meta_member(*v) == Some(None::<(Option<nat>, Option<Seq<(String, JsonValue)>>)>),
            r is Err ==> meta_member(*v) is None,
    {
        match v.get("metadata") {
            None => Ok(None),
            Some(JsonValue::Null) => Ok(None),
            Some(m) => match m {
                JsonValue::Object(_) => {
                    let flags: Option<&'a Vec<(String, JsonValue)>> = match m.get("security_flags") {
                        None => None,
                        Some(JsonValue::Null) => None,
                        Some(JsonValue::Object(f)) => Some(f),
                        _ => {
                            return Err(());
                        }
                    };
                    let latency = match m.get("latency_ms") {
                        None => None,
                        Some(JsonValue::Null) => None,
                        Some(_) => match uint(m, "latency_ms", 18446744073709551615u64) {
                            Some(n) => Some(n),
                            None => {
                                return Err(());
                            }
                        },
                    };
                    Ok(Some((latency, flags)))
                }
                _ => Err(()),
            },
        }
    }

    fn insert_flags(md: &mut Metadata, flags: &Vec<(String, JsonValue)>)
        ensures
            final(md)@ == flag_metadata(old(md)@, flags@),
    {
        let ghost m0 = md@;
        let mut i: usize = 0;
        while i < flags.len()
            invariant
                0 <= i <= flags@.len(),
                md@ == flag_metadata(m0, flags@.subrange(0, i as int)),
            decreases flags@.len() - i,
        {
            assert(flags@.subrange(0, i + 1).drop_last() =~= flags@.subrange(0, i as int));
            let key = concat("ai_security_", flags[i].0.as_str());
            md.insert(key, json_compact(&flags[i].1));
            i += 1;
        }
        assert(flags@.subrange(0, flags@.len() as int) =~= flags@);
    }
}

impl LogParser for AiProxyParser {
    open spec fn accepts(&self, raw: Seq<char>) -> bool {
        true
    }

    fn format_name(&self) -> (s: String)
        ensures
            s@ == "ai_proxy"@,
    {
        owned("ai_proxy")
    }

    /// A payload becomes `AI Model Interaction: <model>` with its usage, latency and flags as
    /// metadata and the model and user as source and subject; anything else is kept raw and degraded.
    fn parse(&self, raw: &str) -> (r: LogRecord)
        ensures
            r.raw@ == raw@,
            r.original_format@ == "ai_proxy"@,
            record_defaults(r),
            r.parent_process_id is None && r.parent_process_name is None,
            match json_document(raw@) {
                Some(v) if valid_payload(v) => {
                    let model = opt_string_member(v, "model"@)->0;
                    &&& r.message@ == "AI Model Interaction: "@ + match model { Some(m) => m, None => "unknown"@ }
                    &&& opt_view(r.severity) == Some("Info"@)
                    &&& opt_view(r.source) == model
                    &&& opt_view(r.subject_id) == opt_string_member(v, "user_id"@)->0
                    &&& opt_view(r.outcome) == Some("Computed"@)
                    &&& r.metadata@ == ai_metadata(v)
                    &&& r.unparsed_raw is None && r.additional_context is Some
                    &&& (opt_string_member(v, "timestamp"@)->0 is None ==> r.quality == ParsingQuality::PartialTimestamp)
                    &&& (r.quality == ParsingQuality::Success || r.quality == ParsingQuality::PartialTimestamp)
                }
                _ => {
                    &&& r.message@ == "DEGRADED: Unrecognized AI Proxy Payload"@
                    &&& opt_view(r.severity) == Some("Warning"@)
                    &&& opt_view(r.source) == Some("ai_proxy_ingestion"@)
                    &&& r.subject_id is None
                    &&& opt_view(r.outcome) == Some("IngestedRaw"@)
                    &&& r.metadata@ == Map::<Seq<char>, Seq<char>>::empty()
                    &&& opt_view(r.unparsed_raw) == Some(raw@) && r.additional_context is None
                    &&& r.quality == ParsingQuality::Degraded
                }
            },
    {
        let parsed = parse_json_document(raw);
        let v = match parsed {
            Some(v) => v,
            None => {
                return Self::degraded(raw);
            }
        };
        let is_object = match &v {
            JsonValue::Object(_) => true,
            _ => false,
        };
        if !is_object {
            return Self::degraded(raw);
        }
        let timestamp = match opt_string(&v, "timestamp") {
            Ok(t) => t,
            Err(_) => {
                return Self::degraded(raw);
            }
        };
        let model = match opt_string(&v, "model") {
            Ok(t) => t,
            Err(_) => {
                return Self::degraded(raw);
            }
        };
        let user = match opt_string(&v, "user_id") {
            Ok(t) => t,
            Err(_) => {
                return Self::degraded(raw);
            }
        };
        let usage = match Self::usage(&v) {
            Ok(u) => u,
            Err(_) => {
                return Self::degraded(raw);
            }
        };
        let meta = match Self::meta(&v) {
            Ok(m) => m,
            Err(_) => {
                return Self::degraded(raw);
            }
        };
        let (ts, quality) = match &timestamp {
            Some(t) => parse_timestamp_robust(t.as_str()),
            None => (now(), ParsingQuality::PartialTimestamp),
        };
        let mut md = Metadata::new();
        let usage_json = match usage {
            Some(u) => {
                md.insert(owned("prompt_tokens"), u64_to_string(u.prompt_tokens as u64));
                md.insert(owned("completion_tokens"), u64_to_string(u.completion_tokens as u64));
                md.insert(owned("total_tokens"), u64_to_string(u.prompt_tokens as u64 + u.completion_tokens as u64));
                let mut members: Vec<(String, JsonValue)> = Vec::new();
                members.push((owned("completion_tokens"), number(u.completion_tokens as u64)));
                members.push((owned("prompt_tokens"), number(u.prompt_tokens as u64)));
                JsonValue::Object(members)
            }
            None => JsonValue::Null,
        };
        let (latency, has_flags) = match meta {
            Some((latency, flags)) => {
                if let Some(l) = latency {
                    md.insert(owned("latency_ms"), u64_to_string(l));
                }
                match flags {
                    Some(f) => {
                        Self::insert_flags(&mut md, f);
                        (latency, true)
                    }
                    None => (latency, false),
                }
            }
            None => (None, false),
        };
        let meta_present = match &meta {
            Some(_) => true,
            None => false,
        };
        let meta_json = if meta_present {
            let flags_json = if has_flags {
                match JsonValue::take_member(v, "metadata") {
                    Ok(m) => match JsonValue::take_member(m, "security_flags") {
                        Ok(f) => f,
                        Err(_) => JsonValue::Null,
                    },
                    Err(_) => JsonValue::Null,
                }
            } else {
                JsonValue::Null
            };
            let l_json = match latency {
                Some(l) => number(l),
                None => JsonValue::Null,
            };
            let mut members: Vec<(String, JsonValue)> = Vec::new();
            members.push((owned("latency_ms"), l_json));
            members.push((owned("security_flags"), flags_json));
            JsonValue::Object(members)
        } else {
            JsonValue::Null
        };
        let mut context: Vec<(String, JsonValue)> = Vec::new();
        context.push((owned("metadata"), meta_json));
        context.push((owned("model"), opt_text(&model)));
        context.push((owned("timestamp"), opt_text(&timestamp)));
        context.push((owned("usage"), usage_json));
        context.push((owned("user_id"), opt_text(&user)));
        let name = match &model {
            Some(m) => owned(m.as_str()),
            None => owned("unknown"),
        };
        let mut r = LogRecord::blank_at(ts);
        r.message = concat("AI Model Interaction: ", name.as_str());
        r.severity = Some(owned("Info"));
        r.source = model;
        r.subject_id = user;
        r.outcome = Some(owned("Computed"));
        r.metadata = md;
        r.additional_context = Some(JsonValue::Object(context));
        r.raw = owned(raw);
        r.original_format = owned("ai_proxy");
        r.quality = quality;
        r
    }
}

impl AiProxyParser {
    fn degraded(raw: &str) -> (r: LogRecord)
        ensures
            r.message@ == "DEGRADED: Unrecognized AI Proxy Payload"@,
            opt_view(r.severity) == Some("Warning"@),
            opt_view(r.source) == Some("ai_proxy_ingestion"@),
            r.subject_id is None,
            opt_view(r.outcome) == Some("IngestedRaw"@),
            r.metadata@ == Map::<Seq<char>, Seq<char>>::empty(),
            opt_view(r.unparsed_raw) == Some(raw@) && r.additional_context is None,
            r.quality == ParsingQuality::Degraded,
            r.raw@ == raw@,
            r.original_format@ == "ai_proxy"@,
            record_defaults(r),
            r.parent_process_id is None && r.parent_process_name is None,
    {
        let mut r = LogRecord::blank_at(now());
        r.message = owned("DEGRADED: Unrecognized AI Proxy Payload");
        r.severity = Some(owned("Warning"));
        r.source = Some(owned("ai_proxy_ingestion"));
        r.outcome = Some(owned("IngestedRaw"));
        r.raw = owned(raw);
        r.unparsed_raw = Some(owned(raw));
        r.original_format = owned("ai_proxy");
        r.quality = ParsingQuality::Degraded;
        r
    }
}

} // verus!
