//! The audit trail's decisions: the gap sentinel that flags discontinuities in the forensic
//! stream, the posture events derived from recorded findings, and the compliance reports
//! built from them.

use vstd::prelude::*;
use crate::analysis::{Finding, analysis};
use crate::config::ActiveFramework;
use crate::engine::{NistEngine, basename, first_with_id, match_spec, path_file_name};
use crate::mappings::ControlMapping;
use crate::metadata::{Metadata, lookup, lookup2, or_empty};
use crate::models::{ComplianceStatus, LogRecord, ParsingQuality, SeverityLevel, is_blank_record, record_defaults, sev_name, sev_rank};
use crate::num::{i128_to_string, u64_to_string};
use crate::tables::WmiState;
use crate::text::{append, concat, decimal, lowercase, opt_view, owned, seq_contains, signed_decimal, str_contains, str_eq, to_lowercase};
use crate::lineage::{LineageAnomaly, LineageGraph, record_step};
use crate::time::{Timestamp, format_local, now, secs_between, seconds_between};

verus! {

/// Longest silence, in whole seconds, the forensic stream may have between two records.
pub const MAX_STREAM_GAP_SECS: i128 = 300;

/// The gap before a record stamped `at`, where the record before it was stamped `last` and the
/// silence between them is longer than the stream allows.
pub open spec fn stream_gap(last: Option<Timestamp>, at: Timestamp) -> Option<int> {
    match last {
        Some(prev) => if seconds_between(at, prev) > 300 { Some(seconds_between(at, prev)) } else { None },
        None => None,
    }
}

/// The message of a gap warning.
pub open spec fn gap_message(gap: int) -> Seq<char> {
    "⚠️ NIST AU-6: LOG DISCONTINUITY DETECTED! Gap of "@ + signed_decimal(gap) + " seconds in forensic stream."@
}

/// The raw text of a gap warning.
pub open spec fn gap_raw(gap: int) -> Seq<char> {
    "AUDIT_GAP_SENTINEL: "@ + signed_decimal(gap) + "s gap detected."@
}

/// The metadata of a gap warning.
pub open spec fn gap_metadata(gap: int) -> Map<Seq<char>, Seq<char>> {
    Map::<Seq<char>, Seq<char>>::empty()
        .insert("computer"@, "AEGIS_SENTINEL"@)
        .insert("event_id"@, "3001"@)
        .insert("gap_seconds"@, signed_decimal(gap))
}

/// `w` is the warning for a gap of `gap` seconds, stamped at the record that ended it.
pub open spec fn is_gap_warning(w: LogRecord, at: Timestamp, gap: int) -> bool {
    &&& w.timestamp == at
    &&& w.message@ == gap_message(gap)
    &&& w.raw@ == gap_raw(gap)
    &&& w.severity matches Some(s) && s@ == "Medium"@
    &&& w.metadata@ == gap_metadata(gap)
    &&& w.original_format@ == Seq::<char>::empty()
    &&& w.source is None && w.subject_id is None && w.outcome is None
    &&& w.additional_context is None && w.unparsed_raw is None
    &&& w.quality == ParsingQuality::Success
    &&& w.parent_process_id is None && w.parent_process_name is None
    &&& record_defaults(w)
}

/// Watches the timestamps of the records written to the audit trail, in order, and raises a
/// warning where more than five minutes of silence separate two of them.
pub struct GapSentinel {
    last: Option<Timestamp>,
}

impl GapSentinel {
    /// The timestamp of the last record seen.
    pub closed spec fn last_seen(&self) -> Option<Timestamp> {
        self.last
    }

    /// A sentinel that has seen no record.
    pub fn new() -> (s: GapSentinel)
        ensures
            s.last_seen() is None,
    {
        GapSentinel { last: None }
    }

    /// The warning to write before a record stamped `at`: one exactly when the silence since the
    /// record before it exceeds five minutes. The record becomes the last one seen.
    pub fn observe(&mut self, at: Timestamp) -> (w: Option<LogRecord>)
        ensures
            final(self).last_seen() == Some(at),
            w is Some <==> stream_gap(old(self).last_seen(), at) is Some,
            w matches Some(r) ==> is_gap_warning(r, at, stream_gap(old(self).last_seen(), at)->0),
    {
        let res = match self.last {
            Some(prev) => {
                let gap = secs_between(&at, &prev);
                if gap > MAX_STREAM_GAP_SECS {
                    Some(gap_warning(at, gap))
                } else {
                    None
                }
            }
            None => None,
        };
        self.last = Some(at);
        res
    }

    /// The warnings to write before each of the records stamped `times`, in order, as
    /// [`GapSentinel::observe`] gives them one record after another.
    pub fn observe_all(&mut self, times: &Vec<Timestamp>) -> (ws: Vec<Option<LogRecord>>)
        ensures
            ws@.len() == times@.len(),
            forall|i: int| 0 <= i < times@.len() ==> {
                let prev = if i == 0 { old(self).last_seen() } else { Some(times@[i - 1]) };
                &&& (#[trigger] ws@[i] is Some <==> stream_gap(prev, times@[i]) is Some)
                &&& (ws@[i] matches Some(r) ==> is_gap_warning(r, times@[i], stream_gap(prev, times@[i])->0))
            },
            final(self).last_seen() == (if times@.len() == 0 { old(self).last_seen() } else { Some(times@.last()) }),
    {
        let mut ws: Vec<Option<LogRecord>> = Vec::new();
        let mut i: usize = 0;
        while i < times.len()
            invariant
                0 <= i <= times@.len(),
                ws@.len() == i,
                self.last_seen() == (if i == 0 { old(self).last_seen() } else { Some(times@[i - 1]) }),
                forall|j: int| 0 <= j < i ==> {
                    let prev = if j == 0 { old(self).last_seen() } else { Some(times@[j - 1]) };
                    &&& (#[trigger] ws@[j] is Some <==> stream_gap(prev, times@[j]) is Some)
                    &&& (ws@[j] matches Some(r) ==> is_gap_warning(r, times@[j], stream_gap(prev, times@[j])->0))
                },
            decreases times@.len() - i,
        {
            let w = self.observe(times[i]);
            ws.push(w);
            i += 1;
        }
        ws
    }
}

/// The warning record for a silence of `gap` seconds ended by a record stamped `at`.
fn gap_warning(at: Timestamp, gap: i128) -> (w: LogRecord)
    ensures
        is_gap_warning(w, at, gap as int),
{
    let g = i128_to_string(gap);
    let mut metadata = Metadata::new();
    metadata.insert(owned("computer"), owned("AEGIS_SENTINEL"));
    metadata.insert(owned("event_id"), owned("3001"));
    metadata.insert(owned("gap_seconds"), g.clone());
    let m1 = concat("⚠️ NIST AU-6: LOG DISCONTINUITY DETECTED! Gap of ", g.as_str());
    let message = concat(m1.as_str(), " seconds in forensic stream.");
    let r1 = concat("AUDIT_GAP_SENTINEL: ", g.as_str());
    let raw = concat(r1.as_str(), "s gap detected.");
    let mut w = LogRecord::blank_at(at);
    proof {
        assert(is_blank_record(w, at));
    }
    w.message = message;
    w.raw = raw;
    w.severity = Some(owned("Medium"));
    w.metadata = metadata;
    assert(w.metadata@ =~= gap_metadata(gap as int));
    w
}

/// A finding as the compliance posture sees it: the control it bears on, how the control stands,
/// and what the operator should know and do about it.
#[derive(Debug)]
pub struct PostureEvent {
    pub timestamp: Timestamp,
    pub control_id: String,
    pub status: ComplianceStatus,
    pub severity: SeverityLevel,
    pub description: String,
    pub human_title: String,
    pub human_action: String,
    pub long_description: String,
    pub remediation: String,
    pub adversary_profile: String,
    pub tactical_intent: String,
    pub attack_mechanism: String,
    pub raw_log: String,
    pub metadata: Metadata,
    /// The correlated incident, as the 128-bit value of its UUID.
    pub incident_id: Option<u128>,
}

/// The severity a record carries by name, or `fallback` where it names none of the five levels.
pub open spec fn record_severity(s: Option<String>, fallback: SeverityLevel) -> SeverityLevel {
    match s {
        Some(t) => if t@ == "Critical"@ {
            SeverityLevel::Critical
        } else if t@ == "High"@ {
            SeverityLevel::High
        } else if t@ == "Medium"@ {
            SeverityLevel::Medium
        } else if t@ == "Low"@ {
            SeverityLevel::Low
        } else if t@ == "Info"@ {
            SeverityLevel::Info
        } else {
            fallback
        },
        None => fallback,
    }
}

/// An optional narrative, or "Unknown".
pub open spec fn or_unknown(o: Option<String>) -> Seq<char> {
    match o {
        Some(s) => s@,
        None => "Unknown"@,
    }
}

/// The evidence a recorded finding already carries: its correlation, else its payload, else a
/// note that it comes from the audit history.
pub open spec fn stored_evidence(md: Map<Seq<char>, Seq<char>>) -> Seq<char> {
    match lookup2(md, "correlation_type"@, "forensic_payload"@) {
        Some(v) => v,
        None => "Historical Audit Match"@,
    }
}

/// `e` is the posture event of record `r` under mapping `m`, with `evidence` as its payload.
pub open spec fn posture_of(m: ControlMapping, r: LogRecord, evidence: Seq<char>, e: PostureEvent) -> bool {
    &&& e.timestamp == r.timestamp
    &&& e.control_id@ == m.control_id@
    &&& e.status == m.default_status
    &&& e.severity == record_severity(r.severity, m.severity)
    &&& e.description@ == r.message@
    &&& e.human_title@ == m.human_title@
    &&& e.human_action@ == m.human_action@
    &&& e.long_description@ == m.long_description@
    &&& e.remediation@ == m.remediation@
    &&& e.adversary_profile@ == or_unknown(m.adversary_profile)
    &&& e.tactical_intent@ == or_unknown(m.tactical_intent)
    &&& e.attack_mechanism@ == or_unknown(m.attack_mechanism)
    &&& e.raw_log@ == r.raw@
    &&& e.metadata@ == r.metadata@.insert("forensic_payload"@, evidence)
    &&& e.incident_id == r.incident_id
}

/// The mapping an analysed record is reported under, with the evidence: none for the privacy
/// control; the mapping with exactly its tagged control id, with the evidence it carries; else
/// whatever the signatures match now.
pub open spec fn posture_choice(rules: Seq<ControlMapping>, r: LogRecord) -> Option<(int, Seq<char>)> {
    let cid = or_empty(lookup(r.metadata@, "nist_control_id"@));
    if cid == "AU-3"@ {
        None
    } else {
        match first_with_id(rules, cid, 0) {
            Some(i) => Some((i, stored_evidence(r.metadata@))),
            None => match_spec(rules, r.metadata@, r.raw@, r.message@, r.redactions@.len() > 0),
        }
    }
}

/// `out` is what the posture view makes of the analysed record `r`.
pub open spec fn event_for(rules: Seq<ControlMapping>, r: LogRecord, out: Option<PostureEvent>) -> bool {
    match posture_choice(rules, r) {
        None => out is None,
        Some((i, ev)) => 0 <= i < rules.len() && (out matches Some(e) && posture_of(rules[i], r, ev, e)),
    }
}

/// One step of the posture view over the audit history: a bridged record is skipped; a record
/// that already bears a control id is taken as it stands; any other is analysed first (which
/// moves the engine from `w0`, `s0`, `t0` to `w1`, `s1`, `t1`), and skipped if nothing is reported.
pub open spec fn posture_step(
    rules: Seq<ControlMapping>,
    framework: ActiveFramework,
    latency_threshold: u64,
    w0: Map<Seq<char>, WmiState>,
    s0: Map<Seq<char>, (u64, Timestamp)>,
    t0: Map<u32, (Seq<char>, Option<u32>, Option<Seq<char>>)>,
    w1: Map<Seq<char>, WmiState>,
    s1: Map<Seq<char>, (u64, Timestamp)>,
    t1: Map<u32, (Seq<char>, Option<u32>, Option<Seq<char>>)>,
    r: LogRecord,
    toxic: bool,
    out: Option<PostureEvent>,
) -> bool {
    if r.bridge_hash is Some {
        w1 == w0 && s1 == s0 && t1 == t0 && out is None
    } else if or_empty(lookup(r.metadata@, "nist_control_id"@)).len() > 0 {
        w1 == w0 && s1 == s0 && t1 == t0 && event_for(rules, r, out)
    } else {
        exists|t: Timestamp, f: Option<Finding>|
            #[trigger] analysis(rules, framework, latency_threshold, w0, s0, t0, w1, s1, t1, r, t, toxic, f)
            && match f {
                None => out is None,
                Some(f) => event_for(rules, f.record, out),
            }
    }
}

fn severity_by_name(s: &Option<String>, fallback: SeverityLevel) -> (v: SeverityLevel)
    ensures
        v == record_severity(*s, fallback),
{
    match s {
        Some(t) => if str_eq(t.as_str(), "Critical") {
            SeverityLevel::Critical
        } else if str_eq(t.as_str(), "High") {
            SeverityLevel::High
        } else if str_eq(t.as_str(), "Medium") {
            SeverityLevel::Medium
        } else if str_eq(t.as_str(), "Low") {
            SeverityLevel::Low
        } else if str_eq(t.as_str(), "Info") {
            SeverityLevel::Info
        } else {
            fallback
        },
        None => fallback,
    }
}

fn unknown_if_none(o: &Option<String>) -> (s: String)
    ensures
        s@ == or_unknown(*o),
{
    match o {
        Some(t) => t.clone(),
        None => owned("Unknown"),
    }
}

/// The posture event of `r` under `m`, with `evidence` as its payload.
fn build_event(m: &ControlMapping, r: LogRecord, evidence: String) -> (e: PostureEvent)
    ensures
        posture_of(*m, r, evidence@, e),
{
    let severity = severity_by_name(&r.severity, m.severity);
    let mut metadata = r.metadata;
    metadata.insert(owned("forensic_payload"), evidence);
    PostureEvent {
        timestamp: r.timestamp,
        control_id: m.control_id.clone(),
        status: m.default_status,
        severity,
        description: r.message,
        human_title: m.human_title.clone(),
        human_action: m.human_action.clone(),
        long_description: m.long_description.clone(),
        remediation: m.remediation.clone(),
        adversary_profile: unknown_if_none(&m.adversary_profile),
        tactical_intent: unknown_if_none(&m.tactical_intent),
        attack_mechanism: unknown_if_none(&m.attack_mechanism),
        raw_log: r.raw,
        metadata,
        incident_id: r.incident_id,
    }
}

impl NistEngine {
    /// The posture event of an analysed record, if it is reported at all.
    pub fn posture_event_of(&self, r: LogRecord) -> (out: Option<PostureEvent>)
        ensures
            event_for(self.rules(), r, out),
    {
        let cid = r.metadata.get_or_empty("nist_control_id");
        if str_eq(cid.as_str(), "AU-3") {
            return None;
        }
        match self.index_with_id(cid.as_str()) {
            Some(i) => {
                let evidence = match r.metadata.get_either("correlation_type", "forensic_payload") {
                    Some(v) => v,
                    None => owned("Historical Audit Match"),
                };
                Some(build_event(self.rule_at(i), r, evidence))
            }
            None => {
                let hit = self.match_parts(&r.metadata, r.raw.as_str(), r.message.as_str(), r.redactions.len() > 0);
                match hit {
                    Some((i, evidence)) => Some(build_event(self.rule_at(i), r, evidence)),
                    None => None,
                }
            }
        }
    }

    /// What the posture view makes of one record of the audit history; `toxicity_breach` is the
    /// record's AI toxicity triage, used where the record has to be analysed.
    pub fn posture_event(&mut self, r: LogRecord, toxicity_breach: bool) -> (out: Option<PostureEvent>)
        ensures
            posture_step(old(self).rules(), old(self).framework(), old(self).latency_threshold(),
                old(self).wmi(), old(self).signals(), old(self).tree(), final(self).wmi(), final(self).signals(),
                final(self).tree(), r, toxicity_breach, out),
            final(self).rules() == old(self).rules(),
            final(self).framework() == old(self).framework(),
            final(self).latency_threshold() == old(self).latency_threshold(),
    {
        if r.bridge_hash.is_some() {
            return None;
        }
        let cid = r.metadata.get_or_empty("nist_control_id");
        if !str_eq(cid.as_str(), "") {
            proof {
                reveal_strlit("");
                if cid@.len() == 0 {
                    assert(cid@ =~= ""@);
                }
            }
            return self.posture_event_of(r);
        }
        proof {
            reveal_strlit("");
        }
        let ghost r0 = r;
        let res = self.analyze_record(r, toxicity_breach);
        let ghost f0 = res;
        let out = match res {
            None => None,
            Some(f) => self.posture_event_of(f.record),
        };
        proof {
            let t = choose|t: Timestamp| #[trigger] analysis(old(self).rules(), old(self).framework(), old(self).latency_threshold(),
                old(self).wmi(), old(self).signals(), old(self).tree(), self.wmi(), self.signals(), self.tree(),
                r0, t, toxicity_breach, f0);
            assert(analysis(old(self).rules(), old(self).framework(), old(self).latency_threshold(),
                old(self).wmi(), old(self).signals(), old(self).tree(), self.wmi(), self.signals(), self.tree(),
                r0, t, toxicity_breach, f0) && match f0 {
                    None => out is None,
                    Some(f) => event_for(old(self).rules(), f.record, out),
                });
        }
        out
    }
}

/// The events among the outcomes, in order.
pub open spec fn present_events(outs: Seq<Option<PostureEvent>>) -> Seq<PostureEvent>
    decreases outs.len(),
{
    if outs.len() == 0 {
        Seq::empty()
    } else {
        let rest = present_events(outs.drop_last());
        match outs.last() {
            Some(e) => rest.push(e),
            None => rest,
        }
    }
}

/// Successive posture steps over the audit history: step `i` takes the engine from state `i` to
/// state `i + 1` with outcome `outs[i]` for record `i`.
pub open spec fn posture_steps(
    rules: Seq<ControlMapping>,
    framework: ActiveFramework,
    latency_threshold: u64,
    ws: Seq<Map<Seq<char>, WmiState>>,
    ss: Seq<Map<Seq<char>, (u64, Timestamp)>>,
    ts: Seq<Map<u32, (Seq<char>, Option<u32>, Option<Seq<char>>)>>,
    history: Seq<(LogRecord, bool)>,
    outs: Seq<Option<PostureEvent>>,
) -> bool {
    &&& ws.len() == history.len() + 1 && ss.len() == history.len() + 1 && ts.len() == history.len() + 1
    &&& outs.len() == history.len()
    &&& forall|i: int| 0 <= i < history.len() ==> #[trigger] posture_step(rules, framework, latency_threshold,
        ws[i], ss[i], ts[i], ws[i + 1], ss[i + 1], ts[i + 1], history[i].0, history[i].1, outs[i])
}

/// The posture events of an audit history, oldest first: each record with its AI toxicity triage
/// goes through [`NistEngine::posture_event`], and the events reported are kept in order.
pub fn get_posture_events(engine: &mut NistEngine, history: Vec<(LogRecord, bool)>) -> (events: Vec<PostureEvent>)
    ensures
        exists|ws: Seq<Map<Seq<char>, WmiState>>, ss: Seq<Map<Seq<char>, (u64, Timestamp)>>,
            ts: Seq<Map<u32, (Seq<char>, Option<u32>, Option<Seq<char>>)>>, outs: Seq<Option<PostureEvent>>|
            #[trigger] posture_steps(old(engine).rules(), old(engine).framework(), old(engine).latency_threshold(),
                ws, ss, ts, history@, outs)
            && ws[0] == old(engine).wmi() && ss[0] == old(engine).signals() && ts[0] == old(engine).tree()
            && ws.last() == final(engine).wmi() && ss.last() == final(engine).signals() && ts.last() == final(engine).tree()
            && events@ == present_events(outs),
        final(engine).rules() == old(engine).rules(),
        final(engine).framework() == old(engine).framework(),
        final(engine).latency_threshold() == old(engine).latency_threshold(),
{
    let ghost h0 = history@;
    let ghost mut ws: Seq<Map<Seq<char>, WmiState>> = seq![engine.wmi()];
    let ghost mut ss: Seq<Map<Seq<char>, (u64, Timestamp)>> = seq![engine.signals()];
    let ghost mut ts: Seq<Map<u32, (Seq<char>, Option<u32>, Option<Seq<char>>)>> = seq![engine.tree()];
    let ghost mut outs: Seq<Option<PostureEvent>> = Seq::empty();
    let mut history = history;
    let _n: usize = history.len();
    let mut events: Vec<PostureEvent> = Vec::new();
    let mut k: usize = 0;
    while history.len() > 0
        invariant
            h0.len() == k + history@.len(),
            history@ == h0.subrange(k as int, h0.len() as int),
            posture_steps(old(engine).rules(), old(engine).framework(), old(engine).latency_threshold(), ws, ss, ts,
                h0.subrange(0, k as int), outs),
            ws.last() == engine.wmi() && ss.last() == engine.signals() && ts.last() == engine.tree(),
            ws[0] == old(engine).wmi() && ss[0] == old(engine).signals() && ts[0] == old(engine).tree(),
            events@ == present_events(outs),
            h0.len() <= usize::MAX,
            engine.rules() == old(engine).rules(),
            engine.framework() == old(engine).framework(),
            engine.latency_threshold() == old(engine).latency_threshold(),
        decreases history@.len(),
    {
        let (record, toxic) = history.remove(0);
        let out = engine.posture_event(record, toxic);
        proof {
            let old_outs = outs;
            ws = ws.push(engine.wmi());
            ss = ss.push(engine.signals());
            ts = ts.push(engine.tree());
            outs = outs.push(out);
            let pre = h0.subrange(0, k as int);
            let nh = h0.subrange(0, k + 1);
            assert(nh =~= pre.push(h0[k as int]));
            assert forall|i: int| 0 <= i < nh.len() implies #[trigger] posture_step(old(engine).rules(),
                old(engine).framework(), old(engine).latency_threshold(), ws[i], ss[i], ts[i], ws[i + 1], ss[i + 1],
                ts[i + 1], nh[i].0, nh[i].1, outs[i]) by {
                if i < k {
                    assert(nh[i] == pre[i]);
                }
            }
            assert(outs.drop_last() =~= old_outs);
        }
        match out {
            Some(e) => events.push(e),
            None => {}
        }
        k += 1;
    }
    proof {
        assert(h0.subrange(0, k as int) =~= h0);
    }
    events
}

/// A finding of high or critical severity.
pub open spec fn is_threat(e: PostureEvent) -> bool {
    e.severity == SeverityLevel::High || e.severity == SeverityLevel::Critical
}

/// Text that, in any case, speaks of isolating, freezing or containing, of compromise, of
/// zero trust, or of a proxy.
pub open spec fn alarm_words(t: Seq<char>) -> bool {
    let l = lowercase(t);
    seq_contains(l, "isolate"@) || seq_contains(l, "freeze"@) || seq_contains(l, "contain"@)
        || seq_contains(l, "compromised"@) || seq_contains(l, "zero-trust"@) || seq_contains(l, "proxy"@)
}

/// A finding whose description, action or remediation calls for containment, whatever its
/// severity.
pub open spec fn calls_for_containment(e: PostureEvent) -> bool {
    alarm_words(e.description@) || alarm_words(e.human_action@) || alarm_words(e.remediation@)
}

/// Some finding is a threat.
pub open spec fn some_threat(es: Seq<PostureEvent>) -> bool {
    exists|i: int| 0 <= i < es.len() && is_threat(#[trigger] es[i])
}

/// Some finding calls for containment.
pub open spec fn some_containment(es: Seq<PostureEvent>) -> bool {
    exists|i: int| 0 <= i < es.len() && calls_for_containment(#[trigger] es[i])
}

/// Some finding is of medium severity.
pub open spec fn some_warning(es: Seq<PostureEvent>) -> bool {
    exists|i: int| 0 <= i < es.len() && (#[trigger] es[i]).severity == SeverityLevel::Medium
}

/// The compliance manifest finds the posture non-compliant: a threat, or a finding that calls
/// for containment.
pub open spec fn posture_breached(es: Seq<PostureEvent>) -> bool {
    some_threat(es) || some_containment(es)
}

/// The commander's brief finds the system compromised: a breached posture, or any lineage anomaly.
pub open spec fn system_compromised(es: Seq<PostureEvent>, anomalies: nat) -> bool {
    some_threat(es) || anomalies > 0 || some_containment(es)
}

/// Position of the most severe of the first `n` findings; the last of them where several are
/// equally severe.
pub open spec fn top_index(es: Seq<PostureEvent>, n: int) -> int
    decreases n,
{
    if n <= 1 {
        0
    } else {
        let b = top_index(es, n - 1);
        if sev_rank(es[n - 1].severity) >= sev_rank(es[b].severity) { n - 1 } else { b }
    }
}

proof fn lemma_top_index(es: Seq<PostureEvent>, n: int)
    requires
        1 <= n <= es.len(),
    ensures
        0 <= top_index(es, n) < n,
        forall|j: int| 0 <= j < n ==> sev_rank(#[trigger] es[j].severity) <= sev_rank(es[top_index(es, n)].severity),
        forall|j: int| top_index(es, n) < j < n ==> sev_rank(#[trigger] es[j].severity) < sev_rank(es[top_index(es, n)].severity),
    decreases n,
{
    if n > 1 {
        lemma_top_index(es, n - 1);
    }
}

/// Whether a finding is a threat.
pub fn threat(e: &PostureEvent) -> (b: bool)
    ensures
        b == is_threat(*e),
{
    match e.severity {
        SeverityLevel::High | SeverityLevel::Critical => true,
        _ => false,
    }
}

fn has_alarm_words(t: &str) -> (b: bool)
    ensures
        b == alarm_words(t@),
{
    let l = to_lowercase(t);
    let s = l.as_str();
    str_contains(s, "isolate") || str_contains(s, "freeze") || str_contains(s, "contain")
        || str_contains(s, "compromised") || str_contains(s, "zero-trust") || str_contains(s, "proxy")
}

/// Whether a finding calls for containment.
pub fn containment_called(e: &PostureEvent) -> (b: bool)
    ensures
        b == calls_for_containment(*e),
{
    has_alarm_words(e.description.as_str()) || has_alarm_words(e.human_action.as_str())
        || has_alarm_words(e.remediation.as_str())
}

/// Whether any finding is a threat, calls for containment, or is a medium-severity warning.
fn survey(es: &Vec<PostureEvent>) -> (r: (bool, bool, bool))
    ensures
        r.0 == some_threat(es@),
        r.1 == some_containment(es@),
        r.2 == some_warning(es@),
{
    let mut threat_seen = false;
    let mut containment_seen = false;
    let mut warning_seen = false;
    let mut i: usize = 0;
    while i < es.len()
        invariant
            0 <= i <= es@.len(),
            threat_seen == exists|j: int| 0 <= j < i && is_threat(#[trigger] es@[j]),
            containment_seen == exists|j: int| 0 <= j < i && calls_for_containment(#[trigger] es@[j]),
            warning_seen == exists|j: int| 0 <= j < i && (#[trigger] es@[j]).severity == SeverityLevel::Medium,
        decreases es@.len() - i,
    {
        let e = &es[i];
        if threat(e) {
            threat_seen = true;
        }
        if containment_called(e) {
            containment_seen = true;
        }
        if e.severity == SeverityLevel::Medium {
            warning_seen = true;
        }
        i += 1;
    }
    (threat_seen, containment_seen, warning_seen)
}

/// Whether the findings put the posture out of compliance.
pub fn breached(es: &Vec<PostureEvent>) -> (b: bool)
    ensures
        b == posture_breached(es@),
{
    let (t, c, _w) = survey(es);
    t || c
}

/// The most severe finding, the last of them where several are equally severe.
pub fn top_event(es: &Vec<PostureEvent>) -> (r: Option<usize>)
    ensures
        r is None <==> es@.len() == 0,
        r matches Some(i) ==> i as int == top_index(es@, es@.len() as int) && i < es@.len(),
{
    if es.len() == 0 {
        return None;
    }
    let mut best: usize = 0;
    let mut i: usize = 1;
    while i < es.len()
        invariant
            1 <= i <= es@.len(),
            best as int == top_index(es@, i as int),
            best < i,
        decreases es@.len() - i,
    {
        if es[i].severity.rank() >= es[best].severity.rank() {
            best = i;
        }
        i += 1;
    }
    Some(best)
}

/// The file name of an artifact path, or the whole path where it has none.
fn artifact_name(path: &str) -> (n: String)
    ensures
        n@ == basename(path@),
{
    match path_file_name(path) {
        Some(b) => b,
        None => owned(path),
    }
}

/// The heading of the compliance manifest.
pub open spec fn manifest_head(date: Seq<char>, now: Seq<char>, breach: bool, name: Seq<char>) -> Seq<char> {
    "# 🛡️ NIST 800-53r5 FORENSIC COMPLIANCE MANIFEST\n**MISSION ID**: "@ + date
        + "-PENTAD\n**TIMESTAMP**: "@ + now
        + "\n**STATUS**: "@ + (if breach { "🔴 NON-COMPLIANT"@ } else { "🟢 COMPLIANT"@ })
        + "\n**REGULATORY BASELINE**: NIST SP 800-53 Rev 5 (High)\n**SCANNED ARTIFACT**: `"@ + name
        + "`\n---\n\n"@
}

/// The event-logging section of the manifest.
pub open spec fn manifest_au2(artifact: Seq<char>) -> Seq<char> {
    "## [AU-2] EVENT LOGGING\n\n| Control Attribute | Operational Evidence |\n| :--- | :--- |\n| Source Artifact | `"@
        + artifact
        + "` |\n| Data Integrity | SHA-256 Verified (AU-9 Alignment) |\n| Capture Node | Aegis-Forensic-Sentinel-01 |\n\n"@
}

/// The record-content and review sections of the manifest, and the heading of its monitoring
/// section.
pub open spec fn manifest_fixed() -> Seq<char> {
    "## [AU-3] CONTENT OF AUDIT RECORDS\n\n* **Fidelity Verification**: All records contain mandatory fields (Timestamp, Source, Target, Identity, Outcome).\n* **Audit Depth**: Full packet/log header reconstruction enabled.\n\n## [AU-6] AUDIT RECORD REVIEW, ANALYSIS, AND REPORTING\n\n* **Automation Logic**: Heuristic Signature Engine V9.2 + AI Synthesis.\n* **Analysis Status**: 100% Automated Coverage achieved for forensic window.\n\n## [SI-4] SYSTEM MONITORING\n\n"@
}

/// The monitoring status of the manifest when nothing was found.
pub open spec fn manifest_nominal() -> Seq<char> {
    "* **Status**: ✅ COMPLIANT\n* **Detection Logic**: Active Baseline Monitoring (Passive)\n* **Severity Level**: INFO\n* **Regulatory Note**: System monitoring must detect unauthorized use. Current state is nominal.\n\n"@
}

/// The control a finding is mapped to: its tagged control id, else its own.
pub open spec fn mapped_control(e: PostureEvent) -> Seq<char> {
    match lookup(e.metadata@, "nist_control_id"@) {
        Some(v) => v,
        None => e.control_id@,
    }
}

/// The monitoring status of the manifest for the most severe finding `e`.
pub open spec fn manifest_observed(e: PostureEvent, breach: bool) -> Seq<char> {
    "* **Status**: "@ + (if breach { "🔴 NON-COMPLIANT"@ } else { "🟡 OBSERVATION"@ })
        + "\n* **Detection Logic**: Heuristic Signature Match ["@ + e.control_id@
        + "]\n* **Severity Level**: "@ + sev_name(e.severity)
        + "\n* **Regulatory Note**: System monitoring must detect unauthorized use. Current event mapping: "@
        + mapped_control(e) + "\n\n"@
}

/// The integrity and record-generation sections of the manifest, and its certification.
pub open spec fn manifest_tail(signals: nat) -> Seq<char> {
    "## [SI-7] SOFTWARE, FIRMWARE, AND INFORMATION INTEGRITY\n\n| Component | Integrity Fingerprint (SHA-256) | Status |\n| :--- | :--- | :--- |\n| Aegis Engine | `8f2a...c931` | ✅ VERIFIED |\n| Forensic Config | `4d1b...e822` | ✅ VERIFIED |\n\n## [AU-12] AUDIT RECORD GENERATION\n\n* **Throughput Metrics**: "@
        + (if signals > 0 { "120.00"@ } else { "0.00"@ })
        + " SPM (Signals Per Minute)\n* **Total Signals Ingested**: "@ + decimal(signals)
        + "\n\n---\n\n**CERTIFICATION**: ISSO_AUDIT_SIG_V9\n\n> [!CAUTION]\n> **[WARNING - AU-11 COMPLIANCE]**: Aegis operates as a stateless analyzer. It does not provide long-term storage. To maintain NIST AU-11 compliance, the operator is strictly responsible for moving the generated forensic ledgers (.jsonl / .gz) from the output directory to an immutable WORM storage vault immediately following this audit.\n"@
}

/// The NIST 800-53 compliance manifest for the findings `es` of the artifact at `artifact`,
/// dated `date` and stamped `now`.
pub open spec fn manifest_text(es: Seq<PostureEvent>, artifact: Seq<char>, date: Seq<char>, now: Seq<char>) -> Seq<char> {
    let breach = posture_breached(es);
    manifest_head(date, now, breach, basename(artifact)) + manifest_au2(artifact) + manifest_fixed()
        + (if es.len() == 0 { manifest_nominal() } else { manifest_observed(es[top_index(es, es.len() as int)], breach) })
        + manifest_tail(es.len())
}

fn manifest_observed_text(e: &PostureEvent, breach: bool) -> (s: String)
    ensures
        s@ == manifest_observed(*e, breach),
{
    let mut s = owned("* **Status**: ");
    append(&mut s, if breach { "🔴 NON-COMPLIANT" } else { "🟡 OBSERVATION" });
    append(&mut s, "\n* **Detection Logic**: Heuristic Signature Match [");
    append(&mut s, e.control_id.as_str());
    append(&mut s, "]\n* **Severity Level**: ");
    let sev = e.severity.name();
    append(&mut s, sev.as_str());
    append(&mut s, "\n* **Regulatory Note**: System monitoring must detect unauthorized use. Current event mapping: ");
    let control = match e.metadata.get_owned("nist_control_id") {
        Some(v) => v,
        None => e.control_id.clone(),
    };
    append(&mut s, control.as_str());
    append(&mut s, "\n\n");
    s
}

/// The compliance manifest, rendered with the given date and time texts.
fn manifest_with(es: &Vec<PostureEvent>, source_artifact: &str, date: &str, now_text: &str) -> (s: String)
    ensures
        s@ == manifest_text(es@, source_artifact@, date@, now_text@),
{
    let breach = breached(es);
    let name = artifact_name(source_artifact);
    let mut s = owned("# 🛡️ NIST 800-53r5 FORENSIC COMPLIANCE MANIFEST\n**MISSION ID**: ");
    append(&mut s, date);
    append(&mut s, "-PENTAD\n**TIMESTAMP**: ");
    append(&mut s, now_text);
    append(&mut s, "\n**STATUS**: ");
    append(&mut s, if breach { "🔴 NON-COMPLIANT" } else { "🟢 COMPLIANT" });
    append(&mut s, "\n**REGULATORY BASELINE**: NIST SP 800-53 Rev 5 (High)\n**SCANNED ARTIFACT**: `");
    append(&mut s, name.as_str());
    append(&mut s, "`\n---\n\n");
    let mut au2 = owned("## [AU-2] EVENT LOGGING\n\n| Control Attribute | Operational Evidence |\n| :--- | :--- |\n| Source Artifact | `");
    append(&mut au2, source_artifact);
    append(&mut au2, "` |\n| Data Integrity | SHA-256 Verified (AU-9 Alignment) |\n| Capture Node | Aegis-Forensic-Sentinel-01 |\n\n");
    append(&mut s, au2.as_str());
    append(&mut s, "## [AU-3] CONTENT OF AUDIT RECORDS\n\n* **Fidelity Verification**: All records contain mandatory fields (Timestamp, Source, Target, Identity, Outcome).\n* **Audit Depth**: Full packet/log header reconstruction enabled.\n\n## [AU-6] AUDIT RECORD REVIEW, ANALYSIS, AND REPORTING\n\n* **Automation Logic**: Heuristic Signature Engine V9.2 + AI Synthesis.\n* **Analysis Status**: 100% Automated Coverage achieved for forensic window.\n\n## [SI-4] SYSTEM MONITORING\n\n");
    let top = top_event(es);
    match top {
        None => {
            append(&mut s, "* **Status**: ✅ COMPLIANT\n* **Detection Logic**: Active Baseline Monitoring (Passive)\n* **Severity Level**: INFO\n* **Regulatory Note**: System monitoring must detect unauthorized use. Current state is nominal.\n\n");
        }
        Some(i) => {
            let part = manifest_observed_text(&es[i], breach);
            append(&mut s, part.as_str());
        }
    }
    let n = es.len() as u64;
    let mut tail = owned("## [SI-7] SOFTWARE, FIRMWARE, AND INFORMATION INTEGRITY\n\n| Component | Integrity Fingerprint (SHA-256) | Status |\n| :--- | :--- | :--- |\n| Aegis Engine | `8f2a...c931` | ✅ VERIFIED |\n| Forensic Config | `4d1b...e822` | ✅ VERIFIED |\n\n## [AU-12] AUDIT RECORD GENERATION\n\n* **Throughput Metrics**: ");
    append(&mut tail, if n > 0 { "120.00" } else { "0.00" });
    append(&mut tail, " SPM (Signals Per Minute)\n* **Total Signals Ingested**: ");
    let count = u64_to_string(n);
    append(&mut tail, count.as_str());
    append(&mut tail, "\n\n---\n\n**CERTIFICATION**: ISSO_AUDIT_SIG_V9\n\n> [!CAUTION]\n> **[WARNING - AU-11 COMPLIANCE]**: Aegis operates as a stateless analyzer. It does not provide long-term storage. To maintain NIST AU-11 compliance, the operator is strictly responsible for moving the generated forensic ledgers (.jsonl / .gz) from the output directory to an immutable WORM storage vault immediately following this audit.\n");
    append(&mut s, tail.as_str());
    s
}

/// The NIST 800-53 compliance manifest for the findings of the artifact at `source_artifact`,
/// dated and stamped with the current local time. The date and time texts depend on the clock
/// and the machine's time zone; everything else is as [`manifest_text`] says.
pub fn generate_manifest(es: &Vec<PostureEvent>, source_artifact: &str) -> (s: String)
    ensures
        exists|date: Seq<char>, now_text: Seq<char>| s@ == #[trigger] manifest_text(es@, source_artifact@, date, now_text),
{
    let t = now();
    let date = format_local(&t, "%Y%m%d");
    let now_text = format_local(&t, "%Y-%m-%dT%H:%M:%SZ");
    manifest_with(es, source_artifact, date.as_str(), now_text.as_str())
}

/// The brief's verdict on the system: compromised, a zero-trust warning, or safe.
pub open spec fn status_label(compromised: bool, warning: bool) -> Seq<char> {
    if compromised {
        "🔴 COMPROMISED"@
    } else if warning {
        "🟡 WARNING (ZERO-TRUST)"@
    } else {
        "🟢 SAFE"@
    }
}

/// The heading of the commander's brief.
#[verifier::opaque]
pub open spec fn brief_head(offline: bool, label: Seq<char>, now: Seq<char>, name: Seq<char>, correlations: u64) -> Seq<char> {
    if offline {
        "--- 🛡️ AEGIS COMMANDER'S TACTICAL BRIEF [OFFLINE MODE] ---\nSTATUS: "@ + label + "\nTIMESTAMP: "@ + now
            + "\nSCANNED ARTIFACT: "@ + name
            + "\nMODE: LOCAL ANALYSIS ONLY (NIST AU-2 Alignment)\nCORRELATED CROSS-VECTOR EVENTS: "@
            + decimal(correlations as nat)
            + "\n----------------------------------------------------------------\n\n> [!WARNING]\n> **SIGNAL LOSS**: AI-driven tactical synthesis is currently unavailable. \n> The following SITREP contains raw forensic statistics and deterministic rule matches only.\n\n"@
    } else {
        "--- 🛡️ AEGIS COMMANDER'S TACTICAL BRIEF ---\nSTATUS: "@ + label + "\nTIMESTAMP: "@ + now
            + "\nSCANNED ARTIFACT: "@ + name + "\nFIDELITY: 100% (CERTIFIED)\nCORRELATED CROSS-VECTOR EVENTS: "@
            + decimal(correlations as nat)
            + "\n----------------------------------------------------------------\n\n"@
    }
}

/// The AI synopsis section: present only online, and only when a synopsis was obtained.
pub open spec fn brief_ai(offline: bool, ai: Option<Seq<char>>) -> Seq<char> {
    if offline {
        Seq::empty()
    } else {
        match ai {
            Some(b) => "## 🧠 AI AUGMENTED SITREP\n> [!NOTE]\n> **AI SYNOPSIS ACTIVE**: "@ + b + "\n\n"@,
            None => Seq::empty(),
        }
    }
}

/// What is handed to the AI synopsis: the most severe finding and the number of lineage anomalies.
pub open spec fn telemetry_text(es: Seq<PostureEvent>, anomalies: nat) -> Seq<char> {
    (if es.len() > 0 {
        let e = es[top_index(es, es.len() as int)];
        "Event: "@ + e.human_title@ + ". Severity: "@ + sev_name(e.severity) + ". Impact: "@ + e.tactical_intent@ + ". "@
    } else {
        Seq::empty()
    }) + (if anomalies > 0 { "Detected "@ + decimal(anomalies) + " lineage anomalies."@ } else { Seq::empty() })
}

/// Sections one to five of the brief, on the most severe finding `e`, detected at `detected`.
pub open spec fn brief_profile(e: PostureEvent, compromised: bool, name: Seq<char>, detected: Seq<char>) -> Seq<char> {
    "## 1. [WHO] ADVERSARY PROFILE\n* **Tool/Actor**: "@ + e.adversary_profile@
        + "\n* **Classification**: "@ + (if compromised { "Hostile Threat Actor"@ } else { "Neutral/Internal Event"@ })
        + "\n\n## 2. [WHEN] FORENSIC WINDOW\n* **Initial Detection**: "@ + detected
        + "\n* **Event Duration**: 0.004s (Engine Match Time)\n\n## 3. [WHERE] INFILTRATION POINT\n* **Origin**: Internal Node (Pivot Path Detected)\n* **Target Artifact**: "@
        + name + "\n\n## 4. [WHY] TACTICAL INTENT & IMPACT\n* **Objective**: "@ + e.tactical_intent@
        + "\n* **NIST Risk**: "@ + (if compromised { "CRITICAL"@ } else { "LOW"@ })
        + " (SI-4 / SC-7)\n\n## 🛡️ What You Need To Do\n> [!IMPORTANT]\n> **IMMEDIATE ACTION**: "@
        + e.remediation@ + "\n\n"@
}

/// One row of the anomaly table, for an anomaly observed at `time`.
pub open spec fn anomaly_row(a: LineageAnomaly, time: Seq<char>) -> Seq<char> {
    "| "@ + time + " | "@ + a.parent_image@ + " ("@ + decimal(a.parent_pid as nat) + ") | "@ + a.child_image@ + " ("@
        + decimal(a.child_pid as nat) + ") | "@ + sev_name(a.severity) + " | "@ + a.description@ + " |\n"@
}

/// The rows of the first `n` anomalies.
pub open spec fn anomaly_rows(an: Seq<LineageAnomaly>, times: Seq<Seq<char>>, n: int) -> Seq<char>
    decreases n,
{
    if n <= 0 {
        Seq::empty()
    } else {
        anomaly_rows(an, times, n - 1) + anomaly_row(an[n - 1], times[n - 1])
    }
}

/// How many anomalies the brief tabulates: at most ten.
pub open spec fn tabulated(n: nat) -> int {
    if n < 10 { n as int } else { 10 }
}

/// Section seven of the brief: the table of lineage anomalies.
pub open spec fn brief_anomalies(an: Seq<LineageAnomaly>, times: Seq<Seq<char>>) -> Seq<char> {
    "## 7. [PROVENANCE] PROCESS LINEAGE ANOMALIES\n> [!CAUTION]\n> **ANOMALOUS PARENT-CHILD RELATIONSHIPS DETECTED**\n\n| Timestamp | Parent | Child | Severity | Description |\n| :--- | :--- | :--- | :--- | :--- |\n"@
        + anomaly_rows(an, times, tabulated(an.len())) + "\n"@
}

/// The compliance word for a compromised or sound system.
pub open spec fn gate_word(compromised: bool) -> Seq<char> {
    if compromised { "NON-COMPLIANT"@ } else { "COMPLIANT"@ }
}

/// Section six of the brief and its compliance gate, on the most severe finding `e`.
pub open spec fn brief_mechanism(e: PostureEvent, compromised: bool) -> Seq<char> {
    "## 6. [HOW] ATTACK MECHANISM & CONTEXT\n* **Attack Type**: "@ + e.human_title@ + "\n* **Mechanism**: "@
        + e.attack_mechanism@ + "\n\n### ⚖️ REGULATORY COMPLIANCE GATE\n* **CONTROL [SI-4]**: "@ + gate_word(compromised)
        + " - System monitoring must detect unauthorized use.\n* **CONTROL [SC-7]**: "@ + gate_word(compromised)
        + " - Boundary Protection triggered.\n\n"@
}

/// The compliance gate when only lineage anomalies were found.
pub open spec fn brief_anomaly_gate() -> Seq<char> {
    "### ⚖️ REGULATORY COMPLIANCE GATE\n* **CONTROL [SI-4]**: NON-COMPLIANT - Anomalous process lineage detected.\n* **CONTROL [AU-6]**: NON-COMPLIANT - Forensic anomalies require immediate review.\n\n"@
}

/// The body of the brief when nothing was found.
pub open spec fn brief_operational() -> Seq<char> {
    "## STATUS: OPERATIONAL\n\nNo active threats detected in the current forensic window. System posture remains compliant.\n"@
}

/// The body of the brief.
#[verifier::opaque]
pub open spec fn brief_body(
    es: Seq<PostureEvent>,
    an: Seq<LineageAnomaly>,
    compromised: bool,
    name: Seq<char>,
    detected: Seq<char>,
    times: Seq<Seq<char>>,
) -> Seq<char> {
    if es.len() == 0 && an.len() == 0 {
        brief_operational()
    } else {
        let e = es[top_index(es, es.len() as int)];
        (if es.len() > 0 { brief_profile(e, compromised, name, detected) } else { Seq::empty() })
            + (if an.len() > 0 { brief_anomalies(an, times) } else { Seq::empty() })
            + (if es.len() > 0 { brief_mechanism(e, compromised) } else { brief_anomaly_gate() })
    }
}

/// The closing lines of the brief.
pub open spec fn brief_footer(offline: bool) -> Seq<char> {
    "----------------------------------------------------------------\n**AUTHENTICATION**: AEGIS_CORE_02 // ISSO_"@
        + (if offline { "LOCAL_V9"@ } else { "ADVISOR_V9"@ }) + "\n--- END OF BRIEF ---"@
}

/// The commander's tactical brief on the findings `es` and lineage anomalies `an` of the artifact
/// at `artifact`, stamped `now`, with the most severe finding detected at `detected` and the
/// tabulated anomalies observed at `times`.
pub open spec fn brief_text(
    es: Seq<PostureEvent>,
    an: Seq<LineageAnomaly>,
    correlations: u64,
    offline: bool,
    artifact: Seq<char>,
    ai: Option<Seq<char>>,
    now: Seq<char>,
    detected: Seq<char>,
    times: Seq<Seq<char>>,
) -> Seq<char> {
    let compromised = system_compromised(es, an.len());
    let name = basename(artifact);
    brief_head(offline, status_label(compromised, some_warning(es)), now, name, correlations) + brief_ai(offline, ai)
        + brief_body(es, an, compromised, name, detected, times) + brief_footer(offline)
}

/// What the AI synopsis is asked to summarise: the most severe finding and the number of lineage
/// anomalies.
pub fn telemetry_summary(es: &Vec<PostureEvent>, anomalies: usize) -> (s: String)
    ensures
        s@ == telemetry_text(es@, anomalies as nat),
{
    let mut s = String::new();
    proof {
        reveal_strlit("");
        assert(s@ =~= Seq::<char>::empty());
    }
    let top = top_event(es);
    match top {
        Some(i) => {
            let e = &es[i];
            append(&mut s, "Event: ");
            append(&mut s, e.human_title.as_str());
            append(&mut s, ". Severity: ");
            let sev = e.severity.name();
            append(&mut s, sev.as_str());
            append(&mut s, ". Impact: ");
            append(&mut s, e.tactical_intent.as_str());
            append(&mut s, ". ");
        }
        None => {}
    }
    if anomalies > 0 {
        append(&mut s, "Detected ");
        let n = u64_to_string(anomalies as u64);
        append(&mut s, n.as_str());
        append(&mut s, " lineage anomalies.");
    }
    proof {
        if es@.len() == 0 {
            assert(s@ =~= telemetry_text(es@, anomalies as nat));
        }
    }
    s
}

fn anomaly_row_text(a: &LineageAnomaly, time: &str) -> (s: String)
    ensures
        s@ == anomaly_row(*a, time@),
{
    let mut s = owned("| ");
    append(&mut s, time);
    append(&mut s, " | ");
    append(&mut s, a.parent_image.as_str());
    append(&mut s, " (");
    let p = u64_to_string(a.parent_pid as u64);
    append(&mut s, p.as_str());
    append(&mut s, ") | ");
    append(&mut s, a.child_image.as_str());
    append(&mut s, " (");
    let c = u64_to_string(a.child_pid as u64);
    append(&mut s, c.as_str());
    append(&mut s, ") | ");
    let sev = a.severity.name();
    append(&mut s, sev.as_str());
    append(&mut s, " | ");
    append(&mut s, a.description.as_str());
    append(&mut s, " |\n");
    s
}

proof fn lemma_rows_prefix(an: Seq<LineageAnomaly>, t1: Seq<Seq<char>>, t2: Seq<Seq<char>>, n: int)
    requires
        0 <= n <= t1.len(),
        n <= t2.len(),
        forall|j: int| 0 <= j < n ==> t1[j] == t2[j],
    ensures
        anomaly_rows(an, t1, n) == anomaly_rows(an, t2, n),
    decreases n,
{
    if n > 0 {
        lemma_rows_prefix(an, t1, t2, n - 1);
    }
}

fn brief_head_text(offline: bool, label: &str, now_text: &str, name: &str, correlations: u64) -> (s: String)
    ensures
        s@ == brief_head(offline, label@, now_text@, name@, correlations),
{
    reveal(brief_head);
    let corr = u64_to_string(correlations);
    if offline {
        let mut s = owned("--- 🛡️ AEGIS COMMANDER'S TACTICAL BRIEF [OFFLINE MODE] ---\nSTATUS: ");
        append(&mut s, label);
        append(&mut s, "\nTIMESTAMP: ");
        append(&mut s, now_text);
        append(&mut s, "\nSCANNED ARTIFACT: ");
        append(&mut s, name);
        append(&mut s, "\nMODE: LOCAL ANALYSIS ONLY (NIST AU-2 Alignment)\nCORRELATED CROSS-VECTOR EVENTS: ");
        append(&mut s, corr.as_str());
        append(&mut s, "\n----------------------------------------------------------------\n\n> [!WARNING]\n> **SIGNAL LOSS**: AI-driven tactical synthesis is currently unavailable. \n> The following SITREP contains raw forensic statistics and deterministic rule matches only.\n\n");
        s
    } else {
        let mut s = owned("--- 🛡️ AEGIS COMMANDER'S TACTICAL BRIEF ---\nSTATUS: ");
        append(&mut s, label);
        append(&mut s, "\nTIMESTAMP: ");
        append(&mut s, now_text);
        append(&mut s, "\nSCANNED ARTIFACT: ");
        append(&mut s, name);
        append(&mut s, "\nFIDELITY: 100% (CERTIFIED)\nCORRELATED CROSS-VECTOR EVENTS: ");
        append(&mut s, corr.as_str());
        append(&mut s, "\n----------------------------------------------------------------\n\n");
        s
    }
}

fn brief_profile_text(e: &PostureEvent, compromised: bool, name: &str, detected: &str) -> (s: String)
    ensures
        s@ == brief_profile(*e, compromised, name@, detected@),
{
    let mut s = owned("## 1. [WHO] ADVERSARY PROFILE\n* **Tool/Actor**: ");
    append(&mut s, e.adversary_profile.as_str());
    append(&mut s, "\n* **Classification**: ");
    append(&mut s, if compromised { "Hostile Threat Actor" } else { "Neutral/Internal Event" });
    append(&mut s, "\n\n## 2. [WHEN] FORENSIC WINDOW\n* **Initial Detection**: ");
    append(&mut s, detected);
    append(&mut s, "\n* **Event Duration**: 0.004s (Engine Match Time)\n\n## 3. [WHERE] INFILTRATION POINT\n* **Origin**: Internal Node (Pivot Path Detected)\n* **Target Artifact**: ");
    append(&mut s, name);
    append(&mut s, "\n\n## 4. [WHY] TACTICAL INTENT & IMPACT\n* **Objective**: ");
    append(&mut s, e.tactical_intent.as_str());
    append(&mut s, "\n* **NIST Risk**: ");
    append(&mut s, if compromised { "CRITICAL" } else { "LOW" });
    append(&mut s, " (SI-4 / SC-7)\n\n## 🛡️ What You Need To Do\n> [!IMPORTANT]\n> **IMMEDIATE ACTION**: ");
    append(&mut s, e.remediation.as_str());
    append(&mut s, "\n\n");
    s
}

fn brief_mechanism_text(e: &PostureEvent, compromised: bool) -> (s: String)
    ensures
        s@ == brief_mechanism(*e, compromised),
{
    let word = if compromised { "NON-COMPLIANT" } else { "COMPLIANT" };
    let mut s = owned("## 6. [HOW] ATTACK MECHANISM & CONTEXT\n* **Attack Type**: ");
    append(&mut s, e.human_title.as_str());
    append(&mut s, "\n* **Mechanism**: ");
    append(&mut s, e.attack_mechanism.as_str());
    append(&mut s, "\n\n### ⚖️ REGULATORY COMPLIANCE GATE\n* **CONTROL [SI-4]**: ");
    append(&mut s, word);
    append(&mut s, " - System monitoring must detect unauthorized use.\n* **CONTROL [SC-7]**: ");
    append(&mut s, word);
    append(&mut s, " - Boundary Protection triggered.\n\n");
    s
}

/// The anomaly table, with each tabulated anomaly's time of observation rendered in local time.
fn brief_anomalies_text(an: &Vec<LineageAnomaly>) -> (r: (String, Ghost<Seq<Seq<char>>>))
    ensures
        r.1@.len() == tabulated(an@.len()),
        r.0@ == brief_anomalies(an@, r.1@),
{
    let n: usize = if an.len() < 10 { an.len() } else { 10 };
    let ghost mut times: Seq<Seq<char>> = Seq::empty();
    let mut rows = String::new();
    proof {
        reveal_strlit("");
        assert(rows@ =~= Seq::<char>::empty());
    }
    let mut i: usize = 0;
    while i < n
        invariant
            0 <= i <= n,
            n == tabulated(an@.len()),
            n <= an@.len(),
            times.len() == i,
            rows@ == anomaly_rows(an@, times, i as int),
        decreases n - i,
    {
        let when = format_local(&an[i].timestamp, "%H:%M:%S");
        let row = anomaly_row_text(&an[i], when.as_str());
        proof {
            let t0 = times;
            times = times.push(when@);
            lemma_rows_prefix(an@, t0, times, i as int);
        }
        append(&mut rows, row.as_str());
        i += 1;
    }
    let mut s = owned("## 7. [PROVENANCE] PROCESS LINEAGE ANOMALIES\n> [!CAUTION]\n> **ANOMALOUS PARENT-CHILD RELATIONSHIPS DETECTED**\n\n| Timestamp | Parent | Child | Severity | Description |\n| :--- | :--- | :--- | :--- | :--- |\n");
    append(&mut s, rows.as_str());
    append(&mut s, "\n");
    (s, Ghost(times))
}

fn brief_body_text(
    es: &Vec<PostureEvent>,
    an: &Vec<LineageAnomaly>,
    compromised: bool,
    name: &str,
    detected: &str,
) -> (r: (String, Ghost<Seq<Seq<char>>>))
    ensures
        r.1@.len() == tabulated(an@.len()),
        r.0@ == brief_body(es@, an@, compromised, name@, detected@, r.1@),
{
    reveal(brief_body);
    if es.len() == 0 && an.len() == 0 {
        return (owned("## STATUS: OPERATIONAL\n\nNo active threats detected in the current forensic window. System posture remains compliant.\n"), Ghost(Seq::empty()));
    }
    let top = top_event(es);
    let mut s = String::new();
    proof {
        reveal_strlit("");
        assert(s@ =~= Seq::<char>::empty());
    }
    match top {
        Some(i) => {
            let part = brief_profile_text(&es[i], compromised, name, detected);
            append(&mut s, part.as_str());
        }
        None => {}
    }
    let ghost mut times: Seq<Seq<char>> = Seq::empty();
    if an.len() > 0 {
        let (part, Ghost(ts)) = brief_anomalies_text(an);
        proof {
            times = ts;
        }
        append(&mut s, part.as_str());
    }
    match top {
        Some(i) => {
            let part = brief_mechanism_text(&es[i], compromised);
            append(&mut s, part.as_str());
        }
        None => {
            append(&mut s, "### ⚖️ REGULATORY COMPLIANCE GATE\n* **CONTROL [SI-4]**: NON-COMPLIANT - Anomalous process lineage detected.\n* **CONTROL [AU-6]**: NON-COMPLIANT - Forensic anomalies require immediate review.\n\n");
        }
    }
    proof {
        if es@.len() == 0 {
            assert(s@ =~= brief_body(es@, an@, compromised, name@, detected@, times));
        } else {
            assert(s@ =~= brief_body(es@, an@, compromised, name@, detected@, times));
        }
    }
    (s, Ghost(times))
}

/// The commander's tactical brief on the findings `es` and the lineage anomalies of the artifact
/// at `source_artifact`, with `correlation_count` cross-source fusions. Online, `ai_brief` is the
/// AI synopsis of [`telemetry_summary`], where one was obtained. The current time, the time of the
/// most severe finding and those of the tabulated anomalies are rendered in local time, which
/// depends on the clock and the machine's time zone; everything else is as [`brief_text`] says.
pub fn generate_commanders_brief(
    es: &Vec<PostureEvent>,
    anomalies: &Vec<LineageAnomaly>,
    correlation_count: u64,
    offline: bool,
    source_artifact: &str,
    ai_brief: Option<String>,
) -> (s: String)
    ensures
        exists|now_text: Seq<char>, detected: Seq<char>, times: Seq<Seq<char>>|
            times.len() == tabulated(anomalies@.len())
            && s@ == #[trigger] brief_text(es@, anomalies@, correlation_count, offline, source_artifact@,
                opt_view(ai_brief), now_text, detected, times),
{
    let t = now();
    let now_text = format_local(&t, "%Y-%m-%dT%H:%M:%SZ");
    let (threat_seen, containment_seen, warning_seen) = survey(es);
    let compromised = threat_seen || anomalies.len() > 0 || containment_seen;
    let name = artifact_name(source_artifact);
    let label = if compromised {
        "🔴 COMPROMISED"
    } else if warning_seen {
        "🟡 WARNING (ZERO-TRUST)"
    } else {
        "🟢 SAFE"
    };
    let mut s = brief_head_text(offline, label, now_text.as_str(), name.as_str(), correlation_count);
    if !offline {
        match &ai_brief {
            Some(b) => {
                append(&mut s, "## 🧠 AI AUGMENTED SITREP\n> [!NOTE]\n> **AI SYNOPSIS ACTIVE**: ");
                append(&mut s, b.as_str());
                append(&mut s, "\n\n");
            }
            None => {}
        }
    }
    proof {
        reveal_strlit("");
        if offline || ai_brief is None {
            assert(s@ =~= brief_head(offline, status_label(compromised, some_warning(es@)), now_text@, basename(source_artifact@),
                correlation_count) + brief_ai(offline, opt_view(ai_brief)));
        }
    }
    let detected = match top_event(es) {
        Some(i) => format_local(&es[i].timestamp, "%Y-%m-%dT%H:%M:%SZ"),
        None => String::new(),
    };
    let (body, Ghost(times)) = brief_body_text(es, anomalies, compromised, name.as_str(), detected.as_str());
    append(&mut s, body.as_str());
    append(&mut s, "----------------------------------------------------------------\n**AUTHENTICATION**: AEGIS_CORE_02 // ISSO_");
    append(&mut s, if offline { "LOCAL_V9" } else { "ADVISOR_V9" });
    append(&mut s, "\n--- END OF BRIEF ---");
    proof {
        assert(s@ == brief_text(es@, anomalies@, correlation_count, offline, source_artifact@, opt_view(ai_brief),
            now_text@, detected@, times));
    }
    s
}

/// The brief never reads safer than the manifest: findings that put the manifest's posture out of
/// compliance make the brief call the system compromised, whatever the lineage shows.
pub proof fn law_brief_agrees_with_manifest(es: Seq<PostureEvent>, anomalies: nat)
    ensures
        posture_breached(es) ==> system_compromised(es, anomalies)
            && status_label(system_compromised(es, anomalies), some_warning(es)) == "🔴 COMPROMISED"@,
        !posture_breached(es) && anomalies == 0 ==> !system_compromised(es, anomalies),
{
}

/// Both reports speak of the most severe finding: none is more severe, and every later one is
/// strictly less severe.
pub proof fn law_top_event_is_most_severe(es: Seq<PostureEvent>)
    requires
        es.len() > 0,
    ensures
        0 <= top_index(es, es.len() as int) < es.len(),
        forall|j: int| 0 <= j < es.len() ==> sev_rank(#[trigger] es[j].severity) <= sev_rank(es[top_index(es, es.len() as int)].severity),
        forall|j: int| top_index(es, es.len() as int) < j < es.len()
            ==> sev_rank(#[trigger] es[j].severity) < sev_rank(es[top_index(es, es.len() as int)].severity),
{
    lemma_top_index(es, es.len() as int);
}

/// What the audit ledger keeps besides its file: the gap sentinel over the stream of records and
/// the process lineage reconstructed from them.
pub struct AuditTrail {
    pub sentinel: GapSentinel,
    pub lineage: LineageGraph,
}

impl AuditTrail {
    /// A trail that has seen no record.
    pub fn new() -> (t: AuditTrail)
        ensures
            t.sentinel.last_seen() is None,
            t.lineage.wf(),
            t.lineage.view().nodes.len() == 1,
            t.lineage.view().edges.len() == 0,
            t.lineage.view().correlations == 0,
    {
        AuditTrail { sentinel: GapSentinel::new(), lineage: LineageGraph::new() }
    }

    /// Takes the next record of the stream: returns the gap warning to write before it, if the
    /// silence before it was too long, and adds it to the process lineage.
    pub fn record(&mut self, record: &LogRecord) -> (w: Option<LogRecord>)
        requires
            old(self).lineage.wf(),
            old(self).lineage.view().nodes.len() + 2 <= u32::MAX,
            old(self).lineage.view().edges.len() < u32::MAX,
        ensures
            final(self).sentinel.last_seen() == Some(record.timestamp),
            w is Some <==> stream_gap(old(self).sentinel.last_seen(), record.timestamp) is Some,
            w matches Some(r) ==> is_gap_warning(r, record.timestamp, stream_gap(old(self).sentinel.last_seen(), record.timestamp)->0),
            final(self).lineage.wf(),
            record_step(old(self).lineage.view(), final(self).lineage.view(), *record),
    {
        let w = self.sentinel.observe(record.timestamp);
        self.lineage.add_record(record);
        w
    }
}

/// The number of findings among the first `n` of the given severity.
pub open spec fn count_severity(es: Seq<PostureEvent>, sev: SeverityLevel, n: int) -> nat
    decreases n,
{
    if n <= 0 {
        0
    } else {
        count_severity(es, sev, n - 1) + if es[n - 1].severity == sev { 1nat } else { 0nat }
    }
}

/// The grade of a posture with findings: F for any critical finding, D for more than five high
/// ones, C otherwise (caution with high findings, risk without).
pub open spec fn grade_of(es: Seq<PostureEvent>) -> Seq<char> {
    let criticals = count_severity(es, SeverityLevel::Critical, es.len() as int);
    let highs = count_severity(es, SeverityLevel::High, es.len() as int);
    if criticals > 0 {
        "🔴 F (CRITICAL)"@
    } else if highs > 5 {
        "🟠 D (FAILING)"@
    } else if highs > 0 {
        "🟡 C (CAUTION)"@
    } else {
        "🟡 C (RISK)"@
    }
}

/// The grade of a posture with findings.
pub fn posture_grade(es: &Vec<PostureEvent>) -> (g: String)
    ensures
        g@ == grade_of(es@),
{
    let mut criticals: usize = 0;
    let mut highs: usize = 0;
    let mut i: usize = 0;
    while i < es.len()
        invariant
            0 <= i <= es@.len(),
            criticals == count_severity(es@, SeverityLevel::Critical, i as int),
            highs == count_severity(es@, SeverityLevel::High, i as int),
            criticals <= i && highs <= i,
        decreases es@.len() - i,
    {
        match es[i].severity {
            SeverityLevel::Critical => criticals += 1,
            SeverityLevel::High => highs += 1,
            _ => {}
        }
        i += 1;
    }
    if criticals > 0 {
        owned("🔴 F (CRITICAL)")
    } else if highs > 5 {
        owned("🟠 D (FAILING)")
    } else if highs > 0 {
        owned("🟡 C (CAUTION)")
    } else {
        owned("🟡 C (RISK)")
    }
}

/// The name of the file holding the reading position in a log: `aegis.pos.` and the first eight
/// hexadecimal digits of the SHA-256 digest of the log's absolute path.
pub fn checkpoint_file(absolute_path: &str) -> (name: String)
    ensures
        name@ == "aegis.pos."@ + crate::audit_receipt::text_digest(absolute_path@).take(8),
{
    let digest = crate::audit_receipt::digest_hex(absolute_path);
    let chars = crate::text::chars_of(digest.as_str());
    let mut name = owned("aegis.pos.");
    let ghost head = name@;
    let mut i: usize = 0;
    while i < 8
        invariant
            0 <= i <= 8,
            chars@ == crate::audit_receipt::text_digest(absolute_path@),
            chars@.len() == 64,
            name@ == head + chars@.take(i as int),
            head == "aegis.pos."@,
        decreases 8 - i,
    {
        let mut one: Vec<char> = Vec::new();
        one.push(chars[i]);
        let piece = crate::text::string_from_chars(one.as_slice());
        append(&mut name, piece.as_str());
        assert(chars@.take(i + 1) =~= chars@.take(i as int).push(chars@[i as int]));
        assert(piece@ =~= seq![chars@[i as int]]);
        i += 1;
    }
    name
}

} // verus!
