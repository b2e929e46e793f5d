//! Record analysis: process tracking, network telemetry, WMI correlation, lineage, signature
//! matching and the behavioural heuristics, combined into one finding per record.

use vstd::prelude::*;
use crate::config::ActiveFramework;
use crate::crosswalk_ai::{AiRmfCrosswalk, ai_violations, pillar_name, pillar_description};
use crate::engine::{NistEngine, lineage, match_spec, wmi_after, wmi_binding, wmi_message, signal_entry};
use crate::heuristics::{Triage, self_protection_stage, dcsync_stage, pth_stage, kernel_stage, lineage_stage,
    proxy_stage, com_stage, orphan_stage, verified_origin_stage, noise_stage, finalize_metadata, self_protection,
    dcsync, pass_the_hash, kernel_invader, lineage_violation, proxy_execution, com_hijacking, orphan_escalation,
    verified_origin, noise_suppression, finalize, event_id_of};
use crate::mappings::ControlMapping;
use crate::metadata::{Metadata, lookup, lookup2, lookup4, or_empty};
use crate::models::{LogRecord, SeverityLevel, sev_name, same_untouched};
use crate::num::{parse_unsigned, u64_to_string};
use crate::tables::{WmiState, ProcEntry};
use crate::text::{seq_contains, seq_starts_with, lowercase, to_lowercase, str_contains, str_starts_with, str_eq,
    owned, concat, opt_view, clone_opt, chars_of, string_from_chars, decimal, parse_unsigned_spec};
use crate::time::Timestamp;

verus! {

/// A request to capture volatile evidence for a critical finding: the forensic tag and the process.
#[derive(Debug)]
pub struct EvidenceRequest {
    pub tag: String,
    pub pid: Option<u32>,
}

/// A reported record, and the evidence capture it calls for.
#[derive(Debug)]
pub struct Finding {
    pub record: LogRecord,
    pub evidence: Option<EvidenceRequest>,
}

/// `m` with `k` set to the value of `o`, when there is one.
pub open spec fn ins_opt(m: Map<Seq<char>, Seq<char>>, k: Seq<char>, o: Option<Seq<char>>) -> Map<Seq<char>, Seq<char>> {
    match o {
        Some(v) => m.insert(k, v),
        None => m,
    }
}

/// A process id: hexadecimal after `0x`, decimal otherwise, within 32 bits.
pub open spec fn parse_pid(id: Seq<char>) -> Option<nat> {
    if seq_starts_with(id, "0x"@) {
        parse_unsigned_spec(id.subrange(2, id.len() as int), 16, 4294967295)
    } else {
        parse_unsigned_spec(id, 10, 4294967295)
    }
}

pub open spec fn pid_of(md: Map<Seq<char>, Seq<char>>) -> Option<nat> {
    match lookup4(md, "ProcessId"@, "process_id"@, "CallerProcessId"@, "ClientProcessId"@) {
        Some(id) => parse_pid(id),
        None => None,
    }
}

pub open spec fn image_of(md: Map<Seq<char>, Seq<char>>) -> Option<Seq<char>> {
    lookup4(md, "NewProcessName"@, "process_name"@, "Image"@, "CallerProcessName"@)
}

/// The record names both its process id and its image, so the process enters the tree.
pub open spec fn process_named(md: Map<Seq<char>, Seq<char>>) -> bool {
    pid_of(md) is Some && image_of(md) is Some
}

pub open spec fn dest_of(md: Map<Seq<char>, Seq<char>>) -> Option<Seq<char>> {
    lookup4(md, "DestinationIp"@, "dest_ip"@, "dest"@, "DestinationAddress"@)
}

pub open spec fn port_of(md: Map<Seq<char>, Seq<char>>) -> Option<u16> {
    match lookup2(md, "DestinationPort"@, "dest_port"@) {
        Some(p) => match parse_unsigned_spec(p, 10, 65535) {
            Some(n) => Some(n as u16),
            None => None,
        },
        None => None,
    }
}

pub open spec fn proto_of(md: Map<Seq<char>, Seq<char>>) -> Option<Seq<char>> {
    lookup2(md, "Protocol"@, "protocol"@)
}

pub open spec fn target_of(md: Map<Seq<char>, Seq<char>>) -> Option<Seq<char>> {
    lookup2(md, "TargetImage"@, "TargetImageName"@)
}

pub open spec fn granted_of(md: Map<Seq<char>, Seq<char>>) -> Option<Seq<char>> {
    lookup(md, "GrantedAccess"@)
}

pub open spec fn relative_of(md: Map<Seq<char>, Seq<char>>) -> Option<Seq<char>> {
    lookup2(md, "RelativeTargetName"@, "ObjectName"@)
}

/// The process tree after a record: a named process is (re)entered with its parent and GUID.
pub open spec fn tree_after(
    tree: Map<u32, (Seq<char>, Option<u32>, Option<Seq<char>>)>,
    r: LogRecord,
) -> Map<u32, (Seq<char>, Option<u32>, Option<Seq<char>>)> {
    let md = r.metadata@;
    if process_named(md) {
        tree.insert(pid_of(md)->0 as u32, (image_of(md)->0, r.parent_process_id, lookup(md, "ProcessGuid"@)))
    } else {
        tree
    }
}

/// The record's metadata with its log source.
pub open spec fn md_base(r: LogRecord) -> Map<Seq<char>, Seq<char>> {
    match r.log_source {
        Some(s) => r.metadata@.insert("log_source"@, s@),
        None => r.metadata@,
    }
}

/// The metadata after the target, access and network telemetry are copied into it.
pub open spec fn md_network(r: LogRecord) -> Map<Seq<char>, Seq<char>> {
    let md = r.metadata@;
    let m1 = ins_opt(ins_opt(ins_opt(md_base(r), "target_image"@, target_of(md)), "granted_access"@, granted_of(md)),
        "relative_target"@, relative_of(md));
    if dest_of(md) is Some {
        let port = match port_of(md) { Some(p) => Some(decimal(p as nat)), None => None };
        ins_opt(ins_opt(ins_opt(m1, "destination_ip"@, dest_of(md)), "destination_port"@, port), "protocol"@, proto_of(md))
    } else {
        m1
    }
}

/// The process GUID of the finding.
pub open spec fn guid_after(r: LogRecord) -> Option<Seq<char>> {
    if process_named(r.metadata@) { lookup(r.metadata@, "ProcessGuid"@) } else { opt_view(r.process_guid) }
}

/// The outcome before the heuristics: a network event whose process id now belongs to a process
/// with another GUID is a reused id.
pub open spec fn outcome_prep(r: LogRecord, tree: Map<u32, (Seq<char>, Option<u32>, Option<Seq<char>>)>) -> Option<Seq<char>> {
    let md = r.metadata@;
    if dest_of(md) is Some && pid_of(md) is Some && guid_after(r) is Some && tree.contains_key(pid_of(md)->0 as u32)
        && (tree[pid_of(md)->0 as u32].2 matches Some(tg) && tg != guid_after(r)->0) {
        Some("PidReuseMismatch"@)
    } else {
        opt_view(r.outcome)
    }
}

pub open spec fn dest_after(r: LogRecord) -> Option<Seq<char>> {
    if dest_of(r.metadata@) is Some { dest_of(r.metadata@) } else { opt_view(r.destination_ip) }
}

pub open spec fn port_after(r: LogRecord) -> Option<u16> {
    if dest_of(r.metadata@) is Some { port_of(r.metadata@) } else { r.destination_port }
}

pub open spec fn proto_after(r: LogRecord) -> Option<Seq<char>> {
    if dest_of(r.metadata@) is Some { proto_of(r.metadata@) } else { opt_view(r.protocol) }
}

/// The message after WMI correlation.
pub open spec fn msg_wmi(r: LogRecord, w: Map<Seq<char>, WmiState>) -> Seq<char> {
    match wmi_binding(w, md_network(r)) {
        Some((c, f)) => wmi_message(c, f),
        None => r.message@,
    }
}

/// The metadata after WMI correlation.
pub open spec fn md_wmi(r: LogRecord, w: Map<Seq<char>, WmiState>) -> Map<Seq<char>, Seq<char>> {
    match wmi_binding(w, md_network(r)) {
        Some(_) => md_network(r).insert("correlation_type"@, "WMI_Persistence_Binding_FULL"@).insert("nist_control_id"@, "SI-4"@),
        None => md_network(r),
    }
}

/// The record's process ancestry (empty when it names no process id).
pub open spec fn chain_of(r: LogRecord, tree: Map<u32, (Seq<char>, Option<u32>, Option<Seq<char>>)>) -> Seq<char> {
    match pid_of(r.metadata@) {
        Some(p) => lineage(tree_after(tree, r), p as u32, 0),
        None => Seq::empty(),
    }
}

/// The metadata after the lineage is recorded.
pub open spec fn md_lineage(
    r: LogRecord,
    w: Map<Seq<char>, WmiState>,
    tree: Map<u32, (Seq<char>, Option<u32>, Option<Seq<char>>)>,
) -> Map<Seq<char>, Seq<char>> {
    if chain_of(r, tree).len() > 0 { md_wmi(r, w).insert("lineage_chain"@, chain_of(r, tree)) } else { md_wmi(r, w) }
}

/// The signature match of the record as it stands before the heuristics.
pub open spec fn match_of(
    rules: Seq<ControlMapping>,
    r: LogRecord,
    w: Map<Seq<char>, WmiState>,
    tree: Map<u32, (Seq<char>, Option<u32>, Option<Seq<char>>)>,
) -> Option<(int, Seq<char>)> {
    match_spec(rules, md_lineage(r, w, tree), r.raw@, msg_wmi(r, w), r.redactions@.len() > 0)
}

pub open spec fn signal_key(rules: Seq<ControlMapping>, i: int, evidence: Seq<char>) -> Seq<char> {
    rules[i].control_id@ + ":"@ + evidence
}

/// The signal counters after the record.
pub open spec fn signals_after(
    rules: Seq<ControlMapping>,
    r: LogRecord,
    w: Map<Seq<char>, WmiState>,
    s: Map<Seq<char>, (u64, Timestamp)>,
    tree: Map<u32, (Seq<char>, Option<u32>, Option<Seq<char>>)>,
    now: Timestamp,
) -> Map<Seq<char>, (u64, Timestamp)> {
    match match_of(rules, r, w, tree) {
        Some((i, e)) => s.insert(signal_key(rules, i, e), signal_entry(s, signal_key(rules, i, e), now)),
        None => s,
    }
}

/// The triage before the heuristics: the matched control's severity, metadata and evidence.
pub open spec fn triage0(
    rules: Seq<ControlMapping>,
    r: LogRecord,
    w: Map<Seq<char>, WmiState>,
    tree: Map<u32, (Seq<char>, Option<u32>, Option<Seq<char>>)>,
) -> (SeverityLevel, Seq<char>, Map<Seq<char>, Seq<char>>, Option<Seq<char>>, bool) {
    let md = md_lineage(r, w, tree);
    match match_of(rules, r, w, tree) {
        Some((i, e)) => (rules[i].severity, msg_wmi(r, w),
            md.insert("nist_control_id"@, rules[i].control_id@).insert("nist_category"@, rules[i].category@)
                .insert("forensic_payload"@, e),
            outcome_prep(r, tree_after(tree, r)), false),
        None => (SeverityLevel::Info, msg_wmi(r, w), md, outcome_prep(r, tree_after(tree, r)), false),
    }
}

/// The process has a parent that the tree does not know.
pub open spec fn orphan(r: LogRecord, chain: Seq<char>) -> bool {
    pid_of(r.metadata@) is Some && !seq_contains(chain, "->"@) && r.parent_process_id is Some
}

/// The ancestry passes through system maintenance or the shell.
pub open spec fn verified(chain: Seq<char>) -> bool {
    let c = lowercase(chain);
    seq_contains(c, "services.exe"@) || seq_contains(c, "update"@) || seq_contains(c, "orchestrator"@)
        || seq_contains(c, "tiworker.exe"@) || seq_contains(c, "explorer.exe"@) || seq_contains(c, "winlogon.exe"@)
        || seq_contains(c, "smss.exe"@)
}

/// A verified ancestry, or a parent named as a service host, the shell or `wininit`.
pub open spec fn trusted(r: LogRecord, chain: Seq<char>) -> bool {
    trusted_md(r.metadata@, chain)
}

pub open spec fn trusted_md(md: Map<Seq<char>, Seq<char>>, chain: Seq<char>) -> bool {
    verified(chain) || match lookup2(md, "ParentProcessName"@, "parent_process_name"@) {
        Some(pn) => {
            let l = lowercase(pn);
            seq_contains(l, "services.exe"@) || seq_contains(l, "explorer.exe"@) || seq_contains(l, "wininit.exe"@)
        }
        None => false,
    }
}

/// The triage once the self-protection and behavioural heuristics have run.
pub open spec fn triage_heuristics(
    rules: Seq<ControlMapping>,
    r: LogRecord,
    w: Map<Seq<char>, WmiState>,
    tree: Map<u32, (Seq<char>, Option<u32>, Option<Seq<char>>)>,
) -> (SeverityLevel, Seq<char>, Map<Seq<char>, Seq<char>>, Option<Seq<char>>, bool) {
    let md = r.metadata@;
    let chain = chain_of(r, tree);
    let cmd = lowercase(msg_wmi(r, w));
    let raw = lowercase(r.raw@);
    let img = lowercase(or_empty(image_of(md)));
    let o = orphan(r, chain);
    let v1 = self_protection_stage(triage0(rules, r, w, tree), cmd, raw);
    let v4 = kernel_stage(pth_stage(dcsync_stage(v1, md), md), md);
    let v7 = com_stage(proxy_stage(lineage_stage(v4, img, raw, o, trusted(r, chain)), img, raw), raw);
    orphan_stage(v7, o, match_of(rules, r, w, tree) is Some, dest_after(r), image_of(md), port_after(r))
}

/// The evidence capture a critical triage calls for: its forensic tag (or `CriticalIncident`)
/// and the process.
pub open spec fn evidence_of(
    rules: Seq<ControlMapping>,
    r: LogRecord,
    w: Map<Seq<char>, WmiState>,
    tree: Map<u32, (Seq<char>, Option<u32>, Option<Seq<char>>)>,
) -> Option<(Seq<char>, Option<nat>)> {
    let v = triage_heuristics(rules, r, w, tree);
    if v.0 == SeverityLevel::Critical {
        let tag = match lookup(v.2, "forensic_tag"@) { Some(t) => t, None => "CriticalIncident"@ };
        Some((tag, pid_of(r.metadata@)))
    } else {
        None
    }
}

/// The final triage: after the suppression of verified maintenance and of high-volume noise.
pub open spec fn triage_final(
    rules: Seq<ControlMapping>,
    r: LogRecord,
    w: Map<Seq<char>, WmiState>,
    s: Map<Seq<char>, (u64, Timestamp)>,
    tree: Map<u32, (Seq<char>, Option<u32>, Option<Seq<char>>)>,
    now: Timestamp,
) -> (SeverityLevel, Seq<char>, Map<Seq<char>, Seq<char>>, Option<Seq<char>>, bool) {
    let chain = chain_of(r, tree);
    let v9 = verified_origin_stage(triage_heuristics(rules, r, w, tree), verified(chain), chain);
    let count = match match_of(rules, r, w, tree) {
        Some((i, e)) => Some(signal_entry(s, signal_key(rules, i, e), now).0),
        None => None,
    };
    noise_stage(v9, count)
}

/// Whether the record is reported: it matched a signature, a heuristic fired, or it has an outcome.
pub open spec fn reported(
    rules: Seq<ControlMapping>,
    r: LogRecord,
    w: Map<Seq<char>, WmiState>,
    s: Map<Seq<char>, (u64, Timestamp)>,
    tree: Map<u32, (Seq<char>, Option<u32>, Option<Seq<char>>)>,
    now: Timestamp,
) -> bool {
    let v = triage_final(rules, r, w, s, tree, now);
    match_of(rules, r, w, tree) is Some || v.4 || v.3 is Some
}

/// The finding reported for a record under the federal or commercial frameworks.
pub open spec fn finding_fields(
    f: Finding,
    rules: Seq<ControlMapping>,
    r: LogRecord,
    w: Map<Seq<char>, WmiState>,
    s: Map<Seq<char>, (u64, Timestamp)>,
    tree: Map<u32, (Seq<char>, Option<u32>, Option<Seq<char>>)>,
    now: Timestamp,
) -> bool {
    let v = triage_final(rules, r, w, s, tree, now);
    let t = f.record;
    let chain = chain_of(r, tree);
    &&& t.message@ == v.1
    &&& t.metadata@ == finalize_metadata(v.2, v.1)
    &&& opt_view(t.outcome) == v.3
    &&& opt_view(t.severity) == Some(sev_name(v.0))
    &&& opt_view(t.process_guid) == guid_after(r)
    &&& opt_view(t.target_image) == target_of(r.metadata@)
    &&& opt_view(t.granted_access) == granted_of(r.metadata@)
    &&& opt_view(t.destination_ip) == dest_after(r)
    &&& t.destination_port == port_after(r)
    &&& opt_view(t.protocol) == proto_after(r)
    &&& opt_view(t.lineage_chain) == (if chain.len() > 0 { Some(chain) } else { opt_view(r.lineage_chain) })
    &&& same_untouched(t, r)
    &&& match evidence_of(rules, r, w, tree) {
        Some((tag, pid)) => f.evidence matches Some(e) && e.tag@ == tag
            && (match e.pid { Some(p) => pid == Some(p as nat), None => pid is None }),
        None => f.evidence is None,
    }
}

/// The finding reported for a record under the AI RMF framework: the first violated pillar.
pub open spec fn ai_finding(f: Finding, r: LogRecord, pillars: Seq<crate::crosswalk_ai::AiRmfPillar>) -> bool {
    &&& f.record.metadata@ == md_base(r).insert("airmf_pillar"@, pillar_name(pillars[0]))
        .insert("airmf_description"@, pillar_description(pillars[0]))
    &&& opt_view(f.record.severity) == Some("High"@)
    &&& f.record.message == r.message
    &&& f.record.outcome == r.outcome
    &&& crate::models::same_besides_triage(f.record, r)
    &&& f.evidence is None
}

/// One analysis step: the engine's state before (`w0`, `s0`, `t0`) and after (`w1`, `s1`, `t1`),
/// the record, the time of analysis, the toxicity triage and the result.
pub open spec fn analysis(
    rules: Seq<ControlMapping>,
    framework: ActiveFramework,
    latency_threshold: u64,
    w0: Map<Seq<char>, WmiState>,
    s0: Map<Seq<char>, (u64, Timestamp)>,
    t0: Map<u32, (Seq<char>, Option<u32>, Option<Seq<char>>)>,
    w1: Map<Seq<char>, WmiState>,
    s1: Map<Seq<char>, (u64, Timestamp)>,
    t1: Map<u32, (Seq<char>, Option<u32>, Option<Seq<char>>)>,
    r: LogRecord,
    now: Timestamp,
    toxic: bool,
    res: Option<Finding>,
) -> bool {
    if framework == ActiveFramework::AiRmf100 {
        let pillars = ai_violations(md_base(r), latency_threshold, toxic);
        &&& w1 == w0 && s1 == s0 && t1 == t0
        &&& if pillars.len() > 0 { res matches Some(f) && ai_finding(f, r, pillars) } else { res is None }
    } else {
        &&& t1 == tree_after(t0, r)
        &&& w1 == wmi_after(w0, md_network(r))
        &&& s1 == signals_after(rules, r, w0, s0, t0, now)
        &&& if reported(rules, r, w0, s0, t0, now) {
            res matches Some(f) && finding_fields(f, rules, r, w0, s0, t0, now)
        } else {
            res is None
        }
    }
}


/// A finding under the federal or commercial frameworks keeps the record's raw text, names a
/// control and the captured message, and carries one of the five severities.
pub proof fn law_finding_is_tagged(
    rules: Seq<ControlMapping>,
    framework: ActiveFramework,
    latency_threshold: u64,
    w0: Map<Seq<char>, WmiState>,
    s0: Map<Seq<char>, (u64, Timestamp)>,
    t0: Map<u32, (Seq<char>, Option<u32>, Option<Seq<char>>)>,
    w1: Map<Seq<char>, WmiState>,
    s1: Map<Seq<char>, (u64, Timestamp)>,
    t1: Map<u32, (Seq<char>, Option<u32>, Option<Seq<char>>)>,
    r: LogRecord,
    now: Timestamp,
    toxic: bool,
    f: Finding,
)
    requires
        framework != ActiveFramework::AiRmf100,
        analysis(rules, framework, latency_threshold, w0, s0, t0, w1, s1, t1, r, now, toxic, Some(f)),
    ensures
        f.record.raw == r.raw,
        f.record.metadata@.contains_key("nist_control_id"@),
        f.record.metadata@.contains_key("captured_message"@),
        f.record.severity is Some,
        ({
            let s = opt_view(f.record.severity)->0;
            s == "Info"@ || s == "Low"@ || s == "Medium"@ || s == "High"@ || s == "Critical"@
        }),
{
}

/// A record that arrives with an outcome is always reported under the federal or commercial
/// frameworks: no stage takes an outcome away.
pub proof fn law_outcome_is_reported(
    rules: Seq<ControlMapping>,
    framework: ActiveFramework,
    latency_threshold: u64,
    w0: Map<Seq<char>, WmiState>,
    s0: Map<Seq<char>, (u64, Timestamp)>,
    t0: Map<u32, (Seq<char>, Option<u32>, Option<Seq<char>>)>,
    w1: Map<Seq<char>, WmiState>,
    s1: Map<Seq<char>, (u64, Timestamp)>,
    t1: Map<u32, (Seq<char>, Option<u32>, Option<Seq<char>>)>,
    r: LogRecord,
    now: Timestamp,
    toxic: bool,
    res: Option<Finding>,
)
    requires
        framework != ActiveFramework::AiRmf100,
        analysis(rules, framework, latency_threshold, w0, s0, t0, w1, s1, t1, r, now, toxic, res),
        r.outcome is Some,
    ensures
        res is Some,
{
    let v = triage_final(rules, r, w0, s0, t0, now);
    assert(v.3 is Some);
}

/// A NewCredentials logon (event 4624, logon type 9) through Negotiate or the `seclogo` process
/// is flagged as a critical pass-the-hash, under control `AC-3 [Identity Thief]`.
pub proof fn law_pass_the_hash(
    v: (SeverityLevel, Seq<char>, Map<Seq<char>, Seq<char>>, Option<Seq<char>>, bool),
    md: Map<Seq<char>, Seq<char>>,
)
    requires
        event_id_of(md) == "4624"@,
        md.contains_key("LogonType"@) && md["LogonType"@] == "9"@,
        (md.contains_key("AuthenticationPackageName"@) && seq_contains(lowercase(md["AuthenticationPackageName"@]), "negotiate"@))
            || (md.contains_key("LogonProcessName"@) && seq_contains(lowercase(md["LogonProcessName"@]), "seclogo"@)),
    ensures
        pth_stage(v, md).0 == SeverityLevel::Critical,
        pth_stage(v, md).2["forensic_tag"@] == "PassTheHash"@,
        pth_stage(v, md).2["nist_control_id"@] == "AC-3 [Identity Thief]"@,
        pth_stage(v, md).4,
{
    reveal_strlit("forensic_tag");
    reveal_strlit("captured_message");
    reveal_strlit("nist_control_id");
    assert("forensic_tag"@.len() != "captured_message"@.len());
    assert("forensic_tag"@.len() != "nist_control_id"@.len());
}

/// An orphaned process whose signature matched, with no network destination and no heuristic
/// triage yet, is escalated to a critical orphan-process finding under `SI-4 [Ghost Hunter]`.
pub proof fn law_orphan_escalation(
    v: (SeverityLevel, Seq<char>, Map<Seq<char>, Seq<char>>, Option<Seq<char>>, bool),
    image: Option<Seq<char>>,
    port: Option<u16>,
)
    requires
        !v.4,
        v.0 == SeverityLevel::High || v.0 == SeverityLevel::Critical,
    ensures
        orphan_stage(v, true, true, None, image, port).0 == SeverityLevel::Critical,
        orphan_stage(v, true, true, None, image, port).2["forensic_tag"@] == "OrphanProcess"@,
        orphan_stage(v, true, true, None, image, port).2["nist_control_id"@] == "SI-4 [Ghost Hunter]"@,
{
    reveal_strlit("forensic_tag");
    reveal_strlit("captured_message");
    reveal_strlit("nist_control_id");
    assert("forensic_tag"@.len() != "captured_message"@.len());
    assert("forensic_tag"@.len() != "nist_control_id"@.len());
}

/// Severe activity from a verified lineage that no heuristic flagged is suppressed to an
/// informational `VerifiedOrigin` finding.
pub proof fn law_verified_origin(
    v: (SeverityLevel, Seq<char>, Map<Seq<char>, Seq<char>>, Option<Seq<char>>, bool),
    chain: Seq<char>,
)
    requires
        !v.4,
        v.0 == SeverityLevel::High || v.0 == SeverityLevel::Critical,
    ensures
        verified_origin_stage(v, true, chain).0 == SeverityLevel::Info,
        verified_origin_stage(v, true, chain).3 == Some("VerifiedOrigin"@),
{
}

/// A process id read from text: hexadecimal after `0x`, decimal otherwise.
pub fn parse_pid_text(id: &str) -> (r: Option<u32>)
    ensures
        r matches Some(p) ==> parse_pid(id@) == Some(p as nat),
        r is None ==> parse_pid(id@) is None,
{
    proof { reveal_strlit("0x"); }
    if str_starts_with(id, "0x") {
        let v = chars_of(id);
        let rest = string_from_chars(v.as_slice().split_at(2).1);
        assert(rest@ =~= id@.subrange(2, id@.len() as int));
        match parse_unsigned(rest.as_str(), 16, 4294967295u64) {
            Some(n) => Some(n as u32),
            None => None,
        }
    } else {
        match parse_unsigned(id, 10, 4294967295u64) {
            Some(n) => Some(n as u32),
            None => None,
        }
    }
}

fn pid_from(md: &Metadata) -> (r: Option<u32>)
    ensures
        r matches Some(p) ==> pid_of(md@) == Some(p as nat),
        r is None ==> pid_of(md@) is None,
{
    match md.get_any4("ProcessId", "process_id", "CallerProcessId", "ClientProcessId") {
        Some(id) => parse_pid_text(id.as_str()),
        None => None,
    }
}

fn port_from(md: &Metadata) -> (r: Option<u16>)
    ensures
        r == port_of(md@),
{
    match md.get_either("DestinationPort", "dest_port") {
        Some(p) => match parse_unsigned(p.as_str(), 10, 65535u64) {
            Some(n) => Some(n as u16),
            None => None,
        },
        None => None,
    }
}

fn insert_opt(md: &mut Metadata, k: &str, o: &Option<String>)
    ensures
        final(md)@ == ins_opt(old(md)@, k@, opt_view(*o)),
{
    match o {
        Some(v) => md.insert(owned(k), owned(v.as_str())),
        None => {}
    }
}

fn empty_string() -> (s: String)
    ensures
        s@ == Seq::<char>::empty(),
{
    proof {
        reveal_strlit("");
        assert(""@ =~= Seq::<char>::empty());
    }
    owned("")
}

fn is_verified_chain(chain: &str) -> (b: bool)
    ensures
        b == verified(chain@),
{
    let c = to_lowercase(chain);
    let c = c.as_str();
    str_contains(c, "services.exe") || str_contains(c, "update") || str_contains(c, "orchestrator")
        || str_contains(c, "tiworker.exe") || str_contains(c, "explorer.exe") || str_contains(c, "winlogon.exe")
        || str_contains(c, "smss.exe")
}

fn is_trusted(md: &Metadata, chain: &str, verified_chain: bool) -> (b: bool)
    requires
        verified_chain == verified(chain@),
    ensures
        b == trusted_md(md@, chain@),
{
    if verified_chain {
        return true;
    }
    match md.get_either("ParentProcessName", "parent_process_name") {
        Some(pn) => {
            let l = to_lowercase(pn.as_str());
            str_contains(l.as_str(), "services.exe") || str_contains(l.as_str(), "explorer.exe")
                || str_contains(l.as_str(), "wininit.exe")
        }
        None => false,
    }
}

impl NistEngine {
    /// Analyses a record at time `now` (the start of a new signal window). `toxicity_breach` says
    /// whether the record's AI toxicity score reached the configured threshold.
    #[verifier::rlimit(100)]
    #[verifier::spinoff_prover]
    pub fn analyze_record_at(&mut self, record: LogRecord, now: Timestamp, toxicity_breach: bool) -> (res: Option<Finding>)
        ensures
            analysis(old(self).rules(), old(self).framework(), old(self).latency_threshold(), old(self).wmi(),
                old(self).signals(), old(self).tree(), final(self).wmi(), final(self).signals(), final(self).tree(),
                record, now, toxicity_breach, res),
            final(self).rules() == old(self).rules(),
            final(self).framework() == old(self).framework(),
            final(self).latency_threshold() == old(self).latency_threshold(),
    {
        let ghost r = record;
        let ghost w0 = self.wmi();
        let ghost t0 = self.tree();
        let LogRecord {
            timestamp, message, severity, source, subject_id, outcome, metadata, additional_context, raw,
            unparsed_raw, original_format, quality, incident_id, redactions, bridge_hash, chain_hash,
            parent_process_id, parent_process_name, lineage_chain, line_id, destination_ip, destination_port,
            protocol, process_guid, target_image, granted_access, evidence_vault, log_source, process_id, image,
            command_line, node_id,
        } = record;
        let rmd = metadata;
        let mut md = rmd.duplicate();
        match &log_source {
            Some(s) => md.insert(owned("log_source"), owned(s.as_str())),
            None => {}
        }
        assert(md@ == md_base(r));
        if self.active_framework() == ActiveFramework::AiRmf100 {
            let pillars = AiRmfCrosswalk::evaluate(&md, &self.ai_settings(), toxicity_breach);
            if pillars.len() > 0 {
                md.insert(owned("airmf_pillar"), owned(pillars[0].as_str()));
                md.insert(owned("airmf_description"), owned(pillars[0].description()));
                let t = LogRecord {
                    timestamp, message, severity: Some(owned("High")), source, subject_id, outcome, metadata: md,
                    additional_context, raw, unparsed_raw, original_format, quality, incident_id, redactions,
                    bridge_hash, chain_hash, parent_process_id, parent_process_name, lineage_chain, line_id,
                    destination_ip, destination_port, protocol, process_guid, target_image, granted_access,
                    evidence_vault, log_source, process_id, image, command_line, node_id,
                };
                return Some(Finding { record: t, evidence: None });
            }
            return None;
        }
        // The process tree.
        let pid = pid_from(&rmd);
        let image_opt = rmd.get_any4("NewProcessName", "process_name", "Image", "CallerProcessName");
        let guid = rmd.get_owned("ProcessGuid");
        let mut process_guid = process_guid;
        match (pid, &image_opt) {
            (Some(p), Some(img)) => {
                self.remember_process(p, ProcEntry { image: owned(img.as_str()), parent: parent_process_id, guid: clone_opt(&guid) });
                process_guid = guid;
            }
            _ => {}
        }
        assert(self.tree() == tree_after(t0, r));
        assert(opt_view(process_guid) == guid_after(r));
        // Network telemetry.
        let dest = rmd.get_any4("DestinationIp", "dest_ip", "dest", "DestinationAddress");
        let port = port_from(&rmd);
        let proto = rmd.get_either("Protocol", "protocol");
        let target_image = rmd.get_either("TargetImage", "TargetImageName");
        let granted_access = rmd.get_owned("GrantedAccess");
        let relative = rmd.get_either("RelativeTargetName", "ObjectName");
        insert_opt(&mut md, "target_image", &target_image);
        insert_opt(&mut md, "granted_access", &granted_access);
        insert_opt(&mut md, "relative_target", &relative);
        let mut destination_ip = destination_ip;
        let mut destination_port = destination_port;
        let mut protocol = protocol;
        let mut outcome = outcome;
        if dest.is_some() {
            destination_ip = clone_opt(&dest);
            destination_port = port;
            protocol = clone_opt(&proto);
            insert_opt(&mut md, "destination_ip", &dest);
            match port {
                Some(p) => md.insert(owned("destination_port"), u64_to_string(p as u64)),
                None => {}
            }
            insert_opt(&mut md, "protocol", &proto);
            match (pid, &process_guid) {
                (Some(p), Some(ev)) => {
                    match self.process_entry(p) {
                        Some(e) => {
                            match &e.guid {
                                Some(tg) => {
                                    if !str_eq(tg.as_str(), ev.as_str()) {
                                        outcome = Some(owned("PidReuseMismatch"));
                                    }
                                }
                                None => {}
                            }
                        }
                        None => {}
                    }
                }
                _ => {}
            }
        }
        assert(md@ == md_network(r));
        assert(opt_view(outcome) == outcome_prep(r, tree_after(t0, r)));
        // WMI correlation.
        let mut message = message;
        match self.wmi_observe(&md) {
            Some((c, f)) => {
                let a = concat("☢️ CRITICAL: Multi-Event WMI Persistence Chain Correlated! Consumer: ", c.as_str());
                let b = concat(a.as_str(), ", Filter: ");
                message = concat(b.as_str(), f.as_str());
                md.insert(owned("correlation_type"), owned("WMI_Persistence_Binding_FULL"));
                md.insert(owned("nist_control_id"), owned("SI-4"));
            }
            None => {}
        }
        assert(message@ == msg_wmi(r, w0));
        assert(md@ == md_wmi(r, w0));
        // Lineage.
        let chain = match pid {
            Some(p) => self.get_lineage_chain(p, 0),
            None => empty_string(),
        };
        assert(chain@ == chain_of(r, t0));
        let mut lineage_chain = lineage_chain;
        if chain.unicode_len() > 0 {
            lineage_chain = Some(owned(chain.as_str()));
            md.insert(owned("lineage_chain"), owned(chain.as_str()));
        }
        assert(md@ == md_lineage(r, w0, t0));
        // Signature matching and signal counting.
        let m = self.match_parts(&md, raw.as_str(), message.as_str(), redactions.len() > 0);
        assert(m matches Some((i, e)) ==> match_of(self.rules(), r, w0, t0) == Some((i as int, e@)));
        let mut sev0 = SeverityLevel::Info;
        let mut count: Option<u64> = None;
        match &m {
            Some((i, e)) => {
                let rule = self.rule_at(*i);
                sev0 = rule.severity;
                md.insert(owned("nist_control_id"), owned(rule.control_id.as_str()));
                md.insert(owned("nist_category"), owned(rule.category.as_str()));
                md.insert(owned("forensic_payload"), owned(e.as_str()));
                let a = concat(rule.control_id.as_str(), ":");
                let key = concat(a.as_str(), e.as_str());
                count = Some(self.bump_signal(key, now));
            }
            None => {}
        }
        // The heuristics.
        let cmd = to_lowercase(message.as_str());
        let raw_l = to_lowercase(raw.as_str());
        let img_l = match &image_opt {
            Some(i) => to_lowercase(i.as_str()),
            None => {
                let e = empty_string();
                to_lowercase(e.as_str())
            }
        };
        let mut v = Triage { severity: sev0, message, metadata: md, outcome, hit: false };
        assert(v@ == triage0(old(self).rules(), r, w0, t0));
        self_protection(&mut v, cmd.as_str(), raw_l.as_str());
        dcsync(&mut v, &rmd);
        pass_the_hash(&mut v, &rmd);
        kernel_invader(&mut v, &rmd);
        let is_orphan = pid.is_some() && !str_contains(chain.as_str(), "->") && parent_process_id.is_some();
        let is_verified = is_verified_chain(chain.as_str());
        let trusted_lineage = is_trusted(&rmd, chain.as_str(), is_verified);
        lineage_violation(&mut v, img_l.as_str(), raw_l.as_str(), is_orphan, trusted_lineage);
        proxy_execution(&mut v, img_l.as_str(), raw_l.as_str());
        com_hijacking(&mut v, raw_l.as_str());
        orphan_escalation(&mut v, is_orphan, m.is_some(), &destination_ip, &image_opt, destination_port);
        assert(v@ == triage_heuristics(old(self).rules(), r, w0, t0));
        let evidence = if v.severity == SeverityLevel::Critical {
            let tag = match v.metadata.get("forensic_tag") {
                Some(t) => owned(t.as_str()),
                None => owned("CriticalIncident"),
            };
            Some(EvidenceRequest { tag, pid })
        } else {
            None
        };
        verified_origin(&mut v, is_verified, chain.as_str());
        noise_suppression(&mut v, count);
        if m.is_some() || v.hit || v.outcome.is_some() {
            finalize(&mut v);
            let sev_text = v.severity.name();
            let Triage { severity: _, message, metadata, outcome, hit: _ } = v;
            let t = LogRecord {
                timestamp, message, severity: Some(sev_text), source, subject_id, outcome, metadata,
                additional_context, raw, unparsed_raw, original_format, quality, incident_id, redactions,
                bridge_hash, chain_hash, parent_process_id, parent_process_name, lineage_chain, line_id,
                destination_ip, destination_port, protocol, process_guid, target_image, granted_access,
                evidence_vault, log_source, process_id, image, command_line, node_id,
            };
            Some(Finding { record: t, evidence })
        } else {
            None
        }
    }
}

/// The findings among the outcomes, in order.
pub open spec fn somes(outs: Seq<Option<Finding>>) -> Seq<Finding>
    decreases outs.len(),
{
    if outs.len() == 0 {
        Seq::empty()
    } else {
        let rest = somes(outs.drop_last());
        match outs.last() {
            Some(f) => rest.push(f),
            None => rest,
        }
    }
}

/// Successive analysis steps: step `i` takes the engine from state `i` to state `i + 1`, analysing
/// record `i` at time `times[i]` with outcome `outs[i]`.
pub open spec fn batch_steps(
    rules: Seq<ControlMapping>,
    framework: ActiveFramework,
    latency_threshold: u64,
    ws: Seq<Map<Seq<char>, WmiState>>,
    ss: Seq<Map<Seq<char>, (u64, Timestamp)>>,
    ts: Seq<Map<u32, (Seq<char>, Option<u32>, Option<Seq<char>>)>>,
    times: Seq<Timestamp>,
    batch: Seq<(LogRecord, bool)>,
    outs: Seq<Option<Finding>>,
) -> bool {
    &&& ws.len() == batch.len() + 1 && ss.len() == batch.len() + 1 && ts.len() == batch.len() + 1
    &&& times.len() == batch.len() && outs.len() == batch.len()
    &&& forall|i: int| 0 <= i < batch.len() ==> #[trigger] analysis(rules, framework, latency_threshold, ws[i], ss[i], ts[i],
        ws[i + 1], ss[i + 1], ts[i + 1], batch[i].0, times[i], batch[i].1, outs[i])
}

impl NistEngine {
    /// Analyses a record now. `toxicity_breach` says whether the record's AI toxicity score reached
    /// the configured threshold.
    pub fn analyze_record(&mut self, record: LogRecord, toxicity_breach: bool) -> (res: Option<Finding>)
        ensures
            exists|t: Timestamp| #[trigger] analysis(old(self).rules(), old(self).framework(), old(self).latency_threshold(),
                old(self).wmi(), old(self).signals(), old(self).tree(), final(self).wmi(), final(self).signals(),
                final(self).tree(), record, t, toxicity_breach, res),
            final(self).rules() == old(self).rules(),
            final(self).framework() == old(self).framework(),
            final(self).latency_threshold() == old(self).latency_threshold(),
    {
        let t = crate::time::now();
        self.analyze_record_at(record, t, toxicity_breach)
    }

    /// Analyses records in order, each with its toxicity triage, and returns the findings. A batch
    /// of more than 100 records first prunes the process tree.
    pub fn analyze_batch(&mut self, batch: Vec<(LogRecord, bool)>) -> (res: Vec<Finding>)
        ensures
            exists|ws: Seq<Map<Seq<char>, WmiState>>, ss: Seq<Map<Seq<char>, (u64, Timestamp)>>,
                ts: Seq<Map<u32, (Seq<char>, Option<u32>, Option<Seq<char>>)>>, times: Seq<Timestamp>,
                outs: Seq<Option<Finding>>|
                #[trigger] batch_steps(old(self).rules(), old(self).framework(), old(self).latency_threshold(), ws, ss, ts, times, batch@, outs)
                && ws[0] == old(self).wmi() && ss[0] == old(self).signals()
                && ts[0] == (if batch@.len() > 100 && old(self).tree().dom().len() > 5000 {
                    Map::<u32, (Seq<char>, Option<u32>, Option<Seq<char>>)>::empty()
                } else {
                    old(self).tree()
                })
                && ws.last() == final(self).wmi() && ss.last() == final(self).signals() && ts.last() == final(self).tree()
                && res@ == somes(outs),
            final(self).rules() == old(self).rules(),
            final(self).framework() == old(self).framework(),
            final(self).latency_threshold() == old(self).latency_threshold(),
    {
        if batch.len() > 100 {
            self.prune_tree();
        }
        let ghost t_init = self.tree();
        assert(t_init == (if batch@.len() > 100 && old(self).tree().dom().len() > 5000 {
            Map::<u32, (Seq<char>, Option<u32>, Option<Seq<char>>)>::empty()
        } else {
            old(self).tree()
        }));
        let ghost b0 = batch@;
        let ghost mut ws: Seq<Map<Seq<char>, WmiState>> = seq![self.wmi()];
        let ghost mut ss: Seq<Map<Seq<char>, (u64, Timestamp)>> = seq![self.signals()];
        let ghost mut ts: Seq<Map<u32, (Seq<char>, Option<u32>, Option<Seq<char>>)>> = seq![self.tree()];
        let ghost mut times: Seq<Timestamp> = Seq::empty();
        let ghost mut outs: Seq<Option<Finding>> = Seq::empty();
        let mut batch = batch;
        let mut res: Vec<Finding> = Vec::new();
        let mut k: usize = 0;
        while batch.len() > 0
            invariant
                b0.len() == k + batch@.len(),
                batch@ == b0.subrange(k as int, b0.len() as int),
                batch_steps(old(self).rules(), old(self).framework(), old(self).latency_threshold(), ws, ss, ts, times,
                    b0.subrange(0, k as int), outs),
                ws.last() == self.wmi() && ss.last() == self.signals() && ts.last() == self.tree(),
                ws[0] == old(self).wmi() && ss[0] == old(self).signals() && ts[0] == t_init,
                res@ == somes(outs),
                b0.len() <= usize::MAX,
                self.rules() == old(self).rules(),
                self.framework() == old(self).framework(),
                self.latency_threshold() == old(self).latency_threshold(),
            decreases batch@.len(),
        {
            let (record, toxic) = batch.remove(0);
            let ghost w0 = self.wmi();
            let ghost s0 = self.signals();
            let ghost t0 = self.tree();
            let t = crate::time::now();
            let out = self.analyze_record_at(record, t, toxic);
            proof {
                let old_outs = outs;
                ws = ws.push(self.wmi());
                ss = ss.push(self.signals());
                ts = ts.push(self.tree());
                times = times.push(t);
                outs = outs.push(out);
                let pre = b0.subrange(0, k as int);
                let nb = b0.subrange(0, k + 1);
                assert(nb =~= pre.push(b0[k as int]));
                assert forall|i: int| 0 <= i < nb.len() implies #[trigger] analysis(old(self).rules(), old(self).framework(),
                    old(self).latency_threshold(), ws[i], ss[i], ts[i], ws[i + 1], ss[i + 1], ts[i + 1], nb[i].0, times[i],
                    nb[i].1, outs[i]) by {
                    if i < k {
                        assert(nb[i] == pre[i]);
                    }
                }
                assert(outs.drop_last() =~= old_outs);
            }
            match out {
                Some(f) => res.push(f),
                None => {}
            }
            k += 1;
        }
        proof {
            assert(b0.subrange(0, k as int) =~= b0);
            assert(batch_steps(old(self).rules(), old(self).framework(), old(self).latency_threshold(), ws, ss, ts, times, b0, outs));
        }
        res
    }
}

} // verus!
