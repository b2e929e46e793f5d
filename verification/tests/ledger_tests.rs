use aegis::config::AppConfig;
use aegis::engine::NistEngine;
use aegis::ledger::{
    breached, containment_called, generate_commanders_brief, generate_manifest, get_posture_events,
    telemetry_summary, threat, top_event, AuditTrail, GapSentinel, PostureEvent,
};
use aegis::lineage::LineageAnomaly;
use aegis::metadata::Metadata;
use aegis::models::{ComplianceStatus, LogRecord, SeverityLevel};
use aegis::time::Timestamp;

fn at(secs: i64) -> Timestamp {
    Timestamp { secs, nanos: 0 }
}

fn record_at(secs: i64, message: &str) -> LogRecord {
    let mut r = LogRecord::blank_at(at(secs));
    r.message = message.to_string();
    r
}

fn event(control: &str, severity: SeverityLevel, description: &str) -> PostureEvent {
    PostureEvent {
        timestamp: at(1_700_000_000),
        control_id: control.to_string(),
        status: ComplianceStatus::Fail,
        severity,
        description: description.to_string(),
        human_title: format!("Title {}", control),
        human_action: "Review the host".to_string(),
        long_description: String::new(),
        remediation: "Rotate credentials".to_string(),
        adversary_profile: "APT".to_string(),
        tactical_intent: "Persistence".to_string(),
        attack_mechanism: "Registry".to_string(),
        raw_log: "raw".to_string(),
        metadata: Metadata::new(),
        incident_id: None,
    }
}

fn engine() -> NistEngine {
    match NistEngine::new(AppConfig::default_config(), Vec::new()) {
        Ok(e) => e,
        Err(e) => panic!("{}", e.message()),
    }
}

#[test]
fn test_audit_gap_sentinel_detection() {
    // 2024-10-27T10:00:00Z, then 400 seconds later.
    let t1 = 1_730_023_200;
    let mut trail = AuditTrail::new();
    let mut lines: Vec<String> = Vec::new();
    for r in [record_at(t1, "Event 1"), record_at(t1 + 400, "Event 2")] {
        if let Some(w) = trail.record(&r) {
            lines.push(w.message.clone());
        }
        lines.push(r.message.clone());
    }
    assert_eq!(lines.len(), 3);
    assert!(lines[1].contains("NIST AU-6: LOG DISCONTINUITY DETECTED"));
    assert!(lines[1].contains("400"));
}

#[test]
fn gap_warning_fields() {
    let mut s = GapSentinel::new();
    assert!(s.observe(at(1000)).is_none());
    let w = s.observe(at(1401)).unwrap();
    assert_eq!(w.message, "⚠️ NIST AU-6: LOG DISCONTINUITY DETECTED! Gap of 401 seconds in forensic stream.");
    assert_eq!(w.raw, "AUDIT_GAP_SENTINEL: 401s gap detected.");
    assert_eq!(w.severity.as_deref(), Some("Medium"));
    assert_eq!(w.metadata.get("computer").unwrap(), "AEGIS_SENTINEL");
    assert_eq!(w.metadata.get("event_id").unwrap(), "3001");
    assert_eq!(w.metadata.get("gap_seconds").unwrap(), "401");
    assert_eq!(w.timestamp, at(1401));
}

#[test]
fn gap_of_exactly_five_minutes_is_tolerated() {
    let mut s = GapSentinel::new();
    assert!(s.observe(at(0)).is_none());
    assert!(s.observe(at(300)).is_none());
    assert!(s.observe(at(601)).is_some());
    // Going back in time is no gap.
    assert!(s.observe(at(10)).is_none());
}

#[test]
fn observe_all_matches_observe_one_by_one() {
    let mut s = GapSentinel::new();
    let ws = s.observe_all(&vec![at(0), at(100), at(1000), at(1200), at(5000)]);
    let flags: Vec<bool> = ws.iter().map(|w| w.is_some()).collect();
    assert_eq!(flags, vec![false, false, true, false, true]);
    assert!(ws[4].as_ref().unwrap().message.contains("Gap of 3800 seconds"));
}

#[test]
fn posture_events_follow_the_stored_control() {
    let mut engine = engine();
    let mut tagged = record_at(5, "Suspicious change");
    tagged.metadata.insert("nist_control_id".to_string(), "AU-9".to_string());
    tagged.metadata.insert("correlation_type".to_string(), "Lateral chain".to_string());
    tagged.severity = Some("High".to_string());
    let mut privacy = record_at(6, "masked");
    privacy.metadata.insert("nist_control_id".to_string(), "AU-3".to_string());
    let mut bridged = record_at(7, "bridged");
    bridged.bridge_hash = Some("abc".to_string());
    let events = get_posture_events(&mut engine, vec![(tagged, false), (privacy, false), (bridged, false)]);
    assert_eq!(events.len(), 1);
    let e = &events[0];
    assert_eq!(e.control_id, "AU-9");
    assert_eq!(e.severity, SeverityLevel::High);
    assert_eq!(e.status, ComplianceStatus::Fail);
    assert_eq!(e.description, "Suspicious change");
    assert_eq!(e.metadata.get("forensic_payload").unwrap(), "Lateral chain");
}

#[test]
fn posture_event_severity_falls_back_to_the_mapping() {
    let mut engine = engine();
    let mut tagged = record_at(5, "Audit tools touched");
    tagged.metadata.insert("nist_control_id".to_string(), "AU-9".to_string());
    tagged.severity = Some("Whatever".to_string());
    let events = get_posture_events(&mut engine, vec![(tagged, false)]);
    assert_eq!(events.len(), 1);
    assert_eq!(events[0].severity, SeverityLevel::Critical);
    assert_eq!(events[0].metadata.get("forensic_payload").unwrap(), "Historical Audit Match");
}

#[test]
fn threat_and_containment_words() {
    assert!(threat(&event("AU-9", SeverityLevel::High, "x")));
    assert!(!threat(&event("AU-9", SeverityLevel::Medium, "x")));
    assert!(containment_called(&event("AU-9", SeverityLevel::Low, "Please ISOLATE the host")));
    assert!(containment_called(&event("AU-9", SeverityLevel::Low, "via a Proxy")));
    assert!(!containment_called(&event("AU-9", SeverityLevel::Low, "routine")));
    assert!(!breached(&vec![event("AU-9", SeverityLevel::Low, "routine")]));
    assert!(breached(&vec![event("AU-9", SeverityLevel::Low, "host compromised")]));
}

#[test]
fn top_event_is_the_last_most_severe() {
    let es = vec![
        event("A", SeverityLevel::High, "x"),
        event("B", SeverityLevel::Critical, "x"),
        event("C", SeverityLevel::Low, "x"),
        event("D", SeverityLevel::Critical, "x"),
    ];
    assert_eq!(top_event(&es), Some(3));
    assert_eq!(top_event(&Vec::new()), None);
}

#[test]
fn manifest_for_no_findings_is_compliant() {
    let m = generate_manifest(&Vec::new(), "/data/logs/security.evtx");
    assert!(m.starts_with("# 🛡️ NIST 800-53r5 FORENSIC COMPLIANCE MANIFEST\n**MISSION ID**: "));
    assert!(m.contains("**STATUS**: 🟢 COMPLIANT\n"));
    assert!(m.contains("**SCANNED ARTIFACT**: `security.evtx`\n"));
    assert!(m.contains("| Source Artifact | `/data/logs/security.evtx` |\n"));
    assert!(m.contains("* **Status**: ✅ COMPLIANT\n"));
    assert!(m.contains("* **Throughput Metrics**: 0.00 SPM (Signals Per Minute)\n* **Total Signals Ingested**: 0\n"));
    assert!(m.ends_with("immediately following this audit.\n"));
}

#[test]
fn manifest_reports_the_most_severe_finding() {
    let mut e = event("AU-9", SeverityLevel::Critical, "x");
    e.metadata.insert("nist_control_id".to_string(), "AU-9 (tagged)".to_string());
    let es = vec![event("CM-3", SeverityLevel::Low, "x"), e];
    let m = generate_manifest(&es, "app.log");
    assert!(m.contains("**STATUS**: 🔴 NON-COMPLIANT\n"));
    assert!(m.contains("* **Status**: 🔴 NON-COMPLIANT\n* **Detection Logic**: Heuristic Signature Match [AU-9]\n* **Severity Level**: Critical\n"));
    assert!(m.contains("Current event mapping: AU-9 (tagged)\n"));
    assert!(m.contains("120.00 SPM"));
    assert!(m.contains("* **Total Signals Ingested**: 2\n"));
}

#[test]
fn manifest_observation_when_nothing_alarming() {
    let es = vec![event("CM-3", SeverityLevel::Medium, "x")];
    let m = generate_manifest(&es, "app.log");
    assert!(m.contains("**STATUS**: 🟢 COMPLIANT\n"));
    assert!(m.contains("* **Status**: 🟡 OBSERVATION\n"));
}

fn anomaly() -> LineageAnomaly {
    LineageAnomaly {
        parent_pid: 10,
        parent_image: "winword.exe".to_string(),
        child_pid: 11,
        child_image: "cmd.exe".to_string(),
        child_cmd: None,
        timestamp: at(1_700_000_000),
        severity: SeverityLevel::Critical,
        description: "LotL Anomaly: winword.exe spawned suspicious shell cmd.exe".to_string(),
    }
}

#[test]
fn brief_without_findings_is_operational() {
    let b = generate_commanders_brief(&Vec::new(), &Vec::new(), 3, true, "C:\\logs\\host.evtx", None);
    assert!(b.starts_with("--- 🛡️ AEGIS COMMANDER'S TACTICAL BRIEF [OFFLINE MODE] ---\nSTATUS: 🟢 SAFE\n"));
    assert!(b.contains("CORRELATED CROSS-VECTOR EVENTS: 3\n"));
    assert!(b.contains("## STATUS: OPERATIONAL\n\nNo active threats detected"));
    assert!(b.ends_with("**AUTHENTICATION**: AEGIS_CORE_02 // ISSO_LOCAL_V9\n--- END OF BRIEF ---"));
}

#[test]
fn brief_with_warning_only() {
    let es = vec![event("CM-3", SeverityLevel::Medium, "routine")];
    let b = generate_commanders_brief(&es, &Vec::new(), 0, false, "host.log", Some("Two sentences.".to_string()));
    assert!(b.contains("STATUS: 🟡 WARNING (ZERO-TRUST)\n"));
    assert!(b.contains("FIDELITY: 100% (CERTIFIED)\n"));
    assert!(b.contains("## 🧠 AI AUGMENTED SITREP\n> [!NOTE]\n> **AI SYNOPSIS ACTIVE**: Two sentences.\n\n"));
    assert!(b.contains("* **Classification**: Neutral/Internal Event\n"));
    assert!(b.contains("* **CONTROL [SI-4]**: COMPLIANT - System monitoring must detect unauthorized use.\n"));
    assert!(b.ends_with("ISSO_ADVISOR_V9\n--- END OF BRIEF ---"));
}

#[test]
fn brief_with_only_anomalies_is_compromised() {
    let b = generate_commanders_brief(&Vec::new(), &vec![anomaly()], 0, true, "host.log", Some("ignored".to_string()));
    assert!(b.contains("STATUS: 🔴 COMPROMISED\n"));
    assert!(!b.contains("AI AUGMENTED SITREP"));
    assert!(b.contains("## 7. [PROVENANCE] PROCESS LINEAGE ANOMALIES\n"));
    assert!(b.contains(" | winword.exe (10) | cmd.exe (11) | Critical | LotL Anomaly: winword.exe spawned suspicious shell cmd.exe |\n"));
    assert!(b.contains("* **CONTROL [AU-6]**: NON-COMPLIANT - Forensic anomalies require immediate review.\n"));
    assert!(!b.contains("## 1. [WHO]"));
}

#[test]
fn brief_tabulates_at_most_ten_anomalies() {
    let anomalies: Vec<LineageAnomaly> = (0..12).map(|_| anomaly()).collect();
    let b = generate_commanders_brief(&Vec::new(), &anomalies, 0, true, "host.log", None);
    assert_eq!(b.matches(" | winword.exe (10) | ").count(), 10);
}

#[test]
fn brief_and_manifest_agree_on_threats() {
    let es = vec![event("AU-9", SeverityLevel::High, "x")];
    let b = generate_commanders_brief(&es, &Vec::new(), 0, true, "host.log", None);
    let m = generate_manifest(&es, "host.log");
    assert!(b.contains("STATUS: 🔴 COMPROMISED\n"));
    assert!(m.contains("**STATUS**: 🔴 NON-COMPLIANT\n"));
    assert!(b.contains("* **Tool/Actor**: APT\n* **Classification**: Hostile Threat Actor\n"));
    assert!(b.contains("* **NIST Risk**: CRITICAL (SI-4 / SC-7)\n"));
    assert!(b.contains("> **IMMEDIATE ACTION**: Rotate credentials\n\n"));
    assert!(b.contains("* **Attack Type**: Title AU-9\n* **Mechanism**: Registry\n"));
}

#[test]
fn telemetry_summary_text() {
    let es = vec![event("AU-9", SeverityLevel::High, "x")];
    assert_eq!(
        telemetry_summary(&es, 2),
        "Event: Title AU-9. Severity: High. Impact: Persistence. Detected 2 lineage anomalies."
    );
    assert_eq!(telemetry_summary(&Vec::new(), 0), "");
}

#[test]
fn test_forensic_human_readability_regression() {
    let mut top = event("AU-9", SeverityLevel::Critical, "LSASS access");
    top.human_title = "Someone Tried To Steal Passwords".to_string();
    top.remediation = "Isolate the host from the network, reset every account password used on it, and block the attacker's address.".to_string();
    let es = vec![event("SI-4", SeverityLevel::Medium, "routine"), top];
    let brief = generate_commanders_brief(&es, &vec![anomaly()], 2, true, "attack.evtx", None);

    // 1. No heading names a control, catalogue or CVE.
    for line in brief.lines().filter(|l| l.starts_with('#')) {
        assert!(
            !(line.contains("NIST") || line.contains("CVE-") || line.contains("AU-") || line.contains("SI-")),
            "jargon in heading: {}",
            line
        );
    }
    // 2. The plain title of the most severe finding.
    assert!(brief.contains("Someone Tried To Steal Passwords"));
    // 3. Containment verbs in the actions section, before any details block.
    let actions = brief
        .split("## 🛡️ What You Need To Do")
        .nth(1)
        .expect("Missing 'What You Need To Do' section")
        .split("<details>")
        .next()
        .expect("Malformed actions section")
        .to_lowercase();
    let verbs = ["isolate", "reset", "block", "quarantine"];
    assert!(verbs.iter().filter(|v| actions.contains(*v)).count() >= 2);
}
