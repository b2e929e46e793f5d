use aegis::compliance_cache::{cache_key, deduplicate, is_expired, new_failure, DedupeOutcome};
use aegis::config::{ActiveFramework, AppConfig};
use aegis::ledger::PostureEvent;
use aegis::metadata::Metadata;
use aegis::models::{ComplianceStatus, SeverityLevel};
use aegis::report::{aggregate_controls, ComplianceReporter, OscalExporter};
use aegis::text::text_less;
use aegis::time::Timestamp;

fn event(control: &str, severity: SeverityLevel, raw: &str) -> PostureEvent {
    PostureEvent {
        timestamp: Timestamp { secs: 1_700_000_000, nanos: 0 },
        control_id: control.to_string(),
        status: ComplianceStatus::Fail,
        severity,
        description: String::new(),
        human_title: String::new(),
        human_action: String::new(),
        long_description: String::new(),
        remediation: String::new(),
        adversary_profile: String::new(),
        tactical_intent: String::new(),
        attack_mechanism: String::new(),
        raw_log: raw.to_string(),
        metadata: Metadata::new(),
        incident_id: None,
    }
}

#[test]
fn text_order_is_code_point_order() {
    assert!(text_less("AU-12", "AU-2"));
    assert!(text_less("AU", "AU-2"));
    assert!(!text_less("SI-4", "AU-9"));
    assert!(!text_less("AU-9", "AU-9"));
}

#[test]
fn roll_up_groups_sorts_and_samples() {
    let mut es = Vec::new();
    for i in 1..=12 {
        es.push(event("SI-4", if i == 7 { SeverityLevel::Critical } else { SeverityLevel::Low }, &format!("r{}", i)));
    }
    es.push(event("AU-9", SeverityLevel::High, "a1"));
    let sums = aggregate_controls(&es, false);
    assert_eq!(sums.len(), 2);
    assert_eq!(sums[0].control_id, "AU-9");
    assert_eq!(sums[0].occurrence_count, 1);
    assert_eq!(sums[0].first_5, vec!["a1"]);
    assert!(sums[0].last_5.is_empty());
    assert_eq!(sums[1].control_id, "SI-4");
    assert_eq!(sums[1].occurrence_count, 12);
    assert_eq!(sums[1].first_5, vec!["r1", "r2", "r3", "r4", "r5"]);
    assert_eq!(sums[1].last_5, vec!["r8", "r9", "r10", "r11", "r12"]);
    assert_eq!(sums[1].severity, SeverityLevel::Critical);
}

#[test]
fn roll_up_under_the_commercial_framework() {
    let es = vec![
        event("AU-2", SeverityLevel::Low, "x"),
        event("ZZ-99", SeverityLevel::Low, "y"),
        event("SI-4", SeverityLevel::Medium, "z"),
    ];
    let sums = aggregate_controls(&es, true);
    let ids: Vec<&str> = sums.iter().map(|s| s.control_id.as_str()).collect();
    assert_eq!(ids, vec!["3.14.3", "3.3.1"]);
}

#[test]
fn assessment_results_document() {
    let es = vec![event("SI-4", SeverityLevel::High, "x"), event("SI-4", SeverityLevel::High, "y")];
    let config = AppConfig::default_config();
    let d = OscalExporter::generate_assessment_results(&es, "HQ", &config);
    let a = &d.assessment_results;
    assert_eq!(a.metadata.title, "HQ OSCAL Assessment Results");
    assert_eq!(a.metadata.oscal_version, "1.1.2");
    let r = &a.results[0];
    assert_eq!(r.title, "Forensic Assessment for HQ");
    assert_eq!(r.description, "Aegis-automated audit record (LFA v3) containing 2 signals (Aggregated).");
    assert_eq!(r.observations.len(), 1);
    assert_eq!(r.observations[0].description, "NIST Control Capture: SI-4");
    assert_eq!(r.observations[0].methods, vec!["EXAMINE", "TEST"]);
    assert_eq!(r.observations[0].sample_evidence, vec!["x", "y"]);
    assert_eq!(r.findings[0].title, "Compliance Deviation: SI-4");
    assert_eq!(
        r.findings[0].description,
        "An aggregated security deficiency was detected for control SI-4. Total incidents: 2."
    );
    assert_eq!(r.findings[0].target.status.state, "not-satisfied");
    assert_ne!(r.observations[0].uuid, r.findings[0].uuid);
}

#[test]
fn hash_event_is_sha256_hex() {
    assert_eq!(
        OscalExporter::hash_event("abc"),
        "ba7816bf8f01cfea414140de5dae2223b00361a396177a9cb410ff61f20015ad"
    );
}

#[test]
fn poam_candidates_take_incident_leads_then_isolated_failures() {
    let config = AppConfig::default_config();
    let mut a = event("AC-3", SeverityLevel::Critical, "first of incident 7");
    a.incident_id = Some(7);
    a.metadata.insert("host".to_string(), "WS-01".to_string());
    let mut b = event("AC-3", SeverityLevel::High, "second of incident 7");
    b.incident_id = Some(7);
    let c = event("SI-4", SeverityLevel::High, "isolated");
    let d = event("SI-4", SeverityLevel::Medium, "too mild");
    let mut e = event("SI-4", SeverityLevel::Critical, "passed");
    e.status = ComplianceStatus::Pass;
    let mut f = event("AU-9", SeverityLevel::Critical, "incident 9");
    f.incident_id = Some(9);
    let cs = OscalExporter::poam_candidates(&vec![c, a, b, d, e, f], &config);
    let summary: Vec<(String, String)> = cs.iter().map(|c| (c.system_id.clone(), c.control_id.clone())).collect();
    assert_eq!(
        summary,
        vec![
            ("WS-01".to_string(), "AC-3".to_string()),
            ("aegis.edge-node.01".to_string(), "AU-9".to_string()),
            ("aegis.edge-node.01".to_string(), "SI-4".to_string()),
        ]
    );
    assert_eq!(cs[0].evidence_hash, OscalExporter::hash_event("first of incident 7"));
}

#[test]
fn poam_items_and_document() {
    let f = new_failure(42, "AC-3".to_string(), "WS-01".to_string(), Timestamp { secs: 10, nanos: 0 }, "abcd".to_string());
    let item = OscalExporter::poam_item(&f);
    assert_eq!(item.title, "PoAM Item: AC-3 - WS-01");
    assert_eq!(item.description, "Recurrent security integrity failure detected. Initial detection fingerprint: abcd.");
    assert_eq!(item.status, "Draft");
    assert_eq!(item.uuid, 42);
    let p = OscalExporter::generate_poam(&vec![f]);
    assert_eq!(p.plan_of_action_and_milestones.metadata.title, "Aegis Sentinel: Managed OSCAL PoAM");
    assert_eq!(p.plan_of_action_and_milestones.poam_items.len(), 1);
}

#[test]
fn failures_are_deduplicated_for_four_hours() {
    assert_eq!(cache_key("WS-01", "AC-3"), "WS-01:AC-3");
    let t0 = Timestamp { secs: 1_000_000, nanos: 0 };
    let f = new_failure(1, "AC-3".to_string(), "WS-01".to_string(), t0, "h".to_string());
    let later = Timestamp { secs: 1_000_000 + 4 * 3600 - 1, nanos: 0 };
    match deduplicate(Some(f), later) {
        DedupeOutcome::Refreshed(g) => {
            assert_eq!(g.occurrence_count, 2);
            assert_eq!(g.last_seen, later);
            assert_eq!(g.entry_timestamp, t0);
        }
        other => panic!("unexpected {:?}", other),
    }
    let f = new_failure(1, "AC-3".to_string(), "WS-01".to_string(), t0, "h".to_string());
    let too_late = Timestamp { secs: 1_000_000 + 4 * 3600, nanos: 0 };
    assert!(matches!(deduplicate(Some(f), too_late), DedupeOutcome::Expired));
    assert!(matches!(deduplicate(None, too_late), DedupeOutcome::Absent));
    let f = new_failure(1, "AC-3".to_string(), "WS-01".to_string(), t0, "h".to_string());
    assert!(!is_expired(&f, too_late));
    assert!(is_expired(&f, Timestamp { secs: 1_000_000 + 4 * 3600, nanos: 1 }));
}

#[test]
fn framework_choice_is_respected() {
    let mut config = AppConfig::default_config();
    config.active_framework = ActiveFramework::Commercial171;
    let es = vec![event("SI-4", SeverityLevel::High, "x")];
    let d = OscalExporter::generate_assessment_results(&es, "HQ", &config);
    assert_eq!(d.assessment_results.results[0].findings[0].title, "Compliance Deviation: 3.14.3");
}

#[test]
fn certificate_status_and_rows() {
    let mut es: Vec<PostureEvent> = (0..60).map(|i| event(&format!("AC-{}", i), SeverityLevel::Low, "raw")).collect();
    for e in es.iter_mut() {
        e.status = ComplianceStatus::Pass;
    }
    assert_eq!(ComplianceReporter::certification_status(&es), "COMPLIANT");
    es[59].status = ComplianceStatus::Fail;
    assert_eq!(ComplianceReporter::certification_status(&es), "NON-COMPLIANT (Review PoAM)");
    let rows = ComplianceReporter::evidence_rows(&es);
    assert_eq!(rows.len(), 50);
    assert_eq!(rows[3].0, "AC-3");
    assert_eq!(rows[3].2, "raw");
    assert_eq!(ComplianceReporter::evidence_rows(&es[..2].iter().map(|e| event(&e.control_id, SeverityLevel::Low, "x")).collect()).len(), 2);
}
