use aegis::ledger::PostureEvent;
use aegis::metadata::Metadata;
use aegis::models::{ComplianceStatus, SeverityLevel};
use aegis::telemetry::{extract_alias, extract_telemetry, telemetry_of};
use aegis::time::Timestamp;

const STAMP: &str = "2023-11-14T22:13:20+00:00";

fn event(raw: &str, description: &str, md: &[(&str, &str)]) -> PostureEvent {
    let mut metadata = Metadata::new();
    for (k, v) in md {
        metadata.insert(k.to_string(), v.to_string());
    }
    PostureEvent {
        timestamp: Timestamp { secs: 1_700_000_000, nanos: 0 },
        control_id: "AU-2".to_string(),
        status: ComplianceStatus::Fail,
        severity: SeverityLevel::High,
        description: description.to_string(),
        human_title: String::new(),
        human_action: String::new(),
        long_description: String::new(),
        remediation: String::new(),
        adversary_profile: String::new(),
        tactical_intent: String::new(),
        attack_mechanism: String::new(),
        raw_log: raw.to_string(),
        metadata,
        incident_id: None,
    }
}

fn seven(a: &str, b: &str, c: &str, d: &str, e: &str, f: &str, g: &str) -> (String, String, String, String, String, String, String) {
    (a.to_string(), b.to_string(), c.to_string(), d.to_string(), e.to_string(), f.to_string(), g.to_string())
}

#[test]
fn telemetry_indicator_suffix_wins() {
    let e = event("pkt 10.0.0.7 -> 10.0.0.9 FORENSIC_INDICATORS:  SYN flood  ", "Port scan", &[("lineage_chain", "a > b")]);
    assert_eq!(
        telemetry_of(&e, STAMP),
        Some(seven("N/A", STAMP, "N/A", "N/A", "SYN flood", "10.0.0.7", "a > b"))
    );
}

#[test]
fn telemetry_captured_message_then_description() {
    let e = event("plain", "Curated text", &[("captured_message", "Logon failure"), ("event_id", "4625"), ("process_id", "88")]);
    assert_eq!(
        telemetry_of(&e, STAMP),
        Some(seven("4625", STAMP, "88", "N/A", "Logon failure", "Unknown", ""))
    );
    let e = event("plain", "Curated text", &[("captured_message", "Endpoint process event"), ("line_id", "12")]);
    assert_eq!(
        telemetry_of(&e, STAMP),
        Some(seven("N/A", STAMP, "N/A", "12", "Curated text", "Unknown", ""))
    );
}

#[test]
fn telemetry_csv_line_takes_sixth_field() {
    let e = event("7,2024-01-01,10:00,Info,CBS, Package installed ,x", "NIST Compliance Violation", &[]);
    assert_eq!(
        telemetry_of(&e, STAMP),
        Some(seven("N/A", STAMP, "N/A", "N/A", "Package installed", "Unknown", ""))
    );
    let e = event("no commas here", "", &[]);
    assert_eq!(telemetry_of(&e, STAMP), Some(seven("N/A", STAMP, "N/A", "N/A", "N/A", "Unknown", "")));
}

#[test]
fn telemetry_origin_fallbacks() {
    let e = event("Netlogon denied (WKS-22) here", "Denied", &[]);
    assert_eq!(telemetry_of(&e, STAMP).unwrap().5, "WKS-22");
    let e = event("agent (Mozilla/5.0; Windows NT 10.0)", "Denied", &[("source_ip", "192.0.2.1")]);
    assert_eq!(telemetry_of(&e, STAMP).unwrap().5, "192.0.2.1");
    let e = event("nothing", "Denied", &[("source_workstation", "HOST7")]);
    assert_eq!(telemetry_of(&e, STAMP).unwrap().5, "HOST7");
}

#[test]
fn telemetry_reads_evtx_json() {
    let raw = r#"{"Event":{"System":{"EventID":4688,"TimeCreated":{"SystemTime":"2024-02-02T01:02:03Z"},"Execution":{"ProcessID":"404"},"EventRecordID":77},"EventData":{"CommandLine":"cmd.exe /c whoami"}}}"#;
    let e = event(raw, "NIST Compliance Violation", &[]);
    assert_eq!(
        telemetry_of(&e, STAMP),
        Some(seven("4688", "2024-02-02T01:02:03Z", "404", "77", "cmd.exe /c whoami", "Unknown", ""))
    );
}

#[test]
fn telemetry_joins_indicator_array() {
    let raw = r#"{"indicators":["beacon", 3, "dns tunnel"]}"#;
    let e = event(raw, "", &[]);
    assert_eq!(
        telemetry_of(&e, STAMP),
        Some(seven("N/A", STAMP, "N/A", "N/A", "beacon | dns tunnel", "Unknown", ""))
    );
}

#[test]
fn telemetry_without_a_stamp_uses_local_time() {
    let e = event("x,y", "Curated", &[]);
    let t = extract_telemetry(&e).unwrap();
    assert_eq!(t.4, "Curated");
    assert!(!t.1.is_empty());
}

#[test]
fn alias_from_unc_path() {
    assert_eq!(extract_alias(r"copied to \\FILESRV-01\share"), Some("Observed: FILESRV-01".to_string()));
}

#[test]
fn alias_from_netlogon_message() {
    assert_eq!(
        extract_alias("denied for WKS7$ on account bob"),
        Some("Observed: WKS7$".to_string())
    );
}

#[test]
fn alias_from_colon_word() {
    assert_eq!(extract_alias("Domain01: Alice-PC logged on"), Some("Observed: Alice-PC".to_string()));
    assert_eq!(extract_alias("Domain01: Bob logged on"), None);
    assert_eq!(extract_alias("Domain01: al.ce logged on"), None);
    assert_eq!(extract_alias("nothing to see"), None);
}
