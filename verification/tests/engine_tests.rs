use aegis::config::AppConfig;
use aegis::engine::NistEngine;
use aegis::models::LogRecord;

fn engine() -> NistEngine {
    match NistEngine::new(AppConfig::default_config(), Vec::new()) {
        Ok(e) => e,
        Err(e) => panic!("{}", e.message()),
    }
}

#[test]
fn test_ghost_hunter_verified_origin() {
    let mut engine = engine();

    // Parent: UpdateOrchestrator (PID 1000)
    let mut parent_record = LogRecord::default();
    parent_record.message = "Process Created: UpdateOrchestrator.exe".to_string();
    parent_record.metadata.insert("ProcessId".to_string(), "1000".to_string());
    parent_record.metadata.insert("NewProcessName".to_string(), "C:\\Windows\\System32\\UpdateOrchestrator.exe".to_string());

    // Child: wevtutil.exe (PID 2000) spawned by 1000
    let mut child_record = LogRecord::default();
    child_record.message = "wevtutil.exe cl Security".to_string();
    child_record.parent_process_id = Some(1000);
    child_record.metadata.insert("ProcessId".to_string(), "2000".to_string());
    child_record.metadata.insert("NewProcessName".to_string(), "wevtutil.exe".to_string());
    child_record.raw = "wevtutil.exe cl Security".to_string();

    let results = engine.analyze_batch(vec![(parent_record, false), (child_record, false)]);

    let result_child = results
        .iter()
        .find(|f| f.record.metadata.get("ProcessId").map(|s| s.as_str()) == Some("2000"))
        .unwrap();
    assert_eq!(result_child.record.severity.as_ref().unwrap(), "Info");
    assert!(result_child.record.outcome.as_ref().unwrap().contains("VerifiedOrigin"));
}

#[test]
fn test_ghost_hunter_orphan_escalation() {
    let mut engine = engine();

    let mut orphan_record = LogRecord::default();
    orphan_record.message = "mimikatz.exe privilege::debug".to_string();
    orphan_record.parent_process_id = Some(9999);
    orphan_record.metadata.insert("ProcessId".to_string(), "3000".to_string());
    orphan_record.metadata.insert("NewProcessName".to_string(), "mimikatz.exe".to_string());
    orphan_record.raw = "mimikatz.exe privilege::debug".to_string();

    let results = engine.analyze_batch(vec![(orphan_record, false)]);

    let result_orphan = &results.get(0).unwrap().record;
    assert_eq!(result_orphan.severity.as_ref().unwrap(), "Critical");
    assert!(result_orphan.message.contains("ORPHAN PROCESS"));
}

#[test]
fn test_pass_the_hash_detection() {
    let mut engine = engine();

    let mut pth_record = LogRecord::default();
    pth_record.message = "An account was successfully logged on.".to_string();
    pth_record.metadata.insert("EventID".to_string(), "4624".to_string());
    pth_record.metadata.insert("LogonType".to_string(), "9".to_string());
    pth_record.metadata.insert("LogonProcessName".to_string(), "seclogo".to_string());
    pth_record.metadata.insert("AuthenticationPackageName".to_string(), "Negotiate".to_string());

    let results = engine.analyze_batch(vec![(pth_record, false)]);

    let result_pth = &results.get(0).unwrap().record;
    assert_eq!(result_pth.severity.as_ref().unwrap(), "Critical");
    assert!(result_pth.message.contains("PASS-THE-HASH"));
    assert!(result_pth.metadata.get("forensic_tag").unwrap() == "PassTheHash");
}

#[test]
fn record_with_outcome_is_reported_and_tagged() {
    let mut engine = engine();
    let mut r = LogRecord::default();
    r.message = "quiet event".to_string();
    r.raw = "quiet raw".to_string();
    r.outcome = Some("Failure".to_string());
    let f = engine.analyze_record(r, false).expect("a record with an outcome is reported");
    assert_eq!(f.record.raw, "quiet raw");
    assert!(f.record.metadata.get("nist_control_id").is_some());
    assert!(f.record.metadata.get("captured_message").is_some());
    let sev = f.record.severity.clone().unwrap();
    assert!(["Info", "Low", "Medium", "High", "Critical"].contains(&sev.as_str()));
}

#[test]
fn orphan_finding_is_ghost_hunter() {
    let mut engine = engine();
    let mut r = LogRecord::default();
    r.message = "mimikatz.exe privilege::debug".to_string();
    r.raw = "mimikatz.exe privilege::debug".to_string();
    r.parent_process_id = Some(9999);
    r.metadata.insert("ProcessId".to_string(), "3000".to_string());
    r.metadata.insert("NewProcessName".to_string(), "mimikatz.exe".to_string());
    let f = engine.analyze_record(r, false).unwrap();
    assert_eq!(f.record.metadata.get("forensic_tag").unwrap(), "OrphanProcess");
    assert_eq!(f.record.metadata.get("nist_control_id").unwrap(), "SI-4 [Ghost Hunter]");
}

#[test]
fn pass_the_hash_is_identity_thief() {
    let mut engine = engine();
    let mut r = LogRecord::default();
    r.message = "An account was successfully logged on.".to_string();
    r.metadata.insert("EventID".to_string(), "4624".to_string());
    r.metadata.insert("LogonType".to_string(), "9".to_string());
    r.metadata.insert("LogonProcessName".to_string(), "seclogo".to_string());
    r.metadata.insert("AuthenticationPackageName".to_string(), "Negotiate".to_string());
    let f = engine.analyze_record(r, false).unwrap();
    assert_eq!(f.record.metadata.get("nist_control_id").unwrap(), "AC-3 [Identity Thief]");
}
