use aegis::lineage::LineageGraph;
use aegis::models::{LogRecord, SeverityLevel};
use aegis::time::Timestamp;

fn creation(pid: u32, ppid: Option<u32>, image: &str, millis: i64) -> LogRecord {
    let mut r = LogRecord::blank_at(Timestamp { secs: 1_700_000_000 + millis / 1000, nanos: ((millis % 1000) * 1_000_000) as u32 });
    r.metadata.insert("EventID".to_string(), "1".to_string());
    r.process_id = Some(pid);
    r.parent_process_id = ppid;
    r.image = Some(image.to_string());
    r
}

#[test]
fn non_creation_records_are_ignored() {
    let mut g = LineageGraph::new();
    let mut r = creation(5, None, "a.exe", 0);
    r.metadata.insert("EventID".to_string(), "4624".to_string());
    g.add_record(&r);
    g.add_record(&creation(0, None, "zero.exe", 0));
    assert_eq!(g.node_count(), 1);
    assert_eq!(g.edge_count(), 0);
}

#[test]
fn creations_link_to_parents_placeholders_or_root() {
    let mut g = LineageGraph::new();
    g.add_record(&creation(100, None, "C:\\Windows\\explorer.exe", 0));
    g.add_record(&creation(200, Some(100), "C:\\Windows\\System32\\whoami.exe", 10));
    let mut orphan = creation(300, Some(999), "C:\\Windows\\System32\\cmd.exe", 20);
    orphan.parent_process_name = Some("C:\\Windows\\System32\\svchost.exe".to_string());
    g.add_record(&orphan);
    g.add_record(&creation(400, Some(777), "x.exe", 30));
    // root + 100 + 200 + 300 + placeholder 999 + 400
    assert_eq!(g.node_count(), 6);
    assert_eq!(g.edge_count(), 4);
    let anomalies = g.detect_anomalies();
    assert_eq!(anomalies.len(), 2);
    assert_eq!(anomalies[0].description, "Suspicious Reconnaissance: Explorer spawned C:\\Windows\\System32\\whoami.exe");
    assert_eq!(anomalies[0].severity, SeverityLevel::Medium);
    assert_eq!(anomalies[0].parent_pid, 100);
    assert_eq!(anomalies[0].child_pid, 200);
    assert_eq!(anomalies[1].description, "System Service Anomaly: svchost.exe spawned cmd.exe");
    assert_eq!(anomalies[1].severity, SeverityLevel::High);
    assert_eq!(anomalies[1].parent_pid, 999);
}

#[test]
fn reports_of_one_process_are_fused() {
    let mut g = LineageGraph::new();
    let mut first = creation(42, None, "C:\\Windows\\System32\\cmd.exe", 0);
    first.log_source = Some("Sysmon".to_string());
    g.add_record(&first);
    let mut second = creation(42, None, "cmd.exe", 300);
    second.log_source = Some("Security".to_string());
    second.command_line = Some("cmd /c whoami".to_string());
    g.add_record(&second);
    assert_eq!(g.node_count(), 2);
    assert_eq!(g.correlation_count, 1);
    // Outside the window: a new node, the process id now names it.
    g.add_record(&creation(42, None, "cmd.exe", 2000));
    assert_eq!(g.node_count(), 3);
    assert_eq!(g.correlation_count, 1);
}

#[test]
fn fusion_window_can_be_narrowed() {
    let mut g = LineageGraph::new();
    g.set_fuzzy_window(100);
    g.add_record(&creation(42, None, "cmd.exe", 0));
    g.add_record(&creation(42, None, "cmd.exe", 300));
    assert_eq!(g.node_count(), 3);
    assert_eq!(g.correlation_count, 0);
}

#[test]
fn office_spawning_a_shell_is_critical() {
    let mut g = LineageGraph::new();
    g.add_record(&creation(1, None, "C:\\Program Files\\Office\\WINWORD.EXE", 0));
    g.add_record(&creation(2, Some(1), "C:\\Windows\\System32\\WindowsPowerShell\\powershell.exe", 10));
    g.add_record(&creation(3, None, "C:\\Windows\\System32\\spoolsv.exe", 20));
    g.add_record(&creation(4, Some(3), "C:\\Windows\\System32\\cmd.exe", 30));
    let anomalies = g.detect_anomalies();
    let descriptions: Vec<&str> = anomalies.iter().map(|a| a.description.as_str()).collect();
    assert_eq!(
        descriptions,
        vec![
            "LotL Anomaly: C:\\Program Files\\Office\\WINWORD.EXE spawned suspicious shell C:\\Windows\\System32\\WindowsPowerShell\\powershell.exe",
            "LotL Anomaly: C:\\Windows\\System32\\spoolsv.exe spawned suspicious shell C:\\Windows\\System32\\cmd.exe",
            "SYSTEM Anomaly: Print Spooler spawned a shell (Possible PrintNightmare/Exploit)",
        ]
    );
    assert_eq!(anomalies[0].severity, SeverityLevel::Critical);
    assert_eq!(anomalies[1].severity, SeverityLevel::High);
    assert_eq!(anomalies[2].severity, SeverityLevel::Critical);
}
