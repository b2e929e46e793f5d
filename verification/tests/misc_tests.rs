use aegis::audit_receipt::{digest_hex, ReceiptManager, ReceiptMetrics};
use aegis::correlation::FusionWorker;
use aegis::extraction::{evidence_manifest, TriggeredExtraction};
use aegis::inventory::StorageBin;
use aegis::models::{LogRecord, ParsingQuality};
use aegis::monitor::PostureMonitor;
use aegis::edge::{plan_flush, to_hex, ConnectivityStatus, FlushAction, SpillChain};
use aegis::text::replace_str;
use aegis::time::Timestamp;
use aegis::hub::{artifact_kind, sitrep};
use aegis::notification::NotificationEngine;
use aegis::watch::{chunk_mode, offset_of, plan_read, rotated, ChunkMode, PulseWatch, ReadPlan};

#[derive(Debug, PartialEq)]
struct Board {
    length: f64,
    width: f64,
    thickness: f64,
}

impl Board {
    fn volume(&self) -> f64 {
        self.length * self.width * self.thickness
    }
}

#[test]
fn test_vortex_manual_iterator() {
    let mut bin = StorageBin::new();
    for i in 0..5 {
        bin.add(Board { length: (i + 1) as f64, width: 1.0, thickness: 1.0 });
    }
    let mut count = 0;
    let mut it = bin.iter();
    while let Some(board) = it.next() {
        count += 1;
        println!("🛠️ Measuring Board (volume: {})", board.volume());
    }
    assert_eq!(count, 5);
    assert_eq!(bin.len(), 5);
}

#[test]
fn iterator_yields_items_in_order_then_stops() {
    let mut bin: StorageBin<u32> = StorageBin::default();
    bin.add(3);
    bin.add(1);
    let mut it = bin.iter();
    assert_eq!(it.next(), Some(&3));
    assert_eq!(it.next(), Some(&1));
    assert_eq!(it.next(), None);
    assert_eq!(it.next(), None);
}

fn metrics() -> ReceiptMetrics {
    ReceiptMetrics {
        total_signals_reviewed: 10,
        failures_detected: 2,
        time_window_start: Timestamp { secs: 0, nanos: 0 },
        time_window_end: Timestamp { secs: 60, nanos: 0 },
    }
}

#[test]
fn receipts_form_a_hash_chain() {
    let m = ReceiptManager::new("receipts/aegis_receipts.jsonl".to_string());
    let first = m.generate_receipt(metrics(), "1.0.0", "HIGH", Timestamp { secs: 5, nanos: 0 }, "{\"a\":1}", None);
    assert_eq!(first.artifact_type, "NIST_AU-6_PROOF_OF_REVIEW");
    assert_eq!(first.cryptographic_seal.algorithm, "SHA-256");
    assert_eq!(first.cryptographic_seal.previous_receipt_hash, "0".repeat(64));
    assert_eq!(first.cryptographic_seal.payload_hash, digest_hex("{\"a\":1}"));
    let second = m.generate_receipt(
        metrics(),
        "1.0.0",
        "HIGH",
        Timestamp { secs: 6, nanos: 0 },
        "{\"a\":2}",
        Some(first.cryptographic_seal.payload_hash.clone()),
    );
    assert_eq!(second.cryptographic_seal.previous_receipt_hash, first.cryptographic_seal.payload_hash);
    assert_ne!(second.cryptographic_seal.payload_hash, first.cryptographic_seal.payload_hash);
    assert_eq!(digest_hex(""), "e3b0c44298fc1c149afbf4c8996fb92427ae41e4649b934ca495991b7852b855");
}

#[test]
fn collection_plans_per_tag() {
    let net = TriggeredExtraction::collection_plan("PivotAttempt", None, "vault");
    let programs: Vec<&str> = net.iter().map(|c| c.program.as_str()).collect();
    assert_eq!(programs, vec!["netstat", "ipconfig", "arp"]);
    assert_eq!(net[1].args, vec!["/displaydns"]);
    let unknown = TriggeredExtraction::collection_plan("Whatever", Some(4), "vault");
    assert_eq!(unknown.len(), 3);
    let id = TriggeredExtraction::collection_plan("CredentialDumping", None, "vault");
    assert_eq!(id.len(), 3);
    assert_eq!(id[2].args[0], "save");
    assert_eq!(id[2].args[2], std::path::Path::new("vault").join("SAM.hiv").to_string_lossy());
    assert!(id[2].best_effort);
    let proc_plan = TriggeredExtraction::collection_plan("OrphanProcess", Some(4242), "vault");
    assert_eq!(proc_plan.len(), 2);
    assert_eq!(proc_plan[0].args, vec!["/m", "/fi", "pid eq 4242"]);
    assert_eq!(proc_plan[0].output_file, "process_4242_modules.txt");
    assert_eq!(proc_plan[1].output_file, "process_4242_details.txt");
    let all = TriggeredExtraction::collection_plan("GhostProcess", None, "vault");
    assert_eq!(all.len(), 1);
    assert_eq!(all[0].output_file, "all_processes.txt");
    assert_eq!(TriggeredExtraction::vault_dir("PassTheHash", "20240101_120000"), "forensic_results/vault_PassTheHash_20240101_120000");
}

#[test]
fn evidence_manifest_lists_artifacts_but_itself() {
    let m = evidence_manifest(
        "vault",
        "2024-01-01T00:00:00+00:00",
        &vec![
            ("netstat.txt".to_string(), "aa".to_string()),
            ("forensic_evidence_manifest.md".to_string(), "bb".to_string()),
        ],
    );
    assert_eq!(
        m,
        "# 📦 Aegis: Forensic Evidence Manifest\n\n**Vault Path**: `vault`\n**Captured At**: `2024-01-01T00:00:00+00:00`\n\n| Artifact | SHA-256 Hash | Integrity Status |\n| :--- | :--- | :--- |\n| `netstat.txt` | `aa` | ✅ VERIFIED |\n"
    );
}

#[test]
fn records_of_one_system_share_an_incident() {
    let mut w = FusionWorker::new();
    let mut a = LogRecord::default();
    a.metadata.insert("computer".to_string(), "DC-01".to_string());
    let mut b = LogRecord::default();
    b.metadata.insert("host".to_string(), "DC-01".to_string());
    let c = LogRecord::default();
    let a = w.fuse(a, 1);
    let b = w.fuse(b, 2);
    let c = w.fuse(c, 3);
    let mut d = LogRecord::default();
    d.metadata.insert("source_ip".to_string(), "unidentified-system".to_string());
    let d = w.fuse(d, 4);
    assert_eq!(a.incident_id, Some(1));
    assert_eq!(b.incident_id, Some(1));
    assert_eq!(c.incident_id, Some(3));
    assert_eq!(d.incident_id, Some(3));
    assert_eq!(FusionWorker::extract_system_id(&c), "unidentified-system");
}

#[test]
fn replace_matches_std() {
    for (hay, from, to) in [("aXbXc", "X", "--"), ("aaaa", "aa", "b"), ("abc", "", "-"), ("", "", "x"), ("héllo", "l", "L")] {
        assert_eq!(replace_str(hay, from, to), hay.replace(from, to));
    }
}

#[test]
fn tail_plans_follow_size_and_rotation() {
    assert_eq!(plan_read(10, 10, false), ReadPlan::Unchanged);
    assert_eq!(plan_read(10, 25, false), ReadPlan::FromOffset(10));
    assert_eq!(plan_read(10, 5, false), ReadPlan::FromStart);
    assert_eq!(plan_read(10, 25, true), ReadPlan::FromStart);
    assert!(rotated(100, 200));
    assert!(!rotated(0, 200));
    assert!(!rotated(100, 100));
}

#[test]
fn checkpoint_text_gives_offset() {
    assert_eq!(offset_of(" 1234\n"), 1234);
    assert_eq!(offset_of("+7"), 7);
    assert_eq!(offset_of("abc"), 0);
    assert_eq!(offset_of(""), 0);
    assert_eq!(offset_of("18446744073709551616"), 0);
}

#[test]
fn chunk_mode_by_first_byte_and_format() {
    assert_eq!(chunk_mode(b"  \n[{\"a\":1}]", "plaintext_fallback"), ChunkMode::JsonArray);
    assert_eq!(chunk_mode(b"{\"a\":1}", "gcp"), ChunkMode::WholeDocument);
    assert_eq!(chunk_mode(b"{\"a\":1}", "ndjson"), ChunkMode::Lines);
    assert_eq!(chunk_mode(b"   ", "gcp"), ChunkMode::Lines);
    assert_eq!(chunk_mode(b"line one", "elastic"), ChunkMode::Lines);
}

#[test]
fn quiet_pulse_syncs_once() {
    let mut w = PulseWatch::new(3);
    let syncs: Vec<bool> = (0..10).map(|_| w.tick(3)).collect();
    assert_eq!(syncs.iter().filter(|s| **s).count(), 1);
    assert!(syncs[5]);
    assert!(!w.tick(4));
    assert_eq!(w.quiet_ticks, 0);
    assert_eq!(w.last_count, 4);
}

#[test]
fn hub_lists_artifacts_by_kind() {
    assert_eq!(artifact_kind("COMMANDERS_BRIEF.md", "md"), "BRIEF");
    assert_eq!(artifact_kind("NIST_MANIFEST.md", "md"), "NIST");
    assert_eq!(artifact_kind("oscal-poam.json", "json"), "OSCAL");
    assert_eq!(artifact_kind("my-poam.json", "json"), "TRIAGE");
    assert_eq!(artifact_kind("aegis_forensic_ledger.jsonl.gz", "gz"), "LEDGER");
    assert_eq!(artifact_kind("Security.evtx", "evtx"), "TRIAGE");
    assert_eq!(artifact_kind("notes.txt", "txt"), "LOG");
}

#[test]
fn hub_sitrep_is_first_section() {
    assert_eq!(sitrep("--- TITLE ---\nbody\n--- END"), "TITLE");
    assert_eq!(sitrep("  only one --- separator "), "only one --- separator");
    assert_eq!(sitrep("\nplain brief\n"), "plain brief");
}

#[test]
fn alerts_respect_cooldown() {
    assert!(NotificationEngine::can_notify(0, 5));
    assert!(NotificationEngine::can_notify(100, 105));
    assert!(!NotificationEngine::can_notify(100, 104));
    assert_eq!(NotificationEngine::summary_text(3), "Detected 3 security violations in the recent batch.");
}

#[test]
fn monitor_fallbacks_never_exceed_processed() {
    let start = Timestamp { secs: 1_700_000_000, nanos: 0 };
    let mut m = PostureMonitor::new(start);
    let qs = [
        ParsingQuality::PartialTimestamp,
        ParsingQuality::Malformed,
        ParsingQuality::Success,
        ParsingQuality::Degraded,
        ParsingQuality::PartialTimestamp,
    ];
    for q in qs.iter() {
        m.record_quality(q);
        m.tick();
        let s = m.get_snapshot(start);
        assert!(s.timestamp_fallbacks <= s.total_processed);
    }
    let s = m.get_snapshot(start);
    assert_eq!((s.total_processed, s.timestamp_fallbacks, s.lines_skipped), (3, 2, 1));
}

#[test]
fn spill_chain_links_records_and_resets() {
    let mut c = SpillChain::recover(Vec::new(), None);
    let (id0, h0) = c.spill(b"first");
    assert_eq!(id0, 0);
    assert_eq!(to_hex(&h0), aegis::edge::digest_hex(b"first"));
    let (id1, h1) = c.spill(b"second");
    assert_eq!(id1, 1);
    let mut joined = h0.clone();
    joined.extend_from_slice(b"second");
    assert_eq!(to_hex(&h1), aegis::edge::digest_hex(&joined));
    assert_eq!(c.next_id, 2);
    c.reset();
    assert!(c.last_hash.is_empty() && c.next_id == 0);
    assert_eq!(SpillChain::recover(vec![1, 2], Some(7)).next_id, 8);

    let online = ConnectivityStatus::new(true);
    let offline = ConnectivityStatus::new(false);
    assert_eq!(plan_flush(&online, 3, true), FlushAction::Forward { reconcile: true });
    assert_eq!(plan_flush(&offline, 3, true), FlushAction::Spill);
    assert_eq!(plan_flush(&online, 0, true), FlushAction::ReconcileOnly);
    assert_eq!(plan_flush(&offline, 0, true), FlushAction::Nothing);
}
