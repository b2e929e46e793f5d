//! Audit records and the vocabularies they use.

use vstd::prelude::*;
use crate::json::JsonValue;
use crate::metadata::{Metadata, lookup};
use crate::text::{seq_contains, lowercase, to_lowercase, str_eq, str_contains, owned};
use crate::time::{Timestamp, now};

verus! {

/// Outcome of a control evaluation.
#[derive(Debug, Clone, Copy, PartialEq, Eq, Structural, Default)]
pub enum ComplianceStatus {
    #[default]
    Pass,
    Fail,
    Observation,
}

/// Severity of a finding, from least to most severe.
#[derive(Debug, Clone, Copy, PartialEq, Eq, Structural, PartialOrd, Ord, Default, Hash)]
pub enum SeverityLevel {
    #[default]
    Info,
    Low,
    Medium,
    High,
    Critical,
}

/// Position of a severity in the order `Info < Low < Medium < High < Critical`.
pub open spec fn sev_rank(s: SeverityLevel) -> nat {
    match s {
        SeverityLevel::Info => 0,
        SeverityLevel::Low => 1,
        SeverityLevel::Medium => 2,
        SeverityLevel::High => 3,
        SeverityLevel::Critical => 4,
    }
}

/// The name `Debug` gives a severity.
pub open spec fn sev_name(s: SeverityLevel) -> Seq<char> {
    match s {
        SeverityLevel::Info => "Info"@,
        SeverityLevel::Low => "Low"@,
        SeverityLevel::Medium => "Medium"@,
        SeverityLevel::High => "High"@,
        SeverityLevel::Critical => "Critical"@,
    }
}

impl SeverityLevel {
    /// Position in the severity order.
    pub fn rank(&self) -> (r: u8)
        ensures
            r == sev_rank(*self),
    {
        match self {
            SeverityLevel::Info => 0,
            SeverityLevel::Low => 1,
            SeverityLevel::Medium => 2,
            SeverityLevel::High => 3,
            SeverityLevel::Critical => 4,
        }
    }

    /// `self >= other` in the severity order.
    pub fn at_least(&self, other: SeverityLevel) -> (b: bool)
        ensures
            b == (sev_rank(*self) >= sev_rank(other)),
    {
        self.rank() >= other.rank()
    }

    /// The name `Debug` prints.
    pub fn name(&self) -> (s: String)
        ensures
            s@ == sev_name(*self),
    {
        match self {
            SeverityLevel::Info => owned("Info"),
            SeverityLevel::Low => owned("Low"),
            SeverityLevel::Medium => owned("Medium"),
            SeverityLevel::High => owned("High"),
            SeverityLevel::Critical => owned("Critical"),
        }
    }
}

/// How well a raw line could be turned into a record.
#[derive(Debug, Clone, Copy, PartialEq, Eq, Structural)]
pub enum ParsingQuality {
    Success,
    /// The timestamp could not be read; the time of parsing stands in.
    PartialTimestamp,
    /// Key fields were missing, but the message was salvaged.
    Malformed,
    /// The schema did not match; the raw signal was kept.
    Degraded,
}

/// One kind of sensitive data that was masked, and how often.
#[derive(Debug)]
pub struct RedactionEvent {
    pub reason: String,
    pub count: usize,
}

/// A normalised audit record.
#[derive(Debug)]
pub struct LogRecord {
    pub timestamp: Timestamp,
    pub message: String,
    pub severity: Option<String>,
    pub source: Option<String>,
    pub subject_id: Option<String>,
    pub outcome: Option<String>,
    pub metadata: Metadata,
    pub additional_context: Option<JsonValue>,
    pub raw: String,
    pub unparsed_raw: Option<String>,
    pub original_format: String,
    pub quality: ParsingQuality,
    /// The correlated incident, as the 128-bit value of its UUID.
    pub incident_id: Option<u128>,
    pub redactions: Vec<RedactionEvent>,
    pub bridge_hash: Option<String>,
    pub chain_hash: Option<String>,
    pub parent_process_id: Option<u32>,
    pub parent_process_name: Option<String>,
    pub lineage_chain: Option<String>,
    pub line_id: Option<u32>,
    pub destination_ip: Option<String>,
    pub destination_port: Option<u16>,
    pub protocol: Option<String>,
    pub process_guid: Option<String>,
    pub target_image: Option<String>,
    pub granted_access: Option<String>,
    pub evidence_vault: Option<String>,
    pub log_source: Option<String>,
    pub process_id: Option<u32>,
    pub image: Option<String>,
    pub command_line: Option<String>,
    pub node_id: String,
}

/// A record with no content, stamped at `t`, from the stand-alone node.
pub open spec fn is_blank_record(r: LogRecord, t: Timestamp) -> bool {
    &&& r.message@ == Seq::<char>::empty()
    &&& r.raw@ == Seq::<char>::empty()
    &&& r.original_format@ == Seq::<char>::empty()
    &&& blank_besides_text(r, t)
}

/// Every field but the message, raw text and format name is blank; the stamp is `t`.
pub open spec fn blank_besides_text(r: LogRecord, t: Timestamp) -> bool {
    &&& r.timestamp == t
    &&& r.severity is None && r.source is None && r.subject_id is None && r.outcome is None
    &&& r.metadata@ == Map::<Seq<char>, Seq<char>>::empty()
    &&& r.additional_context is None
    &&& r.unparsed_raw is None
    &&& r.quality == ParsingQuality::Success
    &&& r.incident_id is None
    &&& r.redactions@.len() == 0
    &&& r.bridge_hash is None && r.chain_hash is None
    &&& r.parent_process_id is None && r.parent_process_name is None
    &&& r.lineage_chain is None && r.line_id is None
    &&& r.destination_ip is None && r.destination_port is None && r.protocol is None
    &&& r.process_guid is None && r.target_image is None && r.granted_access is None
    &&& r.evidence_vault is None && r.log_source is None && r.process_id is None
    &&& r.image is None && r.command_line is None
    &&& r.node_id@ == "Standalone"@
}

/// The fields the detection engine leaves alone are the same.
pub open spec fn same_untouched(a: LogRecord, b: LogRecord) -> bool {
    &&& a.timestamp == b.timestamp && a.source == b.source && a.subject_id == b.subject_id
    &&& a.additional_context == b.additional_context && a.raw == b.raw && a.unparsed_raw == b.unparsed_raw
    &&& a.original_format == b.original_format && a.quality == b.quality && a.incident_id == b.incident_id
    &&& a.redactions == b.redactions && a.bridge_hash == b.bridge_hash && a.chain_hash == b.chain_hash
    &&& a.parent_process_id == b.parent_process_id && a.parent_process_name == b.parent_process_name
    &&& a.line_id == b.line_id && a.evidence_vault == b.evidence_vault && a.log_source == b.log_source
    &&& a.process_id == b.process_id && a.image == b.image && a.command_line == b.command_line
    &&& a.node_id == b.node_id
}

/// Every field but the message, severity, outcome and metadata is the same.
pub open spec fn same_besides_triage(a: LogRecord, b: LogRecord) -> bool {
    &&& same_untouched(a, b)
    &&& a.lineage_chain == b.lineage_chain
    &&& a.destination_ip == b.destination_ip && a.destination_port == b.destination_port && a.protocol == b.protocol
    &&& a.process_guid == b.process_guid && a.target_image == b.target_image && a.granted_access == b.granted_access
}

/// The fields no parser sets keep their defaults, and there is no subject.
pub open spec fn parser_defaults(r: LogRecord) -> bool {
    &&& r.subject_id is None
    &&& record_defaults(r)
}

/// The fields no parser sets keep their defaults.
pub open spec fn record_defaults(r: LogRecord) -> bool {
    &&& r.incident_id is None && r.redactions@.len() == 0
    &&& r.bridge_hash is None && r.chain_hash is None && r.lineage_chain is None && r.line_id is None
    &&& r.destination_ip is None && r.destination_port is None && r.protocol is None
    &&& r.process_guid is None && r.target_image is None && r.granted_access is None
    &&& r.evidence_vault is None && r.log_source is None && r.process_id is None
    &&& r.image is None && r.command_line is None
    &&& r.node_id@ == "Standalone"@
}

/// Whether a record must survive sampling: an alarming severity word, a process-creation event,
/// or a tell-tale keyword in the message.
pub open spec fn high_fidelity(r: LogRecord) -> bool {
    let sev_hit = match r.severity {
        Some(s) => {
            let l = lowercase(s@);
            l == "hostile"@ || l == "critical"@ || l == "warning"@ || l == "warn"@ || l == "error"@
        }
        None => false,
    };
    let id_hit = match lookup(r.metadata@, "EventID"@) {
        Some(id) => id == "4688"@ || id == "1"@,
        None => false,
    };
    let m = lowercase(r.message@);
    let kw_hit = seq_contains(m, "mimikatz"@) || seq_contains(m, "lsass"@) || seq_contains(m, "wmi"@)
        || seq_contains(m, "powershell -enc"@) || seq_contains(m, "suppressed"@);
    sev_hit || id_hit || kw_hit
}

impl LogRecord {
    /// A blank record stamped at `t`.
    pub fn blank_at(t: Timestamp) -> (r: LogRecord)
        ensures
            is_blank_record(r, t),
    {
        LogRecord {
            timestamp: t,
            message: String::new(),
            severity: None,
            source: None,
            subject_id: None,
            outcome: None,
            metadata: Metadata::new(),
            additional_context: None,
            raw: String::new(),
            unparsed_raw: None,
            original_format: String::new(),
            quality: ParsingQuality::Success,
            incident_id: None,
            redactions: Vec::new(),
            bridge_hash: None,
            chain_hash: None,
            parent_process_id: None,
            parent_process_name: None,
            lineage_chain: None,
            line_id: None,
            destination_ip: None,
            destination_port: None,
            protocol: None,
            process_guid: None,
            target_image: None,
            granted_access: None,
            evidence_vault: None,
            log_source: None,
            process_id: None,
            image: None,
            command_line: None,
            node_id: owned("Standalone"),
        }
    }

    /// A record with the given message, raw text and format name, stamped now.
    pub fn new(message: String, raw: String, format: &str) -> (r: LogRecord)
        ensures
            r.message == message,
            r.raw == raw,
            r.original_format@ == format@,
            blank_besides_text(r, r.timestamp),
    {
        let mut r = LogRecord::blank_at(now());
        r.message = message;
        r.raw = raw;
        r.original_format = owned(format);
        r
    }

    /// Whether the record must survive sampling under load.
    pub fn is_high_fidelity(&self) -> (b: bool)
        ensures
            b == high_fidelity(*self),
    {
        let sev_hit = match &self.severity {
            Some(s) => {
                let l = to_lowercase(s.as_str());
                str_eq(l.as_str(), "hostile") || str_eq(l.as_str(), "critical") || str_eq(l.as_str(), "warning")
                    || str_eq(l.as_str(), "warn") || str_eq(l.as_str(), "error")
            }
            None => false,
        };
        let id_hit = match self.metadata.get_owned("EventID") {
            Some(id) => str_eq(id.as_str(), "4688") || str_eq(id.as_str(), "1"),
            None => false,
        };
        let m = to_lowercase(self.message.as_str());
        let kw_hit = str_contains(m.as_str(), "mimikatz") || str_contains(m.as_str(), "lsass")
            || str_contains(m.as_str(), "wmi") || str_contains(m.as_str(), "powershell -enc")
            || str_contains(m.as_str(), "suppressed");
        sev_hit || id_hit || kw_hit
    }
}

impl Default for LogRecord {
    /// A blank record stamped with the current time.
    fn default() -> (r: LogRecord)
        ensures
            is_blank_record(r, r.timestamp),
    {
        LogRecord::blank_at(now())
    }
}

} // verus!
