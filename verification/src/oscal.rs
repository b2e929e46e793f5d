//! The NIST OSCAL documents Aegis produces: assessment results and a plan of action and
//! milestones. Identifiers are the 128-bit values of UUIDs; times are instants.

use vstd::prelude::*;
use crate::time::Timestamp;

verus! {

/// An OSCAL assessment-results document.
#[derive(Debug)]
pub struct OscalAssessmentResults {
    pub assessment_results: AssessmentResults,
}

/// The assessment results proper.
#[derive(Debug)]
pub struct AssessmentResults {
    pub uuid: u128,
    pub metadata: Metadata,
    pub results: Vec<ResultEntry>,
}

/// Document metadata.
#[derive(Debug)]
pub struct Metadata {
    pub title: String,
    pub last_modified: Timestamp,
    pub version: String,
    pub oscal_version: String,
}

/// One assessment.
#[derive(Debug)]
pub struct ResultEntry {
    pub uuid: u128,
    pub title: String,
    pub description: String,
    pub start: Timestamp,
    pub observations: Vec<Observation>,
    pub findings: Vec<Finding>,
}

/// What was observed of one control.
#[derive(Debug)]
pub struct Observation {
    pub uuid: u128,
    pub description: String,
    pub methods: Vec<String>,
    pub occurrence_count: usize,
    pub sample_evidence: Vec<String>,
    pub relevant_evidence: Vec<Evidence>,
}

/// A piece of evidence.
#[derive(Debug)]
pub struct Evidence {
    pub description: String,
}

/// A deviation from a control.
#[derive(Debug)]
pub struct Finding {
    pub uuid: u128,
    pub title: String,
    pub description: String,
    pub occurrence_count: usize,
    pub incident_id: Option<u128>,
    pub target: FindingTarget,
}

/// What a finding is about, and how it stands.
#[derive(Debug)]
pub struct FindingTarget {
    pub target_id: String,
    pub status: FindingStatus,
}

/// How a target stands: `satisfied` or `not-satisfied`.
#[derive(Debug)]
pub struct FindingStatus {
    pub state: String,
}

/// An OSCAL plan of action and milestones.
#[derive(Debug)]
pub struct OscalPoam {
    pub plan_of_action_and_milestones: Poam,
}

/// The plan proper.
#[derive(Debug)]
pub struct Poam {
    pub uuid: u128,
    pub metadata: Metadata,
    pub poam_items: Vec<PoamItem>,
}

/// One item of the plan: a recurring failure to remediate.
#[derive(Debug)]
pub struct PoamItem {
    pub uuid: u128,
    pub incident_id: Option<u128>,
    pub title: String,
    pub description: String,
    pub status: String,
    pub occurrence_count: usize,
    pub entry_timestamp: Timestamp,
    pub last_seen: Timestamp,
    pub impacted_system: String,
    pub evidence_hash: String,
    pub remediation_remarks: String,
    pub correlated_events: Vec<u128>,
}

} // verus!
