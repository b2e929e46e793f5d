//! Aegis: forensic log analysis, NIST control mapping and audit record keeping.

pub mod text;
pub mod num;
pub mod metadata;
pub mod time;
pub mod pattern;
pub mod json;
pub mod models;
pub mod config;
pub mod tables;
pub mod crosswalk_ai;
pub mod mappings;
pub mod heuristics;
pub mod engine;
pub mod analysis;
pub mod crosswalk;
pub mod monitor;
pub mod edge;
pub mod notification;
pub mod parsers;
pub mod ledger;
pub mod lineage;
pub mod redaction;
pub mod sentinel;
pub mod inventory;
pub mod audit_receipt;
pub mod report;
pub mod oscal;
pub mod compliance_cache;
pub mod extraction;
pub mod correlation;
pub mod timeline;
pub mod watch;
pub mod vortex;
pub mod hub;
pub mod telemetry;
pub use engine::NistEngine;
