//! Proof-of-review receipts (NIST AU-6): each receipt seals the hash of its payload and names
//! the payload hash of the receipt before it, so that the receipts form a hash chain.

use vstd::prelude::*;
use crate::edge::{chain_digest, hex, sha256, to_hex};
use crate::text::owned;
use crate::time::Timestamp;
use vstd::utf8::encode_utf8;

verus! {

/// What a review covered.
#[derive(Debug)]
pub struct ReceiptMetrics {
    pub total_signals_reviewed: u64,
    pub failures_detected: u64,
    pub time_window_start: Timestamp,
    pub time_window_end: Timestamp,
}

/// The seal of a receipt: the hash of its payload and that of the receipt before it.
#[derive(Debug)]
pub struct CryptographicSeal {
    pub algorithm: String,
    pub payload_hash: String,
    pub previous_receipt_hash: String,
}

/// A sealed proof of review.
#[derive(Debug)]
pub struct AuditReceipt {
    pub artifact_type: String,
    pub timestamp_generated: Timestamp,
    pub aegis_version: String,
    pub ruleset_applied: String,
    pub metrics: ReceiptMetrics,
    pub cryptographic_seal: CryptographicSeal,
}

/// Keeps the chain of receipts in a JSON-lines ledger.
#[derive(Debug)]
pub struct ReceiptManager {
    pub ledger_path: String,
}

/// The hash the first receipt names as its predecessor's: sixty-four zeros.
pub open spec fn genesis_hash() -> Seq<char> {
    Seq::new(64, |i: int| '0')
}

/// The lower-case hexadecimal SHA-256 digest of a text's UTF-8 bytes.
pub open spec fn text_digest(text: Seq<char>) -> Seq<char> {
    hex(sha256(encode_utf8(text)))
}

proof fn lemma_hex_len(b: Seq<u8>)
    ensures
        hex(b).len() == 2 * b.len(),
    decreases b.len(),
{
    if b.len() > 0 {
        lemma_hex_len(b.drop_last());
    }
}

/// The lower-case hexadecimal SHA-256 digest of a text's UTF-8 bytes: sixty-four digits.
pub fn digest_hex(text: &str) -> (h: String)
    ensures
        h@ == text_digest(text@),
        h@.len() == 64,
{
    let none: Vec<u8> = Vec::new();
    let d = chain_digest(none.as_slice(), text.as_bytes());
    proof {
        assert(none@ + encode_utf8(text@) =~= encode_utf8(text@));
        lemma_hex_len(d@);
    }
    to_hex(d.as_slice())
}

/// The hash a new receipt names as its predecessor's: the last receipt's payload hash, or the
/// genesis hash when the ledger holds none.
pub open spec fn predecessor_hash(last: Option<Seq<char>>) -> Seq<char> {
    match last {
        Some(h) => h,
        None => genesis_hash(),
    }
}

fn genesis() -> (s: String)
    ensures
        s@ == genesis_hash(),
{
    let mut v: Vec<char> = Vec::new();
    let mut i: usize = 0;
    while i < 64
        invariant
            0 <= i <= 64,
            v@ == Seq::new(i as nat, |k: int| '0'),
        decreases 64 - i,
    {
        v.push('0');
        i += 1;
        assert(v@ =~= Seq::new(i as nat, |k: int| '0'));
    }
    crate::text::string_from_chars(v.as_slice())
}

impl ReceiptManager {
    /// A manager keeping its ledger at `ledger_path`.
    pub fn new(ledger_path: String) -> (m: ReceiptManager)
        ensures
            m.ledger_path == ledger_path,
    {
        ReceiptManager { ledger_path }
    }

    /// A receipt of a review under ruleset `profile_name` with engine `version`, generated at
    /// `now`. `payload_json` is the JSON of the payload (the receipt without its seal) and
    /// `last_payload_hash` the payload hash of the last receipt in the ledger, if any. The seal
    /// hashes the payload with SHA-256 and names the last receipt's hash, or sixty-four zeros.
    pub fn generate_receipt(
        &self,
        metrics: ReceiptMetrics,
        version: &str,
        profile_name: &str,
        now: Timestamp,
        payload_json: &str,
        last_payload_hash: Option<String>,
    ) -> (r: AuditReceipt)
        ensures
            r.artifact_type@ == "NIST_AU-6_PROOF_OF_REVIEW"@,
            r.timestamp_generated == now,
            r.aegis_version@ == version@,
            r.ruleset_applied@ == profile_name@,
            r.metrics == metrics,
            r.cryptographic_seal.algorithm@ == "SHA-256"@,
            r.cryptographic_seal.payload_hash@ == text_digest(payload_json@),
            r.cryptographic_seal.previous_receipt_hash@ == predecessor_hash(match last_payload_hash {
                Some(h) => Some(h@),
                None => None,
            }),
    {
        let previous = match last_payload_hash {
            Some(h) => h,
            None => genesis(),
        };
        AuditReceipt {
            artifact_type: owned("NIST_AU-6_PROOF_OF_REVIEW"),
            timestamp_generated: now,
            aegis_version: owned(version),
            ruleset_applied: owned(profile_name),
            metrics,
            cryptographic_seal: CryptographicSeal {
                algorithm: owned("SHA-256"),
                payload_hash: digest_hex(payload_json),
                previous_receipt_hash: previous,
            },
        }
    }
}

impl ReceiptMetrics {
    /// What a review covered: the records processed and the signals found over the monitor's
    /// uptime, ending `now`.
    pub fn of_review(total_signals_reviewed: u64, failures_detected: u64, uptime_secs: u64, now: Timestamp) -> (m: ReceiptMetrics)
        requires
            now.secs - uptime_secs >= i64::MIN,
        ensures
            m.total_signals_reviewed == total_signals_reviewed,
            m.failures_detected == failures_detected,
            m.time_window_start == (Timestamp { secs: (now.secs - uptime_secs) as i64, nanos: now.nanos }),
            m.time_window_end == now,
    {
        let start = (now.secs as i128) - (uptime_secs as i128);
        ReceiptMetrics {
            total_signals_reviewed,
            failures_detected,
            time_window_start: Timestamp { secs: start as i64, nanos: now.nanos },
            time_window_end: now,
        }
    }
}

} // verus!
