//! The decisions of the compliance failure cache: a failure of one control on one system is
//! tracked for four hours from its first detection, and a recurrence within that window refreshes
//! it instead of opening a new one.

use vstd::prelude::*;
use crate::text::{append, owned};
use crate::time::{Timestamp, ts_nanos};

verus! {

/// The deduplication window: four hours, in nanoseconds.
pub const WINDOW_NANOS: i128 = 14_400_000_000_000;

/// A tracked failure.
#[derive(Debug)]
pub struct CachedFailure {
    pub uuid: u128,
    pub control_id: String,
    pub system_id: String,
    pub entry_timestamp: Timestamp,
    pub last_seen: Timestamp,
    pub occurrence_count: usize,
    pub evidence_hash: String,
}

/// The key a failure is tracked under: `system:control`.
pub open spec fn failure_key(system_id: Seq<char>, control_id: Seq<char>) -> Seq<char> {
    system_id + ":"@ + control_id
}

/// The key a failure is tracked under.
pub fn cache_key(system_id: &str, control_id: &str) -> (k: String)
    ensures
        k@ == failure_key(system_id@, control_id@),
{
    let mut k = owned(system_id);
    append(&mut k, ":");
    append(&mut k, control_id);
    k
}

/// The failure was first detected less than four hours before `now`.
pub open spec fn within_window(f: CachedFailure, now: Timestamp) -> bool {
    ts_nanos(now) - ts_nanos(f.entry_timestamp) < WINDOW_NANOS
}

/// The failure was first detected more than four hours before `now`.
pub open spec fn expired(f: CachedFailure, now: Timestamp) -> bool {
    ts_nanos(now) - ts_nanos(f.entry_timestamp) > WINDOW_NANOS
}

fn nanos_since(now: &Timestamp, then: &Timestamp) -> (d: i128)
    ensures
        d == ts_nanos(*now) - ts_nanos(*then),
{
    let s = (now.secs as i128) - (then.secs as i128);
    let n = (now.nanos as i128) - (then.nanos as i128);
    assert(-20_000_000_000_000_000_000i128 <= s <= 20_000_000_000_000_000_000i128);
    assert(-20_000_000_000_000_000_000_000_000_000i128 <= s * 1_000_000_000 <= 20_000_000_000_000_000_000_000_000_000i128) by (nonlinear_arith)
        requires -20_000_000_000_000_000_000i128 <= s <= 20_000_000_000_000_000_000i128;
    s * 1_000_000_000 + n
}

/// What a new occurrence does to the failure tracked under its key.
#[derive(Debug)]
pub enum DedupeOutcome {
    /// The tracked failure is still within its window: it was seen again now, once more.
    Refreshed(CachedFailure),
    /// The tracked failure is out of its window and is dropped.
    Expired,
    /// Nothing was tracked under the key.
    Absent,
}

/// What a new occurrence at `now` does to the failure tracked under its key, if any: refreshed
/// within the window, dropped outside it.
pub fn deduplicate(existing: Option<CachedFailure>, now: Timestamp) -> (r: DedupeOutcome)
    ensures
        existing is None ==> r is Absent,
        existing matches Some(f) ==> if within_window(f, now) {
            r matches DedupeOutcome::Refreshed(g) && g.uuid == f.uuid && g.control_id == f.control_id
                && g.system_id == f.system_id && g.entry_timestamp == f.entry_timestamp && g.last_seen == now
                && g.occurrence_count == (if f.occurrence_count == usize::MAX { 0 } else { (f.occurrence_count + 1) as usize })
                && g.evidence_hash == f.evidence_hash
        } else {
            r is Expired
        },
{
    match existing {
        None => DedupeOutcome::Absent,
        Some(f) => {
            if nanos_since(&now, &f.entry_timestamp) < WINDOW_NANOS {
                DedupeOutcome::Refreshed(CachedFailure {
                    uuid: f.uuid,
                    control_id: f.control_id,
                    system_id: f.system_id,
                    entry_timestamp: f.entry_timestamp,
                    last_seen: now,
                    occurrence_count: f.occurrence_count.wrapping_add(1),
                    evidence_hash: f.evidence_hash,
                })
            } else {
                DedupeOutcome::Expired
            }
        }
    }
}

/// Whether a tracked failure is pruned at `now`: first detected more than four hours before.
pub fn is_expired(f: &CachedFailure, now: Timestamp) -> (b: bool)
    ensures
        b == expired(*f, now),
{
    nanos_since(&now, &f.entry_timestamp) > WINDOW_NANOS
}

/// A failure seen for the first time at `at`.
pub fn new_failure(uuid: u128, control_id: String, system_id: String, at: Timestamp, evidence_hash: String) -> (f: CachedFailure)
    ensures
        f.uuid == uuid && f.control_id == control_id && f.system_id == system_id,
        f.entry_timestamp == at && f.last_seen == at && f.occurrence_count == 1,
        f.evidence_hash == evidence_hash,
{
    CachedFailure { uuid, control_id, system_id, entry_timestamp: at, last_seen: at, occurrence_count: 1, evidence_hash }
}

/// A failure refreshed within its window is neither dropped nor pruned at that moment: the
/// window and the pruning age agree.
pub proof fn law_refreshed_not_pruned(f: CachedFailure, now: Timestamp)
    requires
        within_window(f, now),
    ensures
        !expired(f, now),
{
}

} // verus!
