//! The edge buffer's decisions: connectivity, load-shedding under high event velocity, the
//! noise summary, and the local hash chain of spilled records.

use vstd::prelude::*;
use crate::models::{LogRecord, is_blank_record};
use crate::num::u64_to_string;
use crate::text::{owned, concat, decimal};
use crate::time::{Timestamp, millis_between, ms_between, ts_nanos};
use sha2::Digest;

verus! {

/// Whether the edge node can reach the ledger.
pub struct ConnectivityStatus {
    pub is_online: bool,
}

impl ConnectivityStatus {
    pub fn new(initial: bool) -> (s: ConnectivityStatus)
        ensures
            s.is_online == initial,
    {
        ConnectivityStatus { is_online: initial }
    }

    pub fn set_online(&mut self, state: bool)
        ensures
            final(self).is_online == state,
    {
        self.is_online = state;
    }

    pub fn is_online(&self) -> (b: bool)
        ensures
            b == self.is_online,
    {
        self.is_online
    }
}

/// The velocity sampler of the buffer worker.
#[derive(Debug, Clone, Copy)]
pub struct Sampler {
    /// Records seen in the current 100 ms window.
    pub velocity_count: usize,
    pub velocity_start: Timestamp,
    /// Events per second measured at the end of the last window.
    pub current_velocity: usize,
    pub sampling_mode: bool,
    /// Sampling stays on at least until this instant.
    pub sampling_cooldown: Timestamp,
    /// Records suppressed since the last flush.
    pub suppressed_count: usize,
}

pub open spec fn wrap_inc(n: usize) -> usize {
    (if n < usize::MAX { n + 1 } else { 0 }) as usize
}

pub open spec fn sat_mul10(n: usize) -> usize {
    (if n * 10 <= usize::MAX { n * 10 } else { usize::MAX as int }) as usize
}

/// Ten seconds after `t` (saturating at the largest instant).
pub open spec fn plus_ten_seconds(t: Timestamp) -> Timestamp {
    Timestamp { secs: (if t.secs <= i64::MAX - 10 { t.secs + 10 } else { i64::MAX as int }) as i64, nanos: t.nanos }
}

/// The sampler after the window bookkeeping of a record arriving at `now`.
pub open spec fn window_step(s: Sampler, now: Timestamp) -> Sampler {
    let count = wrap_inc(s.velocity_count);
    if millis_between(now, s.velocity_start) >= 100 {
        let v = sat_mul10(count);
        if v > 1000 {
            Sampler { velocity_count: 0, velocity_start: now, current_velocity: v, sampling_mode: true,
                sampling_cooldown: plus_ten_seconds(now), ..s }
        } else if s.sampling_mode && ts_nanos(now) > ts_nanos(s.sampling_cooldown) {
            Sampler { velocity_count: 0, velocity_start: now, current_velocity: v, sampling_mode: false, ..s }
        } else {
            Sampler { velocity_count: 0, velocity_start: now, current_velocity: v, ..s }
        }
    } else {
        Sampler { velocity_count: count, ..s }
    }
}

/// The sampler after a record and whether the record is kept: under sampling, a record that is not
/// high-fidelity is kept only when it is the hundredth suppressed one.
pub open spec fn sample_step(s: Sampler, now: Timestamp, high_fidelity: bool) -> (Sampler, bool) {
    let w = window_step(s, now);
    if w.sampling_mode && !high_fidelity {
        let n = wrap_inc(w.suppressed_count);
        (Sampler { suppressed_count: n, ..w }, n % 100 == 0)
    } else {
        (w, true)
    }
}

fn nanos_of(t: &Timestamp) -> (n: i128)
    ensures
        n == ts_nanos(*t),
{
    (t.secs as i128) * 1_000_000_000 + (t.nanos as i128)
}

impl Sampler {
    /// A sampler at full fidelity, its window starting at `now`.
    pub fn new(now: Timestamp) -> (s: Sampler)
        ensures
            s == (Sampler { velocity_count: 0, velocity_start: now, current_velocity: 0, sampling_mode: false,
                sampling_cooldown: now, suppressed_count: 0 }),
    {
        Sampler { velocity_count: 0, velocity_start: now, current_velocity: 0, sampling_mode: false,
            sampling_cooldown: now, suppressed_count: 0 }
    }

    /// Accounts for a record arriving at `now`; whether it is kept.
    pub fn observe(&mut self, now: Timestamp, high_fidelity: bool) -> (keep: bool)
        ensures
            (*final(self), keep) == sample_step(*old(self), now, high_fidelity),
    {
        self.velocity_count = if self.velocity_count < usize::MAX { self.velocity_count + 1 } else { 0 };
        if ms_between(&now, &self.velocity_start) >= 100 {
            self.current_velocity = if self.velocity_count <= usize::MAX / 10 { self.velocity_count * 10 } else { usize::MAX };
            self.velocity_count = 0;
            self.velocity_start = now;
            if self.current_velocity > 1000 {
                self.sampling_mode = true;
                self.sampling_cooldown = Timestamp {
                    secs: if now.secs <= i64::MAX - 10 { now.secs + 10 } else { i64::MAX },
                    nanos: now.nanos,
                };
            } else if self.sampling_mode && nanos_of(&now) > nanos_of(&self.sampling_cooldown) {
                self.sampling_mode = false;
            }
        }
        if self.sampling_mode && !high_fidelity {
            self.suppressed_count = if self.suppressed_count < usize::MAX { self.suppressed_count + 1 } else { 0 };
            if self.suppressed_count % 100 != 0 {
                return false;
            }
        }
        true
    }
}

/// The warning that reports suppressed records, stamped at `t`.
pub open spec fn noise_summary_spec(r: LogRecord, node_id: Seq<char>, suppressed: nat, velocity: nat) -> bool {
    &&& r.node_id@ == node_id
    &&& r.severity matches Some(s) && s@ == "warning"@
    &&& r.message@ == "[!] NOISE DETECTED: "@ + decimal(suppressed) + " decoy events suppressed"@
    &&& r.metadata@ == Map::<Seq<char>, Seq<char>>::empty().insert("details"@,
        "SNR Stress Test: Sampling active due to velocity of "@ + decimal(velocity) + " eps"@)
}

/// The summary record a flush adds when records were suppressed.
pub fn noise_summary(node_id: &str, suppressed: usize, velocity: usize, t: Timestamp) -> (r: LogRecord)
    ensures
        noise_summary_spec(r, node_id@, suppressed as nat, velocity as nat),
        r.timestamp == t,
{
    let mut r = LogRecord::blank_at(t);
    r.node_id = owned(node_id);
    r.severity = Some(owned("warning"));
    let n = u64_to_string(suppressed as u64);
    let a = concat("[!] NOISE DETECTED: ", n.as_str());
    r.message = concat(a.as_str(), " decoy events suppressed");
    let v = u64_to_string(velocity as u64);
    let b = concat("SNR Stress Test: Sampling active due to velocity of ", v.as_str());
    r.metadata.insert(owned("details"), concat(b.as_str(), " eps"));
    r
}

/// SHA-256 of a byte string.
pub uninterp spec fn sha256(data: Seq<u8>) -> Seq<u8>;

/// `Sha256` fed with `last`, then `data`: the digest of their concatenation, 32 bytes.
#[verifier::external_body]
pub fn chain_digest(last: &[u8], data: &[u8]) -> (d: Vec<u8>)
    ensures
        d@ == sha256(last@ + data@),
        d@.len() == 32,
{
    let mut hasher = sha2::Sha256::new();
    hasher.update(last);
    hasher.update(data);
    hasher.finalize().to_vec()
}

pub open spec fn hex_digit(n: u8) -> char {
    if n < 10 { (48 + n) as char } else { (97 + n - 10) as char }
}

/// Lower-case hexadecimal, two digits per byte (`{:x}` of a digest).
pub open spec fn hex(bytes: Seq<u8>) -> Seq<char>
    decreases bytes.len(),
{
    if bytes.len() == 0 {
        Seq::empty()
    } else {
        hex(bytes.drop_last()) + seq![hex_digit(bytes.last() / 16), hex_digit(bytes.last() % 16)]
    }
}

fn hex_digit_exec(n: u8) -> (c: char)
    requires
        n < 16,
    ensures
        c == hex_digit(n),
{
    if n < 10 { ((48u8 + n) as char) } else { ((97u8 + n - 10) as char) }
}

/// The lower-case hexadecimal SHA-256 digest of a file's content (or any bytes).
pub fn digest_hex(content: &[u8]) -> (h: String)
    ensures
        h@ == hex(sha256(content@)),
{
    let none: Vec<u8> = Vec::new();
    let d = chain_digest(none.as_slice(), content);
    assert(none@ + content@ =~= content@);
    to_hex(d.as_slice())
}

/// Lower-case hexadecimal rendering of bytes.
pub fn to_hex(bytes: &[u8]) -> (s: String)
    ensures
        s@ == hex(bytes@),
{
    let mut v: Vec<char> = Vec::new();
    let mut i: usize = 0;
    while i < bytes.len()
        invariant
            0 <= i <= bytes@.len(),
            v@ == hex(bytes@.subrange(0, i as int)),
        decreases bytes@.len() - i,
    {
        let b = bytes[i];
        v.push(hex_digit_exec(b / 16));
        v.push(hex_digit_exec(b % 16));
        i += 1;
        assert(bytes@.subrange(0, i as int).drop_last() =~= bytes@.subrange(0, i - 1));
        assert(v@ =~= hex(bytes@.subrange(0, i as int)));
    }
    assert(bytes@.subrange(0, bytes@.len() as int) =~= bytes@);
    crate::text::string_from_chars(v.as_slice())
}

// ---- the offline spill and its reconciliation ----

/// What a flush of the buffer does: hand the batch to the ledger (then reconcile the spilled
/// backlog, where there is one), spill the batch to the local store, reconcile the backlog alone,
/// or nothing.
#[derive(Debug, Clone, Copy, PartialEq, Eq, Structural)]
pub enum FlushAction {
    Forward { reconcile: bool },
    Spill,
    ReconcileOnly,
    Nothing,
}

/// The flush of a batch of `batch_len` records: online, the batch goes to the ledger and any
/// backlog is reconciled after it; offline, the batch is spilled; an empty batch only
/// reconciles a backlog, and only online.
pub open spec fn flush_action(online: bool, batch_len: nat, backlog: bool) -> FlushAction {
    if batch_len == 0 {
        if online && backlog { FlushAction::ReconcileOnly } else { FlushAction::Nothing }
    } else if online {
        FlushAction::Forward { reconcile: backlog }
    } else {
        FlushAction::Spill
    }
}

/// Decides a flush (see [`flush_action`]).
pub fn plan_flush(status: &ConnectivityStatus, batch_len: usize, backlog: bool) -> (a: FlushAction)
    ensures
        a == flush_action(status.is_online, batch_len as nat, backlog),
{
    if batch_len == 0 {
        if status.is_online() && backlog { FlushAction::ReconcileOnly } else { FlushAction::Nothing }
    } else if status.is_online() {
        FlushAction::Forward { reconcile: backlog }
    } else {
        FlushAction::Spill
    }
}

/// The local chain of spilled records: the hash of the last one (empty before the first), and the
/// key the next one is stored under.
pub struct SpillChain {
    pub last_hash: Vec<u8>,
    pub next_id: u64,
}

/// The chain hash after records with the encodings `items` are spilled onto a chain ending in
/// `seed`: each hash is SHA-256 of the one before it followed by the record.
pub open spec fn chained(seed: Seq<u8>, items: Seq<Seq<u8>>) -> Seq<u8>
    decreases items.len(),
{
    if items.len() == 0 {
        seed
    } else {
        sha256(chained(seed, items.drop_last()) + items.last())
    }
}

impl SpillChain {
    /// The chain a store resumes: its saved last hash, and the key after its highest stored key
    /// (zero for an empty store).
    pub fn recover(last_hash: Vec<u8>, highest_key: Option<u64>) -> (c: SpillChain)
        requires
            highest_key matches Some(k) ==> k < u64::MAX,
        ensures
            c.last_hash@ == last_hash@,
            c.next_id == match highest_key { Some(k) => (k + 1) as u64, None => 0 },
    {
        let next_id = match highest_key {
            Some(k) => k + 1,
            None => 0,
        };
        SpillChain { last_hash, next_id }
    }

    /// Spills one record, given by its encoding: it is stored under the next key with the chain
    /// hash of the previous hash followed by the encoding, which becomes the last hash. Returns
    /// the key and the hash.
    pub fn spill(&mut self, encoded: &[u8]) -> (r: (u64, Vec<u8>))
        requires
            old(self).next_id < u64::MAX,
        ensures
            r.0 == old(self).next_id,
            r.1@ == sha256(old(self).last_hash@ + encoded@),
            final(self).last_hash@ == r.1@,
            final(self).next_id == old(self).next_id + 1,
    {
        let h = chain_digest(self.last_hash.as_slice(), encoded);
        let id = self.next_id;
        self.last_hash = h.clone();
        self.next_id = self.next_id + 1;
        (id, h)
    }

    /// After the backlog reached the ledger and the store was cleared: an empty chain from key
    /// zero.
    pub fn reset(&mut self)
        ensures
            final(self).last_hash@.len() == 0,
            final(self).next_id == 0,
    {
        self.last_hash = Vec::new();
        self.next_id = 0;
    }
}

/// Step `i` of a run of spills: the record `items[i]` moves the chain from hash `hashes[i]` and
/// key `ids[i]` to the hash of the two and the next key (what [`SpillChain::spill`] does).
pub open spec fn spilled_at(hashes: Seq<Seq<u8>>, ids: Seq<nat>, items: Seq<Seq<u8>>, i: int) -> bool {
    hashes[i + 1] == sha256(hashes[i] + items[i]) && ids[i + 1] == ids[i] + 1
}

/// Spilling records one after another stores them under consecutive keys and leaves as last hash
/// the chain hash of all of them, in order.
pub proof fn law_spill_chain(hashes: Seq<Seq<u8>>, ids: Seq<nat>, items: Seq<Seq<u8>>)
    requires
        hashes.len() == items.len() + 1,
        ids.len() == items.len() + 1,
        forall|i: int| 0 <= i < items.len() ==> #[trigger] spilled_at(hashes, ids, items, i),
    ensures
        hashes.last() == chained(hashes[0], items),
        ids.last() == ids[0] + items.len(),
    decreases items.len(),
{
    if items.len() > 0 {
        let n = items.len() - 1;
        let h = hashes.drop_last();
        let d = ids.drop_last();
        let it = items.drop_last();
        assert forall|i: int| 0 <= i < it.len() implies #[trigger] spilled_at(h, d, it, i) by {
            assert(spilled_at(hashes, ids, items, i));
        }
        law_spill_chain(h, d, it);
        assert(spilled_at(hashes, ids, items, n));
        assert(h.last() == hashes[n]);
        assert(d.last() == ids[n]);
    }
}

/// A record is kept whenever it is high-fidelity, whatever the load.
pub proof fn law_high_fidelity_never_dropped(s: Sampler, now: Timestamp)
    ensures
        sample_step(s, now, true).1,
{
}

/// Under sampling, one in a hundred suppressed records is still kept.
pub proof fn law_sampling_keeps_every_hundredth(s: Sampler, now: Timestamp)
    requires
        window_step(s, now).sampling_mode,
        wrap_inc(window_step(s, now).suppressed_count) % 100 == 0,
    ensures
        sample_step(s, now, false).1,
{
}

} // verus!
