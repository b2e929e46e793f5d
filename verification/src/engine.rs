//! The NIST detection engine: signature matching, process lineage, WMI correlation and the
//! record analysis that combines them with the behavioural heuristics.

use vstd::prelude::*;
use dashmap::DashMap;
use crate::config::{AppConfig, ActiveFramework};
use crate::mappings::{ControlMapping, builtin_head, builtin_tail, builtin_rule, builtin_pattern, mapping_texts};
use crate::metadata::{Metadata, lookup, lookup2};
use crate::pattern::{regex_valid, regex_first_match, regex_find, regex_compile_error, regex_error_text};
use crate::tables::{WmiState, ProcEntry, wmi_contents, signal_contents, tree_contents, wmi_new, wmi_insert,
    wmi_contains, signals_new, tree_new, tree_get, tree_len, tree_clear};
use crate::text::{lowercase, to_lowercase, owned, concat, str_eq, str_starts_with, opt_view, clone_opt};
use crate::time::Timestamp;

verus! {

/// Errors of the engine.
#[derive(Debug)]
pub enum AegisError {
    /// A built-in signature did not compile; the regular-expression error's text.
    InvalidSignature(String),
}

impl AegisError {
    /// The error's display text.
    pub fn message(&self) -> (s: String)
        ensures
            match self {
                AegisError::InvalidSignature(e) => s@ == "Failed to compile regex signature: "@ + e@,
            },
    {
        match self {
            AegisError::InvalidSignature(e) => concat("Failed to compile regex signature: ", e.as_str()),
        }
    }
}

/// The detection engine: the control mappings, and the state that correlates records over time.
pub struct NistEngine {
    mappings: Vec<ControlMapping>,
    wmi_buffer: DashMap<String, WmiState>,
    signal_counts: DashMap<String, (u64, Timestamp)>,
    process_tree: DashMap<u32, ProcEntry>,
    config: AppConfig,
}

/// A built-in signature that is absent or compiles.
pub open spec fn builtin_pattern_ok(k: int) -> bool {
    match builtin_pattern(k) {
        Some(p) => regex_valid(p),
        None => true,
    }
}

/// Every built-in signature compiles.
pub open spec fn builtins_compile() -> bool {
    forall|k: int| 0 <= k < 14 ==> builtin_pattern_ok(k)
}

/// A mapping read from the rules file as the engine keeps it: the same fields, with the
/// signature compiled when its source is a valid pattern.
pub open spec fn loaded_rule(a: ControlMapping, b: ControlMapping) -> bool {
    &&& mapping_texts(b, a.control_id@, a.category@, a.description@, a.human_title@, a.human_action@,
        a.long_description@, a.remediation@, opt_view(a.adversary_profile), opt_view(a.tactical_intent),
        opt_view(a.attack_mechanism))
    &&& opt_view(b.target_field) == opt_view(a.target_field)
    &&& b.default_status == a.default_status
    &&& b.severity == a.severity
    &&& opt_view(b.pattern_str) == opt_view(a.pattern_str)
    &&& opt_view(b.pattern) == match opt_view(a.pattern_str) {
        Some(p) => if regex_valid(p) { Some(p) } else { None },
        None => None,
    }
}

/// The engine's mappings: the two leading built-ins, the loaded ones, then the twelve
/// trailing built-ins.
pub open spec fn engine_rules(rules: Seq<ControlMapping>, loaded: Seq<ControlMapping>) -> bool {
    &&& rules.len() == loaded.len() + 14
    &&& forall|k: int| 0 <= k < 2 ==> builtin_rule(k, #[trigger] rules[k])
    &&& forall|j: int| 0 <= j < loaded.len() ==> loaded_rule(loaded[j], #[trigger] rules[j + 2])
    &&& forall|k: int| 2 <= k < 14 ==> builtin_rule(k, #[trigger] rules[k + loaded.len()])
}

// ---- Signature matching ----

/// The text a mapping's signature is matched against: the raw line for `raw`, the message otherwise.
pub open spec fn target_text(m: ControlMapping, raw: Seq<char>, message: Seq<char>) -> Seq<char> {
    match m.target_field {
        Some(f) => if f@ == "raw"@ { raw } else { message },
        None => message,
    }
}

/// Position of the first mapping at or after `i` with the given control id.
pub open spec fn first_with_id(ms: Seq<ControlMapping>, id: Seq<char>, i: int) -> Option<int>
    decreases ms.len() - i,
{
    if i < 0 || i >= ms.len() {
        None
    } else if ms[i].control_id@ == id {
        Some(i)
    } else {
        first_with_id(ms, id, i + 1)
    }
}

/// The signature hit of mapping `m`, if it is not the redaction control and its signature matches.
pub open spec fn pattern_hit(m: ControlMapping, raw: Seq<char>, message: Seq<char>) -> Option<Seq<char>> {
    if m.control_id@ != "AU-3"@ {
        match m.pattern {
            Some(p) => regex_first_match(p@, target_text(m, raw, message)),
            None => None,
        }
    } else {
        None
    }
}

/// The first mapping at or after `i` whose signature matches, with the matched text.
pub open spec fn first_pattern_hit(ms: Seq<ControlMapping>, raw: Seq<char>, message: Seq<char>, i: int) -> Option<(int, Seq<char>)>
    decreases ms.len() - i,
{
    if i < 0 || i >= ms.len() {
        None
    } else {
        match pattern_hit(ms[i], raw, message) {
            Some(s) => Some((i, s)),
            None => first_pattern_hit(ms, raw, message, i + 1),
        }
    }
}

/// For a correlated record, the first mapping with its tagged control id.
pub open spec fn corr_hit(ms: Seq<ControlMapping>, md: Map<Seq<char>, Seq<char>>) -> Option<int> {
    match lookup(md, "nist_control_id"@) {
        Some(tid) => if md.contains_key("correlation_type"@) { first_with_id(ms, tid, 0) } else { None },
        None => None,
    }
}

/// The mapping a record matches and the evidence: a correlated record's tagged control, else the
/// first matching signature, else the redaction control for a record with redactions.
pub open spec fn match_spec(
    ms: Seq<ControlMapping>,
    md: Map<Seq<char>, Seq<char>>,
    raw: Seq<char>,
    message: Seq<char>,
    redacted: bool,
) -> Option<(int, Seq<char>)> {
    match corr_hit(ms, md) {
        Some(i) => Some((i, "Stateful Correlation"@)),
        None => match first_pattern_hit(ms, raw, message, 0) {
            Some(h) => Some(h),
            None => if redacted {
                match first_with_id(ms, "AU-3"@, 0) {
                    Some(i) => Some((i, "Privacy Redaction"@)),
                    None => None,
                }
            } else {
                None
            },
        },
    }
}

/// Position of the first mapping at or after `i` whose id equals or starts with `id`.
pub open spec fn first_control(ms: Seq<ControlMapping>, id: Seq<char>, i: int) -> Option<int>
    decreases ms.len() - i,
{
    if i < 0 || i >= ms.len() {
        None
    } else if ms[i].control_id@ == id || ms[i].control_id@.len() >= id.len() && ms[i].control_id@.subrange(0, id.len() as int) == id {
        Some(i)
    } else {
        first_control(ms, id, i + 1)
    }
}

/// A signal's (count, window start) after one more sighting at `now`: a window older than ten
/// minutes restarts at one.
pub open spec fn signal_entry(s: Map<Seq<char>, (u64, Timestamp)>, key: Seq<char>, now: Timestamp) -> (u64, Timestamp) {
    let (c, start) = if s.contains_key(key) { s[key] } else { (0u64, now) };
    if crate::time::trunc_div(crate::time::seconds_between(now, start), 60) > 10 {
        (1u64, now)
    } else {
        ((if c < 18446744073709551615 { c + 1 } else { 0 }) as u64, start)
    }
}

// ---- Process lineage ----

/// The last component of a path, as `Path::file_name` gives it on this platform.
pub uninterp spec fn file_name_of(path: Seq<char>) -> Option<Seq<char>>;

/// `Path::new(path).file_name()` as a string.
#[verifier::external_body]
pub(crate) fn path_file_name(path: &str) -> (r: Option<String>)
    ensures
        opt_view(r) == file_name_of(path@),
{
    std::path::Path::new(path).file_name().and_then(|f| f.to_str()).map(|f| f.to_string())
}

/// A process image's base name, or the whole image where it has none.
pub open spec fn basename(image: Seq<char>) -> Seq<char> {
    match file_name_of(image) {
        Some(b) => b,
        None => image,
    }
}

/// The ancestry of `pid` as `root -> ... -> pid` base names, looked up at most ten levels up.
pub open spec fn lineage(tree: Map<u32, (Seq<char>, Option<u32>, Option<Seq<char>>)>, pid: u32, depth: int) -> Seq<char>
    decreases 11 - depth,
{
    if depth > 10 {
        "... (depth limit)"@
    } else if !tree.contains_key(pid) {
        Seq::empty()
    } else {
        let base = basename(tree[pid].0);
        match tree[pid].1 {
            Some(pp) => {
                let parent = lineage(tree, pp, depth + 1);
                if parent.len() == 0 { base } else { parent + " -> "@ + base }
            }
            None => base,
        }
    }
}

// ---- WMI persistence correlation ----

pub open spec fn wmi_key(kind: Seq<char>, name: Seq<char>) -> Seq<char> {
    kind + ":"@ + lowercase(name)
}

/// The correlation buffer after an event: filters (event 19) and consumers (event 20) are
/// remembered by lower-cased name.
pub open spec fn wmi_after(w: Map<Seq<char>, WmiState>, md: Map<Seq<char>, Seq<char>>) -> Map<Seq<char>, WmiState> {
    let eid = crate::heuristics::event_id_of(md);
    match lookup2(md, "Name"@, "name"@) {
        Some(n) => if eid == "19"@ {
            w.insert(wmi_key("filter"@, n), WmiState::Filter)
        } else if eid == "20"@ {
            w.insert(wmi_key("consumer"@, n), WmiState::Consumer)
        } else {
            w
        },
        None => w,
    }
}

/// The consumer and filter of a binding event (21, 5857, 5858) whose consumer and filter were
/// both seen.
pub open spec fn wmi_binding(w: Map<Seq<char>, WmiState>, md: Map<Seq<char>, Seq<char>>) -> Option<(Seq<char>, Seq<char>)> {
    let eid = crate::heuristics::event_id_of(md);
    let consumer = lowercase(crate::metadata::or_empty(lookup2(md, "Consumer"@, "consumer"@)));
    let filter = lowercase(crate::metadata::or_empty(lookup2(md, "Filter"@, "filter"@)));
    if (eid == "21"@ || eid == "5857"@ || eid == "5858"@)
        && w.contains_key("consumer:"@ + consumer) && w.contains_key("filter:"@ + filter) {
        Some((consumer, filter))
    } else {
        None
    }
}

pub open spec fn wmi_message(consumer: Seq<char>, filter: Seq<char>) -> Seq<char> {
    "☢️ CRITICAL: Multi-Event WMI Persistence Chain Correlated! Consumer: "@ + consumer + ", Filter: "@ + filter
}

impl NistEngine {
    /// The control mappings, in evaluation order.
    pub closed spec fn rules(&self) -> Seq<ControlMapping> {
        self.mappings@
    }

    /// The WMI correlation buffer.
    pub closed spec fn wmi(&self) -> Map<Seq<char>, WmiState> {
        wmi_contents(self.wmi_buffer)
    }

    /// Signal key to (count, start of the counting window).
    pub closed spec fn signals(&self) -> Map<Seq<char>, (u64, Timestamp)> {
        signal_contents(self.signal_counts)
    }

    /// Process id to (image, parent id, process GUID).
    pub closed spec fn tree(&self) -> Map<u32, (Seq<char>, Option<u32>, Option<Seq<char>>)> {
        tree_contents(self.process_tree)
    }

    /// The active framework.
    pub closed spec fn framework(&self) -> ActiveFramework {
        self.config.active_framework
    }

    /// The AI RMF latency threshold.
    pub closed spec fn latency_threshold(&self) -> u64 {
        self.config.ai_rmf.latency_threshold_ms
    }

    /// The active framework.
    pub(crate) fn active_framework(&self) -> (f: ActiveFramework)
        ensures
            f == self.framework(),
    {
        self.config.active_framework
    }

    /// The AI RMF thresholds.
    pub(crate) fn ai_settings(&self) -> (c: crate::config::AiRmfConfig)
        ensures
            c.latency_threshold_ms == self.latency_threshold(),
    {
        self.config.ai_rmf
    }

    /// The mapping at position `i`.
    pub(crate) fn rule_at(&self, i: usize) -> (m: &ControlMapping)
        requires
            i < self.rules().len(),
        ensures
            *m == self.rules()[i as int],
    {
        &self.mappings[i]
    }

    /// Records a process in the tree.
    pub(crate) fn remember_process(&mut self, pid: u32, entry: ProcEntry)
        ensures
            final(self).tree() == old(self).tree().insert(pid, crate::tables::proc_view(entry)),
            final(self).rules() == old(self).rules(),
            final(self).wmi() == old(self).wmi(),
            final(self).signals() == old(self).signals(),
            final(self).framework() == old(self).framework(),
            final(self).latency_threshold() == old(self).latency_threshold(),
    {
        crate::tables::tree_insert(&mut self.process_tree, pid, entry);
    }

    /// The tree entry of a process.
    pub(crate) fn process_entry(&self, pid: u32) -> (r: Option<ProcEntry>)
        ensures
            r matches Some(e) ==> self.tree().contains_key(pid) && self.tree()[pid] == crate::tables::proc_view(e),
            r is None ==> !self.tree().contains_key(pid),
    {
        tree_get(&self.process_tree, pid)
    }

    /// Counts one more sighting of a signal, restarting its window after ten minutes; the new count.
    pub(crate) fn bump_signal(&mut self, key: String, now: Timestamp) -> (count: u64)
        ensures
            final(self).signals() == old(self).signals().insert(key@, signal_entry(old(self).signals(), key@, now)),
            count == signal_entry(old(self).signals(), key@, now).0,
            final(self).rules() == old(self).rules(),
            final(self).wmi() == old(self).wmi(),
            final(self).tree() == old(self).tree(),
            final(self).framework() == old(self).framework(),
            final(self).latency_threshold() == old(self).latency_threshold(),
    {
        let (c, start) = match crate::tables::signals_get(&self.signal_counts, key.as_str()) {
            Some(e) => e,
            None => (0u64, now),
        };
        let mins = crate::time::secs_between(&now, &start);
        let entry: (u64, Timestamp) = if (if mins >= 0 { mins / 60 } else { -((-mins) / 60) }) > 10 {
            (1u64, now)
        } else {
            (c.wrapping_add(1), start)
        };
        let n = entry.0;
        crate::tables::signals_insert(&mut self.signal_counts, key, entry);
        n
    }

    /// The first built-in signature from position `base` on, in `v`, that does not compile.
    fn first_invalid(v: &Vec<ControlMapping>, Ghost(base): Ghost<int>) -> (r: Option<String>)
        requires
            forall|k: int| 0 <= k < v@.len() ==> builtin_rule(base + k, #[trigger] v@[k]),
        ensures
            r is None ==> forall|k: int| base <= k < base + v@.len() ==> builtin_pattern_ok(k),
            r matches Some(e) ==> exists|k: int| base <= k < base + v@.len() && (forall|j: int| base <= j < k ==> builtin_pattern_ok(j))
                && (#[trigger] builtin_pattern(k) matches Some(p) && !regex_valid(p) && e@ == regex_error_text(p)),
    {
        let mut i: usize = 0;
        while i < v.len()
            invariant
                0 <= i <= v@.len(),
                forall|k: int| 0 <= k < v@.len() ==> builtin_rule(base + k, #[trigger] v@[k]),
                forall|j: int| base <= j < base + i ==> builtin_pattern_ok(j),
            decreases v@.len() - i,
        {
            assert(builtin_rule(base + i, v@[i as int]));
            match &v[i].pattern_str {
                Some(p) => {
                    match regex_compile_error(p.as_str()) {
                        Some(e) => {
                            return Some(e);
                        }
                        None => {}
                    }
                }
                None => {}
            }
            i += 1;
        }
        None
    }

    /// The engine with the built-in mappings around those loaded from the rules file, and empty
    /// correlation state. Fails with the first built-in signature that does not compile.
    pub fn new(config: AppConfig, loaded: Vec<ControlMapping>) -> (r: Result<NistEngine, AegisError>)
        ensures
            r matches Ok(e) ==> {
                &&& builtins_compile()
                &&& engine_rules(e.rules(), loaded@)
                &&& e.wmi() == Map::<Seq<char>, WmiState>::empty()
                &&& e.signals() == Map::<Seq<char>, (u64, Timestamp)>::empty()
                &&& e.tree() == Map::<u32, (Seq<char>, Option<u32>, Option<Seq<char>>)>::empty()
                &&& e.framework() == config.active_framework
                &&& e.latency_threshold() == config.ai_rmf.latency_threshold_ms
            },
            r matches Err(AegisError::InvalidSignature(msg)) ==> exists|k: int| 0 <= k < 14
                && (forall|j: int| 0 <= j < k ==> builtin_pattern_ok(j))
                && (#[trigger] builtin_pattern(k) matches Some(p) && !regex_valid(p) && msg@ == regex_error_text(p)),
    {
        let head = builtin_head();
        let tail = builtin_tail();
        match Self::first_invalid(&head, Ghost(0)) {
            Some(e) => {
                return Err(AegisError::InvalidSignature(e));
            }
            None => {}
        }
        match Self::first_invalid(&tail, Ghost(2)) {
            Some(e) => {
                proof {
                    let k = choose|k: int| 2 <= k < 2 + tail@.len() && (forall|j: int| 2 <= j < k ==> builtin_pattern_ok(j))
                        && (#[trigger] builtin_pattern(k) matches Some(p) && !regex_valid(p) && e@ == regex_error_text(p));
                    assert(forall|j: int| 0 <= j < k ==> builtin_pattern_ok(j));
                }
                return Err(AegisError::InvalidSignature(e));
            }
            None => {}
        }
        assert(forall|k: int| 0 <= k < 14 ==> builtin_pattern_ok(k));
        let mut mappings: Vec<ControlMapping> = head;
        let mut j: usize = 0;
        while j < loaded.len()
            invariant
                0 <= j <= loaded@.len(),
                mappings@.len() == j + 2,
                forall|k: int| 0 <= k < 2 ==> builtin_rule(k, #[trigger] mappings@[k]),
                forall|i: int| 0 <= i < j ==> loaded_rule(loaded@[i], #[trigger] mappings@[i + 2]),
            decreases loaded@.len() - j,
        {
            let mut m = loaded[j].duplicate();
            m.pattern = match &loaded[j].pattern_str {
                Some(p) => if crate::pattern::is_valid_regex(p.as_str()) { Some(owned(p.as_str())) } else { None },
                None => None,
            };
            let ghost before = mappings@;
            mappings.push(m);
            proof {
                assert forall|k: int| 0 <= k < 2 implies builtin_rule(k, #[trigger] mappings@[k]) by {
                    assert(mappings@[k] == before[k]);
                }
                assert forall|i: int| 0 <= i < j + 1 implies loaded_rule(loaded@[i], #[trigger] mappings@[i + 2]) by {
                    if i < j {
                        assert(mappings@[i + 2] == before[i + 2]);
                    }
                }
            }
            j += 1;
        }
        let mut k: usize = 0;
        while k < tail.len()
            invariant
                0 <= k <= tail@.len(),
                tail@.len() == 12,
                forall|i: int| 0 <= i < 12 ==> builtin_rule(i + 2, #[trigger] tail@[i]),
                mappings@.len() == loaded@.len() + 2 + k,
                forall|i: int| 0 <= i < 2 ==> builtin_rule(i, #[trigger] mappings@[i]),
                forall|i: int| 0 <= i < loaded@.len() ==> loaded_rule(loaded@[i], #[trigger] mappings@[i + 2]),
                forall|i: int| 2 <= i < k + 2 ==> builtin_rule(i, #[trigger] mappings@[i + loaded@.len()]),
            decreases tail@.len() - k,
        {
            let ghost before = mappings@;
            mappings.push(tail[k].duplicate());
            proof {
                assert(builtin_rule(k + 2, tail@[k as int]));
                assert forall|i: int| 0 <= i < 2 implies builtin_rule(i, #[trigger] mappings@[i]) by {
                    assert(mappings@[i] == before[i]);
                }
                assert forall|i: int| 0 <= i < loaded@.len() implies loaded_rule(loaded@[i], #[trigger] mappings@[i + 2]) by {
                    assert(mappings@[i + 2] == before[i + 2]);
                }
                assert forall|i: int| 2 <= i < k + 3 implies builtin_rule(i, #[trigger] mappings@[i + loaded@.len()]) by {
                    if i < k + 2 {
                        assert(mappings@[i + loaded@.len()] == before[i + loaded@.len()]);
                    }
                }
            }
            k += 1;
        }
        let e = NistEngine {
            mappings,
            wmi_buffer: wmi_new(),
            signal_counts: signals_new(),
            process_tree: tree_new(),
            config,
        };
        assert(e.wmi() =~= Map::<Seq<char>, WmiState>::empty());
        assert(e.signals() =~= Map::<Seq<char>, (u64, Timestamp)>::empty());
        assert(e.tree() =~= Map::<u32, (Seq<char>, Option<u32>, Option<Seq<char>>)>::empty());
        Ok(e)
    }

    fn hit_at(&self, i: usize, raw: &str, message: &str) -> (r: Option<String>)
        requires
            i < self.rules().len(),
        ensures
            opt_view(r) == pattern_hit(self.rules()[i as int], raw@, message@),
    {
        let m = &self.mappings[i];
        if str_eq(m.control_id.as_str(), "AU-3") {
            return None;
        }
        match &m.pattern {
            Some(p) => {
                let raw_target = match &m.target_field {
                    Some(f) => str_eq(f.as_str(), "raw"),
                    None => false,
                };
                let target = if raw_target { raw } else { message };
                regex_find(p.as_str(), target)
            }
            None => None,
        }
    }

    pub(crate) fn index_with_id(&self, id: &str) -> (r: Option<usize>)
        ensures
            r matches Some(i) ==> first_with_id(self.rules(), id@, 0) == Some(i as int) && i < self.rules().len(),
            r is None ==> first_with_id(self.rules(), id@, 0) is None,
    {
        let mut i: usize = 0;
        while i < self.mappings.len()
            invariant
                0 <= i <= self.rules().len(),
                first_with_id(self.rules(), id@, 0) == first_with_id(self.rules(), id@, i as int),
            decreases self.rules().len() - i,
        {
            if str_eq(self.mappings[i].control_id.as_str(), id) {
                return Some(i);
            }
            i += 1;
        }
        None
    }

    /// The matching mapping's position and the evidence, for a record given by its parts.
    pub(crate) fn match_parts(&self, md: &Metadata, raw: &str, message: &str, redacted: bool) -> (r: Option<(usize, String)>)
        ensures
            r matches Some((i, s)) ==> match_spec(self.rules(), md@, raw@, message@, redacted) == Some((i as int, s@))
                && i < self.rules().len(),
            r is None ==> match_spec(self.rules(), md@, raw@, message@, redacted) is None,
    {
        match md.get("nist_control_id") {
            Some(tid) => {
                if md.contains_key("correlation_type") {
                    match self.index_with_id(tid.as_str()) {
                        Some(i) => {
                            return Some((i, owned("Stateful Correlation")));
                        }
                        None => {}
                    }
                }
            }
            None => {}
        }
        let mut i: usize = 0;
        while i < self.mappings.len()
            invariant
                0 <= i <= self.rules().len(),
                first_pattern_hit(self.rules(), raw@, message@, 0) == first_pattern_hit(self.rules(), raw@, message@, i as int),
                corr_hit(self.rules(), md@) is None,
            decreases self.rules().len() - i,
        {
            match self.hit_at(i, raw, message) {
                Some(s) => {
                    return Some((i, s));
                }
                None => {}
            }
            i += 1;
        }
        if redacted {
            match self.index_with_id("AU-3") {
                Some(i) => Some((i, owned("Privacy Redaction"))),
                None => None,
            }
        } else {
            None
        }
    }

    /// The mapping a record matches, with the evidence: a correlated record's tagged control
    /// ("Stateful Correlation"), else the first mapping whose signature matches its target text
    /// (the matched text), else the privacy control for a record with redactions ("Privacy Redaction").
    pub fn matches(&self, record: &crate::models::LogRecord) -> (r: Option<(&ControlMapping, String)>)
        ensures
            r matches Some((m, s)) ==> exists|i: int| 0 <= i < self.rules().len() && *m == self.rules()[i]
                && match_spec(self.rules(), record.metadata@, record.raw@, record.message@, record.redactions@.len() > 0) == Some((i, s@)),
            r is None ==> match_spec(self.rules(), record.metadata@, record.raw@, record.message@, record.redactions@.len() > 0) is None,
    {
        match self.match_parts(&record.metadata, record.raw.as_str(), record.message.as_str(), record.redactions.len() > 0) {
            Some((i, s)) => Some((&self.mappings[i], s)),
            None => None,
        }
    }

    /// The first mapping whose id equals or starts with `control_id`.
    pub fn lookup_control(&self, control_id: &str) -> (r: Option<&ControlMapping>)
        ensures
            r matches Some(m) ==> exists|i: int| first_control(self.rules(), control_id@, 0) == Some(i)
                && 0 <= i < self.rules().len() && *m == self.rules()[i],
            r is None ==> first_control(self.rules(), control_id@, 0) is None,
    {
        let mut i: usize = 0;
        while i < self.mappings.len()
            invariant
                0 <= i <= self.rules().len(),
                first_control(self.rules(), control_id@, 0) == first_control(self.rules(), control_id@, i as int),
            decreases self.rules().len() - i,
        {
            let id = self.mappings[i].control_id.as_str();
            if str_eq(id, control_id) || str_starts_with(id, control_id) {
                return Some(&self.mappings[i]);
            }
            i += 1;
        }
        None
    }

    /// The ancestry of `pid` from the process tree, `root -> ... -> pid`, at most ten levels up
    /// from `depth`; empty for an unknown process.
    pub fn get_lineage_chain(&self, pid: u32, depth: usize) -> (s: String)
        ensures
            s@ == lineage(self.tree(), pid, depth as int),
        decreases 11 - depth,
    {
        if depth > 10 {
            return owned("... (depth limit)");
        }
        match tree_get(&self.process_tree, pid) {
            Some(entry) => {
                let base = match path_file_name(entry.image.as_str()) {
                    Some(b) => b,
                    None => owned(entry.image.as_str()),
                };
                match entry.parent {
                    Some(ppid) => {
                        let parent_chain = self.get_lineage_chain(ppid, depth + 1);
                        if parent_chain.unicode_len() == 0 {
                            base
                        } else {
                            let a = concat(parent_chain.as_str(), " -> ");
                            concat(a.as_str(), base.as_str())
                        }
                    }
                    None => base,
                }
            }
            None => {
                proof {
                    reveal_strlit("");
                    assert(""@ =~= Seq::<char>::empty());
                }
                owned("")
            }
        }
    }

    /// Clears the process tree once it holds more than 5000 processes.
    pub fn prune_tree(&mut self)
        ensures
            old(self).tree().dom().len() > 5000 ==> final(self).tree() == Map::<u32, (Seq<char>, Option<u32>, Option<Seq<char>>)>::empty(),
            old(self).tree().dom().len() <= 5000 ==> final(self).tree() == old(self).tree(),
            final(self).rules() == old(self).rules(),
            final(self).wmi() == old(self).wmi(),
            final(self).signals() == old(self).signals(),
            final(self).framework() == old(self).framework(),
            final(self).latency_threshold() == old(self).latency_threshold(),
    {
        let count = tree_len(&self.process_tree);
        if count > 5000 {
            tree_clear(&mut self.process_tree);
            assert(self.tree() =~= Map::<u32, (Seq<char>, Option<u32>, Option<Seq<char>>)>::empty());
        }
    }

    /// Remembers WMI filters and consumers, and reports a binding between a remembered consumer
    /// and filter.
    pub(crate) fn wmi_observe(&mut self, md: &Metadata) -> (r: Option<(String, String)>)
        ensures
            final(self).wmi() == wmi_after(old(self).wmi(), md@),
            r matches Some(p) ==> wmi_binding(old(self).wmi(), md@) == Some((p.0@, p.1@)),
            r is None ==> wmi_binding(old(self).wmi(), md@) is None,
            final(self).rules() == old(self).rules(),
            final(self).signals() == old(self).signals(),
            final(self).tree() == old(self).tree(),
            final(self).framework() == old(self).framework(),
            final(self).latency_threshold() == old(self).latency_threshold(),
    {
        let eid = crate::heuristics::event_id(md);
        let e = eid.as_str();
        proof {
            reveal_strlit("19");
            reveal_strlit("20");
            reveal_strlit("21");
            reveal_strlit("5857");
            reveal_strlit("5858");
            reveal_strlit("filter");
            reveal_strlit("consumer");
            reveal_strlit(":");
            reveal_strlit("filter:");
            reveal_strlit("consumer:");
            assert("19"@[0] != "21"@[0]);
            assert("20"@[1] != "21"@[1]);
            assert("19"@.len() != "5857"@.len() && "19"@.len() != "5858"@.len());
            assert("20"@.len() != "5857"@.len() && "20"@.len() != "5858"@.len());
        }
        if str_eq(e, "19") || str_eq(e, "20") {
            match md.get_either("Name", "name") {
                Some(n) => {
                    let lower = to_lowercase(n.as_str());
                    if str_eq(e, "19") {
                        let key = concat("filter:", lower.as_str());
                        wmi_insert(&mut self.wmi_buffer, key, WmiState::Filter);
                    } else {
                        let key = concat("consumer:", lower.as_str());
                        wmi_insert(&mut self.wmi_buffer, key, WmiState::Consumer);
                    }
                    proof {
                        assert(("filter"@ + ":"@) =~= "filter:"@);
                        assert(("consumer"@ + ":"@) =~= "consumer:"@);
                    }
                }
                None => {}
            }
            proof {
                reveal_strlit("19");
                reveal_strlit("20");
                reveal_strlit("21");
                reveal_strlit("5857");
                reveal_strlit("5858");
            }
            None
        } else if str_eq(e, "21") || str_eq(e, "5857") || str_eq(e, "5858") {
            let consumer = match md.get_either("Consumer", "consumer") {
                Some(c) => to_lowercase(c.as_str()),
                None => {
                    proof { reveal_strlit(""); assert(""@ =~= Seq::<char>::empty()); }
                    to_lowercase("")
                }
            };
            let filter = match md.get_either("Filter", "filter") {
                Some(f) => to_lowercase(f.as_str()),
                None => {
                    proof { reveal_strlit(""); assert(""@ =~= Seq::<char>::empty()); }
                    to_lowercase("")
                }
            };
            let ck = concat("consumer:", consumer.as_str());
            let fk = concat("filter:", filter.as_str());
            assert(consumer@ == lowercase(crate::metadata::or_empty(lookup2(md@, "Consumer"@, "consumer"@))));
            assert(filter@ == lowercase(crate::metadata::or_empty(lookup2(md@, "Filter"@, "filter"@))));
            if wmi_contains(&self.wmi_buffer, ck.as_str()) && wmi_contains(&self.wmi_buffer, fk.as_str()) {
                assert(wmi_binding(old(self).wmi(), md@) == Some((consumer@, filter@)));
                Some((consumer, filter))
            } else {
                proof {
                    reveal_strlit("19");
                    reveal_strlit("20");
                }
                None
            }
        } else {
            None
        }
    }

    /// Correlates WMI persistence: remembers filters (event 19) and consumers (event 20), and
    /// marks a binding event (21, 5857, 5858) of a remembered consumer and filter as critical.
    pub fn correlate_wmi(&mut self, record: &mut crate::models::LogRecord)
        ensures
            final(self).wmi() == wmi_after(old(self).wmi(), old(record).metadata@),
            match wmi_binding(old(self).wmi(), old(record).metadata@) {
                Some((c, f)) => {
                    &&& opt_view(final(record).severity) == Some("Critical"@)
                    &&& final(record).message@ == wmi_message(c, f)
                    &&& final(record).metadata@ == old(record).metadata@.insert("correlation_type"@, "WMI_Persistence_Binding_FULL"@)
                        .insert("nist_control_id"@, "SI-4"@)
                    &&& crate::models::same_besides_triage(*final(record), *old(record))
                    &&& final(record).outcome == old(record).outcome
                }
                None => *final(record) == *old(record),
            },
            final(self).rules() == old(self).rules(),
            final(self).signals() == old(self).signals(),
            final(self).tree() == old(self).tree(),
            final(self).framework() == old(self).framework(),
            final(self).latency_threshold() == old(self).latency_threshold(),
    {
        match self.wmi_observe(&record.metadata) {
            Some((c, f)) => {
                record.severity = Some(owned("Critical"));
                let a = concat("☢️ CRITICAL: Multi-Event WMI Persistence Chain Correlated! Consumer: ", c.as_str());
                let b = concat(a.as_str(), ", Filter: ");
                record.message = concat(b.as_str(), f.as_str());
                record.metadata.insert(owned("correlation_type"), owned("WMI_Persistence_Binding_FULL"));
                record.metadata.insert(owned("nist_control_id"), owned("SI-4"));
            }
            None => {}
        }
    }
}

proof fn lemma_first_with_id_range(ms: Seq<ControlMapping>, id: Seq<char>, i: int)
    ensures
        first_with_id(ms, id, i) matches Some(j) ==> i <= j < ms.len(),
    decreases ms.len() - i,
{
    if 0 <= i < ms.len() && ms[i].control_id@ != id {
        lemma_first_with_id_range(ms, id, i + 1);
    }
}

} // verus!
