//! Compliance reporting: the roll-up of posture events into one summary per control, and the
//! OSCAL assessment results and plan of action built from them.

use vstd::prelude::*;
use crate::config::{ActiveFramework, AppConfig};
use crate::crosswalk::{NistCrosswalk, requirement, requirement_index};
use crate::ledger::PostureEvent;
use crate::models::{ComplianceStatus, SeverityLevel, sev_rank};
use crate::num::u64_to_string;
use crate::audit_receipt::{digest_hex, text_digest};
use crate::compliance_cache::CachedFailure;
use crate::metadata::lookup;
use crate::oscal::{AssessmentResults, Evidence, Finding, FindingStatus, FindingTarget, Metadata, Observation,
    OscalAssessmentResults, OscalPoam, Poam, PoamItem, ResultEntry};
use crate::text::{append, decimal, lemma_text_lt_total, lemma_text_lt_trans, owned, str_eq, text_less, text_lt};
use crate::time::{Timestamp, now};

verus! {

/// The control an event is reported under: its own id, or under the commercial framework the
/// 800-171 requirement it maps to; none for a control without a commercial counterpart.
pub open spec fn reported_control(e: PostureEvent, commercial: bool) -> Option<Seq<char>> {
    if commercial {
        match requirement_index(e.control_id@) {
            Some(k) => Some(requirement(k).0),
            None => None,
        }
    } else {
        Some(e.control_id@)
    }
}

/// The events among the first `n` reported under control `k`, in order.
pub open spec fn occurrences(es: Seq<PostureEvent>, commercial: bool, k: Seq<char>, n: int) -> Seq<PostureEvent>
    decreases n,
{
    if n <= 0 {
        Seq::empty()
    } else if reported_control(es[n - 1], commercial) == Some(k) {
        occurrences(es, commercial, k, n - 1).push(es[n - 1])
    } else {
        occurrences(es, commercial, k, n - 1)
    }
}

/// The raw logs of events.
pub open spec fn raw_logs(occ: Seq<PostureEvent>) -> Seq<Seq<char>> {
    occ.map_values(|e: PostureEvent| e.raw_log@)
}

/// The views of texts.
pub open spec fn texts(v: Seq<String>) -> Seq<Seq<char>> {
    v.map_values(|s: String| s@)
}

/// The most severe severity among the first `n` events; the first `n` must not be empty.
pub open spec fn worst_severity(occ: Seq<PostureEvent>, n: int) -> SeverityLevel
    decreases n,
{
    if n <= 1 {
        occ[0].severity
    } else if sev_rank(occ[n - 1].severity) > sev_rank(worst_severity(occ, n - 1)) {
        occ[n - 1].severity
    } else {
        worst_severity(occ, n - 1)
    }
}

/// The smaller of two integers.
pub open spec fn min_int(a: int, b: int) -> int {
    if a < b { a } else { b }
}

/// The larger of two integers.
pub open spec fn max_int(a: int, b: int) -> int {
    if a > b { a } else { b }
}

/// The roll-up of the events reported under one control.
#[derive(Debug)]
pub struct ControlSummary {
    pub control_id: String,
    pub severity: SeverityLevel,
    pub occurrence_count: usize,
    /// The raw logs of the first five occurrences.
    pub first_5: Vec<String>,
    /// The raw logs of the last five occurrences after the first five.
    pub last_5: Vec<String>,
    /// The incident of the first occurrence.
    pub incident_id: Option<u128>,
}

/// `s` rolls up the occurrences `occ` of control `k`: their number, the first five and last
/// five raw logs (the last five taken after the first five), the worst severity, and the
/// incident of the first.
pub open spec fn summarizes(s: ControlSummary, k: Seq<char>, occ: Seq<PostureEvent>) -> bool {
    let n = occ.len() as int;
    &&& n > 0
    &&& s.control_id@ == k
    &&& s.occurrence_count == n
    &&& texts(s.first_5@) == raw_logs(occ).take(min_int(5, n))
    &&& texts(s.last_5@) == (if n > 5 { raw_logs(occ).subrange(max_int(5, n - 5), n) } else { Seq::<Seq<char>>::empty() })
    &&& s.severity == worst_severity(occ, n)
    &&& s.incident_id == occ[0].incident_id
}

/// The roll-up of `es`: one summary per reported control, sorted by control id, each summing up
/// the control's occurrences, and a summary for every control that occurs.
pub open spec fn rolled_up(es: Seq<PostureEvent>, commercial: bool, n: int, sums: Seq<ControlSummary>) -> bool {
    &&& forall|i: int, j: int| 0 <= i < j < sums.len() ==> text_lt(#[trigger] sums[i].control_id@, #[trigger] sums[j].control_id@)
    &&& forall|i: int| 0 <= i < sums.len() ==> summarizes(#[trigger] sums[i], sums[i].control_id@,
        occurrences(es, commercial, sums[i].control_id@, n))
    &&& forall|k: Seq<char>| #[trigger] occurrences(es, commercial, k, n).len() > 0
        ==> exists|i: int| 0 <= i < sums.len() && sums[i].control_id@ == k
}

proof fn lemma_occurrences_step(es: Seq<PostureEvent>, commercial: bool, k: Seq<char>, n: int)
    requires
        0 <= n < es.len(),
    ensures
        reported_control(es[n], commercial) == Some(k) ==> occurrences(es, commercial, k, n + 1) == occurrences(es, commercial, k, n).push(es[n]),
        reported_control(es[n], commercial) != Some(k) ==> occurrences(es, commercial, k, n + 1) == occurrences(es, commercial, k, n),
{
}

proof fn lemma_worst_push(occ: Seq<PostureEvent>, e: PostureEvent)
    requires
        occ.len() > 0,
    ensures
        worst_severity(occ.push(e), occ.len() as int + 1) == (if sev_rank(e.severity) > sev_rank(worst_severity(occ, occ.len() as int)) {
            e.severity
        } else {
            worst_severity(occ, occ.len() as int)
        }),
{
    lemma_worst_prefix(occ.push(e), occ, occ.len() as int);
}

proof fn lemma_worst_prefix(a: Seq<PostureEvent>, b: Seq<PostureEvent>, n: int)
    requires
        1 <= n <= a.len(),
        n <= b.len(),
        forall|i: int| 0 <= i < n ==> a[i] == b[i],
    ensures
        worst_severity(a, n) == worst_severity(b, n),
    decreases n,
{
    if n > 1 {
        lemma_worst_prefix(a, b, n - 1);
    }
}

/// The summary of a first occurrence.
fn first_summary(control_id: String, e: &PostureEvent) -> (s: ControlSummary)
    ensures
        summarizes(s, control_id@, seq![*e]),
{
    let mut first_5: Vec<String> = Vec::new();
    first_5.push(e.raw_log.clone());
    let s = ControlSummary {
        control_id,
        severity: e.severity,
        occurrence_count: 1,
        first_5,
        last_5: Vec::new(),
        incident_id: e.incident_id,
    };
    proof {
        assert(texts(s.first_5@) =~= raw_logs(seq![*e]).take(1));
        assert(texts(s.last_5@) =~= Seq::<Seq<char>>::empty());
    }
    s
}

/// Adds a further occurrence to a summary.
fn add_occurrence(s: ControlSummary, e: &PostureEvent, Ghost(occ): Ghost<Seq<PostureEvent>>) -> (r: ControlSummary)
    requires
        summarizes(s, s.control_id@, occ),
        occ.len() < usize::MAX,
    ensures
        summarizes(r, s.control_id@, occ.push(*e)),
{
    let n = s.occurrence_count;
    let mut first_5 = s.first_5;
    let mut last_5 = s.last_5;
    let ghost occ2 = occ.push(*e);
    proof {
        assert(raw_logs(occ2) =~= raw_logs(occ).push(e.raw_log@));
    }
    let ghost f0 = first_5@;
    let ghost l0 = last_5@;
    if n < 5 {
        first_5.push(e.raw_log.clone());
        proof {
            assert(texts(first_5@) =~= texts(f0).push(e.raw_log@));
            assert(raw_logs(occ).take(n as int) =~= raw_logs(occ));
            assert(raw_logs(occ2).take(n + 1) =~= raw_logs(occ2));
            assert(texts(first_5@) =~= raw_logs(occ2).take(min_int(5, n + 1)));
            if n + 1 > 5 {
                assert(false);
            }
            assert(texts(last_5@) =~= Seq::<Seq<char>>::empty());
        }
    } else {
        if last_5.len() == 5 {
            last_5.remove(0);
            assert(texts(last_5@) =~= texts(l0).drop_first());
        }
        let ghost l1 = last_5@;
        last_5.push(e.raw_log.clone());
        proof {
            assert(texts(last_5@) =~= texts(l1).push(e.raw_log@));
            assert(texts(first_5@) =~= raw_logs(occ2).take(5));
            let lo = max_int(5, n + 1 - 5);
            assert(texts(last_5@) =~= raw_logs(occ2).subrange(lo, n + 1));
        }
    }
    let severity = if e.severity.rank() > s.severity.rank() { e.severity } else { s.severity };
    proof {
        lemma_worst_push(occ, *e);
        assert(occ2[0] == occ[0]);
    }
    ControlSummary {
        control_id: s.control_id,
        severity,
        occurrence_count: n + 1,
        first_5,
        last_5,
        incident_id: s.incident_id,
    }
}

/// The control an event is reported under, as [`reported_control`] says.
fn reported_control_of(e: &PostureEvent, commercial: bool) -> (r: Option<String>)
    ensures
        match r {
            Some(k) => reported_control(*e, commercial) == Some(k@),
            None => reported_control(*e, commercial) is None,
        },
{
    if commercial {
        match NistCrosswalk::translate(e.control_id.as_str()) {
            Some(req) => Some(owned(req.id)),
            None => None,
        }
    } else {
        Some(e.control_id.clone())
    }
}

/// Rolls the events up into one summary per reported control, sorted by control id. Under the
/// commercial framework an event is reported under the 800-171 requirement its control maps to,
/// and left out when it maps to none.
pub fn aggregate_controls(es: &Vec<PostureEvent>, commercial: bool) -> (sums: Vec<ControlSummary>)
    requires
        es@.len() < usize::MAX,
    ensures
        rolled_up(es@, commercial, es@.len() as int, sums@),
{
    let mut sums: Vec<ControlSummary> = Vec::new();
    let mut i: usize = 0;
    while i < es.len()
        invariant
            0 <= i <= es@.len(),
            es@.len() < usize::MAX,
            rolled_up(es@, commercial, i as int, sums@),
            forall|j: int| 0 <= j < sums@.len() ==> (#[trigger] sums@[j]).occurrence_count <= i,
        decreases es@.len() - i,
    {
        let e = &es[i];
        let ghost n = i as int;
        let key = match reported_control_of(e, commercial) {
            Some(k) => k,
            None => {
                proof {
                    assert forall|k: Seq<char>| #[trigger] occurrences(es@, commercial, k, n + 1) == occurrences(es@, commercial, k, n) by {
                        lemma_occurrences_step(es@, commercial, k, n);
                    }
                }
                i += 1;
                continue;
            }
        };
        let ghost k = key@;
        let ghost old_sums = sums@;
        let mut j: usize = 0;
        while j < sums.len() && text_less(sums[j].control_id.as_str(), key.as_str())
            invariant
                0 <= j <= sums@.len(),
                sums@ == old_sums,
                k == key@,
                forall|t: int| 0 <= t < j ==> text_lt(#[trigger] sums@[t].control_id@, k),
            decreases sums@.len() - j,
        {
            j += 1;
        }
        proof {
            assert forall|kk: Seq<char>| kk != k implies #[trigger] occurrences(es@, commercial, kk, n + 1)
                == occurrences(es@, commercial, kk, n) by {
                lemma_occurrences_step(es@, commercial, kk, n);
            }
            lemma_occurrences_step(es@, commercial, k, n);
            assert(occurrences(es@, commercial, k, n + 1) == occurrences(es@, commercial, k, n).push(*e));
        }
        if j < sums.len() && str_eq(sums[j].control_id.as_str(), key.as_str()) {
            let s = sums.remove(j);
            let ghost occ = occurrences(es@, commercial, k, n);
            let s2 = add_occurrence(s, e, Ghost(occ));
            sums.insert(j, s2);
            proof {
                assert forall|a: int| 0 <= a < sums@.len() && a != j implies #[trigger] sums@[a] == old_sums[a] by {}
                assert forall|a: int, b: int| 0 <= a < b < sums@.len() implies text_lt(#[trigger] sums@[a].control_id@, #[trigger] sums@[b].control_id@) by {
                    assert(sums@[a].control_id@ == old_sums[a].control_id@);
                    assert(sums@[b].control_id@ == old_sums[b].control_id@);
                }
                assert forall|a: int| 0 <= a < sums@.len() implies summarizes(#[trigger] sums@[a], sums@[a].control_id@,
                    occurrences(es@, commercial, sums@[a].control_id@, n + 1)) by {
                    if a != j {
                        assert(old_sums[a].control_id@ != k) by {
                            lemma_text_lt_total(old_sums[a].control_id@, k);
                        }
                    }
                }
                assert forall|kk: Seq<char>| #[trigger] occurrences(es@, commercial, kk, n + 1).len() > 0
                    implies exists|a: int| 0 <= a < sums@.len() && sums@[a].control_id@ == kk by {
                    if kk == k {
                        assert(sums@[j as int].control_id@ == kk);
                    } else {
                        let a = choose|a: int| 0 <= a < old_sums.len() && old_sums[a].control_id@ == kk;
                        assert(sums@[a].control_id@ == kk);
                    }
                }
            }
        } else {
            proof {
                assert forall|a: int| 0 <= a < old_sums.len() implies #[trigger] old_sums[a].control_id@ != k by {
                    lemma_text_lt_total(old_sums[a].control_id@, k);
                    if a > j {
                        assert(text_lt(old_sums[j as int].control_id@, old_sums[a].control_id@));
                        lemma_text_lt_total(old_sums[j as int].control_id@, k);
                        if old_sums[a].control_id@ == k {
                            assert(text_lt(k, old_sums[j as int].control_id@) || old_sums[j as int].control_id@ == k);
                        }
                    }
                }
                assert(occurrences(es@, commercial, k, n).len() == 0);
                assert(occurrences(es@, commercial, k, n + 1) =~= seq![*e]);
            }
            let s2 = first_summary(key, e);
            sums.insert(j, s2);
            proof {
                assert forall|a: int, b: int| 0 <= a < b < sums@.len() implies text_lt(#[trigger] sums@[a].control_id@, #[trigger] sums@[b].control_id@) by {
                    if a < j && b < j {
                        assert(sums@[a] == old_sums[a] && sums@[b] == old_sums[b]);
                    } else if a < j && b == j {
                        assert(sums@[a] == old_sums[a]);
                    } else if a < j && b > j {
                        assert(sums@[a] == old_sums[a] && sums@[b] == old_sums[b - 1]);
                    } else if a == j {
                        assert(sums@[b] == old_sums[b - 1]);
                        lemma_text_lt_total(old_sums[j as int].control_id@, k);
                        if b - 1 > j {
                            lemma_text_lt_trans(k, old_sums[j as int].control_id@, old_sums[b - 1].control_id@);
                        }
                    } else {
                        assert(sums@[a] == old_sums[a - 1] && sums@[b] == old_sums[b - 1]);
                    }
                }
                assert forall|a: int| 0 <= a < sums@.len() implies summarizes(#[trigger] sums@[a], sums@[a].control_id@,
                    occurrences(es@, commercial, sums@[a].control_id@, n + 1)) by {
                    if a < j {
                        assert(sums@[a] == old_sums[a]);
                    } else if a > j {
                        assert(sums@[a] == old_sums[a - 1]);
                    }
                }
                assert forall|kk: Seq<char>| #[trigger] occurrences(es@, commercial, kk, n + 1).len() > 0
                    implies exists|a: int| 0 <= a < sums@.len() && sums@[a].control_id@ == kk by {
                    if kk == k {
                        assert(sums@[j as int].control_id@ == kk);
                    } else {
                        let a = choose|a: int| 0 <= a < old_sums.len() && old_sums[a].control_id@ == kk;
                        if a < j {
                            assert(sums@[a].control_id@ == kk);
                        } else {
                            assert(sums@[a + 1].control_id@ == kk);
                        }
                    }
                }
            }
        }
        i += 1;
    }
    sums
}

/// `Uuid::new_v4`: a random version-4 UUID, as its 128-bit value. Nothing is stated of it: it
/// is drawn at random.
#[verifier::external_body]
fn new_uuid() -> (u: u128)
{
    uuid::Uuid::new_v4().as_u128()
}

/// `o` is the observation of the control rolled up in `s`: its capture, examined and tested,
/// with the sampled evidence (the first five then the last five raw logs).
pub open spec fn observation_of(o: Observation, s: ControlSummary) -> bool {
    &&& o.description@ == "NIST Control Capture: "@ + s.control_id@
    &&& texts(o.methods@) == seq!["EXAMINE"@, "TEST"@]
    &&& o.occurrence_count == s.occurrence_count
    &&& texts(o.sample_evidence@) == texts(s.first_5@) + texts(s.last_5@)
    &&& o.relevant_evidence@.len() == 0
}

/// `f` is the finding of the control rolled up in `s`: an unsatisfied deviation of the sentinel.
pub open spec fn finding_of(f: Finding, s: ControlSummary) -> bool {
    &&& f.title@ == "Compliance Deviation: "@ + s.control_id@
    &&& f.description@ == "An aggregated security deficiency was detected for control "@ + s.control_id@
        + ". Total incidents: "@ + decimal(s.occurrence_count as nat) + "."@
    &&& f.occurrence_count == s.occurrence_count
    &&& f.incident_id == s.incident_id
    &&& f.target.target_id@ == "aegis.sentinel.0"@
    &&& f.target.status.state@ == "not-satisfied"@
}

fn observation_for(s: &ControlSummary) -> (o: Observation)
    ensures
        observation_of(o, *s),
{
    let mut description = owned("NIST Control Capture: ");
    append(&mut description, s.control_id.as_str());
    let mut methods: Vec<String> = Vec::new();
    methods.push(owned("EXAMINE"));
    methods.push(owned("TEST"));
    let mut sample: Vec<String> = Vec::new();
    let mut i: usize = 0;
    while i < s.first_5.len()
        invariant
            0 <= i <= s.first_5@.len(),
            texts(sample@) == texts(s.first_5@).take(i as int),
        decreases s.first_5@.len() - i,
    {
        let ghost before = sample@;
        sample.push(s.first_5[i].clone());
        assert(texts(sample@) =~= texts(before).push(s.first_5@[i as int]@));
        assert(texts(s.first_5@).take(i + 1) =~= texts(s.first_5@).take(i as int).push(s.first_5@[i as int]@));
        i += 1;
    }
    let mut j: usize = 0;
    while j < s.last_5.len()
        invariant
            0 <= j <= s.last_5@.len(),
            texts(sample@) == texts(s.first_5@) + texts(s.last_5@).take(j as int),
        decreases s.last_5@.len() - j,
    {
        let ghost before = sample@;
        sample.push(s.last_5[j].clone());
        assert(texts(sample@) =~= texts(before).push(s.last_5@[j as int]@));
        assert(texts(s.last_5@).take(j + 1) =~= texts(s.last_5@).take(j as int).push(s.last_5@[j as int]@));
        j += 1;
    }
    proof {
        assert(texts(methods@) =~= seq!["EXAMINE"@, "TEST"@]);
        assert(texts(s.first_5@).take(s.first_5@.len() as int) =~= texts(s.first_5@));
        assert(texts(s.last_5@).take(s.last_5@.len() as int) =~= texts(s.last_5@));
    }
    Observation {
        uuid: new_uuid(),
        description,
        methods,
        occurrence_count: s.occurrence_count,
        sample_evidence: sample,
        relevant_evidence: Vec::new(),
    }
}

fn finding_for(s: &ControlSummary) -> (f: Finding)
    ensures
        finding_of(f, *s),
{
    let mut title = owned("Compliance Deviation: ");
    append(&mut title, s.control_id.as_str());
    let mut description = owned("An aggregated security deficiency was detected for control ");
    append(&mut description, s.control_id.as_str());
    append(&mut description, ". Total incidents: ");
    let count = u64_to_string(s.occurrence_count as u64);
    append(&mut description, count.as_str());
    append(&mut description, ".");
    Finding {
        uuid: new_uuid(),
        title,
        description,
        occurrence_count: s.occurrence_count,
        incident_id: s.incident_id,
        target: FindingTarget {
            target_id: owned("aegis.sentinel.0"),
            status: FindingStatus { state: owned("not-satisfied") },
        },
    }
}

/// `d` is the assessment-results document of `system_name` for the events `es`: one observation
/// and one finding per rolled-up control, in control order, under framework `commercial`.
pub open spec fn assessment_of(d: OscalAssessmentResults, es: Seq<PostureEvent>, system_name: Seq<char>, commercial: bool) -> bool {
    let a = d.assessment_results;
    &&& a.metadata.title@ == system_name + " OSCAL Assessment Results"@
    &&& a.metadata.version@ == "1.0"@
    &&& a.metadata.oscal_version@ == "1.1.2"@
    &&& a.results@.len() == 1
    &&& {
        let r = a.results@[0];
        &&& r.title@ == "Forensic Assessment for "@ + system_name
        &&& r.description@ == "Aegis-automated audit record (LFA v3) containing "@ + decimal(es.len())
            + " signals (Aggregated)."@
        &&& r.observations@.len() == r.findings@.len()
        &&& exists|sums: Seq<ControlSummary>| {
            &&& #[trigger] rolled_up(es, commercial, es.len() as int, sums)
            &&& sums.len() == r.observations@.len()
            &&& forall|i: int| 0 <= i < sums.len() ==> observation_of(#[trigger] r.observations@[i], sums[i])
                && finding_of(r.findings@[i], sums[i])
        }
    }
}

/// The OSCAL exporter.
pub struct OscalExporter;

impl OscalExporter {
    /// The NIST OSCAL 1.1.2 assessment results for the events: the events rolled up per control
    /// (per 800-171 requirement under the commercial framework), each control with an
    /// observation sampling its evidence and an unsatisfied finding. Identifiers are random and
    /// the times are the current time.
    pub fn generate_assessment_results(es: &Vec<PostureEvent>, system_name: &str, config: &AppConfig) -> (d: OscalAssessmentResults)
        requires
            es@.len() < usize::MAX,
        ensures
            assessment_of(d, es@, system_name@, config.active_framework == ActiveFramework::Commercial171),
    {
        let commercial = match config.active_framework {
            ActiveFramework::Commercial171 => true,
            _ => false,
        };
        let sums = aggregate_controls(es, commercial);
        let mut observations: Vec<Observation> = Vec::new();
        let mut findings: Vec<Finding> = Vec::new();
        let mut i: usize = 0;
        while i < sums.len()
            invariant
                0 <= i <= sums@.len(),
                observations@.len() == i,
                findings@.len() == i,
                forall|k: int| 0 <= k < i ==> observation_of(#[trigger] observations@[k], sums@[k]) && finding_of(findings@[k], sums@[k]),
            decreases sums@.len() - i,
        {
            let ghost o0 = observations@;
            let ghost f0 = findings@;
            observations.push(observation_for(&sums[i]));
            findings.push(finding_for(&sums[i]));
            assert forall|k: int| 0 <= k < i + 1 implies observation_of(#[trigger] observations@[k], sums@[k])
                && finding_of(findings@[k], sums@[k]) by {
                if k < i {
                    assert(observations@[k] == o0[k] && findings@[k] == f0[k]);
                }
            }
            i += 1;
        }
        let mut title = owned("Forensic Assessment for ");
        append(&mut title, system_name);
        let mut description = owned("Aegis-automated audit record (LFA v3) containing ");
        let n = u64_to_string(es.len() as u64);
        append(&mut description, n.as_str());
        append(&mut description, " signals (Aggregated).");
        let results = ResultEntry {
            uuid: new_uuid(),
            title,
            description,
            start: now(),
            observations,
            findings,
        };
        let mut doc_title = owned(system_name);
        append(&mut doc_title, " OSCAL Assessment Results");
        let mut entries: Vec<ResultEntry> = Vec::new();
        entries.push(results);
        let d = OscalAssessmentResults {
            assessment_results: AssessmentResults {
                uuid: new_uuid(),
                metadata: Metadata {
                    title: doc_title,
                    last_modified: now(),
                    version: owned("1.0"),
                    oscal_version: owned("1.1.2"),
                },
                results: entries,
            },
        };
        proof {
            let r = d.assessment_results.results@[0];
            assert(commercial == (config.active_framework == ActiveFramework::Commercial171));
            let w = sums@;
            assert({
                &&& rolled_up(es@, commercial, es@.len() as int, w)
                &&& w.len() == r.observations@.len()
                &&& forall|i: int| 0 <= i < w.len() ==> observation_of(#[trigger] r.observations@[i], w[i])
                    && finding_of(r.findings@[i], w[i])
            });
            assert(assessment_of(d, es@, system_name@, commercial));
        }
        d
    }
}

/// The system an event concerns: its `computer`, else its `host`, else its `source_ip`, else
/// `fallback`.
pub open spec fn system_of(md: Map<Seq<char>, Seq<char>>, fallback: Seq<char>) -> Seq<char> {
    match lookup(md, "computer"@) {
        Some(v) => v,
        None => match lookup(md, "host"@) {
            Some(v) => v,
            None => match lookup(md, "source_ip"@) {
                Some(v) => v,
                None => fallback,
            },
        },
    }
}

/// An event the plan of action must address: a failure of high or critical severity.
pub open spec fn poam_eligible(e: PostureEvent) -> bool {
    e.status == ComplianceStatus::Fail && (e.severity == SeverityLevel::Critical || e.severity == SeverityLevel::High)
}

/// Event `i` is the first eligible event of its incident.
pub open spec fn incident_lead(es: Seq<PostureEvent>, i: int) -> bool {
    &&& poam_eligible(es[i]) && es[i].incident_id is Some
    &&& forall|j: int| 0 <= j < i ==> !(poam_eligible(#[trigger] es[j]) && es[j].incident_id == es[i].incident_id)
}

/// The positions among the first `n` that satisfy `p`, in order.
pub open spec fn positions(es: Seq<PostureEvent>, p: spec_fn(Seq<PostureEvent>, int) -> bool, n: int) -> Seq<int>
    decreases n,
{
    if n <= 0 {
        Seq::empty()
    } else if p(es, n - 1) {
        positions(es, p, n - 1).push(n - 1)
    } else {
        positions(es, p, n - 1)
    }
}

/// The events the plan of action tracks, by position: the first eligible event of each incident,
/// in the order incidents first appear, then each eligible event outside any incident, in order.
pub open spec fn poam_leads(es: Seq<PostureEvent>) -> Seq<int> {
    positions(es, |s: Seq<PostureEvent>, i: int| incident_lead(s, i), es.len() as int)
        + positions(es, |s: Seq<PostureEvent>, i: int| poam_eligible(s[i]) && s[i].incident_id is None, es.len() as int)
}

/// A failure to track: the system and control it concerns, the fingerprint of its evidence and
/// when it was seen.
#[derive(Debug)]
pub struct PoamCandidate {
    pub system_id: String,
    pub control_id: String,
    pub evidence_hash: String,
    pub timestamp: Timestamp,
}

/// `c` is the candidate for event `e`, systems defaulting to `fallback`.
pub open spec fn candidate_of(c: PoamCandidate, e: PostureEvent, fallback: Seq<char>) -> bool {
    &&& c.system_id@ == system_of(e.metadata@, fallback)
    &&& c.control_id@ == e.control_id@
    &&& c.evidence_hash@ == text_digest(e.raw_log@)
    &&& c.timestamp == e.timestamp
}

/// `item` is the plan-of-action item for a tracked failure `f`.
pub open spec fn poam_item_of(item: PoamItem, f: CachedFailure) -> bool {
    &&& item.uuid == f.uuid && item.incident_id is None
    &&& item.title@ == "PoAM Item: "@ + f.control_id@ + " - "@ + f.system_id@
    &&& item.description@ == "Recurrent security integrity failure detected. Initial detection fingerprint: "@
        + f.evidence_hash@ + "."@
    &&& item.status@ == "Draft"@
    &&& item.occurrence_count == f.occurrence_count
    &&& item.entry_timestamp == f.entry_timestamp && item.last_seen == f.last_seen
    &&& item.impacted_system@ == f.system_id@
    &&& item.evidence_hash@ == f.evidence_hash@
    &&& item.remediation_remarks@ == "[Action Required] Technician must verify system integrity and log resolution steps here."@
    &&& item.correlated_events@.len() == 0
}

fn contains_id(v: &Vec<u128>, id: u128) -> (b: bool)
    ensures
        b == v@.contains(id),
{
    let mut k: usize = 0;
    while k < v.len()
        invariant
            0 <= k <= v@.len(),
            forall|t: int| 0 <= t < k ==> v@[t] != id,
        decreases v@.len() - k,
    {
        if v[k] == id {
            assert(v@[k as int] == id);
            return true;
        }
        k += 1;
    }
    false
}

impl OscalExporter {
    /// The system an event concerns, or `fallback`.
    pub fn extract_system_id(e: &PostureEvent, fallback: &str) -> (s: String)
        ensures
            s@ == system_of(e.metadata@, fallback@),
    {
        match e.metadata.get_owned("computer") {
            Some(v) => v,
            None => match e.metadata.get_owned("host") {
                Some(v) => v,
                None => match e.metadata.get_owned("source_ip") {
                    Some(v) => v,
                    None => owned(fallback),
                },
            },
        }
    }

    /// The fingerprint of a raw log: the hexadecimal SHA-256 digest of its bytes.
    pub fn hash_event(raw: &str) -> (h: String)
        ensures
            h@ == text_digest(raw@),
    {
        digest_hex(raw)
    }

    /// Whether an event is one the plan of action must address.
    pub fn poam_eligible(e: &PostureEvent) -> (b: bool)
        ensures
            b == poam_eligible(*e),
    {
        e.status == ComplianceStatus::Fail && (e.severity == SeverityLevel::Critical || e.severity == SeverityLevel::High)
    }

    /// The failures the plan of action tracks, as candidates for the failure cache: the first
    /// failure of each incident, then each failure outside any incident, as [`poam_leads`] orders
    /// them; systems default to the sensor's id.
    pub fn poam_candidates(es: &Vec<PostureEvent>, config: &AppConfig) -> (cs: Vec<PoamCandidate>)
        ensures
            cs@.len() == poam_leads(es@).len(),
            forall|i: int| 0 <= i < cs@.len() ==> candidate_of(#[trigger] cs@[i], es@[poam_leads(es@)[i]], config.sensor_id@),
    {
        let ghost lead = |s: Seq<PostureEvent>, i: int| incident_lead(s, i);
        let ghost lone = |s: Seq<PostureEvent>, i: int| poam_eligible(s[i]) && s[i].incident_id is None;
        let mut cs: Vec<PoamCandidate> = Vec::new();
        let mut seen: Vec<u128> = Vec::new();
        let mut i: usize = 0;
        while i < es.len()
            invariant
                0 <= i <= es@.len(),
                lead == (|s: Seq<PostureEvent>, i: int| incident_lead(s, i)),
                cs@.len() == positions(es@, lead, i as int).len(),
                forall|k: int| 0 <= k < cs@.len() ==> candidate_of(#[trigger] cs@[k], es@[positions(es@, lead, i as int)[k]], config.sensor_id@),
                forall|k: int| 0 <= k < positions(es@, lead, i as int).len() ==> 0 <= #[trigger] positions(es@, lead, i as int)[k] < i,
                forall|id: u128| #[trigger] seen@.contains(id) <==> exists|j: int| 0 <= j < i && poam_eligible(#[trigger] es@[j]) && es@[j].incident_id == Some(id),
            decreases es@.len() - i,
        {
            let e = &es[i];
            if Self::poam_eligible(e) {
                match e.incident_id {
                    Some(id) => {
                        let known = contains_id(&seen, id);
                        if !known {
                            let ghost before = cs@;
                            cs.push(PoamCandidate {
                                system_id: Self::extract_system_id(e, config.sensor_id.as_str()),
                                control_id: e.control_id.clone(),
                                evidence_hash: Self::hash_event(e.raw_log.as_str()),
                                timestamp: e.timestamp,
                            });
                            let ghost seen0 = seen@;
                            seen.push(id);
                            proof {
                                assert forall|id2: u128| #[trigger] seen@.contains(id2) <==> exists|j: int| 0 <= j < i + 1
                                    && poam_eligible(#[trigger] es@[j]) && es@[j].incident_id == Some(id2) by {
                                    if seen@.contains(id2) {
                                        let t = choose|t: int| 0 <= t < seen@.len() && seen@[t] == id2;
                                        if t < seen0.len() {
                                            assert(seen0.contains(id2));
                                        } else {
                                            assert(poam_eligible(es@[i as int]) && es@[i as int].incident_id == Some(id2));
                                        }
                                    }
                                    if exists|j: int| 0 <= j < i + 1 && poam_eligible(#[trigger] es@[j]) && es@[j].incident_id == Some(id2) {
                                        let j = choose|j: int| 0 <= j < i + 1 && poam_eligible(#[trigger] es@[j]) && es@[j].incident_id == Some(id2);
                                        if j < i {
                                            assert(seen0.contains(id2));
                                            let t = choose|t: int| 0 <= t < seen0.len() && seen0[t] == id2;
                                            assert(seen@[t] == id2);
                                        } else {
                                            assert(seen@[seen0.len() as int] == id2);
                                        }
                                    }
                                }
                                assert forall|j: int| 0 <= j < i implies !(poam_eligible(#[trigger] es@[j]) && es@[j].incident_id == es@[i as int].incident_id) by {
                                    if poam_eligible(es@[j]) && es@[j].incident_id == es@[i as int].incident_id {
                                        assert(seen0.contains(id));
                                    }
                                }
                                assert(incident_lead(es@, i as int));
                                assert(positions(es@, lead, i + 1) == positions(es@, lead, i as int).push(i as int));
                                assert forall|k: int| 0 <= k < cs@.len() implies candidate_of(#[trigger] cs@[k],
                                    es@[positions(es@, lead, i + 1)[k]], config.sensor_id@) by {
                                    if k < before.len() {
                                        assert(cs@[k] == before[k]);
                                    }
                                }
                            }
                        } else {
                            proof {
                                let j = choose|j: int| 0 <= j < i && poam_eligible(#[trigger] es@[j]) && es@[j].incident_id == Some(id);
                                assert(!incident_lead(es@, i as int));
                                assert(positions(es@, lead, i + 1) == positions(es@, lead, i as int));
                                assert forall|id2: u128| #[trigger] seen@.contains(id2) <==> exists|j: int| 0 <= j < i + 1
                                    && poam_eligible(#[trigger] es@[j]) && es@[j].incident_id == Some(id2) by {
                                    if exists|j: int| 0 <= j < i + 1 && poam_eligible(#[trigger] es@[j]) && es@[j].incident_id == Some(id2) {
                                        let j2 = choose|j2: int| 0 <= j2 < i + 1 && poam_eligible(#[trigger] es@[j2]) && es@[j2].incident_id == Some(id2);
                                        if j2 == i {
                                            assert(es@[j].incident_id == Some(id2));
                                        }
                                    }
                                }
                            }
                        }
                    }
                    None => {
                        proof {
                            assert(positions(es@, lead, i + 1) == positions(es@, lead, i as int));
                            assert forall|id2: u128| #[trigger] seen@.contains(id2) <==> exists|j: int| 0 <= j < i + 1
                                && poam_eligible(#[trigger] es@[j]) && es@[j].incident_id == Some(id2) by {
                                if exists|j: int| 0 <= j < i + 1 && poam_eligible(#[trigger] es@[j]) && es@[j].incident_id == Some(id2) {
                                    let j2 = choose|j2: int| 0 <= j2 < i + 1 && poam_eligible(#[trigger] es@[j2]) && es@[j2].incident_id == Some(id2);
                                    assert(j2 != i);
                                }
                            }
                        }
                    }
                }
            } else {
                proof {
                    assert(positions(es@, lead, i + 1) == positions(es@, lead, i as int));
                    assert forall|id2: u128| #[trigger] seen@.contains(id2) <==> exists|j: int| 0 <= j < i + 1
                        && poam_eligible(#[trigger] es@[j]) && es@[j].incident_id == Some(id2) by {
                        if exists|j: int| 0 <= j < i + 1 && poam_eligible(#[trigger] es@[j]) && es@[j].incident_id == Some(id2) {
                            let j2 = choose|j2: int| 0 <= j2 < i + 1 && poam_eligible(#[trigger] es@[j2]) && es@[j2].incident_id == Some(id2);
                            assert(j2 != i);
                        }
                    }
                }
            }
            i += 1;
        }
        let ghost first_part = positions(es@, lead, es@.len() as int);
        let mut j: usize = 0;
        while j < es.len()
            invariant
                0 <= j <= es@.len(),
                lone == (|s: Seq<PostureEvent>, i: int| poam_eligible(s[i]) && s[i].incident_id is None),
                first_part == positions(es@, lead, es@.len() as int),
                cs@.len() == first_part.len() + positions(es@, lone, j as int).len(),
                forall|k: int| 0 <= k < cs@.len() ==> candidate_of(#[trigger] cs@[k], es@[(first_part + positions(es@, lone, j as int))[k]], config.sensor_id@),
            decreases es@.len() - j,
        {
            let e = &es[j];
            if Self::poam_eligible(e) && e.incident_id.is_none() {
                let ghost before = cs@;
                cs.push(PoamCandidate {
                    system_id: Self::extract_system_id(e, config.sensor_id.as_str()),
                    control_id: e.control_id.clone(),
                    evidence_hash: Self::hash_event(e.raw_log.as_str()),
                    timestamp: e.timestamp,
                });
                proof {
                    assert(positions(es@, lone, j + 1) == positions(es@, lone, j as int).push(j as int));
                    assert(first_part + positions(es@, lone, j + 1) =~= (first_part + positions(es@, lone, j as int)).push(j as int));
                    assert forall|k: int| 0 <= k < cs@.len() implies candidate_of(#[trigger] cs@[k],
                        es@[(first_part + positions(es@, lone, j + 1))[k]], config.sensor_id@) by {
                        if k < before.len() {
                            assert(cs@[k] == before[k]);
                        }
                    }
                }
            } else {
                proof {
                    assert(positions(es@, lone, j + 1) == positions(es@, lone, j as int));
                }
            }
            j += 1;
        }
        cs
    }

    /// The plan-of-action item for a tracked failure.
    pub fn poam_item(f: &CachedFailure) -> (item: PoamItem)
        ensures
            poam_item_of(item, *f),
    {
        let mut title = owned("PoAM Item: ");
        append(&mut title, f.control_id.as_str());
        append(&mut title, " - ");
        append(&mut title, f.system_id.as_str());
        let mut description = owned("Recurrent security integrity failure detected. Initial detection fingerprint: ");
        append(&mut description, f.evidence_hash.as_str());
        append(&mut description, ".");
        PoamItem {
            uuid: f.uuid,
            incident_id: None,
            title,
            description,
            status: owned("Draft"),
            occurrence_count: f.occurrence_count,
            entry_timestamp: f.entry_timestamp,
            last_seen: f.last_seen,
            impacted_system: f.system_id.clone(),
            evidence_hash: f.evidence_hash.clone(),
            remediation_remarks: owned("[Action Required] Technician must verify system integrity and log resolution steps here."),
            correlated_events: Vec::new(),
        }
    }

    /// The OSCAL plan of action and milestones for the tracked failures, one item each, in order.
    /// Its identifier is random and it is stamped with the current time.
    pub fn generate_poam(active_failures: &Vec<CachedFailure>) -> (p: OscalPoam)
        ensures
            p.plan_of_action_and_milestones.metadata.title@ == "Aegis Sentinel: Managed OSCAL PoAM"@,
            p.plan_of_action_and_milestones.metadata.version@ == "1.0"@,
            p.plan_of_action_and_milestones.metadata.oscal_version@ == "1.1.2"@,
            p.plan_of_action_and_milestones.poam_items@.len() == active_failures@.len(),
            forall|i: int| 0 <= i < active_failures@.len() ==> poam_item_of(#[trigger] p.plan_of_action_and_milestones.poam_items@[i], active_failures@[i]),
    {
        let mut items: Vec<PoamItem> = Vec::new();
        let mut i: usize = 0;
        while i < active_failures.len()
            invariant
                0 <= i <= active_failures@.len(),
                items@.len() == i,
                forall|k: int| 0 <= k < i ==> poam_item_of(#[trigger] items@[k], active_failures@[k]),
            decreases active_failures@.len() - i,
        {
            items.push(Self::poam_item(&active_failures[i]));
            i += 1;
        }
        OscalPoam {
            plan_of_action_and_milestones: Poam {
                uuid: new_uuid(),
                metadata: Metadata {
                    title: owned("Aegis Sentinel: Managed OSCAL PoAM"),
                    last_modified: now(),
                    version: owned("1.0"),
                    oscal_version: owned("1.1.2"),
                },
                poam_items: items,
            },
        }
    }
}


/// The compliance certificate: its status line and the findings it tabulates. (The document itself
/// is laid out by a PDF writer.)
pub struct ComplianceReporter;

/// Some finding failed its control.
pub open spec fn any_failure(es: Seq<PostureEvent>) -> bool {
    exists|i: int| 0 <= i < es.len() && es[i].status == ComplianceStatus::Fail
}

impl ComplianceReporter {
    /// The certificate's status line: non-compliant where any finding failed its control.
    pub fn certification_status(es: &Vec<PostureEvent>) -> (s: &'static str)
        ensures
            s@ == (if any_failure(es@) { "NON-COMPLIANT (Review PoAM)"@ } else { "COMPLIANT"@ }),
    {
        proof {
            reveal_strlit("NON-COMPLIANT (Review PoAM)");
            reveal_strlit("COMPLIANT");
        }
        let mut i: usize = 0;
        while i < es.len()
            invariant
                0 <= i <= es@.len(),
                forall|j: int| 0 <= j < i ==> es@[j].status != ComplianceStatus::Fail,
            decreases es@.len() - i,
        {
            if es[i].status == ComplianceStatus::Fail {
                return "NON-COMPLIANT (Review PoAM)";
            }
            i += 1;
        }
        "COMPLIANT"
    }

    /// The rows of the certificate's evidence table: control, time and raw log of the first fifty
    /// findings, in order.
    pub fn evidence_rows(es: &Vec<PostureEvent>) -> (rows: Vec<(String, Timestamp, String)>)
        ensures
            rows@.len() == (if es@.len() < 50 { es@.len() } else { 50 }),
            forall|i: int| 0 <= i < rows@.len() ==> (#[trigger] rows@[i]).0@ == es@[i].control_id@
                && rows@[i].1 == es@[i].timestamp && rows@[i].2@ == es@[i].raw_log@,
    {
        let n: usize = if es.len() < 50 { es.len() } else { 50 };
        let mut rows: Vec<(String, Timestamp, String)> = Vec::new();
        let mut i: usize = 0;
        while i < n
            invariant
                0 <= i <= n,
                n <= es@.len(),
                rows@.len() == i,
                forall|j: int| 0 <= j < i ==> (#[trigger] rows@[j]).0@ == es@[j].control_id@
                    && rows@[j].1 == es@[j].timestamp && rows@[j].2@ == es@[j].raw_log@,
            decreases n - i,
        {
            rows.push((crate::text::owned(es[i].control_id.as_str()), es[i].timestamp, crate::text::owned(es[i].raw_log.as_str())));
            i += 1;
        }
        rows
    }
}

} // verus!
