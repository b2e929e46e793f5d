//! Cross-vector correlation (NIST IR-4): every record from one system joins the same incident.

use vstd::prelude::*;
use crate::metadata::lookup;
use crate::models::{LogRecord, same_besides_triage};
use crate::text::{owned, str_eq};

verus! {

/// The system a record comes from: its `computer`, else its `host`, else its `source_ip`, else
/// `unidentified-system`.
pub open spec fn record_system(md: Map<Seq<char>, Seq<char>>) -> Seq<char> {
    match lookup(md, "computer"@) {
        Some(v) => v,
        None => match lookup(md, "host"@) {
            Some(v) => v,
            None => match lookup(md, "source_ip"@) {
                Some(v) => v,
                None => "unidentified-system"@,
            },
        },
    }
}

/// No two entries share a system.
pub open spec fn systems_distinct(e: Seq<(String, u128)>) -> bool {
    forall|i: int, j: int| 0 <= i < e.len() && 0 <= j < e.len() && i != j ==> e[i].0@ != e[j].0@
}

/// The incident of each system, by system.
pub open spec fn incident_map(e: Seq<(String, u128)>) -> Map<Seq<char>, u128> {
    Map::new(
        |k: Seq<char>| exists|i: int| 0 <= i < e.len() && e[i].0@ == k,
        |k: Seq<char>| e[choose|i: int| 0 <= i < e.len() && e[i].0@ == k].1,
    )
}

/// The fusion engine: assigns each system one incident, the first time a record of it is seen.
pub struct FusionWorker {
    incidents: Vec<(String, u128)>,
}

impl FusionWorker {
    #[verifier::type_invariant]
    closed spec fn inv(&self) -> bool {
        systems_distinct(self.incidents@)
    }

    /// The incident assigned to each system seen so far.
    pub closed spec fn incidents(&self) -> Map<Seq<char>, u128> {
        incident_map(self.incidents@)
    }

    /// An engine that has seen no system.
    pub fn new() -> (w: FusionWorker)
        ensures
            w.incidents() == Map::<Seq<char>, u128>::empty(),
    {
        let w = FusionWorker { incidents: Vec::new() };
        assert(incident_map(w.incidents@) =~= Map::<Seq<char>, u128>::empty());
        w
    }

    /// The system a record comes from.
    pub fn extract_system_id(record: &LogRecord) -> (s: String)
        ensures
            s@ == record_system(record.metadata@),
    {
        match record.metadata.get_owned("computer") {
            Some(v) => v,
            None => match record.metadata.get_owned("host") {
                Some(v) => v,
                None => match record.metadata.get_owned("source_ip") {
                    Some(v) => v,
                    None => owned("unidentified-system"),
                },
            },
        }
    }

    /// Tags a record with the incident of its system; a system seen for the first time is given
    /// the incident `fresh`.
    pub fn fuse(&mut self, record: LogRecord, fresh: u128) -> (r: LogRecord)
        ensures
            ({
                let sys = record_system(record.metadata@);
                let id = if old(self).incidents().contains_key(sys) { old(self).incidents()[sys] } else { fresh };
                &&& r.incident_id == Some(id)
                &&& final(self).incidents() == old(self).incidents().insert(sys, id)
            }),
            r.message == record.message && r.severity == record.severity && r.outcome == record.outcome,
            r.metadata == record.metadata,
            same_besides_triage(LogRecord { incident_id: record.incident_id, ..r }, record),
    {
        proof {
            use_type_invariant(&*self);
        }
        let sys = Self::extract_system_id(&record);
        let ghost e0 = self.incidents@;
        let mut i: usize = 0;
        while i < self.incidents.len()
            invariant
                0 <= i <= self.incidents@.len(),
                self.incidents@ == e0,
                old(self).incidents@ == e0,
                sys@ == record_system(record.metadata@),
                systems_distinct(e0),
                forall|k: int| 0 <= k < i ==> #[trigger] e0[k].0@ != sys@,
            decreases self.incidents@.len() - i,
        {
            if str_eq(self.incidents[i].0.as_str(), sys.as_str()) {
                let id = self.incidents[i].1;
                proof {
                    assert(incident_map(e0).contains_key(sys@));
                    let k = choose|i: int| 0 <= i < e0.len() && e0[i].0@ == sys@;
                    assert(k == i as int);
                    assert(incident_map(e0)[sys@] == id);
                    assert(incident_map(e0).insert(sys@, id) =~= incident_map(e0));
                }
                let mut r = record;
                r.incident_id = Some(id);
                return r;
            }
            i += 1;
        }
        proof {
            assert(!incident_map(e0).contains_key(sys@));
        }
        let mut entries = Vec::new();
        std::mem::swap(&mut entries, &mut self.incidents);
        entries.push((sys, fresh));
        proof {
            assert(systems_distinct(entries@));
            let s = record_system(record.metadata@);
            assert(incident_map(entries@) =~= incident_map(e0).insert(s, fresh)) by {
                assert forall|k: Seq<char>| #[trigger] incident_map(entries@).contains_key(k)
                    == incident_map(e0).insert(s, fresh).contains_key(k) by {
                    if incident_map(e0).contains_key(k) {
                        let j = choose|j: int| 0 <= j < e0.len() && e0[j].0@ == k;
                        assert(entries@[j].0@ == k);
                    }
                    if k == s {
                        assert(entries@[e0.len() as int].0@ == k);
                    }
                }
                assert forall|k: Seq<char>| #[trigger] incident_map(entries@).contains_key(k)
                    implies incident_map(entries@)[k] == incident_map(e0).insert(s, fresh)[k] by {
                    let j = choose|j: int| 0 <= j < entries@.len() && entries@[j].0@ == k;
                    if k != s {
                        assert(e0[j].0@ == k);
                        let j0 = choose|j0: int| 0 <= j0 < e0.len() && e0[j0].0@ == k;
                        assert(j0 == j);
                    } else {
                        assert(j == e0.len());
                    }
                }
            }
        }
        self.incidents = entries;
        let mut r = record;
        r.incident_id = Some(fresh);
        r
    }
}

/// Once a system has an incident, every later record of it joins that incident.
pub proof fn law_one_incident_per_system(before: Map<Seq<char>, u128>, sys: Seq<char>, fresh: u128)
    requires
        before.contains_key(sys),
    ensures
        (if before.contains_key(sys) { before[sys] } else { fresh }) == before[sys],
        before.insert(sys, before[sys]) == before,
{
    assert(before.insert(sys, before[sys]) =~= before);
}

} // verus!
