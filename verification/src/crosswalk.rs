//! The commercial crosswalk: NIST SP 800-53 controls to SP 800-171 requirements, and the
//! Supplier Performance Risk System (SPRS) score.

use vstd::prelude::*;
use crate::config::ActiveFramework;
use crate::text::str_eq;

verus! {

/// An SP 800-171 requirement with its SPRS weight.
#[derive(Debug, Clone, Copy)]
pub struct Requirement171 {
    pub id: &'static str,
    pub weight: i32,
    pub description: &'static str,
}

/// The distinct requirements the crosswalk knows, by position: (id, weight, description).
pub open spec fn requirement(k: int) -> (Seq<char>, i32, Seq<char>) {
    if k == 0 {
        ("3.3.1"@, 5, "Create and retain system audit logs and records"@)
    } else if k == 1 {
        ("3.3.2"@, 5, "Protect audit information and tools from unauthorized access"@)
    } else if k == 2 {
        ("3.4.1"@, 3, "Establish and maintain baseline configurations"@)
    } else if k == 3 {
        ("3.13.1"@, 3, "Monitor, control, and protect organizational communications"@)
    } else if k == 4 {
        ("3.14.3"@, 1, "Monitor the information system and its surroundings"@)
    } else if k == 5 {
        ("3.1.5"@, 3, "Employ the principle of least privilege"@)
    } else if k == 6 {
        ("3.5.3"@, 3, "Use multi-factor authentication for network access"@)
    } else if k == 7 {
        ("3.3.3"@, 3, "Review and update system audit logs and records"@)
    } else {
        ("3.1.1"@, 5, "Limit information system access to authorized users"@)
    }
}

/// The requirement an 800-53 control maps to, by position; AU-10 and AU-6 share one.
pub open spec fn requirement_index(control_id: Seq<char>) -> Option<int> {
    if control_id == "AU-2"@ {
        Some(0)
    } else if control_id == "AU-9"@ {
        Some(1)
    } else if control_id == "CM-5"@ {
        Some(2)
    } else if control_id == "SC-7"@ {
        Some(3)
    } else if control_id == "SI-4"@ {
        Some(4)
    } else if control_id == "AC-6"@ {
        Some(5)
    } else if control_id == "IA-2"@ {
        Some(6)
    } else if control_id == "AU-10"@ || control_id == "AU-6"@ {
        Some(7)
    } else if control_id == "AC-4"@ {
        Some(8)
    } else {
        None
    }
}

pub open spec fn requirement_view(r: Requirement171) -> (Seq<char>, i32, Seq<char>) {
    (r.id@, r.weight, r.description@)
}

fn make(k: usize) -> (r: Requirement171)
    requires
        k < 9,
    ensures
        requirement_view(r) == requirement(k as int),
{
    if k == 0 {
        Requirement171 { id: "3.3.1", weight: 5, description: "Create and retain system audit logs and records" }
    } else if k == 1 {
        Requirement171 { id: "3.3.2", weight: 5, description: "Protect audit information and tools from unauthorized access" }
    } else if k == 2 {
        Requirement171 { id: "3.4.1", weight: 3, description: "Establish and maintain baseline configurations" }
    } else if k == 3 {
        Requirement171 { id: "3.13.1", weight: 3, description: "Monitor, control, and protect organizational communications" }
    } else if k == 4 {
        Requirement171 { id: "3.14.3", weight: 1, description: "Monitor the information system and its surroundings" }
    } else if k == 5 {
        Requirement171 { id: "3.1.5", weight: 3, description: "Employ the principle of least privilege" }
    } else if k == 6 {
        Requirement171 { id: "3.5.3", weight: 3, description: "Use multi-factor authentication for network access" }
    } else if k == 7 {
        Requirement171 { id: "3.3.3", weight: 3, description: "Review and update system audit logs and records" }
    } else {
        Requirement171 { id: "3.1.1", weight: 5, description: "Limit information system access to authorized users" }
    }
}

fn index_of(control_id: &str) -> (r: Option<usize>)
    ensures
        r matches Some(k) ==> requirement_index(control_id@) == Some(k as int),
        r is None ==> requirement_index(control_id@) is None,
{
    if str_eq(control_id, "AU-2") {
        Some(0)
    } else if str_eq(control_id, "AU-9") {
        Some(1)
    } else if str_eq(control_id, "CM-5") {
        Some(2)
    } else if str_eq(control_id, "SC-7") {
        Some(3)
    } else if str_eq(control_id, "SI-4") {
        Some(4)
    } else if str_eq(control_id, "AC-6") {
        Some(5)
    } else if str_eq(control_id, "IA-2") {
        Some(6)
    } else if str_eq(control_id, "AU-10") || str_eq(control_id, "AU-6") {
        Some(7)
    } else if str_eq(control_id, "AC-4") {
        Some(8)
    } else {
        None
    }
}

/// The crosswalk from 800-53 controls to 800-171 requirements.
pub struct NistCrosswalk;

impl NistCrosswalk {
    /// The 800-171 requirement a control maps to; none for controls without a commercial counterpart.
    pub fn translate(control_id: &str) -> (r: Option<Requirement171>)
        ensures
            r matches Some(q) ==> requirement_index(control_id@) matches Some(k) && requirement_view(q) == requirement(k),
            r is None ==> requirement_index(control_id@) is None,
    {
        match index_of(control_id) {
            Some(k) => Some(make(k)),
            None => None,
        }
    }
}

/// Sum of the weights of the flagged requirements among the first `n`.
pub open spec fn deductions(flags: Seq<bool>, n: int) -> int
    decreases n,
{
    if n <= 0 {
        0
    } else {
        deductions(flags, n - 1) + if flags[n - 1] { requirement(n - 1).1 as int } else { 0 }
    }
}

proof fn lemma_deductions_bounds(flags: Seq<bool>, n: int)
    requires
        0 <= n <= 9,
    ensures
        0 <= deductions(flags, n) <= 5 * n,
    decreases n,
{
    if n > 0 {
        lemma_deductions_bounds(flags, n - 1);
    }
}

proof fn lemma_deductions_frame(a: Seq<bool>, b: Seq<bool>, n: int)
    requires
        0 <= n,
        n <= a.len(),
        n <= b.len(),
        forall|k: int| 0 <= k < n ==> a[k] == b[k],
    ensures
        deductions(a, n) == deductions(b, n),
    decreases n,
{
    if n > 0 {
        lemma_deductions_frame(a, b, n - 1);
    }
}

/// The SPRS score engine: 110 minus the weights of the distinct failed requirements.
pub struct SprsCalculator {
    base_score: i32,
    failed: Vec<bool>,
}

impl View for SprsCalculator {
    /// The positions of the failed requirements.
    type V = Set<int>;

    closed spec fn view(&self) -> Set<int> {
        Set::new(|k: int| 0 <= k < 9 && self.failed@[k])
    }
}

impl SprsCalculator {
    #[verifier::type_invariant]
    closed spec fn inv(&self) -> bool {
        self.failed@.len() == 9 && self.base_score == 110
    }

    /// The deduction of the failed requirements.
    pub closed spec fn deduction(&self) -> int {
        deductions(self.failed@, 9)
    }

    /// A calculator with no failure.
    pub fn new() -> (c: SprsCalculator)
        ensures
            c@ == Set::<int>::empty(),
            c.deduction() == 0,
    {
        let mut failed: Vec<bool> = Vec::new();
        let mut i: usize = 0;
        while i < 9
            invariant
                0 <= i <= 9,
                failed@.len() == i,
                forall|k: int| 0 <= k < i ==> !failed@[k],
            decreases 9 - i,
        {
            failed.push(false);
            i += 1;
        }
        let c = SprsCalculator { base_score: 110, failed };
        assert(c@ =~= Set::<int>::empty());
        assert(c.deduction() == 0) by {
            lemma_deductions_zero(c.failed@, 9);
        }
        c
    }

    /// Records a failed control; a control without a requirement changes nothing, and a
    /// requirement already failed stays failed once.
    pub fn record_failure(&mut self, control_id: &str)
        ensures
            final(self)@ == match requirement_index(control_id@) {
                Some(k) => old(self)@.insert(k),
                None => old(self)@,
            },
            final(self).deduction() == deductions_of(final(self)@),
    {
        proof { use_type_invariant(&*self); }
        match index_of(control_id) {
            Some(k) => {
                let mut failed: Vec<bool> = Vec::new();
                let mut j: usize = 0;
                while j < 9
                    invariant
                        0 <= j <= 9,
                        self.failed@.len() == 9,
                        k < 9,
                        failed@.len() == j,
                        forall|i: int| 0 <= i < j ==> failed@[i] == (i == k || self.failed@[i]),
                    decreases 9 - j,
                {
                    failed.push(j == k || self.failed[j]);
                    j += 1;
                }
                *self = SprsCalculator { base_score: 110, failed };
                assert(self@ =~= old(self)@.insert(k as int));
            }
            None => {}
        }
        proof { self.lemma_deduction_of_view(); }
    }

    proof fn lemma_deduction_of_view(&self)
        requires
            self.failed@.len() == 9,
        ensures
            self.deduction() == deductions_of(self@),
    {
        let flags = Seq::new(9, |k: int| self@.contains(k));
        lemma_deductions_frame(self.failed@, flags, 9);
    }

    /// The SPRS score: 110 minus the weights of the failed requirements, each counted once.
    pub fn calculate_score(&self) -> (score: i32)
        ensures
            score == 110 - deductions_of(self@),
            score >= 110 - 31,
    {
        proof {
            use_type_invariant(self);
            self.lemma_deduction_of_view();
            lemma_deductions_max(self.failed@, 9);
        }
        let mut total: i32 = 0;
        let mut k: usize = 0;
        while k < 9
            invariant
                0 <= k <= 9,
                self.failed@.len() == 9,
                total == deductions(self.failed@, k as int),
                0 <= total <= 5 * k,
            decreases 9 - k,
        {
            if self.failed[k] {
                let w = make(k).weight;
                total = total + w;
            }
            k += 1;
            proof { lemma_deductions_bounds(self.failed@, k as int); }
        }
        self.base_score - total
    }

    /// The failed requirements, in crosswalk order.
    pub fn get_failed_requirements(&self) -> (v: Vec<Requirement171>)
        ensures
            v@.map_values(|r: Requirement171| requirement_view(r))
                == failed_in_order(self@, 9),
    {
        proof { use_type_invariant(self); }
        let mut v: Vec<Requirement171> = Vec::new();
        let mut k: usize = 0;
        while k < 9
            invariant
                0 <= k <= 9,
                self.failed@.len() == 9,
                v@.map_values(|r: Requirement171| requirement_view(r)) == failed_in_order(self@, k as int),
            decreases 9 - k,
        {
            let ghost before = v@;
            if self.failed[k] {
                v.push(make(k));
                assert(v@.map_values(|r: Requirement171| requirement_view(r))
                    =~= before.map_values(|r: Requirement171| requirement_view(r)).push(requirement(k as int)));
            }
            k += 1;
        }
        v
    }
}

/// The weights of the requirements at the positions in `s`.
pub open spec fn deductions_of(s: Set<int>) -> int {
    deductions(Seq::new(9, |k: int| s.contains(k)), 9)
}

/// The requirements at the positions in `s` among the first `n`, in order.
pub open spec fn failed_in_order(s: Set<int>, n: int) -> Seq<(Seq<char>, i32, Seq<char>)>
    decreases n,
{
    if n <= 0 {
        Seq::empty()
    } else if s.contains(n - 1) {
        failed_in_order(s, n - 1).push(requirement(n - 1))
    } else {
        failed_in_order(s, n - 1)
    }
}

proof fn lemma_deductions_zero(flags: Seq<bool>, n: int)
    requires
        0 <= n <= flags.len(),
        forall|k: int| 0 <= k < n ==> !flags[k],
    ensures
        deductions(flags, n) == 0,
    decreases n,
{
    if n > 0 {
        lemma_deductions_zero(flags, n - 1);
    }
}

proof fn lemma_deductions_max(flags: Seq<bool>, n: int)
    requires
        0 <= n <= 9,
    ensures
        deductions(flags, n) <= deductions(Seq::new(9, |k: int| true), n),
        deductions(Seq::new(9, |k: int| true), 9) == 31,
    decreases n,
{
    if n > 0 {
        lemma_deductions_max(flags, n - 1);
    } else {
        let all = Seq::new(9, |k: int| true);
        reveal_with_fuel(deductions, 10);
        assert(deductions(all, 9) == 31);
    }
}

/// A calculator when the commercial (800-171) framework is active, none otherwise.
pub fn initialize_crosswalk(framework: &ActiveFramework) -> (r: Option<SprsCalculator>)
    ensures
        r matches Some(c) ==> *framework == ActiveFramework::Commercial171 && c@ == Set::<int>::empty(),
        r is None ==> *framework != ActiveFramework::Commercial171,
{
    match framework {
        ActiveFramework::Commercial171 => Some(SprsCalculator::new()),
        _ => None,
    }
}

/// Recording the same failure twice leaves the failed set of recording it once.
pub proof fn law_record_failure_idempotent(s: Set<int>, control_id: Seq<char>)
    ensures
        ({
            let once = match requirement_index(control_id) { Some(k) => s.insert(k), None => s };
            let twice = match requirement_index(control_id) { Some(k) => once.insert(k), None => once };
            twice == once
        }),
{
    match requirement_index(control_id) {
        Some(k) => {
            assert(s.insert(k).insert(k) =~= s.insert(k));
        }
        None => {}
    }
}

/// Failing more requirements never raises the score.
pub proof fn law_score_monotone(s: Set<int>, k: int)
    ensures
        110 - deductions_of(s.insert(k)) <= 110 - deductions_of(s),
{
    lemma_deductions_insert_ge(s, k, 9);
}

proof fn lemma_deductions_insert_ge(s: Set<int>, k: int, n: int)
    requires
        0 <= n <= 9,
    ensures
        deductions(Seq::new(9, |j: int| s.insert(k).contains(j)), n) >= deductions(Seq::new(9, |j: int| s.contains(j)), n),
    decreases n,
{
    if n > 0 {
        lemma_deductions_insert_ge(s, k, n - 1);
    }
}

/// The 800-171 requirement id and SPRS weight each 800-53 control translates to, as values:
/// AU-2 to 3.3.1 (5), AU-9 to 3.3.2 (5), CM-5 to 3.4.1 (3), SC-7 to 3.13.1 (3), SI-4 to 3.14.3 (1),
/// AC-6 to 3.1.5 (3), IA-2 to 3.5.3 (3), AU-10 and AU-6 to 3.3.3 (3), AC-4 to 3.1.1 (5).
pub proof fn law_crosswalk_table()
    ensures
        requirement_index("AU-2"@) matches Some(k) && requirement(k).0 == "3.3.1"@ && requirement(k).1 == 5,
        requirement_index("AU-9"@) matches Some(k) && requirement(k).0 == "3.3.2"@ && requirement(k).1 == 5,
        requirement_index("CM-5"@) matches Some(k) && requirement(k).0 == "3.4.1"@ && requirement(k).1 == 3,
        requirement_index("SC-7"@) matches Some(k) && requirement(k).0 == "3.13.1"@ && requirement(k).1 == 3,
        requirement_index("SI-4"@) matches Some(k) && requirement(k).0 == "3.14.3"@ && requirement(k).1 == 1,
        requirement_index("AC-6"@) matches Some(k) && requirement(k).0 == "3.1.5"@ && requirement(k).1 == 3,
        requirement_index("IA-2"@) matches Some(k) && requirement(k).0 == "3.5.3"@ && requirement(k).1 == 3,
        requirement_index("AU-10"@) matches Some(k) && requirement(k).0 == "3.3.3"@ && requirement(k).1 == 3,
        requirement_index("AU-6"@) matches Some(k) && requirement(k).0 == "3.3.3"@ && requirement(k).1 == 3,
        requirement_index("AC-4"@) matches Some(k) && requirement(k).0 == "3.1.1"@ && requirement(k).1 == 5,
{
    reveal_strlit("AU-2");
    reveal_strlit("AU-9");
    reveal_strlit("CM-5");
    reveal_strlit("SC-7");
    reveal_strlit("SI-4");
    reveal_strlit("AC-6");
    reveal_strlit("IA-2");
    reveal_strlit("AU-10");
    reveal_strlit("AU-6");
    reveal_strlit("AC-4");
    assert("AU-9"@[3] != "AU-2"@[3]);
    assert("CM-5"@[0] != "AU-2"@[0]);
    assert("CM-5"@[0] != "AU-9"@[0]);
    assert("SC-7"@[0] != "AU-2"@[0]);
    assert("SC-7"@[0] != "AU-9"@[0]);
    assert("SC-7"@[0] != "CM-5"@[0]);
    assert("SI-4"@[0] != "AU-2"@[0]);
    assert("SI-4"@[0] != "AU-9"@[0]);
    assert("SI-4"@[0] != "CM-5"@[0]);
    assert("SI-4"@[1] != "SC-7"@[1]);
    assert("AC-6"@[1] != "AU-2"@[1]);
    assert("AC-6"@[1] != "AU-9"@[1]);
    assert("AC-6"@[0] != "CM-5"@[0]);
    assert("AC-6"@[0] != "SC-7"@[0]);
    assert("AC-6"@[0] != "SI-4"@[0]);
    assert("IA-2"@[0] != "AU-2"@[0]);
    assert("IA-2"@[0] != "AU-9"@[0]);
    assert("IA-2"@[0] != "CM-5"@[0]);
    assert("IA-2"@[0] != "SC-7"@[0]);
    assert("IA-2"@[0] != "SI-4"@[0]);
    assert("IA-2"@[0] != "AC-6"@[0]);
    assert("AU-10"@.len() != "AU-2"@.len());
    assert("AU-10"@.len() != "AU-9"@.len());
    assert("AU-10"@.len() != "CM-5"@.len());
    assert("AU-10"@.len() != "SC-7"@.len());
    assert("AU-10"@.len() != "SI-4"@.len());
    assert("AU-10"@.len() != "AC-6"@.len());
    assert("AU-10"@.len() != "IA-2"@.len());
    assert("AU-6"@[3] != "AU-2"@[3]);
    assert("AU-6"@[3] != "AU-9"@[3]);
    assert("AU-6"@[0] != "CM-5"@[0]);
    assert("AU-6"@[0] != "SC-7"@[0]);
    assert("AU-6"@[0] != "SI-4"@[0]);
    assert("AU-6"@[1] != "AC-6"@[1]);
    assert("AU-6"@[0] != "IA-2"@[0]);
    assert("AU-6"@.len() != "AU-10"@.len());
    assert("AC-4"@[1] != "AU-2"@[1]);
    assert("AC-4"@[1] != "AU-9"@[1]);
    assert("AC-4"@[0] != "CM-5"@[0]);
    assert("AC-4"@[0] != "SC-7"@[0]);
    assert("AC-4"@[0] != "SI-4"@[0]);
    assert("AC-4"@[3] != "AC-6"@[3]);
    assert("AC-4"@[0] != "IA-2"@[0]);
    assert("AC-4"@.len() != "AU-10"@.len());
    assert("AC-4"@[1] != "AU-6"@[1]);
}

/// A calculator that recorded exactly one failure, of a control that translates to a
/// requirement of weight `w`, scores 110 minus `w`; so recording only AU-2 scores 105 and only
/// SI-4 scores 109.
pub proof fn law_single_failure_score(control_id: Seq<char>)
    requires
        requirement_index(control_id) is Some,
    ensures
        110 - deductions_of(Set::<int>::empty().insert(requirement_index(control_id)->0))
            == 110 - requirement(requirement_index(control_id)->0).1,
        control_id == "AU-2"@ ==> 110 - deductions_of(Set::<int>::empty().insert(requirement_index(control_id)->0)) == 105,
        control_id == "SI-4"@ ==> 110 - deductions_of(Set::<int>::empty().insert(requirement_index(control_id)->0)) == 109,
{
    let k = requirement_index(control_id)->0;
    let f = Seq::new(9, |j: int| Set::<int>::empty().insert(k).contains(j));
    assert(0 <= k < 9);
    reveal_with_fuel(deductions, 10);
    law_crosswalk_table();
}

} // verus!
