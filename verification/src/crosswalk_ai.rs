//! The NIST AI RMF 1.0 crosswalk: which trustworthiness pillars an AI-proxy record violates.

use vstd::prelude::*;
use crate::config::{ActiveFramework, AiRmfConfig};
use crate::metadata::{Metadata, lookup};
use crate::num::parse_unsigned;
use crate::text::{parse_unsigned_spec, str_eq};

verus! {

/// A pillar of AI trustworthiness.
#[derive(Debug, Clone, Copy, PartialEq, Eq, Structural, Hash)]
pub enum AiRmfPillar {
    SecureResilient,
    PrivacyEnhanced,
    FairHarmManaged,
    ValidReliable,
}

pub open spec fn pillar_name(p: AiRmfPillar) -> Seq<char> {
    match p {
        AiRmfPillar::SecureResilient => "Secure & Resilient"@,
        AiRmfPillar::PrivacyEnhanced => "Privacy-Enhanced"@,
        AiRmfPillar::FairHarmManaged => "Fair / Harmful Bias Managed"@,
        AiRmfPillar::ValidReliable => "Valid & Reliable"@,
    }
}

pub open spec fn pillar_description(p: AiRmfPillar) -> Seq<char> {
    match p {
        AiRmfPillar::SecureResilient => "Protection against prompt injections, jailbreaks, and adversarial attacks."@,
        AiRmfPillar::PrivacyEnhanced => "Ensuring PII and sensitive data are not leaked in prompts or completions."@,
        AiRmfPillar::FairHarmManaged => "Auditing for toxicity, hate speech, and harmful biases in AI outputs."@,
        AiRmfPillar::ValidReliable => "Monitoring for performance anomalies and model integrity issues."@,
    }
}

impl AiRmfPillar {
    /// The pillar's display name.
    pub fn as_str(&self) -> (s: &'static str)
        ensures
            s@ == pillar_name(*self),
    {
        match self {
            AiRmfPillar::SecureResilient => "Secure & Resilient",
            AiRmfPillar::PrivacyEnhanced => "Privacy-Enhanced",
            AiRmfPillar::FairHarmManaged => "Fair / Harmful Bias Managed",
            AiRmfPillar::ValidReliable => "Valid & Reliable",
        }
    }

    /// What the pillar protects.
    pub fn description(&self) -> (s: &'static str)
        ensures
            s@ == pillar_description(*self),
    {
        match self {
            AiRmfPillar::SecureResilient => "Protection against prompt injections, jailbreaks, and adversarial attacks.",
            AiRmfPillar::PrivacyEnhanced => "Ensuring PII and sensitive data are not leaked in prompts or completions.",
            AiRmfPillar::FairHarmManaged => "Auditing for toxicity, hate speech, and harmful biases in AI outputs.",
            AiRmfPillar::ValidReliable => "Monitoring for performance anomalies and model integrity issues.",
        }
    }
}

/// The injection flag reads `true` (`str::parse::<bool>` accepts exactly `true` and `false`).
pub open spec fn injection_flagged(md: Map<Seq<char>, Seq<char>>) -> bool {
    lookup(md, "ai_security_prompt_injection_detected"@) == Some("true"@)
}

/// A PII finding other than an empty list, `null` or nothing.
pub open spec fn pii_flagged(md: Map<Seq<char>, Seq<char>>) -> bool {
    match lookup(md, "ai_security_pii_detected"@) {
        Some(v) => v != "[]"@ && v != "null"@ && v.len() > 0,
        None => false,
    }
}

/// A latency that parses as a `u64` and reaches the threshold.
pub open spec fn latency_flagged(md: Map<Seq<char>, Seq<char>>, threshold: u64) -> bool {
    match lookup(md, "latency_ms"@) {
        Some(v) => match parse_unsigned_spec(v, 10, 18446744073709551615) {
            Some(n) => n >= threshold,
            None => false,
        },
        None => false,
    }
}

/// The violated pillars in their fixed order; `toxic` says whether the toxicity score reached
/// its threshold.
pub open spec fn ai_violations(md: Map<Seq<char>, Seq<char>>, latency_threshold: u64, toxic: bool) -> Seq<AiRmfPillar> {
    (if injection_flagged(md) { seq![AiRmfPillar::SecureResilient] } else { Seq::empty() })
    + (if pii_flagged(md) { seq![AiRmfPillar::PrivacyEnhanced] } else { Seq::empty() })
    + (if toxic { seq![AiRmfPillar::FairHarmManaged] } else { Seq::empty() })
    + (if latency_flagged(md, latency_threshold) { seq![AiRmfPillar::ValidReliable] } else { Seq::empty() })
}

/// Evaluation of records against the AI RMF pillars.
pub struct AiRmfCrosswalk;

impl AiRmfCrosswalk {
    /// The pillars a record violates. The toxicity score is a floating-point value:
    /// `toxicity_breach` says whether it parsed and reached the configured threshold.
    pub fn evaluate(metadata: &Metadata, config: &AiRmfConfig, toxicity_breach: bool) -> (v: Vec<AiRmfPillar>)
        ensures
            v@ == ai_violations(metadata@, config.latency_threshold_ms, toxicity_breach),
    {
        let mut v: Vec<AiRmfPillar> = Vec::new();
        let inj = match metadata.get("ai_security_prompt_injection_detected") {
            Some(s) => str_eq(s.as_str(), "true"),
            None => false,
        };
        if inj {
            v.push(AiRmfPillar::SecureResilient);
        }
        proof {
            reveal_strlit("");
        }
        let pii = match metadata.get("ai_security_pii_detected") {
            Some(s) => {
                proof {
                    if s@.len() == 0 {
                        assert(s@ =~= ""@);
                    }
                }
                !str_eq(s.as_str(), "[]") && !str_eq(s.as_str(), "null") && !str_eq(s.as_str(), "")
            }
            None => false,
        };
        if pii {
            v.push(AiRmfPillar::PrivacyEnhanced);
        }
        if toxicity_breach {
            v.push(AiRmfPillar::FairHarmManaged);
        }
        let lat = match metadata.get("latency_ms") {
            Some(s) => match parse_unsigned(s.as_str(), 10, 18446744073709551615u64) {
                Some(n) => n >= config.latency_threshold_ms,
                None => false,
            },
            None => false,
        };
        assert(inj == injection_flagged(metadata@));
        assert(pii == pii_flagged(metadata@));
        assert(lat == latency_flagged(metadata@, config.latency_threshold_ms));
        if lat {
            v.push(AiRmfPillar::ValidReliable);
        }
        assert(v@ =~= ai_violations(metadata@, config.latency_threshold_ms, toxicity_breach));
        v
    }
}

/// Running AI posture: the configuration and the set of pillars that failed so far.
pub struct AiPostureCalculator {
    pub config: AiRmfConfig,
    failed_pillars: Vec<AiRmfPillar>,
}

impl View for AiPostureCalculator {
    type V = Set<AiRmfPillar>;

    closed spec fn view(&self) -> Set<AiRmfPillar> {
        self.failed_pillars@.to_set()
    }
}

impl AiPostureCalculator {
    /// The thresholds the calculator was made with.
    pub closed spec fn settings(&self) -> AiRmfConfig {
        self.config
    }

    #[verifier::type_invariant]
    closed spec fn inv(&self) -> bool {
        self.failed_pillars@.no_duplicates()
    }

    /// A calculator with no failed pillar.
    pub fn new(config: AiRmfConfig) -> (c: AiPostureCalculator)
        ensures
            c@ == Set::<AiRmfPillar>::empty(),
            c.settings() == config,
    {
        let c = AiPostureCalculator { config, failed_pillars: Vec::new() };
        assert(c.failed_pillars@.to_set() =~= Set::<AiRmfPillar>::empty());
        c
    }

    /// Records that `pillar` failed.
    pub fn record_violation(&mut self, pillar: AiRmfPillar)
        ensures
            final(self)@ == old(self)@.insert(pillar),
            final(self).settings() == old(self).settings(),
    {
        proof { use_type_invariant(&*self); }
        let mut found = false;
        let mut i: usize = 0;
        while i < self.failed_pillars.len()
            invariant
                0 <= i <= self.failed_pillars@.len(),
                found <==> exists|j: int| 0 <= j < i && self.failed_pillars@[j] == pillar,
            decreases self.failed_pillars@.len() - i,
        {
            if self.failed_pillars[i] == pillar {
                found = true;
            }
            i += 1;
        }
        let ghost before = self.failed_pillars@;
        if !found {
            let mut pillars: Vec<AiRmfPillar> = Vec::new();
            std::mem::swap(&mut pillars, &mut self.failed_pillars);
            pillars.push(pillar);
            proof {
                assert(!before.contains(pillar));
                assert(pillars@ == before.push(pillar));
                assert forall|x: AiRmfPillar| pillars@.to_set().contains(x) == before.to_set().insert(pillar).contains(x) by {
                    if x == pillar {
                        assert(pillars@[before.len() as int] == pillar);
                    } else if before.contains(x) {
                        let j = choose|j: int| 0 <= j < before.len() && before[j] == x;
                        assert(pillars@[j] == x);
                    } else if pillars@.contains(x) {
                        let j = choose|j: int| 0 <= j < pillars@.len() && pillars@[j] == x;
                        assert(before[j] == x);
                    }
                }
                assert(pillars@.to_set() =~= before.to_set().insert(pillar));
                assert forall|a: int, b: int| 0 <= a < pillars@.len() && 0 <= b < pillars@.len() && a != b
                    implies pillars@[a] != pillars@[b] by {
                    if a < before.len() && b < before.len() {
                    } else if a == before.len() {
                        assert(pillars@[b] == before[b]);
                    } else {
                        assert(pillars@[a] == before[a]);
                    }
                }
            }
            self.failed_pillars = pillars;
        } else {
            proof {
                let j = choose|j: int| 0 <= j < before.len() && before[j] == pillar;
                assert(before.to_set().contains(pillar));
                assert(before.to_set().insert(pillar) =~= before.to_set());
            }
        }
    }

    /// Whether `pillar` has failed.
    pub fn has_failed(&self, pillar: AiRmfPillar) -> (b: bool)
        ensures
            b == self@.contains(pillar),
    {
        let mut i: usize = 0;
        while i < self.failed_pillars.len()
            invariant
                0 <= i <= self.failed_pillars@.len(),
                forall|j: int| 0 <= j < i ==> self.failed_pillars@[j] != pillar,
            decreases self.failed_pillars@.len() - i,
        {
            if self.failed_pillars[i] == pillar {
                assert(self.failed_pillars@.to_set().contains(pillar));
                return true;
            }
            i += 1;
        }
        false
    }
}

/// A calculator when the AI RMF framework is active, none otherwise.
pub fn initialize_ai_crosswalk(framework: &ActiveFramework, config: &AiRmfConfig) -> (r: Option<AiPostureCalculator>)
    ensures
        r matches Some(c) ==> *framework == ActiveFramework::AiRmf100 && c@ == Set::<AiRmfPillar>::empty() && c.settings() == *config,
        r is None ==> *framework != ActiveFramework::AiRmf100,
{
    match framework {
        ActiveFramework::AiRmf100 => Some(AiPostureCalculator::new(*config)),
        _ => None,
    }
}

/// Recording a pillar twice leaves the same failed set as recording it once.
pub proof fn law_record_violation_idempotent(s: Set<AiRmfPillar>, p: AiRmfPillar)
    ensures
        s.insert(p).insert(p) == s.insert(p),
{
    assert(s.insert(p).insert(p) =~= s.insert(p));
}

} // verus!
