//! What the stand-alone hub's web interface shows of the results directory: the kind of each
//! artifact, and the situation report taken from the commander's brief.

use vstd::prelude::*;
use crate::text::{chars_of, find_from, first_occurrence_from, lowercase, seq_contains, seq_trim, str_contains,
    str_eq, string_from_chars, to_lowercase, trim};

verus! {

/// The kind the hub lists an artifact under, from its file name and extension: briefs, NIST
/// manifests, OSCAL documents and plans of action by name (case-insensitively), ledgers and event
/// logs by extension, anything else as a log.
pub open spec fn artifact_kind_spec(name: Seq<char>, ext: Seq<char>) -> Seq<char> {
    let l = lowercase(name);
    if seq_contains(l, "brief"@) {
        "BRIEF"@
    } else if seq_contains(l, "nist"@) {
        "NIST"@
    } else if seq_contains(l, "oscal"@) {
        "OSCAL"@
    } else if seq_contains(l, "poam"@) {
        "TRIAGE"@
    } else if ext == "gz"@ || ext == "jsonl"@ {
        "LEDGER"@
    } else if ext == "evtx"@ {
        "TRIAGE"@
    } else {
        "LOG"@
    }
}

/// The kind of an artifact with file name `name` and extension `ext` (empty where it has none).
pub fn artifact_kind(name: &str, ext: &str) -> (k: &'static str)
    ensures
        k@ == artifact_kind_spec(name@, ext@),
{
    let l = to_lowercase(name);
    proof {
        reveal_strlit("brief");
        reveal_strlit("nist");
        reveal_strlit("oscal");
        reveal_strlit("poam");
        reveal_strlit("gz");
        reveal_strlit("jsonl");
        reveal_strlit("evtx");
        reveal_strlit("BRIEF");
        reveal_strlit("NIST");
        reveal_strlit("OSCAL");
        reveal_strlit("TRIAGE");
        reveal_strlit("LEDGER");
        reveal_strlit("LOG");
    }
    if str_contains(l.as_str(), "brief") {
        "BRIEF"
    } else if str_contains(l.as_str(), "nist") {
        "NIST"
    } else if str_contains(l.as_str(), "oscal") {
        "OSCAL"
    } else if str_contains(l.as_str(), "poam") {
        "TRIAGE"
    } else if str_eq(ext, "gz") || str_eq(ext, "jsonl") {
        "LEDGER"
    } else if str_eq(ext, "evtx") {
        "TRIAGE"
    } else {
        "LOG"
    }
}

/// The situation report of a brief: the part between its first two `---` separators, trimmed,
/// where it has two; the whole brief, trimmed, otherwise.
pub open spec fn sitrep_spec(brief: Seq<char>) -> Seq<char> {
    match first_occurrence_from(brief, "---"@, 0) {
        Some(i) => match first_occurrence_from(brief, "---"@, i + 3) {
            Some(j) => seq_trim(brief.subrange(i + 3, j)),
            None => seq_trim(brief),
        },
        None => seq_trim(brief),
    }
}

/// The situation report the hub shows of a commander's brief.
pub fn sitrep(brief: &str) -> (s: String)
    ensures
        s@ == sitrep_spec(brief@),
{
    let v = chars_of(brief);
    let sep = chars_of("---");
    let n = v.len();
    proof {
        reveal_strlit("---");
    }
    match find_from(v.as_slice(), sep.as_slice(), 0) {
        Some(i) => {
            proof {
                assert(first_occurrence_from(v@, sep@, 0) == Some(i as int));
                assert(i + 3 <= v@.len()) by {
                    lemma_occurrence_fits(v@, sep@, 0);
                }
                assert(i + 3 <= n);
            }
            match find_from(v.as_slice(), sep.as_slice(), i + 3) {
                Some(j) => {
                    proof {
                        lemma_occurrence_fits(v@, sep@, i + 3);
                    }
                    let part = string_from_chars(v.as_slice().split_at(j).0.split_at(i + 3).1);
                    assert(part@ =~= v@.subrange(i + 3, j as int));
                    trim(part.as_str())
                }
                None => trim(brief),
            }
        }
        None => trim(brief),
    }
}

proof fn lemma_occurrence_fits(hay: Seq<char>, needle: Seq<char>, from: int)
    ensures
        first_occurrence_from(hay, needle, from) matches Some(i) ==> from <= i && i + needle.len() <= hay.len(),
    decreases hay.len() - from,
{
    if !(from < 0 || from + needle.len() > hay.len()) && !(first_occurrence_from(hay, needle, from) == Some(from))
        && from < hay.len() {
        lemma_occurrence_fits(hay, needle, from + 1);
    }
}

} // verus!
