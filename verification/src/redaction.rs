//! Redaction of sensitive data (NIST AU-13): social security numbers, payment card numbers,
//! secrets and private keys are masked, while indicators of compromise such as IP and MAC
//! addresses are kept.

use vstd::prelude::*;
use crate::config::RedactionConfig;
use crate::metadata::{Metadata, key_views, strictly_ascending};
use crate::models::{LogRecord, RedactionEvent};
use crate::pattern::{is_valid_regex, regex_group_split, regex_group_surroundings, regex_match_segments, regex_segments, regex_valid, segment_views};
use crate::text::{append, chars_of, owned, replace_spec, replace_str, seq_contains, seq_ends_with, str_contains, str_ends_with, str_eq};
use vstd::utf8::{encode_utf8, is_char_boundary};

verus! {

/// A US social security number.
pub const SSN_PATTERN: &'static str = "\\b\\d{3}-\\d{2}-\\d{4}\\b";
/// Thirteen to sixteen digits, possibly separated by spaces or hyphens: a payment card number.
pub const CREDIT_CARD_PATTERN: &'static str = "\\b(?:\\d[ -]*?){13,16}\\b";
/// A labelled secret: an API key, secret, token, password or access key, the value in group 1.
pub const API_KEY_PATTERN: &'static str = "(?i)(?:api[\\s_-]?key|secret|token|password|auth[\\s_-]?key|access[\\s_-]?key)[\"\\s:=]+([a-zA-Z0-9_\\-\\.]{16,64})";
/// A PEM private key block.
pub const PRIVATE_KEY_PATTERN: &'static str = "(?s)-----BEGIN [A-Z ]*PRIVATE KEY-----.*?-----END [A-Z ]*PRIVATE KEY-----";

/// The matches of a `captures_iter` walk, each with the text before it and its groups.
pub type Segments = Seq<(Seq<char>, Seq<Option<Seq<char>>>)>;

/// The text of the first `n` segments, each match replaced by what `f` makes of its groups.
pub open spec fn replaced_upto(segs: Segments, f: spec_fn(Seq<Option<Seq<char>>>) -> Seq<char>, n: int) -> Seq<char>
    decreases n,
{
    if n <= 0 {
        Seq::empty()
    } else {
        replaced_upto(segs, f, n - 1) + segs[n - 1].0 + f(segs[n - 1].1)
    }
}

/// The whole match of a segment.
pub open spec fn whole_match(groups: Seq<Option<Seq<char>>>) -> Seq<char> {
    match groups[0] {
        Some(m) => m,
        None => Seq::empty(),
    }
}

/// Each match stands for itself.
pub open spec fn as_matched() -> spec_fn(Seq<Option<Seq<char>>>) -> Seq<char> {
    |g: Seq<Option<Seq<char>>>| whole_match(g)
}

/// Each match is replaced by `mask`.
pub open spec fn mask_with(mask: Seq<char>) -> spec_fn(Seq<Option<Seq<char>>>) -> Seq<char> {
    |g: Seq<Option<Seq<char>>>| mask
}

/// `Regex::replace_all`: `text` with every match of `pattern` replaced by what `f` makes of its
/// groups.
pub open spec fn substituted(pattern: Seq<char>, text: Seq<char>, f: spec_fn(Seq<Option<Seq<char>>>) -> Seq<char>) -> Seq<char> {
    let (segs, rest) = regex_match_segments(pattern, text);
    replaced_upto(segs, f, segs.len() as int) + rest
}

/// The number of matches of `pattern` in `text` (`Regex::find_iter(..).count()`).
pub open spec fn match_count(pattern: Seq<char>, text: Seq<char>) -> nat {
    regex_match_segments(pattern, text).0.len()
}

/// Every match of `pattern` replaced by `mask`, where there is a match at all.
pub open spec fn masked(pattern: Seq<char>, text: Seq<char>, mask: Seq<char>) -> Seq<char> {
    if match_count(pattern, text) > 0 { substituted(pattern, text, mask_with(mask)) } else { text }
}

/// The text before match `i` of a walk.
pub open spec fn text_before(segs: Segments, i: int) -> Seq<char> {
    replaced_upto(segs, as_matched(), i) + segs[i].0
}

/// A character of the numeric part of a security identifier: a digit or `-`.
pub open spec fn sid_char(c: char) -> bool {
    ('0' <= c && c <= '9') || c == '-'
}

/// Where the run of digits and hyphens that ends at position `i` of `b` starts.
pub open spec fn run_start(b: Seq<char>, i: int) -> int
    decreases i,
{
    if i <= 0 {
        0
    } else if sid_char(b[i - 1]) {
        run_start(b, i - 1)
    } else {
        i
    }
}

/// A match made of digits and hyphens that lies inside a Windows security identifier token
/// `S-<digits>(-<digits>)+`: the run of digits and hyphens it ends, taken from the text before
/// it, follows an `S`, starts with `-` and a digit, and holds another `-`.
pub open spec fn inside_sid_token(before: Seq<char>, m: Seq<char>) -> bool {
    let q = run_start(before, before.len() as int);
    let run = before.subrange(q, before.len() as int) + m;
    &&& forall|k: int| 0 <= k < m.len() ==> #[trigger] sid_char(m[k])
    &&& q >= 1 && before[q - 1] == 'S'
    &&& run.len() >= 2 && run[0] == '-' && '0' <= run[1] && run[1] <= '9'
    &&& run.drop_first().contains('-')
}

/// A card-number match that is part of a Windows security identifier: the text before it ends
/// with `S-1-`, the match itself holds it, or it lies inside an identifier token.
pub open spec fn part_of_sid(before: Seq<char>, m: Seq<char>) -> bool {
    seq_ends_with(before, "S-1-"@) || seq_contains(m, "S-1-"@) || inside_sid_token(before, m)
}

fn is_sid_char(c: char) -> (b: bool)
    ensures
        b == sid_char(c),
{
    ('0' <= c && c <= '9') || c == '-'
}

fn in_sid_token(before: &str, m: &str) -> (b: bool)
    ensures
        b == inside_sid_token(before@, m@),
{
    let v = chars_of(before);
    let w = chars_of(m);
    let mut k: usize = 0;
    while k < w.len()
        invariant
            0 <= k <= w@.len(),
            w@ == m@,
            forall|j: int| 0 <= j < k ==> #[trigger] sid_char(w@[j]),
        decreases w@.len() - k,
    {
        if !is_sid_char(w[k]) {
            assert(!sid_char(m@[k as int]));
            return false;
        }
        k += 1;
    }
    let mut q: usize = v.len();
    while q > 0 && is_sid_char(v[q - 1])
        invariant
            0 <= q <= v@.len(),
            v@ == before@,
            run_start(v@, v@.len() as int) == run_start(v@, q as int),
            forall|x: int| 0 <= x < m@.len() ==> #[trigger] sid_char(m@[x]),
        decreases q,
    {
        q -= 1;
    }
    assert(run_start(v@, q as int) == q as int);
    if q == 0 || v[q - 1] != 'S' {
        return false;
    }
    let mut run: Vec<char> = Vec::new();
    let mut j: usize = q;
    while j < v.len()
        invariant
            q <= j <= v@.len(),
            v@ == before@,
            run@ == v@.subrange(q as int, j as int),
            q >= 1 && v@[q - 1] == 'S',
            run_start(v@, v@.len() as int) == q,
            forall|x: int| 0 <= x < m@.len() ==> #[trigger] sid_char(m@[x]),
        decreases v@.len() - j,
    {
        run.push(v[j]);
        j += 1;
        assert(run@ =~= v@.subrange(q as int, j as int));
    }
    let mut k: usize = 0;
    while k < w.len()
        invariant
            0 <= k <= w@.len(),
            w@ == m@,
            run@ == v@.subrange(q as int, v@.len() as int) + w@.take(k as int),
            q >= 1 && v@[q - 1] == 'S',
            v@ == before@,
            run_start(v@, v@.len() as int) == q,
            forall|x: int| 0 <= x < m@.len() ==> #[trigger] sid_char(m@[x]),
        decreases w@.len() - k,
    {
        run.push(w[k]);
        k += 1;
        assert(run@ =~= v@.subrange(q as int, v@.len() as int) + w@.take(k as int));
    }
    assert(w@.take(w@.len() as int) =~= w@);
    if run.len() < 2 || run[0] != '-' || !('0' <= run[1] && run[1] <= '9') {
        return false;
    }
    let mut t: usize = 1;
    while t < run.len()
        invariant
            1 <= t <= run@.len(),
            forall|x: int| 1 <= x < t ==> run@[x] != '-',
            run@ == v@.subrange(q as int, v@.len() as int) + m@,
            q >= 1 && v@[q - 1] == 'S',
            v@ == before@,
            run_start(v@, v@.len() as int) == q,
            run@.len() >= 2 && run@[0] == '-' && '0' <= run@[1] && run@[1] <= '9',
            forall|x: int| 0 <= x < m@.len() ==> #[trigger] sid_char(m@[x]),
        decreases run@.len() - t,
    {
        if run[t] == '-' {
            assert(run@.drop_first()[t - 1] == '-');
            return true;
        }
        t += 1;
    }
    assert(!run@.drop_first().contains('-')) by {
        assert forall|x: int| 0 <= x < run@.drop_first().len() implies run@.drop_first()[x] != '-' by {
            assert(run@.drop_first()[x] == run@[x + 1]);
        }
    }
    false
}

/// The card-number pass over the first `n` matches of a walk of `text0`: each match that is not
/// part of a security identifier has every occurrence of its text masked, and is counted.
pub open spec fn card_pass(segs: Segments, text0: Seq<char>, n: int) -> (Seq<char>, nat)
    decreases n,
{
    if n <= 0 {
        (text0, 0)
    } else {
        let (t, c) = card_pass(segs, text0, n - 1);
        let m = whole_match(segs[n - 1].1);
        if part_of_sid(text_before(segs, n - 1), m) {
            (t, c)
        } else {
            (replace_spec(t, m, "[REDACTED_NIST_AU13_CC]"@), c + 1)
        }
    }
}

/// The four bytes before a match can be sliced off the text: the text before it is shorter than
/// four bytes, or a character starts four bytes before the match.
pub open spec fn tail_sliceable(before: Seq<char>) -> bool {
    let b = encode_utf8(before);
    b.len() < 4 || is_char_boundary(b, b.len() - 4)
}

/// The card-number pass can look at the four bytes before every match of `text`.
pub open spec fn card_pass_defined(text: Seq<char>) -> bool {
    let segs = regex_match_segments(CREDIT_CARD_PATTERN@, text).0;
    forall|i: int| 0 <= i < segs.len() ==> #[trigger] tail_sliceable(text_before(segs, i))
}

/// The secrets pass after `n` rounds, each replacing the value of the first labelled secret;
/// `None` if a round before finds no secret.
pub open spec fn secret_rounds(text: Seq<char>, n: nat) -> Option<Seq<char>>
    decreases n,
{
    if n == 0 {
        Some(text)
    } else {
        match secret_rounds(text, (n - 1) as nat) {
            Some(t) => match regex_group_surroundings(API_KEY_PATTERN@, t, 1) {
                Some((pre, post)) => Some(pre + "[REDACTED_NIST_AU13_SECRET]"@ + post),
                None => None,
            },
            None => None,
        }
    }
}

/// The texts and counts of the stages of [`RedactionEngine::redact`] on `input`: after masking
/// social security numbers, after the card-number pass, and the card count.
pub open spec fn early_stages(input: Seq<char>) -> (Seq<char>, Seq<char>, nat) {
    let after_ssn = masked(SSN_PATTERN@, input, "[REDACTED_NIST_AU13_SSN]"@);
    let segs = regex_match_segments(CREDIT_CARD_PATTERN@, after_ssn).0;
    let (after_cc, cards) = card_pass(segs, after_ssn, segs.len() as int);
    (after_ssn, after_cc, cards)
}

/// The inputs [`RedactionEngine::redact`] handles: the card-number pass never slices through a
/// character.
pub open spec fn redactable(input: Seq<char>) -> bool {
    card_pass_defined(early_stages(input).0)
}

/// What [`RedactionEngine::redact`] returns: the redacted text and, in order, one event for each
/// kind of data it masked, with how often.
pub open spec fn redaction_result(input: Seq<char>, out: Seq<char>, events: Seq<(Seq<char>, nat)>) -> bool {
    let (after_ssn, after_cc, cards) = early_stages(input);
    let ssn = match_count(SSN_PATTERN@, input);
    exists|secrets: nat| {
        &&& #[trigger] secret_rounds(after_cc, secrets) is Some
        &&& (secrets < usize::MAX ==> regex_group_surroundings(API_KEY_PATTERN@, secret_rounds(after_cc, secrets)->0, 1) is None)
        &&& {
            let after_secrets = secret_rounds(after_cc, secrets)->0;
            let keys = match_count(PRIVATE_KEY_PATTERN@, after_secrets);
            &&& out == masked(PRIVATE_KEY_PATTERN@, after_secrets, "[REDACTED_NIST_AU13_PRIVATE_KEY]"@)
            &&& events == (if ssn > 0 { seq![("Social Security Number (PII)"@, ssn)] } else { Seq::empty() })
                + (if cards > 0 { seq![("Credit Card Data (Financial)"@, cards)] } else { Seq::empty() })
                + (if secrets > 0 { seq![("API Key / Secret (NIST AC-3)"@, secrets)] } else { Seq::empty() })
                + (if keys > 0 { seq![("Private Key Material (Cryptographic)"@, keys)] } else { Seq::empty() })
        }
    }
}

/// The views of redaction events.
pub open spec fn event_views(v: Seq<RedactionEvent>) -> Seq<(Seq<char>, nat)> {
    v.map_values(|e: RedactionEvent| (e.reason@, e.count as nat))
}

/// Every match of `pattern` in `text` replaced by `mask`, and the number of matches.
fn mask_matches(pattern: &str, text: &str, mask: &str) -> (r: (String, usize))
    ensures
        r.1 == match_count(pattern@, text@),
        r.0@ == substituted(pattern@, text@, mask_with(mask@)),
{
    let (segs, rest) = regex_segments(pattern, text);
    let ghost sv = segment_views(segs@);
    let ghost f = mask_with(mask@);
    let mut out = String::new();
    proof {
        reveal_strlit("");
        assert(out@ =~= Seq::<char>::empty());
    }
    let mut i: usize = 0;
    while i < segs.len()
        invariant
            0 <= i <= segs@.len(),
            sv == segment_views(segs@),
            f == mask_with(mask@),
            out@ == replaced_upto(sv, f, i as int),
        decreases segs@.len() - i,
    {
        assert(sv[i as int].0 == segs@[i as int].0@);
        append(&mut out, segs[i].0.as_str());
        append(&mut out, mask);
        i += 1;
    }
    append(&mut out, rest.as_str());
    (out, segs.len())
}

/// The masking stage for one pattern.
fn mask_stage(pattern: &str, text: String, mask: &str) -> (r: (String, usize))
    ensures
        r.1 == match_count(pattern@, text@),
        r.0@ == masked(pattern@, text@, mask@),
{
    let (out, n) = mask_matches(pattern, text.as_str(), mask);
    if n > 0 { (out, n) } else { (text, n) }
}

/// The card-number pass; `None` where it would slice through a character.
fn card_stage(text: &str) -> (r: Option<(String, usize)>)
    ensures
        r is Some <==> card_pass_defined(text@),
        r matches Some(p) ==> {
            let segs = regex_match_segments(CREDIT_CARD_PATTERN@, text@).0;
            (p.0@, p.1 as nat) == card_pass(segs, text@, segs.len() as int)
        },
{
    let (segs, _rest) = regex_segments(CREDIT_CARD_PATTERN, text);
    let ghost sv = segment_views(segs@);
    let mut out = owned(text);
    let mut count: usize = 0;
    let mut seen = String::new();
    proof {
        reveal_strlit("");
        assert(seen@ =~= Seq::<char>::empty());
    }
    let mut i: usize = 0;
    while i < segs.len()
        invariant
            0 <= i <= segs@.len(),
            sv == segment_views(segs@),
            sv == regex_match_segments(CREDIT_CARD_PATTERN@, text@).0,
            forall|k: int| 0 <= k < segs@.len() ==> (#[trigger] segs@[k]).1@.len() >= 1 && segs@[k].1@[0] is Some,
            seen@ == replaced_upto(sv, as_matched(), i as int),
            (out@, count as nat) == card_pass(sv, text@, i as int),
            count <= i,
            forall|k: int| 0 <= k < i ==> #[trigger] tail_sliceable(text_before(sv, k)),
        decreases segs@.len() - i,
    {
        let (pre, groups) = &segs[i];
        let m = match &groups[0] {
            Some(m) => m.clone(),
            None => String::new(),
        };
        assert(sv[i as int].0 == pre@);
        assert(sv[i as int].1[0] == Some(m@));
        append(&mut seen, pre.as_str());
        let ghost before = seen@;
        assert(before == text_before(sv, i as int));
        let blen = seen.as_str().as_bytes().len();
        if blen >= 4 && !seen.as_str().is_char_boundary(blen - 4) {
            proof {
                assert(!tail_sliceable(text_before(sv, i as int)));
            }
            return None;
        }
        let sid = str_ends_with(seen.as_str(), "S-1-") || str_contains(m.as_str(), "S-1-")
            || in_sid_token(seen.as_str(), m.as_str());
        assert(m@ == whole_match(sv[i as int].1));
        if !sid {
            out = replace_str(out.as_str(), m.as_str(), "[REDACTED_NIST_AU13_CC]");
            count += 1;
        }
        append(&mut seen, m.as_str());
        i += 1;
    }
    Some((out, count))
}

/// Whether the card-number pass can look at the four bytes before every candidate number.
fn card_pass_checkable(text: &str) -> (b: bool)
    ensures
        b == card_pass_defined(text@),
{
    let (segs, _rest) = regex_segments(CREDIT_CARD_PATTERN, text);
    let ghost sv = segment_views(segs@);
    let mut seen = String::new();
    proof {
        reveal_strlit("");
        assert(seen@ =~= Seq::<char>::empty());
    }
    let mut i: usize = 0;
    while i < segs.len()
        invariant
            0 <= i <= segs@.len(),
            sv == segment_views(segs@),
            sv == regex_match_segments(CREDIT_CARD_PATTERN@, text@).0,
            forall|k: int| 0 <= k < segs@.len() ==> (#[trigger] segs@[k]).1@.len() >= 1 && segs@[k].1@[0] is Some,
            seen@ == replaced_upto(sv, as_matched(), i as int),
            forall|k: int| 0 <= k < i ==> #[trigger] tail_sliceable(text_before(sv, k)),
        decreases segs@.len() - i,
    {
        let (pre, groups) = &segs[i];
        let m = match &groups[0] {
            Some(m) => m.clone(),
            None => String::new(),
        };
        assert(sv[i as int].0 == pre@);
        assert(sv[i as int].1[0] == Some(m@));
        append(&mut seen, pre.as_str());
        assert(seen@ == text_before(sv, i as int));
        let blen = seen.as_str().as_bytes().len();
        if blen >= 4 && !seen.as_str().is_char_boundary(blen - 4) {
            assert(!tail_sliceable(text_before(sv, i as int)));
            return false;
        }
        append(&mut seen, m.as_str());
        i += 1;
    }
    true
}

/// The secrets pass: the value of the first labelled secret is replaced, round after round,
/// until none is left.
fn secret_stage(text: String) -> (r: (String, usize))
    ensures
        secret_rounds(text@, r.1 as nat) == Some(r.0@),
        r.1 < usize::MAX ==> regex_group_surroundings(API_KEY_PATTERN@, r.0@, 1) is None,
{
    let mut out = text;
    let mut n: usize = 0;
    while n < usize::MAX
        invariant
            secret_rounds(text@, n as nat) == Some(out@),
        decreases usize::MAX - n,
    {
        match regex_group_split(API_KEY_PATTERN, out.as_str(), 1) {
            Some((pre, post)) => {
                let mut next = pre;
                append(&mut next, "[REDACTED_NIST_AU13_SECRET]");
                append(&mut next, post.as_str());
                out = next;
                n += 1;
            }
            None => {
                return (out, n);
            }
        }
    }
    (out, n)
}

fn event(reason: &str, count: usize) -> (e: RedactionEvent)
    ensures
        e.reason@ == reason@,
        e.count == count,
{
    RedactionEvent { reason: owned(reason), count }
}

/// The engine that masks sensitive data before records are kept.
pub struct RedactionEngine;

impl RedactionEngine {
    fn redact_checked(input: &str) -> (r: Option<(String, Vec<RedactionEvent>)>)
        ensures
            r is Some <==> redactable(input@),
            r matches Some(p) ==> redaction_result(input@, p.0@, event_views(p.1@)),
    {
        let mut events: Vec<RedactionEvent> = Vec::new();
        let (after_ssn, ssn) = mask_stage(SSN_PATTERN, owned(input), "[REDACTED_NIST_AU13_SSN]");
        if ssn > 0 {
            events.push(event("Social Security Number (PII)", ssn));
        }
        let (after_cc, cards) = match card_stage(after_ssn.as_str()) {
            Some(p) => p,
            None => return None,
        };
        if cards > 0 {
            events.push(event("Credit Card Data (Financial)", cards));
        }
        let ghost cc_text = after_cc@;
        let (after_secrets, secrets) = secret_stage(after_cc);
        if secrets > 0 {
            events.push(event("API Key / Secret (NIST AC-3)", secrets));
        }
        let (out, keys) = mask_stage(PRIVATE_KEY_PATTERN, after_secrets, "[REDACTED_NIST_AU13_PRIVATE_KEY]");
        if keys > 0 {
            events.push(event("Private Key Material (Cryptographic)", keys));
        }
        proof {
            let ev = event_views(events@);
            assert(ev =~= (if ssn > 0 { seq![("Social Security Number (PII)"@, ssn as nat)] } else { Seq::empty() })
                + (if cards > 0 { seq![("Credit Card Data (Financial)"@, cards as nat)] } else { Seq::empty() })
                + (if secrets > 0 { seq![("API Key / Secret (NIST AC-3)"@, secrets as nat)] } else { Seq::empty() })
                + (if keys > 0 { seq![("Private Key Material (Cryptographic)"@, keys as nat)] } else { Seq::empty() }));
            assert(secret_rounds(cc_text, secrets as nat) is Some);
        }
        Some((out, events))
    }

    /// Masks social security numbers, then payment card numbers that are not part of a Windows
    /// security identifier (each such number masked wherever its text occurs), then the values of
    /// labelled secrets, then private key blocks. Returns the redacted text and one event per kind
    /// of data masked, with how often, in that order.
    pub fn redact(input: &str) -> (r: (String, Vec<RedactionEvent>))
        requires
            redactable(input@),
        ensures
            redaction_result(input@, r.0@, event_views(r.1@)),
    {
        match Self::redact_checked(input) {
            Some(p) => p,
            None => (owned(input), Vec::new()),
        }
    }

    /// Whether [`RedactionEngine::redact`] can handle `input`: its card-number pass never slices
    /// through a character.
    pub fn is_redactable(input: &str) -> (b: bool)
        ensures
            b == redactable(input@),
    {
        let (after_ssn, _n) = mask_stage(SSN_PATTERN, owned(input), "[REDACTED_NIST_AU13_SSN]");
        card_pass_checkable(after_ssn.as_str())
    }

    /// [`RedactionEngine::redact`] where the card-number pass can look at the four bytes before
    /// every candidate number; `None` for an input where a multi-byte character stands within
    /// those four bytes.
    pub fn try_redact(input: &str) -> (r: Option<(String, Vec<RedactionEvent>)>)
        ensures
            r is Some <==> redactable(input@),
            r matches Some(p) ==> redaction_result(input@, p.0@, event_views(p.1@)),
    {
        if Self::is_redactable(input) {
            Some(Self::redact(input))
        } else {
            None
        }
    }
}

/// A dotted-quad IP address.
pub const IP_PATTERN: &'static str = "\\b(?:[0-9]{1,3}\\.){3}[0-9]{1,3}\\b";
/// A bearer token, token, API key or secret with its value.
pub const TOKEN_PATTERN: &'static str = "(?i)(bearer|token|apikey|secret)[:=]\\s*[a-zA-Z0-9\\-_./]{8,}";

/// What the privacy redactor puts in place of a sensitive match: its first group, labelled as
/// redacted, where the pattern has groups; a plain mask otherwise.
pub open spec fn sensitive_mask() -> spec_fn(Seq<Option<Seq<char>>>) -> Seq<char> {
    |g: Seq<Option<Seq<char>>>| if g.len() > 1 {
        (match g[1] { Some(t) => t, None => Seq::empty() }) + ": [REDACTED]"@
    } else {
        "[REDACTED_SENSITIVE]"@
    }
}

/// Every match of a walk that has groups has its first group.
pub open spec fn first_groups_present(segs: Segments) -> bool {
    forall|i: int| 0 <= i < segs.len() ==> (#[trigger] segs[i]).1.len() > 1 ==> segs[i].1[1] is Some
}

/// The text and the count of masked matches after the first `n` sensitive patterns.
pub open spec fn sensitive_pass(patterns: Seq<Seq<char>>, text: Seq<char>, n: int) -> (Seq<char>, nat)
    decreases n,
{
    if n <= 0 {
        (text, 0)
    } else {
        let (t, c) = sensitive_pass(patterns, text, n - 1);
        (substituted(patterns[n - 1], t, sensitive_mask()), c + match_count(patterns[n - 1], t))
    }
}

/// Every sensitive pattern's masking can read the first group of each of its matches.
pub open spec fn sensitive_pass_defined(patterns: Seq<Seq<char>>, text: Seq<char>) -> bool {
    forall|k: int| 0 <= k < patterns.len() ==> #[trigger] first_groups_present(
        regex_match_segments(patterns[k], sensitive_pass(patterns, text, k).0).0)
}

/// The text after IP masking, if enabled, and the number of addresses masked.
pub open spec fn ip_pass(mask_ips: bool, text: Seq<char>) -> (Seq<char>, nat) {
    if mask_ips {
        (substituted(IP_PATTERN@, text, mask_with("[REDACTED_IP]"@)), match_count(IP_PATTERN@, text))
    } else {
        (text, 0)
    }
}

/// The views of a sequence of strings.
pub open spec fn string_views(v: Seq<String>) -> Seq<Seq<char>> {
    v.map_values(|p: String| p@)
}

/// Patterns `Regex::new` accepts.
pub open spec fn compiles() -> spec_fn(Seq<char>) -> bool {
    |p: Seq<char>| regex_valid(p)
}

/// The privacy redactor: masks IP addresses, if asked to, and security tokens and whatever
/// further patterns the configuration names.
pub struct Redactor {
    patterns: Vec<String>,
    mask_ips: bool,
}

impl Redactor {
    /// The patterns applied after IP masking: the token pattern, then the configured patterns
    /// that compile, in order.
    pub closed spec fn pattern_sources(&self) -> Seq<Seq<char>> {
        string_views(self.patterns@)
    }

    /// Whether IP addresses are masked.
    pub closed spec fn masks_ips(&self) -> bool {
        self.mask_ips
    }

    /// The redactor for a configuration: the token pattern first, then each configured pattern
    /// that compiles; patterns that do not compile are left out.
    pub fn new(config: &RedactionConfig) -> (r: Redactor)
        ensures
            r.masks_ips() == config.mask_ips,
            r.pattern_sources() == seq![TOKEN_PATTERN@] + string_views(config.patterns@).filter(compiles()),
    {
        let mut patterns: Vec<String> = Vec::new();
        patterns.push(owned(TOKEN_PATTERN));
        let ghost src = string_views(config.patterns@);
        let mut i: usize = 0;
        while i < config.patterns.len()
            invariant
                0 <= i <= config.patterns@.len(),
                src == string_views(config.patterns@),
                string_views(patterns@) == seq![TOKEN_PATTERN@] + src.take(i as int).filter(compiles()),
            decreases config.patterns@.len() - i,
        {
            let ghost before = patterns@;
            let valid = is_valid_regex(config.patterns[i].as_str());
            if valid {
                patterns.push(config.patterns[i].clone());
                assert(string_views(patterns@) =~= string_views(before).push(src[i as int]));
            }
            proof {
                assert(compiles()(src[i as int]) == valid);
                reveal(Seq::filter);
                assert(src.take(i + 1).drop_last() =~= src.take(i as int));
                assert(src.take(i + 1).last() == src[i as int]);
                assert(string_views(patterns@) =~= seq![TOKEN_PATTERN@] + src.take(i + 1).filter(compiles()));
            }
            i += 1;
        }
        proof {
            assert(src.take(src.len() as int) =~= src);
        }
        Redactor { patterns, mask_ips: config.mask_ips }
    }
}

/// The privacy redactor can apply all its patterns to `text`: every match of a pattern with
/// groups has its first group, and the number of masked matches fits in a `usize`.
pub open spec fn privacy_defined(mask_ips: bool, patterns: Seq<Seq<char>>, text: Seq<char>) -> bool {
    let t = ip_pass(mask_ips, text).0;
    sensitive_pass_defined(patterns, t) && sensitive_pass(patterns, t, patterns.len() as int).1 <= usize::MAX
}

/// What the privacy redactor makes of `text`: the sanitized text and, in order, the IP masking
/// event and the token masking event, each where something was masked.
pub open spec fn privacy_result(mask_ips: bool, patterns: Seq<Seq<char>>, text: Seq<char>) -> (Seq<char>, Seq<(Seq<char>, nat)>) {
    let (t1, ips) = ip_pass(mask_ips, text);
    let (t2, tokens) = sensitive_pass(patterns, t1, patterns.len() as int);
    (t2, (if ips > 0 { seq![("IP Masking"@, ips)] } else { Seq::empty() })
        + (if tokens > 0 { seq![("Security Token Masking"@, tokens)] } else { Seq::empty() }))
}

/// Every match of `pattern` replaced by its sensitive mask, and the number of matches; `None`
/// where a match of a pattern with groups lacks its first group.
fn mask_sensitive(pattern: &str, text: &str) -> (r: Option<(String, usize)>)
    ensures
        r is Some <==> first_groups_present(regex_match_segments(pattern@, text@).0),
        r matches Some(p) ==> p.1 == match_count(pattern@, text@)
            && p.0@ == substituted(pattern@, text@, sensitive_mask()),
{
    let (segs, rest) = regex_segments(pattern, text);
    let ghost sv = segment_views(segs@);
    let ghost f = sensitive_mask();
    let mut out = String::new();
    proof {
        reveal_strlit("");
        assert(out@ =~= Seq::<char>::empty());
    }
    let mut i: usize = 0;
    while i < segs.len()
        invariant
            0 <= i <= segs@.len(),
            sv == segment_views(segs@),
            sv == regex_match_segments(pattern@, text@).0,
            f == sensitive_mask(),
            out@ == replaced_upto(sv, f, i as int),
            forall|k: int| 0 <= k < i ==> (#[trigger] sv[k]).1.len() > 1 ==> sv[k].1[1] is Some,
        decreases segs@.len() - i,
    {
        let (pre, groups) = &segs[i];
        assert(sv[i as int].0 == pre@);
        assert(sv[i as int].1.len() == groups@.len());
        append(&mut out, pre.as_str());
        if groups.len() > 1 {
            match &groups[1] {
                Some(g) => {
                    assert(sv[i as int].1[1] == Some(g@));
                    append(&mut out, g.as_str());
                    append(&mut out, ": [REDACTED]");
                }
                None => {
                    assert(sv[i as int].1[1] is None);
                    return None;
                }
            }
        } else {
            append(&mut out, "[REDACTED_SENSITIVE]");
        }
        i += 1;
    }
    append(&mut out, rest.as_str());
    Some((out, segs.len()))
}

impl Redactor {
    fn redact_checked(&self, input: &str) -> (r: Option<(String, Vec<RedactionEvent>)>)
        ensures
            r is Some <==> privacy_defined(self.masks_ips(), self.pattern_sources(), input@),
            r matches Some(p) ==> (p.0@, event_views(p.1@)) == privacy_result(self.masks_ips(), self.pattern_sources(), input@),
    {
        let ghost pats = self.pattern_sources();
        let mut events: Vec<RedactionEvent> = Vec::new();
        let mut output = owned(input);
        let mut ips: usize = 0;
        if self.mask_ips {
            let (masked_text, n) = mask_matches(IP_PATTERN, input, "[REDACTED_IP]");
            output = masked_text;
            ips = n;
            if n > 0 {
                events.push(event("IP Masking", n));
            }
        }
        let ghost t1 = output@;
        assert((t1, ips as nat) == ip_pass(self.masks_ips(), input@));
        let mut tokens: usize = 0;
        let mut i: usize = 0;
        while i < self.patterns.len()
            invariant
                0 <= i <= pats.len(),
                pats == self.pattern_sources(),
                pats.len() == self.patterns@.len(),
                (t1, ips as nat) == ip_pass(self.masks_ips(), input@),
                (output@, tokens as nat) == sensitive_pass(pats, t1, i as int),
                forall|k: int| 0 <= k < i ==> #[trigger] first_groups_present(
                    regex_match_segments(pats[k], sensitive_pass(pats, t1, k).0).0),
            decreases pats.len() - i,
        {
            assert(pats[i as int] == self.patterns@[i as int]@);
            match mask_sensitive(self.patterns[i].as_str(), output.as_str()) {
                Some((t, n)) => {
                    if tokens > usize::MAX - n {
                        proof {
                            assert(sensitive_pass(pats, t1, i + 1).1 == tokens + n);
                            lemma_sensitive_count_grows(pats, t1, i + 1, pats.len() as int);
                            assert(ip_pass(self.masks_ips(), input@).0 == t1);
                        }
                        return None;
                    }
                    output = t;
                    tokens = tokens + n;
                }
                None => {
                    proof {
                        assert(!first_groups_present(regex_match_segments(pats[i as int], sensitive_pass(pats, t1, i as int).0).0));
                        assert(ip_pass(self.masks_ips(), input@).0 == t1);
                    }
                    return None;
                }
            }
            i += 1;
        }
        if tokens > 0 {
            events.push(event("Security Token Masking", tokens));
        }
        proof {
            assert(event_views(events@) =~= privacy_result(self.masks_ips(), pats, input@).1);
        }
        Some((output, events))
    }

    /// Masks IP addresses, if enabled, then applies each pattern in turn, a match being replaced
    /// by its first group labelled as redacted where the pattern has groups, by a plain mask
    /// otherwise. Returns the sanitized text and the masking events, IPs first.
    pub fn redact(&self, input: &str) -> (r: (String, Vec<RedactionEvent>))
        requires
            privacy_defined(self.masks_ips(), self.pattern_sources(), input@),
        ensures
            (r.0@, event_views(r.1@)) == privacy_result(self.masks_ips(), self.pattern_sources(), input@),
    {
        match self.redact_checked(input) {
            Some(p) => p,
            None => (owned(input), Vec::new()),
        }
    }

    /// [`Redactor::redact`], or `None` for an input on which a configured pattern with groups
    /// matches without its first group.
    pub fn try_redact(&self, input: &str) -> (r: Option<(String, Vec<RedactionEvent>)>)
        ensures
            r is Some <==> privacy_defined(self.masks_ips(), self.pattern_sources(), input@),
            r matches Some(p) ==> (p.0@, event_views(p.1@)) == privacy_result(self.masks_ips(), self.pattern_sources(), input@),
    {
        if self.redact_checked(input).is_some() {
            Some(self.redact(input))
        } else {
            None
        }
    }
}

proof fn lemma_sensitive_count_grows(patterns: Seq<Seq<char>>, text: Seq<char>, a: int, b: int)
    requires
        0 <= a <= b,
    ensures
        sensitive_pass(patterns, text, a).1 <= sensitive_pass(patterns, text, b).1,
    decreases b - a,
{
    if a < b {
        lemma_sensitive_count_grows(patterns, text, a, b - 1);
    }
}

/// Position of the first event with the given reason.
pub open spec fn first_reason(reds: Seq<(Seq<char>, nat)>, reason: Seq<char>, i: int) -> Option<int>
    decreases reds.len() - i,
{
    if i < 0 || i >= reds.len() {
        None
    } else if reds[i].0 == reason {
        Some(i)
    } else {
        first_reason(reds, reason, i + 1)
    }
}

/// An event merged into a list: its count added to the first event of the same reason, or the
/// event appended; `None` where the sum does not fit in a `usize`.
pub open spec fn merge_one(reds: Seq<(Seq<char>, nat)>, e: (Seq<char>, nat)) -> Option<Seq<(Seq<char>, nat)>> {
    match first_reason(reds, e.0, 0) {
        Some(i) => if reds[i].1 + e.1 <= usize::MAX { Some(reds.update(i, (reds[i].0, (reds[i].1 + e.1) as nat))) } else { None },
        None => Some(reds.push(e)),
    }
}

/// The first `n` events merged into a list, in order.
pub open spec fn merge_all(reds: Seq<(Seq<char>, nat)>, evs: Seq<(Seq<char>, nat)>, n: int) -> Option<Seq<(Seq<char>, nat)>>
    decreases n,
{
    if n <= 0 {
        Some(reds)
    } else {
        match merge_all(reds, evs, n - 1) {
            Some(r) => merge_one(r, evs[n - 1]),
            None => None,
        }
    }
}

/// The metadata values under the first `n` keys of `ks` redacted, each value's events merged into
/// `reds0`; `None` where a redaction or a merge cannot be done.
pub open spec fn redact_values(
    mask_ips: bool,
    patterns: Seq<Seq<char>>,
    md0: Map<Seq<char>, Seq<char>>,
    ks: Seq<Seq<char>>,
    n: int,
    reds0: Seq<(Seq<char>, nat)>,
) -> Option<(Map<Seq<char>, Seq<char>>, Seq<(Seq<char>, nat)>)>
    decreases n,
{
    if n <= 0 {
        Some((md0, reds0))
    } else {
        match redact_values(mask_ips, patterns, md0, ks, n - 1, reds0) {
            Some((md, reds)) => {
                let v = md0[ks[n - 1]];
                if !privacy_defined(mask_ips, patterns, v) {
                    None
                } else {
                    let (v2, evs) = privacy_result(mask_ips, patterns, v);
                    match merge_all(reds, evs, evs.len() as int) {
                        Some(r2) => Some((md.insert(ks[n - 1], v2), r2)),
                        None => None,
                    }
                }
            }
            None => None,
        }
    }
}

/// The privacy pass over a record, its metadata walked in key order `ks`: the message redacted
/// and its events appended to the record's, then each metadata value redacted and its events
/// merged by reason. `None` where some redaction or merge cannot be done.
pub open spec fn sanitized(mask_ips: bool, patterns: Seq<Seq<char>>, r: LogRecord, ks: Seq<Seq<char>>)
    -> Option<(Seq<char>, Map<Seq<char>, Seq<char>>, Seq<(Seq<char>, nat)>)>
{
    if !privacy_defined(mask_ips, patterns, r.message@) {
        None
    } else {
        let (msg, evs) = privacy_result(mask_ips, patterns, r.message@);
        match redact_values(mask_ips, patterns, r.metadata@, ks, ks.len() as int, event_views(r.redactions@) + evs) {
            Some((md, reds)) => Some((msg, md, reds)),
            None => None,
        }
    }
}

fn merge_event(reds: &mut Vec<RedactionEvent>, e: RedactionEvent) -> (ok: bool)
    ensures
        ok == merge_one(event_views(old(reds)@), (e.reason@, e.count as nat)) is Some,
        ok ==> event_views(final(reds)@) == merge_one(event_views(old(reds)@), (e.reason@, e.count as nat))->0,
{
    let ghost ev0 = event_views(reds@);
    let mut i: usize = 0;
    while i < reds.len()
        invariant
            0 <= i <= reds@.len(),
            event_views(reds@) == ev0,
            event_views(old(reds)@) == ev0,
            first_reason(ev0, e.reason@, 0) == first_reason(ev0, e.reason@, i as int),
        decreases reds@.len() - i,
    {
        if str_eq(reds[i].reason.as_str(), e.reason.as_str()) {
            assert(ev0[i as int] == (reds@[i as int].reason@, reds@[i as int].count as nat));
            assert(first_reason(ev0, e.reason@, i as int) == Some(i as int));
            assert(first_reason(ev0, e.reason@, 0) == Some(i as int));
            if reds[i].count > usize::MAX - e.count {
                return false;
            }
            let count = reds[i].count + e.count;
            reds.set(i, RedactionEvent { reason: e.reason, count });
            assert(event_views(reds@) =~= ev0.update(i as int, (ev0[i as int].0, (ev0[i as int].1 + e.count) as nat)));
            return true;
        }
        assert(ev0[i as int].0 != e.reason@);
        assert(first_reason(ev0, e.reason@, i as int) == first_reason(ev0, e.reason@, i + 1));
        i += 1;
    }
    reds.push(e);
    assert(event_views(reds@) =~= ev0.push((e.reason@, e.count as nat)));
    true
}

fn merge_events(reds: &mut Vec<RedactionEvent>, evs: Vec<RedactionEvent>) -> (ok: bool)
    ensures
        ok == merge_all(event_views(old(reds)@), event_views(evs@), evs@.len() as int) is Some,
        ok ==> event_views(final(reds)@) == merge_all(event_views(old(reds)@), event_views(evs@), evs@.len() as int)->0,
{
    let ghost r0 = event_views(reds@);
    let ghost ev = event_views(evs@);
    let mut k: usize = 0;
    while k < evs.len()
        invariant
            0 <= k <= evs@.len(),
            ev == event_views(evs@),
            merge_all(r0, ev, k as int) == Some(event_views(reds@)),
            r0 == event_views(old(reds)@),
        decreases evs@.len() - k,
    {
        let e = RedactionEvent { reason: owned(evs[k].reason.as_str()), count: evs[k].count };
        assert(ev[k as int] == (e.reason@, e.count as nat));
        let ghost rb = event_views(reds@);
        if !merge_event(reds, e) {
            proof {
                assert(merge_one(rb, ev[k as int]) is None);
                assert(merge_all(r0, ev, k + 1) is None);
                lemma_merge_all_none(r0, ev, k + 1, evs@.len() as int);
            }
            return false;
        }
        k += 1;
    }
    true
}

proof fn lemma_merge_all_none(reds: Seq<(Seq<char>, nat)>, evs: Seq<(Seq<char>, nat)>, a: int, b: int)
    requires
        0 <= a <= b,
        merge_all(reds, evs, a) is None,
    ensures
        merge_all(reds, evs, b) is None,
    decreases b - a,
{
    if a < b {
        lemma_merge_all_none(reds, evs, a, b - 1);
    }
}

proof fn lemma_redact_values_none(
    mask_ips: bool,
    patterns: Seq<Seq<char>>,
    md0: Map<Seq<char>, Seq<char>>,
    ks: Seq<Seq<char>>,
    a: int,
    b: int,
    reds0: Seq<(Seq<char>, nat)>,
)
    requires
        0 <= a <= b,
        redact_values(mask_ips, patterns, md0, ks, a, reds0) is None,
    ensures
        redact_values(mask_ips, patterns, md0, ks, b, reds0) is None,
    decreases b - a,
{
    if a < b {
        lemma_redact_values_none(mask_ips, patterns, md0, ks, a, b - 1, reds0);
    }
}

impl Redactor {
    /// The privacy pass over a record: its message redacted and the events added to the record's,
    /// then each metadata value, in key order, redacted and its events merged by reason into the
    /// record's. `None` where a configured pattern with groups matches without its first group,
    /// or a merged count does not fit in a `usize`.
    pub fn sanitize(&self, record: LogRecord) -> (r: Option<LogRecord>)
        ensures
            exists|ks: Seq<Seq<char>>| {
                &&& strictly_ascending(ks)
                &&& (forall|k: Seq<char>| ks.contains(k) <==> record.metadata@.contains_key(k))
                &&& match #[trigger] sanitized(self.masks_ips(), self.pattern_sources(), record, ks) {
                    None => r is None,
                    Some((msg, md, reds)) => r matches Some(t) && t.message@ == msg && t.metadata@ == md
                        && event_views(t.redactions@) == reds
                        && t == (LogRecord { message: t.message, metadata: t.metadata, redactions: t.redactions, ..record }),
                }
            },
    {
        let ghost r0 = record;
        let keys = record.metadata.sorted_keys();
        let ghost ks = key_views(keys@);
        let (msg, evs) = match self.try_redact(record.message.as_str()) {
            Some(p) => p,
            None => {
                return None;
            }
        };
        let mut t = record;
        t.message = msg;
        let ghost ev_msg = event_views(evs@);
        let mut evs = evs;
        t.redactions.append(&mut evs);
        proof {
            assert(event_views(t.redactions@) =~= event_views(r0.redactions@) + ev_msg);
        }
        let md0 = t.metadata.duplicate();
        let mut i: usize = 0;
        while i < keys.len()
            invariant
                0 <= i <= keys@.len(),
                ks == key_views(keys@),
                strictly_ascending(ks),
                r0 == record,
                md0@ == r0.metadata@,
                forall|k: Seq<char>| ks.contains(k) <==> r0.metadata@.contains_key(k),
                privacy_defined(self.masks_ips(), self.pattern_sources(), r0.message@),
                (ev_msg, ) == (privacy_result(self.masks_ips(), self.pattern_sources(), r0.message@).1, ),
                redact_values(self.masks_ips(), self.pattern_sources(), r0.metadata@, ks, i as int,
                    event_views(r0.redactions@) + ev_msg) == Some((t.metadata@, event_views(t.redactions@))),
                t.message@ == privacy_result(self.masks_ips(), self.pattern_sources(), r0.message@).0,
                t == (LogRecord { message: t.message, metadata: t.metadata, redactions: t.redactions, ..r0 }),
            decreases keys@.len() - i,
        {
            let key = &keys[i];
            assert(ks[i as int] == key@);
            assert(ks.contains(key@));
            let value = match md0.get_owned(key.as_str()) {
                Some(v) => v,
                None => {
                    assert(false);
                    String::new()
                }
            };
            match self.try_redact(value.as_str()) {
                Some((v2, evs2)) => {
                    let ghost before = event_views(t.redactions@);
                    if !merge_events(&mut t.redactions, evs2) {
                        proof {
                            assert(value@ == r0.metadata@[ks[i as int]]);
                            assert(redact_values(self.masks_ips(), self.pattern_sources(), r0.metadata@, ks, i + 1,
                                event_views(r0.redactions@) + ev_msg) is None);
                            lemma_redact_values_none(self.masks_ips(), self.pattern_sources(), r0.metadata@, ks,
                                i + 1, ks.len() as int, event_views(r0.redactions@) + ev_msg);
                            assert(sanitized(self.masks_ips(), self.pattern_sources(), r0, ks) is None);
                        }
                        return None;
                    }
                    t.metadata.insert(key.clone(), v2);
                }
                None => {
                    proof {
                        assert(value@ == r0.metadata@[ks[i as int]]);
                        assert(redact_values(self.masks_ips(), self.pattern_sources(), r0.metadata@, ks, i + 1,
                            event_views(r0.redactions@) + ev_msg) is None);
                        lemma_redact_values_none(self.masks_ips(), self.pattern_sources(), r0.metadata@, ks,
                            i + 1, ks.len() as int, event_views(r0.redactions@) + ev_msg);
                        assert(sanitized(self.masks_ips(), self.pattern_sources(), r0, ks) is None);
                    }
                    return None;
                }
            }
            i += 1;
        }
        proof {
            assert(sanitized(self.masks_ips(), self.pattern_sources(), r0, ks)
                == Some((t.message@, t.metadata@, event_views(t.redactions@))));
        }
        Some(t)
    }
}

} // verus!
