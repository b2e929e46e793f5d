//! The log sentinel's rules and its dispatcher's decisions: which rules a log line matches,
//! which of them fire given their cooldowns, and what firing a rule does.

use vstd::prelude::*;
use crate::num::parse_unsigned;
use crate::pattern::{is_valid_regex, regex_first_match, regex_is_match, regex_valid};
use crate::text::{append, chars_of, lowercase, owned, parse_unsigned_spec, seq_starts_with, seq_trim, str_eq,
    str_starts_with, string_from_chars, to_lowercase, trim};

verus! {

/// A rule: a pattern to look for in log lines, what to do when it matches, and how long to stay
/// quiet afterwards.
#[derive(Debug)]
pub struct Rule {
    pub name: String,
    pub pattern: String,
    /// `notify` raises a desktop notification.
    pub action: String,
    /// A self-healing script to run when the rule fires.
    pub script: Option<String>,
    /// How long the rule stays quiet after firing: seconds (`10s`) or minutes (`5m`).
    pub cooldown: String,
    /// Whether running the script needs the operator's confirmation.
    pub destructive: bool,
}

/// A file to watch.
#[derive(Debug)]
pub struct Watch {
    pub path: String,
    /// Reserved: whether the file holds JSON lines.
    pub _json: bool,
}

/// The sentinel's configuration.
#[derive(Debug)]
pub struct Config {
    pub rules: Vec<Rule>,
    pub watches: Vec<Watch>,
}

/// A non-empty line read from a watched file.
#[derive(Debug)]
pub struct LogMatch {
    pub _file: String,
    pub content: String,
}

/// The cooldown a rule gets when its configuration names none.
pub fn default_cooldown() -> (s: String)
    ensures
        s@ == "10s"@,
{
    owned("10s")
}

/// Two rules with the same content.
pub open spec fn same_rule(a: Rule, b: Rule) -> bool {
    &&& a.name@ == b.name@ && a.pattern@ == b.pattern@ && a.action@ == b.action@
    &&& a.cooldown@ == b.cooldown@ && a.destructive == b.destructive
    &&& match (a.script, b.script) {
        (Some(x), Some(y)) => x@ == y@,
        (None, None) => true,
        _ => false,
    }
}

impl Rule {
    /// A copy of the rule.
    pub fn duplicate(&self) -> (r: Rule)
        ensures
            same_rule(*self, r),
    {
        Rule {
            name: self.name.clone(),
            pattern: self.pattern.clone(),
            action: self.action.clone(),
            script: match &self.script {
                Some(s) => Some(s.clone()),
                None => None,
            },
            cooldown: self.cooldown.clone(),
            destructive: self.destructive,
        }
    }
}

/// A count of seconds read as `u64::from_str` reads it, or `fallback` where it is not one.
pub open spec fn seconds_or(t: Seq<char>, fallback: nat) -> nat {
    match parse_unsigned_spec(t, 10, u64::MAX as nat) {
        Some(n) => n,
        None => fallback,
    }
}

/// The cooldown, in seconds, a cooldown text gives: `<n>s` is `n` seconds (10 where `n` is not
/// a number), `<n>m` is `n` minutes (one where `n` is not a number), anything else 10 seconds.
/// Minutes past `u64::MAX` seconds wrap around.
pub open spec fn cooldown_secs(s: Seq<char>) -> nat {
    let t = seq_trim(s);
    if t.len() > 0 && t.last() == 's' {
        seconds_or(t.drop_last(), 10)
    } else if t.len() > 0 && t.last() == 'm' {
        (seconds_or(t.drop_last(), 1) * 60) % 0x1_0000_0000_0000_0000
    } else {
        10
    }
}

fn without_last_char(s: &str) -> (r: String)
    requires
        s@.len() > 0,
    ensures
        r@ == s@.drop_last(),
{
    let v = chars_of(s);
    let n = v.len() - 1;
    let mut w: Vec<char> = Vec::new();
    let mut i: usize = 0;
    while i < n
        invariant
            0 <= i <= n,
            n == v@.len() - 1,
            v@ == s@,
            w@ == v@.take(i as int),
        decreases v@.len() - i,
    {
        w.push(v[i]);
        i += 1;
        assert(v@.take(i as int) == v@.take(i - 1).push(v@[i - 1]));
    }
    assert(w@ =~= s@.drop_last());
    string_from_chars(w.as_slice())
}

/// The cooldown of a rule, in seconds.
pub fn parse_duration(s: &str) -> (secs: u64)
    ensures
        secs == cooldown_secs(s@),
{
    let t = trim(s);
    let cs = chars_of(t.as_str());
    let n = cs.len();
    if n > 0 && cs[n - 1] == 's' {
        let body = without_last_char(t.as_str());
        match parse_unsigned(body.as_str(), 10, u64::MAX) {
            Some(v) => v,
            None => 10,
        }
    } else if n > 0 && cs[n - 1] == 'm' {
        let body = without_last_char(t.as_str());
        let minutes: u64 = match parse_unsigned(body.as_str(), 10, u64::MAX) {
            Some(v) => v,
            None => 1,
        };
        let secs = minutes.wrapping_mul(60);
        proof {
            assert(secs == (minutes * 60) % 0x1_0000_0000_0000_0000) by (nonlinear_arith)
                requires
                    secs == (minutes as int * 60) % 0x1_0000_0000_0000_0000,
            ;
        }
        secs
    } else {
        10
    }
}

/// Time elapsed from `last` to `now` on a monotonic clock in nanoseconds; none if `last` is later.
pub open spec fn elapsed(now: u128, last: u128) -> nat {
    if now >= last { (now - last) as nat } else { 0 }
}

/// Whether a rule that last fired at `last` (if ever) fires again at `now`: when it never fired,
/// or its cooldown has passed.
pub open spec fn fires(last: Option<u128>, cooldown_secs: nat, now: u128) -> bool {
    match last {
        Some(l) => !(elapsed(now, l) < cooldown_secs * 1_000_000_000),
        None => true,
    }
}

/// The dispatcher could not start.
#[derive(Debug)]
pub enum SentinelError {
    /// A rule's pattern does not compile.
    InvalidRegex(String),
}

impl SentinelError {
    /// The error's message.
    pub fn message(&self) -> (s: String)
        ensures
            self matches SentinelError::InvalidRegex(p) ==> s@ == "Invalid regex: "@ + p@,
    {
        match self {
            SentinelError::InvalidRegex(p) => {
                let mut s = owned("Invalid regex: ");
                append(&mut s, p.as_str());
                s
            }
        }
    }
}

/// What firing a rule does: whether to notify, the script to run, and whether the operator must
/// confirm the script first.
#[derive(Debug)]
pub struct TriggerPlan {
    pub notify: bool,
    pub script: Option<String>,
    pub needs_confirmation: bool,
}

/// No two entries of a history share a rule name.
pub open spec fn names_distinct(h: Seq<(String, u128)>) -> bool {
    forall|i: int, j: int| 0 <= i < h.len() && 0 <= j < h.len() && i != j ==> h[i].0@ != h[j].0@
}

/// When each rule last fired, by name.
pub open spec fn history_map(h: Seq<(String, u128)>) -> Map<Seq<char>, u128> {
    Map::new(
        |k: Seq<char>| exists|i: int| 0 <= i < h.len() && h[i].0@ == k,
        |k: Seq<char>| h[choose|i: int| 0 <= i < h.len() && h[i].0@ == k].1,
    )
}

/// The dispatcher: matches log lines against the rules and debounces them.
pub struct Dispatcher {
    compiled_rules: Vec<Rule>,
    history: Vec<(String, u128)>,
    force: bool,
}

impl Dispatcher {
    #[verifier::type_invariant]
    closed spec fn inv(&self) -> bool {
        &&& names_distinct(self.history@)
        &&& forall|i: int| 0 <= i < self.compiled_rules@.len() ==> regex_valid(#[trigger] self.compiled_rules@[i].pattern@)
    }

    /// The rules, in configuration order.
    pub closed spec fn rules(&self) -> Seq<Rule> {
        self.compiled_rules@
    }

    /// When each rule last fired, by name, in nanoseconds of the monotonic clock.
    pub closed spec fn last_fired(&self) -> Map<Seq<char>, u128> {
        history_map(self.history@)
    }

    /// Whether destructive scripts run without confirmation.
    pub closed spec fn forced(&self) -> bool {
        self.force
    }

    /// A dispatcher for the configuration's rules, none of which has fired yet; the first rule
    /// whose pattern does not compile is an error.
    pub fn new(config: Config, force: bool) -> (r: Result<Dispatcher, SentinelError>)
        ensures
            (forall|i: int| 0 <= i < config.rules@.len() ==> regex_valid(#[trigger] config.rules@[i].pattern@)) <==> r is Ok,
            r matches Ok(d) ==> d.rules().len() == config.rules@.len()
                && (forall|i: int| 0 <= i < config.rules@.len() ==> same_rule(config.rules@[i], #[trigger] d.rules()[i]))
                && d.last_fired() == Map::<Seq<char>, u128>::empty() && d.forced() == force,
            r matches Err(SentinelError::InvalidRegex(p)) ==> exists|i: int| 0 <= i < config.rules@.len()
                && !regex_valid(#[trigger] config.rules@[i].pattern@) && p@ == config.rules@[i].pattern@
                && forall|j: int| 0 <= j < i ==> regex_valid(#[trigger] config.rules@[j].pattern@),
    {
        let mut rules: Vec<Rule> = Vec::new();
        let mut i: usize = 0;
        while i < config.rules.len()
            invariant
                0 <= i <= config.rules@.len(),
                rules@.len() == i,
                forall|j: int| 0 <= j < i ==> same_rule(config.rules@[j], #[trigger] rules@[j]),
                forall|j: int| 0 <= j < i ==> regex_valid(#[trigger] config.rules@[j].pattern@),
            decreases config.rules@.len() - i,
        {
            if !is_valid_regex(config.rules[i].pattern.as_str()) {
                return Err(SentinelError::InvalidRegex(config.rules[i].pattern.clone()));
            }
            rules.push(config.rules[i].duplicate());
            i += 1;
        }
        let history: Vec<(String, u128)> = Vec::new();
        proof {
            assert(history_map(history@) =~= Map::<Seq<char>, u128>::empty());
            assert forall|j: int| 0 <= j < rules@.len() implies regex_valid(#[trigger] rules@[j].pattern@) by {
                assert(same_rule(config.rules@[j], rules@[j]));
            }
        }
        Ok(Dispatcher { compiled_rules: rules, history, force })
    }

    fn history_index(&self, name: &str) -> (r: Option<usize>)
        ensures
            r matches Some(i) ==> i < self.history@.len() && self.history@[i as int].0@ == name@,
            r is None ==> forall|i: int| 0 <= i < self.history@.len() ==> #[trigger] self.history@[i].0@ != name@,
    {
        let mut i: usize = 0;
        while i < self.history.len()
            invariant
                0 <= i <= self.history@.len(),
                forall|k: int| 0 <= k < i ==> #[trigger] self.history@[k].0@ != name@,
            decreases self.history@.len() - i,
        {
            if str_eq(self.history[i].0.as_str(), name) {
                return Some(i);
            }
            i += 1;
        }
        None
    }

    /// Whether `rule` fires at `now` (nanoseconds on the monotonic clock): not within its cooldown
    /// of its last firing. A rule that fires is recorded as fired at `now`.
    pub fn should_trigger(&mut self, rule: &Rule, now: u128) -> (b: bool)
        ensures
            b == fires(if old(self).last_fired().contains_key(rule.name@) { Some(old(self).last_fired()[rule.name@]) } else { None },
                cooldown_secs(rule.cooldown@), now),
            b ==> final(self).last_fired() == old(self).last_fired().insert(rule.name@, now),
            !b ==> final(self).last_fired() == old(self).last_fired(),
            final(self).rules() == old(self).rules(),
            final(self).forced() == old(self).forced(),
    {
        proof {
            use_type_invariant(&*self);
        }
        let cooldown = parse_duration(rule.cooldown.as_str());
        let cooldown_ns: u128 = (cooldown as u128) * 1_000_000_000;
        let ghost h0 = self.history@;
        match self.history_index(rule.name.as_str()) {
            Some(i) => {
                proof {
                    assert(history_map(h0).contains_key(rule.name@));
                    let k = choose|k: int| 0 <= k < h0.len() && h0[k].0@ == rule.name@;
                    assert(k == i as int);
                }
                let last = self.history[i].1;
                let elapsed_ns: u128 = if now >= last { now - last } else { 0 };
                if elapsed_ns < cooldown_ns {
                    return false;
                }
                let mut history = Vec::new();
                std::mem::swap(&mut history, &mut self.history);
                history.set(i, (rule.name.clone(), now));
                proof {
                    assert(names_distinct(history@));
                    assert(history_map(history@) =~= history_map(h0).insert(rule.name@, now)) by {
                        assert forall|k: Seq<char>| #[trigger] history_map(history@).contains_key(k)
                            == history_map(h0).insert(rule.name@, now).contains_key(k) by {
                            if k != rule.name@ {
                                if history_map(h0).contains_key(k) {
                                    let j = choose|j: int| 0 <= j < h0.len() && h0[j].0@ == k;
                                    assert(history@[j].0@ == k);
                                }
                            } else {
                                assert(history@[i as int].0@ == k);
                            }
                        }
                        assert forall|k: Seq<char>| #[trigger] history_map(history@).contains_key(k)
                            implies history_map(history@)[k] == history_map(h0).insert(rule.name@, now)[k] by {
                            let j = choose|j: int| 0 <= j < history@.len() && history@[j].0@ == k;
                            if k != rule.name@ {
                                assert(h0[j].0@ == k);
                                let j0 = choose|j0: int| 0 <= j0 < h0.len() && h0[j0].0@ == k;
                                assert(j0 == j);
                            }
                        }
                    }
                }
                self.history = history;
                true
            }
            None => {
                proof {
                    assert(!history_map(h0).contains_key(rule.name@));
                }
                let mut history = Vec::new();
                std::mem::swap(&mut history, &mut self.history);
                history.push((rule.name.clone(), now));
                proof {
                    assert(names_distinct(history@));
                    assert(history_map(history@) =~= history_map(h0).insert(rule.name@, now)) by {
                        assert forall|k: Seq<char>| #[trigger] history_map(history@).contains_key(k)
                            == history_map(h0).insert(rule.name@, now).contains_key(k) by {
                            if history_map(h0).contains_key(k) {
                                let j = choose|j: int| 0 <= j < h0.len() && h0[j].0@ == k;
                                assert(history@[j].0@ == k);
                            }
                            if k == rule.name@ {
                                assert(history@[h0.len() as int].0@ == k);
                            }
                        }
                        assert forall|k: Seq<char>| #[trigger] history_map(history@).contains_key(k)
                            implies history_map(history@)[k] == history_map(h0).insert(rule.name@, now)[k] by {
                            let j = choose|j: int| 0 <= j < history@.len() && history@[j].0@ == k;
                            if k != rule.name@ {
                                assert(h0[j].0@ == k);
                                let j0 = choose|j0: int| 0 <= j0 < h0.len() && h0[j0].0@ == k;
                                assert(j0 == j);
                            } else {
                                assert(j == h0.len());
                            }
                        }
                    }
                }
                self.history = history;
                true
            }
        }
    }
}

/// The rules among the first `n` whose pattern matches `content`, in order.
pub open spec fn matching_upto(rules: Seq<Rule>, content: Seq<char>, n: int) -> Seq<Rule>
    decreases n,
{
    if n <= 0 {
        Seq::empty()
    } else if regex_first_match(rules[n - 1].pattern@, content) is Some {
        matching_upto(rules, content, n - 1).push(rules[n - 1])
    } else {
        matching_upto(rules, content, n - 1)
    }
}

/// The rules among the first `n` matched ones that fire at `now`, taken in order from the firing
/// record `h0`, and the firing record afterwards.
pub open spec fn fired_upto(ms: Seq<Rule>, h0: Map<Seq<char>, u128>, now: u128, n: int) -> (Seq<Rule>, Map<Seq<char>, u128>)
    decreases n,
{
    if n <= 0 {
        (Seq::empty(), h0)
    } else {
        let (f, h) = fired_upto(ms, h0, now, n - 1);
        let r = ms[n - 1];
        let last = if h.contains_key(r.name@) { Some(h[r.name@]) } else { None };
        if fires(last, cooldown_secs(r.cooldown@), now) {
            (f.push(r), h.insert(r.name@, now))
        } else {
            (f, h)
        }
    }
}

/// Whether the operator's answer confirms a destructive action: it starts with `y`, in any case,
/// once trimmed.
pub open spec fn confirms(answer: Seq<char>) -> bool {
    seq_starts_with(seq_trim(lowercase(answer)), "y"@)
}

/// Whether the operator's answer confirms a destructive action.
pub fn confirmed(answer: &str) -> (b: bool)
    ensures
        b == confirms(answer@),
{
    let l = to_lowercase(answer);
    let t = trim(l.as_str());
    str_starts_with(t.as_str(), "y")
}

impl Dispatcher {
    /// The rules whose pattern matches a log line, in configuration order.
    pub fn matching_rules(&self, content: &str) -> (v: Vec<Rule>)
        ensures
            v@.len() == matching_upto(self.rules(), content@, self.rules().len() as int).len(),
            forall|i: int| 0 <= i < v@.len() ==> same_rule(
                matching_upto(self.rules(), content@, self.rules().len() as int)[i], #[trigger] v@[i]),
    {
        let mut v: Vec<Rule> = Vec::new();
        let mut i: usize = 0;
        while i < self.compiled_rules.len()
            invariant
                0 <= i <= self.rules().len(),
                self.rules() == self.compiled_rules@,
                v@.len() == matching_upto(self.rules(), content@, i as int).len(),
                forall|k: int| 0 <= k < v@.len() ==> same_rule(matching_upto(self.rules(), content@, i as int)[k], #[trigger] v@[k]),
            decreases self.rules().len() - i,
        {
            if regex_is_match(self.compiled_rules[i].pattern.as_str(), content) {
                v.push(self.compiled_rules[i].duplicate());
            }
            i += 1;
        }
        v
    }

    /// The rules a log line fires at `now`: those whose pattern matches it, in configuration
    /// order, and that are not within their cooldown. Each rule that fires is recorded as fired.
    pub fn dispatch(&mut self, content: &str, now: u128) -> (fired: Vec<Rule>)
        ensures
            ({
                let ms = matching_upto(old(self).rules(), content@, old(self).rules().len() as int);
                let (f, h) = fired_upto(ms, old(self).last_fired(), now, ms.len() as int);
                &&& fired@.len() == f.len()
                &&& forall|i: int| 0 <= i < f.len() ==> same_rule(f[i], #[trigger] fired@[i])
                &&& final(self).last_fired() == h
            }),
            final(self).rules() == old(self).rules(),
            final(self).forced() == old(self).forced(),
    {
        let ms = self.matching_rules(content);
        let ghost msv = matching_upto(old(self).rules(), content@, old(self).rules().len() as int);
        let mut fired: Vec<Rule> = Vec::new();
        let mut i: usize = 0;
        while i < ms.len()
            invariant
                0 <= i <= ms@.len(),
                ms@.len() == msv.len(),
                forall|k: int| 0 <= k < ms@.len() ==> same_rule(msv[k], #[trigger] ms@[k]),
                fired@.len() == fired_upto(msv, old(self).last_fired(), now, i as int).0.len(),
                forall|k: int| 0 <= k < fired@.len() ==> same_rule(fired_upto(msv, old(self).last_fired(), now, i as int).0[k], #[trigger] fired@[k]),
                self.last_fired() == fired_upto(msv, old(self).last_fired(), now, i as int).1,
                self.rules() == old(self).rules(),
                self.forced() == old(self).forced(),
            decreases ms@.len() - i,
        {
            assert(same_rule(msv[i as int], ms@[i as int]));
            if self.should_trigger(&ms[i], now) {
                fired.push(ms[i].duplicate());
            }
            i += 1;
        }
        fired
    }

    /// What firing `rule` does: a notification for a `notify` rule, its script if it has one,
    /// and, for a destructive script, a confirmation unless destructive actions are forced.
    pub fn trigger_plan(&self, rule: &Rule) -> (p: TriggerPlan)
        ensures
            p.notify == (rule.action@ == "notify"@),
            match (p.script, rule.script) {
                (Some(a), Some(b)) => a@ == b@,
                (None, None) => true,
                _ => false,
            },
            p.needs_confirmation == (rule.script is Some && rule.destructive && !self.forced()),
    {
        TriggerPlan {
            notify: str_eq(rule.action.as_str(), "notify"),
            script: match &rule.script {
                Some(s) => Some(s.clone()),
                None => None,
            },
            needs_confirmation: rule.script.is_some() && rule.destructive && !self.force,
        }
    }
}

/// A rule that has just fired stays quiet for the rest of its cooldown: fired at `now`, it does
/// not fire again at any `later` moment less than its cooldown after.
pub proof fn law_debounce(cooldown: Seq<char>, now: u128, later: u128)
    requires
        now <= later,
        (later - now) < cooldown_secs(cooldown) * 1_000_000_000,
    ensures
        !fires(Some(now), cooldown_secs(cooldown), later),
{
}

} // verus!
