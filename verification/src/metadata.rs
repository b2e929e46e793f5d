//! String-to-string record metadata: a finite map with one value per key.

use vstd::prelude::*;
use crate::text::{str_eq, owned, opt_view};

verus! {

/// Key/value metadata of a record. Each key occurs once.
#[derive(Debug)]
pub struct Metadata {
    entries: Vec<(String, String)>,
}

pub open spec fn keys_distinct(e: Seq<(String, String)>) -> bool {
    forall|i: int, j: int| 0 <= i < e.len() && 0 <= j < e.len() && i != j ==> e[i].0@ != e[j].0@
}

pub open spec fn has_key_at(e: Seq<(String, String)>, k: Seq<char>) -> bool {
    exists|i: int| 0 <= i < e.len() && e[i].0@ == k
}

pub open spec fn entries_map(e: Seq<(String, String)>) -> Map<Seq<char>, Seq<char>> {
    Map::new(
        |k: Seq<char>| has_key_at(e, k),
        |k: Seq<char>| e[choose|i: int| 0 <= i < e.len() && e[i].0@ == k].1@,
    )
}

/// The first of `keys` that the map holds, with its value.
pub open spec fn first_present(m: Map<Seq<char>, Seq<char>>, keys: Seq<Seq<char>>) -> Option<Seq<char>>
    decreases keys.len(),
{
    if keys.len() == 0 {
        None
    } else if m.contains_key(keys[0]) {
        Some(m[keys[0]])
    } else {
        first_present(m, keys.drop_first())
    }
}

/// The value of an optional string, or the empty string.
pub open spec fn or_empty(o: Option<Seq<char>>) -> Seq<char> {
    match o {
        Some(v) => v,
        None => Seq::empty(),
    }
}

/// The value under the first of two keys that is present.
pub open spec fn lookup2(m: Map<Seq<char>, Seq<char>>, a: Seq<char>, b: Seq<char>) -> Option<Seq<char>> {
    if m.contains_key(a) { Some(m[a]) } else if m.contains_key(b) { Some(m[b]) } else { None }
}

/// The value under the first of four keys that is present.
pub open spec fn lookup4(m: Map<Seq<char>, Seq<char>>, a: Seq<char>, b: Seq<char>, c: Seq<char>, d: Seq<char>) -> Option<Seq<char>> {
    if m.contains_key(a) || m.contains_key(b) { lookup2(m, a, b) } else { lookup2(m, c, d) }
}

/// The value under `k`, if any.
pub open spec fn lookup(m: Map<Seq<char>, Seq<char>>, k: Seq<char>) -> Option<Seq<char>> {
    if m.contains_key(k) { Some(m[k]) } else { None }
}

proof fn lemma_entry_value(e: Seq<(String, String)>, i: int)
    requires
        keys_distinct(e),
        0 <= i < e.len(),
    ensures
        entries_map(e).contains_key(e[i].0@),
        entries_map(e)[e[i].0@] == e[i].1@,
{
    let k = e[i].0@;
    assert(has_key_at(e, k));
    let j = choose|j: int| 0 <= j < e.len() && e[j].0@ == k;
    assert(j == i);
}

impl View for Metadata {
    type V = Map<Seq<char>, Seq<char>>;

    closed spec fn view(&self) -> Map<Seq<char>, Seq<char>> {
        entries_map(self.entries@)
    }
}

impl Metadata {
    #[verifier::type_invariant]
    closed spec fn inv(&self) -> bool {
        keys_distinct(self.entries@)
    }

    /// An empty map.
    pub fn new() -> (m: Metadata)
        ensures
            m@ == Map::<Seq<char>, Seq<char>>::empty(),
    {
        let m = Metadata { entries: Vec::new() };
        assert(m@ =~= Map::<Seq<char>, Seq<char>>::empty());
        m
    }

    /// Number of keys.
    pub fn len(&self) -> (n: usize)
        ensures
            n == self@.dom().len(),
    {
        proof {
            use_type_invariant(self);
            lemma_len(self.entries@);
        }
        self.entries.len()
    }

    fn index_of(&self, key: &str) -> (r: Option<usize>)
        ensures
            r matches Some(i) ==> i < self.entries@.len() && self.entries@[i as int].0@ == key@,
            r is None ==> !has_key_at(self.entries@, key@),
    {
        let mut i: usize = 0;
        while i < self.entries.len()
            invariant
                0 <= i <= self.entries@.len(),
                forall|j: int| 0 <= j < i ==> self.entries@[j].0@ != key@,
            decreases self.entries@.len() - i,
        {
            if str_eq(self.entries[i].0.as_str(), key) {
                return Some(i);
            }
            i += 1;
        }
        None
    }

    /// The value under `key`, if any.
    pub fn get(&self, key: &str) -> (r: Option<&String>)
        ensures
            r matches Some(v) ==> self@.contains_key(key@) && self@[key@] == v@,
            r is None ==> !self@.contains_key(key@),
    {
        proof { use_type_invariant(self); }
        match self.index_of(key) {
            Some(i) => {
                proof { lemma_entry_value(self.entries@, i as int); }
                Some(&self.entries[i].1)
            }
            None => None,
        }
    }

    /// An owned copy of the value under `key`, if any.
    pub fn get_owned(&self, key: &str) -> (r: Option<String>)
        ensures
            r matches Some(v) ==> lookup(self@, key@) == Some(v@),
            r is None ==> lookup(self@, key@) is None,
    {
        match self.get(key) {
            Some(v) => Some(owned(v.as_str())),
            None => None,
        }
    }

    /// The value under the first of `keys` that is present.
    pub fn get_first(&self, keys: &[&str]) -> (r: Option<String>)
        ensures
            r matches Some(v) ==> first_present(self@, keys@.map_values(|k: &str| k@)) == Some(v@),
            r is None ==> first_present(self@, keys@.map_values(|k: &str| k@)) is None,
    {
        let ghost ks = keys@.map_values(|k: &str| k@);
        assert(ks.subrange(0, ks.len() as int) =~= ks);
        let mut i: usize = 0;
        while i < keys.len()
            invariant
                0 <= i <= keys@.len(),
                ks == keys@.map_values(|k: &str| k@),
                first_present(self@, ks) == first_present(self@, ks.subrange(i as int, ks.len() as int)),
            decreases keys@.len() - i,
        {
            let ghost rest = ks.subrange(i as int, ks.len() as int);
            assert(rest[0] == keys@[i as int]@);
            assert(rest.drop_first() =~= ks.subrange(i + 1, ks.len() as int));
            if let Some(v) = self.get(keys[i]) {
                return Some(owned(v.as_str()));
            }
            i += 1;
        }
        assert(ks.subrange(i as int, ks.len() as int).len() == 0);
        None
    }

    /// An owned copy of the value under the first of two keys that is present.
    pub fn get_either(&self, a: &str, b: &str) -> (r: Option<String>)
        ensures
            opt_view(r) == lookup2(self@, a@, b@),
    {
        match self.get(a) {
            Some(v) => Some(owned(v.as_str())),
            None => match self.get(b) {
                Some(v) => Some(owned(v.as_str())),
                None => None,
            },
        }
    }

    /// An owned copy of the value under the first of four keys that is present.
    pub fn get_any4(&self, a: &str, b: &str, c: &str, d: &str) -> (r: Option<String>)
        ensures
            opt_view(r) == lookup4(self@, a@, b@, c@, d@),
    {
        match self.get_either(a, b) {
            Some(v) => Some(v),
            None => self.get_either(c, d),
        }
    }

    /// An owned copy of the value under `key`, or the empty string.
    pub fn get_or_empty(&self, key: &str) -> (r: String)
        ensures
            r@ == or_empty(lookup(self@, key@)),
    {
        match self.get(key) {
            Some(v) => owned(v.as_str()),
            None => {
                proof {
                    reveal_strlit("");
                    assert(""@ =~= Seq::<char>::empty());
                }
                owned("")
            }
        }
    }

    /// Whether `key` is present.
    pub fn contains_key(&self, key: &str) -> (b: bool)
        ensures
            b == self@.contains_key(key@),
    {
        self.get(key).is_some()
    }

    /// Sets `key` to `value`, replacing any earlier value.
    pub fn insert(&mut self, key: String, value: String)
        ensures
            final(self)@ == old(self)@.insert(key@, value@),
    {
        proof { use_type_invariant(&*self); }
        let ghost old_e = self.entries@;
        match self.index_of(key.as_str()) {
            Some(i) => {
                let mut entries: Vec<(String, String)> = Vec::new();
                std::mem::swap(&mut entries, &mut self.entries);
                entries.set(i, (key, value));
                let ghost new_e = entries@;
                proof {
                    assert forall|a: int, b: int| 0 <= a < new_e.len() && 0 <= b < new_e.len() && a != b
                        implies new_e[a].0@ != new_e[b].0@ by {
                        assert(old_e[a].0@ != old_e[b].0@);
                    }
                    lemma_map_update(old_e, new_e, i as int);
                }
                self.entries = entries;
            }
            None => {
                let mut entries: Vec<(String, String)> = Vec::new();
                std::mem::swap(&mut entries, &mut self.entries);
                entries.push((key, value));
                let ghost new_e = entries@;
                proof {
                    assert forall|a: int, b: int| 0 <= a < new_e.len() && 0 <= b < new_e.len() && a != b
                        implies new_e[a].0@ != new_e[b].0@ by {
                        if a < old_e.len() && b < old_e.len() {
                            assert(old_e[a].0@ != old_e[b].0@);
                        } else if a == old_e.len() {
                            assert(!has_key_at(old_e, new_e[a].0@));
                            assert(new_e[b] == old_e[b]);
                        } else {
                            assert(!has_key_at(old_e, new_e[b].0@));
                            assert(new_e[a] == old_e[a]);
                        }
                    }
                    lemma_map_push(old_e, new_e);
                }
                self.entries = entries;
            }
        }
    }

    /// A copy with the same keys and values.
    pub fn duplicate(&self) -> (m: Metadata)
        ensures
            m@ == self@,
    {
        let v = self.to_pairs();
        Metadata { entries: v }
    }

    /// Copies of the key/value pairs, each key once.
    pub fn to_pairs(&self) -> (v: Vec<(String, String)>)
        ensures
            keys_distinct(v@),
            entries_map(v@) == self@,
            v@.len() == self@.dom().len(),
    {
        proof {
            use_type_invariant(self);
            lemma_len(self.entries@);
        }
        let mut v: Vec<(String, String)> = Vec::new();
        let mut i: usize = 0;
        while i < self.entries.len()
            invariant
                0 <= i <= self.entries@.len(),
                v@.len() == i,
                forall|j: int| 0 <= j < i ==> v@[j].0@ == self.entries@[j].0@ && v@[j].1@ == self.entries@[j].1@,
            decreases self.entries@.len() - i,
        {
            let k = owned(self.entries[i].0.as_str());
            let val = owned(self.entries[i].1.as_str());
            v.push((k, val));
            i += 1;
        }
        proof {
            let e = self.entries@;
            assert forall|a: int, b: int| 0 <= a < v@.len() && 0 <= b < v@.len() && a != b
                implies v@[a].0@ != v@[b].0@ by {
                assert(e[a].0@ != e[b].0@);
            }
            assert forall|k: Seq<char>| has_key_at(v@, k) <==> has_key_at(e, k) by {
                if has_key_at(v@, k) {
                    let j = choose|j: int| 0 <= j < v@.len() && v@[j].0@ == k;
                    assert(e[j].0@ == k);
                }
                if has_key_at(e, k) {
                    let j = choose|j: int| 0 <= j < e.len() && e[j].0@ == k;
                    assert(v@[j].0@ == k);
                }
            }
            assert forall|k: Seq<char>| #[trigger] entries_map(v@).contains_key(k) implies entries_map(v@)[k] == entries_map(e)[k] by {
                let j = choose|j: int| 0 <= j < v@.len() && v@[j].0@ == k;
                lemma_entry_value(v@, j);
                lemma_entry_value(e, j);
            }
            assert(entries_map(v@) =~= entries_map(e));
        }
        v
    }
}

/// The map built by inserting, pair by pair, each key with `f` of its value where `f` gives one.
pub open spec fn fold_pairs(p: Seq<(String, String)>, f: spec_fn(Seq<char>) -> Option<Seq<char>>) -> Map<Seq<char>, Seq<char>>
    decreases p.len(),
{
    if p.len() == 0 {
        Map::empty()
    } else {
        let m = fold_pairs(p.drop_last(), f);
        match f(p.last().1@) {
            Some(x) => m.insert(p.last().0@, x),
            None => m,
        }
    }
}

/// The keys of `m` whose values `f` maps, with the mapped values.
pub open spec fn mapped(m: Map<Seq<char>, Seq<char>>, f: spec_fn(Seq<char>) -> Option<Seq<char>>) -> Map<Seq<char>, Seq<char>> {
    Map::new(|k: Seq<char>| m.contains_key(k) && f(m[k]) is Some, |k: Seq<char>| f(m[k])->0)
}

pub proof fn lemma_fold_pairs(p: Seq<(String, String)>, f: spec_fn(Seq<char>) -> Option<Seq<char>>)
    requires
        keys_distinct(p),
    ensures
        fold_pairs(p, f) == mapped(entries_map(p), f),
    decreases p.len(),
{
    if p.len() == 0 {
        assert(entries_map(p) =~= Map::empty());
        assert(mapped(entries_map(p), f) =~= Map::empty());
    } else {
        let q = p.drop_last();
        assert(keys_distinct(q));
        lemma_fold_pairs(q, f);
        lemma_map_push(q, p);
        let k = p.last().0@;
        assert(!entries_map(q).contains_key(k)) by {
            if has_key_at(q, k) {
                let j = choose|j: int| 0 <= j < q.len() && q[j].0@ == k;
                assert(p[j].0@ == p[p.len() - 1].0@);
            }
        }
        assert(fold_pairs(p, f) =~= mapped(entries_map(p), f));
    }
}

proof fn lemma_map_update(old_e: Seq<(String, String)>, new_e: Seq<(String, String)>, i: int)
    requires
        keys_distinct(old_e),
        keys_distinct(new_e),
        0 <= i < old_e.len(),
        new_e.len() == old_e.len(),
        new_e[i].0@ == old_e[i].0@,
        forall|j: int| 0 <= j < old_e.len() && j != i ==> new_e[j] == old_e[j],
    ensures
        entries_map(new_e) == entries_map(old_e).insert(new_e[i].0@, new_e[i].1@),
{
    let k = new_e[i].0@;
    let m0 = entries_map(old_e);
    let m1 = entries_map(new_e);
    assert forall|x: Seq<char>| has_key_at(new_e, x) <==> has_key_at(old_e, x) by {
        if has_key_at(new_e, x) {
            let j = choose|j: int| 0 <= j < new_e.len() && new_e[j].0@ == x;
            if j == i { assert(old_e[i].0@ == x); } else { assert(old_e[j].0@ == x); }
        }
        if has_key_at(old_e, x) {
            let j = choose|j: int| 0 <= j < old_e.len() && old_e[j].0@ == x;
            if j == i { assert(new_e[i].0@ == x); } else { assert(new_e[j].0@ == x); }
        }
    }
    lemma_entry_value(old_e, i);
    assert forall|x: Seq<char>| #[trigger] m1.contains_key(x) implies m1[x] == m0.insert(k, new_e[i].1@)[x] by {
        let j = choose|j: int| 0 <= j < new_e.len() && new_e[j].0@ == x;
        lemma_entry_value(new_e, j);
        if j != i {
            lemma_entry_value(old_e, j);
        }
    }
    assert(m1 =~= m0.insert(k, new_e[i].1@));
}

proof fn lemma_map_push(old_e: Seq<(String, String)>, new_e: Seq<(String, String)>)
    requires
        keys_distinct(old_e),
        keys_distinct(new_e),
        new_e.len() == old_e.len() + 1,
        forall|j: int| 0 <= j < old_e.len() ==> new_e[j] == old_e[j],
    ensures
        entries_map(new_e) == entries_map(old_e).insert(new_e.last().0@, new_e.last().1@),
{
    let n = old_e.len() as int;
    let k = new_e[n].0@;
    let m0 = entries_map(old_e);
    let m1 = entries_map(new_e);
    assert forall|x: Seq<char>| has_key_at(new_e, x) <==> (has_key_at(old_e, x) || x == k) by {
        if has_key_at(new_e, x) {
            let j = choose|j: int| 0 <= j < new_e.len() && new_e[j].0@ == x;
            if j < n { assert(old_e[j].0@ == x); }
        }
        if has_key_at(old_e, x) {
            let j = choose|j: int| 0 <= j < old_e.len() && old_e[j].0@ == x;
            assert(new_e[j].0@ == x);
        }
        if x == k { assert(new_e[n].0@ == x); }
    }
    assert forall|x: Seq<char>| #[trigger] m1.contains_key(x) implies m1[x] == m0.insert(k, new_e[n].1@)[x] by {
        let j = choose|j: int| 0 <= j < new_e.len() && new_e[j].0@ == x;
        lemma_entry_value(new_e, j);
        if j < n {
            lemma_entry_value(old_e, j);
        }
    }
    assert(m1 =~= m0.insert(k, new_e[n].1@));
}

proof fn lemma_dom_finite(e: Seq<(String, String)>)
    ensures
        Set::new(|k: Seq<char>| has_key_at(e, k)).finite(),
    decreases e.len(),
{
    let s = Set::new(|k: Seq<char>| has_key_at(e, k));
    if e.len() == 0 {
        assert(s =~= Set::empty());
    } else {
        let p = e.drop_last();
        lemma_dom_finite(p);
        let sp = Set::new(|k: Seq<char>| has_key_at(p, k));
        assert forall|k: Seq<char>| s.contains(k) <==> sp.insert(e.last().0@).contains(k) by {
            if s.contains(k) {
                let j = choose|j: int| 0 <= j < e.len() && e[j].0@ == k;
                if j < p.len() { assert(p[j].0@ == k); }
            }
            if sp.contains(k) {
                let j = choose|j: int| 0 <= j < p.len() && p[j].0@ == k;
                assert(e[j].0@ == k);
            }
        }
        assert(s =~= sp.insert(e.last().0@));
    }
}

proof fn lemma_len(e: Seq<(String, String)>)
    requires
        keys_distinct(e),
    ensures
        entries_map(e).dom().len() == e.len(),
        entries_map(e).dom().finite(),
    decreases e.len(),
{
    let s = entries_map(e).dom();
    assert(s =~= Set::new(|k: Seq<char>| has_key_at(e, k)));
    lemma_dom_finite(e);
    if e.len() > 0 {
        let p = e.drop_last();
        assert(keys_distinct(p));
        lemma_len(p);
        let sp = entries_map(p).dom();
        assert forall|k: Seq<char>| s.contains(k) <==> sp.insert(e.last().0@).contains(k) by {
            if s.contains(k) {
                let j = choose|j: int| 0 <= j < e.len() && e[j].0@ == k;
                if j < p.len() { assert(p[j].0@ == k); }
            }
            if sp.contains(k) {
                let j = choose|j: int| 0 <= j < p.len() && p[j].0@ == k;
                assert(e[j].0@ == k);
            }
        }
        assert(s =~= sp.insert(e.last().0@));
        if sp.contains(e.last().0@) {
            let j = choose|j: int| 0 <= j < p.len() && p[j].0@ == e.last().0@;
            assert(e[j].0@ == e[e.len() - 1].0@);
        }
    } else {
        assert(s =~= Set::empty());
    }
}

/// The keys in ascending code-point order, each once.
pub open spec fn ascending_keys(ks: Seq<Seq<char>>, m: Map<Seq<char>, Seq<char>>) -> bool {
    &&& forall|i: int, j: int| 0 <= i < j < ks.len() ==> crate::text::text_lt(#[trigger] ks[i], #[trigger] ks[j])
    &&& forall|i: int| 0 <= i < ks.len() ==> m.contains_key(#[trigger] ks[i])
    &&& forall|k: Seq<char>| #[trigger] m.contains_key(k) ==> exists|i: int| 0 <= i < ks.len() && ks[i] == k
}

/// The views of strings.
pub open spec fn key_views(v: Seq<String>) -> Seq<Seq<char>> {
    v.map_values(|k: String| k@)
}

/// Strictly ascending texts.
pub open spec fn strictly_ascending(ks: Seq<Seq<char>>) -> bool {
    forall|i: int, j: int| 0 <= i < j < ks.len() ==> crate::text::text_lt(#[trigger] ks[i], #[trigger] ks[j])
}

/// Puts `key`, which it does not hold yet, into an ascending list of keys.
fn insert_ascending(ks: &mut Vec<String>, key: String)
    requires
        strictly_ascending(key_views(old(ks)@)),
        !key_views(old(ks)@).contains(key@),
    ensures
        strictly_ascending(key_views(final(ks)@)),
        forall|k: Seq<char>| key_views(final(ks)@).contains(k) <==> (key_views(old(ks)@).contains(k) || k == key@),
{
    let ghost old_v = key_views(ks@);
    let mut j: usize = 0;
    while j < ks.len() && crate::text::text_less(ks[j].as_str(), key.as_str())
        invariant
            0 <= j <= ks@.len(),
            key_views(ks@) == old_v,
            forall|a: int| 0 <= a < j ==> crate::text::text_lt(#[trigger] old_v[a], key@),
        decreases ks@.len() - j,
    {
        j += 1;
    }
    let ghost kv = key@;
    proof {
        if j < old_v.len() {
            assert(old_v[j as int] != kv) by {
                if old_v[j as int] == kv {
                    assert(old_v.contains(kv));
                }
            }
            crate::text::lemma_text_lt_total(old_v[j as int], kv);
        }
    }
    ks.insert(j, key);
    proof {
        let nv = key_views(ks@);
        assert(nv =~= old_v.insert(j as int, kv));
        assert forall|a: int, b: int| 0 <= a < b < nv.len() implies crate::text::text_lt(#[trigger] nv[a], #[trigger] nv[b]) by {
            if b < j {
            } else if b == j {
            } else if a < j {
                assert(nv[b] == old_v[b - 1]);
            } else if a == j {
                assert(nv[b] == old_v[b - 1]);
                if b - 1 > j {
                    crate::text::lemma_text_lt_trans(kv, old_v[j as int], old_v[b - 1]);
                }
            } else {
                assert(nv[a] == old_v[a - 1] && nv[b] == old_v[b - 1]);
            }
        }
        assert forall|k: Seq<char>| nv.contains(k) <==> (old_v.contains(k) || k == kv) by {
            if nv.contains(k) {
                let a = choose|a: int| 0 <= a < nv.len() && nv[a] == k;
                if a < j {
                    assert(old_v[a] == k);
                } else if a > j {
                    assert(old_v[a - 1] == k);
                }
            }
            if old_v.contains(k) {
                let a = choose|a: int| 0 <= a < old_v.len() && old_v[a] == k;
                if a < j {
                    assert(nv[a] == k);
                } else {
                    assert(nv[a + 1] == k);
                }
            }
            if k == kv {
                assert(nv[j as int] == k);
            }
        }
    }
}

impl Metadata {
    /// The keys in ascending order, each once, as a `BTreeMap` walks them.
    pub fn sorted_keys(&self) -> (ks: Vec<String>)
        ensures
            strictly_ascending(key_views(ks@)),
            forall|k: Seq<char>| key_views(ks@).contains(k) <==> self@.contains_key(k),
    {
        let pairs = self.to_pairs();
        let ghost m = self@;
        let mut ks: Vec<String> = Vec::new();
        let mut i: usize = 0;
        proof {
            assert(key_views(ks@) =~= Seq::<Seq<char>>::empty());
        }
        while i < pairs.len()
            invariant
                0 <= i <= pairs@.len(),
                keys_distinct(pairs@),
                entries_map(pairs@) == m,
                strictly_ascending(key_views(ks@)),
                forall|k: Seq<char>| key_views(ks@).contains(k) <==> exists|t: int| 0 <= t < i && (#[trigger] pairs@[t]).0@ == k,
            decreases pairs@.len() - i,
        {
            let key = pairs[i].0.clone();
            proof {
                if key_views(ks@).contains(key@) {
                    let t = choose|t: int| 0 <= t < i && (#[trigger] pairs@[t]).0@ == key@;
                    assert(pairs@[i as int].0@ == key@);
                }
            }
            let ghost before = key_views(ks@);
            insert_ascending(&mut ks, key);
            proof {
                assert forall|k: Seq<char>| key_views(ks@).contains(k) <==> exists|t: int| 0 <= t < i + 1 && (#[trigger] pairs@[t]).0@ == k by {
                    if exists|t: int| 0 <= t < i + 1 && (#[trigger] pairs@[t]).0@ == k {
                        let t = choose|t: int| 0 <= t < i + 1 && (#[trigger] pairs@[t]).0@ == k;
                        if t < i {
                            assert(before.contains(k));
                        }
                    }
                }
            }
            i += 1;
        }
        proof {
            assert forall|k: Seq<char>| key_views(ks@).contains(k) <==> m.contains_key(k) by {
                if m.contains_key(k) {
                    assert(has_key_at(pairs@, k));
                    let t = choose|t: int| 0 <= t < pairs@.len() && pairs@[t].0@ == k;
                    assert(pairs@[t].0@ == k);
                }
            }
        }
        ks
    }
}

} // verus!
