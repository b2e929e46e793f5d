//! The forensic timeline: records from every source put in chronological order before
//! analysis (NIST AU-11), records of the same instant keeping their order of arrival.

use vstd::prelude::*;
use crate::models::LogRecord;
use crate::time::{Timestamp, ts_nanos};

verus! {

/// `s` with `r` put after every record no later than it and before every later record that
/// follows those; for a chronological `s`, the stable place of `r`.
pub open spec fn place(s: Seq<LogRecord>, r: LogRecord) -> Seq<LogRecord>
    decreases s.len(),
{
    if s.len() == 0 {
        seq![r]
    } else if ts_nanos(s.last().timestamp) > ts_nanos(r.timestamp) {
        place(s.drop_last(), r).push(s.last())
    } else {
        s.push(r)
    }
}

/// The records in chronological order, records of one instant in their original order: what a
/// stable sort by timestamp gives.
pub open spec fn chronological(s: Seq<LogRecord>) -> Seq<LogRecord>
    decreases s.len(),
{
    if s.len() == 0 {
        Seq::empty()
    } else {
        place(chronological(s.drop_last()), s.last())
    }
}

/// No record is earlier than the one before it.
pub open spec fn in_time_order(s: Seq<LogRecord>) -> bool {
    forall|i: int, j: int| 0 <= i < j < s.len() ==> ts_nanos(#[trigger] s[i].timestamp) <= ts_nanos(#[trigger] s[j].timestamp)
}

fn nanos_of(t: &Timestamp) -> (n: i128)
    ensures
        n == ts_nanos(*t),
{
    let s = t.secs as i128;
    assert(-10_000_000_000_000_000_000i128 <= s <= 10_000_000_000_000_000_000i128);
    assert(-10_000_000_000_000_000_000_000_000_000i128 <= s * 1_000_000_000 <= 10_000_000_000_000_000_000_000_000_000i128) by (nonlinear_arith)
        requires -10_000_000_000_000_000_000i128 <= s <= 10_000_000_000_000_000_000i128;
    s * 1_000_000_000 + t.nanos as i128
}

fn later(a: &Timestamp, b: &Timestamp) -> (r: bool)
    ensures
        r == (ts_nanos(*a) > ts_nanos(*b)),
{
    nanos_of(a) > nanos_of(b)
}

proof fn lemma_place_len(s: Seq<LogRecord>, r: LogRecord)
    ensures
        place(s, r).len() == s.len() + 1,
    decreases s.len(),
{
    if s.len() > 0 && ts_nanos(s.last().timestamp) > ts_nanos(r.timestamp) {
        lemma_place_len(s.drop_last(), r);
    }
}

proof fn lemma_chronological_len(s: Seq<LogRecord>)
    ensures
        chronological(s).len() == s.len(),
    decreases s.len(),
{
    if s.len() > 0 {
        lemma_chronological_len(s.drop_last());
        lemma_place_len(chronological(s.drop_last()), s.last());
    }
}

/// Puts `r` in its place in `v`.
fn insert_in_place(v: &mut Vec<LogRecord>, r: LogRecord)
    ensures
        final(v)@ == place(old(v)@, r),
{
    let ghost s0 = v@;
    let mut j: usize = v.len();
    assert(s0.subrange(0, j as int) =~= s0);
    assert(s0.subrange(j as int, s0.len() as int) =~= Seq::<LogRecord>::empty());
    assert(place(s0, r) =~= place(s0.subrange(0, j as int), r) + s0.subrange(j as int, s0.len() as int));
    while j > 0 && later(&v[j - 1].timestamp, &r.timestamp)
        invariant
            0 <= j <= s0.len(),
            v@ == s0,
            place(s0, r) == place(s0.subrange(0, j as int), r) + s0.subrange(j as int, s0.len() as int),
            forall|k: int| j <= k < s0.len() ==> ts_nanos(#[trigger] s0[k].timestamp) > ts_nanos(r.timestamp),
        decreases j,
    {
        proof {
            let pre = s0.subrange(0, j as int);
            assert(pre.drop_last() =~= s0.subrange(0, j - 1));
            assert(pre.last() == s0[j - 1]);
            assert(s0.subrange(j - 1, s0.len() as int) =~= seq![s0[j - 1]] + s0.subrange(j as int, s0.len() as int));
            assert(place(pre, r) == place(s0.subrange(0, j - 1), r).push(s0[j - 1]));
            assert(place(s0.subrange(0, j - 1), r).push(s0[j - 1]) + s0.subrange(j as int, s0.len() as int)
                =~= place(s0.subrange(0, j - 1), r) + s0.subrange(j - 1, s0.len() as int));
        }
        j -= 1;
    }
    proof {
        let pre = s0.subrange(0, j as int);
        if j > 0 {
            assert(pre.last() == s0[j - 1]);
        }
        assert(place(pre, r) == pre.push(r));
        assert(s0.subrange(0, j as int).push(r) + s0.subrange(j as int, s0.len() as int) =~= s0.insert(j as int, r));
    }
    v.insert(j, r);
}

/// The records in chronological order, records of one instant keeping their order (a stable
/// sort by timestamp).
pub fn sort_chronologically(records: Vec<LogRecord>) -> (sorted: Vec<LogRecord>)
    ensures
        sorted@ == chronological(records@),
{
    let ghost s0 = records@;
    let mut rest = records;
    let mut sorted: Vec<LogRecord> = Vec::new();
    let mut k: usize = 0;
    let n = rest.len();
    while rest.len() > 0
        invariant
            s0.len() == n,
            k + rest@.len() == n,
            rest@ == s0.subrange(k as int, n as int),
            sorted@ == chronological(s0.subrange(0, k as int)),
        decreases rest@.len(),
    {
        let r = rest.remove(0);
        proof {
            let pre = s0.subrange(0, k + 1);
            assert(pre.drop_last() =~= s0.subrange(0, k as int));
            assert(pre.last() == r);
        }
        insert_in_place(&mut sorted, r);
        k += 1;
    }
    proof {
        assert(s0.subrange(0, n as int) =~= s0);
    }
    sorted
}

proof fn lemma_place_sorted(s: Seq<LogRecord>, r: LogRecord)
    requires
        in_time_order(s),
    ensures
        in_time_order(place(s, r)),
        place(s, r).to_multiset() == s.to_multiset().insert(r),
    decreases s.len(),
{
    broadcast use vstd::seq_lib::group_to_multiset_ensures;
    if s.len() == 0 {
        assert(place(s, r) =~= seq![r]);
        assert(seq![r] =~= Seq::<LogRecord>::empty().push(r));
    } else if ts_nanos(s.last().timestamp) > ts_nanos(r.timestamp) {
        let t = s.drop_last();
        assert(in_time_order(t));
        lemma_place_sorted(t, r);
        lemma_place_len(t, r);
        let p = place(t, r);
        assert forall|i: int, j: int| 0 <= i < j < p.push(s.last()).len() implies
            ts_nanos(#[trigger] p.push(s.last())[i].timestamp) <= ts_nanos(#[trigger] p.push(s.last())[j].timestamp) by {
            if j == p.len() {
                lemma_place_member_bound(t, r, s.last(), i);
            }
        }
        assert(s =~= t.push(s.last()));
    }
}

proof fn lemma_place_member_bound(t: Seq<LogRecord>, r: LogRecord, top: LogRecord, i: int)
    requires
        in_time_order(t.push(top)),
        ts_nanos(top.timestamp) > ts_nanos(r.timestamp),
        0 <= i < place(t, r).len(),
    ensures
        ts_nanos(place(t, r)[i].timestamp) <= ts_nanos(top.timestamp),
    decreases t.len(),
{
    lemma_place_len(t, r);
    if t.len() == 0 {
    } else if ts_nanos(t.last().timestamp) > ts_nanos(r.timestamp) {
        let u = t.drop_last();
        lemma_place_len(u, r);
        assert(t.push(top)[t.len() - 1] == t.last());
        assert(t.push(top)[t.len() as int] == top);
        if i < place(u, r).len() {
            assert(in_time_order(u.push(t.last()))) by {
                assert forall|a: int, b: int| 0 <= a < b < u.push(t.last()).len() implies
                    ts_nanos(#[trigger] u.push(t.last())[a].timestamp) <= ts_nanos(#[trigger] u.push(t.last())[b].timestamp) by {
                    assert(u.push(t.last())[a] == t.push(top)[a]);
                    assert(u.push(t.last())[b] == t.push(top)[b]);
                }
            }
            lemma_place_member_bound(u, r, t.last(), i);
        }
    } else {
        if i < t.len() {
            assert(t.push(top)[i] == t[i]);
            assert(t.push(top)[t.len() as int] == top);
        }
    }
}

/// The timeline is in time order and holds exactly the records it was given.
pub proof fn law_timeline_sorted_permutation(s: Seq<LogRecord>)
    ensures
        in_time_order(chronological(s)),
        chronological(s).to_multiset() == s.to_multiset(),
    decreases s.len(),
{
    broadcast use vstd::seq_lib::group_to_multiset_ensures;
    if s.len() == 0 {
        assert(chronological(s) =~= Seq::<LogRecord>::empty());
    } else {
        law_timeline_sorted_permutation(s.drop_last());
        lemma_place_sorted(chronological(s.drop_last()), s.last());
        assert(s =~= s.drop_last().push(s.last()));
    }
}

} // verus!
