//! The concurrent maps the detection engine keeps its state in (`dashmap::DashMap`).

use vstd::prelude::*;
use dashmap::DashMap;
use crate::time::Timestamp;
use crate::text::opt_view;

verus! {

#[verifier::external_type_specification]
#[verifier::external_body]
#[verifier::reject_recursive_types(K)]
#[verifier::reject_recursive_types(V)]
#[verifier::reject_recursive_types(S)]
pub struct ExDashMap<K, V, S>(DashMap<K, V, S>);

/// The stage of a WMI persistence chain an event established.
#[derive(Debug, Clone, Copy, PartialEq, Eq, Structural)]
pub enum WmiState {
    Filter,
    Consumer,
}

/// What the engine remembers of a process: its image, its parent and its GUID.
#[derive(Debug, Clone)]
pub struct ProcEntry {
    pub image: String,
    pub parent: Option<u32>,
    pub guid: Option<String>,
}

pub open spec fn proc_view(p: ProcEntry) -> (Seq<char>, Option<u32>, Option<Seq<char>>) {
    (p.image@, p.parent, opt_view(p.guid))
}

/// Contents of the WMI correlation buffer.
pub uninterp spec fn wmi_contents(m: DashMap<String, WmiState>) -> Map<Seq<char>, WmiState>;

/// Contents of the signal counters: key to (count, start of the counting window).
pub uninterp spec fn signal_contents(m: DashMap<String, (u64, Timestamp)>) -> Map<Seq<char>, (u64, Timestamp)>;

/// Contents of the process tree: process id to entry.
pub uninterp spec fn tree_contents(m: DashMap<u32, ProcEntry>) -> Map<u32, (Seq<char>, Option<u32>, Option<Seq<char>>)>;

/// `DashMap::new` for the WMI buffer: empty.
#[verifier::external_body]
pub fn wmi_new() -> (m: DashMap<String, WmiState>)
    ensures
        forall|k: Seq<char>| !wmi_contents(m).contains_key(k),
{
    DashMap::new()
}

/// `DashMap::insert` on the WMI buffer: sets the key.
#[verifier::external_body]
pub fn wmi_insert(m: &mut DashMap<String, WmiState>, k: String, v: WmiState)
    ensures
        wmi_contents(*final(m)) == wmi_contents(*old(m)).insert(k@, v),
{
    m.insert(k, v);
}

/// `DashMap::contains_key` on the WMI buffer.
#[verifier::external_body]
pub fn wmi_contains(m: &DashMap<String, WmiState>, k: &str) -> (b: bool)
    ensures
        b == wmi_contents(*m).contains_key(k@),
{
    m.contains_key(k)
}

/// `DashMap::new` for the signal counters: empty.
#[verifier::external_body]
pub fn signals_new() -> (m: DashMap<String, (u64, Timestamp)>)
    ensures
        forall|k: Seq<char>| !signal_contents(m).contains_key(k),
{
    DashMap::new()
}

/// `DashMap::get` on the signal counters: a copy of the value.
#[verifier::external_body]
pub fn signals_get(m: &DashMap<String, (u64, Timestamp)>, k: &str) -> (r: Option<(u64, Timestamp)>)
    ensures
        r matches Some(v) ==> signal_contents(*m).contains_key(k@) && signal_contents(*m)[k@] == v,
        r is None ==> !signal_contents(*m).contains_key(k@),
{
    m.get(k).map(|e| *e.value())
}

/// `DashMap::insert` on the signal counters: sets the key.
#[verifier::external_body]
pub fn signals_insert(m: &mut DashMap<String, (u64, Timestamp)>, k: String, v: (u64, Timestamp))
    ensures
        signal_contents(*final(m)) == signal_contents(*old(m)).insert(k@, v),
{
    m.insert(k, v);
}

/// `DashMap::new` for the process tree: empty.
#[verifier::external_body]
pub fn tree_new() -> (m: DashMap<u32, ProcEntry>)
    ensures
        forall|k: u32| !tree_contents(m).contains_key(k),
{
    DashMap::new()
}

/// `DashMap::get` on the process tree: a copy of the entry.
#[verifier::external_body]
pub fn tree_get(m: &DashMap<u32, ProcEntry>, k: u32) -> (r: Option<ProcEntry>)
    ensures
        r matches Some(v) ==> tree_contents(*m).contains_key(k) && tree_contents(*m)[k] == proc_view(v),
        r is None ==> !tree_contents(*m).contains_key(k),
{
    m.get(&k).map(|e| e.value().clone())
}

/// `DashMap::insert` on the process tree: sets the key.
#[verifier::external_body]
pub fn tree_insert(m: &mut DashMap<u32, ProcEntry>, k: u32, v: ProcEntry)
    ensures
        tree_contents(*final(m)) == tree_contents(*old(m)).insert(k, proc_view(v)),
{
    m.insert(k, v);
}

/// `DashMap::len` on the process tree: the number of entries.
#[verifier::external_body]
pub fn tree_len(m: &DashMap<u32, ProcEntry>) -> (n: usize)
    ensures
        n == tree_contents(*m).dom().len(),
{
    m.len()
}

/// `DashMap::clear` on the process tree: empties it.
#[verifier::external_body]
pub fn tree_clear(m: &mut DashMap<u32, ProcEntry>)
    ensures
        forall|k: u32| !tree_contents(*final(m)).contains_key(k),
{
    m.clear();
}

} // verus!
