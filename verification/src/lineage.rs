//! Process lineage: a graph of process creations, fused across log sources, and the
//! parent-child relationships in it that betray an attack.

use vstd::prelude::*;
use std::collections::HashMap;
use petgraph::graph::{EdgeIndex, Graph, NodeIndex};
use petgraph::Directed;
use crate::metadata::{Metadata, lookup, or_empty};
use crate::models::{LogRecord, ParsingQuality, SeverityLevel, record_defaults, sev_name};
use crate::num::u64_to_string;
use crate::text::{append, clone_opt, decimal, lowercase, opt_view, owned, seq_contains, seq_ends_with, str_contains, str_ends_with,
    str_eq, to_lowercase, to_uppercase, uppercase};
use crate::time::{Timestamp, millis_between, ms_between, now};

verus! {

/// A process seen being created.
#[derive(Debug)]
pub struct ProcessNode {
    pub pid: u32,
    pub image: String,
    pub command_line: Option<String>,
    pub timestamp: Timestamp,
    pub log_source: Option<String>,
    /// File hashes, where the source reports them.
    pub hashes: Option<String>,
}

/// A suspicious parent-child relationship.
#[derive(Debug)]
pub struct LineageAnomaly {
    pub parent_pid: u32,
    pub parent_image: String,
    pub child_pid: u32,
    pub child_image: String,
    pub child_cmd: Option<String>,
    pub timestamp: Timestamp,
    pub severity: SeverityLevel,
    pub description: String,
}

#[verifier::external_type_specification]
#[verifier::external_body]
#[verifier::reject_recursive_types(N)]
#[verifier::reject_recursive_types(E)]
#[verifier::reject_recursive_types(Ty)]
#[verifier::reject_recursive_types(Ix)]
pub struct ExGraph<N, E, Ty, Ix>(petgraph::graph::Graph<N, E, Ty, Ix>);

#[verifier::external_type_specification]
#[verifier::external_body]
pub struct ExDirected(petgraph::Directed);

/// The process nodes of a lineage graph, by index.
pub uninterp spec fn graph_nodes(g: Graph<ProcessNode, (), Directed, u32>) -> Seq<ProcessNode>;

/// The edges of a lineage graph, parent index then child index, in the order they were added.
pub uninterp spec fn graph_edges(g: Graph<ProcessNode, (), Directed, u32>) -> Seq<(usize, usize)>;

/// `Graph::new`: a directed graph with no node and no edge.
#[verifier::external_body]
fn graph_new() -> (g: Graph<ProcessNode, (), Directed, u32>)
    ensures
        graph_nodes(g) == Seq::<ProcessNode>::empty(),
        graph_edges(g) == Seq::<(usize, usize)>::empty(),
{
    Graph::new()
}

/// `Graph::add_node`: appends the node and returns its index, the former node count. It panics
/// when the count reaches `u32::MAX`, which `requires` rules out.
#[verifier::external_body]
fn graph_add_node(g: &mut Graph<ProcessNode, (), Directed, u32>, n: ProcessNode) -> (i: usize)
    requires
        graph_nodes(*old(g)).len() < u32::MAX,
    ensures
        i == graph_nodes(*old(g)).len(),
        graph_nodes(*final(g)) == graph_nodes(*old(g)).push(n),
        graph_edges(*final(g)) == graph_edges(*old(g)),
{
    g.add_node(n).index()
}

/// `Graph::add_edge` from node `a` to node `b` (with no weight): appends the edge. It panics for a
/// node that does not exist, or when the edge count reaches `u32::MAX`, which `requires` rules out.
#[verifier::external_body]
fn graph_add_edge(g: &mut Graph<ProcessNode, (), Directed, u32>, a: usize, b: usize)
    requires
        a < graph_nodes(*old(g)).len(),
        b < graph_nodes(*old(g)).len(),
        graph_edges(*old(g)).len() < u32::MAX,
    ensures
        graph_nodes(*final(g)) == graph_nodes(*old(g)),
        graph_edges(*final(g)) == graph_edges(*old(g)).push((a, b)),
{
    g.add_edge(NodeIndex::new(a), NodeIndex::new(b), ());
}

/// `&graph[i]`: the node at index `i`, which must exist.
#[verifier::external_body]
fn graph_node(g: &Graph<ProcessNode, (), Directed, u32>, i: usize) -> (n: &ProcessNode)
    requires
        i < graph_nodes(*g).len(),
    ensures
        *n == graph_nodes(*g)[i as int],
{
    &g[NodeIndex::new(i)]
}

/// `graph[i] = n` (through `Graph::node_weight_mut`): replaces the node at index `i`, which must
/// exist.
#[verifier::external_body]
fn graph_set_node(g: &mut Graph<ProcessNode, (), Directed, u32>, i: usize, n: ProcessNode)
    requires
        i < graph_nodes(*old(g)).len(),
    ensures
        graph_nodes(*final(g)) == graph_nodes(*old(g)).update(i as int, n),
        graph_edges(*final(g)) == graph_edges(*old(g)),
{
    g[NodeIndex::new(i)] = n;
}

/// `Graph::edge_count`.
#[verifier::external_body]
fn graph_edge_count(g: &Graph<ProcessNode, (), Directed, u32>) -> (n: usize)
    ensures
        n == graph_edges(*g).len(),
{
    g.edge_count()
}

/// `Graph::node_count`.
#[verifier::external_body]
fn graph_node_count(g: &Graph<ProcessNode, (), Directed, u32>) -> (n: usize)
    ensures
        n == graph_nodes(*g).len(),
{
    g.node_count()
}

/// `Graph::edge_endpoints`: the parent and child of edge `e`, if there is such an edge.
#[verifier::external_body]
fn graph_edge_endpoints(g: &Graph<ProcessNode, (), Directed, u32>, e: usize) -> (r: Option<(usize, usize)>)
    requires
        e <= u32::MAX,
    ensures
        e < graph_edges(*g).len() ==> r == Some(graph_edges(*g)[e as int]),
        e >= graph_edges(*g).len() ==> r is None,
{
    g.edge_endpoints(EdgeIndex::new(e)).map(|(a, b)| (a.index(), b.index()))
}

/// The state of a lineage graph: its nodes, its edges, the node each process id last named, the
/// number of fusions, and the fusion window in milliseconds.
pub struct LineageView {
    pub nodes: Seq<ProcessNode>,
    pub edges: Seq<(usize, usize)>,
    pub pids: Map<u32, usize>,
    pub correlations: u64,
    pub window_ms: i64,
}

/// The process tree reconstructed from process-creation events. Every process hangs under its
/// parent, a reconstructed placeholder for a parent seen only by name, or the virtual root of
/// pre-existing processes; creations of one process reported by several sources are fused.
pub struct LineageGraph {
    graph: Graph<ProcessNode, (), Directed, u32>,
    pid_map: HashMap<u32, usize>,
    orphan_root: usize,
    /// How many creation reports were fused into a process already in the graph.
    pub correlation_count: u64,
    fuzzy_match_window_ms: i64,
}

/// The virtual root: the parent of processes whose parent is unknown.
pub open spec fn orphan_root_node(n: ProcessNode) -> bool {
    &&& n.pid == 0
    &&& n.image@ == "Unknown/Pre-existing Parent"@
    &&& n.command_line is None && n.log_source is None && n.hashes is None
}

/// A well-formed lineage state: the root comes first, every edge joins two nodes, and every
/// process id names a node of that process.
pub open spec fn lineage_wf(v: LineageView) -> bool {
    &&& 1 <= v.nodes.len() <= u32::MAX && v.edges.len() <= u32::MAX
    &&& orphan_root_node(v.nodes[0])
    &&& forall|e: int| 0 <= e < v.edges.len() ==> (#[trigger] v.edges[e]).0 < v.nodes.len() && v.edges[e].1 < v.nodes.len()
    &&& forall|p: u32| #[trigger] v.pids.contains_key(p) ==> v.pids[p] < v.nodes.len() && v.nodes[v.pids[p] as int].pid == p
}

impl LineageGraph {
    /// The graph's state.
    pub closed spec fn view(&self) -> LineageView {
        LineageView {
            nodes: graph_nodes(self.graph),
            edges: graph_edges(self.graph),
            pids: self.pid_map@,
            correlations: self.correlation_count,
            window_ms: self.fuzzy_match_window_ms,
        }
    }

    /// The graph is well formed and its root is the first node.
    pub closed spec fn wf(&self) -> bool {
        &&& lineage_wf(self.view())
        &&& self.orphan_root == 0
    }

    /// A graph holding only the virtual root, with a fusion window of 500 ms.
    pub fn new() -> (g: LineageGraph)
        ensures
            g.wf(),
            g.view().nodes.len() == 1,
            g.view().edges.len() == 0,
            g.view().pids == Map::<u32, usize>::empty(),
            g.view().correlations == 0,
            g.view().window_ms == 500,
    {
        let mut graph = graph_new();
        let root = ProcessNode {
            pid: 0,
            image: owned("Unknown/Pre-existing Parent"),
            command_line: None,
            timestamp: now(),
            log_source: None,
            hashes: None,
        };
        let orphan_root = graph_add_node(&mut graph, root);
        LineageGraph {
            graph,
            pid_map: HashMap::new(),
            orphan_root,
            correlation_count: 0,
            fuzzy_match_window_ms: 500,
        }
    }

    /// Sets the window within which two reports of one process are fused.
    pub fn set_fuzzy_window(&mut self, window_ms: i64)
        requires
            old(self).wf(),
        ensures
            final(self).wf(),
            final(self).view() == (LineageView { window_ms, ..old(self).view() }),
    {
        self.fuzzy_match_window_ms = window_ms;
    }

    /// The number of nodes, the virtual root included.
    pub fn node_count(&self) -> (n: usize)
        ensures
            n == self.view().nodes.len(),
    {
        graph_node_count(&self.graph)
    }

    /// The number of parent-child edges.
    pub fn edge_count(&self) -> (n: usize)
        ensures
            n == self.view().edges.len(),
    {
        graph_edge_count(&self.graph)
    }
}

/// The process a record reports created, or 0 where it names none.
pub open spec fn created_pid(r: LogRecord) -> u32 {
    match r.process_id {
        Some(p) => p,
        None => 0,
    }
}

/// The parent a record names, or 0 where it names none.
pub open spec fn parent_pid(r: LogRecord) -> u32 {
    match r.parent_process_id {
        Some(p) => p,
        None => 0,
    }
}

/// The image a record reports, or "Unknown".
pub open spec fn image_text(r: LogRecord) -> Seq<char> {
    match r.image {
        Some(i) => i@,
        None => "Unknown"@,
    }
}

/// A process-creation event (Sysmon 1 or Security 4688) of a known process.
pub open spec fn is_creation(r: LogRecord) -> bool {
    let eid = or_empty(lookup(r.metadata@, "EventID"@));
    (eid == "1"@ || eid == "4688"@) && created_pid(r) != 0
}

/// One image path ends with the other, in any case.
pub open spec fn same_image(a: Seq<char>, b: Seq<char>) -> bool {
    seq_ends_with(lowercase(a), lowercase(b)) || seq_ends_with(lowercase(b), lowercase(a))
}

/// Absolute value.
pub open spec fn abs(x: int) -> int {
    if x < 0 { -x } else { x }
}

/// The record reports again a process already in the graph: same id, the same image, within the
/// fusion window of the node its id names.
pub open spec fn fuses(v: LineageView, r: LogRecord) -> bool {
    let pid = created_pid(r);
    v.pids.contains_key(pid) && {
        let ex = v.nodes[v.pids[pid] as int];
        abs(millis_between(r.timestamp, ex.timestamp)) <= v.window_ms && same_image(image_text(r), ex.image@)
    }
}

/// `n` is the node a record creates.
pub open spec fn created_node(n: ProcessNode, r: LogRecord) -> bool {
    &&& n.pid == created_pid(r)
    &&& n.image@ == image_text(r)
    &&& opt_view(n.command_line) == opt_view(r.command_line)
    &&& n.timestamp == r.timestamp
    &&& opt_view(n.log_source) == opt_view(r.log_source)
    &&& opt_view(n.hashes) == lookup(r.metadata@, "Hashes"@)
}

/// `n` is the placeholder for a parent `ppid` known only by its image, seen when its child was.
pub open spec fn placeholder_node(n: ProcessNode, ppid: u32, image: Seq<char>, at: Timestamp) -> bool {
    &&& n.pid == ppid
    &&& n.image@ == image
    &&& n.command_line is None
    &&& n.timestamp == at
    &&& opt_view(n.log_source) == Some("PRE-EXISTING (Reconstructed)"@)
    &&& n.hashes is None
}

/// The sources that reported a process, after one more report from `src`.
pub open spec fn merged_sources(known: Option<Seq<char>>, src: Option<Seq<char>>) -> Option<Seq<char>> {
    match src {
        Some(s) => match known {
            Some(k) => if seq_contains(k, s) { Some(k) } else { Some(k + ", "@ + s) },
            None => Some(s),
        },
        None => known,
    }
}

/// `n` is node `ex` enriched by another report `r` of the same process: what it lacked is taken
/// from the report, and the report's source is added to its sources.
pub open spec fn fused_node(ex: ProcessNode, n: ProcessNode, r: LogRecord) -> bool {
    &&& n.pid == ex.pid
    &&& n.image@ == ex.image@
    &&& n.timestamp == ex.timestamp
    &&& opt_view(n.command_line) == (if ex.command_line is None && r.command_line is Some {
        opt_view(r.command_line)
    } else {
        opt_view(ex.command_line)
    })
    &&& opt_view(n.hashes) == (if ex.hashes is None && lookup(r.metadata@, "Hashes"@) is Some {
        lookup(r.metadata@, "Hashes"@)
    } else {
        opt_view(ex.hashes)
    })
    &&& opt_view(n.log_source) == merged_sources(opt_view(ex.log_source), opt_view(r.log_source))
}

/// What recording `r` does to a lineage graph in state `v0`, giving `v1`: nothing for a record
/// that is not a process creation; a fusion into the node its process id names when it reports
/// that process again; otherwise a new node, the process id now naming it, under its parent's
/// node, a placeholder for a parent known only by name, or the virtual root.
pub open spec fn record_step(v0: LineageView, v1: LineageView, r: LogRecord) -> bool {
    let pid = created_pid(r);
    let ppid = parent_pid(r);
    let idx = v0.nodes.len() as usize;
    if !is_creation(r) {
        v1 == v0
    } else if fuses(v0, r) {
        let k = v0.pids[pid] as int;
        &&& v1.nodes.len() == v0.nodes.len()
        &&& forall|j: int| 0 <= j < v0.nodes.len() && j != k ==> #[trigger] v1.nodes[j] == v0.nodes[j]
        &&& fused_node(v0.nodes[k], v1.nodes[k], r)
        &&& v1.edges == v0.edges && v1.pids == v0.pids
        &&& v1.correlations == (if v0.correlations == u64::MAX { 0 } else { (v0.correlations + 1) as u64 })
        &&& v1.window_ms == v0.window_ms
    } else {
        &&& v1.nodes.len() > v0.nodes.len()
        &&& created_node(v1.nodes[idx as int], r)
        &&& v1.correlations == v0.correlations && v1.window_ms == v0.window_ms
        &&& if ppid != 0 && v0.pids.contains_key(ppid) {
            &&& v1.nodes == v0.nodes.push(v1.nodes[idx as int])
            &&& v1.edges == v0.edges.push((v0.pids[ppid], idx))
            &&& v1.pids == v0.pids.insert(pid, idx)
        } else if ppid != 0 && r.parent_process_name is Some {
            &&& v1.nodes == v0.nodes.push(v1.nodes[idx as int]).push(v1.nodes[idx + 1])
            &&& placeholder_node(v1.nodes[idx + 1], ppid, r.parent_process_name->0@, r.timestamp)
            &&& v1.edges == v0.edges.push(((idx + 1) as usize, idx))
            &&& v1.pids == v0.pids.insert(ppid, (idx + 1) as usize).insert(pid, idx)
        } else {
            &&& v1.nodes == v0.nodes.push(v1.nodes[idx as int])
            &&& v1.edges == v0.edges.push((0usize, idx))
            &&& v1.pids == v0.pids.insert(pid, idx)
        }
    }
}

fn merge_sources(known: &Option<String>, src: &Option<String>) -> (r: Option<String>)
    ensures
        opt_view(r) == merged_sources(opt_view(*known), opt_view(*src)),
{
    match src {
        Some(s) => match known {
            Some(k) => if str_contains(k.as_str(), s.as_str()) {
                Some(k.clone())
            } else {
                let mut m = k.clone();
                append(&mut m, ", ");
                append(&mut m, s.as_str());
                Some(m)
            },
            None => Some(s.clone()),
        },
        None => clone_opt(known),
    }
}

impl LineageGraph {
    /// Records a process-creation event. A report of a process already in the graph (same id,
    /// same image up to case and path, within the fusion window) enriches that node and counts a
    /// fusion; any other creation becomes a new node under its parent.
    pub fn add_record(&mut self, record: &LogRecord)
        requires
            old(self).wf(),
            old(self).view().nodes.len() + 2 <= u32::MAX,
            old(self).view().edges.len() < u32::MAX,
        ensures
            final(self).wf(),
            record_step(old(self).view(), final(self).view(), *record),
    {
        broadcast use vstd::std_specs::hash::group_hash_axioms;
        let event_id = record.metadata.get_or_empty("EventID");
        if !str_eq(event_id.as_str(), "1") && !str_eq(event_id.as_str(), "4688") {
            return;
        }
        let pid: u32 = match record.process_id {
            Some(p) => p,
            None => 0,
        };
        if pid == 0 {
            return;
        }
        let ppid: u32 = match record.parent_process_id {
            Some(p) => p,
            None => 0,
        };
        let image = match &record.image {
            Some(i) => i.clone(),
            None => owned("Unknown"),
        };
        let cmd = clone_opt(&record.command_line);
        let hashes = record.metadata.get_owned("Hashes");
        match self.pid_map.get(&pid) {
            Some(k) => {
                let k: usize = *k;
                let ex = graph_node(&self.graph, k);
                let diff = ms_between(&record.timestamp, &ex.timestamp);
                let time_diff: i128 = if diff < 0 { -diff } else { diff };
                let lower_image = to_lowercase(image.as_str());
                let lower_existing = to_lowercase(ex.image.as_str());
                let is_same_image = str_ends_with(lower_image.as_str(), lower_existing.as_str())
                    || str_ends_with(lower_existing.as_str(), lower_image.as_str());
                if time_diff <= self.fuzzy_match_window_ms as i128 && is_same_image {
                    let fused = ProcessNode {
                        pid: ex.pid,
                        image: ex.image.clone(),
                        command_line: if ex.command_line.is_none() && cmd.is_some() { cmd } else { clone_opt(&ex.command_line) },
                        timestamp: ex.timestamp,
                        log_source: merge_sources(&ex.log_source, &record.log_source),
                        hashes: if ex.hashes.is_none() && hashes.is_some() { hashes } else { clone_opt(&ex.hashes) },
                    };
                    graph_set_node(&mut self.graph, k, fused);
                    self.correlation_count = self.correlation_count.wrapping_add(1);
                    return;
                }
            }
            None => {}
        }
        let node = ProcessNode {
            pid,
            image,
            command_line: cmd,
            timestamp: record.timestamp,
            log_source: clone_opt(&record.log_source),
            hashes,
        };
        let node_idx = graph_add_node(&mut self.graph, node);
        if ppid != 0 {
            match self.pid_map.get(&ppid) {
                Some(parent_idx) => {
                    let parent_idx: usize = *parent_idx;
                    graph_add_edge(&mut self.graph, parent_idx, node_idx);
                }
                None => match &record.parent_process_name {
                    Some(parent_image) => {
                        let parent_node = ProcessNode {
                            pid: ppid,
                            image: parent_image.clone(),
                            command_line: None,
                            timestamp: record.timestamp,
                            log_source: Some(owned("PRE-EXISTING (Reconstructed)")),
                            hashes: None,
                        };
                        let parent_idx = graph_add_node(&mut self.graph, parent_node);
                        self.pid_map.insert(ppid, parent_idx);
                        graph_add_edge(&mut self.graph, parent_idx, node_idx);
                    }
                    None => {
                        graph_add_edge(&mut self.graph, self.orphan_root, node_idx);
                    }
                },
            }
        } else {
            graph_add_edge(&mut self.graph, self.orphan_root, node_idx);
        }
        self.pid_map.insert(pid, node_idx);
    }
}

/// A parent whose spawning a shell is living off the land: office, reader, editor, spooler,
/// diagnostics, certificate and Linux-subsystem binaries.
pub open spec fn hostile_spawner(img: Seq<char>) -> bool {
    seq_contains(img, "winword.exe"@) || seq_contains(img, "excel.exe"@) || seq_contains(img, "powerpnt.exe"@)
        || seq_contains(img, "outlook.exe"@) || seq_contains(img, "acrord32.exe"@) || seq_contains(img, "notepad.exe"@)
        || seq_contains(img, "spoolsv.exe"@) || seq_contains(img, "msdt.exe"@) || seq_contains(img, "certutil.exe"@)
        || seq_contains(img, "bash.exe"@) || seq_contains(img, "wsl.exe"@)
}

/// A shell or script host.
pub open spec fn shell_image(img: Seq<char>) -> bool {
    seq_contains(img, "cmd.exe"@) || seq_contains(img, "powershell.exe"@) || seq_contains(img, "pwsh.exe"@)
        || seq_contains(img, "wscript.exe"@) || seq_contains(img, "cscript.exe"@) || seq_contains(img, "mshta.exe"@)
        || seq_contains(img, "bitsadmin.exe"@) || seq_contains(img, "scrcons.exe"@) || seq_contains(img, "schtasks.exe"@)
        || seq_contains(img, "regsvr32.exe"@)
}

/// The anomalies of one parent-child edge, as severity and description, in the order the
/// heuristics run: living off the land, the spooler spawning a shell, a service host spawning
/// `cmd.exe`, and the explorer spawning reconnaissance tools.
pub open spec fn edge_findings(p: ProcessNode, c: ProcessNode) -> Seq<(SeverityLevel, Seq<char>)> {
    let pi = lowercase(p.image@);
    let ci = lowercase(c.image@);
    let lotl = if hostile_spawner(pi) && shell_image(ci) {
        let sev = if seq_contains(pi, "winword.exe"@) || seq_contains(pi, "excel.exe"@) || seq_contains(pi, "msdt.exe"@) {
            SeverityLevel::Critical
        } else {
            SeverityLevel::High
        };
        seq![(sev, "LotL Anomaly: "@ + p.image@ + " spawned suspicious shell "@ + c.image@)]
    } else {
        Seq::empty()
    };
    let spooler = if seq_contains(pi, "spoolsv.exe"@) && (seq_contains(ci, "cmd.exe"@) || seq_contains(ci, "powershell.exe"@)) {
        seq![(SeverityLevel::Critical, "SYSTEM Anomaly: Print Spooler spawned a shell (Possible PrintNightmare/Exploit)"@)]
    } else {
        Seq::empty()
    };
    let service = if seq_contains(pi, "svchost.exe"@) && seq_contains(ci, "cmd.exe"@) {
        seq![(SeverityLevel::High, "System Service Anomaly: svchost.exe spawned cmd.exe"@)]
    } else {
        Seq::empty()
    };
    let recon = if seq_contains(pi, "explorer.exe"@) && (seq_contains(ci, "whoami.exe"@) || seq_contains(ci, "nltest.exe"@)
        || seq_contains(ci, "net.exe"@)) {
        seq![(SeverityLevel::Medium, "Suspicious Reconnaissance: Explorer spawned "@ + c.image@)]
    } else {
        Seq::empty()
    };
    lotl + spooler + service + recon
}

/// A shell or script host (`cmd.exe`, `powershell.exe`, `pwsh.exe`, `wscript.exe`, `cscript.exe`,
/// `mshta.exe`, `bitsadmin.exe`, `scrcons.exe`, `schtasks.exe`, `regsvr32.exe`, in any case)
/// spawned by Word, Excel or the diagnostics tool (`winword.exe`, `excel.exe`, `msdt.exe`) is a
/// critical living-off-the-land anomaly, reported first for its edge.
pub proof fn law_lotl_office_is_critical(p: ProcessNode, c: ProcessNode, parent: Seq<char>, shell: Seq<char>)
    requires
        parent == "winword.exe"@ || parent == "excel.exe"@ || parent == "msdt.exe"@,
        seq_contains(lowercase(p.image@), parent),
        shell == "cmd.exe"@ || shell == "powershell.exe"@ || shell == "pwsh.exe"@ || shell == "wscript.exe"@
            || shell == "cscript.exe"@ || shell == "mshta.exe"@ || shell == "bitsadmin.exe"@
            || shell == "scrcons.exe"@ || shell == "schtasks.exe"@ || shell == "regsvr32.exe"@,
        seq_contains(lowercase(c.image@), shell),
    ensures
        edge_findings(p, c).len() >= 1,
        edge_findings(p, c)[0] == (SeverityLevel::Critical,
            "LotL Anomaly: "@ + p.image@ + " spawned suspicious shell "@ + c.image@),
{
}

/// A shell or script host spawned by another living-off-the-land parent (PowerPoint, Outlook,
/// Acrobat Reader, Notepad, the print spooler, `certutil`, `bash` or `wsl`) that is not also Word,
/// Excel or the diagnostics tool is a high-severity anomaly.
pub proof fn law_lotl_other_parent_is_high(p: ProcessNode, c: ProcessNode, parent: Seq<char>, shell: Seq<char>)
    requires
        parent == "powerpnt.exe"@ || parent == "outlook.exe"@ || parent == "acrord32.exe"@ || parent == "notepad.exe"@
            || parent == "spoolsv.exe"@ || parent == "certutil.exe"@ || parent == "bash.exe"@ || parent == "wsl.exe"@,
        seq_contains(lowercase(p.image@), parent),
        !seq_contains(lowercase(p.image@), "winword.exe"@) && !seq_contains(lowercase(p.image@), "excel.exe"@)
            && !seq_contains(lowercase(p.image@), "msdt.exe"@),
        shell == "cmd.exe"@ || shell == "powershell.exe"@ || shell == "pwsh.exe"@ || shell == "wscript.exe"@
            || shell == "cscript.exe"@ || shell == "mshta.exe"@ || shell == "bitsadmin.exe"@
            || shell == "scrcons.exe"@ || shell == "schtasks.exe"@ || shell == "regsvr32.exe"@,
        seq_contains(lowercase(c.image@), shell),
    ensures
        edge_findings(p, c).len() >= 1,
        edge_findings(p, c)[0] == (SeverityLevel::High,
            "LotL Anomaly: "@ + p.image@ + " spawned suspicious shell "@ + c.image@),
{
}

/// The anomalies of the first `n` edges, each with the edge it was found on.
pub open spec fn findings_upto(nodes: Seq<ProcessNode>, edges: Seq<(usize, usize)>, n: int) -> Seq<(int, (SeverityLevel, Seq<char>))>
    decreases n,
{
    if n <= 0 {
        Seq::empty()
    } else {
        findings_upto(nodes, edges, n - 1)
            + edge_findings(nodes[edges[n - 1].0 as int], nodes[edges[n - 1].1 as int]).map_values(
                |f: (SeverityLevel, Seq<char>)| (n - 1, f))
    }
}

/// `a` reports finding `f` on the edge from `p` to `c`, stamped when the child was created.
pub open spec fn anomaly_of(a: LineageAnomaly, p: ProcessNode, c: ProcessNode, f: (SeverityLevel, Seq<char>)) -> bool {
    &&& a.parent_pid == p.pid && a.parent_image@ == p.image@
    &&& a.child_pid == c.pid && a.child_image@ == c.image@
    &&& opt_view(a.child_cmd) == opt_view(c.command_line)
    &&& a.timestamp == c.timestamp
    &&& a.severity == f.0 && a.description@ == f.1
}

fn make_anomaly(p: &ProcessNode, c: &ProcessNode, severity: SeverityLevel, description: String) -> (a: LineageAnomaly)
    ensures
        anomaly_of(a, *p, *c, (severity, description@)),
{
    LineageAnomaly {
        parent_pid: p.pid,
        parent_image: p.image.clone(),
        child_pid: c.pid,
        child_image: c.image.clone(),
        child_cmd: clone_opt(&c.command_line),
        timestamp: c.timestamp,
        severity,
        description,
    }
}

fn is_hostile_spawner(img: &str) -> (b: bool)
    ensures
        b == hostile_spawner(img@),
{
    str_contains(img, "winword.exe") || str_contains(img, "excel.exe") || str_contains(img, "powerpnt.exe")
        || str_contains(img, "outlook.exe") || str_contains(img, "acrord32.exe") || str_contains(img, "notepad.exe")
        || str_contains(img, "spoolsv.exe") || str_contains(img, "msdt.exe") || str_contains(img, "certutil.exe")
        || str_contains(img, "bash.exe") || str_contains(img, "wsl.exe")
}

fn is_shell_image(img: &str) -> (b: bool)
    ensures
        b == shell_image(img@),
{
    str_contains(img, "cmd.exe") || str_contains(img, "powershell.exe") || str_contains(img, "pwsh.exe")
        || str_contains(img, "wscript.exe") || str_contains(img, "cscript.exe") || str_contains(img, "mshta.exe")
        || str_contains(img, "bitsadmin.exe") || str_contains(img, "scrcons.exe") || str_contains(img, "schtasks.exe")
        || str_contains(img, "regsvr32.exe")
}

/// The anomalies of the edge from `p` to `c`.
fn edge_anomalies(p: &ProcessNode, c: &ProcessNode) -> (v: Vec<LineageAnomaly>)
    ensures
        v@.len() == edge_findings(*p, *c).len(),
        forall|i: int| 0 <= i < v@.len() ==> anomaly_of(#[trigger] v@[i], *p, *c, edge_findings(*p, *c)[i]),
{
    let pl = to_lowercase(p.image.as_str());
    let cl = to_lowercase(c.image.as_str());
    let pi = pl.as_str();
    let ci = cl.as_str();
    let ghost f = edge_findings(*p, *c);
    let mut v: Vec<LineageAnomaly> = Vec::new();
    let ghost mut done: Seq<(SeverityLevel, Seq<char>)> = Seq::empty();
    if is_hostile_spawner(pi) && is_shell_image(ci) {
        let severity = if str_contains(pi, "winword.exe") || str_contains(pi, "excel.exe") || str_contains(pi, "msdt.exe") {
            SeverityLevel::Critical
        } else {
            SeverityLevel::High
        };
        let mut d = owned("LotL Anomaly: ");
        append(&mut d, p.image.as_str());
        append(&mut d, " spawned suspicious shell ");
        append(&mut d, c.image.as_str());
        proof {
            done = done.push((severity, d@));
        }
        v.push(make_anomaly(p, c, severity, d));
    }
    if str_contains(pi, "spoolsv.exe") && (str_contains(ci, "cmd.exe") || str_contains(ci, "powershell.exe")) {
        let d = owned("SYSTEM Anomaly: Print Spooler spawned a shell (Possible PrintNightmare/Exploit)");
        proof {
            done = done.push((SeverityLevel::Critical, d@));
        }
        v.push(make_anomaly(p, c, SeverityLevel::Critical, d));
    }
    if str_contains(pi, "svchost.exe") && str_contains(ci, "cmd.exe") {
        let d = owned("System Service Anomaly: svchost.exe spawned cmd.exe");
        proof {
            done = done.push((SeverityLevel::High, d@));
        }
        v.push(make_anomaly(p, c, SeverityLevel::High, d));
    }
    if str_contains(pi, "explorer.exe") && (str_contains(ci, "whoami.exe") || str_contains(ci, "nltest.exe")
        || str_contains(ci, "net.exe")) {
        let mut d = owned("Suspicious Reconnaissance: Explorer spawned ");
        append(&mut d, c.image.as_str());
        proof {
            done = done.push((SeverityLevel::Medium, d@));
        }
        v.push(make_anomaly(p, c, SeverityLevel::Medium, d));
    }
    assert(done =~= f);
    v
}

impl LineageGraph {
    /// The anomalous parent-child relationships, edge by edge in the order the edges were added.
    pub fn detect_anomalies(&self) -> (res: Vec<LineageAnomaly>)
        requires
            self.wf(),
        ensures
            res@.len() == findings_upto(self.view().nodes, self.view().edges, self.view().edges.len() as int).len(),
            forall|i: int| 0 <= i < res@.len() ==> {
                let (e, f) = findings_upto(self.view().nodes, self.view().edges, self.view().edges.len() as int)[i];
                anomaly_of(#[trigger] res@[i], self.view().nodes[self.view().edges[e].0 as int],
                    self.view().nodes[self.view().edges[e].1 as int], f)
            },
    {
        let ghost nodes = self.view().nodes;
        let ghost edges = self.view().edges;
        let mut res: Vec<LineageAnomaly> = Vec::new();
        let n = graph_edge_count(&self.graph);
        let mut e: usize = 0;
        while e < n
            invariant
                0 <= e <= n,
                n == edges.len(),
                nodes == self.view().nodes,
                edges == self.view().edges,
                self.wf(),
                res@.len() == findings_upto(nodes, edges, e as int).len(),
                forall|i: int| 0 <= i < res@.len() ==> {
                    let (k, f) = findings_upto(nodes, edges, e as int)[i];
                    anomaly_of(#[trigger] res@[i], nodes[edges[k].0 as int], nodes[edges[k].1 as int], f)
                },
            decreases n - e,
        {
            let ends = graph_edge_endpoints(&self.graph, e);
            match ends {
                Some((pa, ch)) => {
                    let parent = graph_node(&self.graph, pa);
                    let child = graph_node(&self.graph, ch);
                    let found = edge_anomalies(parent, child);
                    let ghost before = res@;
                    let ghost fe = edge_findings(*parent, *child);
                    let mut j: usize = 0;
                    let mut found = found;
                    let ghost all = found@;
                    let _count: usize = found.len();
                    while found.len() > 0
                        invariant
                            0 <= j <= all.len(),
                            all.len() <= usize::MAX,
                            found@ == all.subrange(j as int, all.len() as int),
                            all.len() == fe.len(),
                            forall|i: int| 0 <= i < all.len() ==> anomaly_of(#[trigger] all[i], *parent, *child, fe[i]),
                            res@.len() == before.len() + j,
                            forall|i: int| 0 <= i < before.len() ==> res@[i] == before[i],
                            forall|i: int| 0 <= i < j ==> res@[before.len() + i] == all[i],
                        decreases found@.len(),
                    {
                        let a = found.remove(0);
                        res.push(a);
                        j += 1;
                    }
                    proof {
                        let prev = findings_upto(nodes, edges, e as int);
                        let next = findings_upto(nodes, edges, e + 1);
                        assert(next == prev + fe.map_values(|f: (SeverityLevel, Seq<char>)| (e as int, f)));
                        assert forall|i: int| 0 <= i < res@.len() implies {
                            let (k, f) = next[i];
                            anomaly_of(#[trigger] res@[i], nodes[edges[k].0 as int], nodes[edges[k].1 as int], f)
                        } by {
                            if i >= before.len() {
                                assert(res@[i] == all[i - before.len()]);
                            } else {
                                assert(res@[i] == before[i]);
                            }
                        }
                    }
                }
                None => {}
            }
            e += 1;
        }
        res
    }
}

/// A process id names the most recent node created for it: after a creation that is not a
/// fusion, the id names the new node.
pub proof fn law_pid_names_latest_node(v0: LineageView, v1: LineageView, r: LogRecord)
    requires
        lineage_wf(v0),
        record_step(v0, v1, r),
        is_creation(r),
        !fuses(v0, r),
    ensures
        v1.pids.contains_key(created_pid(r)),
        v1.pids[created_pid(r)] == v0.nodes.len(),
        v1.nodes[v0.nodes.len() as int].pid == created_pid(r),
{
}

/// A fusion adds neither node nor edge and counts one more correlation.
pub proof fn law_fusion_adds_no_node(v0: LineageView, v1: LineageView, r: LogRecord)
    requires
        record_step(v0, v1, r),
        is_creation(r),
        fuses(v0, r),
    ensures
        v1.nodes.len() == v0.nodes.len(),
        v1.edges == v0.edges,
        v1.pids == v0.pids,
        v1.correlations == (if v0.correlations == u64::MAX { 0 } else { (v0.correlations + 1) as u64 }),
{
}

/// Every new process gets exactly one parent edge, into its node: no process is left unlinked,
/// and none gets two parents.
pub proof fn law_one_parent_edge(v0: LineageView, v1: LineageView, r: LogRecord)
    requires
        lineage_wf(v0),
        record_step(v0, v1, r),
        is_creation(r),
        !fuses(v0, r),
    ensures
        v1.edges.len() == v0.edges.len() + 1,
        v1.edges.last().1 == v0.nodes.len(),
        v1.edges.subrange(0, v0.edges.len() as int) == v0.edges,
{
    assert(v1.edges.subrange(0, v0.edges.len() as int) =~= v0.edges);
}

/// Records that are not process creations leave the graph as it was.
pub proof fn law_other_records_ignored(v0: LineageView, v1: LineageView, r: LogRecord)
    requires
        record_step(v0, v1, r),
        !is_creation(r),
    ensures
        v1 == v0,
{
}

/// The metadata of the record a lineage anomaly is promoted to.
pub open spec fn anomaly_metadata(a: LineageAnomaly) -> Map<Seq<char>, Seq<char>> {
    let base = Map::<Seq<char>, Seq<char>>::empty()
        .insert("parent_pid"@, decimal(a.parent_pid as nat))
        .insert("parent_image"@, a.parent_image@)
        .insert("child_pid"@, decimal(a.child_pid as nat))
        .insert("child_image"@, a.child_image@);
    let with_cmd = match a.child_cmd {
        Some(c) => base.insert("child_command_line"@, c@),
        None => base,
    };
    with_cmd
        .insert("nist_control_id"@, "SI-4 [Ghost Hunter]"@)
        .insert("forensic_tag"@, "LineageAnomaly"@)
        .insert("captured_message"@, "[LINEAGE ANOMALY] "@ + a.description@)
}

/// `r` is the record a lineage anomaly `a` is promoted to: a Ghost Hunter signal from the lineage
/// engine, stamped when the child was created.
pub open spec fn anomaly_record_of(r: LogRecord, a: LineageAnomaly) -> bool {
    &&& r.timestamp == a.timestamp
    &&& r.message@ == "[LINEAGE ANOMALY] "@ + a.description@
    &&& opt_view(r.severity) == Some(uppercase(sev_name(a.severity)))
    &&& opt_view(r.source) == Some("LineageEngine"@)
    &&& opt_view(r.outcome) == Some("AnomalyDetected"@)
    &&& r.metadata@ == anomaly_metadata(a)
    &&& r.subject_id is None && r.additional_context is None && r.unparsed_raw is None
    &&& r.raw@ == Seq::<char>::empty() && r.original_format@ == Seq::<char>::empty()
    &&& r.quality == ParsingQuality::Success
    &&& r.parent_process_id is None && r.parent_process_name is None
    &&& record_defaults(r)
}

/// The record a lineage anomaly is promoted to, for analysis as a Ghost Hunter signal.
pub fn anomaly_record(a: LineageAnomaly) -> (r: LogRecord)
    ensures
        anomaly_record_of(r, a),
{
    let ghost a0 = a;
    let mut message = owned("[LINEAGE ANOMALY] ");
    append(&mut message, a.description.as_str());
    let mut md = Metadata::new();
    md.insert(owned("parent_pid"), u64_to_string(a.parent_pid as u64));
    md.insert(owned("parent_image"), a.parent_image);
    md.insert(owned("child_pid"), u64_to_string(a.child_pid as u64));
    md.insert(owned("child_image"), a.child_image);
    match a.child_cmd {
        Some(c) => md.insert(owned("child_command_line"), c),
        None => {}
    }
    md.insert(owned("nist_control_id"), owned("SI-4 [Ghost Hunter]"));
    md.insert(owned("forensic_tag"), owned("LineageAnomaly"));
    md.insert(owned("captured_message"), message.clone());
    let sev = a.severity.name();
    let mut r = LogRecord::blank_at(a.timestamp);
    r.message = message;
    r.severity = Some(to_uppercase(sev.as_str()));
    r.source = Some(owned("LineageEngine"));
    r.outcome = Some(owned("AnomalyDetected"));
    r.metadata = md;
    proof {
        assert(r.metadata@ =~= anomaly_metadata(a0));
    }
    r
}

} // verus!
