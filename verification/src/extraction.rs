//! Triggered evidence capture: which volatile state to collect for a forensic tag, and the
//! manifest that fingerprints what was collected.

use vstd::prelude::*;
use crate::num::u64_to_string;
use crate::text::{append, decimal, owned, str_eq};

verus! {

/// One collection command: the program, its arguments, the file its output goes to (relative
/// to the vault), and whether its failure is tolerated.
#[derive(Debug)]
pub struct CaptureCommand {
    pub program: String,
    pub args: Vec<String>,
    pub output_file: String,
    pub best_effort: bool,
}

/// The name `Path::join` gives a file inside a directory.
pub uninterp spec fn joined_path(dir: Seq<char>, file: Seq<char>) -> Seq<char>;

/// `Path::new(dir).join(file)`, as a string: the file's path inside the directory.
#[verifier::external_body]
pub(crate) fn path_join(dir: &str, file: &str) -> (p: String)
    ensures
        p@ == joined_path(dir@, file@),
{
    std::path::Path::new(dir).join(file).to_string_lossy().to_string()
}

/// The views of texts.
pub open spec fn arg_views(v: Seq<String>) -> Seq<Seq<char>> {
    v.map_values(|s: String| s@)
}

/// `c` runs `program` with `args`, its output in `file`.
pub open spec fn runs(c: CaptureCommand, program: Seq<char>, args: Seq<Seq<char>>, file: Seq<char>, best_effort: bool) -> bool {
    c.program@ == program && arg_views(c.args@) == args && c.output_file@ == file && c.best_effort == best_effort
}

/// The network state: connections, DNS cache and ARP table.
pub open spec fn network_plan(p: Seq<CaptureCommand>) -> bool {
    &&& p.len() == 3
    &&& runs(p[0], "netstat"@, seq!["-ano"@], "netstat.txt"@, false)
    &&& runs(p[1], "ipconfig"@, seq!["/displaydns"@], "dns_cache.txt"@, false)
    &&& runs(p[2], "arp"@, seq!["-a"@], "arp_table.txt"@, false)
}

/// The identity state: the Run keys of the user and the machine, and an attempt to save the SAM
/// hive into the vault.
pub open spec fn identity_plan(p: Seq<CaptureCommand>, vault: Seq<char>) -> bool {
    &&& p.len() == 3
    &&& runs(p[0], "reg"@, seq!["query"@, "HKCU\\Software\\Microsoft\\Windows\\CurrentVersion\\Run"@], "reg_hkcu_run.txt"@, false)
    &&& runs(p[1], "reg"@, seq!["query"@, "HKLM\\Software\\Microsoft\\Windows\\CurrentVersion\\Run"@], "reg_hklm_run.txt"@, false)
    &&& runs(p[2], "reg"@, seq!["save"@, "HKLM\\SAM"@, joined_path(vault, "SAM.hiv"@)], "reg_save_status.txt"@, true)
}

/// The process state: the modules and details of one process, or every process.
pub open spec fn process_plan(p: Seq<CaptureCommand>, pid: Option<u32>) -> bool {
    match pid {
        Some(n) => {
            let filter = "pid eq "@ + decimal(n as nat);
            &&& p.len() == 2
            &&& runs(p[0], "tasklist"@, seq!["/m"@, "/fi"@, filter], "process_"@ + decimal(n as nat) + "_modules.txt"@, false)
            &&& runs(p[1], "tasklist"@, seq!["/v"@, "/fi"@, filter], "process_"@ + decimal(n as nat) + "_details.txt"@, false)
        }
        None => p.len() == 1 && runs(p[0], "tasklist"@, seq!["/v"@], "all_processes.txt"@, false),
    }
}

/// The plan for a forensic tag: network state for lateral movement and by default, identity
/// state for credential theft, process state for orphaned or hidden processes.
pub open spec fn collection_plan_for(tag: Seq<char>, pid: Option<u32>, vault: Seq<char>, p: Seq<CaptureCommand>) -> bool {
    if tag == "CredentialDumping"@ || tag == "RegistryExfiltration"@ {
        identity_plan(p, vault)
    } else if tag == "OrphanProcess"@ || tag == "GhostProcess"@ {
        process_plan(p, pid)
    } else {
        network_plan(p)
    }
}

fn command(program: &str, args: Vec<String>, output_file: String, best_effort: bool) -> (c: CaptureCommand)
    ensures
        c.program@ == program@ && c.args == args && c.output_file == output_file && c.best_effort == best_effort,
{
    CaptureCommand { program: owned(program), args, output_file, best_effort }
}

fn one(a: &str) -> (v: Vec<String>)
    ensures
        arg_views(v@) == seq![a@],
{
    let mut v = Vec::new();
    v.push(owned(a));
    assert(arg_views(v@) =~= seq![a@]);
    v
}

fn two(a: &str, b: &str) -> (v: Vec<String>)
    ensures
        arg_views(v@) == seq![a@, b@],
{
    let mut v = Vec::new();
    v.push(owned(a));
    v.push(owned(b));
    assert(arg_views(v@) =~= seq![a@, b@]);
    v
}

fn three(a: &str, b: &str, c: &str) -> (v: Vec<String>)
    ensures
        arg_views(v@) == seq![a@, b@, c@],
{
    let mut v = Vec::new();
    v.push(owned(a));
    v.push(owned(b));
    v.push(owned(c));
    assert(arg_views(v@) =~= seq![a@, b@, c@]);
    v
}

/// Captures volatile evidence into a vault when a critical finding calls for it.
pub struct TriggeredExtraction;

impl TriggeredExtraction {
    /// The vault directory for a capture tagged `tag` at the time rendered `stamp`.
    pub fn vault_dir(tag: &str, stamp: &str) -> (d: String)
        ensures
            d@ == "forensic_results/vault_"@ + tag@ + "_"@ + stamp@,
    {
        let mut d = owned("forensic_results/vault_");
        append(&mut d, tag);
        append(&mut d, "_");
        append(&mut d, stamp);
        d
    }

    /// The commands that capture the evidence a forensic tag calls for, into the vault `vault`.
    pub fn collection_plan(tag: &str, pid: Option<u32>, vault: &str) -> (p: Vec<CaptureCommand>)
        ensures
            collection_plan_for(tag@, pid, vault@, p@),
    {
        let mut p: Vec<CaptureCommand> = Vec::new();
        if str_eq(tag, "CredentialDumping") || str_eq(tag, "RegistryExfiltration") {
            p.push(command("reg", two("query", "HKCU\\Software\\Microsoft\\Windows\\CurrentVersion\\Run"), owned("reg_hkcu_run.txt"), false));
            p.push(command("reg", two("query", "HKLM\\Software\\Microsoft\\Windows\\CurrentVersion\\Run"), owned("reg_hklm_run.txt"), false));
            let hive = path_join(vault, "SAM.hiv");
            p.push(command("reg", three("save", "HKLM\\SAM", hive.as_str()), owned("reg_save_status.txt"), true));
        } else if str_eq(tag, "OrphanProcess") || str_eq(tag, "GhostProcess") {
            match pid {
                Some(n) => {
                    let num = u64_to_string(n as u64);
                    let mut filter = owned("pid eq ");
                    append(&mut filter, num.as_str());
                    let mut modules = owned("process_");
                    append(&mut modules, num.as_str());
                    append(&mut modules, "_modules.txt");
                    let mut details = owned("process_");
                    append(&mut details, num.as_str());
                    append(&mut details, "_details.txt");
                    p.push(command("tasklist", three("/m", "/fi", filter.as_str()), modules, false));
                    p.push(command("tasklist", three("/v", "/fi", filter.as_str()), details, false));
                }
                None => {
                    p.push(command("tasklist", one("/v"), owned("all_processes.txt"), false));
                }
            }
        } else {
            p.push(command("netstat", one("-ano"), owned("netstat.txt"), false));
            p.push(command("ipconfig", one("/displaydns"), owned("dns_cache.txt"), false));
            p.push(command("arp", one("-a"), owned("arp_table.txt"), false));
        }
        p
    }
}

/// The name of the manifest a vault holds.
pub open spec fn manifest_name() -> Seq<char> {
    "forensic_evidence_manifest.md"@
}

/// The table rows of the first `n` artifacts (file name and SHA-256 fingerprint), the manifest
/// itself left out.
pub open spec fn artifact_rows(artifacts: Seq<(Seq<char>, Seq<char>)>, n: int) -> Seq<char>
    decreases n,
{
    if n <= 0 {
        Seq::empty()
    } else if artifacts[n - 1].0 == manifest_name() {
        artifact_rows(artifacts, n - 1)
    } else {
        artifact_rows(artifacts, n - 1) + "| `"@ + artifacts[n - 1].0 + "` | `"@ + artifacts[n - 1].1 + "` | ✅ VERIFIED |\n"@
    }
}

/// The views of artifact entries.
pub open spec fn artifact_views(v: Seq<(String, String)>) -> Seq<(Seq<char>, Seq<char>)> {
    v.map_values(|a: (String, String)| (a.0@, a.1@))
}

/// The evidence manifest of the vault at `vault`, captured at the time rendered `captured_at`,
/// listing each collected artifact with its fingerprint.
pub fn evidence_manifest(vault: &str, captured_at: &str, artifacts: &Vec<(String, String)>) -> (m: String)
    ensures
        m@ == "# 📦 Aegis: Forensic Evidence Manifest\n\n**Vault Path**: `"@ + vault@ + "`\n**Captured At**: `"@
            + captured_at@ + "`\n\n| Artifact | SHA-256 Hash | Integrity Status |\n| :--- | :--- | :--- |\n"@
            + artifact_rows(artifact_views(artifacts@), artifacts@.len() as int),
{
    let mut m = owned("# 📦 Aegis: Forensic Evidence Manifest\n\n**Vault Path**: `");
    append(&mut m, vault);
    append(&mut m, "`\n**Captured At**: `");
    append(&mut m, captured_at);
    append(&mut m, "`\n\n| Artifact | SHA-256 Hash | Integrity Status |\n| :--- | :--- | :--- |\n");
    let ghost head = m@;
    let ghost av = artifact_views(artifacts@);
    let mut i: usize = 0;
    while i < artifacts.len()
        invariant
            0 <= i <= artifacts@.len(),
            av == artifact_views(artifacts@),
            m@ == head + artifact_rows(av, i as int),
        decreases artifacts@.len() - i,
    {
        let (name, hash) = &artifacts[i];
        assert(av[i as int] == (name@, hash@));
        if !str_eq(name.as_str(), "forensic_evidence_manifest.md") {
            append(&mut m, "| `");
            append(&mut m, name.as_str());
            append(&mut m, "` | `");
            append(&mut m, hash.as_str());
            append(&mut m, "` | ✅ VERIFIED |\n");
        }
        i += 1;
    }
    m
}

} // verus!
