//! The behavioural heuristics of the detection engine.
//!
//! Each heuristic refines a triage: the severity reached so far, the finding's message,
//! its metadata, its outcome and whether a heuristic fired. They read the metadata the record
//! arrived with and the lower-cased command line, raw text and image name.

use vstd::prelude::*;
use crate::metadata::{Metadata, lookup, lookup2, or_empty};
use crate::models::{SeverityLevel, sev_rank};
use crate::num::u64_to_string;
use crate::text::{seq_contains, seq_ends_with, lowercase, to_lowercase, str_contains, str_ends_with,
    str_eq, owned, concat, opt_view, decimal};

verus! {

/// A finding under construction.
#[derive(Debug)]
pub struct Triage {
    pub severity: SeverityLevel,
    pub message: String,
    pub metadata: Metadata,
    pub outcome: Option<String>,
    /// Whether a behavioural heuristic fired.
    pub hit: bool,
}

impl View for Triage {
    type V = (SeverityLevel, Seq<char>, Map<Seq<char>, Seq<char>>, Option<Seq<char>>, bool);

    open spec fn view(&self) -> (SeverityLevel, Seq<char>, Map<Seq<char>, Seq<char>>, Option<Seq<char>>, bool) {
        (self.severity, self.message@, self.metadata@, opt_view(self.outcome), self.hit)
    }
}

/// A heuristic fired: severity, message, tag, captured message and control are set.
pub open spec fn flag(
    v: (SeverityLevel, Seq<char>, Map<Seq<char>, Seq<char>>, Option<Seq<char>>, bool),
    sev: SeverityLevel,
    msg: Seq<char>,
    tag: Seq<char>,
    control: Seq<char>,
) -> (SeverityLevel, Seq<char>, Map<Seq<char>, Seq<char>>, Option<Seq<char>>, bool) {
    (sev, msg, v.2.insert("forensic_tag"@, tag).insert("captured_message"@, msg).insert("nist_control_id"@, control), v.3, true)
}

fn raise(v: &mut Triage, sev: SeverityLevel, msg: String, tag: &str, control: &str)
    ensures
        final(v)@ == flag(old(v)@, sev, msg@, tag@, control@),
{
    v.severity = sev;
    v.metadata.insert(owned("forensic_tag"), owned(tag));
    v.metadata.insert(owned("captured_message"), owned(msg.as_str()));
    v.metadata.insert(owned("nist_control_id"), owned(control));
    v.message = msg;
    v.hit = true;
}

/// `pre`, then `mid`, then `post`.
pub fn wrap(pre: &str, mid: &str, post: &str) -> (s: String)
    ensures
        s@ == pre@ + mid@ + post@,
{
    let a = concat(pre, mid);
    concat(a.as_str(), post)
}

/// The record's event id, or the empty string.
pub open spec fn event_id_of(md: Map<Seq<char>, Seq<char>>) -> Seq<char> {
    or_empty(lookup2(md, "EventID"@, "event_id"@))
}

pub fn event_id(md: &Metadata) -> (s: String)
    ensures
        s@ == event_id_of(md@),
{
    match md.get_either("EventID", "event_id") {
        Some(s) => s,
        None => {
            proof {
                reveal_strlit("");
                assert(""@ =~= Seq::<char>::empty());
            }
            owned("")
        }
    }
}

// ---- Self-protection ----

pub open spec fn self_attack(cmd: Seq<char>, raw: Seq<char>) -> bool {
    seq_contains(cmd, "aegis"@) && (seq_contains(raw, "kill"@) || seq_contains(raw, "stop"@) || seq_contains(raw, "delete"@))
}

/// An attempt to stop or delete the sentinel itself is critical.
pub open spec fn self_protection_stage(
    v: (SeverityLevel, Seq<char>, Map<Seq<char>, Seq<char>>, Option<Seq<char>>, bool),
    cmd: Seq<char>,
    raw: Seq<char>,
) -> (SeverityLevel, Seq<char>, Map<Seq<char>, Seq<char>>, Option<Seq<char>>, bool) {
    if self_attack(cmd, raw) {
        (SeverityLevel::Critical,
            "☢️ CRITICAL: DIRECT ATTACK ON FORENSIC SENTINEL! Attempt to terminate/tamper with Aegis detected."@,
            v.2, Some("SelfProtectionTrigger"@), v.4)
    } else {
        v
    }
}

pub fn self_protection(v: &mut Triage, cmd: &str, raw: &str)
    ensures
        final(v)@ == self_protection_stage(old(v)@, cmd@, raw@),
{
    if str_contains(cmd, "aegis") && (str_contains(raw, "kill") || str_contains(raw, "stop") || str_contains(raw, "delete")) {
        v.severity = SeverityLevel::Critical;
        v.message = owned("☢️ CRITICAL: DIRECT ATTACK ON FORENSIC SENTINEL! Attempt to terminate/tamper with Aegis detected.");
        v.outcome = Some(owned("SelfProtectionTrigger"));
    }
}

// ---- DCSync (event 4662) ----

pub open spec fn dcsync_guid(props: Seq<char>) -> bool {
    seq_contains(props, "1131f6aa-9c07-11d1-f79f-00c04fc2dcd2"@) || seq_contains(props, "1131f6ad-9c07-11d1-f79f-00c04fc2dcd2"@)
}

pub open spec fn dcsync_message(subject: Seq<char>) -> Seq<char> {
    "☢️ RED ALERT: DCSYNC ATTACK DETECTED! Non-DC account '"@ + subject
        + "' is requesting sensitive directory replication (DS-Replication-Get-Changes). Possible Domain Dominance event."@
}

/// Directory replication rights requested by a non-machine account are critical; by a machine
/// account, high.
pub open spec fn dcsync_stage(
    v: (SeverityLevel, Seq<char>, Map<Seq<char>, Seq<char>>, Option<Seq<char>>, bool),
    md: Map<Seq<char>, Seq<char>>,
) -> (SeverityLevel, Seq<char>, Map<Seq<char>, Seq<char>>, Option<Seq<char>>, bool) {
    let props = or_empty(lookup(md, "Properties"@));
    let mask = or_empty(lookup(md, "AccessMask"@));
    if event_id_of(md) == "4662"@ && dcsync_guid(props) && (mask == "0x100"@ || mask == "256"@) {
        let subject = match lookup(md, "SubjectUserName"@) { Some(s) => s, None => "Unknown"@ };
        if !seq_ends_with(subject, "$"@) {
            flag(v, SeverityLevel::Critical, dcsync_message(subject), "DCSyncAttack"@, "SI-4 [DCSync Detector]"@)
        } else {
            (SeverityLevel::High, v.1, v.2.insert("nist_control_id"@, "SI-4 [Replication Audit]"@), v.3, v.4)
        }
    } else {
        v
    }
}

pub fn dcsync(v: &mut Triage, md: &Metadata)
    ensures
        final(v)@ == dcsync_stage(old(v)@, md@),
{
    let eid = event_id(md);
    let props = md.get_or_empty("Properties");
    let mask = md.get_or_empty("AccessMask");
    let guid = str_contains(props.as_str(), "1131f6aa-9c07-11d1-f79f-00c04fc2dcd2")
        || str_contains(props.as_str(), "1131f6ad-9c07-11d1-f79f-00c04fc2dcd2");
    if str_eq(eid.as_str(), "4662") && guid && (str_eq(mask.as_str(), "0x100") || str_eq(mask.as_str(), "256")) {
        let subject = match md.get("SubjectUserName") {
            Some(s) => owned(s.as_str()),
            None => owned("Unknown"),
        };
        if !str_ends_with(subject.as_str(), "$") {
            let msg = wrap("☢️ RED ALERT: DCSYNC ATTACK DETECTED! Non-DC account '", subject.as_str(),
                "' is requesting sensitive directory replication (DS-Replication-Get-Changes). Possible Domain Dominance event.");
            raise(v, SeverityLevel::Critical, msg, "DCSyncAttack", "SI-4 [DCSync Detector]");
        } else {
            v.severity = SeverityLevel::High;
            v.metadata.insert(owned("nist_control_id"), owned("SI-4 [Replication Audit]"));
        }
    }
}

// ---- Pass-the-hash (event 4624, logon type 9) ----

pub open spec fn pth_message(process: Seq<char>) -> Seq<char> {
    "☢️ CRITICAL: PASS-THE-HASH ATTACK DETECTED! Anomalous Logon Type 9 (NewCredentials) via '"@ + process
        + "' process. Possible Mimikatz PtH token injection."@
}

/// A NewCredentials logon through Negotiate or `seclogo` is critical.
pub open spec fn pth_stage(
    v: (SeverityLevel, Seq<char>, Map<Seq<char>, Seq<char>>, Option<Seq<char>>, bool),
    md: Map<Seq<char>, Seq<char>>,
) -> (SeverityLevel, Seq<char>, Map<Seq<char>, Seq<char>>, Option<Seq<char>>, bool) {
    let logon_type = or_empty(lookup(md, "LogonType"@));
    let auth = lowercase(or_empty(lookup(md, "AuthenticationPackageName"@)));
    let process = lowercase(or_empty(lookup(md, "LogonProcessName"@)));
    if event_id_of(md) == "4624"@ && logon_type == "9"@ && (seq_contains(auth, "negotiate"@) || seq_contains(process, "seclogo"@)) {
        flag(v, SeverityLevel::Critical, pth_message(process), "PassTheHash"@, "AC-3 [Identity Thief]"@)
    } else {
        v
    }
}

pub fn pass_the_hash(v: &mut Triage, md: &Metadata)
    ensures
        final(v)@ == pth_stage(old(v)@, md@),
{
    let eid = event_id(md);
    if str_eq(eid.as_str(), "4624") {
        let logon_type = md.get_or_empty("LogonType");
        let auth_raw = md.get_or_empty("AuthenticationPackageName");
        let auth = to_lowercase(auth_raw.as_str());
        let proc_raw = md.get_or_empty("LogonProcessName");
        let process = to_lowercase(proc_raw.as_str());
        if str_eq(logon_type.as_str(), "9") && (str_contains(auth.as_str(), "negotiate") || str_contains(process.as_str(), "seclogo")) {
            let msg = wrap("☢️ CRITICAL: PASS-THE-HASH ATTACK DETECTED! Anomalous Logon Type 9 (NewCredentials) via '",
                process.as_str(), "' process. Possible Mimikatz PtH token injection.");
            raise(v, SeverityLevel::Critical, msg, "PassTheHash", "AC-3 [Identity Thief]");
        }
    }
}

// ---- Kernel driver loads (events 7045, 4697, 6) ----

pub open spec fn user_writable_dir(path: Seq<char>) -> bool {
    seq_contains(path, "\\temp\\"@) || seq_contains(path, "\\users\\"@) || seq_contains(path, "\\programdata\\"@)
        || seq_contains(path, "\\perflogs\\"@) || seq_contains(path, "\\appdata\\"@)
}

pub open spec fn kernel_message(path: Seq<char>) -> Seq<char> {
    "☢️ CRITICAL: KERNEL INTEGRITY VIOLATION! Malicious driver load detected from non-standard directory: '"@ + path
        + "'. Possible BYOVD attack."@
}

/// A driver (`.sys`) installed or loaded from a user-writable directory is critical.
pub open spec fn kernel_stage(
    v: (SeverityLevel, Seq<char>, Map<Seq<char>, Seq<char>>, Option<Seq<char>>, bool),
    md: Map<Seq<char>, Seq<char>>,
) -> (SeverityLevel, Seq<char>, Map<Seq<char>, Seq<char>>, Option<Seq<char>>, bool) {
    let eid = event_id_of(md);
    if eid == "7045"@ || eid == "4697"@ || eid == "6"@ {
        let key = if eid == "6"@ { "ImageLoaded"@ } else { "ImagePath"@ };
        let path = lowercase(or_empty(lookup(md, key)));
        if path.len() > 0 && user_writable_dir(path) && seq_ends_with(path, ".sys"@) {
            flag(v, SeverityLevel::Critical, kernel_message(path), "KernelInvader"@, "SI-4 [Kernel Integrity Violation]"@)
        } else {
            v
        }
    } else {
        v
    }
}

pub fn kernel_invader(v: &mut Triage, md: &Metadata)
    ensures
        final(v)@ == kernel_stage(old(v)@, md@),
{
    let eid = event_id(md);
    if str_eq(eid.as_str(), "7045") || str_eq(eid.as_str(), "4697") || str_eq(eid.as_str(), "6") {
        let raw_path = if str_eq(eid.as_str(), "6") { md.get_or_empty("ImageLoaded") } else { md.get_or_empty("ImagePath") };
        let path = to_lowercase(raw_path.as_str());
        let p = path.as_str();
        let dir = str_contains(p, "\\temp\\") || str_contains(p, "\\users\\") || str_contains(p, "\\programdata\\")
            || str_contains(p, "\\perflogs\\") || str_contains(p, "\\appdata\\");
        if p.unicode_len() > 0 && dir && str_ends_with(p, ".sys") {
            let msg = wrap("☢️ CRITICAL: KERNEL INTEGRITY VIOLATION! Malicious driver load detected from non-standard directory: '",
                p, "'. Possible BYOVD attack.");
            raise(v, SeverityLevel::Critical, msg, "KernelInvader", "SI-4 [Kernel Integrity Violation]");
        }
    }
}

/// A driver (`.sys`) installed (events 7045, 4697: `ImagePath`) or loaded (event 6:
/// `ImageLoaded`) from a path whose lower-cased form contains `\temp\`, `\users\`,
/// `\programdata\`, `\perflogs\` or `\appdata\` is a critical kernel-integrity violation, tagged
/// `KernelInvader` under `SI-4 [Kernel Integrity Violation]`.
pub proof fn law_kernel_invader(
    v: (SeverityLevel, Seq<char>, Map<Seq<char>, Seq<char>>, Option<Seq<char>>, bool),
    md: Map<Seq<char>, Seq<char>>,
    path: Seq<char>,
    dir: Seq<char>,
)
    requires
        event_id_of(md) == "7045"@ || event_id_of(md) == "4697"@ || event_id_of(md) == "6"@,
        event_id_of(md) == "6"@ ==> md.contains_key("ImageLoaded"@) && md["ImageLoaded"@] == path,
        event_id_of(md) != "6"@ ==> md.contains_key("ImagePath"@) && md["ImagePath"@] == path,
        seq_ends_with(lowercase(path), ".sys"@),
        dir == "\\temp\\"@ || dir == "\\users\\"@ || dir == "\\programdata\\"@ || dir == "\\perflogs\\"@
            || dir == "\\appdata\\"@,
        seq_contains(lowercase(path), dir),
    ensures
        kernel_stage(v, md).0 == SeverityLevel::Critical,
        kernel_stage(v, md).2["forensic_tag"@] == "KernelInvader"@,
        kernel_stage(v, md).2["nist_control_id"@] == "SI-4 [Kernel Integrity Violation]"@,
        kernel_stage(v, md).4,
{
    reveal_strlit(".sys");
    reveal_strlit("forensic_tag");
    reveal_strlit("captured_message");
    reveal_strlit("nist_control_id");
    assert("forensic_tag"@.len() != "captured_message"@.len());
    assert("forensic_tag"@.len() != "nist_control_id"@.len());
    assert(lowercase(path).len() > 0);
}

/// A driver path that names none of `\temp\`, `\users\`, `\programdata\`, `\perflogs\` and
/// `\appdata\` leaves the triage as it was.
pub proof fn law_kernel_system_path_untouched(
    v: (SeverityLevel, Seq<char>, Map<Seq<char>, Seq<char>>, Option<Seq<char>>, bool),
    md: Map<Seq<char>, Seq<char>>,
)
    requires
        ({
            let key = if event_id_of(md) == "6"@ { "ImageLoaded"@ } else { "ImagePath"@ };
            let p = lowercase(or_empty(lookup(md, key)));
            !seq_contains(p, "\\temp\\"@) && !seq_contains(p, "\\users\\"@) && !seq_contains(p, "\\programdata\\"@)
                && !seq_contains(p, "\\perflogs\\"@) && !seq_contains(p, "\\appdata\\"@)
        }),
    ensures
        kernel_stage(v, md) == v,
{
}

// ---- Shells and signed proxy binaries ----

/// The image is a shell or a signed proxy binary, or the raw text names a proxy binary.
pub open spec fn shell_or_proxy(img: Seq<char>, raw: Seq<char>) -> bool {
    seq_contains(img, "cmd.exe"@) || seq_contains(img, "powershell.exe"@) || seq_contains(img, "pwsh.exe"@)
        || seq_contains(img, "rundll32.exe"@) || seq_contains(img, "regsvr32.exe"@) || seq_contains(img, "msiexec.exe"@)
        || seq_contains(img, "certutil.exe"@) || seq_contains(raw, "rundll32.exe"@) || seq_contains(raw, "regsvr32.exe"@)
        || seq_contains(raw, "msiexec.exe"@) || seq_contains(raw, "certutil.exe"@)
}

pub fn is_shell_or_proxy(img: &str, raw: &str) -> (b: bool)
    ensures
        b == shell_or_proxy(img@, raw@),
{
    str_contains(img, "cmd.exe") || str_contains(img, "powershell.exe") || str_contains(img, "pwsh.exe")
        || str_contains(img, "rundll32.exe") || str_contains(img, "regsvr32.exe") || str_contains(img, "msiexec.exe")
        || str_contains(img, "certutil.exe") || str_contains(raw, "rundll32.exe") || str_contains(raw, "regsvr32.exe")
        || str_contains(raw, "msiexec.exe") || str_contains(raw, "certutil.exe")
}

pub open spec fn lineage_message(img: Seq<char>) -> Seq<char> {
    "☢️ CRITICAL: LINEAGE INVARIANT VIOLATION! "@ + img
        + " spawned from an untrusted or unknown parent (Orphan). Possible T1218 or T1059."@
}

/// A shell or proxy binary from an orphaned, untrusted lineage is critical.
pub open spec fn lineage_stage(
    v: (SeverityLevel, Seq<char>, Map<Seq<char>, Seq<char>>, Option<Seq<char>>, bool),
    img: Seq<char>,
    raw: Seq<char>,
    orphan: bool,
    trusted: bool,
) -> (SeverityLevel, Seq<char>, Map<Seq<char>, Seq<char>>, Option<Seq<char>>, bool) {
    if shell_or_proxy(img, raw) && orphan && !trusted {
        flag(v, SeverityLevel::Critical, lineage_message(img), "LineageViolation"@, "SI-4 [Ghost Hunter]"@)
    } else {
        v
    }
}

pub fn lineage_violation(v: &mut Triage, img: &str, raw: &str, orphan: bool, trusted: bool)
    ensures
        final(v)@ == lineage_stage(old(v)@, img@, raw@, orphan, trusted),
{
    if is_shell_or_proxy(img, raw) && orphan && !trusted {
        let msg = wrap("☢️ CRITICAL: LINEAGE INVARIANT VIOLATION! ", img,
            " spawned from an untrusted or unknown parent (Orphan). Possible T1218 or T1059.");
        raise(v, SeverityLevel::Critical, msg, "LineageViolation", "SI-4 [Ghost Hunter]");
    }
}

pub open spec fn forbidden_export(raw: Seq<char>) -> bool {
    seq_contains(raw, "minidump"@) || seq_contains(raw, "control_rundll"@) || seq_contains(raw, "fileprotocolhandler"@)
        || seq_contains(raw, "#24"@) || seq_contains(raw, "openurl"@) || seq_contains(raw, "shell_run"@)
        || seq_contains(raw, "runas"@)
}

pub open spec fn whitelisted_module(raw: Seq<char>) -> bool {
    seq_contains(raw, "printui.dll"@) || seq_contains(raw, "sysdm.cpl"@) || seq_contains(raw, "advpack.dll"@)
        || seq_contains(raw, "setupapi.dll"@) || seq_contains(raw, "appresolver.dll"@)
}

/// A path outside System32, Program Files and SysWOW64.
pub open spec fn outside_path(raw: Seq<char>) -> bool {
    (seq_contains(raw, ":\\"@) || seq_contains(raw, "\\\\"@))
        && !(seq_contains(raw, "system32"@) || seq_contains(raw, "program files"@) || seq_contains(raw, "syswow64"@))
}

pub fn has_outside_path(raw: &str) -> (b: bool)
    ensures
        b == outside_path(raw@),
{
    (str_contains(raw, ":\\") || str_contains(raw, "\\\\"))
        && !(str_contains(raw, "system32") || str_contains(raw, "program files") || str_contains(raw, "syswow64"))
}

pub open spec fn proxy_binary(img: Seq<char>) -> bool {
    seq_contains(img, "rundll32"@) || seq_contains(img, "regsvr32"@) || seq_contains(img, "msiexec"@)
        || seq_contains(img, "certutil"@)
}

pub open spec fn proxy_forbidden_message(img: Seq<char>) -> Seq<char> {
    "☢️ CRITICAL: WEAPONIZED PROXY EXECUTION! Forbidden export detected in "@ + img + " context. Automatic Red Alert."@
}

pub open spec fn proxy_outside_message(img: Seq<char>) -> Seq<char> {
    "☢️ HIGH: ZERO-TRUST VIOLATION! "@ + img
        + " is loading a binary from a non-standard/unprotected directory. Escalating for forensic review."@
}

pub open spec fn proxy_unknown_message(img: Seq<char>) -> Seq<char> {
    "🟡 WARNING: UNKNOWN PROXY EXECUTION! "@ + img
        + " is running with a non-whitelisted module. Zero-Trust policy enforcement applied."@
}

/// A signed proxy binary: a forbidden export is critical, a module outside the system
/// directories high, a module off the whitelist medium.
pub open spec fn proxy_stage(
    v: (SeverityLevel, Seq<char>, Map<Seq<char>, Seq<char>>, Option<Seq<char>>, bool),
    img: Seq<char>,
    raw: Seq<char>,
) -> (SeverityLevel, Seq<char>, Map<Seq<char>, Seq<char>>, Option<Seq<char>>, bool) {
    if shell_or_proxy(img, raw) && proxy_binary(img) {
        if forbidden_export(raw) {
            flag(v, SeverityLevel::Critical, proxy_forbidden_message(img), "ProxyExecution"@, "SI-4 [Zero-Trust Proxy]"@)
        } else if outside_path(raw) {
            flag(v, SeverityLevel::High, proxy_outside_message(img), "ProxyExecution"@, "SI-4 [Zero-Trust Proxy]"@)
        } else if !whitelisted_module(raw) {
            flag(v, SeverityLevel::Medium, proxy_unknown_message(img), "ProxyExecution"@, "SI-4 [Zero-Trust Proxy]"@)
        } else {
            v
        }
    } else {
        v
    }
}

pub fn proxy_execution(v: &mut Triage, img: &str, raw: &str)
    ensures
        final(v)@ == proxy_stage(old(v)@, img@, raw@),
{
    let proxy = is_shell_or_proxy(img, raw) && (str_contains(img, "rundll32") || str_contains(img, "regsvr32")
        || str_contains(img, "msiexec") || str_contains(img, "certutil"));
    if proxy {
        let forbidden = str_contains(raw, "minidump") || str_contains(raw, "control_rundll")
            || str_contains(raw, "fileprotocolhandler") || str_contains(raw, "#24") || str_contains(raw, "openurl")
            || str_contains(raw, "shell_run") || str_contains(raw, "runas");
        let white = str_contains(raw, "printui.dll") || str_contains(raw, "sysdm.cpl") || str_contains(raw, "advpack.dll")
            || str_contains(raw, "setupapi.dll") || str_contains(raw, "appresolver.dll");
        if forbidden {
            let msg = wrap("☢️ CRITICAL: WEAPONIZED PROXY EXECUTION! Forbidden export detected in ", img,
                " context. Automatic Red Alert.");
            raise(v, SeverityLevel::Critical, msg, "ProxyExecution", "SI-4 [Zero-Trust Proxy]");
        } else if has_outside_path(raw) {
            let msg = wrap("☢️ HIGH: ZERO-TRUST VIOLATION! ", img,
                " is loading a binary from a non-standard/unprotected directory. Escalating for forensic review.");
            raise(v, SeverityLevel::High, msg, "ProxyExecution", "SI-4 [Zero-Trust Proxy]");
        } else if !white {
            let msg = wrap("🟡 WARNING: UNKNOWN PROXY EXECUTION! ", img,
                " is running with a non-whitelisted module. Zero-Trust policy enforcement applied.");
            raise(v, SeverityLevel::Medium, msg, "ProxyExecution", "SI-4 [Zero-Trust Proxy]");
        }
    }
}

// ---- COM hijacking ----

pub open spec fn com_hijack(raw: Seq<char>) -> bool {
    (seq_contains(raw, "inprocserver32"@) || seq_contains(raw, "localserver32"@))
        && (seq_contains(raw, "software\\classes\\clsid"@) || seq_contains(raw, "hkcu"@))
        && outside_path(raw)
}

/// A COM server registration pointing outside the system directories is critical.
pub open spec fn com_stage(
    v: (SeverityLevel, Seq<char>, Map<Seq<char>, Seq<char>>, Option<Seq<char>>, bool),
    raw: Seq<char>,
) -> (SeverityLevel, Seq<char>, Map<Seq<char>, Seq<char>>, Option<Seq<char>>, bool) {
    if com_hijack(raw) {
        flag(v, SeverityLevel::Critical,
            "☢️ CRITICAL: COM HIJACKING DETECTED! Registry persistence established via InprocServer32/LocalServer32 pointing to a non-system path. Possible T1546.015."@,
            "COMHijacking"@, "SI-4 [Persistence Trap]"@)
    } else {
        v
    }
}

pub fn com_hijacking(v: &mut Triage, raw: &str)
    ensures
        final(v)@ == com_stage(old(v)@, raw@),
{
    if (str_contains(raw, "inprocserver32") || str_contains(raw, "localserver32"))
        && (str_contains(raw, "software\\classes\\clsid") || str_contains(raw, "hkcu")) && has_outside_path(raw) {
        let msg = owned("☢️ CRITICAL: COM HIJACKING DETECTED! Registry persistence established via InprocServer32/LocalServer32 pointing to a non-system path. Possible T1546.015.");
        raise(v, SeverityLevel::Critical, msg, "COMHijacking", "SI-4 [Persistence Trap]");
    }
}

// ---- Orphaned processes ----

pub open spec fn pivot_message(image: Seq<char>, ip: Seq<char>, port: nat) -> Seq<char> {
    "☢️ CRITICAL: PIVOT ATTEMPT DETECTED! Orphan process "@ + image + " is initiating network traffic to "@ + ip + ":"@
        + decimal(port) + "."@
}

/// An orphaned process with a severe or unmatched finding and no heuristic triage yet:
/// network traffic is a pivot attempt; a signature match an orphan process. Both are critical.
pub open spec fn orphan_stage(
    v: (SeverityLevel, Seq<char>, Map<Seq<char>, Seq<char>>, Option<Seq<char>>, bool),
    orphan: bool,
    matched: bool,
    dest: Option<Seq<char>>,
    image: Option<Seq<char>>,
    port: Option<u16>,
) -> (SeverityLevel, Seq<char>, Map<Seq<char>, Seq<char>>, Option<Seq<char>>, bool) {
    if orphan && (sev_rank(v.0) >= 3 || !matched) && !v.4 {
        match dest {
            Some(ip) => {
                let img = match image { Some(i) => i, None => "Unknown"@ };
                let p: nat = match port { Some(p) => p as nat, None => 0 };
                flag(v, SeverityLevel::Critical, pivot_message(img, ip, p), "PivotAttempt"@, "SI-4 [Iron Sights]"@)
            }
            None => if matched {
                flag(v, SeverityLevel::Critical,
                    "☢️ CRITICAL: ORPHAN PROCESS DETECTED! No verifiable parent lineage for high-privilege activity. Possible Process Hollowing."@,
                    "OrphanProcess"@, "SI-4 [Ghost Hunter]"@)
            } else {
                v
            },
        }
    } else {
        v
    }
}

pub fn orphan_escalation(v: &mut Triage, orphan: bool, matched: bool, dest: &Option<String>, image: &Option<String>, port: Option<u16>)
    ensures
        final(v)@ == orphan_stage(old(v)@, orphan, matched, opt_view(*dest), opt_view(*image), port),
{
    if orphan && (v.severity.at_least(SeverityLevel::High) || !matched) && !v.hit {
        match dest {
            Some(ip) => {
                let img = match image { Some(i) => owned(i.as_str()), None => owned("Unknown") };
                let p: u16 = match port { Some(p) => p, None => 0 };
                let a = wrap("☢️ CRITICAL: PIVOT ATTEMPT DETECTED! Orphan process ", img.as_str(), " is initiating network traffic to ");
                let b = wrap(a.as_str(), ip.as_str(), ":");
                let ps = u64_to_string(p as u64);
                let msg = wrap(b.as_str(), ps.as_str(), ".");
                raise(v, SeverityLevel::Critical, msg, "PivotAttempt", "SI-4 [Iron Sights]");
            }
            None => {
                if matched {
                    let msg = owned("☢️ CRITICAL: ORPHAN PROCESS DETECTED! No verifiable parent lineage for high-privilege activity. Possible Process Hollowing.");
                    raise(v, SeverityLevel::Critical, msg, "OrphanProcess", "SI-4 [Ghost Hunter]");
                }
            }
        }
    }
}

// ---- Suppression ----

/// Maintenance from a verified lineage that no heuristic flagged is informational.
pub open spec fn verified_origin_stage(
    v: (SeverityLevel, Seq<char>, Map<Seq<char>, Seq<char>>, Option<Seq<char>>, bool),
    verified: bool,
    chain: Seq<char>,
) -> (SeverityLevel, Seq<char>, Map<Seq<char>, Seq<char>>, Option<Seq<char>>, bool) {
    if verified && !v.4 && sev_rank(v.0) >= 3 {
        (SeverityLevel::Info, "[Lineage Verified] System maintenance/install activity confirmed: "@ + chain, v.2,
            Some("VerifiedOrigin"@), v.4)
    } else {
        v
    }
}

pub fn verified_origin(v: &mut Triage, verified: bool, chain: &str)
    ensures
        final(v)@ == verified_origin_stage(old(v)@, verified, chain@),
{
    if verified && !v.hit && v.severity.at_least(SeverityLevel::High) {
        v.severity = SeverityLevel::Info;
        v.outcome = Some(owned("VerifiedOrigin"));
        v.message = concat("[Lineage Verified] System maintenance/install activity confirmed: ", chain);
    }
}

/// A signature seen more than 500 times in its window is noise: medium at most.
pub open spec fn noise_stage(
    v: (SeverityLevel, Seq<char>, Map<Seq<char>, Seq<char>>, Option<Seq<char>>, bool),
    count: Option<u64>,
) -> (SeverityLevel, Seq<char>, Map<Seq<char>, Seq<char>>, Option<Seq<char>>, bool) {
    if !v.4 && sev_rank(v.0) < 4 && (count matches Some(c) && c > 500) {
        (SeverityLevel::Medium, v.1, v.2.insert("noise_suppression"@, "true"@), Some("HighVolumeNoise"@), v.4)
    } else {
        v
    }
}

pub fn noise_suppression(v: &mut Triage, count: Option<u64>)
    ensures
        final(v)@ == noise_stage(old(v)@, count),
{
    if !v.hit && !v.severity.at_least(SeverityLevel::Critical) {
        if let Some(c) = count {
            if c > 500 {
                v.severity = SeverityLevel::Medium;
                v.outcome = Some(owned("HighVolumeNoise"));
                v.metadata.insert(owned("noise_suppression"), owned("true"));
            }
        }
    }
}

/// The metadata of a reported finding: a default control, and the message as captured message,
/// where none was set.
pub open spec fn finalize_metadata(md: Map<Seq<char>, Seq<char>>, message: Seq<char>) -> Map<Seq<char>, Seq<char>> {
    let m1 = if !md.contains_key("nist_control_id"@) {
        md.insert("nist_control_id"@, "SI-4 [Windows Integrity]"@).insert("nist_category"@, "System and Information Integrity"@)
    } else {
        md
    };
    if !m1.contains_key("captured_message"@) { m1.insert("captured_message"@, message) } else { m1 }
}

pub fn finalize(v: &mut Triage)
    ensures
        final(v)@ == (old(v)@.0, old(v)@.1, finalize_metadata(old(v)@.2, old(v)@.1), old(v)@.3, old(v)@.4),
{
    if !v.metadata.contains_key("nist_control_id") {
        v.metadata.insert(owned("nist_control_id"), owned("SI-4 [Windows Integrity]"));
        v.metadata.insert(owned("nist_category"), owned("System and Information Integrity"));
    }
    if !v.metadata.contains_key("captured_message") {
        let m = owned(v.message.as_str());
        v.metadata.insert(owned("captured_message"), m);
    }
}

} // verus!
