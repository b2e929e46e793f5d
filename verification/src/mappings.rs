//! NIST control mappings: the signatures the detection engine evaluates, and the built-in set.

use vstd::prelude::*;
use crate::models::{ComplianceStatus, SeverityLevel};
use crate::text::{owned, owned_opt, clone_opt, opt_view, opt_str_view};

verus! {

/// A NIST control and the signature that detects a breach of it.
///
/// `pattern` is the source of the signature when it compiles as a regular expression;
/// `pattern_str` is the source as configured.
#[derive(Debug)]
pub struct ControlMapping {
    pub control_id: String,
    pub category: String,
    pub description: String,
    pub human_title: String,
    pub human_action: String,
    pub long_description: String,
    pub remediation: String,
    pub target_field: Option<String>,
    pub default_status: ComplianceStatus,
    pub severity: SeverityLevel,
    pub pattern_str: Option<String>,
    pub adversary_profile: Option<String>,
    pub tactical_intent: Option<String>,
    pub attack_mechanism: Option<String>,
    pub pattern: Option<String>,
}

/// The descriptive fields of a mapping, by their views.
pub open spec fn mapping_texts(
    m: ControlMapping,
    control_id: Seq<char>,
    category: Seq<char>,
    description: Seq<char>,
    human_title: Seq<char>,
    human_action: Seq<char>,
    long_description: Seq<char>,
    remediation: Seq<char>,
    adversary_profile: Option<Seq<char>>,
    tactical_intent: Option<Seq<char>>,
    attack_mechanism: Option<Seq<char>>,
) -> bool {
    &&& m.control_id@ == control_id
    &&& m.category@ == category
    &&& m.description@ == description
    &&& m.human_title@ == human_title
    &&& m.human_action@ == human_action
    &&& m.long_description@ == long_description
    &&& m.remediation@ == remediation
    &&& opt_view(m.adversary_profile) == adversary_profile
    &&& opt_view(m.tactical_intent) == tactical_intent
    &&& opt_view(m.attack_mechanism) == attack_mechanism
}

/// The evaluation fields of a mapping: the signature is both the configured and the compiled one.
pub open spec fn mapping_rule(
    m: ControlMapping,
    target_field: Option<Seq<char>>,
    default_status: ComplianceStatus,
    severity: SeverityLevel,
    pattern: Option<Seq<char>>,
) -> bool {
    &&& opt_view(m.target_field) == target_field
    &&& m.default_status == default_status
    &&& m.severity == severity
    &&& opt_view(m.pattern_str) == pattern
    &&& opt_view(m.pattern) == pattern
}

/// Two mappings with the same field values.
pub open spec fn same_mapping(a: ControlMapping, b: ControlMapping) -> bool {
    &&& mapping_texts(a, b.control_id@, b.category@, b.description@, b.human_title@, b.human_action@,
        b.long_description@, b.remediation@, opt_view(b.adversary_profile), opt_view(b.tactical_intent),
        opt_view(b.attack_mechanism))
    &&& opt_view(a.target_field) == opt_view(b.target_field)
    &&& a.default_status == b.default_status
    &&& a.severity == b.severity
    &&& opt_view(a.pattern_str) == opt_view(b.pattern_str)
    &&& opt_view(a.pattern) == opt_view(b.pattern)
}

/// The signature source of the built-in mapping at position `k` (0 to 13).
pub open spec fn builtin_pattern(k: int) -> Option<Seq<char>> {
    if k == 0 {
        Some(r"\[LINEAGE ANOMALY\]"@)
    } else if k == 1 {
        Some(r"(?is)txt=.{500,}"@)
    } else if k == 2 {
        Some(r#"(?i)"Operation":\s*"Add app role assignment to service principal.""#@)
    } else if k == 3 {
        Some(r#"(?i)"Operation":\s*"(Add-MailboxPermission|Disable-Mfa|Set-Mailbox)""#@)
    } else if k == 4 {
        Some(r#"(?i)CBS_E_MANIFEST_INVALID_ITEM|0x800f080d|EventID 2004|Resource-Exhaustion-Detector|0x80042100|netstat\s+-ano|ipconfig\s+/all|\bnmap\b|\bnc\s+-|\bncat\b|\bexploit\b|ZAM64|BYOV|CVE-2021-21551|doppel|proc_doppel|doppelgang|ntds\.dit|ntdsutil|herpaderp|scriptblocklogging|transcription|powershell.*policies|System\.Management\.Automation|psinject|\[Net\.ServicePointManager\]|\$env:temp|DownloadFile|Invoke-WebRequest|IWR|javascript:|mshtml,RunHTMLApplication|mshta.*\.hta|mshta.*(http|https)|user shell folders.*startup|mscfile\\shell\\open\\command|ms-settings\\shell\\open\\command|eventvwr\.exe|bitsadmin|start-bitstransfer|openvpn|BITS-Client|-s EventLog|wevtutil(\.exe)?\s+cl|clear-eventlog|cmstp(\.exe)?.*(/au|/ni|/s|\.inf|\.ini)|timestomp|Set-ItemProperty.*CreationTime|(\\[a-z0-9_]{15,}\.exe)|(\\AppData\\Local\\Temp\\[a-z0-9_]+\.exe)|promptforcredential|getnetworkcredential|validatecredentials|Suspicious_C2_Tunnel|DNS_TXT_C2_Tunneling|DNS-TXT|SMBGhost|CVE-2020-0796|ZeroLogon|CVE-2020-1472|NetrServerAuthenticate: Bad password 0|NetrServerAuthenticate returns Success|PetitPotam|MS-EFSR|EFS_RPC|CVE-2021-36942|byt3bl33d3r|Event Log Crash|Defense Evasion|/etc/shadow|authorized_keys|crontab\\s+-e|systemctl\\s+stop|(\.env|config\.php|wp-admin|phpinfo)|TCC\.db|PipeName"#@)
    } else if k == 5 {
        Some(r"(?i)EventID.*?488(6|7)"@)
    } else if k == 6 {
        Some(r"(?i)(log cleared|audit log was cleared|EventID.*?1102|EventID.*?104|systemctl stop (rsyslog|auditd)|net stop (eventlog|sysmon)|kill -9.*(rsyslog|auditd|eventlog))"@)
    } else if k == 7 {
        Some(r"(?i)\[HONEYPOT\]"@)
    } else if k == 8 {
        Some(r"(?i)\b(mimikatz|mimidrv|procdump|pypykatz|ppldump|LsarSetSecret|AS-REQ|Kerbrute)\b|comsvcs\.dll.*?MiniDump|rdp-tcp|psexesvc|wmiprvse|lsarpc|samr|DCSync|krbtgt|DRSUAPI|MachineAccount Password|Policy\\Secrets|TGS-REQ|sname=krbtgt|RC4-HMAC|EType 23"@)
    } else if k == 9 {
        Some(r"(?i)(schtasks(\.exe)?\s+/create|EventID.*?469(8)|EventID.*?4702).*?\\(AppData\\Local\\Temp|Windows\\Temp|Public)"@)
    } else if k == 10 {
        Some(r"(?i)(reg\s+add.*\\(CurrentVersion\\(Run|RunOnce)|Winlogon\\Shell|Image\s+File\s+Execution\s+Options)|EventID.*?4657).*?(cmd\.exe\s+/c|powershell\s+-enc|\\Temp\\|\\AppData\\)"@)
    } else if k == 11 {
        Some(r"(?i)EventID.*?585(7|8)"@)
    } else if k == 12 {
        Some(r"(?i)(ProcessHollowing|MirrorTestFail|mimic__aegis|EventID.*?wevtutil.*?cl|clear-eventlog)"@)
    } else if k == 13 {
        None
    } else {
        None
    }
}

/// The built-in mapping at position `k`: the two that come before the loaded ones (0 and 1),
/// then the twelve that come after them (2 to 13).
pub open spec fn builtin_rule(k: int, m: ControlMapping) -> bool {
    if k == 0 {
        &&& mapping_texts(m, "SI-4 [Ghost Hunter]"@, "System and Information Integrity"@, "Operation Ghost Hunter: Lineage-based parent-child anomaly detection"@, "Suspicious Process Lineage Detected"@, "Isolate host and investigate the process tree for malicious activity."@,
            "Detection of anomalous parent-child relationships, such as Office applications spawning shells or system utilities spawning unusual binaries."@, "Investigate suspicious process parent-child relationship. Office app spawning shells is a high-fidelity indicator of exploit/macro execution."@,
            Some("Hostile Lineage (LotL/LotB)"@), Some("Execution of malicious code via trusted parent processes."@), Some("Parent-Child Anomaly (LotL/LotB)"@))
        &&& mapping_rule(m, Some("message"@), ComplianceStatus::Fail, SeverityLevel::Critical, builtin_pattern(0))
    } else if k == 1 {
        &&& mapping_texts(m, "SC-7 [C2 Exfiltration]"@, "System & Comms Protection"@, "Command and Control / Data Exfiltration"@, "Anomalous Network Data Outbound"@, "Large amounts of data are being sent from your computer to an unknown location. This often indicates an active security breach or data theft."@,
            "Detection of massive data exfiltration via HTTP POST bodies. This pattern, characterized by high-entropy encoded payloads in single parameters, is a definitive signature of backdoor C2 beaconing."@, "Immediately isolate the host. Extract the 'Host:' header from the forensic evidence to identify the C2/DGA domain. Blacklist the domain at the perimeter firewall/DNS sinkhole. Perform full forensic audit of the exfiltrated payload."@,
            Some("Unknown (C2 Beaconing)"@), Some("Establish Command and Control channel and exfiltrate data."@), Some("High-entropy network payloads."@))
        &&& mapping_rule(m, Some("raw"@), ComplianceStatus::Fail, SeverityLevel::Critical, builtin_pattern(1))
    } else if k == 2 {
        &&& mapping_texts(m, "AC-3 [Cloud Identity Expansion]"@, "Access Enforcement"@, "Azure AD: Service Principal Privilege Escalation / Role Assignment"@, "Identity Permission Theft"@, "Check your Azure/Office 365 permissions and revoke any unauthorized 'Service Principal' role assignments."@,
            "Detection of app role assignments to service principals. Targeted role assignment (e.g., Mail.Read.All) is a critical precursor to O365 data exfiltration and domain dominance."@, "Audit the Service Principal for over-privileged Graph permissions. Immediately revoke unauthorized AppRole assignments. Review sign-in logs for the affected Service Principal ID."@,
            Some("Unknown (Cloud Identity Hijack)"@), Some("Gain unauthorized access to identity infrastructure."@), Some("Azure AD Service Principal role assignment."@))
        &&& mapping_rule(m, Some("raw"@), ComplianceStatus::Fail, SeverityLevel::High, builtin_pattern(2))
    } else if k == 3 {
        &&& mapping_texts(m, "AU-10 [Cloud Forensic Extension]"@, "Audit and Accountability"@, "O365: MFA Tampering / Unauthorized Mailbox Permission Change"@, "Email & Security Tampering"@, "Change your main user password and re-enable Multi-Factor Authentication (MFA) for the affected account immediately."@,
            "Detection of O365 mailbox permission changes (Add-MailboxPermission) or MFA disabling operations. These represent attempts to gain persistent access to executive communications or bypass identity security controls."@, "Verify user identity via out-of-band communication. Rollback mailbox permission changes. Immediately enforce MFA re-enrollment for the affected account."@,
            Some("Unknown (O365 Tampering)"@), Some("Gain access to executive communications by tampering with mail permissions."@), Some("MFA disabling or mailbox permission modification."@))
        &&& mapping_rule(m, Some("raw"@), ComplianceStatus::Fail, SeverityLevel::Critical, builtin_pattern(3))
    } else if k == 4 {
        &&& mapping_texts(m, "SI-4 [Windows Integrity]"@, "System & Info Integrity"@, "Windows Forensic: System Integrity / Active Exploit"@, "Critical System Takeover Attempt"@, "1. Disconnect your computer from the internet immediately. 2. Run Windows Update as soon as you reconnect securely. 3. Change your main Windows/Admin password."@,
            "Detection of system manifest corruption, execution of discovery tools, or highly definitive protocol-level exploit markers."@, "Immediately isolate host and freeze network segment. Run 'dism /online /cleanup-image /restorehealth' for manifest corruption."@,
            Some("Unknown (Windows Exploitation)"@), Some("Compromise system integrity via exploit or baseline deviation."@), Some("Generic system exploit marker."@))
        &&& mapping_rule(m, Some("raw"@), ComplianceStatus::Fail, SeverityLevel::Critical, builtin_pattern(4))
    } else if k == 5 {
        &&& mapping_texts(m, "AC-3 [Identity Infrastructure]"@, "Access Enforcement"@, "Windows Forensic: AD Certificate Services (AD CS) Request / Abuse"@, "Identity System Abuse"@, "A core identity certificates system was accessed or tampered with."@,
            "Audit of Active Directory Certificate Services (AD CS) requests (4886) and approvals (4887)."@, "Verify the requested Template and Subject Alternative Name (SAN)."@,
            Some("Unknown (Identity Infrastructure)"@), Some("Abuse Active Directory Certificate Services."@), Some("AD CS Certificate request/abuse."@))
        &&& mapping_rule(m, Some("raw"@), ComplianceStatus::Fail, SeverityLevel::Medium, builtin_pattern(5))
    } else if k == 6 {
        &&& mapping_texts(m, "AU-9"@, "Audit and Accountability"@, "Detection of audit log clearing or service tampering"@, "Security Log Tampering"@, "Your security logs were just cleared."@,
            "Clearing audit logs or stopping the logging service is a high-severity indicator of anti-forensic activity."@, "Investigate why the log service was stopped or cleared."@,
            Some("Unknown (Anti-Forensic Actor)"@), Some("Cover tracks by deleting forensic evidence."@), Some("Audit log clearing or service tampering."@))
        &&& mapping_rule(m, Some("raw"@), ComplianceStatus::Fail, SeverityLevel::Critical, builtin_pattern(6))
    } else if k == 7 {
        &&& mapping_texts(m, "AU-12"@, "Incident Response"@, "Honeypot/Trap trigger from active reconnaissance"@, "Security Tripwire Triggered"@, "An automated threat or actor touched a security 'trap'."@,
            "Access to 'honeypot' resources is a reliable indicator of malicious intent."@, "Initiate full Incident Response (IR) for the host."@,
            Some("Unknown (Honeypot Trigger)"@), Some("Unauthorized discovery or reconnaissance."@), Some("Access to trap/honeypot resource."@))
        &&& mapping_rule(m, None, ComplianceStatus::Fail, SeverityLevel::Critical, builtin_pattern(7))
    } else if k == 8 {
        &&& mapping_texts(m, "AC-3 [Credential Access]"@, "Access Enforcement"@, "NIST AC-3: Explicit OS Credential Access"@, "Security Credential Theft"@, "Someone tried to steal your saved passwords."@,
            "Detection of explicit offensive tooling (Mimikatz, Procdump, etc.)."@, "Assume all local and domain credentials cached on this system are compromised."@,
            Some("Unknown (Credential Harvester)"@), Some("Harvest administrative credentials to facilitate domain-wide escalation."@), Some("Credential extraction via Mimikatz/Procdump."@))
        &&& mapping_rule(m, Some("raw"@), ComplianceStatus::Fail, SeverityLevel::Critical, builtin_pattern(8))
    } else if k == 9 {
        &&& mapping_texts(m, "CM-3 [Scheduled Task Manipulation]"@, "Configuration Management"@, "NIST CM-3: Unauthorized persistence via Scheduled Task creation/modification"@, "☢️ Hidden Scheduled Task Created"@, "A hidden task was created to run programs automatically."@,
            "Audit of schtasks.exe activity and Event IDs 4698 (Task Created) / 4702 (Task Updated)."@, "Immediately delete the suspicious task: 'schtasks /delete /tn \"TASK_NAME\" /f'."@,
            Some("Unknown (Persistence Actor)"@), Some("Maintain long-term access via automated task execution."@), Some("Unauthorized Scheduled Task creation."@))
        &&& mapping_rule(m, None, ComplianceStatus::Fail, SeverityLevel::High, builtin_pattern(9))
    } else if k == 10 {
        &&& mapping_texts(m, "SC-7 [Registry Persistence]"@, "System & Comms Protection"@, "NIST SC-7: Registry 'Run' key hijack for automatic startup"@, "☢️ Automatic Startup Hijack Attempt"@, "An attacker tried to hide a program in your system's 'Automatic Startup' list."@,
            "Detection of modifications to high-value auto-run keys via EventID 4657."@, "Audit the registry key using 'reg query'."@,
            Some("Unknown (Persistence Actor)"@), Some("Establish persistence via registry auto-run hijacking."@), Some("Registry 'Run' key modification."@))
        &&& mapping_rule(m, None, ComplianceStatus::Fail, SeverityLevel::High, builtin_pattern(10))
    } else if k == 11 {
        &&& mapping_texts(m, "SI-4 [WMI Persistence]"@, "System & Info Integrity"@, "NIST SI-4: WMI Permanent Event Consumer establishment"@, "☢️ WMI Persistence Script Detected"@, "A stealthy WMI script was set up to run in the background."@,
            "Detection of WMI Filter-to-Consumer bindings (Event IDs 5857/5858)."@, "List WMI consumers and remove unauthorized ones."@,
            Some("Unknown (Stealth Persistence Actor)"@), Some("Establish stealthy persistence via WMI event filters."@), Some("WMI Permanent Event Consumer establishment."@))
        &&& mapping_rule(m, None, ComplianceStatus::Fail, SeverityLevel::High, builtin_pattern(11))
    } else if k == 12 {
        &&& mapping_texts(m, "SI-4 [Mirror Test]"@, "System & Info Integrity"@, "NIST SI-4: Process Hollowing / Stealth Detection (Mirror Test)"@, "☢️ Stealth Process Hijack Unmasked"@, "A standard Windows program is behaving like a virus."@,
            "Detection of signature-mismatch or behaviorally inconsistent common processes."@, "Isolate the host from the network. Capture a memory dump."@,
            Some("Unknown (Stealth Process Actor)"@), Some("Bypass process monitoring via hollowing or masquerading."@), Some("Mirror Test / Process Hollowing signature."@))
        &&& mapping_rule(m, None, ComplianceStatus::Fail, SeverityLevel::Critical, builtin_pattern(12))
    } else if k == 13 {
        &&& mapping_texts(m, "AU-3"@, "Audit and Accountability"@, "Verify audit record content integrity via active privacy masking (redaction)."@, "Privacy System Active"@, "Aegis is protecting your private data."@,
            "Audit records should be redacted of PII/PHI."@, "No action required."@,
            Some("Aegis Privacy Engine"@), Some("Protect PII/PHI via automated redaction."@), Some("Baseline security audit."@))
        &&& mapping_rule(m, None, ComplianceStatus::Pass, SeverityLevel::Low, builtin_pattern(13))
    } else {
        false
    }
}

fn make_mapping(
    control_id: &str,
    category: &str,
    description: &str,
    human_title: &str,
    human_action: &str,
    long_description: &str,
    remediation: &str,
    target_field: Option<&str>,
    default_status: ComplianceStatus,
    severity: SeverityLevel,
    pattern: Option<&str>,
    adversary_profile: Option<&str>,
    tactical_intent: Option<&str>,
    attack_mechanism: Option<&str>,
) -> (m: ControlMapping)
    ensures
        mapping_texts(m, control_id@, category@, description@, human_title@, human_action@,
            long_description@, remediation@, opt_str_view(adversary_profile), opt_str_view(tactical_intent),
            opt_str_view(attack_mechanism)),
        mapping_rule(m, opt_str_view(target_field), default_status, severity, opt_str_view(pattern)),
{
    ControlMapping {
        control_id: owned(control_id),
        category: owned(category),
        description: owned(description),
        human_title: owned(human_title),
        human_action: owned(human_action),
        long_description: owned(long_description),
        remediation: owned(remediation),
        target_field: owned_opt(target_field),
        default_status,
        severity,
        pattern_str: owned_opt(pattern),
        adversary_profile: owned_opt(adversary_profile),
        tactical_intent: owned_opt(tactical_intent),
        attack_mechanism: owned_opt(attack_mechanism),
        pattern: owned_opt(pattern),
    }
}

fn builtin_0() -> (m: ControlMapping)
    ensures
        builtin_rule(0, m),
{
    make_mapping(
        "SI-4 [Ghost Hunter]",
        "System and Information Integrity",
        "Operation Ghost Hunter: Lineage-based parent-child anomaly detection",
        "Suspicious Process Lineage Detected",
        "Isolate host and investigate the process tree for malicious activity.",
        "Detection of anomalous parent-child relationships, such as Office applications spawning shells or system utilities spawning unusual binaries.",
        "Investigate suspicious process parent-child relationship. Office app spawning shells is a high-fidelity indicator of exploit/macro execution.",
        Some("message"),
        ComplianceStatus::Fail,
        SeverityLevel::Critical,
        Some(r"\[LINEAGE ANOMALY\]"),
        Some("Hostile Lineage (LotL/LotB)"),
        Some("Execution of malicious code via trusted parent processes."),
        Some("Parent-Child Anomaly (LotL/LotB)"),
    )
}

fn builtin_1() -> (m: ControlMapping)
    ensures
        builtin_rule(1, m),
{
    make_mapping(
        "SC-7 [C2 Exfiltration]",
        "System & Comms Protection",
        "Command and Control / Data Exfiltration",
        "Anomalous Network Data Outbound",
        "Large amounts of data are being sent from your computer to an unknown location. This often indicates an active security breach or data theft.",
        "Detection of massive data exfiltration via HTTP POST bodies. This pattern, characterized by high-entropy encoded payloads in single parameters, is a definitive signature of backdoor C2 beaconing.",
        "Immediately isolate the host. Extract the 'Host:' header from the forensic evidence to identify the C2/DGA domain. Blacklist the domain at the perimeter firewall/DNS sinkhole. Perform full forensic audit of the exfiltrated payload.",
        Some("raw"),
        ComplianceStatus::Fail,
        SeverityLevel::Critical,
        Some(r"(?is)txt=.{500,}"),
        Some("Unknown (C2 Beaconing)"),
        Some("Establish Command and Control channel and exfiltrate data."),
        Some("High-entropy network payloads."),
    )
}

fn builtin_2() -> (m: ControlMapping)
    ensures
        builtin_rule(2, m),
{
    make_mapping(
        "AC-3 [Cloud Identity Expansion]",
        "Access Enforcement",
        "Azure AD: Service Principal Privilege Escalation / Role Assignment",
        "Identity Permission Theft",
        "Check your Azure/Office 365 permissions and revoke any unauthorized 'Service Principal' role assignments.",
        "Detection of app role assignments to service principals. Targeted role assignment (e.g., Mail.Read.All) is a critical precursor to O365 data exfiltration and domain dominance.",
        "Audit the Service Principal for over-privileged Graph permissions. Immediately revoke unauthorized AppRole assignments. Review sign-in logs for the affected Service Principal ID.",
        Some("raw"),
        ComplianceStatus::Fail,
        SeverityLevel::High,
        Some(r#"(?i)"Operation":\s*"Add app role assignment to service principal.""#),
        Some("Unknown (Cloud Identity Hijack)"),
        Some("Gain unauthorized access to identity infrastructure."),
        Some("Azure AD Service Principal role assignment."),
    )
}

fn builtin_3() -> (m: ControlMapping)
    ensures
        builtin_rule(3, m),
{
    make_mapping(
        "AU-10 [Cloud Forensic Extension]",
        "Audit and Accountability",
        "O365: MFA Tampering / Unauthorized Mailbox Permission Change",
        "Email & Security Tampering",
        "Change your main user password and re-enable Multi-Factor Authentication (MFA) for the affected account immediately.",
        "Detection of O365 mailbox permission changes (Add-MailboxPermission) or MFA disabling operations. These represent attempts to gain persistent access to executive communications or bypass identity security controls.",
        "Verify user identity via out-of-band communication. Rollback mailbox permission changes. Immediately enforce MFA re-enrollment for the affected account.",
        Some("raw"),
        ComplianceStatus::Fail,
        SeverityLevel::Critical,
        Some(r#"(?i)"Operation":\s*"(Add-MailboxPermission|Disable-Mfa|Set-Mailbox)""#),
        Some("Unknown (O365 Tampering)"),
        Some("Gain access to executive communications by tampering with mail permissions."),
        Some("MFA disabling or mailbox permission modification."),
    )
}

fn builtin_4() -> (m: ControlMapping)
    ensures
        builtin_rule(4, m),
{
    make_mapping(
        "SI-4 [Windows Integrity]",
        "System & Info Integrity",
        "Windows Forensic: System Integrity / Active Exploit",
        "Critical System Takeover Attempt",
        "1. Disconnect your computer from the internet immediately. 2. Run Windows Update as soon as you reconnect securely. 3. Change your main Windows/Admin password.",
        "Detection of system manifest corruption, execution of discovery tools, or highly definitive protocol-level exploit markers.",
        "Immediately isolate host and freeze network segment. Run 'dism /online /cleanup-image /restorehealth' for manifest corruption.",
        Some("raw"),
        ComplianceStatus::Fail,
        SeverityLevel::Critical,
        Some(r#"(?i)CBS_E_MANIFEST_INVALID_ITEM|0x800f080d|EventID 2004|Resource-Exhaustion-Detector|0x80042100|netstat\s+-ano|ipconfig\s+/all|\bnmap\b|\bnc\s+-|\bncat\b|\bexploit\b|ZAM64|BYOV|CVE-2021-21551|doppel|proc_doppel|doppelgang|ntds\.dit|ntdsutil|herpaderp|scriptblocklogging|transcription|powershell.*policies|System\.Management\.Automation|psinject|\[Net\.ServicePointManager\]|\$env:temp|DownloadFile|Invoke-WebRequest|IWR|javascript:|mshtml,RunHTMLApplication|mshta.*\.hta|mshta.*(http|https)|user shell folders.*startup|mscfile\\shell\\open\\command|ms-settings\\shell\\open\\command|eventvwr\.exe|bitsadmin|start-bitstransfer|openvpn|BITS-Client|-s EventLog|wevtutil(\.exe)?\s+cl|clear-eventlog|cmstp(\.exe)?.*(/au|/ni|/s|\.inf|\.ini)|timestomp|Set-ItemProperty.*CreationTime|(\\[a-z0-9_]{15,}\.exe)|(\\AppData\\Local\\Temp\\[a-z0-9_]+\.exe)|promptforcredential|getnetworkcredential|validatecredentials|Suspicious_C2_Tunnel|DNS_TXT_C2_Tunneling|DNS-TXT|SMBGhost|CVE-2020-0796|ZeroLogon|CVE-2020-1472|NetrServerAuthenticate: Bad password 0|NetrServerAuthenticate returns Success|PetitPotam|MS-EFSR|EFS_RPC|CVE-2021-36942|byt3bl33d3r|Event Log Crash|Defense Evasion|/etc/shadow|authorized_keys|crontab\\s+-e|systemctl\\s+stop|(\.env|config\.php|wp-admin|phpinfo)|TCC\.db|PipeName"#),
        Some("Unknown (Windows Exploitation)"),
        Some("Compromise system integrity via exploit or baseline deviation."),
        Some("Generic system exploit marker."),
    )
}

fn builtin_5() -> (m: ControlMapping)
    ensures
        builtin_rule(5, m),
{
    make_mapping(
        "AC-3 [Identity Infrastructure]",
        "Access Enforcement",
        "Windows Forensic: AD Certificate Services (AD CS) Request / Abuse",
        "Identity System Abuse",
        "A core identity certificates system was accessed or tampered with.",
        "Audit of Active Directory Certificate Services (AD CS) requests (4886) and approvals (4887).",
        "Verify the requested Template and Subject Alternative Name (SAN).",
        Some("raw"),
        ComplianceStatus::Fail,
        SeverityLevel::Medium,
        Some(r"(?i)EventID.*?488(6|7)"),
        Some("Unknown (Identity Infrastructure)"),
        Some("Abuse Active Directory Certificate Services."),
        Some("AD CS Certificate request/abuse."),
    )
}

fn builtin_6() -> (m: ControlMapping)
    ensures
        builtin_rule(6, m),
{
    make_mapping(
        "AU-9",
        "Audit and Accountability",
        "Detection of audit log clearing or service tampering",
        "Security Log Tampering",
        "Your security logs were just cleared.",
        "Clearing audit logs or stopping the logging service is a high-severity indicator of anti-forensic activity.",
        "Investigate why the log service was stopped or cleared.",
        Some("raw"),
        ComplianceStatus::Fail,
        SeverityLevel::Critical,
        Some(r"(?i)(log cleared|audit log was cleared|EventID.*?1102|EventID.*?104|systemctl stop (rsyslog|auditd)|net stop (eventlog|sysmon)|kill -9.*(rsyslog|auditd|eventlog))"),
        Some("Unknown (Anti-Forensic Actor)"),
        Some("Cover tracks by deleting forensic evidence."),
        Some("Audit log clearing or service tampering."),
    )
}

fn builtin_7() -> (m: ControlMapping)
    ensures
        builtin_rule(7, m),
{
    make_mapping(
        "AU-12",
        "Incident Response",
        "Honeypot/Trap trigger from active reconnaissance",
        "Security Tripwire Triggered",
        "An automated threat or actor touched a security 'trap'.",
        "Access to 'honeypot' resources is a reliable indicator of malicious intent.",
        "Initiate full Incident Response (IR) for the host.",
        None,
        ComplianceStatus::Fail,
        SeverityLevel::Critical,
        Some(r"(?i)\[HONEYPOT\]"),
        Some("Unknown (Honeypot Trigger)"),
        Some("Unauthorized discovery or reconnaissance."),
        Some("Access to trap/honeypot resource."),
    )
}

fn builtin_8() -> (m: ControlMapping)
    ensures
        builtin_rule(8, m),
{
    make_mapping(
        "AC-3 [Credential Access]",
        "Access Enforcement",
        "NIST AC-3: Explicit OS Credential Access",
        "Security Credential Theft",
        "Someone tried to steal your saved passwords.",
        "Detection of explicit offensive tooling (Mimikatz, Procdump, etc.).",
        "Assume all local and domain credentials cached on this system are compromised.",
        Some("raw"),
        ComplianceStatus::Fail,
        SeverityLevel::Critical,
        Some(r"(?i)\b(mimikatz|mimidrv|procdump|pypykatz|ppldump|LsarSetSecret|AS-REQ|Kerbrute)\b|comsvcs\.dll.*?MiniDump|rdp-tcp|psexesvc|wmiprvse|lsarpc|samr|DCSync|krbtgt|DRSUAPI|MachineAccount Password|Policy\\Secrets|TGS-REQ|sname=krbtgt|RC4-HMAC|EType 23"),
        Some("Unknown (Credential Harvester)"),
        Some("Harvest administrative credentials to facilitate domain-wide escalation."),
        Some("Credential extraction via Mimikatz/Procdump."),
    )
}

fn builtin_9() -> (m: ControlMapping)
    ensures
        builtin_rule(9, m),
{
    make_mapping(
        "CM-3 [Scheduled Task Manipulation]",
        "Configuration Management",
        "NIST CM-3: Unauthorized persistence via Scheduled Task creation/modification",
        "☢️ Hidden Scheduled Task Created",
        "A hidden task was created to run programs automatically.",
        "Audit of schtasks.exe activity and Event IDs 4698 (Task Created) / 4702 (Task Updated).",
        "Immediately delete the suspicious task: 'schtasks /delete /tn \"TASK_NAME\" /f'.",
        None,
        ComplianceStatus::Fail,
        SeverityLevel::High,
        Some(r"(?i)(schtasks(\.exe)?\s+/create|EventID.*?469(8)|EventID.*?4702).*?\\(AppData\\Local\\Temp|Windows\\Temp|Public)"),
        Some("Unknown (Persistence Actor)"),
        Some("Maintain long-term access via automated task execution."),
        Some("Unauthorized Scheduled Task creation."),
    )
}

fn builtin_10() -> (m: ControlMapping)
    ensures
        builtin_rule(10, m),
{
    make_mapping(
        "SC-7 [Registry Persistence]",
        "System & Comms Protection",
        "NIST SC-7: Registry 'Run' key hijack for automatic startup",
        "☢️ Automatic Startup Hijack Attempt",
        "An attacker tried to hide a program in your system's 'Automatic Startup' list.",
        "Detection of modifications to high-value auto-run keys via EventID 4657.",
        "Audit the registry key using 'reg query'.",
        None,
        ComplianceStatus::Fail,
        SeverityLevel::High,
        Some(r"(?i)(reg\s+add.*\\(CurrentVersion\\(Run|RunOnce)|Winlogon\\Shell|Image\s+File\s+Execution\s+Options)|EventID.*?4657).*?(cmd\.exe\s+/c|powershell\s+-enc|\\Temp\\|\\AppData\\)"),
        Some("Unknown (Persistence Actor)"),
        Some("Establish persistence via registry auto-run hijacking."),
        Some("Registry 'Run' key modification."),
    )
}

fn builtin_11() -> (m: ControlMapping)
    ensures
        builtin_rule(11, m),
{
    make_mapping(
        "SI-4 [WMI Persistence]",
        "System & Info Integrity",
        "NIST SI-4: WMI Permanent Event Consumer establishment",
        "☢️ WMI Persistence Script Detected",
        "A stealthy WMI script was set up to run in the background.",
        "Detection of WMI Filter-to-Consumer bindings (Event IDs 5857/5858).",
        "List WMI consumers and remove unauthorized ones.",
        None,
        ComplianceStatus::Fail,
        SeverityLevel::High,
        Some(r"(?i)EventID.*?585(7|8)"),
        Some("Unknown (Stealth Persistence Actor)"),
        Some("Establish stealthy persistence via WMI event filters."),
        Some("WMI Permanent Event Consumer establishment."),
    )
}

fn builtin_12() -> (m: ControlMapping)
    ensures
        builtin_rule(12, m),
{
    make_mapping(
        "SI-4 [Mirror Test]",
        "System & Info Integrity",
        "NIST SI-4: Process Hollowing / Stealth Detection (Mirror Test)",
        "☢️ Stealth Process Hijack Unmasked",
        "A standard Windows program is behaving like a virus.",
        "Detection of signature-mismatch or behaviorally inconsistent common processes.",
        "Isolate the host from the network. Capture a memory dump.",
        None,
        ComplianceStatus::Fail,
        SeverityLevel::Critical,
        Some(r"(?i)(ProcessHollowing|MirrorTestFail|mimic__aegis|EventID.*?wevtutil.*?cl|clear-eventlog)"),
        Some("Unknown (Stealth Process Actor)"),
        Some("Bypass process monitoring via hollowing or masquerading."),
        Some("Mirror Test / Process Hollowing signature."),
    )
}

fn builtin_13() -> (m: ControlMapping)
    ensures
        builtin_rule(13, m),
{
    make_mapping(
        "AU-3",
        "Audit and Accountability",
        "Verify audit record content integrity via active privacy masking (redaction).",
        "Privacy System Active",
        "Aegis is protecting your private data.",
        "Audit records should be redacted of PII/PHI.",
        "No action required.",
        None,
        ComplianceStatus::Pass,
        SeverityLevel::Low,
        None,
        Some("Aegis Privacy Engine"),
        Some("Protect PII/PHI via automated redaction."),
        Some("Baseline security audit."),
    )
}

/// The built-in mappings that come before the loaded ones.
pub fn builtin_head() -> (v: Vec<ControlMapping>)
    ensures
        v@.len() == 2,
        forall|k: int| 0 <= k < 2 ==> builtin_rule(k, #[trigger] v@[k]),
{
    let mut v: Vec<ControlMapping> = Vec::new();
    v.push(builtin_0());
    v.push(builtin_1());
    v
}

/// The built-in mappings that come after the loaded ones.
pub fn builtin_tail() -> (v: Vec<ControlMapping>)
    ensures
        v@.len() == 12,
        forall|k: int| 0 <= k < 12 ==> builtin_rule(k + 2, #[trigger] v@[k]),
{
    let mut v: Vec<ControlMapping> = Vec::new();
    v.push(builtin_2());
    v.push(builtin_3());
    v.push(builtin_4());
    v.push(builtin_5());
    v.push(builtin_6());
    v.push(builtin_7());
    v.push(builtin_8());
    v.push(builtin_9());
    v.push(builtin_10());
    v.push(builtin_11());
    v.push(builtin_12());
    v.push(builtin_13());
    assert forall|k: int| 0 <= k < 12 implies builtin_rule(k + 2, #[trigger] v@[k]) by {
        assert(k == 0 || k == 1 || k == 2 || k == 3 || k == 4 || k == 5 || k == 6 || k == 7 || k == 8 || k == 9 || k == 10 || k == 11);
    }
    v
}

impl ControlMapping {
    /// A copy with the same field values.
    pub fn duplicate(&self) -> (m: ControlMapping)
        ensures
            same_mapping(m, *self),
    {
        ControlMapping {
            control_id: owned(self.control_id.as_str()),
            category: owned(self.category.as_str()),
            description: owned(self.description.as_str()),
            human_title: owned(self.human_title.as_str()),
            human_action: owned(self.human_action.as_str()),
            long_description: owned(self.long_description.as_str()),
            remediation: owned(self.remediation.as_str()),
            target_field: clone_opt(&self.target_field),
            default_status: self.default_status,
            severity: self.severity,
            pattern_str: clone_opt(&self.pattern_str),
            adversary_profile: clone_opt(&self.adversary_profile),
            tactical_intent: clone_opt(&self.tactical_intent),
            attack_mechanism: clone_opt(&self.attack_mechanism),
            pattern: clone_opt(&self.pattern),
        }
    }
}

impl Default for ControlMapping {
    /// Empty texts, no target field and no signature, passing at informational severity.
    fn default() -> (m: ControlMapping)
        ensures
            mapping_texts(m, Seq::empty(), Seq::empty(), Seq::empty(), Seq::empty(), Seq::empty(),
                Seq::empty(), Seq::empty(), None, None, None),
            mapping_rule(m, None, ComplianceStatus::Pass, SeverityLevel::Info, None),
    {
        proof {
            reveal_strlit("");
            assert(""@ =~= Seq::<char>::empty());
        }
        make_mapping("", "", "", "", "", "", "", None, ComplianceStatus::Pass, SeverityLevel::Info, None, None, None, None)
    }
}

} // verus!
