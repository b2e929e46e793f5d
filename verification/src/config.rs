//! Run-time configuration: log formats, redaction, profile and framework.

use vstd::prelude::*;
use crate::metadata::Metadata;
use crate::text::{owned, str_eq};

verus! {

/// The control framework findings are reported against.
#[derive(Debug, Clone, Copy, PartialEq, Eq, Structural, Default)]
pub enum ActiveFramework {
    #[default]
    Federal53,
    Commercial171,
    AiRmf100,
}

/// Where a structured log format keeps its fields (dotted paths into the document).
#[derive(Debug)]
pub struct LogFormatConfig {
    pub timestamp_field: Option<String>,
    pub message_field: Option<String>,
    pub severity_field: Option<String>,
    pub source_field: Option<String>,
    /// Metadata key to document path.
    pub metadata_map: Metadata,
}

/// Thresholds of the AI RMF profile that the library evaluates (the toxicity threshold is a
/// floating-point value and is compared by the caller).
#[derive(Debug, Clone, Copy)]
pub struct AiRmfConfig {
    pub latency_threshold_ms: u64,
}

/// Privacy masking settings.
#[derive(Debug)]
pub struct RedactionConfig {
    pub enabled: bool,
    pub mask_ips: bool,
    /// Extra regular expressions whose matches are masked.
    pub patterns: Vec<String>,
}

/// The whole configuration.
#[derive(Debug)]
pub struct AppConfig {
    /// Format name to format description, each name once.
    pub formats: Vec<(String, LogFormatConfig)>,
    pub redaction: RedactionConfig,
    pub sensor_id: String,
    pub profile_name: String,
    pub active_framework: ActiveFramework,
    pub ai_rmf: AiRmfConfig,
    pub authorized_baseline_services: Vec<String>,
}

pub fn default_profile_name() -> (s: String)
    ensures
        s@ == "NIST_SP-800-53_rev5_HIGH-baseline"@,
{
    owned("NIST_SP-800-53_rev5_HIGH-baseline")
}

pub fn default_sensor_id() -> (s: String)
    ensures
        s@ == "aegis.edge-node.01"@,
{
    owned("aegis.edge-node.01")
}

pub fn default_latency_threshold() -> (n: u64)
    ensures
        n == 5000,
{
    5000
}

impl AiRmfConfig {
    pub fn default_config() -> (c: AiRmfConfig)
        ensures
            c.latency_threshold_ms == 5000,
    {
        AiRmfConfig { latency_threshold_ms: default_latency_threshold() }
    }
}

impl RedactionConfig {
    /// Masking off, no extra patterns.
    pub fn default_config() -> (c: RedactionConfig)
        ensures
            !c.enabled,
            !c.mask_ips,
            c.patterns@.len() == 0,
    {
        RedactionConfig { enabled: false, mask_ips: false, patterns: Vec::new() }
    }
}

/// `services` with each of `extra` appended that it does not hold yet, in order.
pub open spec fn merge_services(services: Seq<Seq<char>>, extra: Seq<Seq<char>>) -> Seq<Seq<char>>
    decreases extra.len(),
{
    if extra.len() == 0 {
        services
    } else {
        let next = if services.contains(extra[0]) { services } else { services.push(extra[0]) };
        merge_services(next, extra.drop_first())
    }
}

pub open spec fn views(v: Seq<String>) -> Seq<Seq<char>> {
    v.map_values(|s: String| s@)
}

fn contains_string(v: &Vec<String>, s: &str) -> (b: bool)
    ensures
        b == views(v@).contains(s@),
{
    let mut i: usize = 0;
    while i < v.len()
        invariant
            0 <= i <= v@.len(),
            forall|j: int| 0 <= j < i ==> v@[j]@ != s@,
        decreases v@.len() - i,
    {
        if str_eq(v[i].as_str(), s) {
            assert(views(v@)[i as int] == s@);
            return true;
        }
        i += 1;
    }
    proof {
        if views(v@).contains(s@) {
            let k = choose|k: int| 0 <= k < views(v@).len() && views(v@)[k] == s@;
            assert(v@[k]@ == s@);
        }
    }
    false
}

fn literal_strings(lits: &[&str]) -> (v: Vec<String>)
    ensures
        views(v@) == lits@.map_values(|s: &str| s@),
{
    let mut v: Vec<String> = Vec::new();
    let mut i: usize = 0;
    while i < lits.len()
        invariant
            0 <= i <= lits@.len(),
            views(v@) == lits@.take(i as int).map_values(|s: &str| s@),
        decreases lits@.len() - i,
    {
        let ghost old_v = v@;
        v.push(owned(lits[i]));
        assert(views(v@) =~= views(old_v).push(lits@[i as int]@));
        i += 1;
        assert(lits@.take(i as int) == lits@.take(i - 1).push(lits@[i - 1]));
        assert(views(v@) =~= lits@.take(i as int).map_values(|s: &str| s@));
    }
    assert(lits@.take(lits@.len() as int) == lits@);
    v
}

impl AppConfig {
    /// Adds each service of a baseline that the configuration does not list yet.
    pub fn merge_authorized_services(&mut self, extra: &Vec<String>)
        ensures
            views(final(self).authorized_baseline_services@)
                == merge_services(views(old(self).authorized_baseline_services@), views(extra@)),
            final(self).formats == old(self).formats,
            final(self).sensor_id == old(self).sensor_id,
            final(self).profile_name == old(self).profile_name,
            final(self).active_framework == old(self).active_framework,
    {
        let mut i: usize = 0;
        let ghost start = views(self.authorized_baseline_services@);
        assert(views(extra@).subrange(0, extra@.len() as int) =~= views(extra@));
        while i < extra.len()
            invariant
                0 <= i <= extra@.len(),
                merge_services(start, views(extra@))
                    == merge_services(views(self.authorized_baseline_services@), views(extra@).subrange(i as int, extra@.len() as int)),
                self.formats == old(self).formats,
                self.sensor_id == old(self).sensor_id,
                self.profile_name == old(self).profile_name,
                self.active_framework == old(self).active_framework,
            decreases extra@.len() - i,
        {
            let ghost before = views(self.authorized_baseline_services@);
            let ghost rest = views(extra@).subrange(i as int, extra@.len() as int);
            assert(rest[0] == extra@[i as int]@);
            assert(rest.drop_first() =~= views(extra@).subrange(i + 1, extra@.len() as int));
            if !contains_string(&self.authorized_baseline_services, extra[i].as_str()) {
                self.authorized_baseline_services.push(owned(extra[i].as_str()));
                assert(views(self.authorized_baseline_services@) =~= before.push(extra@[i as int]@));
            }
            i += 1;
        }
        assert(views(extra@).subrange(extra@.len() as int, extra@.len() as int).len() == 0);
    }

    /// The built-in configuration: GCP and Elastic formats, the federal profile and the
    /// stock list of authorised services.
    pub fn default_config() -> (c: AppConfig)
        ensures
            c.formats@.len() == 2,
            c.formats@[0].0@ == "gcp"@,
            c.formats@[1].0@ == "elastic"@,
            c.sensor_id@ == "aegis.edge-node.01"@,
            c.profile_name@ == "NIST_SP-800-53_rev5_HIGH-baseline"@,
            c.active_framework == ActiveFramework::Federal53,
            c.ai_rmf.latency_threshold_ms == 5000,
            !c.redaction.enabled && !c.redaction.mask_ips && c.redaction.patterns@.len() == 0,
            views(c.authorized_baseline_services@) == seq![
                "RtkAudioUniversalService"@, "GameSDK Service"@, "RulesEngine"@,
                "AsusUpdateHelper.msi"@, "UAPSDKAddOn-x86.msi"@, "Windows Subsystem for Linux"@],
    {
        let mut gcp_map = Metadata::new();
        gcp_map.insert(owned("status"), owned("httpRequest.status"));
        gcp_map.insert(owned("ip"), owned("httpRequest.remoteIp"));
        gcp_map.insert(owned("ParentProcessId"), owned("parent_process_id"));
        gcp_map.insert(owned("ParentImage"), owned("parent_image"));
        gcp_map.insert(owned("ProcessId"), owned("process_id"));
        gcp_map.insert(owned("NewProcessName"), owned("image_name"));
        let gcp = LogFormatConfig {
            timestamp_field: Some(owned("timestamp")),
            message_field: Some(owned("textPayload")),
            severity_field: Some(owned("severity")),
            source_field: Some(owned("resource.type")),
            metadata_map: gcp_map,
        };
        let mut el_map = Metadata::new();
        el_map.insert(owned("hostname"), owned("_source.host.hostname"));
        el_map.insert(owned("cmd"), owned("_source.process.command_line"));
        el_map.insert(owned("user"), owned("_source.user.name"));
        el_map.insert(owned("action"), owned("_source.event.action"));
        el_map.insert(owned("ParentProcessId"), owned("_source.process.ppid"));
        el_map.insert(owned("ParentImage"), owned("_source.process.parent.executable"));
        el_map.insert(owned("ProcessId"), owned("_source.process.pid"));
        el_map.insert(owned("NewProcessName"), owned("_source.process.executable"));
        let elastic = LogFormatConfig {
            timestamp_field: Some(owned("_source.@timestamp")),
            message_field: Some(owned("_source.message")),
            severity_field: Some(owned("_source.log.level")),
            source_field: Some(owned("_source.event.dataset")),
            metadata_map: el_map,
        };
        let mut formats: Vec<(String, LogFormatConfig)> = Vec::new();
        formats.push((owned("gcp"), gcp));
        formats.push((owned("elastic"), elastic));
        let services = literal_strings(&["RtkAudioUniversalService", "GameSDK Service", "RulesEngine",
            "AsusUpdateHelper.msi", "UAPSDKAddOn-x86.msi", "Windows Subsystem for Linux"]);
        AppConfig {
            formats,
            redaction: RedactionConfig::default_config(),
            sensor_id: default_sensor_id(),
            profile_name: default_profile_name(),
            active_framework: ActiveFramework::Federal53,
            ai_rmf: AiRmfConfig::default_config(),
            authorized_baseline_services: services,
        }
    }

    /// The format named `name`, if configured.
    pub fn format(&self, name: &str) -> (r: Option<&LogFormatConfig>)
        ensures
            r matches Some(f) ==> exists|i: int| 0 <= i < self.formats@.len() && self.formats@[i].0@ == name@ && self.formats@[i].1 == *f,
            r is None ==> forall|i: int| 0 <= i < self.formats@.len() ==> self.formats@[i].0@ != name@,
    {
        let mut i: usize = 0;
        while i < self.formats.len()
            invariant
                0 <= i <= self.formats@.len(),
                forall|j: int| 0 <= j < i ==> self.formats@[j].0@ != name@,
            decreases self.formats@.len() - i,
        {
            if str_eq(self.formats[i].0.as_str(), name) {
                return Some(&self.formats[i].1);
            }
            i += 1;
        }
        None
    }
}

/// The framework and profile name a command-line profile selects: `171` the commercial 800-171
/// audit, `100-1`, `100` or `ai` the AI RMF audit, anything else the federal 800-53 high baseline.
pub open spec fn profile_choice(profile: Seq<char>) -> (ActiveFramework, Seq<char>) {
    if profile == "171"@ {
        (ActiveFramework::Commercial171, "NIST_SP-800-171_Rev2_Commercial-Audit"@)
    } else if profile == "100-1"@ || profile == "100"@ || profile == "ai"@ {
        (ActiveFramework::AiRmf100, "NIST_AI-RMF-100-1_Trustworthiness-Characteristic-Audit"@)
    } else {
        (ActiveFramework::Federal53, "NIST_SP-800-53_rev5_HIGH-baseline"@)
    }
}

impl AppConfig {
    /// Selects the framework and profile name of a command-line profile.
    pub fn apply_profile(&mut self, profile: &str)
        ensures
            (final(self).active_framework, final(self).profile_name@) == profile_choice(profile@),
            final(self).formats == old(self).formats,
            final(self).redaction == old(self).redaction,
            final(self).sensor_id == old(self).sensor_id,
            final(self).ai_rmf == old(self).ai_rmf,
            final(self).authorized_baseline_services == old(self).authorized_baseline_services,
    {
        if str_eq(profile, "171") {
            self.active_framework = ActiveFramework::Commercial171;
            self.profile_name = owned("NIST_SP-800-171_Rev2_Commercial-Audit");
        } else if str_eq(profile, "100-1") || str_eq(profile, "100") || str_eq(profile, "ai") {
            self.active_framework = ActiveFramework::AiRmf100;
            self.profile_name = owned("NIST_AI-RMF-100-1_Trustworthiness-Characteristic-Audit");
        } else {
            self.active_framework = ActiveFramework::Federal53;
            self.profile_name = owned("NIST_SP-800-53_rev5_HIGH-baseline");
        }
    }

    /// The format the JSON parsers use: the `gcp` format, else the first configured one; none
    /// when no format is configured.
    pub fn json_format(&self) -> (r: Option<&LogFormatConfig>)
        ensures
            self.formats@.len() == 0 ==> r is None,
            (exists|i: int| 0 <= i < self.formats@.len() && self.formats@[i].0@ == "gcp"@) ==> (r matches Some(f)
                && exists|i: int| 0 <= i < self.formats@.len() && self.formats@[i].0@ == "gcp"@ && self.formats@[i].1 == *f),
            (forall|i: int| 0 <= i < self.formats@.len() ==> self.formats@[i].0@ != "gcp"@) && self.formats@.len() > 0
                ==> r == Some(&self.formats@[0].1),
    {
        match self.format("gcp") {
            Some(f) => Some(f),
            None => if self.formats.len() > 0 { Some(&self.formats[0].1) } else { None },
        }
    }
}

} // verus!
