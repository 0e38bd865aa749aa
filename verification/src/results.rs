//! Per-package aggregation of findings, and the decisions that make
//! repeated runs cheap: when prior results may be reused and when a report
//! is regenerated.

use vstd::prelude::*;

use crate::config::Config;
use crate::criticality::Criticality;
use crate::fingerprint::{spec_fingerprint, Fingerprint};
use crate::paths::{spec_file_stem, spec_path_join};
use crate::report::GeneratorKind;
use crate::vulnerability::{
    insert_vuln, lemma_insert_vuln_elems, sorted_vulns, spec_insert_vuln, Vulnerability,
};

verus! {

/// What a caller must do before a package is analyzed again.
#[derive(Clone, Copy, PartialEq, Eq, Structural, Debug)]
pub enum InitAction {
    /// Results exist and stay: skip the package, touch nothing, read
    /// nothing.
    Skip,
    /// No results exist: analyze into a fresh directory.
    Fresh,
    /// Results exist but are to be discarded: delete them, then analyze.
    DeleteThenFresh,
}

/// What a caller must do to generate a package's report.
pub struct ReportPlan {
    /// Whether a stale report directory stands in the way and is deleted
    /// first.
    pub delete_first: bool,
    /// The report directory to create and fill.
    pub output_dir: String,
    /// The generators to run, in their fixed order.
    pub generators: Vec<GeneratorKind>,
}

/// Every finding of a tier sits in that tier by its own criticality.
pub open spec fn tier_crits(s: Seq<Vulnerability>, c: Criticality) -> bool {
    forall|i: int| 0 <= i < s.len() ==> s[i].criticality == c
}

/// Per-package aggregation: application metadata, the package fingerprint,
/// and five ordered, deduplicating tiers of findings.
#[derive(Debug)]
pub struct Results {
    /// The package identifier.
    pub app_package: String,
    /// The application's label.
    pub app_label: String,
    /// The application's description.
    pub app_description: String,
    /// The application's version string.
    pub app_version: String,
    /// The application's numeric version.
    pub app_version_num: i32,
    /// The lowest platform level the application runs on.
    pub app_min_sdk: i32,
    /// The platform level the application targets, when declared.
    pub app_target_sdk: Option<i32>,
    /// The content-derived identity of the package.
    pub app_fingerprint: Fingerprint,
    /// The package's certificate text.
    pub certificate: String,
    /// The findings of each tier, each ordered and deduplicated.
    pub warnings: Vec<Vulnerability>,
    pub low: Vec<Vulnerability>,
    pub medium: Vec<Vulnerability>,
    pub high: Vec<Vulnerability>,
    pub critical: Vec<Vulnerability>,
}

/// A fresh aggregation: empty metadata, empty tiers, and the package's
/// fingerprint.
pub open spec fn is_fresh_results(r: Results, fp: u64) -> bool {
    &&& r.app_package@ == Seq::<char>::empty()
    &&& r.app_label@ == Seq::<char>::empty()
    &&& r.app_description@ == Seq::<char>::empty()
    &&& r.app_version@ == Seq::<char>::empty()
    &&& r.app_version_num == 0
    &&& r.app_min_sdk == 0
    &&& r.app_target_sdk is None
    &&& r.app_fingerprint.value == fp
    &&& r.certificate@ == Seq::<char>::empty()
    &&& r.warnings@ == Seq::<Vulnerability>::empty()
    &&& r.low@ == Seq::<Vulnerability>::empty()
    &&& r.medium@ == Seq::<Vulnerability>::empty()
    &&& r.high@ == Seq::<Vulnerability>::empty()
    &&& r.critical@ == Seq::<Vulnerability>::empty()
}

/// The serialization view of an aggregation: the metadata, the ordered
/// tier contents, and every count derived from its tier at read time, so
/// no count can drift from its backing set.
pub struct ReportView {
    pub app_package: String,
    pub app_version: String,
    pub app_version_num: i32,
    pub app_fingerprint: u64,
    pub certificate: String,
    pub app_min_sdk: i32,
    pub app_target_sdk: Option<i32>,
    pub total_vulnerabilities: usize,
    pub criticals: Vec<Vulnerability>,
    pub criticals_len: usize,
    pub highs: Vec<Vulnerability>,
    pub highs_len: usize,
    pub mediums: Vec<Vulnerability>,
    pub mediums_len: usize,
    pub lows: Vec<Vulnerability>,
    pub lows_len: usize,
    pub warnings: Vec<Vulnerability>,
    pub warnings_len: usize,
}

/// Copies one finding.
fn clone_vuln(v: &Vulnerability) -> (r: Vulnerability)
    ensures
        r == *v,
{
    Vulnerability {
        criticality: v.criticality,
        name: v.name.clone(),
        description: v.description.clone(),
        file: match &v.file {
            Some(s) => Some(s.clone()),
            None => None,
        },
        start_line: v.start_line,
        end_line: v.end_line,
        code: match &v.code {
            Some(s) => Some(s.clone()),
            None => None,
        },
    }
}

/// Copies a tier.
fn clone_tier(s: &Vec<Vulnerability>) -> (r: Vec<Vulnerability>)
    ensures
        r@ == s@,
{
    let mut r: Vec<Vulnerability> = Vec::new();
    let mut i: usize = 0;
    while i < s.len()
        invariant
            i <= s@.len(),
            r@ == s@.take(i as int),
        decreases s@.len() - i,
    {
        r.push(clone_vuln(&s[i]));
        proof {
            assert(s@.take(i + 1) =~= s@.take(i as int).push(s@[i as int]));
        }
        i += 1;
    }
    proof {
        assert(s@.take(s@.len() as int) =~= s@);
    }
    r
}

impl Results {
    /// A well-formed aggregation keeps every tier sorted, deduplicated,
    /// and holding only findings of its own criticality.
    pub open spec fn wf(self) -> bool {
        &&& sorted_vulns(self.warnings@) && tier_crits(self.warnings@, Criticality::Warning)
        &&& sorted_vulns(self.low@) && tier_crits(self.low@, Criticality::Low)
        &&& sorted_vulns(self.medium@) && tier_crits(self.medium@, Criticality::Medium)
        &&& sorted_vulns(self.high@) && tier_crits(self.high@, Criticality::High)
        &&& sorted_vulns(self.critical@) && tier_crits(self.critical@, Criticality::Critical)
    }

    /// The directory a package's results live in: one subdirectory per
    /// package, named by the package's stem, under the results root.
    pub fn results_path(config: &Config, package: &str) -> (r: String)
        ensures
            r@ == spec_path_join(config.results_folder@, spec_file_stem(package@)),
    {
        let name = crate::paths::get_package_name(package);
        crate::paths::path_join(config.get_results_folder(), name.as_str())
    }

    /// What to do about a package's existing results: skip them, redo
    /// them from scratch, or delete and redo. Existing results are kept
    /// exactly when force is off — then nothing is deleted and nothing is
    /// read or fingerprinted; force always discards and redoes.
    pub fn init_action(config: &Config, results_dir_exists: bool) -> (r: InitAction)
        ensures
            r == InitAction::Skip <==> (results_dir_exists && !config.force),
            r == InitAction::DeleteThenFresh <==> (results_dir_exists && config.force),
            r == InitAction::Fresh <==> !results_dir_exists,
    {
        if results_dir_exists {
            if config.force {
                InitAction::DeleteThenFresh
            } else {
                InitAction::Skip
            }
        } else {
            InitAction::Fresh
        }
    }

    /// Begins a package's aggregation. When that package's results
    /// directory exists and force is off, there is nothing to do and no
    /// aggregation is handed back. Otherwise a fresh, empty aggregation
    /// carries the fingerprint of the package's bytes; a package whose
    /// bytes could not be read yields none, and only that package is
    /// abandoned.
    pub fn init(
        config: &Config,
        results_dir_exists: bool,
        package_bytes: Option<&Vec<u8>>,
    ) -> (r: Option<Results>)
        ensures
            (results_dir_exists && !config.force) ==> r is None,
            !(results_dir_exists && !config.force) ==> (match package_bytes {
                None => r is None,
                Some(b) => match r {
                    Some(res) => is_fresh_results(res, spec_fingerprint(b@)) && res.wf(),
                    None => false,
                },
            }),
    {
        if results_dir_exists && !config.is_force() {
            return None;
        }
        let bytes = match package_bytes {
            Some(b) => b,
            None => {
                return None;
            },
        };
        let fingerprint = Fingerprint::compute(bytes);
        Some(
            Results {
                app_package: String::new(),
                app_label: String::new(),
                app_description: String::new(),
                app_version: String::new(),
                app_version_num: 0,
                app_min_sdk: 0,
                app_target_sdk: None,
                app_fingerprint: fingerprint,
                certificate: String::new(),
                warnings: Vec::new(),
                low: Vec::new(),
                medium: Vec::new(),
                high: Vec::new(),
                critical: Vec::new(),
            },
        )
    }

    /// Names the package this aggregation belongs to.
    pub fn set_app_package(&mut self, package: String)
        ensures
            *final(self) == (Results { app_package: package, ..*old(self) }),
    {
        self.app_package = package;
    }

    /// The package this aggregation belongs to.
    pub fn get_app_package(&self) -> (r: &str)
        ensures
            r@ == self.app_package@,
    {
        self.app_package.as_str()
    }

    /// Records the package's certificate text.
    pub fn set_certificate(&mut self, certificate: String)
        ensures
            *final(self) == (Results { certificate: certificate, ..*old(self) }),
    {
        self.certificate = certificate;
    }

    /// Records the application's label.
    pub fn set_app_label(&mut self, label: String)
        ensures
            *final(self) == (Results { app_label: label, ..*old(self) }),
    {
        self.app_label = label;
    }

    /// Records the application's description.
    pub fn set_app_description(&mut self, description: String)
        ensures
            *final(self) == (Results { app_description: description, ..*old(self) }),
    {
        self.app_description = description;
    }

    /// Records the application's version string.
    pub fn set_app_version(&mut self, version: String)
        ensures
            *final(self) == (Results { app_version: version, ..*old(self) }),
    {
        self.app_version = version;
    }

    /// Records the application's numeric version.
    pub fn set_app_version_num(&mut self, version: i32)
        ensures
            *final(self) == (Results { app_version_num: version, ..*old(self) }),
    {
        self.app_version_num = version;
    }

    /// Records the lowest platform level the application runs on.
    pub fn set_app_min_sdk(&mut self, sdk: i32)
        ensures
            *final(self) == (Results { app_min_sdk: sdk, ..*old(self) }),
    {
        self.app_min_sdk = sdk;
    }

    /// Records the platform level the application targets.
    pub fn set_app_target_sdk(&mut self, sdk: i32)
        ensures
            *final(self) == (Results { app_target_sdk: Some(sdk), ..*old(self) }),
    {
        self.app_target_sdk = Some(sdk);
    }

    /// Routes a finding into the one tier its own criticality names. The
    /// tier stays ordered and deduplicated: adding a finding it already
    /// holds changes nothing, and no other tier is touched.
    pub fn add_vulnerability(&mut self, vuln: Vulnerability)
        requires
            old(self).wf(),
        ensures
            final(self).wf(),
            vuln.criticality == Criticality::Warning ==> *final(self) == (Results {
                warnings: final(self).warnings,
                ..*old(self)
            }) && final(self).warnings@ == spec_insert_vuln(old(self).warnings@, vuln),
            vuln.criticality == Criticality::Low ==> *final(self) == (Results {
                low: final(self).low,
                ..*old(self)
            }) && final(self).low@ == spec_insert_vuln(old(self).low@, vuln),
            vuln.criticality == Criticality::Medium ==> *final(self) == (Results {
                medium: final(self).medium,
                ..*old(self)
            }) && final(self).medium@ == spec_insert_vuln(old(self).medium@, vuln),
            vuln.criticality == Criticality::High ==> *final(self) == (Results {
                high: final(self).high,
                ..*old(self)
            }) && final(self).high@ == spec_insert_vuln(old(self).high@, vuln),
            vuln.criticality == Criticality::Critical ==> *final(self) == (Results {
                critical: final(self).critical,
                ..*old(self)
            }) && final(self).critical@ == spec_insert_vuln(old(self).critical@, vuln),
    {
        proof {
            match vuln.criticality {
                Criticality::Warning => lemma_insert_vuln_elems(self.warnings@, vuln),
                Criticality::Low => lemma_insert_vuln_elems(self.low@, vuln),
                Criticality::Medium => lemma_insert_vuln_elems(self.medium@, vuln),
                Criticality::High => lemma_insert_vuln_elems(self.high@, vuln),
                Criticality::Critical => lemma_insert_vuln_elems(self.critical@, vuln),
            }
        }
        match vuln.get_criticality() {
            Criticality::Warning => insert_vuln(&mut self.warnings, vuln),
            Criticality::Low => insert_vuln(&mut self.low, vuln),
            Criticality::Medium => insert_vuln(&mut self.medium, vuln),
            Criticality::High => insert_vuln(&mut self.high, vuln),
            Criticality::Critical => insert_vuln(&mut self.critical, vuln),
        }
    }

    /// Decides whether a package's report is generated. The report
    /// directory mirrors the results idempotency check, but on its own:
    /// an existing report is kept exactly when force is off; otherwise the
    /// plan names the report directory, whether it must be cleared first,
    /// and the generators in their fixed order, the machine-readable one
    /// first.
    pub fn generate_report(&self, config: &Config, report_dir_exists: bool) -> (r: Option<
        ReportPlan,
    >)
        ensures
            r is Some <==> (config.force || !report_dir_exists),
            match r {
                Some(p) => {
                    &&& p.delete_first == report_dir_exists
                    &&& p.output_dir@ == spec_path_join(config.results_folder@, self.app_package@)
                    &&& p.generators@ == seq![
                        GeneratorKind::MachineReadable,
                        GeneratorKind::HumanReadable,
                    ]
                },
                None => true,
            },
    {
        if !config.is_force() && report_dir_exists {
            return None;
        }
        let output_dir = crate::paths::path_join(
            config.get_results_folder(),
            self.app_package.as_str(),
        );
        let mut generators: Vec<GeneratorKind> = Vec::new();
        generators.push(GeneratorKind::MachineReadable);
        generators.push(GeneratorKind::HumanReadable);
        proof {
            assert(generators@ =~= seq![
                GeneratorKind::MachineReadable,
                GeneratorKind::HumanReadable,
            ]);
        }
        Some(ReportPlan { delete_first: report_dir_exists, output_dir, generators })
    }

    /// Reads the aggregation out as its serialization view: the ordered
    /// tier contents verbatim, every per-tier count equal to its tier's
    /// length, and the grand total equal to the sum of the five.
    pub fn serialize_view(&self) -> (r: ReportView)
        requires
            self.warnings@.len() + self.low@.len() + self.medium@.len() + self.high@.len()
                + self.critical@.len() <= usize::MAX,
        ensures
            r.app_package@ == self.app_package@,
            r.app_version@ == self.app_version@,
            r.app_version_num == self.app_version_num,
            r.app_fingerprint == self.app_fingerprint.value,
            r.certificate@ == self.certificate@,
            r.app_min_sdk == self.app_min_sdk,
            r.app_target_sdk == self.app_target_sdk,
            r.criticals@ == self.critical@,
            r.highs@ == self.high@,
            r.mediums@ == self.medium@,
            r.lows@ == self.low@,
            r.warnings@ == self.warnings@,
            r.criticals_len == self.critical@.len(),
            r.highs_len == self.high@.len(),
            r.mediums_len == self.medium@.len(),
            r.lows_len == self.low@.len(),
            r.warnings_len == self.warnings@.len(),
            r.total_vulnerabilities == self.warnings@.len() + self.low@.len()
                + self.medium@.len() + self.high@.len() + self.critical@.len(),
    {
        let warnings = clone_tier(&self.warnings);
        let lows = clone_tier(&self.low);
        let mediums = clone_tier(&self.medium);
        let highs = clone_tier(&self.high);
        let criticals = clone_tier(&self.critical);
        let warnings_len = warnings.len();
        let lows_len = lows.len();
        let mediums_len = mediums.len();
        let highs_len = highs.len();
        let criticals_len = criticals.len();
        let total = warnings_len + lows_len + mediums_len + highs_len + criticals_len;
        ReportView {
            app_package: self.app_package.clone(),
            app_version: self.app_version.clone(),
            app_version_num: self.app_version_num,
            app_fingerprint: self.app_fingerprint.get_value(),
            certificate: self.certificate.clone(),
            app_min_sdk: self.app_min_sdk,
            app_target_sdk: self.app_target_sdk,
            total_vulnerabilities: total,
            criticals,
            criticals_len,
            highs,
            highs_len,
            mediums,
            mediums_len,
            lows,
            lows_len,
            warnings,
            warnings_len,
        }
    }
}

} // verus!
