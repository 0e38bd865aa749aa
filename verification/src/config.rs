//! Layered configuration resolution.
//!
//! A `Config` starts from compiled-in defaults, may be overridden by an
//! optional system-wide file and a working-directory file, and finally by
//! command-line values, field by field. Every field read from a file is
//! validated first; a bad field keeps its previous value and records a
//! warning, and only a structurally broken file is fatal.

use vstd::prelude::*;

use crate::criticality::Criticality;
use crate::document::{
    document_of, toml_ok, ConfigValue, DocEntry, FieldValue, TableField, TableItem,
};
use crate::paths::{path_join, spec_extension, spec_path_join};
use crate::permission::Permission;
use crate::rules::{
    insert_rule, rules_sorted, spec_insert_rule, PermissionConfig,
};
use crate::strutil::{parse_u8, spec_parse_u8, str_eq};

verus! {

/// The compiled-in worker thread count.
pub const DEFAULT_THREADS: u8 = 2;

/// A recoverable configuration problem: the field keeps its previous value
/// and this code is recorded.
#[derive(Debug)]
pub enum ConfigWarning {
    /// The thread count was not an integer between 1 and 255.
    Threads,
    /// The downloads folder was not a non-empty string.
    DownloadsFolder,
    /// The dist folder was not a non-empty string.
    DistFolder,
    /// The results folder was not a non-empty string.
    ResultsFolder,
    /// The decompiler path was not a string naming a `jar` file.
    ApktoolFile,
    /// The translator folder was not a non-empty string.
    Dex2jarFolder,
    /// The decompiler command path was not a string naming a `jar` file.
    JdCmdFile,
    /// The templates folder was not a non-empty string.
    TemplatesFolder,
    /// The template name was not a non-empty string.
    Template,
    /// The rule catalog path was not a string naming a `json` file.
    RulesJson,
    /// A top-level key the resolver does not know.
    UnknownKey(String),
    /// The permissions entry was not an array of declarations.
    Permissions,
    /// A declaration was malformed: not a table, a missing or non-string
    /// required field, or the wrong field count.
    PermissionFormat,
    /// An `unknown` declaration did not have exactly its three fields.
    UnknownPermissionFormat,
    /// A declaration's criticality string did not parse.
    InvalidCriticality,
    /// A declaration named a permission outside the catalog.
    UnknownPermissionName(String),
}

/// What the process environment offers the default configuration: whether a
/// system-wide rule catalog exists, and where shared vendor files live.
pub struct EnvProbe {
    /// Whether the system-wide rule catalog file exists.
    pub etc_rules_exists: bool,
    /// The shared data directory, when it exists.
    pub share_path: Option<String>,
}

/// Command-line values, already parsed into plain data.
pub struct CliOverrides {
    pub verbose: bool,
    pub quiet: bool,
    pub force: bool,
    pub bench: bool,
    pub open: bool,
    pub test_all: bool,
    pub threads: Option<String>,
    pub downloads: Option<String>,
    pub dist: Option<String>,
    pub results: Option<String>,
    pub apktool: Option<String>,
    pub dex2jar: Option<String>,
    pub jd_cmd: Option<String>,
    pub template: Option<String>,
    pub rules: Option<String>,
    pub package: Option<String>,
}

/// The one fatal configuration condition: a file that is not structurally
/// valid at all.
#[derive(Clone, Copy, PartialEq, Eq, Structural, Debug)]
pub enum ConfigError {
    /// A configuration file failed to parse.
    Parse,
}

/// Resolved configuration: read-only for a run, except for the transient
/// `force` flag.
#[derive(Debug)]
pub struct Config {
    /// Application packages to analyze.
    pub app_packages: Vec<String>,
    /// Whether to narrate every stage.
    pub verbose: bool,
    /// Whether to suppress informational narration.
    pub quiet: bool,
    /// The run-wide force flag, as configured.
    pub overall_force: bool,
    /// The current force flag; may be toggled for one package and reset.
    pub force: bool,
    /// Whether to measure and report timings.
    pub bench: bool,
    /// Whether to open the report when done.
    pub open: bool,
    /// Worker thread count, between 1 and 255.
    pub threads: u8,
    /// Folder where the packages are stored.
    pub downloads_folder: String,
    /// Folder with files from analyzed packages.
    pub dist_folder: String,
    /// Folder to store the results of analysis.
    pub results_folder: String,
    /// Path to the decompiler archive.
    pub apktool_file: String,
    /// Path to the bytecode translator folder.
    pub dex2jar_folder: String,
    /// Path to the decompiler command archive.
    pub jd_cmd_file: String,
    /// Path to the rule catalog file.
    pub rules_json: String,
    /// The folder where the report templates are stored.
    pub templates_folder: String,
    /// The name of the template to use.
    pub template: String,
    /// The fallback applied to permissions without an explicit rule.
    pub unknown_permission: (Criticality, String),
    /// The rule table, ordered by permission identity, one rule per
    /// identity.
    pub permissions: Vec<PermissionConfig>,
    /// The configuration files actually loaded, in load order.
    pub loaded_files: Vec<String>,
    /// Every recoverable problem met while resolving, in order.
    pub warnings: Vec<ConfigWarning>,
}

/// Which of the resources a configuration points at actually exist, as the
/// caller observed them; `packages` answers for each target package in
/// order.
pub struct ResourceStatus {
    pub downloads_folder: bool,
    pub dist_folder: bool,
    pub results_folder: bool,
    pub apktool_file: bool,
    pub dex2jar_folder: bool,
    pub jd_cmd_file: bool,
    pub templates_folder: bool,
    pub template: bool,
    pub rules_json: bool,
    pub packages: Vec<bool>,
}

/// A resource a configuration points at that does not exist. Advisory:
/// callers decide whether to proceed.
#[derive(Debug)]
pub enum ResourceError {
    /// The downloads folder, with its path.
    DownloadsFolder(String),
    /// The dist folder, with its path.
    DistFolder(String),
    /// The results folder, with its path.
    ResultsFolder(String),
    /// A target package, with its path.
    Package(String),
    /// The decompiler archive, with its path.
    ApktoolFile(String),
    /// The translator folder, with its path.
    Dex2jarFolder(String),
    /// The decompiler command archive, with its path.
    JdCmdFile(String),
    /// The templates folder, with its path.
    TemplatesFolder(String),
    /// The chosen template, with its name and the templates folder.
    Template(String, String),
    /// The rule catalog, with its path.
    RulesJson(String),
}

/// The views of a sequence of strings.
pub open spec fn views(s: Seq<String>) -> Seq<Seq<char>> {
    s.map_values(|p: String| p@)
}

/// Pushing a string pushes its view.
pub proof fn lemma_views_push(s: Seq<String>, x: String)
    ensures
        views(s.push(x)) == views(s).push(x@),
{
    assert(views(s.push(x)) =~= views(s).push(x@));
}

/// The configuration after recording one warning: everything else stays.
pub open spec fn warned(pre: Config, post: Config, w: ConfigWarning) -> bool {
    &&& post == (Config { warnings: post.warnings, ..pre })
    &&& post.warnings@ == pre.warnings@.push(w)
}

/// How a `threads` entry lands: an integer between 1 and 255 becomes the
/// thread count; anything else keeps the previous count and warns.
pub open spec fn threads_section(pre: Config, v: ConfigValue, post: Config) -> bool {
    match v {
        ConfigValue::Int(i) => if 1 <= i && i <= 255 {
            post == (Config { threads: i as u8, ..pre })
        } else {
            warned(pre, post, ConfigWarning::Threads)
        },
        _ => warned(pre, post, ConfigWarning::Threads),
    }
}

/// How a `downloads_folder` entry lands: any non-empty string; else
/// warn.
pub open spec fn downloads_section(pre: Config, v: ConfigValue, post: Config) -> bool {
    match v {
        ConfigValue::Str(s) => if s@.len() > 0 {
            post == (Config { downloads_folder: s, ..pre })
        } else {
            warned(pre, post, ConfigWarning::DownloadsFolder)
        },
        _ => warned(pre, post, ConfigWarning::DownloadsFolder),
    }
}

/// How a `dist_folder` entry lands: any non-empty string; else warn.
pub open spec fn dist_section(pre: Config, v: ConfigValue, post: Config) -> bool {
    match v {
        ConfigValue::Str(s) => if s@.len() > 0 {
            post == (Config { dist_folder: s, ..pre })
        } else {
            warned(pre, post, ConfigWarning::DistFolder)
        },
        _ => warned(pre, post, ConfigWarning::DistFolder),
    }
}

/// How a `results_folder` entry lands: any non-empty string; else warn.
pub open spec fn results_section(pre: Config, v: ConfigValue, post: Config) -> bool {
    match v {
        ConfigValue::Str(s) => if s@.len() > 0 {
            post == (Config { results_folder: s, ..pre })
        } else {
            warned(pre, post, ConfigWarning::ResultsFolder)
        },
        _ => warned(pre, post, ConfigWarning::ResultsFolder),
    }
}

/// How an `apktool_file` entry lands: a string naming a `jar` file; else
/// warn.
pub open spec fn apktool_section(pre: Config, v: ConfigValue, post: Config) -> bool {
    match v {
        ConfigValue::Str(s) => if spec_extension(s@) == Some("jar"@) {
            post == (Config { apktool_file: s, ..pre })
        } else {
            warned(pre, post, ConfigWarning::ApktoolFile)
        },
        _ => warned(pre, post, ConfigWarning::ApktoolFile),
    }
}

/// How a `dex2jar_folder` entry lands: any non-empty string; else
/// warn.
pub open spec fn dex2jar_section(pre: Config, v: ConfigValue, post: Config) -> bool {
    match v {
        ConfigValue::Str(s) => if s@.len() > 0 {
            post == (Config { dex2jar_folder: s, ..pre })
        } else {
            warned(pre, post, ConfigWarning::Dex2jarFolder)
        },
        _ => warned(pre, post, ConfigWarning::Dex2jarFolder),
    }
}

/// How a `jd_cmd_file` entry lands: a string naming a `jar` file; else
/// warn.
pub open spec fn jd_cmd_section(pre: Config, v: ConfigValue, post: Config) -> bool {
    match v {
        ConfigValue::Str(s) => if spec_extension(s@) == Some("jar"@) {
            post == (Config { jd_cmd_file: s, ..pre })
        } else {
            warned(pre, post, ConfigWarning::JdCmdFile)
        },
        _ => warned(pre, post, ConfigWarning::JdCmdFile),
    }
}

/// How a `templates_folder` entry lands: any non-empty string; else
/// warn.
pub open spec fn templates_folder_section(pre: Config, v: ConfigValue, post: Config) -> bool {
    match v {
        ConfigValue::Str(s) => if s@.len() > 0 {
            post == (Config { templates_folder: s, ..pre })
        } else {
            warned(pre, post, ConfigWarning::TemplatesFolder)
        },
        _ => warned(pre, post, ConfigWarning::TemplatesFolder),
    }
}

/// How a `template` entry lands: any non-empty string; else warn.
pub open spec fn template_section(pre: Config, v: ConfigValue, post: Config) -> bool {
    match v {
        ConfigValue::Str(s) => if s@.len() > 0 {
            post == (Config { template: s, ..pre })
        } else {
            warned(pre, post, ConfigWarning::Template)
        },
        _ => warned(pre, post, ConfigWarning::Template),
    }
}

/// How a `rules_json` entry lands: a string naming a `json` file; else
/// warn.
pub open spec fn rules_section(pre: Config, v: ConfigValue, post: Config) -> bool {
    match v {
        ConfigValue::Str(s) => if spec_extension(s@) == Some("json"@) {
            post == (Config { rules_json: s, ..pre })
        } else {
            warned(pre, post, ConfigWarning::RulesJson)
        },
        _ => warned(pre, post, ConfigWarning::RulesJson),
    }
}

/// The first value under a key, if the key is declared.
pub open spec fn spec_field(fields: Seq<TableField>, key: Seq<char>) -> Option<FieldValue>
    decreases fields.len(),
{
    if fields.len() == 0 {
        None
    } else if fields[0].key@ == key {
        Some(fields[0].value)
    } else {
        spec_field(fields.skip(1), key)
    }
}

/// The first string value under a key, if the key is declared as a string.
pub open spec fn field_str(fields: Seq<TableField>, key: Seq<char>) -> Option<String> {
    match spec_field(fields, key) {
        Some(FieldValue::Str(s)) => Some(s),
        _ => None,
    }
}

/// An equal prefix without the key passes the lookup through.
proof fn lemma_spec_field_skip(fields: Seq<TableField>, key: Seq<char>, i: int)
    requires
        0 <= i <= fields.len(),
        forall|j: int| 0 <= j < i ==> fields[j].key@ != key,
    ensures
        spec_field(fields, key) == spec_field(fields.skip(i), key),
    decreases i,
{
    if i > 0 {
        lemma_spec_field_skip(fields.skip(1), key, i - 1);
        assert(fields.skip(1).skip(i - 1) =~= fields.skip(i));
    } else {
        assert(fields.skip(0) =~= fields);
    }
}

/// Finds the first field declared under `key`, handing back its position.
fn find_field(fields: &Vec<TableField>, key: &str) -> (r: Option<usize>)
    ensures
        match r {
            Some(ix) => ix < fields@.len() && spec_field(fields@, key@) == Some(
                fields@[ix as int].value,
            ),
            None => spec_field(fields@, key@) is None,
        },
{
    let mut i: usize = 0;
    while i < fields.len()
        invariant
            i <= fields@.len(),
            forall|j: int| 0 <= j < i ==> fields@[j].key@ != key@,
        decreases fields@.len() - i,
    {
        if str_eq(fields[i].key.as_str(), key) {
            proof {
                lemma_spec_field_skip(fields@, key@, i as int);
                assert(fields@.skip(i as int)[0] == fields@[i as int]);
            }
            return Some(i);
        }
        i += 1;
    }
    proof {
        lemma_spec_field_skip(fields@, key@, i as int);
    }
    None
}

/// How one permission declaration lands.
///
/// A declaration must be a table carrying `name`, `criticity` and
/// `description` as strings. One named `unknown`, with exactly those three
/// fields, replaces the unknown-permission fallback. Any other declaration
/// must carry `label` as well, exactly four fields, and a name that
/// resolves against the catalog; it is then inserted into the rule table,
/// first declaration winning. Every deviation records one warning and
/// leaves the configuration otherwise unchanged.
pub open spec fn perm_item_applied(pre: Config, item: TableItem, post: Config) -> bool {
    match item {
        TableItem::NotTable => warned(pre, post, ConfigWarning::PermissionFormat),
        TableItem::Table(fields) => {
            let f = fields@;
            match field_str(f, "name"@) {
                None => warned(pre, post, ConfigWarning::PermissionFormat),
                Some(name) => match spec_field(f, "criticity"@) {
                    Some(FieldValue::Str(c)) => match Criticality::spec_parse(c@) {
                        None => warned(pre, post, ConfigWarning::InvalidCriticality),
                        Some(crit) => match field_str(f, "description"@) {
                            None => warned(pre, post, ConfigWarning::PermissionFormat),
                            Some(desc) => if name@ == "unknown"@ {
                                if f.len() != 3 {
                                    warned(pre, post, ConfigWarning::UnknownPermissionFormat)
                                } else {
                                    post == (Config { unknown_permission: (crit, desc), ..pre })
                                }
                            } else {
                                if f.len() != 4 {
                                    warned(pre, post, ConfigWarning::PermissionFormat)
                                } else {
                                    match Permission::spec_parse(name@) {
                                        None => warned(
                                            pre,
                                            post,
                                            ConfigWarning::UnknownPermissionName(name),
                                        ),
                                        Some(p) => match field_str(f, "label"@) {
                                            None => warned(
                                                pre,
                                                post,
                                                ConfigWarning::PermissionFormat,
                                            ),
                                            Some(label) => {
                                                &&& post == (Config {
                                                    permissions: post.permissions,
                                                    ..pre
                                                })
                                                &&& post.permissions@ == spec_insert_rule(
                                                    pre.permissions@,
                                                    PermissionConfig {
                                                        permission: p,
                                                        criticity: crit,
                                                        label,
                                                        description: desc,
                                                    },
                                                )
                                            },
                                        },
                                    }
                                }
                            },
                        },
                    },
                    _ => warned(pre, post, ConfigWarning::PermissionFormat),
                },
            }
        },
    }
}

/// How a sequence of permission declarations lands, one after the other.
pub open spec fn perms_applied(pre: Config, items: Seq<TableItem>, post: Config) -> bool
    decreases items.len(),
{
    if items.len() == 0 {
        post == pre
    } else {
        exists|mid: Config|
            perm_item_applied(pre, items[0], mid) && perms_applied(mid, items.skip(1), post)
    }
}

/// One more declaration extends the chain.
proof fn lemma_perms_applied_push(
    pre: Config,
    items: Seq<TableItem>,
    mid: Config,
    item: TableItem,
    post: Config,
)
    requires
        perms_applied(pre, items, mid),
        perm_item_applied(mid, item, post),
    ensures
        perms_applied(pre, items.push(item), post),
    decreases items.len(),
{
    let extended = items.push(item);
    assert(extended[0 as int] == if items.len() == 0 {
        item
    } else {
        items[0]
    });
    if items.len() == 0 {
        assert(extended.skip(1) =~= Seq::<TableItem>::empty());
        assert(perm_item_applied(pre, extended[0], post) && perms_applied(
            post,
            extended.skip(1),
            post,
        ));
    } else {
        let m = choose|m: Config|
            perm_item_applied(pre, items[0], m) && perms_applied(m, items.skip(1), mid);
        lemma_perms_applied_push(m, items.skip(1), mid, item, post);
        assert(extended.skip(1) =~= items.skip(1).push(item));
        assert(perm_item_applied(pre, extended[0], m) && perms_applied(
            m,
            extended.skip(1),
            post,
        ));
    }
}

/// How a `permissions` entry lands: an array is applied declaration by
/// declaration; anything else warns.
pub open spec fn permissions_section(pre: Config, v: ConfigValue, post: Config) -> bool {
    match v {
        ConfigValue::Arr(items) => perms_applied(pre, items@, post),
        _ => warned(pre, post, ConfigWarning::Permissions),
    }
}

/// How one top-level entry lands, by its key; an unknown key warns.
pub open spec fn entry_applied(pre: Config, e: DocEntry, post: Config) -> bool {
    if e.key@ == "threads"@ {
        threads_section(pre, e.value, post)
    } else if e.key@ == "downloads_folder"@ {
        downloads_section(pre, e.value, post)
    } else if e.key@ == "dist_folder"@ {
        dist_section(pre, e.value, post)
    } else if e.key@ == "results_folder"@ {
        results_section(pre, e.value, post)
    } else if e.key@ == "apktool_file"@ {
        apktool_section(pre, e.value, post)
    } else if e.key@ == "dex2jar_folder"@ {
        dex2jar_section(pre, e.value, post)
    } else if e.key@ == "jd_cmd_file"@ {
        jd_cmd_section(pre, e.value, post)
    } else if e.key@ == "templates_folder"@ {
        templates_folder_section(pre, e.value, post)
    } else if e.key@ == "template"@ {
        template_section(pre, e.value, post)
    } else if e.key@ == "rules_json"@ {
        rules_section(pre, e.value, post)
    } else if e.key@ == "permissions"@ {
        permissions_section(pre, e.value, post)
    } else {
        warned(pre, post, ConfigWarning::UnknownKey(e.key))
    }
}

/// How a whole document lands, entry after entry.
pub open spec fn doc_applied(pre: Config, entries: Seq<DocEntry>, post: Config) -> bool
    decreases entries.len(),
{
    if entries.len() == 0 {
        post == pre
    } else {
        exists|mid: Config|
            entry_applied(pre, entries[0], mid) && doc_applied(mid, entries.skip(1), post)
    }
}

/// One more entry extends the chain.
proof fn lemma_doc_applied_push(
    pre: Config,
    entries: Seq<DocEntry>,
    mid: Config,
    e: DocEntry,
    post: Config,
)
    requires
        doc_applied(pre, entries, mid),
        entry_applied(mid, e, post),
    ensures
        doc_applied(pre, entries.push(e), post),
    decreases entries.len(),
{
    let extended = entries.push(e);
    assert(extended[0 as int] == if entries.len() == 0 {
        e
    } else {
        entries[0]
    });
    if entries.len() == 0 {
        assert(extended.skip(1) =~= Seq::<DocEntry>::empty());
        assert(entry_applied(pre, extended[0], post) && doc_applied(post, extended.skip(1), post));
    } else {
        let m = choose|m: Config|
            entry_applied(pre, entries[0], m) && doc_applied(m, entries.skip(1), mid);
        lemma_doc_applied_push(m, entries.skip(1), mid, e, post);
        assert(extended.skip(1) =~= entries.skip(1).push(e));
        assert(entry_applied(pre, extended[0], m) && doc_applied(m, extended.skip(1), post));
    }
}

/// The compiled-in defaults, field by field.
pub open spec fn is_local_default(c: Config) -> bool {
    &&& c.app_packages@ == Seq::<String>::empty()
    &&& c.verbose == false
    &&& c.quiet == false
    &&& c.overall_force == false
    &&& c.force == false
    &&& c.bench == false
    &&& c.open == false
    &&& c.threads == DEFAULT_THREADS
    &&& c.downloads_folder@ == "."@
    &&& c.dist_folder@ == "dist"@
    &&& c.results_folder@ == "results"@
    &&& c.apktool_file@ == "vendor/apktool_2.2.0.jar"@
    &&& c.dex2jar_folder@ == "vendor/dex2jar-2.1-SNAPSHOT"@
    &&& c.jd_cmd_file@ == "vendor/jd-cmd.jar"@
    &&& c.rules_json@ == "rules.json"@
    &&& c.templates_folder@ == "templates"@
    &&& c.template@ == "super"@
    &&& c.unknown_permission.0 == Criticality::Low
    &&& c.unknown_permission.1@ == concat_unknown_description()
    &&& c.permissions@ == Seq::<PermissionConfig>::empty()
    &&& c.loaded_files@ == Seq::<String>::empty()
    &&& c.warnings@ == Seq::<ConfigWarning>::empty()
}

/// The compiled-in description of the unknown-permission fallback.
pub open spec fn concat_unknown_description() -> Seq<char> {
    "Even if the application can create its own permissions, it's discouraged, since it can lead to missunderstanding between developers."@
}

/// The defaults as the environment shapes them: the system rule catalog is
/// preferred when it exists, and the shared data directory, when there is
/// one, houses the tools and templates.
pub open spec fn is_probed_default(c: Config, probe: EnvProbe) -> bool {
    &&& c.app_packages@ == Seq::<String>::empty()
    &&& c.verbose == false
    &&& c.quiet == false
    &&& c.overall_force == false
    &&& c.force == false
    &&& c.bench == false
    &&& c.open == false
    &&& c.threads == DEFAULT_THREADS
    &&& c.downloads_folder@ == "."@
    &&& c.dist_folder@ == "dist"@
    &&& c.results_folder@ == "results"@
    &&& c.rules_json@ == if probe.etc_rules_exists {
        "/etc/super/rules.json"@
    } else {
        "rules.json"@
    }
    &&& match probe.share_path {
        Some(p) => {
            &&& c.apktool_file@ == spec_path_join(p@, "vendor/apktool_2.2.0.jar"@)
            &&& c.dex2jar_folder@ == spec_path_join(p@, "vendor/dex2jar-2.1-SNAPSHOT"@)
            &&& c.jd_cmd_file@ == spec_path_join(p@, "vendor/jd-cmd.jar"@)
            &&& c.templates_folder@ == spec_path_join(p@, "templates"@)
        },
        None => {
            &&& c.apktool_file@ == "vendor/apktool_2.2.0.jar"@
            &&& c.dex2jar_folder@ == "vendor/dex2jar-2.1-SNAPSHOT"@
            &&& c.jd_cmd_file@ == "vendor/jd-cmd.jar"@
            &&& c.templates_folder@ == "templates"@
        },
    }
    &&& c.template@ == "super"@
    &&& c.unknown_permission.0 == Criticality::Low
    &&& c.unknown_permission.1@ == concat_unknown_description()
    &&& c.permissions@ == Seq::<PermissionConfig>::empty()
    &&& c.loaded_files@ == Seq::<String>::empty()
    &&& c.warnings@ == Seq::<ConfigWarning>::empty()
}

/// The thread count after the command line has spoken: a value between 1
/// and 255 replaces the previous one.
pub open spec fn cli_threads(prev: u8, t: Option<String>) -> u8 {
    match t {
        None => prev,
        Some(s) => match spec_parse_u8(s@) {
            Some(v) => if v > 0 {
                v
            } else {
                prev
            },
            None => prev,
        },
    }
}

/// Whether a given thread-count override warrants a warning.
pub open spec fn cli_threads_warn(t: Option<String>) -> bool {
    match t {
        None => false,
        Some(s) => match spec_parse_u8(s@) {
            Some(v) => v == 0,
            None => true,
        },
    }
}

/// A string field after the command line has spoken.
pub open spec fn cli_str(prev: String, o: Option<String>) -> String {
    match o {
        None => prev,
        Some(s) => s,
    }
}

/// The path a package name resolves to: joined onto the downloads folder,
/// and given the package-archive extension unless it already carries it.
pub open spec fn spec_apk_path(downloads: Seq<char>, name: Seq<char>) -> Seq<char> {
    let p = spec_path_join(downloads, name);
    if spec_extension(p) == Some("apk"@) {
        p
    } else {
        p + ".apk"@
    }
}

/// The package paths a directory listing contributes: one per entry with
/// the package-archive extension, named by its stem, in listing order.
pub open spec fn spec_apk_paths(downloads: Seq<char>, entries: Seq<String>) -> Seq<Seq<char>>
    decreases entries.len(),
{
    if entries.len() == 0 {
        Seq::<Seq<char>>::empty()
    } else {
        let rest = spec_apk_paths(downloads, entries.skip(1));
        if spec_extension(entries[0]@) == Some("apk"@) {
            seq![spec_apk_path(downloads, crate::paths::spec_file_stem(entries[0]@))] + rest
        } else {
            rest
        }
    }
}

/// One more listing entry extends the contributed paths at the end.
proof fn lemma_apk_paths_push(downloads: Seq<char>, entries: Seq<String>, x: String)
    ensures
        spec_apk_paths(downloads, entries.push(x)) == spec_apk_paths(downloads, entries) + (
        if spec_extension(x@) == Some("apk"@) {
            seq![spec_apk_path(downloads, crate::paths::spec_file_stem(x@))]
        } else {
            Seq::<Seq<char>>::empty()
        }),
    decreases entries.len(),
{
    let extended = entries.push(x);
    if entries.len() == 0 {
        assert(extended[0] == x);
        assert(extended.skip(1) =~= Seq::<String>::empty());
        assert(spec_apk_paths(downloads, extended.skip(1)) =~= Seq::<Seq<char>>::empty());
        assert(spec_apk_paths(downloads, entries) =~= Seq::<Seq<char>>::empty());
        if spec_extension(x@) == Some("apk"@) {
            assert(spec_apk_paths(downloads, extended) =~= seq![
                spec_apk_path(downloads, crate::paths::spec_file_stem(x@)),
            ]);
        } else {
            assert(spec_apk_paths(downloads, extended) =~= Seq::<Seq<char>>::empty());
        }
    } else {
        lemma_apk_paths_push(downloads, entries.skip(1), x);
        assert(extended[0] == entries[0]);
        assert(extended.skip(1) =~= entries.skip(1).push(x));
        if spec_extension(entries[0]@) == Some("apk"@) {
            assert(seq![spec_apk_path(downloads, crate::paths::spec_file_stem(entries[0]@))] + (
            spec_apk_paths(downloads, entries.skip(1)) + (if spec_extension(x@) == Some(
                "apk"@,
            ) {
                seq![spec_apk_path(downloads, crate::paths::spec_file_stem(x@))]
            } else {
                Seq::<Seq<char>>::empty()
            })) =~= spec_apk_paths(downloads, entries) + (if spec_extension(x@) == Some(
                "apk"@,
            ) {
                seq![spec_apk_path(downloads, crate::paths::spec_file_stem(x@))]
            } else {
                Seq::<Seq<char>>::empty()
            }));
        }
    }
}

/// A missing-resource entry when the condition calls for one.
pub open spec fn err_if(missing: bool, e: ResourceError) -> Seq<ResourceError> {
    if missing {
        seq![e]
    } else {
        Seq::<ResourceError>::empty()
    }
}

/// The missing-package entries from position `i` on.
pub open spec fn missing_from(pkgs: Seq<String>, present: Seq<bool>, i: int) -> Seq<ResourceError>
    decreases pkgs.len() - i,
{
    if i < 0 || i >= pkgs.len() || pkgs.len() != present.len() {
        Seq::<ResourceError>::empty()
    } else {
        err_if(!present[i], ResourceError::Package(pkgs[i])) + missing_from(pkgs, present, i + 1)
    }
}

/// No package is missing from `i` on exactly when each one is present.
proof fn lemma_missing_from_all(pkgs: Seq<String>, present: Seq<bool>, i: int)
    requires
        pkgs.len() == present.len(),
        0 <= i,
    ensures
        missing_from(pkgs, present, i).len() == 0 <==> forall|j: int|
            i <= j < present.len() ==> present[j],
    decreases pkgs.len() - i,
{
    if i < pkgs.len() {
        lemma_missing_from_all(pkgs, present, i + 1);
    }
}

/// Appends the entry exactly when the resource is missing.
fn push_if(r: &mut Vec<ResourceError>, missing: bool, e: ResourceError)
    ensures
        final(r)@ == old(r)@ + err_if(missing, e),
{
    if missing {
        r.push(e);
        proof {
            assert(r@ =~= old(r)@ + err_if(true, e));
        }
    } else {
        proof {
            assert(r@ =~= old(r)@ + err_if(false, e));
        }
    }
}

/// Everything a configuration points at that is missing, in the order the
/// resources are checked: the downloads, dist and results directories,
/// each target package, the two decompiler tools and the translator, the
/// templates folder, the chosen template, and the rule catalog.
pub open spec fn spec_errors(c: Config, st: ResourceStatus) -> Seq<ResourceError> {
    err_if(!st.downloads_folder, ResourceError::DownloadsFolder(c.downloads_folder)) + err_if(
        !st.dist_folder,
        ResourceError::DistFolder(c.dist_folder),
    ) + err_if(!st.results_folder, ResourceError::ResultsFolder(c.results_folder))
        + missing_from(c.app_packages@, st.packages@, 0) + err_if(
        !st.apktool_file,
        ResourceError::ApktoolFile(c.apktool_file),
    ) + err_if(!st.dex2jar_folder, ResourceError::Dex2jarFolder(c.dex2jar_folder)) + err_if(
        !st.jd_cmd_file,
        ResourceError::JdCmdFile(c.jd_cmd_file),
    ) + err_if(!st.templates_folder, ResourceError::TemplatesFolder(c.templates_folder)) + err_if(
        !st.template,
        ResourceError::Template(c.template, c.templates_folder),
    ) + err_if(!st.rules_json, ResourceError::RulesJson(c.rules_json))
}

/// File loading only touches the fields a file can set: the run-mode
/// flags, the target packages and the load provenance stay.
pub open spec fn run_fields_kept(pre: Config, post: Config) -> bool {
    &&& post.verbose == pre.verbose
    &&& post.quiet == pre.quiet
    &&& post.overall_force == pre.overall_force
    &&& post.force == pre.force
    &&& post.bench == pre.bench
    &&& post.open == pre.open
    &&& post.app_packages == pre.app_packages
    &&& post.loaded_files == pre.loaded_files
}

/// Applying permission declarations keeps the run fields.
proof fn lemma_perms_applied_keeps_run_fields(pre: Config, items: Seq<TableItem>, post: Config)
    requires
        perms_applied(pre, items, post),
    ensures
        run_fields_kept(pre, post),
    decreases items.len(),
{
    if items.len() != 0 {
        let mid = choose|mid: Config|
            perm_item_applied(pre, items[0], mid) && perms_applied(mid, items.skip(1), post);
        lemma_perms_applied_keeps_run_fields(mid, items.skip(1), post);
    }
}

/// Applying a document keeps the run fields.
proof fn lemma_doc_applied_keeps_run_fields(pre: Config, entries: Seq<DocEntry>, post: Config)
    requires
        doc_applied(pre, entries, post),
    ensures
        run_fields_kept(pre, post),
    decreases entries.len(),
{
    if entries.len() != 0 {
        let mid = choose|mid: Config|
            entry_applied(pre, entries[0], mid) && doc_applied(mid, entries.skip(1), post);
        match entries[0].value {
            ConfigValue::Arr(items) => {
                if perms_applied(pre, items@, mid) {
                    lemma_perms_applied_keeps_run_fields(pre, items@, mid);
                }
            },
            _ => {},
        }
        lemma_doc_applied_keeps_run_fields(mid, entries.skip(1), post);
    }
}

/// The view of an optional text.
pub open spec fn text_view(o: Option<&str>) -> Option<Seq<char>> {
    match o {
        Some(t) => Some(t@),
        None => None,
    }
}

/// A configuration with the command line's run-mode flags on it.
pub open spec fn with_flags(c: Config, cli: CliOverrides) -> Config {
    Config {
        verbose: cli.verbose,
        quiet: cli.quiet,
        overall_force: cli.force,
        force: cli.force,
        bench: cli.bench,
        open: cli.open,
        ..c
    }
}

/// One file layer of the resolution: when a text is there, the document
/// it names is applied entry by entry and the file's name is recorded;
/// when none is there, nothing changes.
pub open spec fn layer_loaded(
    pre: Config,
    text: Option<Seq<char>>,
    name: Seq<char>,
    post: Config,
) -> bool {
    match text {
        None => post == pre,
        Some(t) => exists|mid: Config|
            {
                &&& match document_of(t) {
                    Some(d) => doc_applied(pre, d, mid),
                    None => false,
                }
                &&& post == (Config { loaded_files: post.loaded_files, ..mid })
                &&& views(post.loaded_files@) == views(mid.loaded_files@).push(name)
            },
    }
}

/// How the command-line values land, field by field: every given option
/// replaces its field, except a thread count outside 1 to 255, which
/// keeps the previous value and warns.
pub open spec fn options_applied(pre: Config, cli: CliOverrides, post: Config) -> bool {
    &&& post == (Config {
        threads: cli_threads(pre.threads, cli.threads),
        downloads_folder: cli_str(pre.downloads_folder, cli.downloads),
        dist_folder: cli_str(pre.dist_folder, cli.dist),
        results_folder: cli_str(pre.results_folder, cli.results),
        apktool_file: cli_str(pre.apktool_file, cli.apktool),
        dex2jar_folder: cli_str(pre.dex2jar_folder, cli.dex2jar),
        jd_cmd_file: cli_str(pre.jd_cmd_file, cli.jd_cmd),
        template: cli_str(pre.template, cli.template),
        rules_json: cli_str(pre.rules_json, cli.rules),
        warnings: post.warnings,
        ..pre
    })
    &&& post.warnings@ == if cli_threads_warn(cli.threads) {
        pre.warnings@.push(ConfigWarning::Threads)
    } else {
        pre.warnings@
    }
}

/// The last step of the resolution: the named package is enqueued, unless
/// every archive under the downloads folder is wanted, in which case the
/// caller enqueues them itself.
pub open spec fn package_enqueued(pre: Config, cli: CliOverrides, post: Config) -> bool {
    if cli.test_all {
        post == pre
    } else {
        match cli.package {
            Some(p) => {
                &&& post == (Config { app_packages: post.app_packages, ..pre })
                &&& views(post.app_packages@) == views(pre.app_packages@).push(
                    spec_apk_path(pre.downloads_folder@, p@),
                )
            },
            None => false,
        }
    }
}

/// The whole resolution, layer after layer: the environment-shaped
/// defaults, the command line's flags, the system-wide file, the
/// working-directory file, the command-line values, and the package.
pub open spec fn spec_resolved(
    cli: CliOverrides,
    probe: EnvProbe,
    system_config: Option<&str>,
    local_config: Option<&str>,
    c: Config,
) -> bool {
    exists|d0: Config, d1: Config, d2: Config, d3: Config|
        {
            &&& is_probed_default(d0, probe)
            &&& layer_loaded(with_flags(d0, cli), text_view(system_config), "/etc/config.toml"@, d1)
            &&& layer_loaded(d1, text_view(local_config), "config.toml"@, d2)
            &&& options_applied(d2, cli, d3)
            &&& package_enqueued(d3, cli, c)
        }
}

/// The provenance a run records: the system-wide file when its text was
/// there, then the working-directory file when its text was there.
pub open spec fn loaded_views(system: bool, local: bool) -> Seq<Seq<char>> {
    (if system {
        seq!["/etc/config.toml"@]
    } else {
        Seq::<Seq<char>>::empty()
    }) + (if local {
        seq!["config.toml"@]
    } else {
        Seq::<Seq<char>>::empty()
    })
}

impl Config {
    /// A well-formed configuration keeps its rule table sorted by
    /// permission identity, one rule per identity.
    pub open spec fn wf(self) -> bool {
        rules_sorted(self.permissions@)
    }

    /// Resolves a configuration from every layer in order: the defaults
    /// the environment offers, the system-wide file, the working-directory
    /// file, and last the command-line values. The one fatal condition is
    /// a file that does not parse; everything else degrades to a warning.
    /// The caller enqueues the packages itself when every archive under
    /// the downloads folder is wanted.
    pub fn from_cli(
        cli: CliOverrides,
        probe: &EnvProbe,
        system_config: Option<&str>,
        local_config: Option<&str>,
    ) -> (r: Result<Config, ConfigError>)
        requires
            cli.test_all || cli.package is Some,
        ensures
            match r {
                Ok(c) => {
                    &&& c.wf()
                    &&& spec_resolved(cli, *probe, system_config, local_config, c)
                    &&& c.verbose == cli.verbose
                    &&& c.quiet == cli.quiet
                    &&& c.overall_force == cli.force
                    &&& c.force == cli.force
                    &&& c.bench == cli.bench
                    &&& c.open == cli.open
                    &&& views(c.loaded_files@) == loaded_views(
                        system_config is Some,
                        local_config is Some,
                    )
                    &&& cli.test_all ==> c.app_packages@ == Seq::<String>::empty()
                    &&& !cli.test_all ==> match cli.package {
                        Some(p) => views(c.app_packages@) == seq![
                            spec_apk_path(c.downloads_folder@, p@),
                        ],
                        None => false,
                    }
                },
                Err(e) => e == ConfigError::Parse,
            },
            r is Err <==> ((system_config matches Some(t) && !toml_ok(t@)) || (
            local_config matches Some(t) && !toml_ok(t@))),
    {
        let mut config = Config::default_with_probe(probe);
        let ghost d0 = config;
        config.verbose = cli.verbose;
        config.quiet = cli.quiet;
        config.overall_force = cli.force;
        config.force = cli.force;
        config.bench = cli.bench;
        config.open = cli.open;
        proof {
            assert(config == with_flags(d0, cli));
        }
        let ghost f0 = config;
        match system_config {
            Some(text) => {
                match config.load_from_str(text) {
                    Ok(()) => {
                        let ghost mid = config;
                        let name = String::from_str("/etc/config.toml");
                        proof {
                            match document_of(text@) {
                                Some(d) => lemma_doc_applied_keeps_run_fields(f0, d, config),
                                None => {},
                            }
                            lemma_views_push(config.loaded_files@, name);
                        }
                        config.loaded_files.push(name);
                        proof {
                            assert(config == (Config { loaded_files: config.loaded_files, ..mid }));
                            assert(layer_loaded(f0, Some(text@), "/etc/config.toml"@, config));
                        }
                    },
                    Err(e) => {
                        return Err(e);
                    },
                }
            },
            None => {},
        }
        let ghost d1 = config;
        proof {
            assert(layer_loaded(f0, text_view(system_config), "/etc/config.toml"@, d1));
        }
        match local_config {
            Some(text) => {
                match config.load_from_str(text) {
                    Ok(()) => {
                        let ghost mid = config;
                        let name = String::from_str("config.toml");
                        proof {
                            match document_of(text@) {
                                Some(d) => lemma_doc_applied_keeps_run_fields(d1, d, config),
                                None => {},
                            }
                            lemma_views_push(config.loaded_files@, name);
                        }
                        config.loaded_files.push(name);
                        proof {
                            assert(config == (Config { loaded_files: config.loaded_files, ..mid }));
                            assert(layer_loaded(d1, Some(text@), "config.toml"@, config));
                        }
                    },
                    Err(e) => {
                        return Err(e);
                    },
                }
            },
            None => {},
        }
        let ghost d2 = config;
        proof {
            assert(layer_loaded(d1, text_view(local_config), "config.toml"@, d2));
            assert(views(config.loaded_files@) =~= loaded_views(
                system_config is Some,
                local_config is Some,
            ));
        }
        config.set_options(&cli);
        let ghost d3 = config;
        if !cli.test_all {
            match &cli.package {
                Some(p) => {
                    proof {
                        assert(views(config.app_packages@) =~= Seq::<Seq<char>>::empty());
                    }
                    config.add_app_package(p.as_str());
                    proof {
                        assert(views(config.app_packages@) =~= seq![
                            spec_apk_path(config.downloads_folder@, p@),
                        ]);
                    }
                },
                None => {},
            }
        }
        proof {
            assert(package_enqueued(d3, cli, config));
            assert(spec_resolved(cli, *probe, system_config, local_config, config));
        }
        Ok(config)
    }

    /// Whether everything the run needs exists: the downloads, dist and
    /// results directories, the external tools, the chosen template, the
    /// rule catalog, and every target package.
    pub open spec fn spec_check(self, st: ResourceStatus) -> bool {
        &&& st.downloads_folder
        &&& st.dist_folder
        &&& st.results_folder
        &&& st.apktool_file
        &&& st.dex2jar_folder
        &&& st.jd_cmd_file
        &&& st.template
        &&& st.rules_json
        &&& forall|i: int| 0 <= i < st.packages@.len() ==> st.packages@[i]
    }

    /// Checks that all the needed folders and files exist, as observed by
    /// the caller. Side-effect-free and advisory.
    pub fn check(&self, st: &ResourceStatus) -> (r: bool)
        requires
            st.packages@.len() == self.app_packages@.len(),
        ensures
            r == self.spec_check(*st),
    {
        let base = st.downloads_folder && st.dist_folder && st.results_folder && st.apktool_file
            && st.dex2jar_folder && st.jd_cmd_file && st.template && st.rules_json;
        if !base {
            return false;
        }
        let mut i: usize = 0;
        while i < st.packages.len()
            invariant
                i <= st.packages@.len(),
                forall|j: int| 0 <= j < i ==> st.packages@[j],
            decreases st.packages@.len() - i,
        {
            if !st.packages[i] {
                return false;
            }
            i += 1;
        }
        true
    }

    /// Names every missing resource, in checking order; empty exactly when
    /// `check` passes.
    #[verifier::rlimit(100)]
    pub fn get_errors(&self, st: &ResourceStatus) -> (r: Vec<ResourceError>)
        requires
            st.packages@.len() == self.app_packages@.len(),
        ensures
            r@ == spec_errors(*self, *st),
            r@.len() == 0 <==> self.spec_check(*st) && st.templates_folder,
    {
        let mut r: Vec<ResourceError> = Vec::new();
        push_if(
            &mut r,
            !st.downloads_folder,
            ResourceError::DownloadsFolder(self.downloads_folder.clone()),
        );
        push_if(&mut r, !st.dist_folder, ResourceError::DistFolder(self.dist_folder.clone()));
        push_if(
            &mut r,
            !st.results_folder,
            ResourceError::ResultsFolder(self.results_folder.clone()),
        );
        let ghost part1 = r@;
        let mut i: usize = 0;
        while i < st.packages.len()
            invariant
                st.packages@.len() == self.app_packages@.len(),
                i <= st.packages@.len(),
                part1 + missing_from(self.app_packages@, st.packages@, 0) =~= r@ + missing_from(
                    self.app_packages@,
                    st.packages@,
                    i as int,
                ),
            decreases st.packages@.len() - i,
        {
            if !st.packages[i] {
                r.push(ResourceError::Package(self.app_packages[i].clone()));
            }
            proof {
                assert(part1 + missing_from(self.app_packages@, st.packages@, 0) =~= r@
                    + missing_from(self.app_packages@, st.packages@, i + 1));
            }
            i += 1;
        }
        proof {
            assert(r@ =~= part1 + missing_from(self.app_packages@, st.packages@, 0));
        }
        push_if(&mut r, !st.apktool_file, ResourceError::ApktoolFile(self.apktool_file.clone()));
        push_if(
            &mut r,
            !st.dex2jar_folder,
            ResourceError::Dex2jarFolder(self.dex2jar_folder.clone()),
        );
        push_if(&mut r, !st.jd_cmd_file, ResourceError::JdCmdFile(self.jd_cmd_file.clone()));
        push_if(
            &mut r,
            !st.templates_folder,
            ResourceError::TemplatesFolder(self.templates_folder.clone()),
        );
        push_if(
            &mut r,
            !st.template,
            ResourceError::Template(self.template.clone(), self.templates_folder.clone()),
        );
        push_if(&mut r, !st.rules_json, ResourceError::RulesJson(self.rules_json.clone()));
        proof {
            assert(r@ =~= spec_errors(*self, *st));
            lemma_missing_from_all(self.app_packages@, st.packages@, 0);
        }
        r
    }

    /// Adds a package to analyze: its name resolves under the downloads
    /// folder and is given the package-archive extension unless it already
    /// has it.
    pub fn add_app_package(&mut self, app_package: &str)
        ensures
            *final(self) == (Config { app_packages: final(self).app_packages, ..*old(self) }),
            views(final(self).app_packages@) == views(old(self).app_packages@).push(
                spec_apk_path(old(self).downloads_folder@, app_package@),
            ),
    {
        let joined = path_join(self.downloads_folder.as_str(), app_package);
        let package_path: String = if crate::paths::has_extension(joined.as_str(), "apk") {
            joined
        } else {
            joined.concat(".apk")
        };
        proof {
            lemma_views_push(self.app_packages@, package_path);
        }
        self.app_packages.push(package_path);
    }

    /// Adds every package-archive entry of a downloads-folder listing, in
    /// listing order, each named by its stem.
    pub fn read_apks(&mut self, entries: &Vec<String>)
        ensures
            *final(self) == (Config { app_packages: final(self).app_packages, ..*old(self) }),
            views(final(self).app_packages@) == views(old(self).app_packages@) + spec_apk_paths(
                old(self).downloads_folder@,
                entries@,
            ),
    {
        let ghost pre = *self;
        proof {
            assert(entries@.take(0) =~= Seq::<String>::empty());
            assert(spec_apk_paths(pre.downloads_folder@, entries@.take(0))
                =~= Seq::<Seq<char>>::empty());
            assert(views(pre.app_packages@) + Seq::<Seq<char>>::empty() =~= views(
                pre.app_packages@,
            ));
        }
        let mut i: usize = 0;
        while i < entries.len()
            invariant
                i <= entries@.len(),
                *self == (Config { app_packages: self.app_packages, ..pre }),
                views(self.app_packages@) == views(pre.app_packages@) + spec_apk_paths(
                    pre.downloads_folder@,
                    entries@.take(i as int),
                ),
            decreases entries@.len() - i,
        {
            let entry = &entries[i];
            if crate::paths::has_extension(entry.as_str(), "apk") {
                let stem = crate::paths::get_package_name(entry.as_str());
                self.add_app_package(stem.as_str());
            }
            proof {
                lemma_apk_paths_push(
                    pre.downloads_folder@,
                    entries@.take(i as int),
                    entries@[i as int],
                );
                assert(entries@.take(i + 1) =~= entries@.take(i as int).push(entries@[i as int]));
                assert(views(self.app_packages@) =~= views(pre.app_packages@) + spec_apk_paths(
                    pre.downloads_folder@,
                    entries@.take(i + 1),
                ));
            }
            i += 1;
        }
        proof {
            assert(entries@.take(entries@.len() as int) =~= entries@);
        }
    }

    /// The compiled-in defaults, with no look at the environment.
    pub fn local_default() -> (r: Config)
        ensures
            is_local_default(r),
            r.wf(),
    {
        Config {
            app_packages: Vec::new(),
            verbose: false,
            quiet: false,
            overall_force: false,
            force: false,
            bench: false,
            open: false,
            threads: DEFAULT_THREADS,
            downloads_folder: String::from_str("."),
            dist_folder: String::from_str("dist"),
            results_folder: String::from_str("results"),
            apktool_file: String::from_str("vendor/apktool_2.2.0.jar"),
            dex2jar_folder: String::from_str("vendor/dex2jar-2.1-SNAPSHOT"),
            jd_cmd_file: String::from_str("vendor/jd-cmd.jar"),
            rules_json: String::from_str("rules.json"),
            templates_folder: String::from_str("templates"),
            template: String::from_str("super"),
            unknown_permission: (
                Criticality::Low,
                String::from_str(
                    "Even if the application can create its own permissions, it's discouraged, since it can lead to missunderstanding between developers.",
                ),
            ),
            permissions: Vec::new(),
            loaded_files: Vec::new(),
            warnings: Vec::new(),
        }
    }

    /// The defaults, shaped by what the environment offers: a system-wide
    /// rule catalog and a shared data directory override their compiled-in
    /// stand-ins.
    pub fn default_with_probe(probe: &EnvProbe) -> (r: Config)
        ensures
            is_probed_default(r, *probe),
            r.wf(),
    {
        let mut config = Config::local_default();
        if probe.etc_rules_exists {
            config.rules_json = String::from_str("/etc/super/rules.json");
        }
        match &probe.share_path {
            Some(p) => {
                config.apktool_file = path_join(p.as_str(), "vendor/apktool_2.2.0.jar");
                config.dex2jar_folder = path_join(p.as_str(), "vendor/dex2jar-2.1-SNAPSHOT");
                config.jd_cmd_file = path_join(p.as_str(), "vendor/jd-cmd.jar");
                config.templates_folder = path_join(p.as_str(), "templates");
            },
            None => {},
        }
        config
    }

    /// Applies the command-line values: every given option replaces its
    /// field, except a thread count outside 1 to 255, which keeps the
    /// previous value and warns.
    #[verifier::rlimit(60)]
    pub fn set_options(&mut self, cli: &CliOverrides)
        ensures
            options_applied(*old(self), *cli, *final(self)),
    {
        match &cli.threads {
            Some(s) => {
                match parse_u8(s.as_str()) {
                    Some(t) => {
                        if t > 0 {
                            self.threads = t;
                        } else {
                            self.warnings.push(ConfigWarning::Threads);
                        }
                    },
                    None => {
                        self.warnings.push(ConfigWarning::Threads);
                    },
                }
            },
            None => {},
        }
        match &cli.downloads {
            Some(s) => {
                self.downloads_folder = s.clone();
            },
            None => {},
        }
        match &cli.dist {
            Some(s) => {
                self.dist_folder = s.clone();
            },
            None => {},
        }
        match &cli.results {
            Some(s) => {
                self.results_folder = s.clone();
            },
            None => {},
        }
        match &cli.apktool {
            Some(s) => {
                self.apktool_file = s.clone();
            },
            None => {},
        }
        match &cli.dex2jar {
            Some(s) => {
                self.dex2jar_folder = s.clone();
            },
            None => {},
        }
        match &cli.jd_cmd {
            Some(s) => {
                self.jd_cmd_file = s.clone();
            },
            None => {},
        }
        match &cli.template {
            Some(s) => {
                self.template = s.clone();
            },
            None => {},
        }
        match &cli.rules {
            Some(s) => {
                self.rules_json = s.clone();
            },
            None => {},
        }
    }

    /// Whether the run narrates every stage.
    pub fn is_verbose(&self) -> (r: bool)
        ensures
            r == self.verbose,
    {
        self.verbose
    }

    /// Whether informational narration is suppressed.
    pub fn is_quiet(&self) -> (r: bool)
        ensures
            r == self.quiet,
    {
        self.quiet
    }

    /// Whether existing results are to be discarded and redone.
    pub fn is_force(&self) -> (r: bool)
        ensures
            r == self.force,
    {
        self.force
    }

    /// Forces the next package's results to be recreated, until reset.
    pub fn set_force(&mut self)
        ensures
            *final(self) == (Config { force: true, ..*old(self) }),
    {
        self.force = true;
    }

    /// Puts the force flag back to the run-wide value.
    pub fn reset_force(&mut self)
        ensures
            *final(self) == (Config { force: old(self).overall_force, ..*old(self) }),
    {
        self.force = self.overall_force;
    }

    /// Whether timings are measured and reported.
    pub fn is_bench(&self) -> (r: bool)
        ensures
            r == self.bench,
    {
        self.bench
    }

    /// Whether the report is opened when done.
    pub fn is_open(&self) -> (r: bool)
        ensures
            r == self.open,
    {
        self.open
    }

    /// The worker thread count.
    pub fn get_threads(&self) -> (r: u8)
        ensures
            r == self.threads,
    {
        self.threads
    }

    /// The folder with files from analyzed packages.
    pub fn get_dist_folder(&self) -> (r: &str)
        ensures
            r@ == self.dist_folder@,
    {
        self.dist_folder.as_str()
    }

    /// The folder the results of analysis go under.
    pub fn get_results_folder(&self) -> (r: &str)
        ensures
            r@ == self.results_folder@,
    {
        self.results_folder.as_str()
    }

    /// The path to the decompiler archive.
    pub fn get_apktool_file(&self) -> (r: &str)
        ensures
            r@ == self.apktool_file@,
    {
        self.apktool_file.as_str()
    }

    /// The path to the bytecode translator folder.
    pub fn get_dex2jar_folder(&self) -> (r: &str)
        ensures
            r@ == self.dex2jar_folder@,
    {
        self.dex2jar_folder.as_str()
    }

    /// The path to the decompiler command archive.
    pub fn get_jd_cmd_file(&self) -> (r: &str)
        ensures
            r@ == self.jd_cmd_file@,
    {
        self.jd_cmd_file.as_str()
    }

    /// The path of the chosen template under the templates folder.
    pub fn get_template_path(&self) -> (r: String)
        ensures
            r@ == spec_path_join(self.templates_folder@, self.template@),
    {
        path_join(self.templates_folder.as_str(), self.template.as_str())
    }

    /// The folder where the report templates are stored.
    pub fn get_templates_folder(&self) -> (r: &str)
        ensures
            r@ == self.templates_folder@,
    {
        self.templates_folder.as_str()
    }

    /// The name of the chosen template.
    pub fn get_template_name(&self) -> (r: &str)
        ensures
            r@ == self.template@,
    {
        self.template.as_str()
    }

    /// The path to the rule catalog file.
    pub fn get_rules_json(&self) -> (r: &str)
        ensures
            r@ == self.rules_json@,
    {
        self.rules_json.as_str()
    }

    /// The criticality applied to permissions without an explicit rule.
    pub fn get_unknown_permission_criticity(&self) -> (r: Criticality)
        ensures
            r == self.unknown_permission.0,
    {
        self.unknown_permission.0
    }

    /// The description applied to permissions without an explicit rule.
    pub fn get_unknown_permission_description(&self) -> (r: &str)
        ensures
            r@ == self.unknown_permission.1@,
    {
        self.unknown_permission.1.as_str()
    }

    /// The rule table, in identity order.
    pub fn get_permissions(&self) -> (r: &Vec<PermissionConfig>)
        ensures
            r@ == self.permissions@,
    {
        &self.permissions
    }

    /// The configuration files actually loaded, in load order.
    pub fn get_loaded_config_files(&self) -> (r: &Vec<String>)
        ensures
            r@ == self.loaded_files@,
    {
        &self.loaded_files
    }

    /// Every recoverable problem met while resolving, in order.
    pub fn get_warnings(&self) -> (r: &Vec<ConfigWarning>)
        ensures
            r@ == self.warnings@,
    {
        &self.warnings
    }

    /// The target packages, as resolved paths.
    pub fn get_app_packages(&self) -> (r: Vec<String>)
        ensures
            r@ == self.app_packages@,
    {
        let mut r: Vec<String> = Vec::new();
        let mut i: usize = 0;
        while i < self.app_packages.len()
            invariant
                i <= self.app_packages@.len(),
                r@ == self.app_packages@.take(i as int),
            decreases self.app_packages@.len() - i,
        {
            r.push(self.app_packages[i].clone());
            proof {
                assert(self.app_packages@.take(i + 1) =~= self.app_packages@.take(i as int).push(
                    self.app_packages@[i as int],
                ));
            }
            i += 1;
        }
        proof {
            assert(self.app_packages@.take(self.app_packages@.len() as int)
                =~= self.app_packages@);
        }
        r
    }

    /// Loads the `threads` entry: an integer between 1 and 255; anything
    /// else keeps the previous count and warns.
    pub fn load_threads_section(&mut self, value: &ConfigValue)
        ensures
            threads_section(*old(self), *value, *final(self)),
    {
        match value {
            ConfigValue::Int(i) => {
                let v = *i;
                if 1 <= v && v <= 255 {
                    self.threads = v as u8;
                } else {
                    self.warnings.push(ConfigWarning::Threads);
                }
            },
            _ => {
                self.warnings.push(ConfigWarning::Threads);
            },
        }
    }

    /// Loads the `downloads_folder` entry: any non-empty string; else
    /// warn.
    pub fn load_downloads_folder_section(&mut self, value: &ConfigValue)
        ensures
            downloads_section(*old(self), *value, *final(self)),
    {
        match value {
            ConfigValue::Str(s) => {
                if s.as_str().is_empty() {
                    self.warnings.push(ConfigWarning::DownloadsFolder);
                } else {
                    self.downloads_folder = s.clone();
                }
            },
            _ => {
                self.warnings.push(ConfigWarning::DownloadsFolder);
            },
        }
    }

    /// Loads the `dist_folder` entry: any non-empty string; else warn.
    pub fn load_dist_folder_section(&mut self, value: &ConfigValue)
        ensures
            dist_section(*old(self), *value, *final(self)),
    {
        match value {
            ConfigValue::Str(s) => {
                if s.as_str().is_empty() {
                    self.warnings.push(ConfigWarning::DistFolder);
                } else {
                    self.dist_folder = s.clone();
                }
            },
            _ => {
                self.warnings.push(ConfigWarning::DistFolder);
            },
        }
    }

    /// Loads the `results_folder` entry: any non-empty string; else warn.
    pub fn load_results_folder_section(&mut self, value: &ConfigValue)
        ensures
            results_section(*old(self), *value, *final(self)),
    {
        match value {
            ConfigValue::Str(s) => {
                if s.as_str().is_empty() {
                    self.warnings.push(ConfigWarning::ResultsFolder);
                } else {
                    self.results_folder = s.clone();
                }
            },
            _ => {
                self.warnings.push(ConfigWarning::ResultsFolder);
            },
        }
    }

    /// Loads the `apktool_file` entry: a string naming a `jar` file; else
    /// warn.
    pub fn load_apktool_file_section(&mut self, value: &ConfigValue)
        ensures
            apktool_section(*old(self), *value, *final(self)),
    {
        match value {
            ConfigValue::Str(s) => {
                if crate::paths::has_extension(s.as_str(), "jar") {
                    self.apktool_file = s.clone();
                } else {
                    self.warnings.push(ConfigWarning::ApktoolFile);
                }
            },
            _ => {
                self.warnings.push(ConfigWarning::ApktoolFile);
            },
        }
    }

    /// Loads the `dex2jar_folder` entry: any non-empty string; else
    /// warn.
    pub fn load_dex2jar_folder_section(&mut self, value: &ConfigValue)
        ensures
            dex2jar_section(*old(self), *value, *final(self)),
    {
        match value {
            ConfigValue::Str(s) => {
                if s.as_str().is_empty() {
                    self.warnings.push(ConfigWarning::Dex2jarFolder);
                } else {
                    self.dex2jar_folder = s.clone();
                }
            },
            _ => {
                self.warnings.push(ConfigWarning::Dex2jarFolder);
            },
        }
    }

    /// Loads the `jd_cmd_file` entry: a string naming a `jar` file; else
    /// warn.
    pub fn load_jd_cmd_file_section(&mut self, value: &ConfigValue)
        ensures
            jd_cmd_section(*old(self), *value, *final(self)),
    {
        match value {
            ConfigValue::Str(s) => {
                if crate::paths::has_extension(s.as_str(), "jar") {
                    self.jd_cmd_file = s.clone();
                } else {
                    self.warnings.push(ConfigWarning::JdCmdFile);
                }
            },
            _ => {
                self.warnings.push(ConfigWarning::JdCmdFile);
            },
        }
    }

    /// Loads the `templates_folder` entry: any non-empty string; else
    /// warn.
    pub fn load_templates_folder_section(&mut self, value: &ConfigValue)
        ensures
            templates_folder_section(*old(self), *value, *final(self)),
    {
        match value {
            ConfigValue::Str(s) => {
                if s.as_str().is_empty() {
                    self.warnings.push(ConfigWarning::TemplatesFolder);
                } else {
                    self.templates_folder = s.clone();
                }
            },
            _ => {
                self.warnings.push(ConfigWarning::TemplatesFolder);
            },
        }
    }

    /// Loads the `template` entry: any non-empty string; else warn.
    pub fn load_template_section(&mut self, value: &ConfigValue)
        ensures
            template_section(*old(self), *value, *final(self)),
    {
        match value {
            ConfigValue::Str(s) => {
                if s.as_str().is_empty() {
                    self.warnings.push(ConfigWarning::Template);
                } else {
                    self.template = s.clone();
                }
            },
            _ => {
                self.warnings.push(ConfigWarning::Template);
            },
        }
    }

    /// Applies one permission declaration, as `perm_item_applied` says.
    fn apply_permission_item(&mut self, item: &TableItem)
        requires
            old(self).wf(),
        ensures
            perm_item_applied(*old(self), *item, *final(self)),
            final(self).wf(),
    {
        let fields = match item {
            TableItem::Table(fields) => fields,
            TableItem::NotTable => {
                self.warnings.push(ConfigWarning::PermissionFormat);
                return;
            },
        };
        let name: String = match find_field(fields, "name") {
            Some(ix) => match &fields[ix].value {
                FieldValue::Str(s) => s.clone(),
                FieldValue::Other => {
                    self.warnings.push(ConfigWarning::PermissionFormat);
                    return;
                },
            },
            None => {
                self.warnings.push(ConfigWarning::PermissionFormat);
                return;
            },
        };
        let crit: Criticality = match find_field(fields, "criticity") {
            Some(ix) => match &fields[ix].value {
                FieldValue::Str(c) => match Criticality::from_str(c.as_str()) {
                    Some(crit) => crit,
                    None => {
                        self.warnings.push(ConfigWarning::InvalidCriticality);
                        return;
                    },
                },
                FieldValue::Other => {
                    self.warnings.push(ConfigWarning::PermissionFormat);
                    return;
                },
            },
            None => {
                self.warnings.push(ConfigWarning::PermissionFormat);
                return;
            },
        };
        let desc: String = match find_field(fields, "description") {
            Some(ix) => match &fields[ix].value {
                FieldValue::Str(s) => s.clone(),
                FieldValue::Other => {
                    self.warnings.push(ConfigWarning::PermissionFormat);
                    return;
                },
            },
            None => {
                self.warnings.push(ConfigWarning::PermissionFormat);
                return;
            },
        };
        if str_eq(name.as_str(), "unknown") {
            if fields.len() != 3 {
                self.warnings.push(ConfigWarning::UnknownPermissionFormat);
                return;
            }
            self.unknown_permission = (crit, desc);
        } else {
            if fields.len() != 4 {
                self.warnings.push(ConfigWarning::PermissionFormat);
                return;
            }
            let permission = match Permission::from_str(name.as_str()) {
                Some(p) => p,
                None => {
                    self.warnings.push(ConfigWarning::UnknownPermissionName(name));
                    return;
                },
            };
            let label: String = match find_field(fields, "label") {
                Some(ix) => match &fields[ix].value {
                    FieldValue::Str(s) => s.clone(),
                    FieldValue::Other => {
                        self.warnings.push(ConfigWarning::PermissionFormat);
                        return;
                    },
                },
                None => {
                    self.warnings.push(ConfigWarning::PermissionFormat);
                    return;
                },
            };
            insert_rule(&mut self.permissions, PermissionConfig::new(permission, crit, label, desc));
        }
    }

    /// Loads the `permissions` entry: an array of declarations, applied in
    /// order; anything else warns.
    pub fn load_permissions(&mut self, value: &ConfigValue)
        requires
            old(self).wf(),
        ensures
            permissions_section(*old(self), *value, *final(self)),
            final(self).wf(),
    {
        match value {
            ConfigValue::Arr(items) => {
                let ghost pre = *self;
                proof {
                    assert(items@.take(0) =~= Seq::<TableItem>::empty());
                }
                let mut i: usize = 0;
                while i < items.len()
                    invariant
                        self.wf(),
                        i <= items@.len(),
                        perms_applied(pre, items@.take(i as int), *self),
                    decreases items@.len() - i,
                {
                    let ghost mid = *self;
                    self.apply_permission_item(&items[i]);
                    proof {
                        lemma_perms_applied_push(
                            pre,
                            items@.take(i as int),
                            mid,
                            items@[i as int],
                            *self,
                        );
                        assert(items@.take(i + 1) =~= items@.take(i as int).push(
                            items@[i as int],
                        ));
                    }
                    i += 1;
                }
                proof {
                    assert(items@.take(items@.len() as int) =~= items@);
                }
            },
            _ => {
                self.warnings.push(ConfigWarning::Permissions);
            },
        }
    }

    /// Applies one top-level entry by its key.
    fn apply_entry(&mut self, e: &DocEntry)
        requires
            old(self).wf(),
        ensures
            entry_applied(*old(self), *e, *final(self)),
            final(self).wf(),
    {
        let key = e.key.as_str();
        if str_eq(key, "threads") {
            self.load_threads_section(&e.value);
        } else if str_eq(key, "downloads_folder") {
            self.load_downloads_folder_section(&e.value);
        } else if str_eq(key, "dist_folder") {
            self.load_dist_folder_section(&e.value);
        } else if str_eq(key, "results_folder") {
            self.load_results_folder_section(&e.value);
        } else if str_eq(key, "apktool_file") {
            self.load_apktool_file_section(&e.value);
        } else if str_eq(key, "dex2jar_folder") {
            self.load_dex2jar_folder_section(&e.value);
        } else if str_eq(key, "jd_cmd_file") {
            self.load_jd_cmd_file_section(&e.value);
        } else if str_eq(key, "templates_folder") {
            self.load_templates_folder_section(&e.value);
        } else if str_eq(key, "template") {
            self.load_template_section(&e.value);
        } else if str_eq(key, "rules_json") {
            self.load_rules_section(&e.value);
        } else if str_eq(key, "permissions") {
            self.load_permissions(&e.value);
        } else {
            self.warnings.push(ConfigWarning::UnknownKey(e.key.clone()));
        }
    }

    /// Applies a parsed document, entry after entry.
    pub fn apply_document(&mut self, doc: &Vec<DocEntry>)
        requires
            old(self).wf(),
        ensures
            doc_applied(*old(self), doc@, *final(self)),
            final(self).wf(),
    {
        let ghost pre = *self;
        proof {
            assert(doc@.take(0) =~= Seq::<DocEntry>::empty());
        }
        let mut i: usize = 0;
        while i < doc.len()
            invariant
                self.wf(),
                i <= doc@.len(),
                doc_applied(pre, doc@.take(i as int), *self),
            decreases doc@.len() - i,
        {
            let ghost mid = *self;
            self.apply_entry(&doc[i]);
            proof {
                lemma_doc_applied_push(pre, doc@.take(i as int), mid, doc@[i as int], *self);
                assert(doc@.take(i + 1) =~= doc@.take(i as int).push(doc@[i as int]));
            }
            i += 1;
        }
        proof {
            assert(doc@.take(doc@.len() as int) =~= doc@);
        }
    }

    /// Loads one configuration file's text: the document the text names
    /// is applied entry by entry, and the load succeeds exactly when the
    /// text is structurally valid TOML. An invalid text is the one fatal
    /// condition; it leaves the configuration untouched.
    pub fn load_from_str(&mut self, content: &str) -> (r: Result<(), ConfigError>)
        requires
            old(self).wf(),
        ensures
            final(self).wf(),
            r is Ok <==> toml_ok(content@),
            r is Err ==> *final(self) == *old(self) && r == Err::<(), ConfigError>(
                ConfigError::Parse,
            ),
            r is Ok ==> match document_of(content@) {
                Some(d) => doc_applied(*old(self), d, *final(self)),
                None => false,
            },
    {
        match crate::document::parse_document(content) {
            Some(doc) => {
                self.apply_document(&doc);
                Ok(())
            },
            None => Err(ConfigError::Parse),
        }
    }

    /// Loads the `rules_json` entry: a string naming a `json` file; else
    /// warn.
    pub fn load_rules_section(&mut self, value: &ConfigValue)
        ensures
            rules_section(*old(self), *value, *final(self)),
    {
        match value {
            ConfigValue::Str(s) => {
                if crate::paths::has_extension(s.as_str(), "json") {
                    self.rules_json = s.clone();
                } else {
                    self.warnings.push(ConfigWarning::RulesJson);
                }
            },
            _ => {
                self.warnings.push(ConfigWarning::RulesJson);
            },
        }
    }
}

impl Default for Config {
    /// The compiled-in defaults.
    fn default() -> (r: Config)
        ensures
            is_local_default(r),
            r.wf(),
    {
        Config::local_default()
    }
}

} // verus!
