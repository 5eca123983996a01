//! Where installations are looked for, and what moving all settings in and
//! out of an archive did.

use vstd::prelude::*;
use crate::bindings::home_dir;
use crate::instance::{opt_text, texts};
use crate::paths::{join, joined};
use crate::platform::common::{push_joined, push_text};
use crate::text::{begins_with, strip_leading, to_chars, to_string, without_leading};

verus! {

/// The places where installations and files are looked for.
#[derive(Debug, Clone)]
pub struct ScanPaths {
    pub java_paths: Vec<String>,
    pub node_paths: Vec<String>,
    pub maven_home: String,
    pub maven_repository: String,
    pub aem_base_dir: String,
    pub logs_dir: String,
}

/// The mathematical content of a `ScanPaths`.
pub struct ScanPathsView {
    pub java_paths: Seq<Seq<char>>,
    pub node_paths: Seq<Seq<char>>,
    pub maven_home: Seq<char>,
    pub maven_repository: Seq<char>,
    pub aem_base_dir: Seq<char>,
    pub logs_dir: Seq<char>,
}

impl View for ScanPaths {
    type V = ScanPathsView;

    open spec fn view(&self) -> ScanPathsView {
        ScanPathsView {
            java_paths: texts(self.java_paths@),
            node_paths: texts(self.node_paths@),
            maven_home: self.maven_home@,
            maven_repository: self.maven_repository@,
            aem_base_dir: self.aem_base_dir@,
            logs_dir: self.logs_dir@,
        }
    }
}

/// The places to look in where none are stored, for a user whose home
/// directory is `home`.
pub open spec fn default_scan_paths(home: Seq<char>) -> ScanPathsView {
    ScanPathsView {
        java_paths: seq!["/usr/lib/jvm"@, "/opt/java"@, joined(home, ".sdkman/candidates/java"@)],
        node_paths: seq![joined(home, ".nvm/versions/node"@), joined(home, ".fnm/node-versions"@)],
        maven_home: joined(home, ".m2"@),
        maven_repository: joined(home, ".m2/repository"@),
        aem_base_dir: Seq::empty(),
        logs_dir: Seq::empty(),
    }
}

impl ScanPaths {
    /// The places to look in for a user whose home directory is `home`, or
    /// the root where it is not known.
    pub fn for_home(home: &Option<String>) -> (r: ScanPaths)
        ensures
            r@ == default_scan_paths(
                match opt_text(*home) {
                    Some(h) => h,
                    None => "/"@,
                },
            ),
    {
        let base = match home {
            Some(h) => h.clone(),
            None => "/".to_owned(),
        };
        let mut java_paths: Vec<String> = Vec::new();
        proof {
            assert(texts(java_paths@) =~= Seq::<Seq<char>>::empty());
        }
        push_text(&mut java_paths, "/usr/lib/jvm".to_owned());
        push_text(&mut java_paths, "/opt/java".to_owned());
        push_joined(&mut java_paths, base.as_str(), ".sdkman/candidates/java");
        let mut node_paths: Vec<String> = Vec::new();
        proof {
            assert(texts(node_paths@) =~= Seq::<Seq<char>>::empty());
        }
        push_joined(&mut node_paths, base.as_str(), ".nvm/versions/node");
        push_joined(&mut node_paths, base.as_str(), ".fnm/node-versions");
        proof {
            assert(texts(java_paths@) =~= default_scan_paths(base@).java_paths);
            assert(texts(node_paths@) =~= default_scan_paths(base@).node_paths);
        }
        ScanPaths {
            java_paths,
            node_paths,
            maven_home: join(base.as_str(), ".m2"),
            maven_repository: join(base.as_str(), ".m2/repository"),
            aem_base_dir: String::new(),
            logs_dir: String::new(),
        }
    }
}

impl Default for ScanPaths {
    /// The places to look in for the user of this machine: those for some
    /// home directory.
    fn default() -> (r: ScanPaths)
        ensures
            exists|home: Seq<char>| r@ == #[trigger] default_scan_paths(home),
    {
        let home = home_dir();
        let r = ScanPaths::for_home(&home);
        proof {
            let h = match opt_text(home) {
                Some(h) => h,
                None => "/"@,
            };
            assert(r@ == default_scan_paths(h));
        }
        r
    }
}

/// What writing all settings to an archive did.
#[derive(Debug, Clone)]
pub struct ExportResult {
    pub success: bool,
    pub file_path: Option<String>,
    pub profiles_count: usize,
    pub instances_count: usize,
    pub error: Option<String>,
}

/// What reading all settings from an archive did.
#[derive(Debug, Clone)]
pub struct ImportResult {
    pub success: bool,
    pub profiles_imported: usize,
    pub instances_imported: usize,
    pub configs_imported: bool,
    pub errors: Vec<String>,
}

/// What removing all settings did.
#[derive(Debug, Clone)]
pub struct ResetResult {
    pub success: bool,
    pub profiles_deleted: usize,
    pub instances_deleted: usize,
    pub configs_reset: bool,
    pub error: Option<String>,
}

/// What kind of file an entry of an archive of settings is.
#[derive(Debug, Clone, Copy, PartialEq, Eq, Structural)]
pub enum EntryKind {
    Profile,
    Instance,
    Config,
    Maven,
}

/// The kind of the entry `name`, by the directory that its name begins
/// with; `None` for an entry that is not one of the settings.
pub open spec fn entry_kind_of(name: Seq<char>) -> Option<EntryKind> {
    if "profiles/"@.is_prefix_of(name) {
        Some(EntryKind::Profile)
    } else if "instances/"@.is_prefix_of(name) {
        Some(EntryKind::Instance)
    } else if "config/"@.is_prefix_of(name) {
        Some(EntryKind::Config)
    } else if "maven/"@.is_prefix_of(name) {
        Some(EntryKind::Maven)
    } else {
        None
    }
}

/// Where the entry `name` of the given kind goes: settings go to the
/// settings directory, without the leading `config/` however often it
/// stands there; every other entry goes to the data directory under its
/// name.
pub open spec fn entry_destination_of(
    name: Seq<char>,
    kind: EntryKind,
    data_dir: Seq<char>,
    config_dir: Seq<char>,
) -> Seq<char> {
    if kind == EntryKind::Config {
        joined(config_dir, strip_leading(name, "config/"@))
    } else {
        joined(data_dir, name)
    }
}

/// The kind of the entry `name` of an archive and the path to write it to;
/// `None` for an entry that is passed over.
pub fn import_destination(name: &str, data_dir: &str, config_dir: &str) -> (r: Option<
    (EntryKind, String),
>)
    ensures
        match r {
            Some(found) => entry_kind_of(name@) == Some(found.0) && found.1@
                == entry_destination_of(name@, found.0, data_dir@, config_dir@),
            None => entry_kind_of(name@) is None,
        },
{
    let chars = to_chars(name);
    if begins_with(&chars, "profiles/") {
        Some((EntryKind::Profile, join(data_dir, name)))
    } else if begins_with(&chars, "instances/") {
        Some((EntryKind::Instance, join(data_dir, name)))
    } else if begins_with(&chars, "config/") {
        let rest = to_string(&without_leading(&chars, "config/"));
        Some((EntryKind::Config, join(config_dir, rest.as_str())))
    } else if begins_with(&chars, "maven/") {
        Some((EntryKind::Maven, join(data_dir, name)))
    } else {
        None
    }
}

/// How many of the entries are of the given kind.
pub open spec fn count_kind(names: Seq<Seq<char>>, kind: EntryKind) -> nat
    decreases names.len(),
{
    if names.len() == 0 {
        0
    } else {
        count_kind(names.drop_last(), kind) + if entry_kind_of(names.last()) == Some(kind) {
            1nat
        } else {
            0nat
        }
    }
}

/// What reading the entries named `names` from an archive did, given the
/// errors that were met: every profile and instance among the entries
/// counts, whether or not it could be written, and the reading succeeded
/// where there were no errors.
pub fn import_result(names: &Vec<String>, errors: Vec<String>) -> (r: ImportResult)
    ensures
        r.success == (errors@.len() == 0),
        r.profiles_imported == count_kind(texts(names@), EntryKind::Profile),
        r.instances_imported == count_kind(texts(names@), EntryKind::Instance),
        r.configs_imported == (count_kind(texts(names@), EntryKind::Config) > 0),
        texts(r.errors@) == texts(errors@),
{
    let mut profiles: usize = 0;
    let mut instances: usize = 0;
    let mut configs = false;
    let mut i: usize = 0;
    proof {
        assert(texts(names@).take(0) =~= Seq::<Seq<char>>::empty());
    }
    while i < names.len()
        invariant
            i <= names.len(),
            texts(names@).len() == names@.len(),
            profiles == count_kind(texts(names@).take(i as int), EntryKind::Profile),
            instances == count_kind(texts(names@).take(i as int), EntryKind::Instance),
            configs == (count_kind(texts(names@).take(i as int), EntryKind::Config) > 0),
            profiles <= i,
            instances <= i,
        decreases names.len() - i,
    {
        proof {
            let next = texts(names@).take(i + 1);
            assert(next.drop_last() =~= texts(names@).take(i as int));
            assert(next.last() == names@[i as int]@);
        }
        let chars = to_chars(names[i].as_str());
        if begins_with(&chars, "profiles/") {
            profiles += 1;
        } else if begins_with(&chars, "instances/") {
            instances += 1;
        } else if begins_with(&chars, "config/") {
            configs = true;
        }
        i += 1;
    }
    proof {
        assert(texts(names@).take(names@.len() as int) =~= texts(names@));
    }
    ImportResult {
        success: errors.len() == 0,
        profiles_imported: profiles,
        instances_imported: instances,
        configs_imported: configs,
        errors,
    }
}

/// The name of an entry of an archive: `file` under the directory `dir`.
pub fn entry_name(dir: &str, file: &str) -> (r: String)
    ensures
        r@ == dir@ + "/"@ + file@,
{
    crate::text::concat3(dir, "/", file)
}

/// What writing all settings to the archive at `file_path` did.
pub fn export_result(file_path: String, profiles_count: usize, instances_count: usize) -> (r:
    ExportResult)
    ensures
        r.success,
        opt_text(r.file_path) == Some(file_path@),
        r.profiles_count == profiles_count,
        r.instances_count == instances_count,
        r.error is None,
{
    ExportResult {
        success: true,
        file_path: Some(file_path),
        profiles_count,
        instances_count,
        error: None,
    }
}

/// What removing all settings did.
pub fn reset_result(profiles_deleted: usize, instances_deleted: usize) -> (r: ResetResult)
    ensures
        r.success,
        r.profiles_deleted == profiles_deleted,
        r.instances_deleted == instances_deleted,
        r.configs_reset,
        r.error is None,
{
    ResetResult {
        success: true,
        profiles_deleted,
        instances_deleted,
        configs_reset: true,
        error: None,
    }
}

} // verus!
