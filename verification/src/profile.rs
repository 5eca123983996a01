//! Environment profiles and the application's settings.

use vstd::prelude::*;
use crate::bindings::{new_uuid, now_rfc3339};
use crate::instance::{opt_text, texts};
use crate::license::pair_texts;
use crate::text::{begins_with, concat2, concat3, same, strip_leading, to_chars, without_leading};
use crate::version::{JavaVersion, MavenConfig, NodeVersion};

verus! {

/// A set of versions and settings to switch to together.
#[derive(Debug, Clone)]
pub struct EnvironmentProfile {
    pub id: String,
    pub name: String,
    pub description: Option<String>,
    pub java_version: Option<String>,
    pub java_manager_id: Option<String>,
    /// The home directory of the Java installation.
    pub java_path: Option<String>,
    pub node_version: Option<String>,
    pub node_manager_id: Option<String>,
    /// The directory of the Node installation.
    pub node_path: Option<String>,
    pub maven_config_id: Option<String>,
    pub author_instance_id: Option<String>,
    pub publish_instance_id: Option<String>,
    /// Variables of the environment, each name once.
    pub env_vars: Option<Vec<(String, String)>>,
    pub created_at: String,
    pub updated_at: String,
    pub last_used_at: Option<String>,
    pub is_active: bool,
}

/// The mathematical content of an `EnvironmentProfile`.
pub struct EnvironmentProfileView {
    pub id: Seq<char>,
    pub name: Seq<char>,
    pub description: Option<Seq<char>>,
    pub java_version: Option<Seq<char>>,
    pub java_manager_id: Option<Seq<char>>,
    pub java_path: Option<Seq<char>>,
    pub node_version: Option<Seq<char>>,
    pub node_manager_id: Option<Seq<char>>,
    pub node_path: Option<Seq<char>>,
    pub maven_config_id: Option<Seq<char>>,
    pub author_instance_id: Option<Seq<char>>,
    pub publish_instance_id: Option<Seq<char>>,
    pub env_vars: Option<Seq<(Seq<char>, Seq<char>)>>,
    pub created_at: Seq<char>,
    pub updated_at: Seq<char>,
    pub last_used_at: Option<Seq<char>>,
    pub is_active: bool,
}

/// The view of optional variables.
pub open spec fn opt_vars(o: Option<Vec<(String, String)>>) -> Option<Seq<(Seq<char>, Seq<char>)>> {
    match o {
        Some(vars) => Some(pair_texts(vars@)),
        None => None,
    }
}

impl View for EnvironmentProfile {
    type V = EnvironmentProfileView;

    open spec fn view(&self) -> EnvironmentProfileView {
        EnvironmentProfileView {
            id: self.id@,
            name: self.name@,
            description: opt_text(self.description),
            java_version: opt_text(self.java_version),
            java_manager_id: opt_text(self.java_manager_id),
            java_path: opt_text(self.java_path),
            node_version: opt_text(self.node_version),
            node_manager_id: opt_text(self.node_manager_id),
            node_path: opt_text(self.node_path),
            maven_config_id: opt_text(self.maven_config_id),
            author_instance_id: opt_text(self.author_instance_id),
            publish_instance_id: opt_text(self.publish_instance_id),
            env_vars: opt_vars(self.env_vars),
            created_at: self.created_at@,
            updated_at: self.updated_at@,
            last_used_at: opt_text(self.last_used_at),
            is_active: self.is_active,
        }
    }
}

/// What a switch of profiles did.
#[derive(Debug, Clone)]
pub struct ProfileSwitchResult {
    pub success: bool,
    pub profile_id: String,
    pub message: Option<String>,
    pub error: Option<String>,
    pub java_switched: bool,
    pub node_switched: bool,
    pub maven_switched: bool,
    pub env_vars_set: bool,
}

/// What a validation of a profile found.
#[derive(Debug, Clone)]
pub struct ProfileValidationResult {
    pub is_valid: bool,
    pub java_available: bool,
    pub node_available: bool,
    pub maven_available: bool,
    pub aem_instance_exists: bool,
    pub missing_components: Vec<String>,
    pub warnings: Vec<String>,
}

/// The application's settings.
#[derive(Debug, Clone)]
pub struct AppConfig {
    pub active_profile_id: Option<String>,
    pub theme: String,
    pub auto_switch_profile: bool,
    /// The seconds between two health checks.
    pub health_check_interval: u32,
    pub start_minimized: bool,
    pub show_notifications: bool,
    pub log_level: String,
}

/// The mathematical content of an `AppConfig`.
pub struct AppConfigView {
    pub active_profile_id: Option<Seq<char>>,
    pub theme: Seq<char>,
    pub auto_switch_profile: bool,
    pub health_check_interval: u32,
    pub start_minimized: bool,
    pub show_notifications: bool,
    pub log_level: Seq<char>,
}

impl View for AppConfig {
    type V = AppConfigView;

    open spec fn view(&self) -> AppConfigView {
        AppConfigView {
            active_profile_id: opt_text(self.active_profile_id),
            theme: self.theme@,
            auto_switch_profile: self.auto_switch_profile,
            health_check_interval: self.health_check_interval,
            start_minimized: self.start_minimized,
            show_notifications: self.show_notifications,
            log_level: self.log_level@,
        }
    }
}

/// The settings of an application that has none stored.
pub open spec fn default_config() -> AppConfigView {
    AppConfigView {
        active_profile_id: None,
        theme: "system"@,
        auto_switch_profile: false,
        health_check_interval: 30,
        start_minimized: false,
        show_notifications: true,
        log_level: "info"@,
    }
}

impl Default for AppConfig {
    fn default() -> (r: AppConfig)
        ensures
            r@ == default_config(),
    {
        AppConfig {
            active_profile_id: None,
            theme: "system".to_owned(),
            auto_switch_profile: false,
            health_check_interval: 30,
            start_minimized: false,
            show_notifications: true,
            log_level: "info".to_owned(),
        }
    }
}

/// The settings to start with: what was loaded, or the defaults where
/// loading failed.
pub fn get_startup_config(loaded: Result<AppConfig, String>) -> (r: AppConfig)
    ensures
        r@ == (match loaded {
            Ok(config) => config@,
            Err(_) => default_config(),
        }),
{
    match loaded {
        Ok(config) => config,
        Err(_) => AppConfig::default(),
    }
}

/// The name of the file of the profile `id`.
pub fn get_profile_file(id: &str) -> (r: String)
    ensures
        r@ == id@ + ".json"@,
{
    concat2(id, ".json")
}

/// Whether the settings name `id` as the active profile.
pub fn is_active_profile(config: &AppConfig, id: &str) -> (r: bool)
    ensures
        r == (config@.active_profile_id == Some(id@)),
{
    match &config.active_profile_id {
        Some(active) => {
            let a = to_chars(active.as_str());
            let b = to_chars(id);
            same(&a, &b)
        },
        None => false,
    }
}

/// Marks `profile` as active where the settings name it so, and as not
/// active otherwise.
pub fn mark_active(profile: &mut EnvironmentProfile, config: &AppConfig)
    ensures
        final(profile)@ == (EnvironmentProfileView {
            is_active: config@.active_profile_id == Some(old(profile)@.id),
            ..old(profile)@
        }),
{
    let active = is_active_profile(config, profile.id.as_str());
    profile.is_active = active;
}

/// The settings after the profile `id` is deleted: it is no longer the
/// active one.
pub fn config_without_profile(config: AppConfig, id: &str) -> (r: AppConfig)
    ensures
        r@ == (AppConfigView {
            active_profile_id: if config@.active_profile_id == Some(id@) {
                None
            } else {
                config@.active_profile_id
            },
            ..config@
        }),
{
    if is_active_profile(&config, id) {
        let mut next = config;
        next.active_profile_id = None;
        next
    } else {
        config
    }
}

/// The profile that is stored for `profile` at the time `now`: it takes
/// `fresh_id` where it has no identifier, is stamped with the time, and is
/// not active.
pub open spec fn created(
    profile: EnvironmentProfileView,
    fresh_id: Seq<char>,
    now: Seq<char>,
) -> EnvironmentProfileView {
    EnvironmentProfileView {
        id: if profile.id.len() == 0 {
            fresh_id
        } else {
            profile.id
        },
        created_at: now,
        updated_at: now,
        is_active: false,
        ..profile
    }
}

/// The identifier under which `profile` is stored: its own, or `fresh_id`
/// where it has none.
pub fn profile_id_or(profile: &EnvironmentProfile, fresh_id: String) -> (r: String)
    ensures
        r@ == (if profile@.id.len() == 0 {
            fresh_id@
        } else {
            profile@.id
        }),
{
    if profile.id.as_str().is_empty() {
        fresh_id
    } else {
        profile.id.clone()
    }
}

/// The profile to store for `profile` under the identifier `id` at the time
/// `now`. Fails where `exists` says that a profile is stored under the
/// identifier already.
pub fn create_profile_at(profile: EnvironmentProfile, id: String, exists: bool, now: String) -> (r:
    Result<EnvironmentProfile, String>)
    ensures
        match r {
            Ok(stored) => !exists && stored@ == (EnvironmentProfileView {
                id: id@,
                created_at: now@,
                updated_at: now@,
                is_active: false,
                ..profile@
            }),
            Err(message) => exists && message@ == "Profile with ID "@ + id@ + " already exists"@,
        },
{
    if exists {
        return Err(concat3("Profile with ID ", id.as_str(), " already exists"));
    }
    let mut stored = profile;
    stored.id = id;
    stored.created_at = now.clone();
    stored.updated_at = now;
    stored.is_active = false;
    Ok(stored)
}

/// The profile to store in the place of the one under `id`, which was
/// created at `created_at`, at the time `now`.
pub fn update_profile_at(
    profile: EnvironmentProfile,
    id: &str,
    created_at: String,
    now: String,
) -> (r: EnvironmentProfile)
    ensures
        r@ == (EnvironmentProfileView {
            id: id@,
            created_at: created_at@,
            updated_at: now@,
            ..profile@
        }),
{
    let mut stored = profile;
    stored.id = id.to_owned();
    stored.created_at = created_at;
    stored.updated_at = now;
    stored
}

/// The profile to store for one that was read from elsewhere, or copied
/// from another: under the fresh identifier `id`, with `suffix` after its
/// name, stamped with the time `now`, never used and not active.
pub fn renamed_copy_at(profile: EnvironmentProfile, id: String, suffix: &str, now: String) -> (r:
    EnvironmentProfile)
    ensures
        r@ == (EnvironmentProfileView {
            id: id@,
            name: profile@.name + suffix@,
            is_active: false,
            created_at: now@,
            updated_at: now@,
            last_used_at: None,
            ..profile@
        }),
{
    let mut stored = profile;
    stored.name = concat2(stored.name.as_str(), suffix);
    stored.id = id;
    stored.is_active = false;
    stored.created_at = now.clone();
    stored.updated_at = now;
    stored.last_used_at = None;
    stored
}

/// The profile to store for one that was read from elsewhere: under a fresh
/// random identifier, with ` (imported)` after its name, stamped with the
/// current time, never used and not active.
pub fn import_profile(profile: EnvironmentProfile) -> (r: EnvironmentProfile)
    ensures
        r@ == (EnvironmentProfileView {
            id: r@.id,
            name: profile@.name + " (imported)"@,
            is_active: false,
            created_at: r@.created_at,
            updated_at: r@.created_at,
            last_used_at: None,
            ..profile@
        }),
{
    renamed_copy_at(profile, new_uuid(), " (imported)", now_rfc3339())
}

/// The profile to store for a copy of `source`: under a fresh random
/// identifier, with ` (copy)` after its name, stamped with the current time,
/// never used and not active.
pub fn duplicate_profile(source: EnvironmentProfile) -> (r: EnvironmentProfile)
    ensures
        r@ == (EnvironmentProfileView {
            id: r@.id,
            name: source@.name + " (copy)"@,
            is_active: false,
            created_at: r@.created_at,
            updated_at: r@.created_at,
            last_used_at: None,
            ..source@
        }),
{
    renamed_copy_at(source, new_uuid(), " (copy)", now_rfc3339())
}

/// The profile as it is stored after a switch to it at the time `now`.
pub fn used_at(profile: EnvironmentProfile, now: String) -> (r: EnvironmentProfile)
    ensures
        r@ == (EnvironmentProfileView { last_used_at: Some(now@), is_active: true, ..profile@ }),
{
    let mut stored = profile;
    stored.last_used_at = Some(now);
    stored.is_active = true;
    stored
}

/// The settings after a switch to the profile `id`.
pub fn config_with_profile(config: AppConfig, id: String) -> (r: AppConfig)
    ensures
        r@ == (AppConfigView { active_profile_id: Some(id@), ..config@ }),
{
    let mut next = config;
    next.active_profile_id = Some(id);
    next
}

/// How a tool is switched for a profile.
#[derive(Debug, Clone)]
pub enum ToolSwitch {
    /// The profile says nothing of the tool.
    Nothing,
    /// The link is to point to this installation.
    ToPath(String),
    /// The link is to point to the installation of this version, if one is
    /// found.
    ToVersion(String),
}

/// How a tool is switched, given the path and the version that a profile
/// names for it: by the path where one is named, and then only where it is
/// not empty; or else by the version, where one is named that is not empty.
pub open spec fn tool_switch_of(path: Option<Seq<char>>, version: Option<Seq<char>>) -> Option<
    (bool, Seq<char>),
> {
    match path {
        Some(p) => if p.len() > 0 {
            Some((true, p))
        } else {
            None
        },
        None => match version {
            Some(v) => if v.len() > 0 {
                Some((false, v))
            } else {
                None
            },
            None => None,
        },
    }
}

/// The view of a way to switch a tool.
pub open spec fn switch_view(s: ToolSwitch) -> Option<(bool, Seq<char>)> {
    match s {
        ToolSwitch::Nothing => None,
        ToolSwitch::ToPath(p) => Some((true, p@)),
        ToolSwitch::ToVersion(v) => Some((false, v@)),
    }
}

/// How a tool is switched, given the path and the version that a profile
/// names for it.
pub fn tool_switch(path: &Option<String>, version: &Option<String>) -> (r: ToolSwitch)
    ensures
        switch_view(r) == tool_switch_of(opt_text(*path), opt_text(*version)),
{
    match path {
        Some(p) => {
            if p.as_str().is_empty() {
                ToolSwitch::Nothing
            } else {
                ToolSwitch::ToPath(p.clone())
            }
        },
        None => match version {
            Some(v) => {
                if v.as_str().is_empty() {
                    ToolSwitch::Nothing
                } else {
                    ToolSwitch::ToVersion(v.clone())
                }
            },
            None => ToolSwitch::Nothing,
        },
    }
}

/// How the link of a tool was set: done, refused with a message, or failed.
#[derive(Debug, Clone)]
pub enum LinkOutcome {
    Done,
    Refused(Option<String>),
    Failed(String),
}

/// The error that a switch by path leaves for `tool`, which is `Java` or
/// `Node`; none where the link was set.
pub fn path_switch_error(tool: &str, outcome: &LinkOutcome) -> (r: Option<String>)
    ensures
        opt_text(r) == (match *outcome {
            LinkOutcome::Done => None,
            LinkOutcome::Refused(message) => Some(
                tool@ + " symlink failed: "@ + (match message {
                    Some(m) => m@,
                    None => Seq::empty(),
                }),
            ),
            LinkOutcome::Failed(e) => Some(tool@ + " symlink error: "@ + e@),
        }),
{
    match outcome {
        LinkOutcome::Done => None,
        LinkOutcome::Refused(message) => {
            let text = match message {
                Some(m) => m.clone(),
                None => String::new(),
            };
            Some(concat3(tool, " symlink failed: ", text.as_str()))
        },
        LinkOutcome::Failed(e) => Some(concat3(tool, " symlink error: ", e.as_str())),
    }
}

/// The error that a switch by version leaves for `tool`; none where the
/// link was set.
pub fn version_switch_error(tool: &str, version: &str, outcome: &LinkOutcome) -> (r: Option<String>)
    ensures
        opt_text(r) == (if *outcome is Done {
            None
        } else {
            Some("Failed to set "@ + tool@ + " symlink for version "@ + version@)
        }),
{
    match outcome {
        LinkOutcome::Done => None,
        _ => Some(crate::text::concat4("Failed to set ", tool, " symlink for version ", version)),
    }
}

/// Whether the variables count as set: no error says that one failed to be
/// set.
pub open spec fn vars_set(errors: Seq<Seq<char>>) -> bool {
    forall|i: int| 0 <= i < errors.len() ==> !"Failed to set"@.is_prefix_of(#[trigger] errors[i])
}

/// The errors joined by `; `.
pub open spec fn joined_errors(errors: Seq<Seq<char>>) -> Seq<char>
    decreases errors.len(),
{
    if errors.len() == 0 {
        Seq::empty()
    } else if errors.len() == 1 {
        errors[0]
    } else {
        joined_errors(errors.drop_last()) + "; "@ + errors.last()
    }
}

/// What a switch to the profile `profile_id` did, given what was switched
/// and the errors that were met: it succeeded where there were none.
pub fn switch_result(
    profile_id: String,
    java_switched: bool,
    node_switched: bool,
    maven_switched: bool,
    has_env_vars: bool,
    errors: &Vec<String>,
) -> (r: ProfileSwitchResult)
    ensures
        r.success == (errors@.len() == 0),
        r.profile_id@ == profile_id@,
        r.java_switched == java_switched,
        r.node_switched == node_switched,
        r.maven_switched == maven_switched,
        r.env_vars_set == (has_env_vars && vars_set(texts(errors@))),
        opt_text(r.message) == Some(
            if errors@.len() == 0 {
                "Profile switched successfully"@
            } else {
                "Profile switch completed with errors"@
            },
        ),
        opt_text(r.error) == (if errors@.len() == 0 {
            None
        } else {
            Some(joined_errors(texts(errors@)))
        }),
{
    let mut all_set = true;
    let mut joined: Vec<char> = Vec::new();
    let mut i: usize = 0;
    proof {
        assert(texts(errors@).take(0) =~= Seq::<Seq<char>>::empty());
    }
    while i < errors.len()
        invariant
            i <= errors.len(),
            texts(errors@).len() == errors@.len(),
            all_set == vars_set(texts(errors@).take(i as int)),
            joined@ == joined_errors(texts(errors@).take(i as int)),
        decreases errors.len() - i,
    {
        let e = to_chars(errors[i].as_str());
        proof {
            let next = texts(errors@).take(i + 1);
            let done = texts(errors@).take(i as int);
            assert(next.drop_last() =~= done);
            assert(next.last() == errors@[i as int]@);
            assert(texts(errors@)[i as int] == errors@[i as int]@);
            if vars_set(next) {
                assert forall|j: int| 0 <= j < done.len() implies !"Failed to set"@.is_prefix_of(
                    #[trigger] done[j],
                ) by {
                    assert(done[j] == next[j]);
                }
            }
            if vars_set(done) && !"Failed to set"@.is_prefix_of(e@) {
                assert forall|j: int| 0 <= j < next.len() implies !"Failed to set"@.is_prefix_of(
                    #[trigger] next[j],
                ) by {
                    if j < i {
                        assert(done[j] == next[j]);
                    }
                }
            }
            if "Failed to set"@.is_prefix_of(e@) {
                assert(next[i as int] == e@);
            }
            if i == 0 {
                assert(next[0] == next.last());
                assert(joined@ + e@ =~= e@);
            }
        }
        if begins_with(&e, "Failed to set") {
            all_set = false;
        }
        if i > 0 {
            crate::text::append_str(&mut joined, "; ");
        }
        crate::text::append(&mut joined, &e);
        i += 1;
    }
    proof {
        assert(texts(errors@).take(errors@.len() as int) =~= texts(errors@));
    }
    let ok = errors.len() == 0;
    ProfileSwitchResult {
        success: ok,
        profile_id,
        message: Some(
            if ok {
                "Profile switched successfully".to_owned()
            } else {
                "Profile switch completed with errors".to_owned()
            },
        ),
        error: if ok {
            None
        } else {
            Some(crate::text::to_string(&joined))
        },
        java_switched,
        node_switched,
        maven_switched,
        env_vars_set: has_env_vars && all_set,
    }
}

/// The error that a variable that could not be set leaves.
pub fn env_var_error(name: &str, error: &str) -> (r: String)
    ensures
        r@ == "Failed to set "@ + name@ + ": "@ + error@,
{
    crate::text::concat4("Failed to set ", name, ": ", error)
}

/// The error that a Maven settings file that could not be switched leaves.
pub fn maven_switch_error(error: &str) -> (r: String)
    ensures
        r@ == "Maven switch error: "@ + error@,
{
    concat2("Maven switch error: ", error)
}

/// The message that no profile is stored under `id`.
pub fn profile_not_found(id: &str) -> (r: String)
    ensures
        r@ == "Profile "@ + id@ + " not found"@,
{
    concat3("Profile ", id, " not found")
}


/// The mathematical content of a `ProfileValidationResult`.
pub struct ProfileValidationView {
    pub is_valid: bool,
    pub java_available: bool,
    pub node_available: bool,
    pub maven_available: bool,
    pub aem_instance_exists: bool,
    pub missing_components: Seq<Seq<char>>,
    pub warnings: Seq<Seq<char>>,
}

impl View for ProfileValidationResult {
    type V = ProfileValidationView;

    open spec fn view(&self) -> ProfileValidationView {
        ProfileValidationView {
            is_valid: self.is_valid,
            java_available: self.java_available,
            node_available: self.node_available,
            maven_available: self.maven_available,
            aem_instance_exists: self.aem_instance_exists,
            missing_components: texts(self.missing_components@),
            warnings: texts(self.warnings@),
        }
    }
}

/// What is there of what a profile needs.
pub struct Available {
    /// Whether the Java version that the profile names is installed.
    pub java: bool,
    /// Whether the Node version that the profile names is installed.
    pub node: bool,
    /// Whether the Maven settings that the profile names are stored.
    pub maven: bool,
    /// Whether the author instance that the profile names is known.
    pub author: bool,
    /// Whether the publish instance that the profile names is known.
    pub publish: bool,
}

/// A version that is named and not empty.
pub open spec fn named(version: Option<Seq<char>>) -> bool {
    version is Some && version->0.len() > 0
}

/// What a validation of `profile` finds, given what is there of what it
/// needs. A Java or Node version or Maven settings that the profile names
/// and that are not there make it invalid; a version that it does not name
/// gives a warning; an instance that it names and that is not known is
/// missing and gives a warning, and the profile stays valid.
pub open spec fn validation_of(
    profile: EnvironmentProfileView,
    there: Available,
) -> ProfileValidationView {
    let java = named(profile.java_version);
    let node = named(profile.node_version);
    let maven = profile.maven_config_id is Some;
    let author_missing = profile.author_instance_id is Some && !there.author;
    let publish_missing = profile.publish_instance_id is Some && !there.publish;
    ProfileValidationView {
        is_valid: !(java && !there.java) && !(node && !there.node) && !(maven && !there.maven),
        java_available: java && there.java,
        node_available: node && there.node,
        maven_available: !maven || there.maven,
        aem_instance_exists: !author_missing && !publish_missing,
        missing_components: (if java && !there.java {
            seq!["Java "@ + profile.java_version->0]
        } else {
            Seq::empty()
        }) + (if node && !there.node {
            seq!["Node "@ + profile.node_version->0]
        } else {
            Seq::empty()
        }) + (if maven && !there.maven {
            seq!["Maven config '"@ + profile.maven_config_id->0 + "'"@]
        } else {
            Seq::empty()
        }) + (if author_missing {
            seq!["AEM Author instance '"@ + profile.author_instance_id->0 + "'"@]
        } else {
            Seq::empty()
        }) + (if publish_missing {
            seq!["AEM Publish instance '"@ + profile.publish_instance_id->0 + "'"@]
        } else {
            Seq::empty()
        }),
        warnings: (if java {
            Seq::empty()
        } else {
            seq!["No Java version specified"@]
        }) + (if node {
            Seq::empty()
        } else {
            seq!["No Node version specified"@]
        }) + (if author_missing {
            seq!["AEM Author instance not found, but profile can still be activated"@]
        } else {
            Seq::empty()
        }) + (if publish_missing {
            seq!["AEM Publish instance not found, but profile can still be activated"@]
        } else {
            Seq::empty()
        }),
    }
}

/// Whether a version is named and not empty.
pub fn is_named(version: &Option<String>) -> (r: bool)
    ensures
        r == named(opt_text(*version)),
{
    match version {
        Some(v) => !v.as_str().is_empty(),
        None => false,
    }
}

/// What a validation of `profile` finds, given whether the Java version,
/// the Node version, the Maven settings and the instances that it names are
/// there.
pub fn validate_profile(
    profile: &EnvironmentProfile,
    java_there: bool,
    node_there: bool,
    maven_there: bool,
    author_there: bool,
    publish_there: bool,
) -> (r: ProfileValidationResult)
    ensures
        r@ == validation_of(
            profile@,
            Available {
                java: java_there,
                node: node_there,
                maven: maven_there,
                author: author_there,
                publish: publish_there,
            },
        ),
{
    let mut missing: Vec<String> = Vec::new();
    let mut warnings: Vec<String> = Vec::new();
    proof {
        assert(texts(missing@) =~= Seq::<Seq<char>>::empty());
        assert(texts(warnings@) =~= Seq::<Seq<char>>::empty());
    }
    let mut is_valid = true;
    let java = is_named(&profile.java_version);
    if java {
        if !java_there {
            let version = profile.java_version.as_ref().unwrap();
            crate::platform::common::push_text(&mut missing, concat2("Java ", version.as_str()));
            is_valid = false;
        }
    } else {
        crate::platform::common::push_text(&mut warnings, "No Java version specified".to_owned());
    }
    let node = is_named(&profile.node_version);
    if node {
        if !node_there {
            let version = profile.node_version.as_ref().unwrap();
            crate::platform::common::push_text(&mut missing, concat2("Node ", version.as_str()));
            is_valid = false;
        }
    } else {
        crate::platform::common::push_text(&mut warnings, "No Node version specified".to_owned());
    }
    let maven = profile.maven_config_id.is_some();
    if maven && !maven_there {
        let id = profile.maven_config_id.as_ref().unwrap();
        crate::platform::common::push_text(&mut missing, concat3("Maven config '", id.as_str(), "'"));
        is_valid = false;
    }
    let author_missing = profile.author_instance_id.is_some() && !author_there;
    if author_missing {
        let id = profile.author_instance_id.as_ref().unwrap();
        crate::platform::common::push_text(
            &mut missing,
            concat3("AEM Author instance '", id.as_str(), "'"),
        );
        crate::platform::common::push_text(
            &mut warnings,
            "AEM Author instance not found, but profile can still be activated".to_owned(),
        );
    }
    let publish_missing = profile.publish_instance_id.is_some() && !publish_there;
    if publish_missing {
        let id = profile.publish_instance_id.as_ref().unwrap();
        crate::platform::common::push_text(
            &mut missing,
            concat3("AEM Publish instance '", id.as_str(), "'"),
        );
        crate::platform::common::push_text(
            &mut warnings,
            "AEM Publish instance not found, but profile can still be activated".to_owned(),
        );
    }
    let ghost expected = validation_of(
        profile@,
        Available {
            java: java_there,
            node: node_there,
            maven: maven_there,
            author: author_there,
            publish: publish_there,
        },
    );
    proof {
        assert(texts(missing@) =~= expected.missing_components);
        assert(texts(warnings@) =~= expected.warnings);
    }
    ProfileValidationResult {
        is_valid,
        java_available: java && java_there,
        node_available: node && node_there,
        maven_available: !maven || maven_there,
        aem_instance_exists: !author_missing && !publish_missing,
        missing_components: missing,
        warnings,
    }
}

/// Whether one of the installations has the version `version`.
pub fn java_installed(installed: &Vec<JavaVersion>, version: &str) -> (r: bool)
    ensures
        r == exists|i: int| 0 <= i < installed@.len() && (#[trigger] installed@[i]).version@ == version@,
{
    let wanted = to_chars(version);
    let mut i: usize = 0;
    while i < installed.len()
        invariant
            i <= installed.len(),
            wanted@ == version@,
            forall|j: int| 0 <= j < i ==> (#[trigger] installed@[j]).version@ != version@,
        decreases installed.len() - i,
    {
        let held = to_chars(installed[i].version.as_str());
        if same(&held, &wanted) {
            return true;
        }
        i += 1;
    }
    false
}

/// Whether an installed Node version is the version `version`: the two are
/// the same, with or without their leading `v`.
pub open spec fn is_node_version(installed: Seq<char>, version: Seq<char>) -> bool {
    installed == version || strip_leading(installed, "v"@) == strip_leading(version, "v"@)
}

/// Whether one of the installations has the version `version`.
pub fn node_installed(installed: &Vec<NodeVersion>, version: &str) -> (r: bool)
    ensures
        r == exists|i: int|
            0 <= i < installed@.len() && is_node_version(
                (#[trigger] installed@[i]).version@,
                version@,
            ),
{
    let wanted = to_chars(version);
    let bare = without_leading(&wanted, "v");
    let mut i: usize = 0;
    while i < installed.len()
        invariant
            i <= installed.len(),
            wanted@ == version@,
            bare@ == strip_leading(version@, "v"@),
            forall|j: int|
                0 <= j < i ==> !is_node_version((#[trigger] installed@[j]).version@, version@),
        decreases installed.len() - i,
    {
        let held = to_chars(installed[i].version.as_str());
        let held_bare = without_leading(&held, "v");
        if same(&held, &wanted) || same(&held_bare, &bare) {
            return true;
        }
        i += 1;
    }
    false
}

/// Whether one of the stored Maven settings has the identifier `id`.
pub fn maven_stored(stored: &Vec<MavenConfig>, id: &str) -> (r: bool)
    ensures
        r == exists|i: int| 0 <= i < stored@.len() && (#[trigger] stored@[i]).id@ == id@,
{
    let wanted = to_chars(id);
    let mut i: usize = 0;
    while i < stored.len()
        invariant
            i <= stored.len(),
            wanted@ == id@,
            forall|j: int| 0 <= j < i ==> (#[trigger] stored@[j]).id@ != id@,
        decreases stored.len() - i,
    {
        let held = to_chars(stored[i].id.as_str());
        if same(&held, &wanted) {
            return true;
        }
        i += 1;
    }
    false
}

/// How two profiles compare in the list of profiles: -1 where the first
/// goes first, 1 where the second does, 0 where either may. Of two profiles
/// that were used, the one used later goes first; a profile that was never
/// used goes before one that was; two that were never used go by their
/// names.
pub open spec fn profile_order_of(a: EnvironmentProfileView, b: EnvironmentProfileView) -> int {
    match (b.last_used_at, a.last_used_at) {
        (Some(b_time), Some(a_time)) => crate::text::text_order(b_time, a_time),
        (Some(_), None) => -1,
        (None, Some(_)) => 1,
        (None, None) => crate::text::text_order(a.name, b.name),
    }
}

/// How `a` and `b` compare in the list of profiles: -1, 0 or 1.
pub fn profile_order(a: &EnvironmentProfile, b: &EnvironmentProfile) -> (r: i8)
    ensures
        r == profile_order_of(a@, b@),
        r == -1 || r == 0 || r == 1,
{
    match (&b.last_used_at, &a.last_used_at) {
        (Some(b_time), Some(a_time)) => crate::text::compare_text(b_time.as_str(), a_time.as_str()),
        (Some(_), None) => -1,
        (None, Some(_)) => 1,
        (None, None) => crate::text::compare_text(a.name.as_str(), b.name.as_str()),
    }
}

} // verus!
