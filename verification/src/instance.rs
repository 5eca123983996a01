//! Instance records and the results that probing them gives.

use vstd::prelude::*;
use crate::bindings::new_uuid;
use crate::number::{decimal, push_decimal};
use crate::registry::{
    find_by_id, has_id, index_by_id, lemma_index_by_id, remove_by_id, without_id, Identified,
};
use crate::text::{append_str, concat2, concat3, to_chars, to_string};

verus! {

/// The view of an optional string.
pub open spec fn opt_text(o: Option<String>) -> Option<Seq<char>> {
    match o {
        Some(s) => Some(s@),
        None => None,
    }
}

/// The views of a vector of strings.
pub open spec fn texts(v: Seq<String>) -> Seq<Seq<char>> {
    v.map_values(|s: String| s@)
}

/// The role that an instance plays.
#[derive(Debug, Clone, Copy, PartialEq, Eq, Structural)]
pub enum AemInstanceType {
    Author,
    Publish,
    Dispatcher,
}

/// What is known of an instance's life cycle.
#[derive(Debug, Clone, Copy, PartialEq, Eq, Structural)]
pub enum AemInstanceStatus {
    Running,
    Stopped,
    Starting,
    Stopping,
    Error,
    Unknown,
    /// The port is held by a process that is not the application.
    PortConflict,
}

/// The status that a record has before anything was probed.
pub fn default_status() -> (r: AemInstanceStatus)
    ensures
        r == AemInstanceStatus::Stopped,
{
    AemInstanceStatus::Stopped
}

/// A configured instance.
#[derive(Debug, Clone)]
pub struct AemInstance {
    pub id: String,
    pub name: String,
    pub instance_type: AemInstanceType,
    pub host: String,
    pub port: u16,
    pub path: String,
    pub java_opts: Option<String>,
    pub run_modes: Vec<String>,
    pub status: AemInstanceStatus,
    pub profile_id: Option<String>,
    pub created_at: String,
    pub updated_at: String,
}

/// The mathematical content of an `AemInstance`.
pub struct AemInstanceView {
    pub id: Seq<char>,
    pub name: Seq<char>,
    pub instance_type: AemInstanceType,
    pub host: Seq<char>,
    pub port: u16,
    pub path: Seq<char>,
    pub java_opts: Option<Seq<char>>,
    pub run_modes: Seq<Seq<char>>,
    pub status: AemInstanceStatus,
    pub profile_id: Option<Seq<char>>,
    pub created_at: Seq<char>,
    pub updated_at: Seq<char>,
}

impl View for AemInstance {
    type V = AemInstanceView;

    open spec fn view(&self) -> AemInstanceView {
        AemInstanceView {
            id: self.id@,
            name: self.name@,
            instance_type: self.instance_type,
            host: self.host@,
            port: self.port,
            path: self.path@,
            java_opts: opt_text(self.java_opts),
            run_modes: texts(self.run_modes@),
            status: self.status,
            profile_id: opt_text(self.profile_id),
            created_at: self.created_at@,
            updated_at: self.updated_at@,
        }
    }
}

/// Counts of the application's bundles by state.
#[derive(Debug, Clone, Copy, PartialEq, Eq, Structural)]
pub struct BundleStatus {
    pub total: u32,
    pub active: u32,
    pub resolved: u32,
    pub installed: u32,
}

impl BundleStatus {
    /// The counted states are disjoint parts of the whole.
    pub open spec fn well_formed(&self) -> bool {
        self.active + self.resolved + self.installed <= self.total
    }
}

/// Heap use of the application, in bytes.
#[derive(Debug, Clone, Copy, PartialEq, Eq, Structural)]
pub struct MemoryStatus {
    pub heap_used: u64,
    pub heap_max: u64,
}

/// Product and run-time versions that the application reports.
#[derive(Debug, Clone)]
pub struct AemVersionInfo {
    pub product_name: String,
    pub product_version: String,
    pub oak_version: Option<String>,
    pub java_version: Option<String>,
}

/// The mathematical content of an `AemVersionInfo`.
pub struct AemVersionInfoView {
    pub product_name: Seq<char>,
    pub product_version: Seq<char>,
    pub oak_version: Option<Seq<char>>,
    pub java_version: Option<Seq<char>>,
}

impl View for AemVersionInfo {
    type V = AemVersionInfoView;

    open spec fn view(&self) -> AemVersionInfoView {
        AemVersionInfoView {
            product_name: self.product_name@,
            product_version: self.product_version@,
            oak_version: opt_text(self.oak_version),
            java_version: opt_text(self.java_version),
        }
    }
}

/// The result of one detection of an instance's status.
#[derive(Debug, Clone)]
pub struct InstanceStatusResult {
    pub instance_id: String,
    pub status: AemInstanceStatus,
    /// When the detection ended, as an RFC 3339 time.
    pub checked_at: String,
    /// How long the detection took, in milliseconds.
    pub duration_ms: u64,
    /// The process that listens on the port, where one was found.
    pub process_id: Option<u32>,
    pub process_name: Option<String>,
    /// A diagnostic message, where there is one.
    pub error: Option<String>,
}

/// The mathematical content of an `InstanceStatusResult`.
pub struct InstanceStatusResultView {
    pub instance_id: Seq<char>,
    pub status: AemInstanceStatus,
    pub checked_at: Seq<char>,
    pub duration_ms: u64,
    pub process_id: Option<u32>,
    pub process_name: Option<Seq<char>>,
    pub error: Option<Seq<char>>,
}

impl View for InstanceStatusResult {
    type V = InstanceStatusResultView;

    open spec fn view(&self) -> InstanceStatusResultView {
        InstanceStatusResultView {
            instance_id: self.instance_id@,
            status: self.status,
            checked_at: self.checked_at@,
            duration_ms: self.duration_ms,
            process_id: self.process_id,
            process_name: opt_text(self.process_name),
            error: opt_text(self.error),
        }
    }
}

impl InstanceStatusResultView {
    /// A result names a process by both its id and its name or by neither,
    /// and a conflict names the process that holds the port.
    pub open spec fn well_formed(self) -> bool {
        &&& self.process_id is Some <==> self.process_name is Some
        &&& self.status == AemInstanceStatus::PortConflict ==> self.process_id is Some
            && self.error is Some
    }
}

/// The result of one health check of an instance.
#[derive(Debug, Clone)]
pub struct HealthCheckResult {
    pub instance_id: String,
    pub timestamp: String,
    pub status: AemInstanceStatus,
    pub response_time: Option<u64>,
    pub bundle_status: Option<BundleStatus>,
    pub memory_status: Option<MemoryStatus>,
    pub aem_version: Option<String>,
    pub oak_version: Option<String>,
}

/// The mathematical content of a `HealthCheckResult`.
pub struct HealthCheckResultView {
    pub instance_id: Seq<char>,
    pub timestamp: Seq<char>,
    pub status: AemInstanceStatus,
    pub response_time: Option<u64>,
    pub bundle_status: Option<BundleStatus>,
    pub memory_status: Option<MemoryStatus>,
    pub aem_version: Option<Seq<char>>,
    pub oak_version: Option<Seq<char>>,
}

impl View for HealthCheckResult {
    type V = HealthCheckResultView;

    open spec fn view(&self) -> HealthCheckResultView {
        HealthCheckResultView {
            instance_id: self.instance_id@,
            timestamp: self.timestamp@,
            status: self.status,
            response_time: self.response_time,
            bundle_status: self.bundle_status,
            memory_status: self.memory_status,
            aem_version: opt_text(self.aem_version),
            oak_version: opt_text(self.oak_version),
        }
    }
}


/// A copy of an optional string.
pub fn copy_opt(o: &Option<String>) -> (r: Option<String>)
    ensures
        opt_text(r) == opt_text(*o),
{
    match o {
        Some(s) => Some(s.clone()),
        None => None,
    }
}

/// A copy of a vector of strings.
pub fn copy_texts(v: &Vec<String>) -> (r: Vec<String>)
    ensures
        texts(r@) == texts(v@),
{
    let mut r: Vec<String> = Vec::new();
    let mut i: usize = 0;
    while i < v.len()
        invariant
            i <= v.len(),
            r@.len() == i,
            texts(r@) == texts(v@).take(i as int),
        decreases v.len() - i,
    {
        let ghost before = r@;
        let item = v[i].clone();
        assert(item@ == v@[i as int]@);
        r.push(item);
        proof {
            assert(r@ == before.push(item));
            assert(texts(r@).len() == i + 1);
            assert(texts(v@).len() == v@.len());
            assert forall|j: int| 0 <= j < i + 1 implies texts(r@)[j] == texts(v@).take(i + 1)[j] by {
                if j < i {
                    assert(texts(before)[j] == texts(v@).take(i as int)[j]);
                }
            }
            assert(texts(r@) =~= texts(v@).take(i + 1));
        }
        i += 1;
    }
    proof {
        assert(texts(v@).take(v@.len() as int) =~= texts(v@));
    }
    r
}

impl Identified for AemInstance {
    open spec fn ident(&self) -> Seq<char> {
        self.id@
    }

    fn id_text(&self) -> (r: &str) {
        self.id.as_str()
    }
}

impl AemInstance {
    /// A copy of the record.
    pub fn duplicate(&self) -> (r: AemInstance)
        ensures
            r@ == self@,
    {
        AemInstance {
            id: self.id.clone(),
            name: self.name.clone(),
            instance_type: self.instance_type,
            host: self.host.clone(),
            port: self.port,
            path: self.path.clone(),
            java_opts: copy_opt(&self.java_opts),
            run_modes: copy_texts(&self.run_modes),
            status: self.status,
            profile_id: copy_opt(&self.profile_id),
            created_at: self.created_at.clone(),
            updated_at: self.updated_at.clone(),
        }
    }
}

/// The views of the records.
pub open spec fn instance_views(items: Seq<AemInstance>) -> Seq<AemInstanceView> {
    items.map_values(|i: AemInstance| i@)
}

/// The message that no instance has the identifier `id`.
pub open spec fn not_found_message(id: Seq<char>) -> Seq<char> {
    "Instance "@ + id + " not found"@
}

/// The index of the instance `id`, or the message that there is none.
pub fn find_instance(instances: &Vec<AemInstance>, id: &str) -> (r: Result<usize, String>)
    ensures
        match r {
            Ok(i) => i < instances@.len() && index_by_id(instances@, id@, 0) == i
                && instances@[i as int].id@ == id@,
            Err(message) => !has_id(instances@, id@) && message@ == not_found_message(id@),
        },
{
    match find_by_id(instances, id) {
        Some(i) => Ok(i),
        None => Err(concat3("Instance ", id, " not found")),
    }
}

/// The instance `id`, where there is one.
pub fn get_instance(instances: &Vec<AemInstance>, id: &str) -> (r: Option<AemInstance>)
    ensures
        match r {
            Some(found) => index_by_id(instances@, id@, 0) < instances@.len() && found@
                == instances@[index_by_id(instances@, id@, 0)]@,
            None => !has_id(instances@, id@),
        },
{
    match find_by_id(instances, id) {
        Some(i) => Some(instances[i].duplicate()),
        None => None,
    }
}

/// The record that is added for `instance`: it takes `fresh_id` where it has
/// no identifier, and its status is unknown.
pub open spec fn added(instance: AemInstanceView, fresh_id: Seq<char>) -> AemInstanceView {
    AemInstanceView {
        id: if instance.id.len() == 0 {
            fresh_id
        } else {
            instance.id
        },
        status: AemInstanceStatus::Unknown,
        ..instance
    }
}

/// Adds `instance` to the records, with the identifier `fresh_id` where it
/// has none. Fails, and changes nothing, where a record has its identifier
/// already.
pub fn add_instance_with_id(
    instances: &mut Vec<AemInstance>,
    instance: AemInstance,
    fresh_id: String,
) -> (r: Result<AemInstance, String>)
    ensures
        match r {
            Ok(record) => !has_id(old(instances)@, added(instance@, fresh_id@).id) && record@
                == added(instance@, fresh_id@) && instance_views(final(instances)@)
                == instance_views(old(instances)@).push(record@),
            Err(message) => has_id(old(instances)@, added(instance@, fresh_id@).id) && message@
                == "Instance with ID "@ + added(instance@, fresh_id@).id + " already exists"@
                && final(instances)@ == old(instances)@,
        },
{
    let mut record = instance;
    if record.id.as_str().is_empty() {
        record.id = fresh_id;
    }
    if find_by_id(instances, record.id.as_str()).is_some() {
        return Err(concat3("Instance with ID ", record.id.as_str(), " already exists"));
    }
    record.status = AemInstanceStatus::Unknown;
    let copy = record.duplicate();
    instances.push(record);
    proof {
        assert(instance_views(instances@) =~= instance_views(old(instances)@).push(copy@));
    }
    Ok(copy)
}

/// Adds `instance` to the records, with a fresh random identifier where it
/// has none. Fails, and changes nothing, where a record has its identifier
/// already.
pub fn add_instance(instances: &mut Vec<AemInstance>, instance: AemInstance) -> (r: Result<
    AemInstance,
    String,
>)
    ensures
        match r {
            Ok(record) => record@.status == AemInstanceStatus::Unknown && (instance@.id.len() > 0
                ==> record@ == added(instance@, instance@.id)) && instance_views(final(instances)@)
                == instance_views(old(instances)@).push(record@) && !has_id(
                old(instances)@,
                record@.id,
            ),
            Err(message) => final(instances)@ == old(instances)@,
        },
        instance@.id.len() > 0 ==> (r is Err <==> has_id(old(instances)@, instance@.id)),
        instance@.id.len() > 0 && r is Err ==> r->Err_0@ == "Instance with ID "@ + instance@.id
            + " already exists"@,
{
    add_instance_with_id(instances, instance, new_uuid())
}

/// Puts `instance` in the place of the record `id`, under that identifier.
/// Fails, and changes nothing, where there is no such record.
pub fn update_instance(instances: &mut Vec<AemInstance>, id: &str, instance: AemInstance) -> (r:
    Result<AemInstance, String>)
    ensures
        match r {
            Ok(record) => has_id(old(instances)@, id@) && record@ == (AemInstanceView {
                id: id@,
                ..instance@
            }) && instance_views(final(instances)@) == instance_views(old(instances)@).update(
                index_by_id(old(instances)@, id@, 0),
                record@,
            ),
            Err(message) => !has_id(old(instances)@, id@) && message@ == not_found_message(id@)
                && final(instances)@ == old(instances)@,
        },
{
    let index = match find_instance(instances, id) {
        Ok(index) => index,
        Err(message) => {
            return Err(message);
        },
    };
    let mut record = instance;
    record.id = id.to_owned();
    let copy = record.duplicate();
    instances[index] = record;
    proof {
        lemma_index_by_id(old(instances)@, id@, 0);
        assert(instance_views(instances@) =~= instance_views(old(instances)@).update(
            index as int,
            copy@,
        ));
    }
    Ok(copy)
}

/// Removes the record `id`. Fails, and changes nothing, where there is no
/// such record.
pub fn delete_instance(instances: &mut Vec<AemInstance>, id: &str) -> (r: Result<bool, String>)
    ensures
        match r {
            Ok(done) => done && has_id(old(instances)@, id@) && final(instances)@ == without_id(
                old(instances)@,
                id@,
            ),
            Err(message) => !has_id(old(instances)@, id@) && message@ == not_found_message(id@)
                && final(instances)@ == old(instances)@,
        },
{
    if find_by_id(instances, id).is_none() {
        return Err(concat3("Instance ", id, " not found"));
    }
    remove_by_id(instances, id);
    Ok(true)
}

/// Records the status of the instance `id`, and when it was found where
/// `updated_at` says so. Fails, and changes nothing, where there is no such
/// record.
pub fn set_instance_status(
    instances: &mut Vec<AemInstance>,
    id: &str,
    status: AemInstanceStatus,
    updated_at: Option<String>,
) -> (r: Result<(), String>)
    ensures
        match r {
            Ok(_) => has_id(old(instances)@, id@) && instance_views(final(instances)@)
                == instance_views(old(instances)@).update(
                index_by_id(old(instances)@, id@, 0),
                AemInstanceView {
                    status,
                    updated_at: match updated_at {
                        Some(at) => at@,
                        None => old(instances)@[index_by_id(old(instances)@, id@, 0)].updated_at@,
                    },
                    ..old(instances)@[index_by_id(old(instances)@, id@, 0)]@
                },
            ),
            Err(message) => !has_id(old(instances)@, id@) && message@ == not_found_message(id@)
                && final(instances)@ == old(instances)@,
        },
{
    let index = match find_instance(instances, id) {
        Ok(index) => index,
        Err(message) => {
            return Err(message);
        },
    };
    let mut record = instances[index].duplicate();
    record.status = status;
    match updated_at {
        Some(at) => {
            record.updated_at = at;
        },
        None => {},
    }
    let ghost put = record@;
    instances[index] = record;
    proof {
        lemma_index_by_id(old(instances)@, id@, 0);
        assert(instance_views(instances@) =~= instance_views(old(instances)@).update(
            index as int,
            put,
        ));
    }
    Ok(())
}

/// The address `http://host:port` of the instance.
pub open spec fn instance_base_url(instance: AemInstanceView) -> Seq<char> {
    "http://"@ + instance.host + ":"@ + decimal(instance.port as nat)
}

/// The address of the instance.
pub fn base_url(instance: &AemInstance) -> (r: String)
    ensures
        r@ == instance_base_url(instance@),
{
    let mut out = to_chars("http://");
    append_str(&mut out, instance.host.as_str());
    append_str(&mut out, ":");
    push_decimal(&mut out, instance.port as u64);
    to_string(&out)
}

/// The address to open in the browser: the instance's, followed by `path`
/// where one is given.
pub fn browser_url(instance: &AemInstance, path: &Option<String>) -> (r: String)
    ensures
        r@ == instance_base_url(instance@) + (match path {
            Some(p) => p@,
            None => Seq::<char>::empty(),
        }),
{
    let base = base_url(instance);
    match path {
        Some(p) => concat2(base.as_str(), p.as_str()),
        None => {
            proof {
                assert(base@ + Seq::<char>::empty() =~= base@);
            }
            base
        },
    }
}

/// The names of the instance's well-known pages and their paths.
pub open spec fn page_paths() -> Seq<(Seq<char>, Seq<char>)> {
    seq![
        ("home"@, "/aem/start.html"@),
        ("crxde"@, "/crx/de/index.jsp"@),
        ("package_manager"@, "/crx/packmgr/index.jsp"@),
        ("console"@, "/system/console"@),
        ("sites"@, "/sites.html/content"@),
        ("assets"@, "/assets.html/content/dam"@),
        ("users"@, "/security/users.html"@),
        ("workflow"@, "/libs/cq/workflow/admin/console/content/instances.html"@),
    ]
}

/// Adds the page `name` at `path` of the instance at `base`.
fn push_page(pages: &mut Vec<(String, String)>, base: &str, name: &str, path: &str)
    ensures
        final(pages)@.len() == old(pages)@.len() + 1,
        forall|i: int| 0 <= i < old(pages)@.len() ==> final(pages)@[i] == old(pages)@[i],
        final(pages)@[old(pages)@.len() as int].0@ == name@,
        final(pages)@[old(pages)@.len() as int].1@ == base@ + path@,
{
    pages.push((name.to_owned(), concat2(base, path)));
}

/// The addresses of the instance's well-known pages, each with its name.
pub fn get_instance_urls(instance: &AemInstance) -> (r: Vec<(String, String)>)
    ensures
        r@.len() == page_paths().len(),
        forall|i: int|
            0 <= i < r@.len() ==> (#[trigger] r@[i]).0@ == page_paths()[i].0 && r@[i].1@
                == instance_base_url(instance@) + page_paths()[i].1,
{
    let base = base_url(instance);
    let mut pages: Vec<(String, String)> = Vec::new();
    push_page(&mut pages, base.as_str(), "home", "/aem/start.html");
    push_page(&mut pages, base.as_str(), "crxde", "/crx/de/index.jsp");
    push_page(&mut pages, base.as_str(), "package_manager", "/crx/packmgr/index.jsp");
    push_page(&mut pages, base.as_str(), "console", "/system/console");
    push_page(&mut pages, base.as_str(), "sites", "/sites.html/content");
    push_page(&mut pages, base.as_str(), "assets", "/assets.html/content/dam");
    push_page(&mut pages, base.as_str(), "users", "/security/users.html");
    push_page(
        &mut pages,
        base.as_str(),
        "workflow",
        "/libs/cq/workflow/admin/console/content/instances.html",
    );
    pages
}

} // verus!
