//! Health checks and stopping: which request to make next, and what the
//! answers mean. The caller makes the requests; this module decides.

use vstd::prelude::*;
use crate::credentials::Credentials;
use crate::detection::{
    continue_detection, pending, step, DetectionState, DetectionStateView, ProbeAction,
    ProbeActionView, ProbeEvent, ProbeEventView, Progress, ProgressView,
};
use crate::health::{
    bundle_status_of, memory_status_of, parse_bundle_response, parse_memory_status,
    parse_version_info, version_info_of,
};
use crate::bindings::now_rfc3339;
use crate::json::json_document;
use crate::instance::{
    opt_text, AemInstance, AemInstanceStatus, AemInstanceView, BundleStatus, HealthCheckResult,
    HealthCheckResultView, MemoryStatus,
};
use crate::number::{decimal, push_decimal};
use crate::text::{append_str, to_chars, to_string};

verus! {

/// How long an authenticated request may take, in milliseconds.
pub const CONSOLE_TIMEOUT_MS: u64 = 10000;

/// The address `http://host:port`.
pub open spec fn base_url_of(host: Seq<char>, port: u16) -> Seq<char> {
    "http://"@ + host + ":"@ + decimal(port as nat)
}

/// The address of the instance's console page `path`.
pub fn console_url(host: &str, port: u16, path: &str) -> (r: String)
    ensures
        r@ == base_url_of(host@, port) + path@,
{
    let mut out = to_chars("http://");
    append_str(&mut out, host);
    append_str(&mut out, ":");
    push_decimal(&mut out, port as u64);
    append_str(&mut out, path);
    to_string(&out)
}

/// The page that lists the bundles as JSON.
pub const BUNDLES_PATH: &'static str = "/system/console/bundles.json";

/// The page that reports the memory in use.
pub const MEMORY_PATH: &'static str = "/system/console/memoryusage";

/// The page that reports the product's versions.
pub const PRODUCT_PATH: &'static str = "/system/console/status-productinfo.txt";

/// The page that takes the request to shut down.
pub const SHUTDOWN_PATH: &'static str = "/system/console/vmstat?shutdown_type=Stop";

/// An answer to an HTTP request.
#[derive(Debug, Clone)]
pub struct HttpReply {
    /// The status code.
    pub status: u16,
    /// The body as it came.
    pub body: Vec<u8>,
    /// The body read as text.
    pub text: String,
}

/// The mathematical content of an `HttpReply`.
pub struct HttpReplyView {
    pub status: u16,
    pub body: Seq<u8>,
    pub text: Seq<char>,
}

impl View for HttpReply {
    type V = HttpReplyView;

    open spec fn view(&self) -> HttpReplyView {
        HttpReplyView { status: self.status, body: self.body@, text: self.text@ }
    }
}

/// The view of an optional reply.
pub open spec fn opt_reply(o: Option<HttpReply>) -> Option<HttpReplyView> {
    match o {
        Some(reply) => Some(reply@),
        None => None,
    }
}

/// What a health check found, but for whose health it is and when.
#[derive(Debug, Clone)]
pub struct HealthReport {
    pub status: AemInstanceStatus,
    /// How long the bundles page took to answer, where it was asked.
    pub response_time: Option<u64>,
    pub bundle_status: Option<BundleStatus>,
    pub memory_status: Option<MemoryStatus>,
    pub aem_version: Option<String>,
    pub oak_version: Option<String>,
}

/// The mathematical content of a `HealthReport`.
pub struct HealthReportView {
    pub status: AemInstanceStatus,
    pub response_time: Option<u64>,
    pub bundle_status: Option<BundleStatus>,
    pub memory_status: Option<MemoryStatus>,
    pub aem_version: Option<Seq<char>>,
    pub oak_version: Option<Seq<char>>,
}

impl View for HealthReport {
    type V = HealthReportView;

    open spec fn view(&self) -> HealthReportView {
        HealthReportView {
            status: self.status,
            response_time: self.response_time,
            bundle_status: self.bundle_status,
            memory_status: self.memory_status,
            aem_version: opt_text(self.aem_version),
            oak_version: opt_text(self.oak_version),
        }
    }
}

/// A report that holds a status and nothing else.
pub open spec fn bare_report(
    status: AemInstanceStatus,
    response_time: Option<u64>,
) -> HealthReportView {
    HealthReportView {
        status,
        response_time,
        bundle_status: None,
        memory_status: None,
        aem_version: None,
        oak_version: None,
    }
}

/// Where a health check stands: the answer that is awaited.
#[derive(Debug, Clone)]
pub enum HealthState {
    /// The status is being detected.
    Detecting(DetectionState),
    /// The bundles page was asked for.
    Bundles,
    /// The memory page was asked for.
    Memory { response_time: u64, bundles: Option<BundleStatus> },
    /// The product page was asked for.
    Product { response_time: u64, bundles: Option<BundleStatus>, memory: Option<MemoryStatus> },
}

/// The mathematical content of a `HealthState`.
pub enum HealthStateView {
    Detecting(DetectionStateView),
    Bundles,
    Memory { response_time: u64, bundles: Option<BundleStatus> },
    Product { response_time: u64, bundles: Option<BundleStatus>, memory: Option<MemoryStatus> },
}

impl View for HealthState {
    type V = HealthStateView;

    open spec fn view(&self) -> HealthStateView {
        match *self {
            HealthState::Detecting(state) => HealthStateView::Detecting(state@),
            HealthState::Bundles => HealthStateView::Bundles,
            HealthState::Memory { response_time, bundles } => HealthStateView::Memory {
                response_time,
                bundles,
            },
            HealthState::Product { response_time, bundles, memory } => HealthStateView::Product {
                response_time,
                bundles,
                memory,
            },
        }
    }
}

/// A request for the caller to make.
#[derive(Debug, Clone)]
pub enum HealthAction {
    /// A probe of the status detection.
    Probe(ProbeAction),
    /// A GET of `url` with the given credentials, within `timeout_ms`.
    Fetch { url: String, username: String, password: String, timeout_ms: u64 },
}

/// The mathematical content of a `HealthAction`.
pub enum HealthActionView {
    Probe(ProbeActionView),
    Fetch { url: Seq<char>, username: Seq<char>, password: Seq<char>, timeout_ms: u64 },
}

impl View for HealthAction {
    type V = HealthActionView;

    open spec fn view(&self) -> HealthActionView {
        match *self {
            HealthAction::Probe(action) => HealthActionView::Probe(action@),
            HealthAction::Fetch { url, username, password, timeout_ms } => HealthActionView::Fetch {
                url: url@,
                username: username@,
                password: password@,
                timeout_ms,
            },
        }
    }
}

/// The answer to a request.
#[derive(Debug, Clone)]
pub enum HealthEvent {
    /// The answer to a probe of the status detection.
    Probed(ProbeEvent),
    /// The answer to a GET, or `None` where none came, and the time that it
    /// took in milliseconds.
    Fetched { reply: Option<HttpReply>, elapsed_ms: u64 },
}

/// The mathematical content of a `HealthEvent`.
pub enum HealthEventView {
    Probed(ProbeEventView),
    Fetched { reply: Option<HttpReplyView>, elapsed_ms: u64 },
}

impl View for HealthEvent {
    type V = HealthEventView;

    open spec fn view(&self) -> HealthEventView {
        match *self {
            HealthEvent::Probed(event) => HealthEventView::Probed(event@),
            HealthEvent::Fetched { reply, elapsed_ms } => HealthEventView::Fetched {
                reply: opt_reply(reply),
                elapsed_ms,
            },
        }
    }
}

/// How a health check goes on after an answer.
#[derive(Debug, Clone)]
pub enum HealthProgress {
    /// Make the request and come back with its answer.
    Continue(HealthState, HealthAction),
    /// The check has ended.
    Finished(HealthReport),
}

/// The mathematical content of a `HealthProgress`.
pub enum HealthProgressView {
    Continue(HealthStateView, HealthActionView),
    Finished(HealthReportView),
}

impl View for HealthProgress {
    type V = HealthProgressView;

    open spec fn view(&self) -> HealthProgressView {
        match *self {
            HealthProgress::Continue(state, action) => HealthProgressView::Continue(
                state@,
                action@,
            ),
            HealthProgress::Finished(report) => HealthProgressView::Finished(report@),
        }
    }
}

impl HealthStateView {
    /// The bundle counts that a state holds are well formed.
    pub open spec fn well_formed(self) -> bool {
        match self {
            HealthStateView::Memory { bundles, .. } => bundles matches Some(counts)
                ==> counts.well_formed(),
            HealthStateView::Product { bundles, .. } => bundles matches Some(counts)
                ==> counts.well_formed(),
            _ => true,
        }
    }
}

/// The GET of the console page `path`.
pub open spec fn fetch_of(
    instance: AemInstanceView,
    credentials: (Seq<char>, Seq<char>),
    path: Seq<char>,
) -> HealthActionView {
    HealthActionView::Fetch {
        url: base_url_of(instance.host, instance.port) + path,
        username: credentials.0,
        password: credentials.1,
        timeout_ms: CONSOLE_TIMEOUT_MS,
    }
}

/// The request that a state waits for.
pub open spec fn awaited(
    instance: AemInstanceView,
    credentials: (Seq<char>, Seq<char>),
    state: HealthStateView,
) -> HealthActionView {
    match state {
        HealthStateView::Detecting(detecting) => HealthActionView::Probe(
            pending(instance, detecting),
        ),
        HealthStateView::Bundles => fetch_of(instance, credentials, BUNDLES_PATH@),
        HealthStateView::Memory { .. } => fetch_of(instance, credentials, MEMORY_PATH@),
        HealthStateView::Product { .. } => fetch_of(instance, credentials, PRODUCT_PATH@),
    }
}

/// To go on in `state` with the request that it waits for.
pub open spec fn go_on(
    instance: AemInstanceView,
    credentials: (Seq<char>, Seq<char>),
    state: HealthStateView,
) -> HealthProgressView {
    HealthProgressView::Continue(state, awaited(instance, credentials, state))
}

/// The bundle counts in the body of an answer.
pub open spec fn bundles_in(body: Seq<u8>) -> Option<BundleStatus> {
    match json_document(body) {
        Some(listing) => bundle_status_of(listing),
        None => None,
    }
}

/// Whether a status code says that the request succeeded.
pub open spec fn is_success(status: u16) -> bool {
    200 <= status < 300
}

/// The report of a running instance of which everything was asked.
pub open spec fn full_report(
    response_time: u64,
    bundles: Option<BundleStatus>,
    memory: Option<MemoryStatus>,
    product: Option<HttpReplyView>,
) -> HealthReportView {
    let versions = match product {
        Some(reply) => version_info_of(reply.text),
        None => None,
    };
    HealthReportView {
        status: AemInstanceStatus::Running,
        response_time: Some(response_time),
        bundle_status: bundles,
        memory_status: memory,
        aem_version: match versions {
            Some(info) => Some(info.product_version),
            None => None,
        },
        oak_version: match versions {
            Some(info) => info.oak_version,
            None => None,
        },
    }
}

/// The step that a health check takes in `state` on `event`.
///
/// The status is detected first and stays what the detection found: the
/// console is asked only of a running instance, and no answer of the console
/// changes the status. The bundles page decides how the check goes on: an
/// answer that succeeds is read for the bundle counts, and the memory and
/// product pages are asked for in turn; any other outcome, an answer of 401
/// among them, ends the check with the instance running and nothing else
/// known. An answer that is missing or cannot be read leaves its part of the
/// report empty. An event that does not answer the request which the state
/// waits for changes nothing.
pub open spec fn health_step(
    instance: AemInstanceView,
    credentials: (Seq<char>, Seq<char>),
    state: HealthStateView,
    event: HealthEventView,
) -> HealthProgressView {
    match (state, event) {
        (HealthStateView::Detecting(detecting), HealthEventView::Probed(probed)) => match step(
            instance,
            detecting,
            probed,
        ) {
            ProgressView::Continue(next, _) => go_on(
                instance,
                credentials,
                HealthStateView::Detecting(next),
            ),
            ProgressView::Finished(found) => if found.status == AemInstanceStatus::Running {
                go_on(instance, credentials, HealthStateView::Bundles)
            } else {
                HealthProgressView::Finished(bare_report(found.status, None))
            },
        },
        (HealthStateView::Bundles, HealthEventView::Fetched { reply, elapsed_ms }) => if reply
            is Some && is_success(reply->0.status) {
            go_on(
                instance,
                credentials,
                HealthStateView::Memory {
                    response_time: elapsed_ms,
                    bundles: bundles_in(reply->0.body),
                },
            )
        } else {
            HealthProgressView::Finished(bare_report(AemInstanceStatus::Running, Some(elapsed_ms)))
        },
        (
            HealthStateView::Memory { response_time, bundles },
            HealthEventView::Fetched { reply, .. },
        ) => go_on(
            instance,
            credentials,
            HealthStateView::Product {
                response_time,
                bundles,
                memory: match reply {
                    Some(answer) => memory_status_of(answer.text),
                    None => None,
                },
            },
        ),
        (
            HealthStateView::Product { response_time, bundles, memory },
            HealthEventView::Fetched { reply, .. },
        ) => HealthProgressView::Finished(full_report(response_time, bundles, memory, reply)),
        _ => go_on(instance, credentials, state),
    }
}

/// The request that `state` waits for.
pub fn awaited_action(instance: &AemInstance, credentials: &Credentials, state: &HealthState) -> (r:
    HealthAction)
    ensures
        r@ == awaited(instance@, credentials@, state@),
{
    let path = match state {
        HealthState::Detecting(detecting) => {
            return HealthAction::Probe(crate::detection::pending_action(instance, detecting));
        },
        HealthState::Bundles => BUNDLES_PATH,
        HealthState::Memory { .. } => MEMORY_PATH,
        HealthState::Product { .. } => PRODUCT_PATH,
    };
    HealthAction::Fetch {
        url: console_url(instance.host.as_str(), instance.port, path),
        username: credentials.username.clone(),
        password: credentials.password.clone(),
        timeout_ms: CONSOLE_TIMEOUT_MS,
    }
}

/// Starts a health check: the state to keep and the first request to make.
pub fn begin_health_check(instance: &AemInstance, credentials: &Credentials) -> (r: (
    HealthState,
    HealthAction,
))
    ensures
        r.0@ == HealthStateView::Detecting(DetectionStateView::Port),
        r.0@.well_formed(),
        r.1@ == awaited(instance@, credentials@, r.0@),
{
    let state = HealthState::Detecting(DetectionState::Port);
    let action = awaited_action(instance, credentials, &state);
    (state, action)
}

/// A report that holds a status and nothing else.
fn report_of(status: AemInstanceStatus, response_time: Option<u64>) -> (r: HealthReport)
    ensures
        r@ == bare_report(status, response_time),
{
    HealthReport {
        status,
        response_time,
        bundle_status: None,
        memory_status: None,
        aem_version: None,
        oak_version: None,
    }
}

/// To go on in `state`.
fn go_on_in(instance: &AemInstance, credentials: &Credentials, state: HealthState) -> (r:
    HealthProgress)
    ensures
        r@ == go_on(instance@, credentials@, state@),
{
    let action = awaited_action(instance, credentials, &state);
    HealthProgress::Continue(state, action)
}

/// Takes the answer to a request: either the check has ended, or there is a
/// next request to make.
pub fn continue_health_check(
    instance: &AemInstance,
    credentials: &Credentials,
    state: HealthState,
    event: HealthEvent,
) -> (r: HealthProgress)
    ensures
        r@ == health_step(instance@, credentials@, state@, event@),
        state@.well_formed() ==> match r {
            HealthProgress::Continue(next, _) => next@.well_formed(),
            HealthProgress::Finished(report) => report.bundle_status matches Some(counts)
                ==> counts.well_formed(),
        },
{
    match (state, event) {
        (HealthState::Detecting(detecting), HealthEvent::Probed(probed)) => {
            match continue_detection(instance, detecting, probed) {
                Progress::Continue(next, _) => go_on_in(
                    instance,
                    credentials,
                    HealthState::Detecting(next),
                ),
                Progress::Finished(found) => {
                    if found.status == AemInstanceStatus::Running {
                        go_on_in(instance, credentials, HealthState::Bundles)
                    } else {
                        HealthProgress::Finished(report_of(found.status, None))
                    }
                },
            }
        },
        (HealthState::Bundles, HealthEvent::Fetched { reply, elapsed_ms }) => {
            match reply {
                Some(answer) if 200 <= answer.status && answer.status < 300 => {
                    let bundles = parse_bundle_response(answer.body.as_slice());
                    go_on_in(
                        instance,
                        credentials,
                        HealthState::Memory { response_time: elapsed_ms, bundles },
                    )
                },
                _ => HealthProgress::Finished(
                    report_of(AemInstanceStatus::Running, Some(elapsed_ms)),
                ),
            }
        },
        (HealthState::Memory { response_time, bundles }, HealthEvent::Fetched { reply, .. }) => {
            let memory = match reply {
                Some(answer) => parse_memory_status(answer.text.as_str()),
                None => None,
            };
            go_on_in(instance, credentials, HealthState::Product { response_time, bundles, memory })
        },
        (
            HealthState::Product { response_time, bundles, memory },
            HealthEvent::Fetched { reply, .. },
        ) => {
            let versions = match reply {
                Some(answer) => parse_version_info(answer.text.as_str()),
                None => None,
            };
            let (aem_version, oak_version) = match versions {
                Some(info) => (Some(info.product_version), info.oak_version),
                None => (None, None),
            };
            HealthProgress::Finished(
                HealthReport {
                    status: AemInstanceStatus::Running,
                    response_time: Some(response_time),
                    bundle_status: bundles,
                    memory_status: memory,
                    aem_version,
                    oak_version,
                },
            )
        },
        (state, _) => go_on_in(instance, credentials, state),
    }
}


/// An answer of 401 from the bundles page ends the check with the instance
/// running, and with neither bundle counts nor memory.
pub proof fn law_unauthorized_is_running(
    instance: AemInstanceView,
    credentials: (Seq<char>, Seq<char>),
    answer: HttpReplyView,
    elapsed_ms: u64,
)
    requires
        answer.status == 401,
    ensures
        health_step(
            instance,
            credentials,
            HealthStateView::Bundles,
            HealthEventView::Fetched { reply: Some(answer), elapsed_ms },
        ) matches HealthProgressView::Finished(report) && report.status
            == AemInstanceStatus::Running && report.bundle_status is None
            && report.memory_status is None && report.aem_version is None
            && report.oak_version is None,
{
}

/// Once the detection has found the instance running, the check ends with
/// that status, whatever the console answers.
pub proof fn law_console_keeps_status(
    instance: AemInstanceView,
    credentials: (Seq<char>, Seq<char>),
    state: HealthStateView,
    event: HealthEventView,
)
    requires
        !(state is Detecting),
    ensures
        health_step(instance, credentials, state, event) matches HealthProgressView::Finished(
            report,
        ) ==> report.status == AemInstanceStatus::Running,
{
}

/// The console is asked only of an instance that was detected as running:
/// any other detection ends the check with the detected status and nothing
/// else.
pub proof fn law_health_follows_detection(
    instance: AemInstanceView,
    credentials: (Seq<char>, Seq<char>),
    detecting: DetectionStateView,
    probed: ProbeEventView,
)
    ensures
        step(instance, detecting, probed) matches ProgressView::Finished(found) ==> health_step(
            instance,
            credentials,
            HealthStateView::Detecting(detecting),
            HealthEventView::Probed(probed),
        ) == (if found.status == AemInstanceStatus::Running {
            go_on(instance, credentials, HealthStateView::Bundles)
        } else {
            HealthProgressView::Finished(bare_report(found.status, None))
        }),
{
}

/// The result of a health check of the instance `instance_id` that ended at
/// `timestamp` with `report`.
pub fn health_check_result(instance_id: String, report: HealthReport, timestamp: String) -> (r:
    HealthCheckResult)
    ensures
        r@ == (HealthCheckResultView {
            instance_id: instance_id@,
            timestamp: timestamp@,
            status: report@.status,
            response_time: report@.response_time,
            bundle_status: report@.bundle_status,
            memory_status: report@.memory_status,
            aem_version: report@.aem_version,
            oak_version: report@.oak_version,
        }),
{
    HealthCheckResult {
        instance_id,
        timestamp,
        status: report.status,
        response_time: report.response_time,
        bundle_status: report.bundle_status,
        memory_status: report.memory_status,
        aem_version: report.aem_version,
        oak_version: report.oak_version,
    }
}

/// The result of a health check of the instance `instance_id` that has just
/// ended with `report`.
pub fn check_instance_health(instance_id: String, report: HealthReport) -> (r: HealthCheckResult)
    ensures
        r@ == (HealthCheckResultView {
            instance_id: instance_id@,
            timestamp: r@.timestamp,
            status: report@.status,
            response_time: report@.response_time,
            bundle_status: report@.bundle_status,
            memory_status: report@.memory_status,
            aem_version: report@.aem_version,
            oak_version: report@.oak_version,
        }),
{
    health_check_result(instance_id, report, now_rfc3339())
}

/// Where the stopping of an instance stands: the answer that is awaited.
#[derive(Debug, Clone, Copy, PartialEq, Eq, Structural)]
pub enum StopState {
    /// The application was asked to shut down.
    Shutdown,
    /// The process on the port is looked for.
    FindProcess,
    /// The process was asked to end.
    Terminate(u32),
    /// It is looked whether the process still runs.
    Check(u32),
    /// The process is ended by force.
    Kill(u32),
}

/// A step for the caller to take in stopping an instance.
#[derive(Debug, Clone)]
pub enum StopAction {
    /// POST to `url` with the given credentials, within `timeout_ms`.
    RequestShutdown { url: String, username: String, password: String, timeout_ms: u64 },
    /// Look up the process that listens on `port`.
    FindProcess { port: u16 },
    /// Ask the process to end.
    Terminate { pid: u32 },
    /// Look whether the process still runs.
    CheckProcess { pid: u32 },
    /// End the process by force.
    Kill { pid: u32 },
}

/// The mathematical content of a `StopAction`.
pub enum StopActionView {
    RequestShutdown { url: Seq<char>, username: Seq<char>, password: Seq<char>, timeout_ms: u64 },
    FindProcess { port: u16 },
    Terminate { pid: u32 },
    CheckProcess { pid: u32 },
    Kill { pid: u32 },
}

impl View for StopAction {
    type V = StopActionView;

    open spec fn view(&self) -> StopActionView {
        match *self {
            StopAction::RequestShutdown {
                url,
                username,
                password,
                timeout_ms,
            } => StopActionView::RequestShutdown {
                url: url@,
                username: username@,
                password: password@,
                timeout_ms,
            },
            StopAction::FindProcess { port } => StopActionView::FindProcess { port },
            StopAction::Terminate { pid } => StopActionView::Terminate { pid },
            StopAction::CheckProcess { pid } => StopActionView::CheckProcess { pid },
            StopAction::Kill { pid } => StopActionView::Kill { pid },
        }
    }
}

/// What a step in stopping an instance came to.
#[derive(Debug)]
pub enum StopEvent {
    /// Whether the request to shut down got any answer.
    ShutdownAnswered(bool),
    /// The process that listens on the port, where one was found.
    ProcessFound(Option<u32>),
    /// How the command that ends a process ended: in success or not, or
    /// with the message of why it could not be run.
    Signalled(Result<bool, String>),
    /// Whether the process still runs, or the message of why the command
    /// that tells could not be run.
    ProcessChecked(Result<bool, String>),
}

/// The mathematical content of a `StopEvent`.
pub enum StopEventView {
    ShutdownAnswered(bool),
    ProcessFound(Option<u32>),
    Signalled(Result<bool, Seq<char>>),
    ProcessChecked(Result<bool, Seq<char>>),
}

impl View for StopEvent {
    type V = StopEventView;

    open spec fn view(&self) -> StopEventView {
        match *self {
            StopEvent::ShutdownAnswered(answered) => StopEventView::ShutdownAnswered(answered),
            StopEvent::ProcessFound(pid) => StopEventView::ProcessFound(pid),
            StopEvent::Signalled(outcome) => StopEventView::Signalled(
                match outcome {
                    Ok(success) => Ok(success),
                    Err(e) => Err(e@),
                },
            ),
            StopEvent::ProcessChecked(outcome) => StopEventView::ProcessChecked(
                match outcome {
                    Ok(running) => Ok(running),
                    Err(e) => Err(e@),
                },
            ),
        }
    }
}

/// How the stopping of an instance goes on.
#[derive(Debug, Clone)]
pub enum StopProgress {
    /// Take the step and come back with what it came to.
    Continue(StopState, StopAction),
    /// The instance is stopping or stopped: the status to record for it.
    Stopped(AemInstanceStatus),
    /// The instance could not be stopped.
    Failed(String),
}

/// The mathematical content of a `StopProgress`.
pub enum StopProgressView {
    Continue(StopState, StopActionView),
    Stopped(AemInstanceStatus),
    Failed(Seq<char>),
}

impl View for StopProgress {
    type V = StopProgressView;

    open spec fn view(&self) -> StopProgressView {
        match *self {
            StopProgress::Continue(state, action) => StopProgressView::Continue(state, action@),
            StopProgress::Stopped(status) => StopProgressView::Stopped(status),
            StopProgress::Failed(message) => StopProgressView::Failed(message@),
        }
    }
}

/// The message where nothing was found to stop.
pub const NOTHING_TO_STOP: &'static str = "no process found to stop";

/// The step that a state of stopping waits for.
pub open spec fn stop_awaited(
    instance: AemInstanceView,
    credentials: (Seq<char>, Seq<char>),
    state: StopState,
) -> StopActionView {
    match state {
        StopState::Shutdown => StopActionView::RequestShutdown {
            url: base_url_of(instance.host, instance.port) + SHUTDOWN_PATH@,
            username: credentials.0,
            password: credentials.1,
            timeout_ms: CONSOLE_TIMEOUT_MS,
        },
        StopState::FindProcess => StopActionView::FindProcess { port: instance.port },
        StopState::Terminate(pid) => StopActionView::Terminate { pid },
        StopState::Check(pid) => StopActionView::CheckProcess { pid },
        StopState::Kill(pid) => StopActionView::Kill { pid },
    }
}

/// To go on in `state` with the step that it waits for.
pub open spec fn stop_go_on(
    instance: AemInstanceView,
    credentials: (Seq<char>, Seq<char>),
    state: StopState,
) -> StopProgressView {
    StopProgressView::Continue(state, stop_awaited(instance, credentials, state))
}

/// The step that stopping takes in `state` on `event`.
///
/// The application is asked to shut down first. Where that request gets any
/// answer, the instance counts as stopping, and nothing waits for the port
/// to close. Where it gets none, the process that listens on the port is
/// looked for and asked to end. However the command that asks ends, it is
/// then looked whether the process still runs: where it does not, the
/// instance counts as stopped; where it does, the process is ended by force,
/// and however that command ends, the instance counts as stopped. Where no
/// process is found, stopping fails; so it does where one of the commands
/// cannot be run. An event that does not answer the step which the state
/// waits for changes nothing.
pub open spec fn stop_step(
    instance: AemInstanceView,
    credentials: (Seq<char>, Seq<char>),
    state: StopState,
    event: StopEventView,
) -> StopProgressView {
    match (state, event) {
        (StopState::Shutdown, StopEventView::ShutdownAnswered(answered)) => if answered {
            StopProgressView::Stopped(AemInstanceStatus::Stopping)
        } else {
            stop_go_on(instance, credentials, StopState::FindProcess)
        },
        (StopState::FindProcess, StopEventView::ProcessFound(found)) => match found {
            Some(pid) => stop_go_on(instance, credentials, StopState::Terminate(pid)),
            None => StopProgressView::Failed(NOTHING_TO_STOP@),
        },
        (StopState::Terminate(pid), StopEventView::Signalled(outcome)) => match outcome {
            Ok(_) => stop_go_on(instance, credentials, StopState::Check(pid)),
            Err(e) => StopProgressView::Failed("Failed to kill process: "@ + e),
        },
        (StopState::Check(pid), StopEventView::ProcessChecked(outcome)) => match outcome {
            Ok(true) => stop_go_on(instance, credentials, StopState::Kill(pid)),
            Ok(false) => StopProgressView::Stopped(AemInstanceStatus::Stopped),
            Err(e) => StopProgressView::Failed("Failed to check process: "@ + e),
        },
        (StopState::Kill(_), StopEventView::Signalled(outcome)) => match outcome {
            Ok(_) => StopProgressView::Stopped(AemInstanceStatus::Stopped),
            Err(e) => StopProgressView::Failed("Failed to force kill process: "@ + e),
        },
        _ => stop_go_on(instance, credentials, state),
    }
}

/// The step that `state` waits for.
pub fn stop_action(instance: &AemInstance, credentials: &Credentials, state: StopState) -> (r:
    StopAction)
    ensures
        r@ == stop_awaited(instance@, credentials@, state),
{
    match state {
        StopState::Shutdown => StopAction::RequestShutdown {
            url: console_url(instance.host.as_str(), instance.port, SHUTDOWN_PATH),
            username: credentials.username.clone(),
            password: credentials.password.clone(),
            timeout_ms: CONSOLE_TIMEOUT_MS,
        },
        StopState::FindProcess => StopAction::FindProcess { port: instance.port },
        StopState::Terminate(pid) => StopAction::Terminate { pid },
        StopState::Check(pid) => StopAction::CheckProcess { pid },
        StopState::Kill(pid) => StopAction::Kill { pid },
    }
}

/// The process is ended by force only after it was asked to end and was
/// then found to run still: no other step leads to the forced kill.
pub proof fn law_forced_kill_only_if_persists(
    instance: AemInstanceView,
    credentials: (Seq<char>, Seq<char>),
    state: StopState,
    event: StopEventView,
    pid: u32,
)
    requires
        stop_step(instance, credentials, state, event) matches StopProgressView::Continue(
            next,
            _,
        ) && next == StopState::Kill(pid),
        state != StopState::Kill(pid),
    ensures
        state == StopState::Check(pid),
        event == StopEventView::ProcessChecked(Ok(true)),
{
}

/// A process that is found gone after it was asked to end is not ended by
/// force: the instance counts as stopped.
pub proof fn law_gone_process_is_stopped(
    instance: AemInstanceView,
    credentials: (Seq<char>, Seq<char>),
    pid: u32,
)
    ensures
        stop_step(
            instance,
            credentials,
            StopState::Check(pid),
            StopEventView::ProcessChecked(Ok(false)),
        ) == StopProgressView::Stopped(AemInstanceStatus::Stopped),
{
}

/// Starts the stopping of an instance: the state to keep and the first step
/// to take.
pub fn begin_stop(instance: &AemInstance, credentials: &Credentials) -> (r: (StopState, StopAction))
    ensures
        r.0 == StopState::Shutdown,
        r.1@ == stop_awaited(instance@, credentials@, StopState::Shutdown),
{
    (StopState::Shutdown, stop_action(instance, credentials, StopState::Shutdown))
}

/// Takes what a step came to: either stopping has ended, or there is a next
/// step to take.
pub fn stop_instance(
    instance: &AemInstance,
    credentials: &Credentials,
    state: StopState,
    event: StopEvent,
) -> (r: StopProgress)
    ensures
        r@ == stop_step(instance@, credentials@, state, event@),
{
    match (state, event) {
        (StopState::Shutdown, StopEvent::ShutdownAnswered(answered)) => {
            if answered {
                StopProgress::Stopped(AemInstanceStatus::Stopping)
            } else {
                StopProgress::Continue(
                    StopState::FindProcess,
                    stop_action(instance, credentials, StopState::FindProcess),
                )
            }
        },
        (StopState::FindProcess, StopEvent::ProcessFound(found)) => {
            match found {
                Some(pid) => StopProgress::Continue(
                    StopState::Terminate(pid),
                    stop_action(instance, credentials, StopState::Terminate(pid)),
                ),
                None => StopProgress::Failed(NOTHING_TO_STOP.to_owned()),
            }
        },
        (StopState::Terminate(pid), StopEvent::Signalled(outcome)) => {
            match outcome {
                Ok(_) => StopProgress::Continue(
                    StopState::Check(pid),
                    stop_action(instance, credentials, StopState::Check(pid)),
                ),
                Err(e) => StopProgress::Failed(
                    crate::text::concat2("Failed to kill process: ", e.as_str()),
                ),
            }
        },
        (StopState::Check(pid), StopEvent::ProcessChecked(outcome)) => {
            match outcome {
                Ok(true) => StopProgress::Continue(
                    StopState::Kill(pid),
                    stop_action(instance, credentials, StopState::Kill(pid)),
                ),
                Ok(false) => StopProgress::Stopped(AemInstanceStatus::Stopped),
                Err(e) => StopProgress::Failed(
                    crate::text::concat2("Failed to check process: ", e.as_str()),
                ),
            }
        },
        (StopState::Kill(_), StopEvent::Signalled(outcome)) => {
            match outcome {
                Ok(_) => StopProgress::Stopped(AemInstanceStatus::Stopped),
                Err(e) => StopProgress::Failed(
                    crate::text::concat2("Failed to force kill process: ", e.as_str()),
                ),
            }
        },
        (state, _) => StopProgress::Continue(state, stop_action(instance, credentials, state)),
    }
}

} // verus!
