//! Status detection: which probe to make next, and what the answers mean.
//!
//! Detection makes up to three probes of an instance, each only when the one
//! before it leaves the question open: a connection to the port, a look-up of
//! the process that listens on it, and a request for the login page. The
//! caller makes the probes; this module decides.

use vstd::prelude::*;
use crate::bindings::{lowercase, now_rfc3339, to_lowercase};
use crate::instance::{
    opt_text, AemInstance, AemInstanceStatus, AemInstanceView, InstanceStatusResult,
    InstanceStatusResultView,
};
use crate::number::{decimal, push_decimal};
use crate::text::{append_str, contains, ends_with, includes, same, to_chars, to_string};

verus! {

/// How long a connection to the port may take, in milliseconds.
pub const PORT_PROBE_TIMEOUT_MS: u64 = 500;

/// How long the login page may take to answer, in milliseconds.
pub const HTTP_PROBE_TIMEOUT_MS: u64 = 3000;

/// Whether a name in lower case is that of a Java virtual machine: it holds
/// `java`, `jdk` or `jre`.
pub open spec fn has_java_word(lower: Seq<char>) -> bool {
    ||| contains(lower, "java"@)
    ||| contains(lower, "jdk"@)
    ||| contains(lower, "jre"@)
    ||| "/java"@.is_suffix_of(lower)
    ||| lower == "java"@
}

/// Whether `lower`, a process name in lower case, looks like the name of a
/// Java process.
pub fn is_java_name(lower: &str) -> (r: bool)
    ensures
        r == has_java_word(lower@),
{
    let chars = to_chars(lower);
    let java = to_chars("java");
    includes(&chars, "java") || includes(&chars, "jdk") || includes(&chars, "jre") || ends_with(
        &chars,
        "/java",
    ) || same(&chars, &java)
}

/// Whether a process name looks like that of a Java virtual machine. This is
/// a heuristic on the name's lower-case form.
pub open spec fn is_java_like(name: Seq<char>) -> bool {
    has_java_word(lowercase(name))
}

/// Whether `process_name` looks like the name of a Java process, whatever
/// the case of its letters.
pub fn is_java_process(process_name: &str) -> (r: bool)
    ensures
        r == is_java_like(process_name@),
{
    let lower = to_lowercase(process_name);
    is_java_name(lower.as_str())
}

/// Whether an answer to the request for the login page shows that the
/// application serves: `None` stands for no answer in time.
pub open spec fn is_ready(answer: Option<u16>) -> bool {
    answer == Some(200u16) || answer == Some(302u16) || answer == Some(401u16)
}

/// Whether the application serves, given the status code of the login page's
/// answer, or `None` where none came in time.
pub fn check_aem_http_ready(answer: Option<u16>) -> (r: bool)
    ensures
        r == is_ready(answer),
{
    match answer {
        Some(code) => code == 200 || code == 302 || code == 401,
        None => false,
    }
}

/// The address `host:port`.
pub open spec fn socket_address_of(host: Seq<char>, port: u16) -> Seq<char> {
    host + ":"@ + decimal(port as nat)
}

/// The address to resolve and connect to for the port probe.
pub fn socket_address(host: &str, port: u16) -> (r: String)
    ensures
        r@ == socket_address_of(host@, port),
{
    let mut out = to_chars(host);
    append_str(&mut out, ":");
    push_decimal(&mut out, port as u64);
    to_string(&out)
}

/// The address of the login page of the instance at `host:port`.
pub open spec fn login_url_of(host: Seq<char>, port: u16) -> Seq<char> {
    "http://"@ + host + ":"@ + decimal(port as nat) + "/libs/granite/core/content/login.html"@
}

/// The address of the login page, which answers without credentials.
pub fn login_url(host: &str, port: u16) -> (r: String)
    ensures
        r@ == login_url_of(host@, port),
{
    let mut out = to_chars("http://");
    append_str(&mut out, host);
    append_str(&mut out, ":");
    push_decimal(&mut out, port as u64);
    append_str(&mut out, "/libs/granite/core/content/login.html");
    to_string(&out)
}

/// The message that names the process which holds the port.
pub open spec fn conflict_message_of(port: u16, name: Seq<char>) -> Seq<char> {
    "Port "@ + decimal(port as nat) + " is occupied by non-Java process: "@ + name
}

/// The diagnostic message of a port conflict.
pub fn conflict_message(port: u16, name: &str) -> (r: String)
    ensures
        r@ == conflict_message_of(port, name@),
{
    let mut out = to_chars("Port ");
    push_decimal(&mut out, port as u64);
    append_str(&mut out, " is occupied by non-Java process: ");
    append_str(&mut out, name);
    to_string(&out)
}

/// A process that listens on a port.
#[derive(Debug, Clone)]
pub struct PortListener {
    pub pid: u32,
    pub name: String,
}

impl View for PortListener {
    type V = (u32, Seq<char>);

    open spec fn view(&self) -> (u32, Seq<char>) {
        (self.pid, self.name@)
    }
}

/// The view of an optional listener.
pub open spec fn opt_listener(o: Option<PortListener>) -> Option<(u32, Seq<char>)> {
    match o {
        Some(l) => Some(l@),
        None => None,
    }
}

/// What detection found.
#[derive(Debug, Clone)]
pub struct Detection {
    pub status: AemInstanceStatus,
    pub process_id: Option<u32>,
    pub process_name: Option<String>,
    pub error: Option<String>,
}

/// The mathematical content of a `Detection`.
pub struct DetectionView {
    pub status: AemInstanceStatus,
    pub process_id: Option<u32>,
    pub process_name: Option<Seq<char>>,
    pub error: Option<Seq<char>>,
}

impl View for Detection {
    type V = DetectionView;

    open spec fn view(&self) -> DetectionView {
        DetectionView {
            status: self.status,
            process_id: self.process_id,
            process_name: opt_text(self.process_name),
            error: opt_text(self.error),
        }
    }
}

impl DetectionView {
    /// A detection is one of the four passive statuses; a conflict names the
    /// process that holds the port and says so in a message, and a stopped
    /// instance has no process.
    pub open spec fn well_formed(self) -> bool {
        &&& self.status == AemInstanceStatus::Stopped || self.status
            == AemInstanceStatus::PortConflict || self.status == AemInstanceStatus::Starting
            || self.status == AemInstanceStatus::Running
        &&& self.status == AemInstanceStatus::PortConflict ==> self.process_id is Some
            && self.process_name is Some && self.error is Some && self.error->0.len() > 0
        &&& self.status == AemInstanceStatus::Stopped ==> self.process_id is None
            && self.process_name is None
        &&& self.process_id is Some <==> self.process_name is Some
    }
}

/// The detection of an instance whose port is closed.
pub open spec fn stopped() -> DetectionView {
    DetectionView {
        status: AemInstanceStatus::Stopped,
        process_id: None,
        process_name: None,
        error: None,
    }
}

/// The detection of an instance whose port is held by another program.
pub open spec fn conflict(port: u16, listener: (u32, Seq<char>)) -> DetectionView {
    DetectionView {
        status: AemInstanceStatus::PortConflict,
        process_id: Some(listener.0),
        process_name: Some(listener.1),
        error: Some(conflict_message_of(port, listener.1)),
    }
}

/// The detection of an instance whose port is open and not in conflict.
pub open spec fn serving(listener: Option<(u32, Seq<char>)>, answer: Option<u16>) -> DetectionView {
    DetectionView {
        status: if is_ready(answer) {
            AemInstanceStatus::Running
        } else {
            AemInstanceStatus::Starting
        },
        process_id: match listener {
            Some(l) => Some(l.0),
            None => None,
        },
        process_name: match listener {
            Some(l) => Some(l.1),
            None => None,
        },
        error: None,
    }
}

/// What the three probes would show of an instance at one moment.
pub struct Observation {
    /// Whether a connection to the port succeeds.
    pub port_open: bool,
    /// The process that listens on the port, where it can be determined.
    pub listener: Option<(u32, Seq<char>)>,
    /// The status code with which the login page answers, where it does in time.
    pub login_answer: Option<u16>,
}

/// The listener is known and is not a Java process.
pub open spec fn is_foreign(listener: Option<(u32, Seq<char>)>) -> bool {
    match listener {
        Some(found) => !is_java_like(found.1),
        None => false,
    }
}

/// The status of an instance on `port` of which `seen` holds.
pub open spec fn classify(port: u16, seen: Observation) -> DetectionView {
    if !seen.port_open {
        stopped()
    } else if is_foreign(seen.listener) {
        conflict(port, seen.listener->0)
    } else {
        serving(seen.listener, seen.login_answer)
    }
}

/// Where a detection stands: the probe whose answer is awaited.
#[derive(Debug, Clone)]
pub enum DetectionState {
    /// The connection to the port.
    Port,
    /// The look-up of the process that listens on the port.
    Listener,
    /// The request for the login page; holds the listener that was found.
    Readiness(Option<PortListener>),
}

/// The mathematical content of a `DetectionState`.
pub enum DetectionStateView {
    Port,
    Listener,
    Readiness(Option<(u32, Seq<char>)>),
}

impl View for DetectionState {
    type V = DetectionStateView;

    open spec fn view(&self) -> DetectionStateView {
        match *self {
            DetectionState::Port => DetectionStateView::Port,
            DetectionState::Listener => DetectionStateView::Listener,
            DetectionState::Readiness(l) => DetectionStateView::Readiness(opt_listener(l)),
        }
    }
}

/// A probe for the caller to make.
#[derive(Debug, Clone)]
pub enum ProbeAction {
    /// Resolve `host` and connect to `port`, each address within `timeout_ms`.
    ConnectPort { host: String, port: u16, timeout_ms: u64 },
    /// Look up the process that listens on `port`.
    FindListener { port: u16 },
    /// Request `url` without credentials, within `timeout_ms`.
    GetLoginPage { url: String, timeout_ms: u64 },
}

/// The mathematical content of a `ProbeAction`.
pub enum ProbeActionView {
    ConnectPort { host: Seq<char>, port: u16, timeout_ms: u64 },
    FindListener { port: u16 },
    GetLoginPage { url: Seq<char>, timeout_ms: u64 },
}

impl View for ProbeAction {
    type V = ProbeActionView;

    open spec fn view(&self) -> ProbeActionView {
        match *self {
            ProbeAction::ConnectPort { host, port, timeout_ms } => ProbeActionView::ConnectPort {
                host: host@,
                port,
                timeout_ms,
            },
            ProbeAction::FindListener { port } => ProbeActionView::FindListener { port },
            ProbeAction::GetLoginPage { url, timeout_ms } => ProbeActionView::GetLoginPage {
                url: url@,
                timeout_ms,
            },
        }
    }
}

/// The answer to a probe.
#[derive(Debug, Clone)]
pub enum ProbeEvent {
    /// Whether a connection to the port succeeded.
    PortProbed(bool),
    /// The process that listens on the port, or `None` where that cannot be told.
    ListenerFound(Option<PortListener>),
    /// The status code of the login page's answer, or `None` where none came in time.
    LoginPageAnswered(Option<u16>),
}

/// The mathematical content of a `ProbeEvent`.
pub enum ProbeEventView {
    PortProbed(bool),
    ListenerFound(Option<(u32, Seq<char>)>),
    LoginPageAnswered(Option<u16>),
}

impl View for ProbeEvent {
    type V = ProbeEventView;

    open spec fn view(&self) -> ProbeEventView {
        match *self {
            ProbeEvent::PortProbed(open) => ProbeEventView::PortProbed(open),
            ProbeEvent::ListenerFound(l) => ProbeEventView::ListenerFound(opt_listener(l)),
            ProbeEvent::LoginPageAnswered(code) => ProbeEventView::LoginPageAnswered(code),
        }
    }
}

/// How a detection goes on after an answer.
#[derive(Debug, Clone)]
pub enum Progress {
    /// Make the probe and come back with its answer.
    Continue(DetectionState, ProbeAction),
    /// Detection has ended.
    Finished(Detection),
}

/// The mathematical content of a `Progress`.
pub enum ProgressView {
    Continue(DetectionStateView, ProbeActionView),
    Finished(DetectionView),
}

impl View for Progress {
    type V = ProgressView;

    open spec fn view(&self) -> ProgressView {
        match *self {
            Progress::Continue(state, action) => ProgressView::Continue(state@, action@),
            Progress::Finished(detection) => ProgressView::Finished(detection@),
        }
    }
}

/// The probe that a state waits for.
pub open spec fn pending(instance: AemInstanceView, state: DetectionStateView) -> ProbeActionView {
    match state {
        DetectionStateView::Port => ProbeActionView::ConnectPort {
            host: instance.host,
            port: instance.port,
            timeout_ms: PORT_PROBE_TIMEOUT_MS,
        },
        DetectionStateView::Listener => ProbeActionView::FindListener { port: instance.port },
        DetectionStateView::Readiness(_) => ProbeActionView::GetLoginPage {
            url: login_url_of(instance.host, instance.port),
            timeout_ms: HTTP_PROBE_TIMEOUT_MS,
        },
    }
}

/// To go on in `state` with the probe that it waits for.
pub open spec fn proceed(instance: AemInstanceView, state: DetectionStateView) -> ProgressView {
    ProgressView::Continue(state, pending(instance, state))
}

/// The step that detection takes in `state` on `event`. An event that does not
/// answer the probe which the state waits for changes nothing: the probe is
/// asked for again.
pub open spec fn step(
    instance: AemInstanceView,
    state: DetectionStateView,
    event: ProbeEventView,
) -> ProgressView {
    match (state, event) {
        (DetectionStateView::Port, ProbeEventView::PortProbed(open)) => if open {
            proceed(instance, DetectionStateView::Listener)
        } else {
            ProgressView::Finished(stopped())
        },
        (DetectionStateView::Listener, ProbeEventView::ListenerFound(listener)) => if is_foreign(
            listener,
        ) {
            ProgressView::Finished(conflict(instance.port, listener->0))
        } else {
            proceed(instance, DetectionStateView::Readiness(listener))
        },
        (
            DetectionStateView::Readiness(listener),
            ProbeEventView::LoginPageAnswered(answer),
        ) => ProgressView::Finished(serving(listener, answer)),
        _ => proceed(instance, state),
    }
}

/// The probe that `state` waits for.
pub fn pending_action(instance: &AemInstance, state: &DetectionState) -> (r: ProbeAction)
    ensures
        r@ == pending(instance@, state@),
{
    match state {
        DetectionState::Port => ProbeAction::ConnectPort {
            host: instance.host.clone(),
            port: instance.port,
            timeout_ms: PORT_PROBE_TIMEOUT_MS,
        },
        DetectionState::Listener => ProbeAction::FindListener { port: instance.port },
        DetectionState::Readiness(_) => ProbeAction::GetLoginPage {
            url: login_url(instance.host.as_str(), instance.port),
            timeout_ms: HTTP_PROBE_TIMEOUT_MS,
        },
    }
}

/// Starts a detection: the state to keep and the first probe to make.
pub fn begin_detection(instance: &AemInstance) -> (r: (DetectionState, ProbeAction))
    ensures
        r.0@ == DetectionStateView::Port,
        r.1@ == pending(instance@, DetectionStateView::Port),
{
    let state = DetectionState::Port;
    let action = pending_action(instance, &state);
    (state, action)
}

/// Takes the answer to a probe: either detection has ended, or there is a
/// next probe to make.
pub fn continue_detection(instance: &AemInstance, state: DetectionState, event: ProbeEvent) -> (r:
    Progress)
    ensures
        r@ == step(instance@, state@, event@),
{
    match (state, event) {
        (DetectionState::Port, ProbeEvent::PortProbed(open)) => {
            if open {
                let next = DetectionState::Listener;
                let action = pending_action(instance, &next);
                Progress::Continue(next, action)
            } else {
                Progress::Finished(
                    Detection {
                        status: AemInstanceStatus::Stopped,
                        process_id: None,
                        process_name: None,
                        error: None,
                    },
                )
            }
        },
        (DetectionState::Listener, ProbeEvent::ListenerFound(listener)) => {
            let foreign = match &listener {
                Some(l) => !is_java_process(l.name.as_str()),
                None => false,
            };
            if foreign {
                let l = listener.unwrap();
                let message = conflict_message(instance.port, l.name.as_str());
                Progress::Finished(
                    Detection {
                        status: AemInstanceStatus::PortConflict,
                        process_id: Some(l.pid),
                        process_name: Some(l.name),
                        error: Some(message),
                    },
                )
            } else {
                let next = DetectionState::Readiness(listener);
                let action = pending_action(instance, &next);
                Progress::Continue(next, action)
            }
        },
        (DetectionState::Readiness(listener), ProbeEvent::LoginPageAnswered(answer)) => {
            let status = if check_aem_http_ready(answer) {
                AemInstanceStatus::Running
            } else {
                AemInstanceStatus::Starting
            };
            let (process_id, process_name) = match listener {
                Some(l) => (Some(l.pid), Some(l.name)),
                None => (None, None),
            };
            Progress::Finished(Detection { status, process_id, process_name, error: None })
        },
        (state, _) => {
            let action = pending_action(instance, &state);
            Progress::Continue(state, action)
        },
    }
}


/// The answer that a probe gets when `seen` holds of the instance.
pub open spec fn answer(seen: Observation, action: ProbeActionView) -> ProbeEventView {
    match action {
        ProbeActionView::ConnectPort { .. } => ProbeEventView::PortProbed(seen.port_open),
        ProbeActionView::FindListener { .. } => ProbeEventView::ListenerFound(seen.listener),
        ProbeActionView::GetLoginPage { .. } => ProbeEventView::LoginPageAnswered(
            seen.login_answer,
        ),
    }
}

/// What a detection that stands in `state` ends with when each probe is
/// answered from `seen`, if it ends within `probes` probes.
pub open spec fn outcome(
    instance: AemInstanceView,
    seen: Observation,
    state: DetectionStateView,
    probes: nat,
) -> Option<DetectionView>
    decreases probes,
{
    if probes == 0 {
        None
    } else {
        match step(instance, state, answer(seen, pending(instance, state))) {
            ProgressView::Finished(detection) => Some(detection),
            ProgressView::Continue(next, _) => outcome(instance, seen, next, (probes - 1) as nat),
        }
    }
}

/// What a detection from its start ends with, within `probes` probes.
pub open spec fn detect(instance: AemInstanceView, seen: Observation, probes: nat) -> Option<
    DetectionView,
> {
    outcome(instance, seen, DetectionStateView::Port, probes)
}

/// Detection ends within three probes, with the status that the observation
/// calls for, and what it ends with is well formed.
pub proof fn law_detection_classifies(instance: AemInstanceView, seen: Observation)
    ensures
        detect(instance, seen, 3) == Some(classify(instance.port, seen)),
        classify(instance.port, seen).well_formed(),
{
    reveal_with_fuel(outcome, 4);
    if seen.port_open && is_foreign(seen.listener) {
        let found = seen.listener->0;
        assert(decimal(instance.port as nat).len() > 0);
        assert(conflict_message_of(instance.port, found.1).len() > 0);
    }
}

/// An instance on whose port nothing listens is found stopped, with no
/// process, after the port probe alone.
pub proof fn law_closed_port_is_stopped(instance: AemInstanceView, seen: Observation)
    requires
        !seen.port_open,
    ensures
        detect(instance, seen, 1) == Some(stopped()),
        pending(instance, DetectionStateView::Port) == (ProbeActionView::ConnectPort {
            host: instance.host,
            port: instance.port,
            timeout_ms: PORT_PROBE_TIMEOUT_MS,
        }),
        stopped().status == AemInstanceStatus::Stopped,
        stopped().process_id is None,
{
    reveal_with_fuel(outcome, 2);
}

/// A port held by a process whose name does not look like Java is a conflict:
/// the detection names the process and carries a message, and the login page
/// is not asked for.
pub proof fn law_foreign_listener_is_conflict(
    instance: AemInstanceView,
    seen: Observation,
    pid: u32,
    name: Seq<char>,
)
    requires
        seen.port_open,
        seen.listener == Some((pid, name)),
        !is_java_like(name),
    ensures
        detect(instance, seen, 2) matches Some(found) && found.status
            == AemInstanceStatus::PortConflict && found.process_id == Some(pid)
            && found.process_name == Some(name) && found.error == Some(
            conflict_message_of(instance.port, name),
        ) && conflict_message_of(instance.port, name).len() > 0,
{
    reveal_with_fuel(outcome, 3);
    assert(decimal(instance.port as nat).len() > 0);
}

/// A port held by a Java-like process whose login page answers with 200, 302
/// or 401 is a running instance.
pub proof fn law_answering_java_is_running(
    instance: AemInstanceView,
    seen: Observation,
    pid: u32,
    name: Seq<char>,
)
    requires
        seen.port_open,
        seen.listener == Some((pid, name)),
        is_java_like(name),
        seen.login_answer == Some(200u16) || seen.login_answer == Some(302u16)
            || seen.login_answer == Some(401u16),
    ensures
        detect(instance, seen, 3) matches Some(found) && found.status
            == AemInstanceStatus::Running && found.process_id == Some(pid) && found.process_name
            == Some(name) && found.error is None,
{
    reveal_with_fuel(outcome, 4);
}

/// A port held by a Java-like process whose login page does not answer yet,
/// or answers otherwise, is a starting instance.
pub proof fn law_silent_java_is_starting(
    instance: AemInstanceView,
    seen: Observation,
    pid: u32,
    name: Seq<char>,
)
    requires
        seen.port_open,
        seen.listener == Some((pid, name)),
        is_java_like(name),
        !is_ready(seen.login_answer),
    ensures
        detect(instance, seen, 3) matches Some(found) && found.status
            == AemInstanceStatus::Starting && found.process_id == Some(pid)
            && found.process_name == Some(name) && found.error is None,
{
    reveal_with_fuel(outcome, 4);
}

/// Where the listener cannot be determined, detection goes by the login page
/// alone, as it does for a Java-like listener.
pub proof fn law_unknown_listener_is_no_conflict(instance: AemInstanceView, seen: Observation)
    requires
        seen.port_open,
        seen.listener is None,
    ensures
        detect(instance, seen, 3) matches Some(found) && found.status == (if is_ready(
            seen.login_answer,
        ) {
            AemInstanceStatus::Running
        } else {
            AemInstanceStatus::Starting
        }) && found.process_id is None && found.error is None,
{
    reveal_with_fuel(outcome, 4);
}


/// The result of a detection of the instance `instance_id` that found
/// `found`, ended at `checked_at` and took `duration_ms` milliseconds.
pub open spec fn result_of(
    instance_id: Seq<char>,
    found: DetectionView,
    checked_at: Seq<char>,
    duration_ms: u64,
) -> InstanceStatusResultView {
    InstanceStatusResultView {
        instance_id,
        status: found.status,
        checked_at,
        duration_ms,
        process_id: found.process_id,
        process_name: found.process_name,
        error: found.error,
    }
}

/// The result of a detection that failed with the message `error`: the
/// status is unknown.
pub open spec fn failed_result_of(
    instance_id: Seq<char>,
    error: Seq<char>,
    checked_at: Seq<char>,
) -> InstanceStatusResultView {
    InstanceStatusResultView {
        instance_id,
        status: AemInstanceStatus::Unknown,
        checked_at,
        duration_ms: 0,
        process_id: None,
        process_name: None,
        error: Some(error),
    }
}

/// The result of a detection of the instance `instance_id` that found
/// `found`, ended at `checked_at` and took `duration_ms` milliseconds.
pub fn detection_result(
    instance_id: String,
    found: Detection,
    checked_at: String,
    duration_ms: u64,
) -> (r: InstanceStatusResult)
    ensures
        r@ == result_of(instance_id@, found@, checked_at@, duration_ms),
        found@.well_formed() ==> r@.well_formed(),
{
    InstanceStatusResult {
        instance_id,
        status: found.status,
        checked_at,
        duration_ms,
        process_id: found.process_id,
        process_name: found.process_name,
        error: found.error,
    }
}

/// The result of a detection of the instance `instance_id` that has just
/// ended: it found `found` and took `duration_ms` milliseconds.
pub fn detect_instance_status(instance_id: String, found: Detection, duration_ms: u64) -> (r:
    InstanceStatusResult)
    ensures
        r@ == result_of(instance_id@, found@, r@.checked_at, duration_ms),
        found@.well_formed() ==> r@.well_formed(),
{
    detection_result(instance_id, found, now_rfc3339(), duration_ms)
}

/// A detection that has ended, with the time that it ended at and the
/// milliseconds that it took.
#[derive(Debug, Clone)]
pub struct TimedDetection {
    pub found: Detection,
    pub checked_at: String,
    pub duration_ms: u64,
}

/// The result for one instance of a batch: that of its detection, or where
/// its detection failed, a result of unknown status with the failure's
/// message, as of the time `now`.
pub open spec fn batch_entry(
    instance_id: Seq<char>,
    outcome: Result<TimedDetection, String>,
    now: Seq<char>,
) -> InstanceStatusResultView {
    match outcome {
        Ok(timed) => result_of(instance_id, timed.found@, timed.checked_at@, timed.duration_ms),
        Err(error) => failed_result_of(instance_id, error@, now),
    }
}

/// Whether `results` are the results of the batch `outcomes` as of the time
/// `now`: one result for each instance, in the order of the instances.
pub open spec fn is_batch_at(
    results: Seq<InstanceStatusResult>,
    outcomes: Seq<(String, Result<TimedDetection, String>)>,
    now: Seq<char>,
) -> bool {
    &&& results.len() == outcomes.len()
    &&& forall|i: int|
        0 <= i < results.len() ==> (#[trigger] results[i])@ == batch_entry(
            outcomes[i].0@,
            outcomes[i].1,
            now,
        )
}

/// Whether each detection of a batch that ended is well formed.
pub open spec fn detections_well_formed(
    outcomes: Seq<(String, Result<TimedDetection, String>)>,
) -> bool {
    forall|i: int|
        0 <= i < outcomes.len() && (#[trigger] outcomes[i]).1 is Ok
            ==> outcomes[i].1->Ok_0.found@.well_formed()
}

/// Whether each of `results` is well formed.
pub open spec fn results_well_formed(results: Seq<InstanceStatusResult>) -> bool {
    forall|i: int| 0 <= i < results.len() ==> (#[trigger] results[i])@.well_formed()
}

/// The results of a batch are well formed where each detection of the batch
/// that ended is well formed: the result of one that failed always is.
pub proof fn law_batch_is_well_formed(
    results: Seq<InstanceStatusResult>,
    outcomes: Seq<(String, Result<TimedDetection, String>)>,
    now: Seq<char>,
)
    requires
        is_batch_at(results, outcomes, now),
        detections_well_formed(outcomes),
    ensures
        results_well_formed(results),
{
    assert forall|i: int| 0 <= i < results.len() implies (#[trigger] results[i])@.well_formed() by {
        assert(results[i]@ == batch_entry(outcomes[i].0@, outcomes[i].1, now));
        if outcomes[i].1 is Ok {
            assert(outcomes[i].1->Ok_0.found@.well_formed());
        }
    }
}

/// The results of a batch of detections as of the time `now`: one result
/// for each instance, in the order of the instances, each under the
/// instance's identifier, whether its detection ended or failed.
pub fn detect_all_instances_status_at(
    outcomes: Vec<(String, Result<TimedDetection, String>)>,
    now: &str,
) -> (r: Vec<InstanceStatusResult>)
    ensures
        is_batch_at(r@, outcomes@, now@),
        detections_well_formed(outcomes@) ==> results_well_formed(r@),
{
    let mut results: Vec<InstanceStatusResult> = Vec::new();
    let mut rest = outcomes;
    let ghost all = rest@;
    let mut reversed: Vec<(String, Result<TimedDetection, String>)> = Vec::new();
    while rest.len() > 0
        invariant
            rest@.len() + reversed@.len() == all.len(),
            forall|j: int| 0 <= j < rest@.len() ==> rest@[j] == all[j],
            forall|j: int|
                0 <= j < reversed@.len() ==> #[trigger] reversed@[j] == all[all.len() - 1 - j],
        decreases rest@.len(),
    {
        let last = rest.pop().unwrap();
        reversed.push(last);
    }
    while reversed.len() > 0
        invariant
            reversed@.len() + results@.len() == all.len(),
            forall|j: int|
                0 <= j < reversed@.len() ==> #[trigger] reversed@[j] == all[all.len() - 1 - j],
            forall|i: int|
                0 <= i < results@.len() ==> (#[trigger] results@[i])@ == batch_entry(
                    all[i].0@,
                    all[i].1,
                    now@,
                ),
        decreases reversed@.len(),
    {
        let (instance_id, outcome) = reversed.pop().unwrap();
        let ghost kept = outcome;
        let entry = match outcome {
            Ok(timed) => detection_result(
                instance_id,
                timed.found,
                timed.checked_at,
                timed.duration_ms,
            ),
            Err(error) => InstanceStatusResult {
                instance_id,
                status: AemInstanceStatus::Unknown,
                checked_at: now.to_owned(),
                duration_ms: 0,
                process_id: None,
                process_name: None,
                error: Some(error),
            },
        };
        assert(entry@ == batch_entry(instance_id@, kept, now@));
        results.push(entry);
    }
    proof {
        if detections_well_formed(all) {
            law_batch_is_well_formed(results@, all, now@);
        }
    }
    results
}

/// The results of a batch of detections as of now: one result for each
/// instance, in the order of the instances, each under the instance's
/// identifier, whether its detection ended or failed.
pub fn detect_all_instances_status(outcomes: Vec<(String, Result<TimedDetection, String>)>) -> (r:
    Vec<InstanceStatusResult>)
    ensures
        r@.len() == outcomes@.len(),
        exists|now: Seq<char>| #[trigger] is_batch_at(r@, outcomes@, now),
        forall|i: int| 0 <= i < r@.len() ==> (#[trigger] r@[i])@.instance_id == outcomes@[i].0@,
        detections_well_formed(outcomes@) ==> results_well_formed(r@),
{
    let now = now_rfc3339();
    let r = detect_all_instances_status_at(outcomes, now.as_str());
    proof {
        assert(is_batch_at(r@, outcomes@, now@));
    }
    r
}

} // verus!
