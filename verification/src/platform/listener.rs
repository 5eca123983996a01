//! The look-up of the process that listens on a port: which command to run
//! next, and what its output says. The caller runs the commands; this module
//! decides.
//!
//! Every platform lists listening sockets alone, so that a process which is
//! only connected to or from the port is never taken for its owner. Where a
//! command cannot be run or its output names no process, the look-up ends
//! without an answer, which is no conflict.

use vstd::prelude::*;
use crate::detection::PortListener;
use crate::number::decimal;
use crate::platform::common::{CommandLine, ProcessOutput};
use crate::platform::linux::{LinuxPlatform, ListenerLookup};
use crate::platform::macos::MacOSPlatform;
use crate::platform::windows::WindowsPlatform;
use crate::platform::TargetOs;
use crate::text::trim;

verus! {

/// Where a look-up stands: the command whose output is awaited.
#[derive(Debug, Clone, Copy, PartialEq, Eq, Structural)]
pub enum LookupState {
    /// The command that lists the listeners on the port.
    Listing,
    /// The second command that lists them, where the first did not tell.
    Fallback,
    /// The command that names the process that was found.
    Naming(u32),
}

/// How a look-up goes on.
#[derive(Debug, Clone)]
pub enum LookupProgress {
    /// Run the command and come back with its output.
    Run(LookupState, CommandLine),
    /// The process that listens on the port.
    Found(PortListener),
    /// The look-up does not tell.
    Unknown,
}

/// The mathematical content of a `LookupProgress`.
pub enum LookupProgressView {
    Run(LookupState, (Seq<char>, Seq<Seq<char>>)),
    Found((u32, Seq<char>)),
    Unknown,
}

impl View for LookupProgress {
    type V = LookupProgressView;

    open spec fn view(&self) -> LookupProgressView {
        match *self {
            LookupProgress::Run(state, command) => LookupProgressView::Run(state, command@),
            LookupProgress::Found(listener) => LookupProgressView::Found(listener@),
            LookupProgress::Unknown => LookupProgressView::Unknown,
        }
    }
}

/// The view of what a command left, where it could be run: whether it ended
/// in success, and what it wrote to its output.
pub open spec fn output_view(output: Option<ProcessOutput>) -> Option<(bool, Seq<char>)> {
    match output {
        Some(o) => Some((o.success, o.stdout@)),
        None => None,
    }
}

/// The command that a state waits for: the listeners of TCP on the port
/// from `lsof`, or on Windows from `netstat`; on the second try from `ss`;
/// and the name of a process from `ps`, or on Windows from `tasklist`.
pub open spec fn lookup_command(os: TargetOs, port: u16, state: LookupState) -> (
    Seq<char>,
    Seq<Seq<char>>,
) {
    match state {
        LookupState::Listing => if os == TargetOs::Windows {
            ("netstat"@, seq!["-ano"@, "-p"@, "TCP"@])
        } else {
            ("lsof"@, seq!["-ti"@, "TCP:"@ + decimal(port as nat), "-sTCP:LISTEN"@])
        },
        LookupState::Fallback => ("ss"@, seq!["-tlnp"@, "sport = :"@ + decimal(port as nat)]),
        LookupState::Naming(pid) => if os == TargetOs::Windows {
            ("tasklist"@, seq!["/FI"@, "PID eq "@ + decimal(pid as nat), "/FO"@, "CSV"@, "/NH"@])
        } else {
            ("ps"@, seq!["-p"@, decimal(pid as nat), "-o"@, "comm="@])
        },
    }
}

/// To go on in `state` with the command that it waits for.
pub open spec fn run_in(os: TargetOs, port: u16, state: LookupState) -> LookupProgressView {
    LookupProgressView::Run(state, lookup_command(os, port, state))
}

/// The name of a process in the output of the command that names it.
pub open spec fn named_in(os: TargetOs, stdout: Seq<char>) -> Seq<char> {
    if os == TargetOs::Windows {
        crate::platform::windows::task_name_of(stdout)
    } else {
        trim(stdout)
    }
}

/// The step that a look-up takes in `state` on the output of the command
/// that the state waits for, or on `None` where the command could not be
/// run.
///
/// The process that the list of listeners names is asked for its name, and
/// with the name the look-up ends. Where the list names none, the look-up
/// ends without an answer; on Linux, where `lsof` could not be run, failed,
/// or wrote something else than a process id, `ss` is asked before that.
pub open spec fn lookup_step(
    os: TargetOs,
    port: u16,
    state: LookupState,
    output: Option<(bool, Seq<char>)>,
) -> LookupProgressView {
    match state {
        LookupState::Listing => match os {
            TargetOs::MacOS => match output {
                Some(o) => match crate::platform::macos::lsof_lookup_of(o.0, o.1) {
                    Some(pid) => run_in(os, port, LookupState::Naming(pid)),
                    None => LookupProgressView::Unknown,
                },
                None => LookupProgressView::Unknown,
            },
            TargetOs::Windows => match output {
                Some(o) => match crate::platform::windows::netstat_lookup_of(o, port) {
                    Some(pid) => run_in(os, port, LookupState::Naming(pid)),
                    None => LookupProgressView::Unknown,
                },
                None => LookupProgressView::Unknown,
            },
            TargetOs::Linux => match output {
                Some(o) => match crate::platform::linux::lsof_lookup_of(o.0, o.1) {
                    ListenerLookup::Found(pid) => run_in(os, port, LookupState::Naming(pid)),
                    ListenerLookup::Absent => LookupProgressView::Unknown,
                    ListenerLookup::Inconclusive => run_in(os, port, LookupState::Fallback),
                },
                None => run_in(os, port, LookupState::Fallback),
            },
        },
        LookupState::Fallback => match output {
            Some(o) => if os == TargetOs::Linux {
                match crate::platform::linux::ss_lookup_of(o.0, o.1) {
                    Some(pid) => run_in(os, port, LookupState::Naming(pid)),
                    None => LookupProgressView::Unknown,
                }
            } else {
                LookupProgressView::Unknown
            },
            None => LookupProgressView::Unknown,
        },
        LookupState::Naming(pid) => match output {
            Some(o) => LookupProgressView::Found((pid, named_in(os, o.1))),
            None => LookupProgressView::Unknown,
        },
    }
}

/// The command that `state` waits for.
pub fn listener_command(os: TargetOs, port: u16, state: LookupState) -> (r: CommandLine)
    ensures
        r@ == lookup_command(os, port, state),
{
    match state {
        LookupState::Listing => match os {
            TargetOs::MacOS => MacOSPlatform::new(None).listener_command(port),
            TargetOs::Windows => WindowsPlatform::new().netstat_command(),
            TargetOs::Linux => LinuxPlatform::new(None).listener_command(port),
        },
        LookupState::Fallback => LinuxPlatform::new(None).ss_command(port),
        LookupState::Naming(pid) => match os {
            TargetOs::MacOS => MacOSPlatform::new(None).process_name_command(pid),
            TargetOs::Windows => WindowsPlatform::new().tasklist_command(pid),
            TargetOs::Linux => LinuxPlatform::new(None).process_name_command(pid),
        },
    }
}

/// Starts the look-up of the process that listens on `port`: the state to
/// keep and the first command to run.
pub fn begin_listener_lookup(os: TargetOs, port: u16) -> (r: (LookupState, CommandLine))
    ensures
        r.0 == LookupState::Listing,
        r.1@ == lookup_command(os, port, LookupState::Listing),
{
    (LookupState::Listing, listener_command(os, port, LookupState::Listing))
}

/// To go on in `state`.
fn run_next(os: TargetOs, port: u16, state: LookupState) -> (r: LookupProgress)
    ensures
        r@ == run_in(os, port, state),
{
    LookupProgress::Run(state, listener_command(os, port, state))
}

/// To go on with the name of the process `pid`, where there is one.
fn name_next(os: TargetOs, port: u16, pid: Option<u32>) -> (r: LookupProgress)
    ensures
        r@ == (match pid {
            Some(p) => run_in(os, port, LookupState::Naming(p)),
            None => LookupProgressView::Unknown,
        }),
{
    match pid {
        Some(p) => run_next(os, port, LookupState::Naming(p)),
        None => LookupProgress::Unknown,
    }
}

/// Takes the output of the command that `state` waits for, or `None` where
/// the command could not be run: either the look-up has ended, or there is
/// a next command to run.
pub fn continue_listener_lookup(
    os: TargetOs,
    port: u16,
    state: LookupState,
    output: Option<ProcessOutput>,
) -> (r: LookupProgress)
    ensures
        r@ == lookup_step(os, port, state, output_view(output)),
{
    match state {
        LookupState::Listing => match os {
            TargetOs::MacOS => match output {
                Some(o) => name_next(os, port, MacOSPlatform::new(None).lsof_lookup(&o)),
                None => LookupProgress::Unknown,
            },
            TargetOs::Windows => match output {
                Some(o) => name_next(os, port, WindowsPlatform::new().netstat_lookup(&o, port)),
                None => LookupProgress::Unknown,
            },
            TargetOs::Linux => match output {
                Some(o) => match LinuxPlatform::new(None).lsof_lookup(&o) {
                    ListenerLookup::Found(pid) => run_next(os, port, LookupState::Naming(pid)),
                    ListenerLookup::Absent => LookupProgress::Unknown,
                    ListenerLookup::Inconclusive => run_next(os, port, LookupState::Fallback),
                },
                None => run_next(os, port, LookupState::Fallback),
            },
        },
        LookupState::Fallback => match output {
            Some(o) => match os {
                TargetOs::Linux => name_next(os, port, LinuxPlatform::new(None).ss_lookup(&o)),
                _ => LookupProgress::Unknown,
            },
            None => LookupProgress::Unknown,
        },
        LookupState::Naming(pid) => match output {
            Some(o) => {
                let name = match os {
                    TargetOs::MacOS => MacOSPlatform::new(None).process_name(o.stdout.as_str()),
                    TargetOs::Windows => WindowsPlatform::new().task_name(o.stdout.as_str()),
                    TargetOs::Linux => LinuxPlatform::new(None).process_name(o.stdout.as_str()),
                };
                LookupProgress::Found(PortListener { pid, name })
            },
            None => LookupProgress::Unknown,
        },
    }
}

} // verus!
