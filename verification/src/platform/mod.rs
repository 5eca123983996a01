//! What differs between the platforms: directories, shells and commands.

pub mod common;
pub mod linux;
pub mod listener;
pub mod macos;
pub mod windows;

use vstd::prelude::*;
use crate::instance::{opt_text, texts};
use crate::number::decimal;
use crate::paths::joined;
use crate::platform::common::{CommandLine, PlatformOps, ProcessOutput};
use crate::platform::linux::LinuxPlatform;
use crate::platform::macos::MacOSPlatform;
use crate::platform::windows::WindowsPlatform;

verus! {

/// The platforms that this library knows.
#[derive(Debug, Clone, Copy, PartialEq, Eq, Structural)]
pub enum TargetOs {
    MacOS,
    Windows,
    Linux,
}

/// The decisions of one of the platforms.
#[derive(Debug, Clone)]
pub enum Platform {
    MacOS(MacOSPlatform),
    Windows(WindowsPlatform),
    Linux(LinuxPlatform),
}

impl Platform {
    /// The platform whose decisions these are.
    pub open spec fn os(&self) -> TargetOs {
        match self {
            Platform::MacOS(_) => TargetOs::MacOS,
            Platform::Windows(_) => TargetOs::Windows,
            Platform::Linux(_) => TargetOs::Linux,
        }
    }
}

/// The decisions of the platform `os`, which the caller names for the
/// machine that it runs on, with the shell that the environment names in
/// `SHELL`.
pub fn current_platform(os: TargetOs, shell: Option<String>) -> (r: Platform)
    ensures
        r.os() == os,
        r matches Platform::Windows(p) ==> p == crate::platform::windows::windows_platform(),
        r matches Platform::MacOS(p) ==> p.executor.shell@ == (match shell {
            Some(s) => s@,
            None => crate::platform::macos::DEFAULT_SHELL@,
        }),
        r matches Platform::Linux(p) ==> p.executor.shell@ == (match shell {
            Some(s) => s@,
            None => crate::platform::linux::DEFAULT_SHELL@,
        }),
{
    match os {
        TargetOs::MacOS => Platform::MacOS(MacOSPlatform::new(shell)),
        TargetOs::Windows => Platform::Windows(WindowsPlatform::new()),
        TargetOs::Linux => Platform::Linux(LinuxPlatform::new(shell)),
    }
}

impl PlatformOps for Platform {
    fn get_java_scan_paths(&self, home: &Option<String>) -> (r: Vec<String>)
        ensures
            texts(r@) == (match *self {
                Platform::MacOS(_) => crate::platform::macos::java_scan_paths_of(opt_text(*home)),
                Platform::Windows(_) => crate::platform::windows::java_scan_paths_of(
                    opt_text(*home),
                    None,
                ),
                Platform::Linux(_) => crate::platform::linux::java_scan_paths_of(opt_text(*home)),
            }),
    {
        match self {
            Platform::MacOS(p) => p.get_java_scan_paths(home),
            Platform::Windows(p) => p.get_java_scan_paths(home),
            Platform::Linux(p) => p.get_java_scan_paths(home),
        }
    }

    fn get_node_scan_paths(&self, home: &Option<String>) -> (r: Vec<String>)
        ensures
            texts(r@) == (match *self {
                Platform::MacOS(_) => crate::platform::macos::node_scan_paths_of(opt_text(*home)),
                Platform::Windows(_) => crate::platform::windows::node_scan_paths_of(
                    opt_text(*home),
                ),
                Platform::Linux(_) => crate::platform::linux::node_scan_paths_of(opt_text(*home)),
            }),
    {
        match self {
            Platform::MacOS(p) => p.get_node_scan_paths(home),
            Platform::Windows(p) => p.get_node_scan_paths(home),
            Platform::Linux(p) => p.get_node_scan_paths(home),
        }
    }

    fn open_browser(&self, url: &str) -> (r: CommandLine)
        ensures
            r@ == (match *self {
                Platform::MacOS(_) => ("open"@, seq![url@]),
                Platform::Windows(_) => ("cmd"@, seq!["/c"@, "start"@, ""@, url@]),
                Platform::Linux(_) => ("xdg-open"@, seq![url@]),
            }),
    {
        match self {
            Platform::MacOS(p) => p.open_browser(url),
            Platform::Windows(p) => p.open_browser(url),
            Platform::Linux(p) => p.open_browser(url),
        }
    }

    fn open_file_manager(&self, path: &str) -> (r: CommandLine)
        ensures
            r@ == (match *self {
                Platform::MacOS(_) => ("open"@, seq![path@]),
                Platform::Windows(_) => ("explorer"@, seq![path@]),
                Platform::Linux(_) => ("xdg-open"@, seq![path@]),
            }),
    {
        match self {
            Platform::MacOS(p) => p.open_file_manager(path),
            Platform::Windows(p) => p.open_file_manager(path),
            Platform::Linux(p) => p.open_file_manager(path),
        }
    }

    fn terminate_command(&self, pid: u32) -> (r: CommandLine)
        ensures
            r@ == (match *self {
                Platform::Windows(_) => ("taskkill"@, seq!["/PID"@, decimal(pid as nat)]),
                _ => ("kill"@, seq![decimal(pid as nat)]),
            }),
    {
        match self {
            Platform::MacOS(p) => p.terminate_command(pid),
            Platform::Windows(p) => p.terminate_command(pid),
            Platform::Linux(p) => p.terminate_command(pid),
        }
    }

    fn force_kill_command(&self, pid: u32) -> (r: CommandLine)
        ensures
            r@ == (match *self {
                Platform::Windows(_) => ("taskkill"@, seq!["/F"@, "/PID"@, decimal(pid as nat)]),
                _ => ("kill"@, seq!["-9"@, decimal(pid as nat)]),
            }),
    {
        match self {
            Platform::MacOS(p) => p.force_kill_command(pid),
            Platform::Windows(p) => p.force_kill_command(pid),
            Platform::Linux(p) => p.force_kill_command(pid),
        }
    }

    fn process_check_command(&self, pid: u32) -> (r: CommandLine)
        ensures
            r@ == (match *self {
                Platform::Windows(_) => (
                    "tasklist"@,
                    seq!["/FI"@, "PID eq "@ + decimal(pid as nat), "/FO"@, "CSV"@, "/NH"@],
                ),
                _ => ("kill"@, seq!["-0"@, decimal(pid as nat)]),
            }),
    {
        match self {
            Platform::MacOS(p) => p.process_check_command(pid),
            Platform::Windows(p) => p.process_check_command(pid),
            Platform::Linux(p) => p.process_check_command(pid),
        }
    }

    fn process_runs(&self, output: &ProcessOutput) -> (r: bool)
        ensures
            r == (match *self {
                Platform::Windows(_) => crate::platform::windows::task_listed(
                    output.success,
                    output.stdout@,
                ),
                _ => output.success,
            }),
    {
        match self {
            Platform::MacOS(p) => p.process_runs(output),
            Platform::Windows(p) => p.process_runs(output),
            Platform::Linux(p) => p.process_runs(output),
        }
    }

    fn get_config_dir(&self, base: &Option<String>) -> (r: String)
        ensures
            crate::platform::common::is_app_dir(r@) || r@ == (match *self {
                Platform::Windows(_) => match opt_text(*base) {
                    Some(b) => joined(b, "aem-env-manager"@),
                    None => "C:\\Users\\Public\\aem-env-manager\\config"@,
                },
                _ => joined(
                    crate::platform::linux::home_or_tilde(opt_text(*base)),
                    ".config/aem-env-manager"@,
                ),
            }),
    {
        match self {
            Platform::MacOS(p) => p.get_config_dir(base),
            Platform::Windows(p) => p.get_config_dir(base),
            Platform::Linux(p) => p.get_config_dir(base),
        }
    }

    fn get_data_dir(&self, base: &Option<String>) -> (r: String)
        ensures
            crate::platform::common::is_app_dir(r@) || r@ == (match *self {
                Platform::Windows(_) => match opt_text(*base) {
                    Some(b) => joined(b, "aem-env-manager"@),
                    None => "C:\\Users\\Public\\aem-env-manager\\data"@,
                },
                _ => joined(
                    crate::platform::linux::home_or_tilde(opt_text(*base)),
                    ".local/share/aem-env-manager"@,
                ),
            }),
    {
        match self {
            Platform::MacOS(p) => p.get_data_dir(base),
            Platform::Windows(p) => p.get_data_dir(base),
            Platform::Linux(p) => p.get_data_dir(base),
        }
    }

    fn get_cache_dir(&self, base: &Option<String>) -> (r: String)
        ensures
            crate::platform::common::is_app_dir(r@) || r@ == (match *self {
                Platform::Windows(_) => match opt_text(*base) {
                    Some(b) => joined(b, "aem-env-manager\\cache"@),
                    None => "C:\\Users\\Public\\aem-env-manager\\cache"@,
                },
                _ => joined(
                    crate::platform::linux::home_or_tilde(opt_text(*base)),
                    ".cache/aem-env-manager"@,
                ),
            }),
    {
        match self {
            Platform::MacOS(p) => p.get_cache_dir(base),
            Platform::Windows(p) => p.get_cache_dir(base),
            Platform::Linux(p) => p.get_cache_dir(base),
        }
    }
}

} // verus!
