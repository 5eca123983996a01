//! macOS: its directories, shells, commands and version managers.

use vstd::prelude::*;
use crate::instance::{opt_text, texts};
use crate::number::decimal;
use crate::paths::{join, joined};
use crate::platform::common::{
    answered_own_version, answered_version, command1, command2, first_line_pid, get_app_cache_dir,
    get_app_config_dir, get_app_data_dir, install_markers, lines_trimmed, lines_unstarred,
    manager_dir, manager_dir_of, number_text, own_version_answer, pid_in_first_line, push_joined,
    push_text, text_result, trimmed_lines, unstarred_from, version_answer, CommandLine, PlatformOps,
    ProcessOutput, ShellExecutor, VersionManagerOps,
};
use crate::text::{concat2, concat3, concat4, concat5, contains, includes, to_chars};

verus! {

/// The shell that is used where the environment names none.
pub const DEFAULT_SHELL: &'static str = "/bin/zsh";

/// Runs commands in the user's shell.
#[derive(Debug, Clone)]
pub struct MacOSShellExecutor {
    pub shell: String,
}

impl MacOSShellExecutor {
    /// The executor for the shell that the environment names in `SHELL`, or
    /// for the default shell.
    pub fn from_env(shell: Option<String>) -> (r: MacOSShellExecutor)
        ensures
            r.shell@ == (match shell {
                Some(s) => s@,
                None => DEFAULT_SHELL@,
            }),
    {
        match shell {
            Some(shell) => MacOSShellExecutor { shell },
            None => MacOSShellExecutor { shell: DEFAULT_SHELL.to_owned() },
        }
    }
}

/// The settings file of `shell` under `home`: that of zsh or of bash.
pub open spec fn shell_config_path_of(
    shell: Seq<char>,
    home: Option<Seq<char>>,
) -> Option<Seq<char>> {
    match home {
        Some(h) => if contains(shell, "zsh"@) {
            Some(joined(h, ".zshrc"@))
        } else if contains(shell, "bash"@) {
            Some(joined(h, ".bash_profile"@))
        } else {
            None
        },
        None => None,
    }
}

impl ShellExecutor for MacOSShellExecutor {
    fn shell_command(&self, command: &str) -> (r: CommandLine)
        ensures
            r@ == (self.shell@, seq!["-c"@, command@]),
    {
        command2(self.shell.as_str(), "-c".to_owned(), command.to_owned())
    }

    fn get_shell_config_path(&self, home: &Option<String>) -> (r: Option<String>)
        ensures
            opt_text(r) == shell_config_path_of(self.shell@, opt_text(*home)),
    {
        let home = match home {
            Some(h) => h,
            None => {
                return None;
            },
        };
        let shell = to_chars(self.shell.as_str());
        if includes(&shell, "zsh") {
            Some(join(home.as_str(), ".zshrc"))
        } else if includes(&shell, "bash") {
            Some(join(home.as_str(), ".bash_profile"))
        } else {
            None
        }
    }
}

/// What macOS decides.
#[derive(Debug, Clone)]
pub struct MacOSPlatform {
    pub executor: MacOSShellExecutor,
}

/// The home directory, or `~` where it is not known.
pub open spec fn home_or_tilde(home: Option<Seq<char>>) -> Seq<char> {
    match home {
        Some(h) => h,
        None => "~"@,
    }
}

/// The home directory, or `~` where it is not known.
pub fn home_or_default(home: &Option<String>) -> (r: String)
    ensures
        r@ == home_or_tilde(opt_text(*home)),
{
    match home {
        Some(h) => h.clone(),
        None => "~".to_owned(),
    }
}

/// The places where Java installations are looked for.
pub open spec fn java_scan_paths_of(home: Option<Seq<char>>) -> Seq<Seq<char>> {
    let fixed = seq![
        "/Library/Java/JavaVirtualMachines"@,
        "/System/Library/Java/JavaVirtualMachines"@,
        "/usr/local/opt/openjdk"@,
    ];
    match home {
        Some(h) => fixed + seq![
            joined(h, ".sdkman/candidates/java"@),
            joined(h, ".jenv/versions"@),
            joined(h, ".jabba/jdk"@),
            "/opt/homebrew/opt/openjdk"@,
            joined(h, "homebrew/opt/openjdk"@),
        ],
        None => fixed,
    }
}

/// The places where Node installations are looked for.
pub open spec fn node_scan_paths_of(home: Option<Seq<char>>) -> Seq<Seq<char>> {
    let fixed = seq!["/usr/local/bin/node"@];
    match home {
        Some(h) => fixed + seq![
            joined(h, ".nvm/versions/node"@),
            joined(h, ".fnm/node-versions"@),
            joined(h, "Library/Application Support/fnm/node-versions"@),
            joined(h, ".volta/tools/image/node"@),
            "/opt/homebrew/opt/node"@,
        ],
        None => fixed,
    }
}

/// The settings file of the shell named by `shell`, or of the default shell.
pub open spec fn shell_config_file_of(
    home: Option<Seq<char>>,
    shell: Option<Seq<char>>,
) -> Seq<char> {
    let name = match shell {
        Some(s) => s,
        None => DEFAULT_SHELL@,
    };
    let base = home_or_tilde(home);
    if contains(name, "zsh"@) {
        joined(base, ".zshrc"@)
    } else if contains(name, "bash"@) {
        joined(base, ".bash_profile"@)
    } else {
        joined(base, ".profile"@)
    }
}

/// The process id that the output of `lsof` names, if the run succeeded.
pub open spec fn lsof_lookup_of(success: bool, stdout: Seq<char>) -> Option<u32> {
    if success {
        pid_in_first_line(stdout)
    } else {
        None
    }
}

/// The name of a process as `ps` writes it: the output without the white
/// space around it.
pub open spec fn process_name_of(stdout: Seq<char>) -> Seq<char> {
    crate::text::trim(stdout)
}

/// The Java home that the output of `java_home` names, if the run succeeded
/// and wrote one.
pub open spec fn java_home_of(success: bool, stdout: Seq<char>) -> Option<Seq<char>> {
    if success && crate::text::trim(stdout).len() > 0 {
        Some(crate::text::trim(stdout))
    } else {
        None
    }
}

impl MacOSPlatform {
    /// The platform, with the shell that the environment names in `SHELL`.
    pub fn new(shell: Option<String>) -> (r: MacOSPlatform)
        ensures
            r.executor.shell@ == (match shell {
                Some(s) => s@,
                None => DEFAULT_SHELL@,
            }),
    {
        MacOSPlatform { executor: MacOSShellExecutor::from_env(shell) }
    }

    /// The line that sets the variable `name` to `value` in a shell.
    pub fn export_line(&self, name: &str, value: &str) -> (r: String)
        ensures
            r@ == "export "@ + name@ + "=\""@ + value@ + "\""@,
    {
        concat5("export ", name, "=\"", value, "\"")
    }

    /// The lines that make `path` the Java home in a shell.
    pub fn java_home_lines(&self, path: &str) -> (r: (String, String))
        ensures
            r.0@ == "export JAVA_HOME=\""@ + path@ + "\""@,
            r.1@ == "export PATH=\"$JAVA_HOME/bin:$PATH\""@,
    {
        (concat3("export JAVA_HOME=\"", path, "\""), "export PATH=\"$JAVA_HOME/bin:$PATH\"".to_owned())
    }

    /// The settings file of the user's shell.
    pub fn get_shell_config_file(&self, home: &Option<String>, shell: &Option<String>) -> (r:
        String)
        ensures
            r@ == shell_config_file_of(opt_text(*home), opt_text(*shell)),
    {
        let base = home_or_default(home);
        let name = match shell {
            Some(s) => to_chars(s.as_str()),
            None => to_chars(DEFAULT_SHELL),
        };
        if includes(&name, "zsh") {
            join(base.as_str(), ".zshrc")
        } else if includes(&name, "bash") {
            join(base.as_str(), ".bash_profile")
        } else {
            join(base.as_str(), ".profile")
        }
    }

    /// The command that asks the system for the Java home.
    pub fn find_java_command(&self) -> (r: CommandLine)
        ensures
            r@ == ("/usr/libexec/java_home"@, Seq::<Seq<char>>::empty()),
    {
        let args: Vec<String> = Vec::new();
        proof {
            assert(texts(args@) =~= Seq::<Seq<char>>::empty());
        }
        CommandLine { program: "/usr/libexec/java_home".to_owned(), args }
    }

    /// The Java home that the output of `java_home` names.
    pub fn java_home_answer(&self, output: &ProcessOutput) -> (r: Option<String>)
        ensures
            opt_text(r) == java_home_of(output.success, output.stdout@),
    {
        if !output.success {
            return None;
        }
        let chars = to_chars(output.stdout.as_str());
        let path = crate::text::trimmed(&chars);
        if path.len() > 0 {
            Some(crate::text::to_string(&path))
        } else {
            None
        }
    }

    /// The command that opens a terminal in `cwd`.
    pub fn open_terminal(&self, cwd: &str) -> (r: CommandLine)
        ensures
            r@ == ("open"@, seq!["-a"@, "Terminal"@, cwd@]),
    {
        crate::platform::common::command3(
            "open",
            "-a".to_owned(),
            "Terminal".to_owned(),
            cwd.to_owned(),
        )
    }

    /// The process id that the output of `lsof` names.
    pub fn lsof_lookup(&self, output: &ProcessOutput) -> (r: Option<u32>)
        ensures
            r == lsof_lookup_of(output.success, output.stdout@),
    {
        if output.success {
            first_line_pid(output.stdout.as_str())
        } else {
            None
        }
    }

    /// The command that lists the processes that listen on `port`, and no
    /// process that is connected from it.
    pub fn listener_command(&self, port: u16) -> (r: CommandLine)
        ensures
            r@ == ("lsof"@, seq!["-ti"@, "TCP:"@ + decimal(port as nat), "-sTCP:LISTEN"@]),
    {
        let number = number_text(port as u32);
        crate::platform::common::command3(
            "lsof",
            "-ti".to_owned(),
            concat2("TCP:", number.as_str()),
            "-sTCP:LISTEN".to_owned(),
        )
    }

    /// The command that asks for the name of the process `pid`.
    pub fn process_name_command(&self, pid: u32) -> (r: CommandLine)
        ensures
            r@ == ("ps"@, seq!["-p"@, decimal(pid as nat), "-o"@, "comm="@]),
    {
        let mut args: Vec<String> = Vec::new();
        proof {
            assert(texts(args@) =~= Seq::<Seq<char>>::empty());
        }
        push_text(&mut args, "-p".to_owned());
        push_text(&mut args, number_text(pid));
        push_text(&mut args, "-o".to_owned());
        push_text(&mut args, "comm=".to_owned());
        proof {
            assert(texts(args@) =~= seq!["-p"@, decimal(pid as nat), "-o"@, "comm="@]);
        }
        CommandLine { program: "ps".to_owned(), args }
    }

    /// The name of a process as `ps` wrote it.
    pub fn process_name(&self, stdout: &str) -> (r: String)
        ensures
            r@ == process_name_of(stdout@),
    {
        let chars = to_chars(stdout);
        let name = crate::text::trimmed(&chars);
        crate::text::to_string(&name)
    }
}

impl PlatformOps for MacOSPlatform {
    fn get_java_scan_paths(&self, home: &Option<String>) -> (r: Vec<String>)
        ensures
            texts(r@) == java_scan_paths_of(opt_text(*home)),
    {
        let mut r: Vec<String> = Vec::new();
        proof {
            assert(texts(r@) =~= Seq::<Seq<char>>::empty());
        }
        push_text(&mut r, "/Library/Java/JavaVirtualMachines".to_owned());
        push_text(&mut r, "/System/Library/Java/JavaVirtualMachines".to_owned());
        push_text(&mut r, "/usr/local/opt/openjdk".to_owned());
        match home {
            Some(h) => {
                push_joined(&mut r, h.as_str(), ".sdkman/candidates/java");
                push_joined(&mut r, h.as_str(), ".jenv/versions");
                push_joined(&mut r, h.as_str(), ".jabba/jdk");
                push_text(&mut r, "/opt/homebrew/opt/openjdk".to_owned());
                push_joined(&mut r, h.as_str(), "homebrew/opt/openjdk");
                proof {
                    assert(texts(r@) =~= java_scan_paths_of(opt_text(*home)));
                }
            },
            None => {
                proof {
                    assert(texts(r@) =~= java_scan_paths_of(opt_text(*home)));
                }
            },
        }
        r
    }

    fn get_node_scan_paths(&self, home: &Option<String>) -> (r: Vec<String>)
        ensures
            texts(r@) == node_scan_paths_of(opt_text(*home)),
    {
        let mut r: Vec<String> = Vec::new();
        proof {
            assert(texts(r@) =~= Seq::<Seq<char>>::empty());
        }
        push_text(&mut r, "/usr/local/bin/node".to_owned());
        match home {
            Some(h) => {
                push_joined(&mut r, h.as_str(), ".nvm/versions/node");
                push_joined(&mut r, h.as_str(), ".fnm/node-versions");
                push_joined(&mut r, h.as_str(), "Library/Application Support/fnm/node-versions");
                push_joined(&mut r, h.as_str(), ".volta/tools/image/node");
                push_text(&mut r, "/opt/homebrew/opt/node".to_owned());
                proof {
                    assert(texts(r@) =~= node_scan_paths_of(opt_text(*home)));
                }
            },
            None => {
                proof {
                    assert(texts(r@) =~= node_scan_paths_of(opt_text(*home)));
                }
            },
        }
        r
    }

    fn open_browser(&self, url: &str) -> (r: CommandLine)
        ensures
            r@ == ("open"@, seq![url@]),
    {
        command1("open", url.to_owned())
    }

    fn open_file_manager(&self, path: &str) -> (r: CommandLine)
        ensures
            r@ == ("open"@, seq![path@]),
    {
        command1("open", path.to_owned())
    }

    fn terminate_command(&self, pid: u32) -> (r: CommandLine)
        ensures
            r@ == ("kill"@, seq![decimal(pid as nat)]),
    {
        command1("kill", number_text(pid))
    }

    fn force_kill_command(&self, pid: u32) -> (r: CommandLine)
        ensures
            r@ == ("kill"@, seq!["-9"@, decimal(pid as nat)]),
    {
        command2("kill", "-9".to_owned(), number_text(pid))
    }

    fn process_check_command(&self, pid: u32) -> (r: CommandLine)
        ensures
            r@ == ("kill"@, seq!["-0"@, decimal(pid as nat)]),
    {
        command2("kill", "-0".to_owned(), number_text(pid))
    }

    fn process_runs(&self, output: &ProcessOutput) -> (r: bool)
        ensures
            r == output.success,
    {
        output.success
    }

    fn get_config_dir(&self, home: &Option<String>) -> (r: String)
        ensures
            crate::platform::common::is_app_dir(r@) || r@ == joined(
                home_or_tilde(opt_text(*home)),
                ".config/aem-env-manager"@,
            ),
    {
        match get_app_config_dir() {
            Some(dir) => dir,
            None => {
                let base = home_or_default(home);
                join(base.as_str(), ".config/aem-env-manager")
            },
        }
    }

    fn get_data_dir(&self, home: &Option<String>) -> (r: String)
        ensures
            crate::platform::common::is_app_dir(r@) || r@ == joined(
                home_or_tilde(opt_text(*home)),
                ".local/share/aem-env-manager"@,
            ),
    {
        match get_app_data_dir() {
            Some(dir) => dir,
            None => {
                let base = home_or_default(home);
                join(base.as_str(), ".local/share/aem-env-manager")
            },
        }
    }

    fn get_cache_dir(&self, home: &Option<String>) -> (r: String)
        ensures
            crate::platform::common::is_app_dir(r@) || r@ == joined(
                home_or_tilde(opt_text(*home)),
                ".cache/aem-env-manager"@,
            ),
    {
        match get_app_cache_dir() {
            Some(dir) => dir,
            None => {
                let base = home_or_default(home);
                join(base.as_str(), ".cache/aem-env-manager")
            },
        }
    }
}

/// The platform's decisions, with the shell that the environment names.
pub fn get_platform(shell: Option<String>) -> (r: MacOSPlatform)
    ensures
        r.executor.shell@ == (match shell {
            Some(s) => s@,
            None => DEFAULT_SHELL@,
        }),
{
    MacOSPlatform::new(shell)
}


/// SDKMAN, which manages Java versions.
#[derive(Debug, Clone)]
pub struct SdkmanManager {
    pub executor: MacOSShellExecutor,
    pub sdkman_dir: String,
}

impl SdkmanManager {
    /// The manager in its directory under `home`, run in the shell that the
    /// environment names.
    pub fn new(home: &Option<String>, shell: Option<String>) -> (r: SdkmanManager)
        ensures
            r.sdkman_dir@ == manager_dir_of(None, opt_text(*home), ".sdkman"@, "~/.sdkman"@),
            r.executor.shell@ == (match shell {
                Some(s) => s@,
                None => DEFAULT_SHELL@,
            }),
    {
        SdkmanManager {
            executor: MacOSShellExecutor::from_env(shell),
            sdkman_dir: manager_dir(None, home, ".sdkman", "~/.sdkman"),
        }
    }

    /// The paths that exist where the manager is installed.
    pub fn install_markers(&self) -> (r: Vec<String>)
        ensures
            texts(r@) == seq![self.sdkman_dir@, joined(self.sdkman_dir@, "bin/sdkman-init.sh"@)],
    {
        install_markers(self.sdkman_dir.as_str(), "bin/sdkman-init.sh")
    }
}

impl VersionManagerOps for SdkmanManager {
    fn not_installed(&self) -> (r: String)
        ensures
            r@ == "SDKMAN is not installed"@,
    {
        "SDKMAN is not installed".to_owned()
    }

    fn list_command(&self) -> (r: String)
        ensures
            r@ == "source "@ + self.sdkman_dir@
                + "/bin/sdkman-init.sh && sdk list java | grep -E '^ \\*|^   ' | awk '{print $NF}'"@,
    {
        concat3(
            "source ",
            self.sdkman_dir.as_str(),
            "/bin/sdkman-init.sh && sdk list java | grep -E '^ \\*|^   ' | awk '{print $NF}'",
        )
    }

    fn listed_versions(&self, output: &str) -> (r: Vec<String>)
        ensures
            texts(r@) == trimmed_lines(output@),
    {
        lines_trimmed(output)
    }

    fn switch_command(&self, version: &str) -> (r: String)
        ensures
            r@ == "source "@ + self.sdkman_dir@ + "/bin/sdkman-init.sh && sdk use java "@
                + version@,
    {
        concat4(
            "source ",
            self.sdkman_dir.as_str(),
            "/bin/sdkman-init.sh && sdk use java ",
            version,
        )
    }

    fn current_command(&self) -> (r: String)
        ensures
            r@ == "source "@ + self.sdkman_dir@
                + "/bin/sdkman-init.sh && sdk current java | grep -oE '[0-9]+\\.[0-9]+\\.[0-9]+'"@,
    {
        concat3(
            "source ",
            self.sdkman_dir.as_str(),
            "/bin/sdkman-init.sh && sdk current java | grep -oE '[0-9]+\\.[0-9]+\\.[0-9]+'",
        )
    }

    fn current_version(&self, outcome: &Result<String, String>) -> (r: Option<String>)
        ensures
            opt_text(r) == answered_version(text_result(*outcome)),
    {
        version_answer(outcome)
    }
}

/// NVM, which manages Node versions.
#[derive(Debug, Clone)]
pub struct NvmManager {
    pub executor: MacOSShellExecutor,
    pub nvm_dir: String,
}

impl NvmManager {
    /// The manager in the directory that the environment names in `NVM_DIR`,
    /// or in its directory under `home`.
    pub fn new(nvm_dir: Option<String>, home: &Option<String>, shell: Option<String>) -> (r:
        NvmManager)
        ensures
            r.nvm_dir@ == manager_dir_of(opt_text(nvm_dir), opt_text(*home), ".nvm"@, "~/.nvm"@),
            r.executor.shell@ == (match shell {
                Some(s) => s@,
                None => DEFAULT_SHELL@,
            }),
    {
        NvmManager {
            executor: MacOSShellExecutor::from_env(shell),
            nvm_dir: manager_dir(nvm_dir, home, ".nvm", "~/.nvm"),
        }
    }

    /// The paths that exist where the manager is installed.
    pub fn install_markers(&self) -> (r: Vec<String>)
        ensures
            texts(r@) == seq![self.nvm_dir@, joined(self.nvm_dir@, "nvm.sh"@)],
    {
        install_markers(self.nvm_dir.as_str(), "nvm.sh")
    }
}

impl VersionManagerOps for NvmManager {
    fn not_installed(&self) -> (r: String)
        ensures
            r@ == "NVM is not installed"@,
    {
        "NVM is not installed".to_owned()
    }

    fn list_command(&self) -> (r: String)
        ensures
            r@ == "source "@ + self.nvm_dir@
                + "/nvm.sh && nvm ls --no-colors | grep -oE 'v[0-9]+\\.[0-9]+\\.[0-9]+'"@,
    {
        concat3(
            "source ",
            self.nvm_dir.as_str(),
            "/nvm.sh && nvm ls --no-colors | grep -oE 'v[0-9]+\\.[0-9]+\\.[0-9]+'",
        )
    }

    fn listed_versions(&self, output: &str) -> (r: Vec<String>)
        ensures
            texts(r@) == trimmed_lines(output@),
    {
        lines_trimmed(output)
    }

    fn switch_command(&self, version: &str) -> (r: String)
        ensures
            r@ == "source "@ + self.nvm_dir@ + "/nvm.sh && nvm use "@ + version@,
    {
        concat4("source ", self.nvm_dir.as_str(), "/nvm.sh && nvm use ", version)
    }

    fn current_command(&self) -> (r: String)
        ensures
            r@ == "source "@ + self.nvm_dir@ + "/nvm.sh && nvm current"@,
    {
        concat3("source ", self.nvm_dir.as_str(), "/nvm.sh && nvm current")
    }

    fn current_version(&self, outcome: &Result<String, String>) -> (r: Option<String>)
        ensures
            opt_text(r) == answered_own_version(text_result(*outcome), false),
    {
        own_version_answer(outcome, false)
    }
}

/// jEnv, which manages Java versions.
#[derive(Debug, Clone)]
pub struct JenvManager {
    pub executor: MacOSShellExecutor,
    pub jenv_dir: String,
}

impl JenvManager {
    /// The manager in its directory under `home`.
    pub fn new(home: &Option<String>, shell: Option<String>) -> (r: JenvManager)
        ensures
            r.jenv_dir@ == manager_dir_of(None, opt_text(*home), ".jenv"@, "~/.jenv"@),
            r.executor.shell@ == (match shell {
                Some(s) => s@,
                None => DEFAULT_SHELL@,
            }),
    {
        JenvManager {
            executor: MacOSShellExecutor::from_env(shell),
            jenv_dir: manager_dir(None, home, ".jenv", "~/.jenv"),
        }
    }

    /// The paths that exist where the manager is installed.
    pub fn install_markers(&self) -> (r: Vec<String>)
        ensures
            texts(r@) == seq![self.jenv_dir@, joined(self.jenv_dir@, "bin/jenv"@)],
    {
        install_markers(self.jenv_dir.as_str(), "bin/jenv")
    }
}

impl VersionManagerOps for JenvManager {
    fn not_installed(&self) -> (r: String)
        ensures
            r@ == "jEnv is not installed"@,
    {
        "jEnv is not installed".to_owned()
    }

    fn list_command(&self) -> (r: String)
        ensures
            r@ == "jenv versions --bare"@,
    {
        "jenv versions --bare".to_owned()
    }

    fn listed_versions(&self, output: &str) -> (r: Vec<String>)
        ensures
            texts(r@) == unstarred_from(trimmed_lines(output@), 0),
    {
        lines_unstarred(output)
    }

    fn switch_command(&self, version: &str) -> (r: String)
        ensures
            r@ == "jenv global "@ + version@,
    {
        concat2("jenv global ", version)
    }

    fn current_command(&self) -> (r: String)
        ensures
            r@ == "jenv version-name"@,
    {
        "jenv version-name".to_owned()
    }

    fn current_version(&self, outcome: &Result<String, String>) -> (r: Option<String>)
        ensures
            opt_text(r) == answered_own_version(text_result(*outcome), true),
    {
        own_version_answer(outcome, true)
    }
}

} // verus!
