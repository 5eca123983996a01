//! Linux: its directories, shells, commands and version managers.

use vstd::prelude::*;
use crate::instance::{opt_text, texts};
use crate::number::decimal;
use crate::paths::{join, joined};
use crate::platform::common::{
    answered_own_version, answered_version, command1, command2, first_line_pid, get_app_cache_dir,
    get_app_config_dir, get_app_data_dir, install_markers, lines_trimmed, lines_unstarred,
    manager_dir, manager_dir_of, number_text, own_version_answer, pid_in_first_line, push_joined,
    push_text, text_result, trimmed_lines, unstarred_from, version_answer, CommandLine, PlatformOps,
    ProcessOutput, ShellExecutor, VersionManagerOps,
};
use crate::text::{
    concat2, concat3, concat4, concat5, contains, digit, find, includes, is_digit, search, slice,
    to_chars,
};

verus! {

/// The shell that is used where the environment names none.
pub const DEFAULT_SHELL: &'static str = "/bin/bash";

/// Runs commands in the user's shell.
#[derive(Debug, Clone)]
pub struct LinuxShellExecutor {
    pub shell: String,
}

impl LinuxShellExecutor {
    /// The executor for the shell that the environment names in `SHELL`, or
    /// for the default shell.
    pub fn from_env(shell: Option<String>) -> (r: LinuxShellExecutor)
        ensures
            r.shell@ == (match shell {
                Some(s) => s@,
                None => DEFAULT_SHELL@,
            }),
    {
        match shell {
            Some(shell) => LinuxShellExecutor { shell },
            None => LinuxShellExecutor { shell: DEFAULT_SHELL.to_owned() },
        }
    }
}

/// The settings file of `shell` under `home`: that of zsh or of bash.
pub open spec fn shell_config_path_of(
    shell: Seq<char>,
    home: Option<Seq<char>>,
) -> Option<Seq<char>> {
    match home {
        Some(h) => if contains(shell, "zsh"@) {
            Some(joined(h, ".zshrc"@))
        } else if contains(shell, "bash"@) {
            Some(joined(h, ".bashrc"@))
        } else {
            None
        },
        None => None,
    }
}

impl ShellExecutor for LinuxShellExecutor {
    fn shell_command(&self, command: &str) -> (r: CommandLine)
        ensures
            r@ == (self.shell@, seq!["-c"@, command@]),
    {
        command2(self.shell.as_str(), "-c".to_owned(), command.to_owned())
    }

    fn get_shell_config_path(&self, home: &Option<String>) -> (r: Option<String>)
        ensures
            opt_text(r) == shell_config_path_of(self.shell@, opt_text(*home)),
    {
        let home = match home {
            Some(h) => h,
            None => {
                return None;
            },
        };
        let shell = to_chars(self.shell.as_str());
        if includes(&shell, "zsh") {
            Some(join(home.as_str(), ".zshrc"))
        } else if includes(&shell, "bash") {
            Some(join(home.as_str(), ".bashrc"))
        } else {
            None
        }
    }
}

/// What Linux decides.
#[derive(Debug, Clone)]
pub struct LinuxPlatform {
    pub executor: LinuxShellExecutor,
}

/// The home directory, or `~` where it is not known.
pub open spec fn home_or_tilde(home: Option<Seq<char>>) -> Seq<char> {
    match home {
        Some(h) => h,
        None => "~"@,
    }
}

/// The home directory, or `~` where it is not known.
pub fn home_or_default(home: &Option<String>) -> (r: String)
    ensures
        r@ == home_or_tilde(opt_text(*home)),
{
    match home {
        Some(h) => h.clone(),
        None => "~".to_owned(),
    }
}

/// The places where Java installations are looked for.
pub open spec fn java_scan_paths_of(home: Option<Seq<char>>) -> Seq<Seq<char>> {
    let fixed = seq!["/usr/lib/jvm"@, "/usr/java"@, "/opt/java"@];
    match home {
        Some(h) => fixed + seq![
            joined(h, ".sdkman/candidates/java"@),
            joined(h, ".jenv/versions"@),
            joined(h, ".jabba/jdk"@),
        ],
        None => fixed,
    }
}

/// The places where Node installations are looked for.
pub open spec fn node_scan_paths_of(home: Option<Seq<char>>) -> Seq<Seq<char>> {
    let fixed = seq!["/usr/bin/node"@, "/usr/local/bin/node"@];
    match home {
        Some(h) => fixed + seq![
            joined(h, ".nvm/versions/node"@),
            joined(h, ".fnm/node-versions"@),
            joined(h, ".local/share/fnm/node-versions"@),
            joined(h, ".volta/tools/image/node"@),
        ],
        None => fixed,
    }
}

/// The settings file of the shell named by `shell`, or of the default shell.
pub open spec fn shell_config_file_of(
    home: Option<Seq<char>>,
    shell: Option<Seq<char>>,
) -> Seq<char> {
    let name = match shell {
        Some(s) => s,
        None => DEFAULT_SHELL@,
    };
    let base = home_or_tilde(home);
    if contains(name, "zsh"@) {
        joined(base, ".zshrc"@)
    } else if contains(name, "bash"@) {
        joined(base, ".bashrc"@)
    } else {
        joined(base, ".profile"@)
    }
}

/// What the look-up of a listener with `lsof` says.
#[derive(Debug, Clone, Copy, PartialEq, Eq, Structural)]
pub enum ListenerLookup {
    /// The process was found.
    Found(u32),
    /// There is no process, and nothing else is to be tried.
    Absent,
    /// The look-up does not tell; the next tool is to be tried.
    Inconclusive,
}

/// What the output of `lsof` says: a failed run and a first line that is no
/// process id do not tell; an output without lines says that there is none.
pub open spec fn lsof_lookup_of(success: bool, stdout: Seq<char>) -> ListenerLookup {
    if !success {
        ListenerLookup::Inconclusive
    } else if crate::text::first_line(crate::text::trim(stdout)) is None {
        ListenerLookup::Absent
    } else {
        match pid_in_first_line(stdout) {
            Some(pid) => ListenerLookup::Found(pid),
            None => ListenerLookup::Inconclusive,
        }
    }
}

/// The name of a process as `ps` writes it: the output without the white
/// space around it.
pub open spec fn process_name_of(stdout: Seq<char>) -> Seq<char> {
    crate::text::trim(stdout)
}

/// The index just after the digits that begin at `from`.
pub open spec fn digits_end(s: Seq<char>, from: int) -> int
    decreases s.len() - from,
{
    if from < 0 || from >= s.len() || !is_digit(s[from]) {
        from
    } else {
        digits_end(s, from + 1)
    }
}

/// The process id that a line of `ss` names after `pid=`: the digits up to
/// the next other character, which the line must hold.
pub open spec fn pid_in_ss_line(line: Seq<char>) -> Option<u32> {
    let at = find(line, "pid="@);
    if at < 0 {
        None
    } else {
        let end = digits_end(line, at + 4);
        if end >= line.len() {
            None
        } else {
            match crate::number::unsigned_of(line.subrange(at + 4, end), u32::MAX as int) {
                Some(n) => Some(n as u32),
                None => None,
            }
        }
    }
}

/// The first process id that the lines from index `from` on name.
pub open spec fn pid_in_ss_lines(all: Seq<Seq<char>>, from: int) -> Option<u32>
    decreases all.len() - from,
{
    if from < 0 || from >= all.len() {
        None
    } else {
        match pid_in_ss_line(all[from]) {
            Some(pid) => Some(pid),
            None => pid_in_ss_lines(all, from + 1),
        }
    }
}

/// The process id that the output of `ss` names, if the run succeeded.
pub open spec fn ss_lookup_of(success: bool, stdout: Seq<char>) -> Option<u32> {
    if success {
        pid_in_ss_lines(crate::text::lines(stdout), 0)
    } else {
        None
    }
}

impl LinuxPlatform {
    /// The platform, with the shell that the environment names in `SHELL`.
    pub fn new(shell: Option<String>) -> (r: LinuxPlatform)
        ensures
            r.executor.shell@ == (match shell {
                Some(s) => s@,
                None => DEFAULT_SHELL@,
            }),
    {
        LinuxPlatform { executor: LinuxShellExecutor::from_env(shell) }
    }

    /// The line that sets the variable `name` to `value` in a shell.
    pub fn export_line(&self, name: &str, value: &str) -> (r: String)
        ensures
            r@ == "export "@ + name@ + "=\""@ + value@ + "\""@,
    {
        concat5("export ", name, "=\"", value, "\"")
    }

    /// The lines that make `path` the Java home in a shell.
    pub fn java_home_lines(&self, path: &str) -> (r: (String, String))
        ensures
            r.0@ == "export JAVA_HOME=\""@ + path@ + "\""@,
            r.1@ == "export PATH=\"$JAVA_HOME/bin:$PATH\""@,
    {
        (concat3("export JAVA_HOME=\"", path, "\""), "export PATH=\"$JAVA_HOME/bin:$PATH\"".to_owned())
    }

    /// The settings file of the user's shell.
    pub fn get_shell_config_file(&self, home: &Option<String>, shell: &Option<String>) -> (r:
        String)
        ensures
            r@ == shell_config_file_of(opt_text(*home), opt_text(*shell)),
    {
        let base = home_or_default(home);
        let name = match shell {
            Some(s) => to_chars(s.as_str()),
            None => to_chars(DEFAULT_SHELL),
        };
        if includes(&name, "zsh") {
            join(base.as_str(), ".zshrc")
        } else if includes(&name, "bash") {
            join(base.as_str(), ".bashrc")
        } else {
            join(base.as_str(), ".profile")
        }
    }

    /// The command that finds the `java` program.
    pub fn find_java_command(&self) -> (r: CommandLine)
        ensures
            r@ == ("which"@, seq!["java"@]),
    {
        command1("which", "java".to_owned())
    }

    /// The terminals to try in turn, each with the command that opens it in
    /// `cwd`; the last two take the directory from the caller's process.
    pub fn open_terminal(&self, cwd: &str) -> (r: Vec<CommandLine>)
        ensures
            r@.len() == 4,
            r@[0]@ == ("gnome-terminal"@, seq!["--working-directory"@, cwd@]),
            r@[1]@ == ("konsole"@, seq!["--workdir"@, cwd@]),
            r@[2]@ == ("xfce4-terminal"@, Seq::<Seq<char>>::empty()),
            r@[3]@ == ("xterm"@, Seq::<Seq<char>>::empty()),
    {
        let mut r: Vec<CommandLine> = Vec::new();
        r.push(command2("gnome-terminal", "--working-directory".to_owned(), cwd.to_owned()));
        r.push(command2("konsole", "--workdir".to_owned(), cwd.to_owned()));
        let none: Vec<String> = Vec::new();
        proof {
            assert(texts(none@) =~= Seq::<Seq<char>>::empty());
        }
        r.push(CommandLine { program: "xfce4-terminal".to_owned(), args: none.clone() });
        r.push(CommandLine { program: "xterm".to_owned(), args: Vec::new() });
        proof {
            assert(texts(r@[2].args@) =~= Seq::<Seq<char>>::empty());
            assert(texts(r@[3].args@) =~= Seq::<Seq<char>>::empty());
        }
        r
    }

    /// The command that lists the processes that listen on `port`, and no
    /// process that is connected from it.
    pub fn listener_command(&self, port: u16) -> (r: CommandLine)
        ensures
            r@ == ("lsof"@, seq!["-ti"@, "TCP:"@ + decimal(port as nat), "-sTCP:LISTEN"@]),
    {
        let number = number_text(port as u32);
        crate::platform::common::command3(
            "lsof",
            "-ti".to_owned(),
            concat2("TCP:", number.as_str()),
            "-sTCP:LISTEN".to_owned(),
        )
    }

    /// The command that asks for the name of the process `pid`.
    pub fn process_name_command(&self, pid: u32) -> (r: CommandLine)
        ensures
            r@ == ("ps"@, seq!["-p"@, decimal(pid as nat), "-o"@, "comm="@]),
    {
        let mut args: Vec<String> = Vec::new();
        proof {
            assert(texts(args@) =~= Seq::<Seq<char>>::empty());
        }
        push_text(&mut args, "-p".to_owned());
        push_text(&mut args, number_text(pid));
        push_text(&mut args, "-o".to_owned());
        push_text(&mut args, "comm=".to_owned());
        proof {
            assert(texts(args@) =~= seq!["-p"@, decimal(pid as nat), "-o"@, "comm="@]);
        }
        CommandLine { program: "ps".to_owned(), args }
    }

    /// The name of a process as `ps` wrote it.
    pub fn process_name(&self, stdout: &str) -> (r: String)
        ensures
            r@ == process_name_of(stdout@),
    {
        let chars = to_chars(stdout);
        let name = crate::text::trimmed(&chars);
        crate::text::to_string(&name)
    }

    /// What the output of `lsof` says.
    pub fn lsof_lookup(&self, output: &ProcessOutput) -> (r: ListenerLookup)
        ensures
            r == lsof_lookup_of(output.success, output.stdout@),
    {
        if !output.success {
            return ListenerLookup::Inconclusive;
        }
        let chars = to_chars(output.stdout.as_str());
        let trimmed = crate::text::trimmed(&chars);
        match crate::text::leading_line(&trimmed) {
            None => ListenerLookup::Absent,
            Some(_) => match first_line_pid(output.stdout.as_str()) {
                Some(pid) => ListenerLookup::Found(pid),
                None => ListenerLookup::Inconclusive,
            },
        }
    }

    /// The command that lists the listeners on `port` with `ss`.
    pub fn ss_command(&self, port: u16) -> (r: CommandLine)
        ensures
            r@ == ("ss"@, seq!["-tlnp"@, "sport = :"@ + decimal(port as nat)]),
    {
        let number = number_text(port as u32);
        command2("ss", "-tlnp".to_owned(), concat2("sport = :", number.as_str()))
    }

    /// The process id that a line of `ss` names.
    pub fn ss_line_pid(line: &Vec<char>) -> (r: Option<u32>)
        ensures
            r == pid_in_ss_line(line@),
    {
        let marker = to_chars("pid=");
        proof {
            reveal_strlit("pid=");
            crate::text::lemma_find_contains(line@, "pid="@);
        }
        let at = match search(line, &marker) {
            Some(at) => at,
            None => {
                return None;
            },
        };
        proof {
            assert("pid="@.len() == 4);
            assert(crate::text::occurs_at(line@, "pid="@, at as int));
            assert(at + 4 <= line.len());
        }
        let from: usize = at + 4;
        let mut end: usize = from;
        while end < line.len() && digit(line[end])
            invariant
                from <= end <= line.len(),
                digits_end(line@, from as int) == digits_end(line@, end as int),
            decreases line.len() - end,
        {
            end += 1;
        }
        if end >= line.len() {
            return None;
        }
        let digits = slice(line, from, end);
        match crate::number::parse_unsigned(&digits, 0xffff_ffff) {
            Some(n) => Some(n as u32),
            None => None,
        }
    }

    /// The process id that the output of `ss` names.
    pub fn ss_lookup(&self, output: &ProcessOutput) -> (r: Option<u32>)
        ensures
            r == ss_lookup_of(output.success, output.stdout@),
    {
        if !output.success {
            return None;
        }
        let chars = to_chars(output.stdout.as_str());
        let all = crate::text::split_lines(&chars);
        let mut i: usize = 0;
        proof {
            assert(crate::text::views(all@).len() == all@.len());
        }
        while i < all.len()
            invariant
                i <= all.len(),
                output.success,
                crate::text::views(all@) == crate::text::lines(output.stdout@),
                crate::text::views(all@).len() == all@.len(),
                pid_in_ss_lines(crate::text::lines(output.stdout@), 0) == pid_in_ss_lines(
                    crate::text::lines(output.stdout@),
                    i as int,
                ),
            decreases all.len() - i,
        {
            proof {
                assert(crate::text::views(all@)[i as int] == all@[i as int]@);
            }
            match Self::ss_line_pid(&all[i]) {
                Some(pid) => {
                    return Some(pid);
                },
                None => {},
            }
            i += 1;
        }
        None
    }
}

impl PlatformOps for LinuxPlatform {
    fn get_java_scan_paths(&self, home: &Option<String>) -> (r: Vec<String>)
        ensures
            texts(r@) == java_scan_paths_of(opt_text(*home)),
    {
        let mut r: Vec<String> = Vec::new();
        proof {
            assert(texts(r@) =~= Seq::<Seq<char>>::empty());
        }
        push_text(&mut r, "/usr/lib/jvm".to_owned());
        push_text(&mut r, "/usr/java".to_owned());
        push_text(&mut r, "/opt/java".to_owned());
        match home {
            Some(h) => {
                push_joined(&mut r, h.as_str(), ".sdkman/candidates/java");
                push_joined(&mut r, h.as_str(), ".jenv/versions");
                push_joined(&mut r, h.as_str(), ".jabba/jdk");
                proof {
                    assert(texts(r@) =~= java_scan_paths_of(opt_text(*home)));
                }
            },
            None => {
                proof {
                    assert(texts(r@) =~= java_scan_paths_of(opt_text(*home)));
                }
            },
        }
        r
    }

    fn get_node_scan_paths(&self, home: &Option<String>) -> (r: Vec<String>)
        ensures
            texts(r@) == node_scan_paths_of(opt_text(*home)),
    {
        let mut r: Vec<String> = Vec::new();
        proof {
            assert(texts(r@) =~= Seq::<Seq<char>>::empty());
        }
        push_text(&mut r, "/usr/bin/node".to_owned());
        push_text(&mut r, "/usr/local/bin/node".to_owned());
        match home {
            Some(h) => {
                push_joined(&mut r, h.as_str(), ".nvm/versions/node");
                push_joined(&mut r, h.as_str(), ".fnm/node-versions");
                push_joined(&mut r, h.as_str(), ".local/share/fnm/node-versions");
                push_joined(&mut r, h.as_str(), ".volta/tools/image/node");
                proof {
                    assert(texts(r@) =~= node_scan_paths_of(opt_text(*home)));
                }
            },
            None => {
                proof {
                    assert(texts(r@) =~= node_scan_paths_of(opt_text(*home)));
                }
            },
        }
        r
    }

    fn open_browser(&self, url: &str) -> (r: CommandLine)
        ensures
            r@ == ("xdg-open"@, seq![url@]),
    {
        command1("xdg-open", url.to_owned())
    }

    fn open_file_manager(&self, path: &str) -> (r: CommandLine)
        ensures
            r@ == ("xdg-open"@, seq![path@]),
    {
        command1("xdg-open", path.to_owned())
    }

    fn terminate_command(&self, pid: u32) -> (r: CommandLine)
        ensures
            r@ == ("kill"@, seq![decimal(pid as nat)]),
    {
        command1("kill", number_text(pid))
    }

    fn force_kill_command(&self, pid: u32) -> (r: CommandLine)
        ensures
            r@ == ("kill"@, seq!["-9"@, decimal(pid as nat)]),
    {
        command2("kill", "-9".to_owned(), number_text(pid))
    }

    fn process_check_command(&self, pid: u32) -> (r: CommandLine)
        ensures
            r@ == ("kill"@, seq!["-0"@, decimal(pid as nat)]),
    {
        command2("kill", "-0".to_owned(), number_text(pid))
    }

    fn process_runs(&self, output: &ProcessOutput) -> (r: bool)
        ensures
            r == output.success,
    {
        output.success
    }

    fn get_config_dir(&self, home: &Option<String>) -> (r: String)
        ensures
            crate::platform::common::is_app_dir(r@) || r@ == joined(
                home_or_tilde(opt_text(*home)),
                ".config/aem-env-manager"@,
            ),
    {
        match get_app_config_dir() {
            Some(dir) => dir,
            None => {
                let base = home_or_default(home);
                join(base.as_str(), ".config/aem-env-manager")
            },
        }
    }

    fn get_data_dir(&self, home: &Option<String>) -> (r: String)
        ensures
            crate::platform::common::is_app_dir(r@) || r@ == joined(
                home_or_tilde(opt_text(*home)),
                ".local/share/aem-env-manager"@,
            ),
    {
        match get_app_data_dir() {
            Some(dir) => dir,
            None => {
                let base = home_or_default(home);
                join(base.as_str(), ".local/share/aem-env-manager")
            },
        }
    }

    fn get_cache_dir(&self, home: &Option<String>) -> (r: String)
        ensures
            crate::platform::common::is_app_dir(r@) || r@ == joined(
                home_or_tilde(opt_text(*home)),
                ".cache/aem-env-manager"@,
            ),
    {
        match get_app_cache_dir() {
            Some(dir) => dir,
            None => {
                let base = home_or_default(home);
                join(base.as_str(), ".cache/aem-env-manager")
            },
        }
    }
}

/// The platform's decisions, with the shell that the environment names.
pub fn get_platform(shell: Option<String>) -> (r: LinuxPlatform)
    ensures
        r.executor.shell@ == (match shell {
            Some(s) => s@,
            None => DEFAULT_SHELL@,
        }),
{
    LinuxPlatform::new(shell)
}


/// SDKMAN, which manages Java versions.
#[derive(Debug, Clone)]
pub struct SdkmanManager {
    pub executor: LinuxShellExecutor,
    pub sdkman_dir: String,
}

impl SdkmanManager {
    /// The manager in its directory under `home`, run in the shell that the
    /// environment names.
    pub fn new(home: &Option<String>, shell: Option<String>) -> (r: SdkmanManager)
        ensures
            r.sdkman_dir@ == manager_dir_of(None, opt_text(*home), ".sdkman"@, "~/.sdkman"@),
            r.executor.shell@ == (match shell {
                Some(s) => s@,
                None => DEFAULT_SHELL@,
            }),
    {
        SdkmanManager {
            executor: LinuxShellExecutor::from_env(shell),
            sdkman_dir: manager_dir(None, home, ".sdkman", "~/.sdkman"),
        }
    }

    /// The paths that exist where the manager is installed.
    pub fn install_markers(&self) -> (r: Vec<String>)
        ensures
            texts(r@) == seq![self.sdkman_dir@, joined(self.sdkman_dir@, "bin/sdkman-init.sh"@)],
    {
        install_markers(self.sdkman_dir.as_str(), "bin/sdkman-init.sh")
    }
}

impl VersionManagerOps for SdkmanManager {
    fn not_installed(&self) -> (r: String)
        ensures
            r@ == "SDKMAN is not installed"@,
    {
        "SDKMAN is not installed".to_owned()
    }

    fn list_command(&self) -> (r: String)
        ensures
            r@ == "source "@ + self.sdkman_dir@
                + "/bin/sdkman-init.sh && sdk list java | grep -E '^ \\*|^   ' | awk '{print $NF}'"@,
    {
        concat3(
            "source ",
            self.sdkman_dir.as_str(),
            "/bin/sdkman-init.sh && sdk list java | grep -E '^ \\*|^   ' | awk '{print $NF}'",
        )
    }

    fn listed_versions(&self, output: &str) -> (r: Vec<String>)
        ensures
            texts(r@) == trimmed_lines(output@),
    {
        lines_trimmed(output)
    }

    fn switch_command(&self, version: &str) -> (r: String)
        ensures
            r@ == "source "@ + self.sdkman_dir@ + "/bin/sdkman-init.sh && sdk use java "@
                + version@,
    {
        concat4(
            "source ",
            self.sdkman_dir.as_str(),
            "/bin/sdkman-init.sh && sdk use java ",
            version,
        )
    }

    fn current_command(&self) -> (r: String)
        ensures
            r@ == "source "@ + self.sdkman_dir@
                + "/bin/sdkman-init.sh && sdk current java | grep -oE '[0-9]+\\.[0-9]+\\.[0-9]+'"@,
    {
        concat3(
            "source ",
            self.sdkman_dir.as_str(),
            "/bin/sdkman-init.sh && sdk current java | grep -oE '[0-9]+\\.[0-9]+\\.[0-9]+'",
        )
    }

    fn current_version(&self, outcome: &Result<String, String>) -> (r: Option<String>)
        ensures
            opt_text(r) == answered_version(text_result(*outcome)),
    {
        version_answer(outcome)
    }
}

/// NVM, which manages Node versions.
#[derive(Debug, Clone)]
pub struct NvmManager {
    pub executor: LinuxShellExecutor,
    pub nvm_dir: String,
}

impl NvmManager {
    /// The manager in the directory that the environment names in `NVM_DIR`,
    /// or in its directory under `home`.
    pub fn new(nvm_dir: Option<String>, home: &Option<String>, shell: Option<String>) -> (r:
        NvmManager)
        ensures
            r.nvm_dir@ == manager_dir_of(opt_text(nvm_dir), opt_text(*home), ".nvm"@, "~/.nvm"@),
            r.executor.shell@ == (match shell {
                Some(s) => s@,
                None => DEFAULT_SHELL@,
            }),
    {
        NvmManager {
            executor: LinuxShellExecutor::from_env(shell),
            nvm_dir: manager_dir(nvm_dir, home, ".nvm", "~/.nvm"),
        }
    }

    /// The paths that exist where the manager is installed.
    pub fn install_markers(&self) -> (r: Vec<String>)
        ensures
            texts(r@) == seq![self.nvm_dir@, joined(self.nvm_dir@, "nvm.sh"@)],
    {
        install_markers(self.nvm_dir.as_str(), "nvm.sh")
    }
}

impl VersionManagerOps for NvmManager {
    fn not_installed(&self) -> (r: String)
        ensures
            r@ == "NVM is not installed"@,
    {
        "NVM is not installed".to_owned()
    }

    fn list_command(&self) -> (r: String)
        ensures
            r@ == "source "@ + self.nvm_dir@
                + "/nvm.sh && nvm ls --no-colors | grep -oE 'v[0-9]+\\.[0-9]+\\.[0-9]+'"@,
    {
        concat3(
            "source ",
            self.nvm_dir.as_str(),
            "/nvm.sh && nvm ls --no-colors | grep -oE 'v[0-9]+\\.[0-9]+\\.[0-9]+'",
        )
    }

    fn listed_versions(&self, output: &str) -> (r: Vec<String>)
        ensures
            texts(r@) == trimmed_lines(output@),
    {
        lines_trimmed(output)
    }

    fn switch_command(&self, version: &str) -> (r: String)
        ensures
            r@ == "source "@ + self.nvm_dir@ + "/nvm.sh && nvm use "@ + version@,
    {
        concat4("source ", self.nvm_dir.as_str(), "/nvm.sh && nvm use ", version)
    }

    fn current_command(&self) -> (r: String)
        ensures
            r@ == "source "@ + self.nvm_dir@ + "/nvm.sh && nvm current"@,
    {
        concat3("source ", self.nvm_dir.as_str(), "/nvm.sh && nvm current")
    }

    fn current_version(&self, outcome: &Result<String, String>) -> (r: Option<String>)
        ensures
            opt_text(r) == answered_own_version(text_result(*outcome), false),
    {
        own_version_answer(outcome, false)
    }
}

/// jEnv, which manages Java versions.
#[derive(Debug, Clone)]
pub struct JenvManager {
    pub executor: LinuxShellExecutor,
    pub jenv_dir: String,
}

impl JenvManager {
    /// The manager in its directory under `home`.
    pub fn new(home: &Option<String>, shell: Option<String>) -> (r: JenvManager)
        ensures
            r.jenv_dir@ == manager_dir_of(None, opt_text(*home), ".jenv"@, "~/.jenv"@),
            r.executor.shell@ == (match shell {
                Some(s) => s@,
                None => DEFAULT_SHELL@,
            }),
    {
        JenvManager {
            executor: LinuxShellExecutor::from_env(shell),
            jenv_dir: manager_dir(None, home, ".jenv", "~/.jenv"),
        }
    }

    /// The paths that exist where the manager is installed.
    pub fn install_markers(&self) -> (r: Vec<String>)
        ensures
            texts(r@) == seq![self.jenv_dir@, joined(self.jenv_dir@, "bin/jenv"@)],
    {
        install_markers(self.jenv_dir.as_str(), "bin/jenv")
    }
}

impl VersionManagerOps for JenvManager {
    fn not_installed(&self) -> (r: String)
        ensures
            r@ == "jEnv is not installed"@,
    {
        "jEnv is not installed".to_owned()
    }

    fn list_command(&self) -> (r: String)
        ensures
            r@ == self.jenv_dir@ + "/bin/jenv versions --bare"@,
    {
        concat2(self.jenv_dir.as_str(), "/bin/jenv versions --bare")
    }

    fn listed_versions(&self, output: &str) -> (r: Vec<String>)
        ensures
            texts(r@) == unstarred_from(trimmed_lines(output@), 0),
    {
        lines_unstarred(output)
    }

    fn switch_command(&self, version: &str) -> (r: String)
        ensures
            r@ == self.jenv_dir@ + "/bin/jenv global "@ + version@,
    {
        concat3(self.jenv_dir.as_str(), "/bin/jenv global ", version)
    }

    fn current_command(&self) -> (r: String)
        ensures
            r@ == self.jenv_dir@ + "/bin/jenv version-name"@,
    {
        concat2(self.jenv_dir.as_str(), "/bin/jenv version-name")
    }

    fn current_version(&self, outcome: &Result<String, String>) -> (r: Option<String>)
        ensures
            opt_text(r) == answered_own_version(text_result(*outcome), true),
    {
        own_version_answer(outcome, true)
    }
}

} // verus!
