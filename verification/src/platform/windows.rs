//! Windows: its directories, shell, commands and version managers.

use vstd::prelude::*;
use crate::instance::{opt_text, texts};
use crate::number::{decimal, unsigned_of};
use crate::paths::{join, joined};
use crate::platform::common::{
    answered_own_version, answered_version, command1, command2, command3, get_app_cache_dir,
    get_app_config_dir, get_app_data_dir, install_markers, lines_trimmed, manager_dir,
    manager_dir_of, number_text, own_version_answer, push_joined, push_text, text_result,
    trimmed_lines, version_answer, CommandLine, PlatformOps, ProcessOutput, ShellExecutor,
    VersionManagerOps,
};
use crate::text::{
    begins_with, concat2, concat4, contains, digit, ends_with, first_word, includes, is_digit,
    leading_word, lines, opt_chars, same, split, split_lines, split_on, split_words,
    strip_leading, to_chars, to_string, trim, trimmed, views, without_leading, words,
};

verus! {

/// Runs commands in PowerShell.
#[derive(Debug, Clone, Copy)]
pub struct WindowsShellExecutor;

/// The path of the PowerShell profile under `home`.
pub open spec fn profile_under(home: Seq<char>) -> Seq<char> {
    joined(joined(joined(home, "Documents"@), "PowerShell"@), "Microsoft.PowerShell_profile.ps1"@)
}

/// The path of the PowerShell profile under `home`.
pub fn powershell_profile(home: &str) -> (r: String)
    ensures
        r@ == profile_under(home@),
{
    let documents = join(home, "Documents");
    let powershell = join(documents.as_str(), "PowerShell");
    join(powershell.as_str(), "Microsoft.PowerShell_profile.ps1")
}

impl ShellExecutor for WindowsShellExecutor {
    fn shell_command(&self, command: &str) -> (r: CommandLine)
        ensures
            r@ == ("powershell"@, seq!["-NoProfile"@, "-Command"@, command@]),
    {
        command3("powershell", "-NoProfile".to_owned(), "-Command".to_owned(), command.to_owned())
    }

    fn get_shell_config_path(&self, home: &Option<String>) -> (r: Option<String>)
        ensures
            opt_text(r) == (match opt_text(*home) {
                Some(h) => Some(profile_under(h)),
                None => None,
            }),
    {
        match home {
            Some(h) => Some(powershell_profile(h.as_str())),
            None => None,
        }
    }
}

/// What Windows decides.
#[derive(Debug, Clone, Copy)]
pub struct WindowsPlatform {
    pub executor: WindowsShellExecutor,
}

/// The places where Java installations are looked for.
pub open spec fn java_scan_paths_of(home: Option<Seq<char>>, local_app_data: Option<Seq<char>>) -> Seq<
    Seq<char>,
> {
    let fixed = seq![
        "C:\\Program Files\\Java"@,
        "C:\\Program Files (x86)\\Java"@,
        "C:\\Program Files\\Eclipse Adoptium"@,
        "C:\\Program Files\\Amazon Corretto"@,
        "C:\\Program Files\\Microsoft"@,
        "C:\\Program Files\\Zulu"@,
    ];
    let user = match home {
        Some(h) => seq![
            joined(h, ".jabba\\jdk"@),
            joined(h, "scoop\\apps\\openjdk"@),
            joined(h, "scoop\\apps\\temurin"@),
        ],
        None => Seq::empty(),
    };
    let local = match local_app_data {
        Some(l) => seq![joined(l, "Programs\\Eclipse Adoptium"@)],
        None => Seq::empty(),
    };
    fixed + user + local
}

/// The places where Node installations are looked for.
pub open spec fn node_scan_paths_of(home: Option<Seq<char>>) -> Seq<Seq<char>> {
    let fixed = seq!["C:\\Program Files\\nodejs"@];
    match home {
        Some(h) => fixed + seq![
            joined(h, "AppData\\Roaming\\nvm"@),
            joined(h, "AppData\\Roaming\\fnm\\node-versions"@),
            joined(h, "AppData\\Local\\fnm_multishells"@),
            joined(h, ".volta\\tools\\image\\node"@),
            joined(h, "scoop\\apps\\nodejs"@),
        ],
        None => fixed,
    }
}

/// Whether a line of `netstat` speaks of a listener on `port`: its second
/// column, the local address, ends in a colon and the port, and its fourth
/// column, the state, is `LISTENING`.
pub open spec fn is_listener_line(line: Seq<char>, port: u16) -> bool {
    let columns = words(line);
    columns.len() >= 4 && (":"@ + decimal(port as nat)).is_suffix_of(columns[1]) && columns[3]
        == "LISTENING"@
}

/// The process id in the fifth column of a line.
pub open spec fn pid_column(line: Seq<char>) -> Option<u32> {
    let columns = words(line);
    if columns.len() >= 5 {
        match unsigned_of(columns[4], u32::MAX as int) {
            Some(n) => Some(n as u32),
            None => None,
        }
    } else {
        None
    }
}

/// The process that a line of `netstat` names as the listener on `port`.
pub open spec fn listener_in_line(line: Seq<char>, port: u16) -> Option<u32> {
    if is_listener_line(line, port) {
        pid_column(line)
    } else {
        None
    }
}

/// The process that the first of the lines from index `from` on names as
/// the listener on `port`; a line that names none is passed over.
pub open spec fn listener_in_lines(all: Seq<Seq<char>>, port: u16, from: int) -> Option<u32>
    decreases all.len() - from,
{
    if from < 0 || from >= all.len() {
        None
    } else if listener_in_line(all[from], port) is Some {
        listener_in_line(all[from], port)
    } else {
        listener_in_lines(all, port, from + 1)
    }
}

/// The process that the output of `netstat` names as the listener on
/// `port`, if the run succeeded.
pub open spec fn netstat_lookup_of(output: (bool, Seq<char>), port: u16) -> Option<u32> {
    if output.0 {
        listener_in_lines(lines(output.1), port, 0)
    } else {
        None
    }
}

/// Whether the output of `tasklist` for one process id shows a process:
/// the run succeeded and wrote a quoted field first.
pub open spec fn task_listed(success: bool, stdout: Seq<char>) -> bool {
    success && "\""@.is_prefix_of(trim(stdout))
}

/// The name of a process in the output of `tasklist`: the first field of the
/// comma-separated output, without its quotes.
pub open spec fn task_name_of(stdout: Seq<char>) -> Seq<char> {
    crate::text::strip_both(split(trim(stdout), ',')[0], "\""@)
}

impl WindowsPlatform {
    /// The platform, which runs its commands in PowerShell.
    pub fn new() -> (r: WindowsPlatform)
        ensures
            r == (WindowsPlatform { executor: WindowsShellExecutor }),
    {
        WindowsPlatform { executor: WindowsShellExecutor }
    }

    /// The shell command that sets the variable `name` to `value` for the
    /// user.
    pub fn setx_command(&self, name: &str, value: &str) -> (r: String)
        ensures
            r@ == "setx "@ + name@ + " \""@ + value@ + "\""@,
    {
        crate::text::concat5("setx ", name, " \"", value, "\"")
    }

    /// The places where a Java installation is looked for where the
    /// environment names none.
    pub fn java_home_candidates(&self) -> (r: Vec<String>)
        ensures
            texts(r@) == seq![
                "C:\\Program Files\\Java"@,
                "C:\\Program Files (x86)\\Java"@,
                "C:\\Program Files\\Eclipse Adoptium"@,
                "C:\\Program Files\\Amazon Corretto"@,
            ],
    {
        let mut r: Vec<String> = Vec::new();
        proof {
            assert(texts(r@) =~= Seq::<Seq<char>>::empty());
        }
        push_text(&mut r, "C:\\Program Files\\Java".to_owned());
        push_text(&mut r, "C:\\Program Files (x86)\\Java".to_owned());
        push_text(&mut r, "C:\\Program Files\\Eclipse Adoptium".to_owned());
        push_text(&mut r, "C:\\Program Files\\Amazon Corretto".to_owned());
        proof {
            assert(texts(r@) =~= seq![
                "C:\\Program Files\\Java"@,
                "C:\\Program Files (x86)\\Java"@,
                "C:\\Program Files\\Eclipse Adoptium"@,
                "C:\\Program Files\\Amazon Corretto"@,
            ]);
        }
        r
    }

    /// The places where Java installations are looked for, given the home
    /// directory and what the environment names in `LOCALAPPDATA`.
    pub fn java_scan_paths(&self, home: &Option<String>, local_app_data: &Option<String>) -> (r:
        Vec<String>)
        ensures
            texts(r@) == java_scan_paths_of(opt_text(*home), opt_text(*local_app_data)),
    {
        let mut r: Vec<String> = Vec::new();
        proof {
            assert(texts(r@) =~= Seq::<Seq<char>>::empty());
        }
        push_text(&mut r, "C:\\Program Files\\Java".to_owned());
        push_text(&mut r, "C:\\Program Files (x86)\\Java".to_owned());
        push_text(&mut r, "C:\\Program Files\\Eclipse Adoptium".to_owned());
        push_text(&mut r, "C:\\Program Files\\Amazon Corretto".to_owned());
        push_text(&mut r, "C:\\Program Files\\Microsoft".to_owned());
        push_text(&mut r, "C:\\Program Files\\Zulu".to_owned());
        match home {
            Some(h) => {
                push_joined(&mut r, h.as_str(), ".jabba\\jdk");
                push_joined(&mut r, h.as_str(), "scoop\\apps\\openjdk");
                push_joined(&mut r, h.as_str(), "scoop\\apps\\temurin");
            },
            None => {},
        }
        match local_app_data {
            Some(l) => {
                push_joined(&mut r, l.as_str(), "Programs\\Eclipse Adoptium");
            },
            None => {},
        }
        proof {
            assert(texts(r@) =~= java_scan_paths_of(opt_text(*home), opt_text(*local_app_data)));
        }
        r
    }

    /// The PowerShell profile of the user.
    pub fn get_shell_config_file(&self, home: &Option<String>) -> (r: String)
        ensures
            r@ == (match opt_text(*home) {
                Some(h) => profile_under(h),
                None => "~\\Documents\\PowerShell\\Microsoft.PowerShell_profile.ps1"@,
            }),
    {
        match home {
            Some(h) => powershell_profile(h.as_str()),
            None => "~\\Documents\\PowerShell\\Microsoft.PowerShell_profile.ps1".to_owned(),
        }
    }

    /// The commands that open a terminal in `cwd`: the second is for where
    /// the first cannot be run.
    pub fn open_terminal(&self, cwd: &str) -> (r: (CommandLine, CommandLine))
        ensures
            r.0@ == ("wt"@, seq!["-d"@, cwd@]),
            r.1@ == ("cmd"@, seq!["/c"@, "start"@, "cmd"@, "/k"@, "cd"@, cwd@]),
    {
        let first = command2("wt", "-d".to_owned(), cwd.to_owned());
        let mut args: Vec<String> = Vec::new();
        proof {
            assert(texts(args@) =~= Seq::<Seq<char>>::empty());
        }
        push_text(&mut args, "/c".to_owned());
        push_text(&mut args, "start".to_owned());
        push_text(&mut args, "cmd".to_owned());
        push_text(&mut args, "/k".to_owned());
        push_text(&mut args, "cd".to_owned());
        push_text(&mut args, cwd.to_owned());
        proof {
            assert(texts(args@) =~= seq!["/c"@, "start"@, "cmd"@, "/k"@, "cd"@, cwd@]);
        }
        (first, CommandLine { program: "cmd".to_owned(), args })
    }

    /// The command that lists the connections of TCP with the processes that
    /// own them.
    pub fn netstat_command(&self) -> (r: CommandLine)
        ensures
            r@ == ("netstat"@, seq!["-ano"@, "-p"@, "TCP"@]),
    {
        command3("netstat", "-ano".to_owned(), "-p".to_owned(), "TCP".to_owned())
    }

    /// The process that a line of `netstat` names as the listener on the
    /// port whose text, after a colon, is `port_text`.
    fn line_listener(line: &Vec<char>, port: u16, port_text: &str) -> (r: Option<u32>)
        requires
            port_text@ == ":"@ + decimal(port as nat),
        ensures
            r == listener_in_line(line@, port),
    {
        let columns = split_words(line);
        let listening = to_chars("LISTENING");
        proof {
            assert(views(columns@).len() == columns@.len());
        }
        if columns.len() < 4 {
            return None;
        }
        proof {
            assert(views(columns@)[1] == columns@[1]@);
            assert(views(columns@)[3] == columns@[3]@);
        }
        if !(ends_with(&columns[1], port_text) && same(&columns[3], &listening)) {
            return None;
        }
        if columns.len() < 5 {
            return None;
        }
        proof {
            assert(views(columns@)[4] == columns@[4]@);
        }
        match crate::number::parse_unsigned(&columns[4], 0xffff_ffff) {
            Some(n) => Some(n as u32),
            None => None,
        }
    }

    /// The process that listens on `port` according to the output of
    /// `netstat`: the one that the first line names whose local address ends
    /// in the port, whose state is `LISTENING` and whose last column is a
    /// process id.
    pub fn netstat_lookup(&self, output: &ProcessOutput, port: u16) -> (r: Option<u32>)
        ensures
            r == netstat_lookup_of((output.success, output.stdout@), port),
    {
        if !output.success {
            return None;
        }
        let number = number_text(port as u32);
        let port_text = concat2(":", number.as_str());
        let chars = to_chars(output.stdout.as_str());
        let all = split_lines(&chars);
        let mut i: usize = 0;
        proof {
            assert(views(all@).len() == all@.len());
        }
        while i < all.len()
            invariant
                i <= all.len(),
                output.success,
                port_text@ == ":"@ + decimal(port as nat),
                views(all@) == lines(output.stdout@),
                views(all@).len() == all@.len(),
                listener_in_lines(lines(output.stdout@), port, 0) == listener_in_lines(
                    lines(output.stdout@),
                    port,
                    i as int,
                ),
            decreases all.len() - i,
        {
            proof {
                assert(views(all@)[i as int] == all@[i as int]@);
            }
            let found = Self::line_listener(&all[i], port, port_text.as_str());
            if found.is_some() {
                return found;
            }
            i += 1;
        }
        None
    }

    /// The command that asks for the name of the process `pid`.
    pub fn tasklist_command(&self, pid: u32) -> (r: CommandLine)
        ensures
            r@ == (
                "tasklist"@,
                seq!["/FI"@, "PID eq "@ + decimal(pid as nat), "/FO"@, "CSV"@, "/NH"@],
            ),
    {
        let number = number_text(pid);
        let mut args: Vec<String> = Vec::new();
        proof {
            assert(texts(args@) =~= Seq::<Seq<char>>::empty());
        }
        push_text(&mut args, "/FI".to_owned());
        push_text(&mut args, concat2("PID eq ", number.as_str()));
        push_text(&mut args, "/FO".to_owned());
        push_text(&mut args, "CSV".to_owned());
        push_text(&mut args, "/NH".to_owned());
        proof {
            assert(texts(args@) =~= seq![
                "/FI"@,
                "PID eq "@ + decimal(pid as nat),
                "/FO"@,
                "CSV"@,
                "/NH"@,
            ]);
        }
        CommandLine { program: "tasklist".to_owned(), args }
    }

    /// The name of a process in the output of `tasklist`.
    pub fn task_name(&self, stdout: &str) -> (r: String)
        ensures
            r@ == task_name_of(stdout@),
    {
        let chars = to_chars(stdout);
        let t = trimmed(&chars);
        let field = crate::text::first_piece(&t, ',');
        let name = crate::text::without_both(&field, "\"");
        to_string(&name)
    }

    /// The directory to use where the platform tells none: the application's
    /// directory under `base`, or else the public one for `kind`.
    pub fn fallback_dir(base: &Option<String>, under: &str, public: &str) -> (r: String)
        ensures
            r@ == (match opt_text(*base) {
                Some(b) => joined(b, under@),
                None => public@,
            }),
    {
        match base {
            Some(b) => join(b.as_str(), under),
            None => public.to_owned(),
        }
    }
}

impl PlatformOps for WindowsPlatform {
    fn get_java_scan_paths(&self, home: &Option<String>) -> (r: Vec<String>)
        ensures
            texts(r@) == java_scan_paths_of(opt_text(*home), None),
    {
        self.java_scan_paths(home, &None)
    }

    fn get_node_scan_paths(&self, home: &Option<String>) -> (r: Vec<String>)
        ensures
            texts(r@) == node_scan_paths_of(opt_text(*home)),
    {
        let mut r: Vec<String> = Vec::new();
        proof {
            assert(texts(r@) =~= Seq::<Seq<char>>::empty());
        }
        push_text(&mut r, "C:\\Program Files\\nodejs".to_owned());
        match home {
            Some(h) => {
                push_joined(&mut r, h.as_str(), "AppData\\Roaming\\nvm");
                push_joined(&mut r, h.as_str(), "AppData\\Roaming\\fnm\\node-versions");
                push_joined(&mut r, h.as_str(), "AppData\\Local\\fnm_multishells");
                push_joined(&mut r, h.as_str(), ".volta\\tools\\image\\node");
                push_joined(&mut r, h.as_str(), "scoop\\apps\\nodejs");
            },
            None => {},
        }
        proof {
            assert(texts(r@) =~= node_scan_paths_of(opt_text(*home)));
        }
        r
    }

    fn open_browser(&self, url: &str) -> (r: CommandLine)
        ensures
            r@ == ("cmd"@, seq!["/c"@, "start"@, ""@, url@]),
    {
        let mut args: Vec<String> = Vec::new();
        proof {
            assert(texts(args@) =~= Seq::<Seq<char>>::empty());
        }
        push_text(&mut args, "/c".to_owned());
        push_text(&mut args, "start".to_owned());
        push_text(&mut args, "".to_owned());
        push_text(&mut args, url.to_owned());
        proof {
            assert(texts(args@) =~= seq!["/c"@, "start"@, ""@, url@]);
        }
        CommandLine { program: "cmd".to_owned(), args }
    }

    fn open_file_manager(&self, path: &str) -> (r: CommandLine)
        ensures
            r@ == ("explorer"@, seq![path@]),
    {
        command1("explorer", path.to_owned())
    }

    fn terminate_command(&self, pid: u32) -> (r: CommandLine)
        ensures
            r@ == ("taskkill"@, seq!["/PID"@, decimal(pid as nat)]),
    {
        command2("taskkill", "/PID".to_owned(), number_text(pid))
    }

    fn force_kill_command(&self, pid: u32) -> (r: CommandLine)
        ensures
            r@ == ("taskkill"@, seq!["/F"@, "/PID"@, decimal(pid as nat)]),
    {
        command3("taskkill", "/F".to_owned(), "/PID".to_owned(), number_text(pid))
    }

    fn process_check_command(&self, pid: u32) -> (r: CommandLine)
        ensures
            r@ == (
                "tasklist"@,
                seq!["/FI"@, "PID eq "@ + decimal(pid as nat), "/FO"@, "CSV"@, "/NH"@],
            ),
    {
        self.tasklist_command(pid)
    }

    fn process_runs(&self, output: &ProcessOutput) -> (r: bool)
        ensures
            r == task_listed(output.success, output.stdout@),
    {
        if !output.success {
            return false;
        }
        let chars = to_chars(output.stdout.as_str());
        let t = trimmed(&chars);
        begins_with(&t, "\"")
    }

    fn get_config_dir(&self, app_data: &Option<String>) -> (r: String)
        ensures
            crate::platform::common::is_app_dir(r@) || r@ == (match opt_text(*app_data) {
                Some(b) => joined(b, "aem-env-manager"@),
                None => "C:\\Users\\Public\\aem-env-manager\\config"@,
            }),
    {
        match get_app_config_dir() {
            Some(dir) => dir,
            None => Self::fallback_dir(
                app_data,
                "aem-env-manager",
                "C:\\Users\\Public\\aem-env-manager\\config",
            ),
        }
    }

    fn get_data_dir(&self, local_app_data: &Option<String>) -> (r: String)
        ensures
            crate::platform::common::is_app_dir(r@) || r@ == (match opt_text(*local_app_data) {
                Some(b) => joined(b, "aem-env-manager"@),
                None => "C:\\Users\\Public\\aem-env-manager\\data"@,
            }),
    {
        match get_app_data_dir() {
            Some(dir) => dir,
            None => Self::fallback_dir(
                local_app_data,
                "aem-env-manager",
                "C:\\Users\\Public\\aem-env-manager\\data",
            ),
        }
    }

    fn get_cache_dir(&self, local_app_data: &Option<String>) -> (r: String)
        ensures
            crate::platform::common::is_app_dir(r@) || r@ == (match opt_text(*local_app_data) {
                Some(b) => joined(b, "aem-env-manager\\cache"@),
                None => "C:\\Users\\Public\\aem-env-manager\\cache"@,
            }),
    {
        match get_app_cache_dir() {
            Some(dir) => dir,
            None => Self::fallback_dir(
                local_app_data,
                "aem-env-manager\\cache",
                "C:\\Users\\Public\\aem-env-manager\\cache",
            ),
        }
    }
}

/// The one value of the platform.
pub open spec fn windows_platform() -> WindowsPlatform {
    WindowsPlatform { executor: WindowsShellExecutor }
}

/// The platform's decisions.
pub fn get_platform() -> (r: WindowsPlatform)
    ensures
        r == (WindowsPlatform { executor: WindowsShellExecutor }),
{
    WindowsPlatform::new()
}


/// How a Node version manager writes its list of versions.
#[derive(Debug, Clone, Copy, PartialEq, Eq, Structural)]
pub enum ListingStyle {
    /// One version to a line, the one in use after a star.
    Fnm,
    /// Each version after `node@`.
    Volta,
    /// One version to a line, the one in use after a star, with remarks.
    NvmWindows,
}

/// The version that a line of a list names, if it names one.
pub open spec fn version_in_line(style: ListingStyle, line: Seq<char>) -> Option<Seq<char>> {
    let t = trim(line);
    match style {
        ListingStyle::Fnm => if "v"@.is_prefix_of(t) || "* v"@.is_prefix_of(t) {
            Some(strip_leading(t, "* "@))
        } else {
            None
        },
        ListingStyle::Volta => if contains(t, "node@"@) && split(t, '@').len() > 1 {
            first_word(split(t, '@')[1])
        } else {
            None
        },
        ListingStyle::NvmWindows => {
            let bare = trim(strip_leading(t, "*"@));
            if bare.len() > 0 && (bare[0] == 'v' || is_digit(bare[0])) {
                first_word(bare)
            } else {
                None
            }
        },
    }
}

/// The versions that the lines from index `from` on name.
pub open spec fn versions_in_lines(style: ListingStyle, all: Seq<Seq<char>>, from: int) -> Seq<
    Seq<char>,
>
    decreases all.len() - from,
{
    if from < 0 || from >= all.len() {
        Seq::empty()
    } else {
        match version_in_line(style, all[from]) {
            Some(version) => seq![version] + versions_in_lines(style, all, from + 1),
            None => versions_in_lines(style, all, from + 1),
        }
    }
}

/// The version that a line of a list names.
pub fn line_version(style: ListingStyle, line: &Vec<char>) -> (r: Option<Vec<char>>)
    ensures
        opt_chars(r) == version_in_line(style, line@),
{
    let t = trimmed(line);
    match style {
        ListingStyle::Fnm => {
            if begins_with(&t, "v") || begins_with(&t, "* v") {
                Some(without_leading(&t, "* "))
            } else {
                None
            }
        },
        ListingStyle::Volta => {
            if includes(&t, "node@") {
                let pieces = split_on(&t, '@');
                proof {
                    assert(views(pieces@).len() == pieces@.len());
                }
                if pieces.len() > 1 {
                    proof {
                        assert(views(pieces@)[1] == pieces@[1]@);
                    }
                    leading_word(&pieces[1])
                } else {
                    None
                }
            } else {
                None
            }
        },
        ListingStyle::NvmWindows => {
            let unstarred = without_leading(&t, "*");
            let bare = trimmed(&unstarred);
            if bare.len() > 0 && (bare[0] == 'v' || digit(bare[0])) {
                leading_word(&bare)
            } else {
                None
            }
        },
    }
}

/// The versions that the output of a list command names.
pub fn listed(style: ListingStyle, output: &str) -> (r: Vec<String>)
    ensures
        texts(r@) == versions_in_lines(style, lines(output@), 0),
{
    let chars = to_chars(output);
    let all = split_lines(&chars);
    let mut out: Vec<String> = Vec::new();
    let mut i: usize = 0;
    proof {
        assert(views(all@).len() == all@.len());
        assert(texts(out@) + versions_in_lines(style, lines(output@), 0) =~= versions_in_lines(
            style,
            lines(output@),
            0,
        ));
    }
    while i < all.len()
        invariant
            i <= all.len(),
            views(all@) == lines(output@),
            views(all@).len() == all@.len(),
            versions_in_lines(style, lines(output@), 0) == texts(out@) + versions_in_lines(
                style,
                lines(output@),
                i as int,
            ),
        decreases all.len() - i,
    {
        proof {
            assert(views(all@)[i as int] == all@[i as int]@);
        }
        match line_version(style, &all[i]) {
            Some(version) => {
                let ghost before = texts(out@);
                push_text(&mut out, to_string(&version));
                proof {
                    let rest = versions_in_lines(style, lines(output@), i + 1);
                    assert(before + (seq![version@] + rest) =~= before.push(version@) + rest);
                }
            },
            None => {},
        }
        i += 1;
    }
    proof {
        assert(texts(out@) + Seq::<Seq<char>>::empty() =~= texts(out@));
    }
    out
}

/// Jabba, which manages Java versions.
#[derive(Debug, Clone)]
pub struct JabbaManager {
    pub executor: WindowsShellExecutor,
    pub jabba_dir: String,
}

impl JabbaManager {
    /// The manager in the directory that the environment names in
    /// `JABBA_HOME`, or in its directory under `home`.
    pub fn new(jabba_home: Option<String>, home: &Option<String>) -> (r: JabbaManager)
        ensures
            r.jabba_dir@ == manager_dir_of(
                opt_text(jabba_home),
                opt_text(*home),
                ".jabba"@,
                "~/.jabba"@,
            ),
    {
        JabbaManager {
            executor: WindowsShellExecutor,
            jabba_dir: manager_dir(jabba_home, home, ".jabba", "~/.jabba"),
        }
    }

    /// The paths that exist where the manager is installed.
    pub fn install_markers(&self) -> (r: Vec<String>)
        ensures
            texts(r@) == seq![self.jabba_dir@, joined(self.jabba_dir@, "bin/jabba.exe"@)],
    {
        install_markers(self.jabba_dir.as_str(), "bin/jabba.exe")
    }

    /// The shell command that runs the manager with `arguments`.
    pub fn run(&self, arguments: &str) -> (r: String)
        ensures
            r@ == "& '"@ + joined(self.jabba_dir@, "bin/jabba.exe"@) + "' "@ + arguments@,
    {
        let program = join(self.jabba_dir.as_str(), "bin/jabba.exe");
        concat4("& '", program.as_str(), "' ", arguments)
    }
}

impl VersionManagerOps for JabbaManager {
    fn not_installed(&self) -> (r: String)
        ensures
            r@ == "Jabba is not installed"@,
    {
        "Jabba is not installed".to_owned()
    }

    fn list_command(&self) -> (r: String)
        ensures
            r@ == "& '"@ + joined(self.jabba_dir@, "bin/jabba.exe"@) + "' "@ + "ls"@,
    {
        self.run("ls")
    }

    fn listed_versions(&self, output: &str) -> (r: Vec<String>)
        ensures
            texts(r@) == trimmed_lines(output@),
    {
        lines_trimmed(output)
    }

    fn switch_command(&self, version: &str) -> (r: String)
        ensures
            r@ == "& '"@ + joined(self.jabba_dir@, "bin/jabba.exe"@) + "' "@ + ("use "@
                + version@),
    {
        let arguments = concat2("use ", version);
        self.run(arguments.as_str())
    }

    fn current_command(&self) -> (r: String)
        ensures
            r@ == "& '"@ + joined(self.jabba_dir@, "bin/jabba.exe"@) + "' "@ + "current"@,
    {
        self.run("current")
    }

    fn current_version(&self, outcome: &Result<String, String>) -> (r: Option<String>)
        ensures
            opt_text(r) == answered_version(text_result(*outcome)),
    {
        version_answer(outcome)
    }
}

/// fnm, which manages Node versions.
#[derive(Debug, Clone, Copy)]
pub struct FnmManager {
    pub executor: WindowsShellExecutor,
}

impl FnmManager {
    /// The manager, which is run in PowerShell.
    pub fn new() -> (r: FnmManager)
        ensures
            r == (FnmManager { executor: WindowsShellExecutor }),
    {
        FnmManager { executor: WindowsShellExecutor }
    }

    /// The shell command that succeeds where the manager is installed.
    pub fn installed_command(&self) -> (r: String)
        ensures
            r@ == "fnm --version"@,
    {
        "fnm --version".to_owned()
    }
}

impl VersionManagerOps for FnmManager {
    fn not_installed(&self) -> (r: String)
        ensures
            r@ == "fnm is not installed"@,
    {
        "fnm is not installed".to_owned()
    }

    fn list_command(&self) -> (r: String)
        ensures
            r@ == "fnm ls"@,
    {
        "fnm ls".to_owned()
    }

    fn listed_versions(&self, output: &str) -> (r: Vec<String>)
        ensures
            texts(r@) == versions_in_lines(ListingStyle::Fnm, lines(output@), 0),
    {
        listed(ListingStyle::Fnm, output)
    }

    fn switch_command(&self, version: &str) -> (r: String)
        ensures
            r@ == "fnm use "@ + version@,
    {
        concat2("fnm use ", version)
    }

    fn current_command(&self) -> (r: String)
        ensures
            r@ == "fnm current"@,
    {
        "fnm current".to_owned()
    }

    fn current_version(&self, outcome: &Result<String, String>) -> (r: Option<String>)
        ensures
            opt_text(r) == answered_own_version(text_result(*outcome), false),
    {
        own_version_answer(outcome, false)
    }
}

/// `path` with every backslash turned into a slash.
pub open spec fn slashed(path: Seq<char>) -> Seq<char> {
    path.map_values(|c: char| if c == '\\' { '/' } else { c })
}

/// Whether a part of a path names a Node version.
pub open spec fn is_version_part(part: Seq<char>) -> bool {
    "node-v"@.is_prefix_of(part) || "v"@.is_prefix_of(part)
}

/// The first part from index `from` on that names a Node version, without
/// the leading `node-`.
pub open spec fn version_in_parts(parts: Seq<Seq<char>>, from: int) -> Option<Seq<char>>
    decreases parts.len() - from,
{
    if from < 0 || from >= parts.len() {
        None
    } else if is_version_part(parts[from]) {
        Some(strip_leading(parts[from], "node-"@))
    } else {
        version_in_parts(parts, from + 1)
    }
}

/// The version that the path of the `node` program names: the first of its
/// parts, between slashes or backslashes, that begins like a version.
pub open spec fn version_in_path(outcome: Result<Seq<char>, Seq<char>>) -> Option<Seq<char>> {
    match outcome {
        Ok(output) => version_in_parts(split(slashed(trim(output)), '/'), 0),
        Err(_) => None,
    }
}

/// Volta, which manages Node versions.
#[derive(Debug, Clone, Copy)]
pub struct VoltaManager {
    pub executor: WindowsShellExecutor,
}

impl VoltaManager {
    /// The manager, which is run in PowerShell.
    pub fn new() -> (r: VoltaManager)
        ensures
            r == (VoltaManager { executor: WindowsShellExecutor }),
    {
        VoltaManager { executor: WindowsShellExecutor }
    }

    /// The shell command that succeeds where the manager is installed.
    pub fn installed_command(&self) -> (r: String)
        ensures
            r@ == "volta --version"@,
    {
        "volta --version".to_owned()
    }
}

impl VersionManagerOps for VoltaManager {
    fn not_installed(&self) -> (r: String)
        ensures
            r@ == "Volta is not installed"@,
    {
        "Volta is not installed".to_owned()
    }

    fn list_command(&self) -> (r: String)
        ensures
            r@ == "volta list node"@,
    {
        "volta list node".to_owned()
    }

    fn listed_versions(&self, output: &str) -> (r: Vec<String>)
        ensures
            texts(r@) == versions_in_lines(ListingStyle::Volta, lines(output@), 0),
    {
        listed(ListingStyle::Volta, output)
    }

    fn switch_command(&self, version: &str) -> (r: String)
        ensures
            r@ == "volta pin node@"@ + version@,
    {
        concat2("volta pin node@", version)
    }

    fn current_command(&self) -> (r: String)
        ensures
            r@ == "volta which node"@,
    {
        "volta which node".to_owned()
    }

    fn current_version(&self, outcome: &Result<String, String>) -> (r: Option<String>)
        ensures
            opt_text(r) == version_in_path(text_result(*outcome)),
    {
        let output = match outcome {
            Ok(output) => output,
            Err(_) => {
                return None;
            },
        };
        let chars = to_chars(output.as_str());
        let path = trimmed(&chars);
        let mut plain: Vec<char> = Vec::new();
        let mut k: usize = 0;
        while k < path.len()
            invariant
                k <= path.len(),
                plain@ == slashed(path@.take(k as int)),
            decreases path.len() - k,
        {
            let c = path[k];
            plain.push(if c == '\\' { '/' } else { c });
            proof {
                assert(slashed(path@.take(k as int)).push(if c == '\\' { '/' } else { c })
                    =~= slashed(path@.take(k + 1)));
            }
            k += 1;
        }
        proof {
            assert(path@.take(path@.len() as int) =~= path@);
        }
        let parts = split_on(&plain, '/');
        let mut i: usize = 0;
        proof {
            assert(views(parts@).len() == parts@.len());
        }
        while i < parts.len()
            invariant
                i <= parts.len(),
                views(parts@).len() == parts@.len(),
                views(parts@) == split(slashed(trim(output@)), '/'),
                text_result(*outcome) == Ok::<Seq<char>, Seq<char>>(output@),
                version_in_parts(views(parts@), 0) == version_in_parts(views(parts@), i as int),
            decreases parts.len() - i,
        {
            proof {
                assert(views(parts@)[i as int] == parts@[i as int]@);
            }
            if begins_with(&parts[i], "node-v") || begins_with(&parts[i], "v") {
                let version = without_leading(&parts[i], "node-");
                return Some(to_string(&version));
            }
            i += 1;
        }
        None
    }
}

/// What `nvm current` of nvm-windows answers: the answer without the white
/// space around it, unless it is empty or says that no version is in use.
pub open spec fn nvm_windows_version(outcome: Result<Seq<char>, Seq<char>>) -> Option<Seq<char>> {
    match outcome {
        Ok(output) => if trim(output).len() == 0 || contains(trim(output), "No current"@) {
            None
        } else {
            Some(trim(output))
        },
        Err(_) => None,
    }
}

/// nvm-windows, which manages Node versions.
#[derive(Debug, Clone)]
pub struct NvmWindowsManager {
    pub executor: WindowsShellExecutor,
    pub nvm_dir: String,
}

impl NvmWindowsManager {
    /// The manager in the directory that the environment names in
    /// `NVM_HOME`, or in its directory under `home`.
    pub fn new(nvm_home: Option<String>, home: &Option<String>) -> (r: NvmWindowsManager)
        ensures
            r.nvm_dir@ == manager_dir_of(
                opt_text(nvm_home),
                opt_text(*home),
                "AppData\\Roaming\\nvm"@,
                "C:\\nvm"@,
            ),
    {
        NvmWindowsManager {
            executor: WindowsShellExecutor,
            nvm_dir: manager_dir(nvm_home, home, "AppData\\Roaming\\nvm", "C:\\nvm"),
        }
    }

    /// The shell command that succeeds where the manager is installed, if
    /// its directory exists too.
    pub fn installed_command(&self) -> (r: String)
        ensures
            r@ == "nvm version"@,
    {
        "nvm version".to_owned()
    }
}

impl VersionManagerOps for NvmWindowsManager {
    fn not_installed(&self) -> (r: String)
        ensures
            r@ == "nvm-windows is not installed"@,
    {
        "nvm-windows is not installed".to_owned()
    }

    fn list_command(&self) -> (r: String)
        ensures
            r@ == "nvm list"@,
    {
        "nvm list".to_owned()
    }

    fn listed_versions(&self, output: &str) -> (r: Vec<String>)
        ensures
            texts(r@) == versions_in_lines(ListingStyle::NvmWindows, lines(output@), 0),
    {
        listed(ListingStyle::NvmWindows, output)
    }

    fn switch_command(&self, version: &str) -> (r: String)
        ensures
            r@ == "nvm use "@ + version@,
    {
        concat2("nvm use ", version)
    }

    fn current_command(&self) -> (r: String)
        ensures
            r@ == "nvm current"@,
    {
        "nvm current".to_owned()
    }

    fn current_version(&self, outcome: &Result<String, String>) -> (r: Option<String>)
        ensures
            opt_text(r) == nvm_windows_version(text_result(*outcome)),
    {
        match outcome {
            Ok(output) => {
                let chars = to_chars(output.as_str());
                let version = trimmed(&chars);
                if version.len() == 0 || includes(&version, "No current") {
                    None
                } else {
                    Some(to_string(&version))
                }
            },
            Err(_) => None,
        }
    }
}

} // verus!
