//! What the platforms have in common: the application's directories, and the
//! values that pass between this library and the commands of the platform.

use vstd::prelude::*;
use crate::bindings::{cache_dir, config_dir, data_dir};
use crate::instance::{opt_text, texts};
use crate::paths::{join, joined, joined_opt};
use crate::text::{append_str, to_chars, to_string};

verus! {

/// The name of the application's directory under each base directory.
pub const APP_DIR_NAME: &'static str = "aem-env-manager";

/// The application's directory under `base`, where there is a base.
pub fn app_dir_in(base: &Option<String>) -> (r: Option<String>)
    ensures
        opt_text(r) == joined_opt(opt_text(*base), APP_DIR_NAME@),
{
    match base {
        Some(b) => Some(join(b.as_str(), APP_DIR_NAME)),
        None => None,
    }
}

/// A path is the application's directory under some base.
pub open spec fn is_app_dir(path: Seq<char>) -> bool {
    exists|base: Seq<char>| path == joined(base, APP_DIR_NAME@)
}

/// The directory of the application's data: the application's directory
/// under the platform's data directory, where the platform tells one.
pub fn get_app_data_dir() -> (r: Option<String>)
    ensures
        r matches Some(path) ==> is_app_dir(path@),
{
    let base = data_dir();
    let r = app_dir_in(&base);
    proof {
        if let Some(b) = base {
            assert(r->0@ == joined(b@, APP_DIR_NAME@));
        }
    }
    r
}

/// The directory of the application's settings: the application's directory
/// under the platform's settings directory, where the platform tells one.
pub fn get_app_config_dir() -> (r: Option<String>)
    ensures
        r matches Some(path) ==> is_app_dir(path@),
{
    let base = config_dir();
    let r = app_dir_in(&base);
    proof {
        if let Some(b) = base {
            assert(r->0@ == joined(b@, APP_DIR_NAME@));
        }
    }
    r
}

/// The directory of the application's caches: the application's directory
/// under the platform's cache directory, where the platform tells one.
pub fn get_app_cache_dir() -> (r: Option<String>)
    ensures
        r matches Some(path) ==> is_app_dir(path@),
{
    let base = cache_dir();
    let r = app_dir_in(&base);
    proof {
        if let Some(b) = base {
            assert(r->0@ == joined(b@, APP_DIR_NAME@));
        }
    }
    r
}

/// The directories that the application keeps.
#[derive(Debug, Clone)]
pub struct AppDirectories {
    pub config: String,
    pub data: String,
    pub cache: String,
    pub profiles: String,
    pub backups: String,
    pub logs: String,
    pub licenses: String,
}

/// The mathematical content of an `AppDirectories`.
pub struct AppDirectoriesView {
    pub config: Seq<char>,
    pub data: Seq<char>,
    pub cache: Seq<char>,
    pub profiles: Seq<char>,
    pub backups: Seq<char>,
    pub logs: Seq<char>,
    pub licenses: Seq<char>,
}

impl View for AppDirectories {
    type V = AppDirectoriesView;

    open spec fn view(&self) -> AppDirectoriesView {
        AppDirectoriesView {
            config: self.config@,
            data: self.data@,
            cache: self.cache@,
            profiles: self.profiles@,
            backups: self.backups@,
            logs: self.logs@,
            licenses: self.licenses@,
        }
    }
}

/// The directories that the application keeps under the given three.
pub open spec fn directories_under(
    config: Seq<char>,
    data: Seq<char>,
    cache: Seq<char>,
) -> AppDirectoriesView {
    AppDirectoriesView {
        config,
        data,
        cache,
        profiles: joined(data, "profiles"@),
        backups: joined(data, "backups"@),
        logs: joined(data, "logs"@),
        licenses: joined(data, "licenses"@),
    }
}

/// The application's directories, or which of the three main ones is not
/// known: the settings directory is asked for first, then that of the data,
/// then that of the caches.
pub open spec fn app_directories_of(
    config: Option<Seq<char>>,
    data: Option<Seq<char>>,
    cache: Option<Seq<char>>,
) -> Result<AppDirectoriesView, Seq<char>> {
    if config is None {
        Err("Failed to get config directory"@)
    } else if data is None {
        Err("Failed to get data directory"@)
    } else if cache is None {
        Err("Failed to get cache directory"@)
    } else {
        Ok(directories_under(config->0, data->0, cache->0))
    }
}

/// The view of a result that holds directories or a message.
pub open spec fn directories_view(r: Result<AppDirectories, String>) -> Result<
    AppDirectoriesView,
    Seq<char>,
> {
    match r {
        Ok(d) => Ok(d@),
        Err(e) => Err(e@),
    }
}

/// The application's directories, given its three main ones.
pub fn app_directories(config: Option<String>, data: Option<String>, cache: Option<String>) -> (r:
    Result<AppDirectories, String>)
    ensures
        directories_view(r) == app_directories_of(
            opt_text(config),
            opt_text(data),
            opt_text(cache),
        ),
{
    let config = match config {
        Some(c) => c,
        None => {
            return Err("Failed to get config directory".to_owned());
        },
    };
    let data = match data {
        Some(d) => d,
        None => {
            return Err("Failed to get data directory".to_owned());
        },
    };
    let cache = match cache {
        Some(c) => c,
        None => {
            return Err("Failed to get cache directory".to_owned());
        },
    };
    let profiles = join(data.as_str(), "profiles");
    let backups = join(data.as_str(), "backups");
    let logs = join(data.as_str(), "logs");
    let licenses = join(data.as_str(), "licenses");
    Ok(AppDirectories { config, data, cache, profiles, backups, logs, licenses })
}

/// The application's directories on this machine, for the caller to create
/// in the order of `to_create`. Fails where the platform does not tell one
/// of the three main directories.
pub fn init_app_directories() -> (r: Result<AppDirectories, String>)
    ensures
        match r {
            Ok(d) => is_app_dir(d.config@) && is_app_dir(d.data@) && is_app_dir(d.cache@) && d@
                == directories_under(d.config@, d.data@, d.cache@),
            Err(e) => e@ == "Failed to get config directory"@ || e@
                == "Failed to get data directory"@ || e@ == "Failed to get cache directory"@,
        },
{
    let config = get_app_config_dir();
    let data = get_app_data_dir();
    let cache = get_app_cache_dir();
    app_directories(config, data, cache)
}

impl AppDirectories {
    /// The path of the main settings file.
    pub fn config_file(&self) -> (r: String)
        ensures
            r@ == joined(self.config@, "config.yaml"@),
    {
        join(self.config.as_str(), "config.yaml")
    }

    /// The name of the file of the profile `profile_id`.
    pub open spec fn profile_file_name(profile_id: Seq<char>) -> Seq<char> {
        profile_id + ".yaml"@
    }

    /// The path of the file of the profile `profile_id`.
    pub fn profile_file(&self, profile_id: &str) -> (r: String)
        ensures
            r@ == joined(self.profiles@, Self::profile_file_name(profile_id@)),
    {
        let mut name = to_chars(profile_id);
        append_str(&mut name, ".yaml");
        let file = to_string(&name);
        join(self.profiles.as_str(), file.as_str())
    }

    /// Whether this is the application's first run: it is where the main
    /// settings file, of which the caller says whether it exists, does not.
    pub fn is_first_run(&self, config_file_exists: bool) -> (r: bool)
        ensures
            r == !config_file_exists,
    {
        !config_file_exists
    }

    /// The directories in the order in which they are to be created.
    pub fn to_create(&self) -> (r: Vec<String>)
        ensures
            texts(r@) == seq![
                self.config@,
                self.data@,
                self.cache@,
                self.profiles@,
                self.backups@,
                self.logs@,
                self.licenses@,
            ],
    {
        let mut r: Vec<String> = Vec::new();
        r.push(self.config.clone());
        r.push(self.data.clone());
        r.push(self.cache.clone());
        r.push(self.profiles.clone());
        r.push(self.backups.clone());
        r.push(self.logs.clone());
        r.push(self.licenses.clone());
        proof {
            assert(texts(r@) =~= seq![
                self.config@,
                self.data@,
                self.cache@,
                self.profiles@,
                self.backups@,
                self.logs@,
                self.licenses@,
            ]);
        }
        r
    }
}

/// A program to run, with its arguments.
#[derive(Debug, Clone)]
pub struct CommandLine {
    pub program: String,
    pub args: Vec<String>,
}

impl View for CommandLine {
    type V = (Seq<char>, Seq<Seq<char>>);

    open spec fn view(&self) -> (Seq<char>, Seq<Seq<char>>) {
        (self.program@, texts(self.args@))
    }
}

/// What a program that ran has left: whether it ended in success, and what
/// it wrote.
#[derive(Debug, Clone)]
pub struct ProcessOutput {
    pub success: bool,
    pub stdout: String,
    pub stderr: String,
}

/// The view of a result that holds a text either way.
pub open spec fn text_result(r: Result<String, String>) -> Result<Seq<char>, Seq<char>> {
    match r {
        Ok(s) => Ok(s@),
        Err(e) => Err(e@),
    }
}

/// What a command run in a shell gives: what it wrote to its output where it
/// ended in success, and what it wrote to its error output where it did not.
pub fn shell_result(output: ProcessOutput) -> (r: Result<String, String>)
    ensures
        text_result(r) == (if output.success {
            Ok::<Seq<char>, Seq<char>>(output.stdout@)
        } else {
            Err::<Seq<char>, Seq<char>>(output.stderr@)
        }),
{
    if output.success {
        Ok(output.stdout)
    } else {
        Err(output.stderr)
    }
}


/// How a platform runs a command in its shell.
pub trait ShellExecutor {
    /// The program and arguments that run `command` in the shell.
    fn shell_command(&self, command: &str) -> CommandLine;

    /// The shell's settings file under the home directory, where the shell
    /// is one that is known and there is a home directory.
    fn get_shell_config_path(&self, home: &Option<String>) -> Option<String>;
}

/// How a version manager is asked, and how its answers read.
pub trait VersionManagerOps {
    /// The message that says that the manager is not installed.
    fn not_installed(&self) -> String;

    /// The shell command that lists the installed versions.
    fn list_command(&self) -> String;

    /// The versions that the output of the list command names.
    fn listed_versions(&self, output: &str) -> Vec<String>;

    /// The shell command that switches to `version`.
    fn switch_command(&self, version: &str) -> String;

    /// The shell command that asks for the version in use.
    fn current_command(&self) -> String;

    /// The version in use that the outcome of the current command names.
    fn current_version(&self, outcome: &Result<String, String>) -> Option<String>;
}

/// What a platform decides: its directories, the lines it writes to the
/// shell's settings, and the commands it runs.
pub trait PlatformOps {
    /// The places where Java installations are looked for, before those that
    /// do not exist are left out.
    fn get_java_scan_paths(&self, home: &Option<String>) -> Vec<String>;

    /// The places where Node installations are looked for, before those that
    /// do not exist are left out.
    fn get_node_scan_paths(&self, home: &Option<String>) -> Vec<String>;

    /// The command that opens `url` in the browser.
    fn open_browser(&self, url: &str) -> CommandLine;

    /// The command that opens `path` in the file manager.
    fn open_file_manager(&self, path: &str) -> CommandLine;

    /// The command that asks a process to end.
    fn terminate_command(&self, pid: u32) -> CommandLine;

    /// The command that ends a process by force.
    fn force_kill_command(&self, pid: u32) -> CommandLine;

    /// The command that tells whether the process `pid` still runs.
    fn process_check_command(&self, pid: u32) -> CommandLine;

    /// Whether the outcome of that command shows that the process still
    /// runs.
    fn process_runs(&self, output: &ProcessOutput) -> bool;

    /// The directory of the application's settings. Where the platform's
    /// settings directory is not known, `base` stands in: the home directory,
    /// or on Windows what the environment names in `APPDATA`.
    fn get_config_dir(&self, base: &Option<String>) -> String;

    /// The directory of the application's data. Where the platform's data
    /// directory is not known, `base` stands in: the home directory, or on
    /// Windows what the environment names in `LOCALAPPDATA`.
    fn get_data_dir(&self, base: &Option<String>) -> String;

    /// The directory of the application's caches. Where the platform's cache
    /// directory is not known, `base` stands in as for the data.
    fn get_cache_dir(&self, base: &Option<String>) -> String;
}

/// The decimal digits of a process id or a port.
pub fn number_text(n: u32) -> (r: String)
    ensures
        r@ == crate::number::decimal(n as nat),
{
    let mut out: Vec<char> = Vec::new();
    crate::number::push_decimal(&mut out, n as u64);
    proof {
        assert(Seq::<char>::empty() + crate::number::decimal(n as nat)
            =~= crate::number::decimal(n as nat));
    }
    to_string(&out)
}

/// A command line of a program and one argument.
pub fn command1(program: &str, a: String) -> (r: CommandLine)
    ensures
        r@ == (program@, seq![a@]),
{
    let mut args: Vec<String> = Vec::new();
    args.push(a);
    proof {
        assert(texts(args@) =~= seq![a@]);
    }
    CommandLine { program: program.to_owned(), args }
}

/// A command line of a program and two arguments.
pub fn command2(program: &str, a: String, b: String) -> (r: CommandLine)
    ensures
        r@ == (program@, seq![a@, b@]),
{
    let mut args: Vec<String> = Vec::new();
    args.push(a);
    args.push(b);
    proof {
        assert(texts(args@) =~= seq![a@, b@]);
    }
    CommandLine { program: program.to_owned(), args }
}

/// A command line of a program and three arguments.
pub fn command3(program: &str, a: String, b: String, c: String) -> (r: CommandLine)
    ensures
        r@ == (program@, seq![a@, b@, c@]),
{
    let mut args: Vec<String> = Vec::new();
    args.push(a);
    args.push(b);
    args.push(c);
    proof {
        assert(texts(args@) =~= seq![a@, b@, c@]);
    }
    CommandLine { program: program.to_owned(), args }
}

/// The lines that a platform adds to the shell's settings for `content`:
/// none where the settings hold the content already.
pub open spec fn shell_addition_of(existing: Option<Seq<char>>, content: Seq<char>) -> Option<
    Seq<char>,
> {
    if existing is Some && crate::text::contains(existing->0, content) {
        None
    } else {
        Some("\n# Added by AEM Environment Manager\n"@ + content + "\n"@)
    }
}

/// What to append to the shell's settings file so that it holds `content`,
/// given what the file holds, if it exists.
pub fn shell_addition(existing: &Option<String>, content: &str) -> (r: Option<String>)
    ensures
        opt_text(r) == shell_addition_of(opt_text(*existing), content@),
{
    let present = match existing {
        Some(held) => {
            let chars = to_chars(held.as_str());
            crate::text::includes(&chars, content)
        },
        None => false,
    };
    if present {
        None
    } else {
        Some(crate::text::concat3("\n# Added by AEM Environment Manager\n", content, "\n"))
    }
}

/// The first line of a program's output, after the white space around the
/// output is removed, read as a process id.
pub open spec fn pid_in_first_line(output: Seq<char>) -> Option<u32> {
    match crate::text::first_line(crate::text::trim(output)) {
        Some(line) => match crate::number::unsigned_of(line, u32::MAX as int) {
            Some(n) => Some(n as u32),
            None => None,
        },
        None => None,
    }
}

/// The process id on the first line of a program's output.
pub fn first_line_pid(output: &str) -> (r: Option<u32>)
    ensures
        r == pid_in_first_line(output@),
{
    let chars = to_chars(output);
    let trimmed = crate::text::trimmed(&chars);
    match crate::text::leading_line(&trimmed) {
        Some(line) => match crate::number::parse_unsigned(&line, 0xffff_ffff) {
            Some(n) => Some(n as u32),
            None => None,
        },
        None => None,
    }
}


/// Adds `s` at the end of `v`.
pub fn push_text(v: &mut Vec<String>, s: String)
    ensures
        texts(final(v)@) == texts(old(v)@).push(s@),
{
    v.push(s);
    proof {
        assert(texts(v@) =~= texts(old(v)@).push(s@));
    }
}

/// Adds `child` under `base` at the end of `v`.
pub fn push_joined(v: &mut Vec<String>, base: &str, child: &str)
    ensures
        texts(final(v)@) == texts(old(v)@).push(joined(base@, child@)),
{
    push_text(v, join(base, child));
}

/// The lines from index `from` on, each without the white space around it,
/// but for those that are then empty.
pub open spec fn trimmed_lines_from(all: Seq<Seq<char>>, from: int) -> Seq<Seq<char>>
    decreases all.len() - from,
{
    if from < 0 || from >= all.len() {
        Seq::empty()
    } else {
        let line = crate::text::trim(all[from]);
        if line.len() == 0 {
            trimmed_lines_from(all, from + 1)
        } else {
            seq![line] + trimmed_lines_from(all, from + 1)
        }
    }
}

/// The lines of `output`, each without the white space around it, but for
/// those that are then empty.
pub open spec fn trimmed_lines(output: Seq<char>) -> Seq<Seq<char>> {
    trimmed_lines_from(crate::text::lines(output), 0)
}

/// The lines of `output` that hold more than white space, trimmed.
pub fn lines_trimmed(output: &str) -> (r: Vec<String>)
    ensures
        texts(r@) == trimmed_lines(output@),
{
    let chars = to_chars(output);
    let all = crate::text::split_lines(&chars);
    let mut out: Vec<String> = Vec::new();
    let mut i: usize = 0;
    proof {
        assert(crate::text::views(all@).len() == all@.len());
        assert(texts(out@) + trimmed_lines(output@) =~= trimmed_lines(output@));
    }
    while i < all.len()
        invariant
            i <= all.len(),
            crate::text::views(all@) == crate::text::lines(output@),
            crate::text::views(all@).len() == all@.len(),
            trimmed_lines(output@) == texts(out@) + trimmed_lines_from(
                crate::text::lines(output@),
                i as int,
            ),
        decreases all.len() - i,
    {
        proof {
            assert(crate::text::views(all@)[i as int] == all@[i as int]@);
        }
        let line = crate::text::trimmed(&all[i]);
        if line.len() > 0 {
            let ghost before = texts(out@);
            push_text(&mut out, to_string(&line));
            proof {
                let rest = trimmed_lines_from(crate::text::lines(output@), i + 1);
                assert(before + (seq![line@] + rest) =~= before.push(line@) + rest);
            }
        }
        i += 1;
    }
    proof {
        assert(texts(out@) + Seq::<Seq<char>>::empty() =~= texts(out@));
    }
    out
}

/// The version that a manager's answer names: the answer without the white
/// space around it, unless the command failed or the answer is empty.
pub open spec fn answered_version(outcome: Result<Seq<char>, Seq<char>>) -> Option<Seq<char>> {
    match outcome {
        Ok(output) => if crate::text::trim(output).len() == 0 {
            None
        } else {
            Some(crate::text::trim(output))
        },
        Err(_) => None,
    }
}

/// The version that a manager's answer names.
pub fn version_answer(outcome: &Result<String, String>) -> (r: Option<String>)
    ensures
        opt_text(r) == answered_version(text_result(*outcome)),
{
    match outcome {
        Ok(output) => {
            let chars = to_chars(output.as_str());
            let version = crate::text::trimmed(&chars);
            if version.len() == 0 {
                None
            } else {
                Some(to_string(&version))
            }
        },
        Err(_) => None,
    }
}

/// The version that a manager's answer names, where `none` and `system`
/// name none.
pub open spec fn answered_own_version(outcome: Result<Seq<char>, Seq<char>>, allow_none: bool) -> Option<
    Seq<char>,
> {
    match answered_version(outcome) {
        Some(version) => if (!allow_none && version == "none"@) || version == "system"@ {
            None
        } else {
            Some(version)
        },
        None => None,
    }
}

/// The version that a manager's answer names, unless the answer is `system`
/// or, where `allow_none` does not hold, `none`.
pub fn own_version_answer(outcome: &Result<String, String>, allow_none: bool) -> (r: Option<String>)
    ensures
        opt_text(r) == answered_own_version(text_result(*outcome), allow_none),
{
    match version_answer(outcome) {
        Some(version) => {
            let chars = to_chars(version.as_str());
            let none = to_chars("none");
            let system = to_chars("system");
            if (!allow_none && crate::text::same(&chars, &none)) || crate::text::same(
                &chars,
                &system,
            ) {
                None
            } else {
                Some(version)
            }
        },
        None => None,
    }
}


/// The texts from index `from` on that do not begin with a star.
pub open spec fn unstarred_from(all: Seq<Seq<char>>, from: int) -> Seq<Seq<char>>
    decreases all.len() - from,
{
    if from < 0 || from >= all.len() {
        Seq::empty()
    } else if all[from].len() > 0 && all[from][0] == '*' {
        unstarred_from(all, from + 1)
    } else {
        seq![all[from]] + unstarred_from(all, from + 1)
    }
}

/// The lines of `output` that hold more than white space and, trimmed, do
/// not begin with a star.
pub fn lines_unstarred(output: &str) -> (r: Vec<String>)
    ensures
        texts(r@) == unstarred_from(trimmed_lines(output@), 0),
{
    let all = lines_trimmed(output);
    let mut out: Vec<String> = Vec::new();
    let mut i: usize = 0;
    proof {
        assert(texts(all@).len() == all@.len());
        assert(texts(out@) + unstarred_from(texts(all@), 0) =~= unstarred_from(texts(all@), 0));
    }
    while i < all.len()
        invariant
            i <= all.len(),
            texts(all@) == trimmed_lines(output@),
            texts(all@).len() == all@.len(),
            unstarred_from(texts(all@), 0) == texts(out@) + unstarred_from(texts(all@), i as int),
        decreases all.len() - i,
    {
        proof {
            assert(texts(all@)[i as int] == all@[i as int]@);
        }
        let chars = to_chars(all[i].as_str());
        if !(chars.len() > 0 && chars[0] == '*') {
            let ghost before = texts(out@);
            push_text(&mut out, all[i].clone());
            proof {
                let rest = unstarred_from(texts(all@), i + 1);
                assert(before + (seq![chars@] + rest) =~= before.push(chars@) + rest);
            }
        }
        i += 1;
    }
    proof {
        assert(texts(out@) + Seq::<Seq<char>>::empty() =~= texts(out@));
    }
    out
}

/// The two paths that exist where a manager is installed: its directory and
/// a file in it.
pub fn install_markers(dir: &str, file: &str) -> (r: Vec<String>)
    ensures
        texts(r@) == seq![dir@, joined(dir@, file@)],
{
    let mut r: Vec<String> = Vec::new();
    proof {
        assert(texts(r@) =~= Seq::<Seq<char>>::empty());
    }
    push_text(&mut r, dir.to_owned());
    push_joined(&mut r, dir, file);
    proof {
        assert(texts(r@) =~= seq![dir@, joined(dir@, file@)]);
    }
    r
}

/// The directory of a manager: the one that the environment names, or the
/// one of the given name under the home directory, or the fallback.
pub open spec fn manager_dir_of(
    named: Option<Seq<char>>,
    home: Option<Seq<char>>,
    name: Seq<char>,
    fallback: Seq<char>,
) -> Seq<char> {
    match named {
        Some(dir) => dir,
        None => match home {
            Some(h) => joined(h, name),
            None => fallback,
        },
    }
}

/// The directory of a manager.
pub fn manager_dir(named: Option<String>, home: &Option<String>, name: &str, fallback: &str) -> (r:
    String)
    ensures
        r@ == manager_dir_of(opt_text(named), opt_text(*home), name@, fallback@),
{
    match named {
        Some(dir) => dir,
        None => match home {
            Some(h) => join(h.as_str(), name),
            None => fallback.to_owned(),
        },
    }
}

} // verus!
