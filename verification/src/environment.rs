//! The environment that the application manages: its directory with the
//! links to the Java and Node installations in use, and the block that it
//! keeps in the shell's settings.

use vstd::prelude::*;
use crate::bindings::home_dir;
use crate::instance::{opt_text};
use crate::paths::{join, joined};
use crate::text::{
    concat2, concat3, contains, find, includes, lemma_find_contains, search, slice, to_chars,
    to_string, trim, trim_end, trim_start, trimmed,
};

verus! {

/// Whether the environment is set up.
#[derive(Debug, Clone)]
pub struct EnvironmentStatus {
    pub is_initialized: bool,
    pub java_symlink_exists: bool,
    pub node_symlink_exists: bool,
    pub shell_configured: bool,
    pub env_dir: String,
    pub current_java_path: Option<String>,
    pub current_node_path: Option<String>,
}

/// What setting up the environment did.
#[derive(Debug, Clone)]
pub struct InitResult {
    pub success: bool,
    pub message: String,
    pub env_dir: String,
    pub shell_config_updated: bool,
}

/// What setting a link did.
#[derive(Debug, Clone)]
pub struct SymlinkResult {
    pub success: bool,
    pub previous_target: Option<String>,
    pub current_target: String,
    pub message: Option<String>,
}

/// The name of the environment's directory under the home directory.
pub const ENV_DIR_NAME: &'static str = ".aem-env-manager";

/// The message where the home directory is not known.
pub const NO_HOME: &'static str = "Could not determine home directory";

/// The view of a result that holds a text either way.
pub open spec fn path_result(r: Result<String, String>) -> Result<Seq<char>, Seq<char>> {
    match r {
        Ok(s) => Ok(s@),
        Err(e) => Err(e@),
    }
}

/// The path of `child` under the home directory, or the message that the
/// home directory is not known.
pub open spec fn under_home(
    home: Option<Seq<char>>,
    child: Seq<char>,
) -> Result<Seq<char>, Seq<char>> {
    match home {
        Some(h) => Ok(joined(h, child)),
        None => Err(NO_HOME@),
    }
}

/// The environment's directory under `home`.
pub fn env_dir_in(home: &Option<String>) -> (r: Result<String, String>)
    ensures
        path_result(r) == under_home(opt_text(*home), ENV_DIR_NAME@),
{
    match home {
        Some(h) => Ok(join(h.as_str(), ENV_DIR_NAME)),
        None => Err(NO_HOME.to_owned()),
    }
}

/// The environment's directory: the one of its name under the home
/// directory. Fails where the home directory is not known.
pub fn get_env_dir() -> (r: Result<String, String>)
    ensures
        match r {
            Ok(dir) => exists|home: Seq<char>| dir@ == #[trigger] joined(home, ENV_DIR_NAME@),
            Err(message) => message@ == NO_HOME@,
        },
{
    let home = home_dir();
    let r = env_dir_in(&home);
    proof {
        if let Some(h) = home {
            assert(r->Ok_0@ == joined(h@, ENV_DIR_NAME@));
        }
    }
    r
}

/// The link named `current` of `tool` in the environment's directory.
pub open spec fn link_in(env_dir: Seq<char>, tool: Seq<char>) -> Seq<char> {
    joined(joined(env_dir, tool), "current"@)
}

/// The path of the link of `tool`, which is `java` or `node`, in the
/// environment's directory `env_dir`.
pub fn symlink_path_in(env_dir: &str, tool: &str) -> (r: String)
    ensures
        r@ == link_in(env_dir@, tool@),
{
    let dir = join(env_dir, tool);
    join(dir.as_str(), "current")
}

/// The path of the link to the Java installation in use. Fails where the
/// home directory is not known.
pub fn get_java_symlink_path() -> (r: Result<String, String>)
    ensures
        match r {
            Ok(path) => exists|home: Seq<char>|
                path@ == link_in(#[trigger] joined(home, ENV_DIR_NAME@), "java"@),
            Err(message) => message@ == NO_HOME@,
        },
{
    match get_env_dir() {
        Ok(dir) => {
            let r = symlink_path_in(dir.as_str(), "java");
            proof {
                let home = choose|home: Seq<char>| dir@ == #[trigger] joined(home, ENV_DIR_NAME@);
                assert(r@ == link_in(joined(home, ENV_DIR_NAME@), "java"@));
            }
            Ok(r)
        },
        Err(e) => Err(e),
    }
}

/// The path of the link to the Node installation in use. Fails where the
/// home directory is not known.
pub fn get_node_symlink_path() -> (r: Result<String, String>)
    ensures
        match r {
            Ok(path) => exists|home: Seq<char>|
                path@ == link_in(#[trigger] joined(home, ENV_DIR_NAME@), "node"@),
            Err(message) => message@ == NO_HOME@,
        },
{
    match get_env_dir() {
        Ok(dir) => {
            let r = symlink_path_in(dir.as_str(), "node");
            proof {
                let home = choose|home: Seq<char>| dir@ == #[trigger] joined(home, ENV_DIR_NAME@);
                assert(r@ == link_in(joined(home, ENV_DIR_NAME@), "node"@));
            }
            Ok(r)
        },
        Err(e) => Err(e),
    }
}

/// The shell that is assumed where the environment names none.
pub const DEFAULT_SHELL: &'static str = "/bin/zsh";

/// The settings file of the shell named by `shell`, under `home`.
pub open spec fn shell_config_of(home: Option<Seq<char>>, shell: Option<Seq<char>>) -> Result<
    Seq<char>,
    Seq<char>,
> {
    let name = match shell {
        Some(s) => s,
        None => DEFAULT_SHELL@,
    };
    if contains(name, "zsh"@) {
        under_home(home, ".zshrc"@)
    } else if contains(name, "bash"@) {
        under_home(home, ".bash_profile"@)
    } else {
        under_home(home, ".profile"@)
    }
}

/// The settings file of the user's shell, given the home directory and the
/// shell that the environment names in `SHELL`. Fails where the home
/// directory is not known.
pub fn get_shell_config_path(home: &Option<String>, shell: &Option<String>) -> (r: Result<
    String,
    String,
>)
    ensures
        path_result(r) == shell_config_of(opt_text(*home), opt_text(*shell)),
{
    let home = match home {
        Some(h) => h,
        None => {
            return Err(NO_HOME.to_owned());
        },
    };
    let name = match shell {
        Some(s) => to_chars(s.as_str()),
        None => to_chars(DEFAULT_SHELL),
    };
    if includes(&name, "zsh") {
        Ok(join(home.as_str(), ".zshrc"))
    } else if includes(&name, "bash") {
        Ok(join(home.as_str(), ".bash_profile"))
    } else {
        Ok(join(home.as_str(), ".profile"))
    }
}

/// The line that begins the block in the shell's settings.
pub const BLOCK_START: &'static str = "# AEM Environment Manager - Managed Block";

/// The line that ends the block in the shell's settings.
pub const BLOCK_END: &'static str = "# End AEM Environment Manager Block";

/// The block that the application keeps in the shell's settings.
pub const CONFIG_BLOCK: &'static str =
    "\n# AEM Environment Manager - Managed Block\n# Do not edit this block manually - it is managed by AEM Environment Manager\nif [ -L \"$HOME/.aem-env-manager/java/current\" ]; then\n  export JAVA_HOME=\"$HOME/.aem-env-manager/java/current\"\n  export PATH=\"$JAVA_HOME/bin:$PATH\"\nfi\nif [ -L \"$HOME/.aem-env-manager/node/current\" ]; then\n  export PATH=\"$HOME/.aem-env-manager/node/current/bin:$PATH\"\nfi\n# End AEM Environment Manager Block\n";

/// Whether the shell's settings hold the block, given what the settings
/// file holds, if it exists.
pub fn check_shell_configured(content: &Option<String>) -> (r: bool)
    ensures
        r == (match opt_text(*content) {
            Some(held) => contains(held, BLOCK_START@),
            None => false,
        }),
{
    match content {
        Some(held) => {
            let chars = to_chars(held.as_str());
            includes(&chars, BLOCK_START)
        },
        None => false,
    }
}

/// What the shell's settings file is to hold so that it holds the block:
/// what it holds, then a line feed and the block. `None` where it holds the
/// block already.
pub fn configure_shell(content: &Option<String>) -> (r: Option<String>)
    ensures
        opt_text(r) == (match opt_text(*content) {
            Some(held) => if contains(held, BLOCK_START@) {
                None
            } else {
                Some(held + "\n"@ + CONFIG_BLOCK@)
            },
            None => Some(""@ + "\n"@ + CONFIG_BLOCK@),
        }),
{
    if check_shell_configured(content) {
        return None;
    }
    match content {
        Some(held) => Some(concat3(held.as_str(), "\n", CONFIG_BLOCK)),
        None => Some(concat3("", "\n", CONFIG_BLOCK)),
    }
}

/// The shell's settings without the block: what stands before the line that
/// begins the block, without trailing white space, followed by what stands
/// after the line that ends it, without leading white space; the whole
/// without white space around it. `None` where either line is missing.
pub open spec fn without_block(content: Seq<char>) -> Option<Seq<char>> {
    let start = find(content, BLOCK_START@);
    let end = find(content, BLOCK_END@);
    if start < 0 || end < 0 || start > content.len() || end + BLOCK_END@.len() > content.len() {
        None
    } else {
        Some(
            trim(
                trim_end(content.take(start)) + trim_start(
                    content.skip(end + BLOCK_END@.len()),
                ),
            ),
        )
    }
}

/// What the shell's settings file is to hold so that the block is gone;
/// `None` where it does not hold the block.
pub fn remove_shell_config(content: &str) -> (r: Option<String>)
    ensures
        opt_text(r) == without_block(content@),
{
    let chars = to_chars(content);
    let start_marker = to_chars(BLOCK_START);
    let end_marker = to_chars(BLOCK_END);
    proof {
        lemma_find_contains(chars@, BLOCK_START@);
        lemma_find_contains(chars@, BLOCK_END@);
    }
    let start = match search(&chars, &start_marker) {
        Some(start) => start,
        None => {
            return None;
        },
    };
    let end = match search(&chars, &end_marker) {
        Some(end) => end,
        None => {
            return None;
        },
    };
    assert(end + end_marker.len() <= chars.len());
    let after: usize = end + end_marker.len();
    let head = slice(&chars, 0, start);
    let tail = slice(&chars, after, chars.len());
    proof {
        assert(head@ =~= chars@.take(start as int));
        assert(tail@ =~= chars@.skip(after as int));
    }
    let head_trimmed = crate::text::trimmed_end(&head);
    let tail_trimmed = crate::text::trimmed_start(&tail);
    let mut joined_text = head_trimmed;
    crate::text::append(&mut joined_text, &tail_trimmed);
    Some(to_string(&trimmed(&joined_text)))
}

/// The variables with which to start a program that is to use the given
/// installations: `JAVA_HOME` and the Java programs first on the `PATH`,
/// then the Node programs, each where the installation is named and exists.
/// The `PATH` is set only where something is put before it.
pub open spec fn profile_environment_of(
    java: Option<Seq<char>>,
    node_programs: Option<Seq<char>>,
    current_path: Seq<char>,
) -> Seq<(Seq<char>, Seq<char>)> {
    let java_vars = match java {
        Some(home) => seq![("JAVA_HOME"@, home)],
        None => Seq::empty(),
    };
    let java_part = match java {
        Some(home) => home + "/bin"@ + ":"@,
        None => Seq::empty(),
    };
    let node_part = match node_programs {
        Some(dir) => dir + ":"@,
        None => Seq::empty(),
    };
    if java is None && node_programs is None {
        java_vars
    } else {
        java_vars.push(("PATH"@, java_part + node_part + current_path))
    }
}

/// The variables with which to start a program that is to use the given
/// installations. `java` is the Java home, where it is named and exists;
/// `node_programs` is the directory of the Node programs, where the Node
/// installation is named and exists: its `bin` directory where that exists,
/// and the installation itself otherwise.
pub fn get_profile_environment(
    java: &Option<String>,
    node_programs: &Option<String>,
    current_path: &str,
) -> (r: Vec<(String, String)>)
    ensures
        crate::license::pair_texts(r@) == profile_environment_of(
            opt_text(*java),
            opt_text(*node_programs),
            current_path@,
        ),
{
    let mut vars: Vec<(String, String)> = Vec::new();
    let mut path: Vec<char> = Vec::new();
    match java {
        Some(home) => {
            vars.push(("JAVA_HOME".to_owned(), home.clone()));
            crate::text::append_str(&mut path, home.as_str());
            crate::text::append_str(&mut path, "/bin");
            crate::text::append_str(&mut path, ":");
        },
        None => {},
    }
    match node_programs {
        Some(dir) => {
            crate::text::append_str(&mut path, dir.as_str());
            crate::text::append_str(&mut path, ":");
        },
        None => {},
    }
    let ghost java_part = match opt_text(*java) {
        Some(home) => home + "/bin"@ + ":"@,
        None => Seq::<char>::empty(),
    };
    let ghost node_part = match opt_text(*node_programs) {
        Some(dir) => dir + ":"@,
        None => Seq::<char>::empty(),
    };
    assert(path@ =~= java_part + node_part);
    if java.is_some() || node_programs.is_some() {
        crate::text::append_str(&mut path, current_path);
        let value = to_string(&path);
        assert(value@ =~= java_part + node_part + current_path@);
        vars.push(("PATH".to_owned(), value));
    }
    proof {
        assert(crate::license::pair_texts(vars@) =~= profile_environment_of(
            opt_text(*java),
            opt_text(*node_programs),
            current_path@,
        ));
    }
    vars
}

/// What setting the link of `tool`, which is `Java` or `Node`, to `target`
/// did.
pub fn symlink_updated(tool: &str, previous_target: Option<String>, target: String) -> (r:
    SymlinkResult)
    ensures
        r.success,
        opt_text(r.previous_target) == opt_text(previous_target),
        r.current_target@ == target@,
        opt_text(r.message) == Some(tool@ + " symlink updated successfully"@),
{
    SymlinkResult {
        success: true,
        previous_target,
        current_target: target,
        message: Some(concat2(tool, " symlink updated successfully")),
    }
}

/// Whether the environment is set up: it is where its directory exists and
/// the shell's settings hold the block.
pub fn environment_status(
    env_dir: String,
    env_dir_exists: bool,
    java_symlink_exists: bool,
    node_symlink_exists: bool,
    shell_configured: bool,
    current_java_path: Option<String>,
    current_node_path: Option<String>,
) -> (r: EnvironmentStatus)
    ensures
        r.is_initialized == (env_dir_exists && shell_configured),
        r.java_symlink_exists == java_symlink_exists,
        r.node_symlink_exists == node_symlink_exists,
        r.shell_configured == shell_configured,
        r.env_dir@ == env_dir@,
        opt_text(r.current_java_path) == opt_text(current_java_path),
        opt_text(r.current_node_path) == opt_text(current_node_path),
{
    EnvironmentStatus {
        is_initialized: env_dir_exists && shell_configured,
        java_symlink_exists,
        node_symlink_exists,
        shell_configured,
        env_dir,
        current_java_path,
        current_node_path,
    }
}

/// What setting up the environment in `env_dir` did.
pub fn initialized(env_dir: String, shell_config_updated: bool) -> (r: InitResult)
    ensures
        r.success,
        r.message@ == "Environment initialized successfully"@,
        r.env_dir@ == env_dir@,
        r.shell_config_updated == shell_config_updated,
{
    InitResult {
        success: true,
        message: "Environment initialized successfully".to_owned(),
        env_dir,
        shell_config_updated,
    }
}


/// Why a link cannot be set to an installation of `tool`, which is `Java`
/// or `Node`: the installation is not there, or it holds no program of the
/// tool. `None` where the link can be set.
pub open spec fn link_refusal_of(
    tool: Seq<char>,
    target: Seq<char>,
    target_exists: bool,
    program_exists: bool,
) -> Option<Seq<char>> {
    if !target_exists {
        Some(tool + " installation not found: "@ + target)
    } else if !program_exists {
        Some("Invalid "@ + tool + " installation (no "@ + crate::bindings::lowercase(tool)
            + " binary): "@ + target)
    } else {
        None
    }
}

/// Why the link of `tool` cannot be set to `target`, given whether the
/// target exists and whether it holds the tool's program.
pub fn link_refusal(tool: &str, target: &str, target_exists: bool, program_exists: bool) -> (r:
    Option<String>)
    ensures
        opt_text(r) == link_refusal_of(tool@, target@, target_exists, program_exists),
{
    if !target_exists {
        Some(concat3(tool, " installation not found: ", target))
    } else if !program_exists {
        let lower = crate::bindings::to_lowercase(tool);
        let mut out = to_chars("Invalid ");
        crate::text::append_str(&mut out, tool);
        crate::text::append_str(&mut out, " installation (no ");
        crate::text::append_str(&mut out, lower.as_str());
        crate::text::append_str(&mut out, " binary): ");
        crate::text::append_str(&mut out, target);
        Some(to_string(&out))
    } else {
        None
    }
}

/// The places where the program of an installation of Node at `target` may
/// be: in its `bin` directory, or in the installation itself.
pub fn node_program_candidates(target: &str) -> (r: (String, String))
    ensures
        r.0@ == joined(joined(target@, "bin"@), "node"@),
        r.1@ == joined(target@, "node"@),
{
    let programs = join(target, "bin");
    (join(programs.as_str(), "node"), join(target, "node"))
}

/// The place where the program of an installation of Java at `target` is.
pub fn java_program(target: &str) -> (r: String)
    ensures
        r@ == joined(joined(target@, "bin"@), "java"@),
{
    let programs = join(target, "bin");
    join(programs.as_str(), "java")
}

} // verus!
