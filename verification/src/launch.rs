//! Starting an instance: the arguments of the Java machine, and the command
//! that a terminal is opened with.

use vstd::prelude::*;
use crate::instance::{opt_text, texts, AemInstance, AemInstanceType, AemInstanceView};
use crate::license::pair_texts;
use crate::number::{decimal, push_decimal};
use crate::paths::{join, joined};
use crate::platform::common::{command2, push_text, CommandLine};
use crate::platform::TargetOs;
use crate::text::{
    append_str, concat2, concat3, ends_with, join_strings, join_texts, replace_char, replaced, same,
    split_words, to_chars, to_string, views, words,
};

verus! {

/// The message where an instance names no path.
pub const PATH_NOT_CONFIGURED: &'static str = "Instance path not configured";

/// The options from index `from` on that are not the `java` program itself.
pub open spec fn kept_options(all: Seq<Seq<char>>, from: int) -> Seq<Seq<char>>
    decreases all.len() - from,
{
    if from < 0 || from >= all.len() {
        Seq::empty()
    } else if all[from] == "java"@ || "/java"@.is_suffix_of(all[from]) {
        kept_options(all, from + 1)
    } else {
        seq![all[from]] + kept_options(all, from + 1)
    }
}

/// The options of the Java machine: the words of the instance's options but
/// for the `java` program itself, or a heap of 1024 megabytes where the
/// instance names no options.
pub open spec fn jvm_options_of(java_opts: Option<Seq<char>>) -> Seq<Seq<char>> {
    match java_opts {
        Some(options) => kept_options(words(options), 0),
        None => seq!["-Xmx1024m"@],
    }
}

/// The word for a type of instance.
pub open spec fn type_word(instance_type: AemInstanceType) -> Seq<char> {
    match instance_type {
        AemInstanceType::Author => "author"@,
        AemInstanceType::Publish => "publish"@,
        AemInstanceType::Dispatcher => "dispatcher"@,
    }
}

/// The run modes of an instance: its own, joined by commas, or its type and
/// `local` where it names none.
pub open spec fn run_modes_of(instance: AemInstanceView) -> Seq<char> {
    if instance.run_modes.len() == 0 {
        type_word(instance.instance_type) + ",local"@
    } else {
        join_texts(instance.run_modes, ","@)
    }
}

/// The arguments of the Java machine for an instance: its options, its run
/// modes and its port.
pub open spec fn jvm_arguments_of(instance: AemInstanceView) -> Seq<Seq<char>> {
    jvm_options_of(instance.java_opts) + seq![
        "-Dsling.run.modes="@ + run_modes_of(instance),
        "-Dhttp.port="@ + decimal(instance.port as nat),
    ]
}

/// The arguments of the Java machine for `instance`.
pub fn jvm_arguments(instance: &AemInstance) -> (r: Vec<String>)
    ensures
        texts(r@) == jvm_arguments_of(instance@),
{
    let mut args: Vec<String> = Vec::new();
    proof {
        assert(texts(args@) =~= Seq::<Seq<char>>::empty());
    }
    match &instance.java_opts {
        Some(options) => {
            let chars = to_chars(options.as_str());
            let all = split_words(&chars);
            let java = to_chars("java");
            let mut i: usize = 0;
            proof {
                assert(views(all@).len() == all@.len());
                assert(texts(args@) + kept_options(views(all@), 0) =~= kept_options(
                    views(all@),
                    0,
                ));
            }
            while i < all.len()
                invariant
                    i <= all.len(),
                    java@ == "java"@,
                    views(all@).len() == all@.len(),
                    kept_options(views(all@), 0) == texts(args@) + kept_options(
                        views(all@),
                        i as int,
                    ),
                decreases all.len() - i,
            {
                proof {
                    assert(views(all@)[i as int] == all@[i as int]@);
                }
                if !(same(&all[i], &java) || ends_with(&all[i], "/java")) {
                    let ghost before = texts(args@);
                    push_text(&mut args, to_string(&all[i]));
                    proof {
                        let rest = kept_options(views(all@), i + 1);
                        assert(before + (seq![all@[i as int]@] + rest) =~= before.push(
                            all@[i as int]@,
                        ) + rest);
                    }
                }
                i += 1;
            }
            proof {
                assert(texts(args@) + Seq::<Seq<char>>::empty() =~= texts(args@));
            }
        },
        None => {
            push_text(&mut args, "-Xmx1024m".to_owned());
            proof {
                assert(texts(args@) =~= seq!["-Xmx1024m"@]);
            }
        },
    }
    let modes = if instance.run_modes.len() == 0 {
        let word = match instance.instance_type {
            AemInstanceType::Author => "author",
            AemInstanceType::Publish => "publish",
            AemInstanceType::Dispatcher => "dispatcher",
        };
        concat2(word, ",local")
    } else {
        join_strings(&instance.run_modes, ",")
    };
    let ghost options = texts(args@);
    push_text(&mut args, concat2("-Dsling.run.modes=", modes.as_str()));
    let mut port = to_chars("-Dhttp.port=");
    push_decimal(&mut port, instance.port as u64);
    push_text(&mut args, to_string(&port));
    proof {
        assert(texts(args@) =~= options + seq![
            "-Dsling.run.modes="@ + run_modes_of(instance@),
            "-Dhttp.port="@ + decimal(instance.port as nat),
        ]);
    }
    args
}

/// An argument as a word of a shell command: between single quotes, each
/// single quote of its own written as `'\''`.
pub open spec fn quoted(argument: Seq<char>) -> Seq<char> {
    "'"@ + replaced(argument, '\'', "'\\''"@) + "'"@
}

/// The argument as a word of a shell command.
pub fn shell_quoted(argument: &str) -> (r: String)
    ensures
        r@ == quoted(argument@),
{
    let inner = replace_char(argument, '\'', "'\\''");
    concat3("'", inner.as_str(), "'")
}

/// The arguments as words of a shell command, with a space between each two.
pub open spec fn quoted_arguments(arguments: Seq<Seq<char>>) -> Seq<char> {
    join_texts(arguments.map_values(|a: Seq<char>| quoted(a)), " "@)
}

/// The arguments as words of a shell command.
pub fn quote_arguments(arguments: &Vec<String>) -> (r: String)
    ensures
        r@ == quoted_arguments(texts(arguments@)),
{
    let mut words: Vec<String> = Vec::new();
    let mut i: usize = 0;
    while i < arguments.len()
        invariant
            i <= arguments.len(),
            words@.len() == i,
            forall|j: int| 0 <= j < i ==> (#[trigger] words@[j])@ == quoted(arguments@[j]@),
        decreases arguments.len() - i,
    {
        words.push(shell_quoted(arguments[i].as_str()));
        i += 1;
    }
    proof {
        assert(texts(arguments@).len() == arguments@.len());
        assert(words@.map_values(|s: String| s@) =~= texts(arguments@).map_values(
            |a: Seq<char>| quoted(a),
        ));
    }
    join_strings(&words, " ")
}

/// The lines that export the variables from index `from` on.
pub open spec fn var_exports(vars: Seq<(Seq<char>, Seq<char>)>, from: int) -> Seq<char>
    decreases vars.len() - from,
{
    if from < 0 || from >= vars.len() {
        Seq::empty()
    } else {
        "export "@ + vars[from].0 + "='"@ + vars[from].1 + "'\n"@ + var_exports(vars, from + 1)
    }
}

/// The lines of a shell script that set up the environment of an instance:
/// the Java home with its programs first on the `PATH`, where there is a
/// Java home, and then each of the variables.
pub open spec fn exports_of(java_home: Option<Seq<char>>, vars: Option<Seq<(Seq<char>, Seq<char>)>>) -> Seq<
    char,
> {
    (match java_home {
        Some(home) => "export JAVA_HOME='"@ + home + "'\n"@ + "export PATH=\""@ + joined(
            home,
            "bin"@,
        ) + ":$PATH\"\n"@,
        None => Seq::empty(),
    }) + (match vars {
        Some(all) => var_exports(all, 0),
        None => Seq::empty(),
    })
}

/// The lines of a shell script that set up the environment of an instance.
pub fn environment_exports(java_home: &Option<String>, vars: &Option<Vec<(String, String)>>) -> (r:
    String)
    ensures
        r@ == exports_of(
            opt_text(*java_home),
            match *vars {
                Some(all) => Some(pair_texts(all@)),
                None => None,
            },
        ),
{
    let mut out: Vec<char> = Vec::new();
    match java_home {
        Some(home) => {
            append_str(&mut out, "export JAVA_HOME='");
            append_str(&mut out, home.as_str());
            append_str(&mut out, "'\n");
            append_str(&mut out, "export PATH=\"");
            let programs = join(home.as_str(), "bin");
            append_str(&mut out, programs.as_str());
            append_str(&mut out, ":$PATH\"\n");
            proof {
                assert(out@ =~= "export JAVA_HOME='"@ + home@ + "'\n"@ + "export PATH=\""@ + joined(
                    home@,
                    "bin"@,
                ) + ":$PATH\"\n"@);
            }
        },
        None => {},
    }
    let ghost head = out@;
    match vars {
        Some(all) => {
            let mut i: usize = 0;
            proof {
                assert(pair_texts(all@).len() == all@.len());
            }
            while i < all.len()
                invariant
                    i <= all.len(),
                    pair_texts(all@).len() == all@.len(),
                    out@ + var_exports(pair_texts(all@), i as int) == head + var_exports(
                        pair_texts(all@),
                        0,
                    ),
                decreases all.len() - i,
            {
                let ghost before = out@;
                let ghost rest = var_exports(pair_texts(all@), i + 1);
                proof {
                    assert(pair_texts(all@)[i as int] == (all@[i as int].0@, all@[i as int].1@));
                }
                append_str(&mut out, "export ");
                append_str(&mut out, all[i].0.as_str());
                append_str(&mut out, "='");
                append_str(&mut out, all[i].1.as_str());
                append_str(&mut out, "'\n");
                proof {
                    assert(out@ + rest =~= before + ("export "@ + all@[i as int].0@ + "='"@
                        + all@[i as int].1@ + "'\n"@ + rest));
                }
                i += 1;
            }
            proof {
                assert(out@ + Seq::<char>::empty() =~= out@);
            }
        },
        None => {
            proof {
                assert(out@ + Seq::<char>::empty() =~= out@);
            }
        },
    }
    to_string(&out)
}

/// The Java program to run: `bin/java` under the Java home, where there is
/// a Java home and that program exists, and otherwise `java`.
pub fn java_executable(java_home: &Option<String>, java_bin_exists: bool) -> (r: String)
    ensures
        r@ == (match opt_text(*java_home) {
            Some(home) => if java_bin_exists {
                joined(joined(home, "bin"@), "java"@)
            } else {
                "java"@
            },
            None => "java"@,
        }),
{
    match java_home {
        Some(home) => {
            if java_bin_exists {
                let programs = join(home.as_str(), "bin");
                join(programs.as_str(), "java")
            } else {
                "java".to_owned()
            }
        },
        None => "java".to_owned(),
    }
}

/// The Java home that a profile names, where it names one that is not empty.
pub fn profile_java_home(java_path: &Option<String>) -> (r: Option<String>)
    ensures
        opt_text(r) == (match opt_text(*java_path) {
            Some(path) => if path.len() > 0 {
                Some(path)
            } else {
                None
            },
            None => None,
        }),
{
    match java_path {
        Some(path) => {
            if path.as_str().is_empty() {
                None
            } else {
                Some(path.clone())
            }
        },
        None => None,
    }
}

/// The command that starts an instance in a terminal.
pub open spec fn terminal_command_of(
    exports: Seq<char>,
    working_dir: Seq<char>,
    name: Seq<char>,
    port: u16,
    java: Seq<char>,
    arguments: Seq<char>,
    jar: Seq<char>,
) -> Seq<char> {
    exports + "cd '"@ + working_dir + "' && echo 'Starting AEM Instance: "@ + name
        + "' && echo 'Port: "@ + decimal(port as nat) + "' && echo '---' && '"@ + java + "' "@
        + arguments + " -jar '"@ + jar + "'"@
}

/// The command that starts an instance in a terminal: it sets up the
/// environment, goes to the working directory, says what it starts, and
/// runs the Java program on the JAR file with the arguments.
pub fn terminal_command(
    exports: &str,
    working_dir: &str,
    name: &str,
    port: u16,
    java: &str,
    arguments: &str,
    jar: &str,
) -> (r: String)
    ensures
        r@ == terminal_command_of(exports@, working_dir@, name@, port, java@, arguments@, jar@),
{
    let mut out = to_chars(exports);
    append_str(&mut out, "cd '");
    append_str(&mut out, working_dir);
    append_str(&mut out, "' && echo 'Starting AEM Instance: ");
    append_str(&mut out, name);
    append_str(&mut out, "' && echo 'Port: ");
    push_decimal(&mut out, port as u64);
    append_str(&mut out, "' && echo '---' && '");
    append_str(&mut out, java);
    append_str(&mut out, "' ");
    append_str(&mut out, arguments);
    append_str(&mut out, " -jar '");
    append_str(&mut out, jar);
    append_str(&mut out, "'");
    to_string(&out)
}

/// The script that has the macOS Terminal run `command`: each double quote
/// of the command is escaped, and each line feed becomes `; `.
pub open spec fn apple_script_of(command: Seq<char>) -> Seq<char> {
    "tell application \"Terminal\"\n                activate\n                do script \""@
        + replaced(replaced(command, '"', "\\\""@), '\n', "; "@)
        + "\"\n            end tell"@
}

/// The script that has the macOS Terminal run `command`.
pub fn apple_script(command: &str) -> (r: String)
    ensures
        r@ == apple_script_of(command@),
{
    let escaped = replace_char(command, '"', "\\\"");
    let one_line = replace_char(escaped.as_str(), '\n', "; ");
    concat3(
        "tell application \"Terminal\"\n                activate\n                do script \"",
        one_line.as_str(),
        "\"\n            end tell",
    )
}

/// The commands that open a terminal which runs `command`, in the order in
/// which they are to be tried.
pub fn launch_commands(os: TargetOs, command: &str) -> (r: Vec<CommandLine>)
    ensures
        match os {
            TargetOs::MacOS => r@.len() == 1 && r@[0]@ == (
                "osascript"@,
                seq!["-e"@, apple_script_of(command@)],
            ),
            TargetOs::Windows => r@.len() == 1 && r@[0]@ == (
                "cmd"@,
                seq!["/c"@, "start"@, "cmd"@, "/k"@, command@],
            ),
            TargetOs::Linux => r@.len() == 2 && r@[0]@ == (
                "gnome-terminal"@,
                seq!["--"@, "bash"@, "-c"@, command@ + "; exec bash"@],
            ) && r@[1]@ == ("xterm"@, seq!["-e"@, "bash -c '"@ + command@ + "; exec bash'"@]),
        },
{
    let mut r: Vec<CommandLine> = Vec::new();
    match os {
        TargetOs::MacOS => {
            r.push(command2("osascript", "-e".to_owned(), apple_script(command)));
        },
        TargetOs::Windows => {
            let mut args: Vec<String> = Vec::new();
            proof {
                assert(texts(args@) =~= Seq::<Seq<char>>::empty());
            }
            push_text(&mut args, "/c".to_owned());
            push_text(&mut args, "start".to_owned());
            push_text(&mut args, "cmd".to_owned());
            push_text(&mut args, "/k".to_owned());
            push_text(&mut args, command.to_owned());
            proof {
                assert(texts(args@) =~= seq!["/c"@, "start"@, "cmd"@, "/k"@, command@]);
            }
            r.push(CommandLine { program: "cmd".to_owned(), args });
        },
        TargetOs::Linux => {
            let mut args: Vec<String> = Vec::new();
            proof {
                assert(texts(args@) =~= Seq::<Seq<char>>::empty());
            }
            push_text(&mut args, "--".to_owned());
            push_text(&mut args, "bash".to_owned());
            push_text(&mut args, "-c".to_owned());
            push_text(&mut args, concat2(command, "; exec bash"));
            proof {
                assert(texts(args@) =~= seq!["--"@, "bash"@, "-c"@, command@ + "; exec bash"@]);
            }
            r.push(CommandLine { program: "gnome-terminal".to_owned(), args });
            r.push(command2("xterm", "-e".to_owned(), concat3("bash -c '", command, "; exec bash'")));
        },
    }
    r
}

/// The message that the quickstart JAR is not at `path`.
pub fn jar_not_found(path: &str) -> (r: String)
    ensures
        r@ == "Quickstart JAR not found: "@ + path@,
{
    concat2("Quickstart JAR not found: ", path)
}

} // verus!
