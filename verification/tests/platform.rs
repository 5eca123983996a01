use aem_env_manager::platform::common::{
    app_directories, command1, first_line_pid, get_app_cache_dir, get_app_config_dir,
    get_app_data_dir, init_app_directories, lines_trimmed, lines_unstarred, own_version_answer,
    shell_addition, shell_result, version_answer, AppDirectories, PlatformOps, ProcessOutput,
    ShellExecutor, VersionManagerOps,
};
use aem_env_manager::platform::listener::{
    begin_listener_lookup, continue_listener_lookup, listener_command, LookupProgress,
    LookupState,
};
use aem_env_manager::platform::linux::{
    JenvManager as LinuxJenv, LinuxPlatform, LinuxShellExecutor, ListenerLookup,
    NvmManager as LinuxNvm, SdkmanManager as LinuxSdkman,
};
use aem_env_manager::platform::macos::{JenvManager as MacJenv, MacOSPlatform, MacOSShellExecutor};
use aem_env_manager::platform::windows::{
    FnmManager, JabbaManager, NvmWindowsManager, VoltaManager, WindowsPlatform,
    WindowsShellExecutor,
};
use aem_env_manager::platform::{current_platform, Platform, TargetOs};

fn output(success: bool, stdout: &str) -> ProcessOutput {
    ProcessOutput { success, stdout: stdout.to_string(), stderr: String::new() }
}

#[test]
fn windows_test_platform_ops() {
    let platform = WindowsPlatform::new();

    // Test config dir
    let config_dir = platform.get_config_dir(&None);
    assert!(config_dir.contains("aem-env-manager"));
}

#[test]
fn macos_test_platform_ops() {
    let platform = MacOSPlatform::new(None);

    // Test config dir
    let config_dir = platform.get_config_dir(&None);
    assert!(config_dir.contains("aem-env-manager"));

    // Test shell config file
    let shell_config = platform.get_shell_config_file(&None, &None);
    assert!(shell_config.contains(".zshrc") || shell_config.contains(".bash_profile"));
}

#[test]
fn application_directories() {
    let dirs = app_directories(
        Some("/c/aem-env-manager".to_string()),
        Some("/d/aem-env-manager".to_string()),
        Some("/k/aem-env-manager".to_string()),
    )
    .unwrap();
    assert_eq!(dirs.config, "/c/aem-env-manager");
    assert_eq!(dirs.profiles, "/d/aem-env-manager/profiles");
    assert_eq!(dirs.backups, "/d/aem-env-manager/backups");
    assert_eq!(dirs.logs, "/d/aem-env-manager/logs");
    assert_eq!(dirs.licenses, "/d/aem-env-manager/licenses");
    assert_eq!(dirs.config_file(), "/c/aem-env-manager/config.yaml");
    assert_eq!(dirs.profile_file("dev"), "/d/aem-env-manager/profiles/dev.yaml");
    assert!(dirs.is_first_run(false));
    assert!(!dirs.is_first_run(true));
    assert_eq!(
        dirs.to_create(),
        vec![
            "/c/aem-env-manager",
            "/d/aem-env-manager",
            "/k/aem-env-manager",
            "/d/aem-env-manager/profiles",
            "/d/aem-env-manager/backups",
            "/d/aem-env-manager/logs",
            "/d/aem-env-manager/licenses",
        ]
    );
    assert_eq!(
        app_directories(None, Some("d".to_string()), Some("k".to_string())).unwrap_err(),
        "Failed to get config directory"
    );
    assert_eq!(
        app_directories(Some("c".to_string()), None, None).unwrap_err(),
        "Failed to get data directory"
    );
    assert_eq!(
        app_directories(Some("c".to_string()), Some("d".to_string()), None).unwrap_err(),
        "Failed to get cache directory"
    );
}

#[test]
fn application_directories_of_this_machine() {
    for dir in [get_app_data_dir(), get_app_config_dir(), get_app_cache_dir()] {
        if let Some(path) = dir {
            assert!(path.ends_with("/aem-env-manager"));
        }
    }
    if let Ok(dirs) = init_app_directories() {
        let dirs: AppDirectories = dirs;
        assert!(dirs.config.ends_with("aem-env-manager"));
        assert!(dirs.profiles.ends_with("aem-env-manager/profiles"));
    }
}

#[test]
fn shell_results_and_additions() {
    assert_eq!(shell_result(output(true, "hello\n")), Ok("hello\n".to_string()));
    let failed = ProcessOutput { success: false, stdout: "x".to_string(), stderr: "bad".to_string() };
    assert_eq!(shell_result(failed), Err("bad".to_string()));
    assert_eq!(
        shell_addition(&None, "export A=1"),
        Some("\n# Added by AEM Environment Manager\nexport A=1\n".to_string())
    );
    assert_eq!(shell_addition(&Some("x\nexport A=1\n".to_string()), "export A=1"), None);
    assert!(shell_addition(&Some("x".to_string()), "export A=1").is_some());
    let c = command1("open", "x".to_string());
    assert_eq!(c.program, "open");
    assert_eq!(c.args, vec!["x"]);
}

#[test]
fn process_ids_in_output() {
    assert_eq!(first_line_pid("1234\n5678\n"), Some(1234));
    assert_eq!(first_line_pid("  42  "), Some(42));
    assert_eq!(first_line_pid(""), None);
    assert_eq!(first_line_pid("abc"), None);
    assert_eq!(first_line_pid("4294967296"), None);
    assert_eq!(first_line_pid("4294967295"), Some(u32::MAX));
}

#[test]
fn manager_answers() {
    assert_eq!(lines_trimmed(" 17.0.1 \n\n  11\r\n"), vec!["17.0.1", "11"]);
    assert_eq!(lines_unstarred("17\n* 11\n  8\n"), vec!["17", "8"]);
    assert_eq!(version_answer(&Ok(" 17 \n".to_string())), Some("17".to_string()));
    assert_eq!(version_answer(&Ok("\n".to_string())), None);
    assert_eq!(version_answer(&Err("x".to_string())), None);
    assert_eq!(own_version_answer(&Ok("none".to_string()), false), None);
    assert_eq!(own_version_answer(&Ok("none".to_string()), true), Some("none".to_string()));
    assert_eq!(own_version_answer(&Ok("system\n".to_string()), true), None);
    assert_eq!(own_version_answer(&Ok("v20".to_string()), false), Some("v20".to_string()));
}

#[test]
fn linux_decisions() {
    let home = Some("/home/u".to_string());
    let p = LinuxPlatform::new(Some("/bin/zsh".to_string()));
    assert_eq!(p.executor.shell, "/bin/zsh");
    assert_eq!(LinuxPlatform::new(None).executor.shell, "/bin/bash");
    assert_eq!(
        p.get_java_scan_paths(&home),
        vec![
            "/usr/lib/jvm",
            "/usr/java",
            "/opt/java",
            "/home/u/.sdkman/candidates/java",
            "/home/u/.jenv/versions",
            "/home/u/.jabba/jdk",
        ]
    );
    assert_eq!(p.get_java_scan_paths(&None).len(), 3);
    assert_eq!(p.get_node_scan_paths(&home).len(), 6);
    assert_eq!(p.get_node_scan_paths(&home)[4], "/home/u/.local/share/fnm/node-versions");
    assert_eq!(p.get_shell_config_file(&home, &Some("/bin/bash".to_string())), "/home/u/.bashrc");
    assert_eq!(p.get_shell_config_file(&home, &None), "/home/u/.bashrc");
    assert_eq!(p.get_shell_config_file(&None, &Some("/bin/zsh".to_string())), "~/.zshrc");
    assert_eq!(p.get_shell_config_file(&home, &Some("fish".to_string())), "/home/u/.profile");
    assert_eq!(p.export_line("A", "b c"), "export A=\"b c\"");
    let lines = p.java_home_lines("/opt/jdk");
    assert_eq!(lines.0, "export JAVA_HOME=\"/opt/jdk\"");
    assert_eq!(lines.1, "export PATH=\"$JAVA_HOME/bin:$PATH\"");
    let kill = p.terminate_command(77);
    assert_eq!((kill.program.as_str(), kill.args), ("kill", vec!["77".to_string()]));
    let kill = p.force_kill_command(77);
    assert_eq!(kill.args, vec!["-9", "77"]);
    assert_eq!(p.open_browser("http://x").program, "xdg-open");
    assert_eq!(p.open_file_manager("/tmp").args, vec!["/tmp"]);
    let terminals = p.open_terminal("/w");
    assert_eq!(terminals.len(), 4);
    assert_eq!(terminals[0].args, vec!["--working-directory", "/w"]);
    assert_eq!(terminals[1].program, "konsole");
    assert!(terminals[3].args.is_empty());
    let listeners = p.listener_command(4502);
    assert_eq!(listeners.program, "lsof");
    assert_eq!(listeners.args, vec!["-ti", "TCP:4502", "-sTCP:LISTEN"]);
    assert_eq!(p.ss_command(4502).args, vec!["-tlnp", "sport = :4502"]);
    assert_eq!(p.process_name_command(900).program, "ps");
    assert_eq!(p.process_name_command(900).args, vec!["-p", "900", "-o", "comm="]);
    assert_eq!(p.process_name(" java \n"), "java");
    assert_eq!(p.find_java_command().program, "which");
}

#[test]
fn linux_listener_lookup() {
    let p = LinuxPlatform::new(None);
    assert_eq!(p.lsof_lookup(&output(true, "900\n901\n")), ListenerLookup::Found(900));
    assert_eq!(p.lsof_lookup(&output(true, "")), ListenerLookup::Absent);
    assert_eq!(p.lsof_lookup(&output(true, "  \n")), ListenerLookup::Absent);
    assert_eq!(p.lsof_lookup(&output(true, "x")), ListenerLookup::Inconclusive);
    assert_eq!(p.lsof_lookup(&output(false, "900")), ListenerLookup::Inconclusive);
    let ss = "State Recv-Q Send-Q Local Address:Port Peer\nLISTEN 0 50 *:4502 *:* users:((\"java\",pid=31337,fd=99))\n";
    assert_eq!(p.ss_lookup(&output(true, ss)), Some(31337));
    assert_eq!(p.ss_lookup(&output(false, ss)), None);
    assert_eq!(p.ss_lookup(&output(true, "pid=12")), None);
    assert_eq!(p.ss_lookup(&output(true, "pid=x,\npid=7,")), Some(7));
    assert_eq!(p.ss_lookup(&output(true, "nothing")), None);
}

#[test]
fn linux_managers() {
    let home = Some("/home/u".to_string());
    let sdk = LinuxSdkman::new(&home, None);
    assert_eq!(sdk.sdkman_dir, "/home/u/.sdkman");
    assert_eq!(LinuxSdkman::new(&None, None).sdkman_dir, "~/.sdkman");
    assert_eq!(sdk.install_markers(), vec!["/home/u/.sdkman", "/home/u/.sdkman/bin/sdkman-init.sh"]);
    assert_eq!(sdk.not_installed(), "SDKMAN is not installed");
    assert_eq!(
        sdk.list_command(),
        "source /home/u/.sdkman/bin/sdkman-init.sh && sdk list java | grep -E '^ \\*|^   ' | awk '{print $NF}'"
    );
    assert_eq!(sdk.switch_command("17"), "source /home/u/.sdkman/bin/sdkman-init.sh && sdk use java 17");
    assert_eq!(sdk.listed_versions("17\n\n 11 \n"), vec!["17", "11"]);
    assert_eq!(sdk.current_version(&Ok("17.0.1\n".to_string())), Some("17.0.1".to_string()));
    let nvm = LinuxNvm::new(Some("/opt/nvm".to_string()), &home, None);
    assert_eq!(nvm.nvm_dir, "/opt/nvm");
    assert_eq!(LinuxNvm::new(None, &home, None).nvm_dir, "/home/u/.nvm");
    assert_eq!(nvm.switch_command("20"), "source /opt/nvm/nvm.sh && nvm use 20");
    assert_eq!(nvm.current_command(), "source /opt/nvm/nvm.sh && nvm current");
    assert_eq!(nvm.current_version(&Ok("system".to_string())), None);
    assert_eq!(nvm.current_version(&Ok("none".to_string())), None);
    let jenv = LinuxJenv::new(&home, None);
    assert_eq!(jenv.list_command(), "/home/u/.jenv/bin/jenv versions --bare");
    assert_eq!(jenv.switch_command("17"), "/home/u/.jenv/bin/jenv global 17");
    assert_eq!(jenv.listed_versions("17\n*11\n"), vec!["17"]);
    assert_eq!(jenv.current_version(&Ok("none".to_string())), Some("none".to_string()));
    let exec = LinuxShellExecutor::from_env(Some("/bin/zsh".to_string()));
    let c = exec.shell_command("echo hello");
    assert_eq!(c.program, "/bin/zsh");
    assert_eq!(c.args, vec!["-c", "echo hello"]);
    assert_eq!(exec.get_shell_config_path(&home), Some("/home/u/.zshrc".to_string()));
    assert_eq!(LinuxShellExecutor::from_env(None).get_shell_config_path(&home), Some("/home/u/.bashrc".to_string()));
    assert_eq!(LinuxShellExecutor::from_env(Some("fish".to_string())).get_shell_config_path(&home), None);
    assert_eq!(exec.get_shell_config_path(&None), None);
}

#[test]
fn macos_decisions() {
    let home = Some("/Users/u".to_string());
    let p = MacOSPlatform::new(None);
    assert_eq!(p.executor.shell, "/bin/zsh");
    assert_eq!(p.get_java_scan_paths(&home).len(), 8);
    assert_eq!(p.get_java_scan_paths(&home)[0], "/Library/Java/JavaVirtualMachines");
    assert_eq!(p.get_java_scan_paths(&home)[6], "/opt/homebrew/opt/openjdk");
    assert_eq!(p.get_node_scan_paths(&None), vec!["/usr/local/bin/node"]);
    assert_eq!(p.get_shell_config_file(&home, &Some("/bin/bash".to_string())), "/Users/u/.bash_profile");
    assert_eq!(p.open_terminal("/w").args, vec!["-a", "Terminal", "/w"]);
    assert_eq!(p.open_browser("http://x").program, "open");
    assert_eq!(p.listener_command(4502).args, vec!["-ti", "TCP:4502", "-sTCP:LISTEN"]);
    assert_eq!(p.process_name_command(900).args, vec!["-p", "900", "-o", "comm="]);
    assert_eq!(p.process_name(" /usr/bin/java \n"), "/usr/bin/java");
    assert_eq!(p.lsof_lookup(&output(true, "900\n")), Some(900));
    assert_eq!(p.lsof_lookup(&output(false, "900\n")), None);
    assert_eq!(p.lsof_lookup(&output(true, "")), None);
    assert_eq!(p.find_java_command().program, "/usr/libexec/java_home");
    assert_eq!(p.java_home_answer(&output(true, "/Library/jdk\n")), Some("/Library/jdk".to_string()));
    assert_eq!(p.java_home_answer(&output(true, "\n")), None);
    assert_eq!(p.java_home_answer(&output(false, "/Library/jdk\n")), None);
    let jenv = MacJenv::new(&home, None);
    assert_eq!(jenv.list_command(), "jenv versions --bare");
    assert_eq!(jenv.switch_command("17"), "jenv global 17");
    assert_eq!(jenv.current_command(), "jenv version-name");
    let exec = MacOSShellExecutor::from_env(Some("/bin/bash".to_string()));
    assert_eq!(exec.get_shell_config_path(&home), Some("/Users/u/.bash_profile".to_string()));
}

#[test]
fn windows_decisions() {
    let home = Some("C:\\Users\\u".to_string());
    let p = WindowsPlatform::new();
    assert_eq!(p.setx_command("A", "b"), "setx A \"b\"");
    assert_eq!(p.java_home_candidates().len(), 4);
    assert_eq!(p.java_scan_paths(&home, &Some("C:\\L".to_string())).len(), 10);
    assert_eq!(p.java_scan_paths(&None, &None).len(), 6);
    assert_eq!(p.get_java_scan_paths(&home)[6], "C:\\Users\\u/.jabba\\jdk");
    assert_eq!(p.get_node_scan_paths(&home).len(), 6);
    assert_eq!(
        p.get_shell_config_file(&home),
        "C:\\Users\\u/Documents/PowerShell/Microsoft.PowerShell_profile.ps1"
    );
    assert_eq!(
        p.get_shell_config_file(&None),
        "~\\Documents\\PowerShell\\Microsoft.PowerShell_profile.ps1"
    );
    let (wt, cmd) = p.open_terminal("C:\\w");
    assert_eq!(wt.args, vec!["-d", "C:\\w"]);
    assert_eq!(cmd.args, vec!["/c", "start", "cmd", "/k", "cd", "C:\\w"]);
    assert_eq!(p.open_browser("http://x").args, vec!["/c", "start", "", "http://x"]);
    assert_eq!(p.open_file_manager("C:\\w").program, "explorer");
    assert_eq!(p.terminate_command(5).args, vec!["/PID", "5"]);
    assert_eq!(p.force_kill_command(5).args, vec!["/F", "/PID", "5"]);
    assert_eq!(p.netstat_command().program, "netstat");
    assert_eq!(p.netstat_command().args, vec!["-ano", "-p", "TCP"]);
    assert_eq!(p.tasklist_command(9).args, vec!["/FI", "PID eq 9", "/FO", "CSV", "/NH"]);
    assert_eq!(p.task_name("\"java.exe\",\"9\",\"Console\"\r\n"), "java.exe");
    assert_eq!(p.task_name(""), "");
    let exec = WindowsShellExecutor;
    assert_eq!(exec.shell_command("dir").args, vec!["-NoProfile", "-Command", "dir"]);
    assert_eq!(exec.get_shell_config_path(&None), None);
}

#[test]
fn windows_listener_lookup() {
    let p = WindowsPlatform::new();
    let netstat = "  TCP    0.0.0.0:4502    0.0.0.0:0    LISTENING    x\r\n  TCP    127.0.0.1:4502   127.0.0.1:1   ESTABLISHED   17\r\n  TCP    [::]:4502    [::]:0    LISTENING    4242\r\n";
    assert_eq!(p.netstat_lookup(&output(true, netstat), 4502), Some(4242));
    assert_eq!(p.netstat_lookup(&output(false, netstat), 4502), None);
    assert_eq!(p.netstat_lookup(&output(true, netstat), 4503), None);
    assert_eq!(p.netstat_lookup(&output(true, "TCP 0.0.0.0:80 0.0.0.0:0 LISTENING 4"), 80), Some(4));
    assert_eq!(p.netstat_lookup(&output(true, ""), 80), None);
}

#[test]
fn windows_listener_is_found_by_its_own_port_only() {
    let p = WindowsPlatform::new();
    let longer = "  TCP    0.0.0.0:45020    0.0.0.0:0    LISTENING    11\r\n";
    assert_eq!(p.netstat_lookup(&output(true, longer), 4502), None);
    assert_eq!(p.netstat_lookup(&output(true, longer), 45020), Some(11));
    assert_eq!(p.netstat_lookup(&output(true, longer), 5020), None);
    let remote = "  TCP    10.0.0.1:50000    10.0.0.2:4502    LISTENING    12\r\n";
    assert_eq!(p.netstat_lookup(&output(true, remote), 4502), None);
    let client = "  TCP    10.0.0.1:4502    10.0.0.2:80    ESTABLISHED    13\r\n";
    assert_eq!(p.netstat_lookup(&output(true, client), 4502), None);
    let named = "  TCP    0.0.0.0:4502    LISTENING:0    TIME_WAIT    14\r\n";
    assert_eq!(p.netstat_lookup(&output(true, named), 4502), None);
    let short = "  TCP    0.0.0.0:4502    0.0.0.0:0    LISTENING\r\n";
    assert_eq!(p.netstat_lookup(&output(true, short), 4502), None);
    let both = format!("{}{}", longer, "  TCP    0.0.0.0:4502    0.0.0.0:0    LISTENING    15\r\n");
    assert_eq!(p.netstat_lookup(&output(true, &both), 4502), Some(15));
}

#[test]
fn process_checks() {
    let linux = LinuxPlatform::new(None);
    let check = linux.process_check_command(77);
    assert_eq!((check.program.as_str(), check.args), ("kill", vec!["-0".to_string(), "77".to_string()]));
    assert!(linux.process_runs(&output(true, "")));
    assert!(!linux.process_runs(&output(false, "")));
    let mac = MacOSPlatform::new(None);
    let check = mac.process_check_command(77);
    assert_eq!((check.program.as_str(), check.args), ("kill", vec!["-0".to_string(), "77".to_string()]));
    assert!(mac.process_runs(&output(true, "")));
    assert!(!mac.process_runs(&output(false, "")));
    let windows = WindowsPlatform::new();
    let check = windows.process_check_command(9);
    assert_eq!(check.program, "tasklist");
    assert_eq!(check.args, vec!["/FI", "PID eq 9", "/FO", "CSV", "/NH"]);
    assert!(windows.process_runs(&output(true, "\"java.exe\",\"9\",\"Console\",\"1\",\"1 K\"\r\n")));
    assert!(!windows.process_runs(&output(true, "INFO: No tasks are running which match the specified criteria.\r\n")));
    assert!(!windows.process_runs(&output(true, "")));
    assert!(!windows.process_runs(&output(false, "\"java.exe\",\"9\"")));
    let chosen = current_platform(TargetOs::Windows, None);
    assert_eq!(chosen.process_check_command(9).program, "tasklist");
    assert!(!chosen.process_runs(&output(true, "INFO: none")));
    let chosen = current_platform(TargetOs::Linux, None);
    assert_eq!(chosen.process_check_command(9).args, vec!["-0", "9"]);
    assert!(chosen.process_runs(&output(true, "")));
}

fn found(progress: LookupProgress) -> Option<(u32, String)> {
    match progress {
        LookupProgress::Found(listener) => Some((listener.pid, listener.name)),
        LookupProgress::Unknown => None,
        other => panic!("unexpected: {:?}", other),
    }
}

fn next(progress: LookupProgress) -> (LookupState, String, Vec<String>) {
    match progress {
        LookupProgress::Run(state, command) => (state, command.program, command.args),
        other => panic!("unexpected: {:?}", other),
    }
}

#[test]
fn lookup_on_macos_lists_listeners_then_names_the_process() {
    let os = TargetOs::MacOS;
    let (state, command) = begin_listener_lookup(os, 4502);
    assert_eq!(state, LookupState::Listing);
    assert_eq!(command.program, "lsof");
    assert_eq!(command.args, vec!["-ti", "TCP:4502", "-sTCP:LISTEN"]);
    let (state, program, args) =
        next(continue_listener_lookup(os, 4502, state, Some(output(true, "900\n901\n"))));
    assert_eq!(state, LookupState::Naming(900));
    assert_eq!(program, "ps");
    assert_eq!(args, vec!["-p", "900", "-o", "comm="]);
    let named = continue_listener_lookup(os, 4502, state, Some(output(true, " /usr/bin/java \n")));
    assert_eq!(found(named), Some((900, "/usr/bin/java".to_string())));
    let unnamed = continue_listener_lookup(os, 4502, state, Some(output(false, "")));
    assert_eq!(found(unnamed), Some((900, String::new())));
    assert_eq!(found(continue_listener_lookup(os, 4502, state, None)), None);
}

#[test]
fn lookup_without_an_answer_ends_unknown() {
    for os in [TargetOs::MacOS, TargetOs::Windows] {
        let listing = LookupState::Listing;
        assert_eq!(found(continue_listener_lookup(os, 4502, listing, None)), None);
        let failed = Some(output(false, "900\n"));
        assert_eq!(found(continue_listener_lookup(os, 4502, listing, failed)), None);
        let empty = Some(output(true, ""));
        assert_eq!(found(continue_listener_lookup(os, 4502, listing, empty)), None);
        let fallback = LookupState::Fallback;
        let ss = Some(output(true, "pid=7,"));
        assert_eq!(found(continue_listener_lookup(os, 4502, fallback, ss)), None);
    }
    let os = TargetOs::Linux;
    let empty = Some(output(true, ""));
    assert_eq!(found(continue_listener_lookup(os, 4502, LookupState::Listing, empty)), None);
    let nothing = Some(output(true, "nothing"));
    assert_eq!(found(continue_listener_lookup(os, 4502, LookupState::Fallback, nothing)), None);
    assert_eq!(found(continue_listener_lookup(os, 4502, LookupState::Fallback, None)), None);
}

#[test]
fn lookup_on_windows_reads_netstat_then_tasklist() {
    let os = TargetOs::Windows;
    let (state, command) = begin_listener_lookup(os, 4502);
    assert_eq!(command.program, "netstat");
    assert_eq!(command.args, vec!["-ano", "-p", "TCP"]);
    let netstat = "  TCP    0.0.0.0:45020    0.0.0.0:0    LISTENING    11\r\n  TCP    0.0.0.0:4502    0.0.0.0:0    LISTENING    4242\r\n";
    let (state, program, args) =
        next(continue_listener_lookup(os, 4502, state, Some(output(true, netstat))));
    assert_eq!(state, LookupState::Naming(4242));
    assert_eq!(program, "tasklist");
    assert_eq!(args, vec!["/FI", "PID eq 4242", "/FO", "CSV", "/NH"]);
    let csv = "\"java.exe\",\"4242\",\"Console\"\r\n";
    let named = continue_listener_lookup(os, 4502, state, Some(output(true, csv)));
    assert_eq!(found(named), Some((4242, "java.exe".to_string())));
}

#[test]
fn lookup_on_linux_falls_back_to_socket_statistics() {
    let os = TargetOs::Linux;
    let (state, command) = begin_listener_lookup(os, 4502);
    assert_eq!(command.program, "lsof");
    assert_eq!(command.args, vec!["-ti", "TCP:4502", "-sTCP:LISTEN"]);
    let (named, program, _) =
        next(continue_listener_lookup(os, 4502, state, Some(output(true, "31337\n"))));
    assert_eq!(named, LookupState::Naming(31337));
    assert_eq!(program, "ps");
    for unclear in [None, Some(output(false, "")), Some(output(true, "x"))] {
        let (fallback, program, args) = next(continue_listener_lookup(os, 4502, state, unclear));
        assert_eq!(fallback, LookupState::Fallback);
        assert_eq!(program, "ss");
        assert_eq!(args, vec!["-tlnp", "sport = :4502"]);
    }
    let ss = "LISTEN 0 50 *:4502 *:* users:((\"java\",pid=31337,fd=99))\n";
    let (state, program, args) =
        next(continue_listener_lookup(os, 4502, LookupState::Fallback, Some(output(true, ss))));
    assert_eq!(state, LookupState::Naming(31337));
    assert_eq!(program, "ps");
    assert_eq!(args, vec!["-p", "31337", "-o", "comm="]);
    let name = continue_listener_lookup(os, 4502, state, Some(output(true, "java\n")));
    assert_eq!(found(name), Some((31337, "java".to_string())));
}

#[test]
fn lookup_commands_by_state() {
    let ss = listener_command(TargetOs::Linux, 80, LookupState::Fallback);
    assert_eq!((ss.program.as_str(), ss.args), ("ss", vec!["-tlnp".to_string(), "sport = :80".to_string()]));
    let ps = listener_command(TargetOs::MacOS, 80, LookupState::Naming(5));
    assert_eq!(ps.args, vec!["-p", "5", "-o", "comm="]);
    let netstat = listener_command(TargetOs::Windows, 80, LookupState::Listing);
    assert_eq!(netstat.program, "netstat");
}

#[test]
fn windows_managers() {
    let home = Some("C:\\Users\\u".to_string());
    let jabba = JabbaManager::new(None, &home);
    assert_eq!(jabba.jabba_dir, "C:\\Users\\u/.jabba");
    assert_eq!(jabba.list_command(), "& 'C:\\Users\\u/.jabba/bin/jabba.exe' ls");
    assert_eq!(jabba.switch_command("17"), "& 'C:\\Users\\u/.jabba/bin/jabba.exe' use 17");
    assert_eq!(JabbaManager::new(Some("D:\\j".to_string()), &home).jabba_dir, "D:\\j");
    let fnm = FnmManager::new();
    assert_eq!(fnm.installed_command(), "fnm --version");
    assert_eq!(fnm.list_command(), "fnm ls");
    assert_eq!(fnm.listed_versions("* v18.1.0 default\nv16.0.0\nsystem\n"), vec!["v18.1.0 default", "v16.0.0"]);
    assert_eq!(fnm.switch_command("18"), "fnm use 18");
    assert_eq!(fnm.current_version(&Ok("none".to_string())), None);
    assert_eq!(fnm.not_installed(), "fnm is not installed");
    let volta = VoltaManager::new();
    assert_eq!(volta.installed_command(), "volta --version");
    assert_eq!(
        volta.listed_versions("runtime node@18.17.0 (default)\n  node@16.0.0\nnpm@9\n"),
        vec!["18.17.0", "16.0.0"]
    );
    assert_eq!(volta.switch_command("18"), "volta pin node@18");
    assert_eq!(
        volta.current_version(&Ok("C:\\Users\\u\\.volta\\tools\\image\\node\\v18.17.0\\node.exe\n".to_string())),
        Some("v18.17.0".to_string())
    );
    assert_eq!(
        volta.current_version(&Ok("/x/node-v20.1.0/bin/node".to_string())),
        Some("v20.1.0".to_string())
    );
    assert_eq!(volta.current_version(&Ok("/x/y".to_string())), None);
    assert_eq!(volta.current_version(&Err("x".to_string())), None);
    let nvm = NvmWindowsManager::new(None, &home);
    assert_eq!(nvm.nvm_dir, "C:\\Users\\u/AppData\\Roaming\\nvm");
    assert_eq!(NvmWindowsManager::new(None, &None).nvm_dir, "C:\\nvm");
    assert_eq!(nvm.listed_versions("  * 18.17.0 (Currently using 64-bit executable)\n    16.14.0\n\n  v14\n  none"), vec!["18.17.0", "16.14.0", "v14"]);
    assert_eq!(nvm.current_version(&Ok("No current version".to_string())), None);
    assert_eq!(nvm.current_version(&Ok(" v18 ".to_string())), Some("v18".to_string()));
}

#[test]
fn platform_is_chosen_by_the_caller() {
    match current_platform(TargetOs::Linux, Some("/bin/zsh".to_string())) {
        Platform::Linux(p) => assert_eq!(p.executor.shell, "/bin/zsh"),
        other => panic!("unexpected: {:?}", other),
    }
    assert!(matches!(current_platform(TargetOs::MacOS, None), Platform::MacOS(_)));
    let windows = current_platform(TargetOs::Windows, None);
    assert!(matches!(windows, Platform::Windows(_)));
    assert_eq!(windows.terminate_command(3).program, "taskkill");
    assert_eq!(aem_env_manager::platform::linux::get_platform(None).executor.shell, "/bin/bash");
    assert_eq!(aem_env_manager::platform::macos::get_platform(None).executor.shell, "/bin/zsh");
    let _ = aem_env_manager::platform::windows::get_platform();
}
