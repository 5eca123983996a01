use aem_env_manager::environment::{
    check_shell_configured, configure_shell, env_dir_in, environment_status, get_env_dir,
    get_java_symlink_path, get_node_symlink_path, get_profile_environment, get_shell_config_path,
    initialized, remove_shell_config, symlink_path_in, symlink_updated, CONFIG_BLOCK,
};
use aem_env_manager::paths::join;
use aem_env_manager::profile::{
    config_with_profile, config_without_profile, create_profile_at, duplicate_profile,
    env_var_error, get_profile_file, get_startup_config, import_profile, is_active_profile,
    mark_active, maven_switch_error, path_switch_error, profile_not_found, renamed_copy_at,
    switch_result, tool_switch, update_profile_at, used_at, version_switch_error, AppConfig,
    EnvironmentProfile, LinkOutcome, ToolSwitch,
};
use aem_env_manager::settings::{
    entry_name, export_result, import_destination, import_result, reset_result, EntryKind,
    ScanPaths,
};

fn profile(id: &str, name: &str) -> EnvironmentProfile {
    EnvironmentProfile {
        id: id.to_string(),
        name: name.to_string(),
        description: None,
        java_version: Some("17".to_string()),
        java_manager_id: None,
        java_path: None,
        node_version: None,
        node_manager_id: None,
        node_path: None,
        maven_config_id: None,
        author_instance_id: None,
        publish_instance_id: None,
        env_vars: None,
        created_at: "c".to_string(),
        updated_at: "u".to_string(),
        last_used_at: Some("l".to_string()),
        is_active: true,
    }
}

#[test]
fn test_default_config() {
    let config = AppConfig::default();
    assert_eq!(config.theme, "system");
    assert_eq!(config.health_check_interval, 30);
    assert!(!config.auto_switch_profile);
}

#[test]
fn test_default_scan_paths() {
    let paths = ScanPaths::default();
    assert!(!paths.java_paths.is_empty());
    assert!(!paths.node_paths.is_empty());
}

#[test]
fn test_get_env_dir() {
    let result = get_env_dir();
    assert!(result.is_ok());
    let path = result.unwrap();
    assert!(path.contains(".aem-env-manager"));
}

#[test]
fn test_get_shell_config_path() {
    let result = get_shell_config_path(&Some("/home/u".to_string()), &None);
    assert!(result.is_ok());
}

#[test]
fn default_config_in_full() {
    let config = AppConfig::default();
    assert_eq!(config.active_profile_id, None);
    assert!(!config.start_minimized);
    assert!(config.show_notifications);
    assert_eq!(config.log_level, "info");
    let started = get_startup_config(Err("Failed to read config".to_string()));
    assert_eq!(started.theme, "system");
    let mut stored = AppConfig::default();
    stored.theme = "dark".to_string();
    assert_eq!(get_startup_config(Ok(stored)).theme, "dark");
}

#[test]
fn scan_paths_for_a_home() {
    let paths = ScanPaths::for_home(&Some("/home/u".to_string()));
    assert_eq!(paths.java_paths, vec!["/usr/lib/jvm", "/opt/java", "/home/u/.sdkman/candidates/java"]);
    assert_eq!(paths.node_paths, vec!["/home/u/.nvm/versions/node", "/home/u/.fnm/node-versions"]);
    assert_eq!(paths.maven_home, "/home/u/.m2");
    assert_eq!(paths.maven_repository, "/home/u/.m2/repository");
    assert_eq!(paths.aem_base_dir, "");
    assert_eq!(paths.logs_dir, "");
    let paths = ScanPaths::for_home(&None);
    assert_eq!(paths.maven_home, "/.m2");
    assert_eq!(paths.java_paths[2], "/.sdkman/candidates/java");
}

#[test]
fn paths_are_joined_with_a_slash() {
    assert_eq!(join("/home/u", ".m2"), "/home/u/.m2");
    assert_eq!(join("/home/u/", ".m2"), "/home/u/.m2");
    assert_eq!(join("", "x"), "x");
    assert_eq!(join("/a", "/b"), "/b");
    assert_eq!(join("/a", ""), "/a/");
    assert_eq!(join("C:\\Users\\u", "AppData\\Roaming"), "C:\\Users\\u/AppData\\Roaming");
}

#[test]
fn environment_directory_and_links() {
    assert_eq!(env_dir_in(&Some("/home/u".to_string())), Ok("/home/u/.aem-env-manager".to_string()));
    assert_eq!(env_dir_in(&None), Err("Could not determine home directory".to_string()));
    assert_eq!(symlink_path_in("/home/u/.aem-env-manager", "java"), "/home/u/.aem-env-manager/java/current");
    assert!(get_java_symlink_path().unwrap().ends_with(".aem-env-manager/java/current"));
    assert!(get_node_symlink_path().unwrap().ends_with(".aem-env-manager/node/current"));
}

#[test]
fn shell_settings_file_by_shell() {
    let home = Some("/home/u".to_string());
    assert_eq!(get_shell_config_path(&home, &Some("/bin/zsh".to_string())), Ok("/home/u/.zshrc".to_string()));
    assert_eq!(get_shell_config_path(&home, &Some("/usr/bin/bash".to_string())), Ok("/home/u/.bash_profile".to_string()));
    assert_eq!(get_shell_config_path(&home, &Some("/bin/fish".to_string())), Ok("/home/u/.profile".to_string()));
    assert_eq!(get_shell_config_path(&home, &None), Ok("/home/u/.zshrc".to_string()));
    assert_eq!(get_shell_config_path(&None, &None), Err("Could not determine home directory".to_string()));
}

#[test]
fn shell_block_is_added_once_and_removed() {
    assert!(!check_shell_configured(&None));
    assert!(!check_shell_configured(&Some("export A=1\n".to_string())));
    let configured = configure_shell(&Some("export A=1\n".to_string())).unwrap();
    assert_eq!(configured, format!("export A=1\n\n{}", CONFIG_BLOCK));
    assert!(check_shell_configured(&Some(configured.clone())));
    assert_eq!(configure_shell(&Some(configured.clone())), None);
    assert_eq!(configure_shell(&None), Some(format!("\n{}", CONFIG_BLOCK)));
    assert_eq!(remove_shell_config(&configured), Some("export A=1".to_string()));
    let around = format!("export A=1\n{}\nexport B=2\n", CONFIG_BLOCK);
    assert_eq!(remove_shell_config(&around), Some("export A=1export B=2".to_string()));
    assert_eq!(remove_shell_config("export A=1\n"), None);
    assert_eq!(remove_shell_config("# AEM Environment Manager - Managed Block\n"), None);
}

#[test]
fn profile_environment_puts_tools_first_on_the_path() {
    let vars = get_profile_environment(&Some("/opt/jdk".to_string()), &Some("/opt/node/bin".to_string()), "/usr/bin");
    assert_eq!(
        vars,
        vec![
            ("JAVA_HOME".to_string(), "/opt/jdk".to_string()),
            ("PATH".to_string(), "/opt/jdk/bin:/opt/node/bin:/usr/bin".to_string()),
        ]
    );
    let vars = get_profile_environment(&None, &Some("/opt/node".to_string()), "/usr/bin");
    assert_eq!(vars, vec![("PATH".to_string(), "/opt/node:/usr/bin".to_string())]);
    assert!(get_profile_environment(&None, &None, "/usr/bin").is_empty());
}

#[test]
fn environment_results() {
    let r = symlink_updated("Java", Some("/old".to_string()), "/new".to_string());
    assert!(r.success);
    assert_eq!(r.previous_target, Some("/old".to_string()));
    assert_eq!(r.current_target, "/new");
    assert_eq!(r.message, Some("Java symlink updated successfully".to_string()));
    let s = environment_status("/e".to_string(), true, false, true, false, None, Some("/n".to_string()));
    assert!(!s.is_initialized);
    assert!(s.node_symlink_exists);
    assert_eq!(s.current_node_path, Some("/n".to_string()));
    let s = environment_status("/e".to_string(), true, false, false, true, None, None);
    assert!(s.is_initialized);
    let i = initialized("/e".to_string(), true);
    assert!(i.success);
    assert_eq!(i.message, "Environment initialized successfully");
    assert!(i.shell_config_updated);
}

#[test]
fn archive_entries_go_to_their_directories() {
    assert_eq!(
        import_destination("profiles/a.json", "/data", "/conf"),
        Some((EntryKind::Profile, "/data/profiles/a.json".to_string()))
    );
    assert_eq!(
        import_destination("instances/i.json", "/data", "/conf"),
        Some((EntryKind::Instance, "/data/instances/i.json".to_string()))
    );
    assert_eq!(
        import_destination("config/config.json", "/data", "/conf"),
        Some((EntryKind::Config, "/conf/config.json".to_string()))
    );
    assert_eq!(
        import_destination("config/config/x", "/data", "/conf"),
        Some((EntryKind::Config, "/conf/x".to_string()))
    );
    assert_eq!(
        import_destination("maven/a/settings.xml", "/data", "/conf"),
        Some((EntryKind::Maven, "/data/maven/a/settings.xml".to_string()))
    );
    assert_eq!(import_destination("README", "/data", "/conf"), None);
    assert_eq!(entry_name("profiles", "a.json"), "profiles/a.json");
}

#[test]
fn archive_results() {
    let names = vec![
        "profiles/a.json".to_string(),
        "profiles/b.json".to_string(),
        "instances/i.json".to_string(),
        "maven/s.xml".to_string(),
        "other".to_string(),
    ];
    let r = import_result(&names, vec![]);
    assert!(r.success);
    assert_eq!(r.profiles_imported, 2);
    assert_eq!(r.instances_imported, 1);
    assert!(!r.configs_imported);
    let r = import_result(&vec!["config/c.json".to_string()], vec!["Failed to write x".to_string()]);
    assert!(!r.success);
    assert!(r.configs_imported);
    assert_eq!(r.errors, vec!["Failed to write x".to_string()]);
    let e = export_result("/tmp/x.zip".to_string(), 3, 4);
    assert!(e.success);
    assert_eq!(e.file_path, Some("/tmp/x.zip".to_string()));
    assert_eq!((e.profiles_count, e.instances_count), (3, 4));
    let z = reset_result(1, 2);
    assert!(z.success && z.configs_reset);
    assert_eq!((z.profiles_deleted, z.instances_deleted), (1, 2));
}

#[test]
fn profiles_are_stamped_when_stored() {
    assert_eq!(get_profile_file("dev"), "dev.json");
    let stored = create_profile_at(profile("", "Dev"), "fresh".to_string(), false, "now".to_string()).unwrap();
    assert_eq!(stored.id, "fresh");
    assert_eq!(stored.created_at, "now");
    assert_eq!(stored.updated_at, "now");
    assert!(!stored.is_active);
    assert_eq!(stored.name, "Dev");
    assert_eq!(
        create_profile_at(profile("dev", "Dev"), "dev".to_string(), true, "now".to_string()).unwrap_err(),
        "Profile with ID dev already exists"
    );
    let updated = update_profile_at(profile("other", "Dev"), "dev", "created".to_string(), "now".to_string());
    assert_eq!(updated.id, "dev");
    assert_eq!(updated.created_at, "created");
    assert_eq!(updated.updated_at, "now");
    assert!(updated.is_active);
    let copy = renamed_copy_at(profile("dev", "Dev"), "ops".to_string(), " (copy)", "now".to_string());
    assert_eq!(copy.id, "ops");
    assert_eq!(copy.name, "Dev (copy)");
    assert_eq!(copy.last_used_at, None);
    assert!(!copy.is_active);
    assert_eq!(copy.java_version, Some("17".to_string()));
    let imported = import_profile(profile("dev", "Dev"));
    assert_eq!(imported.name, "Dev (imported)");
    assert_ne!(imported.id, "dev");
    assert!(!imported.id.is_empty());
    assert_eq!(imported.created_at, imported.updated_at);
    let duplicated = duplicate_profile(profile("dev", "Dev"));
    assert_eq!(duplicated.name, "Dev (copy)");
    assert_ne!(duplicated.id, imported.id);
    let used = used_at(profile("dev", "Dev"), "t".to_string());
    assert_eq!(used.last_used_at, Some("t".to_string()));
    assert!(used.is_active);
    assert_eq!(profile_not_found("gone"), "Profile gone not found");
}

#[test]
fn active_profile_follows_the_settings() {
    let mut config = AppConfig::default();
    assert!(!is_active_profile(&config, "dev"));
    config = config_with_profile(config, "dev".to_string());
    assert!(is_active_profile(&config, "dev"));
    assert!(!is_active_profile(&config, "ops"));
    let mut p = profile("ops", "x");
    mark_active(&mut p, &config);
    assert!(!p.is_active);
    let mut p = profile("dev", "x");
    p.is_active = false;
    mark_active(&mut p, &config);
    assert!(p.is_active);
    let kept = config_without_profile(config.clone(), "ops");
    assert_eq!(kept.active_profile_id, Some("dev".to_string()));
    let cleared = config_without_profile(config, "dev");
    assert_eq!(cleared.active_profile_id, None);
}

#[test]
fn tools_are_switched_by_path_before_version() {
    assert!(matches!(tool_switch(&None, &None), ToolSwitch::Nothing));
    assert!(matches!(tool_switch(&Some(String::new()), &Some("17".to_string())), ToolSwitch::Nothing));
    assert!(matches!(tool_switch(&None, &Some(String::new())), ToolSwitch::Nothing));
    match tool_switch(&Some("/opt/jdk".to_string()), &Some("17".to_string())) {
        ToolSwitch::ToPath(p) => assert_eq!(p, "/opt/jdk"),
        other => panic!("unexpected: {:?}", other),
    }
    match tool_switch(&None, &Some("17".to_string())) {
        ToolSwitch::ToVersion(v) => assert_eq!(v, "17"),
        other => panic!("unexpected: {:?}", other),
    }
}

#[test]
fn switch_errors_and_result() {
    assert_eq!(path_switch_error("Java", &LinkOutcome::Done), None);
    assert_eq!(
        path_switch_error("Java", &LinkOutcome::Refused(Some("no".to_string()))),
        Some("Java symlink failed: no".to_string())
    );
    assert_eq!(
        path_switch_error("Node", &LinkOutcome::Refused(None)),
        Some("Node symlink failed: ".to_string())
    );
    assert_eq!(
        path_switch_error("Node", &LinkOutcome::Failed("gone".to_string())),
        Some("Node symlink error: gone".to_string())
    );
    assert_eq!(version_switch_error("Java", "17", &LinkOutcome::Done), None);
    assert_eq!(
        version_switch_error("Java", "17", &LinkOutcome::Failed("x".to_string())),
        Some("Failed to set Java symlink for version 17".to_string())
    );
    assert_eq!(env_var_error("A", "denied"), "Failed to set A: denied");
    assert_eq!(maven_switch_error("gone"), "Maven switch error: gone");
    let ok = switch_result("dev".to_string(), true, false, true, true, &vec![]);
    assert!(ok.success);
    assert_eq!(ok.profile_id, "dev");
    assert_eq!(ok.message, Some("Profile switched successfully".to_string()));
    assert_eq!(ok.error, None);
    assert!(ok.java_switched && !ok.node_switched && ok.maven_switched && ok.env_vars_set);
    let errors = vec!["Java symlink error: a".to_string(), "Maven switch error: b".to_string()];
    let bad = switch_result("dev".to_string(), false, false, false, true, &errors);
    assert!(!bad.success);
    assert_eq!(bad.message, Some("Profile switch completed with errors".to_string()));
    assert_eq!(bad.error, Some("Java symlink error: a; Maven switch error: b".to_string()));
    assert!(bad.env_vars_set);
    let errors = vec!["Failed to set A: denied".to_string()];
    let bad = switch_result("dev".to_string(), false, false, false, true, &errors);
    assert!(!bad.env_vars_set);
    let none = switch_result("dev".to_string(), false, false, false, false, &vec![]);
    assert!(!none.env_vars_set);
}
