use std::cmp::Ordering;

use aem_env_manager::instance::{
    add_instance, add_instance_with_id, base_url, browser_url, default_status, delete_instance,
    find_instance, get_instance, get_instance_urls, set_instance_status, update_instance,
    AemInstance, AemInstanceStatus, AemInstanceType,
};
use aem_env_manager::launch::{
    apple_script, environment_exports, jar_not_found, java_executable, jvm_arguments,
    launch_commands, profile_java_home, quote_arguments, shell_quoted, terminal_command,
};
use aem_env_manager::ordering::{compare_profiles, compare_scanned, compare_strings};
use aem_env_manager::platform::TargetOs;
use aem_env_manager::profile::{
    java_installed, maven_stored, node_installed, profile_order, validate_profile,
    EnvironmentProfile,
};
use aem_env_manager::scan::{
    classify_jar, find_license_file, is_quickstart_jar, license_file_names, parse_jar_name,
    read_jar_name, scan_directories, scanned_before, scanned_instance, JarPatterns,
    ScannedAemInstance,
};
use aem_env_manager::version::{
    current_maven_config, find_node_manager, macos_version_managers, maven_config_file,
    maven_config_not_found, stored_maven_config, unknown_manager, unknown_manager_or_tool,
    windows_version_managers, JavaVersion, MavenConfig, NodeVersion, VersionManagerType,
};

fn instance(id: &str, port: u16) -> AemInstance {
    AemInstance {
        id: id.to_string(),
        name: format!("Instance {}", id),
        instance_type: AemInstanceType::Author,
        host: "localhost".to_string(),
        port,
        path: "/opt/aem".to_string(),
        java_opts: None,
        run_modes: vec![],
        status: AemInstanceStatus::Running,
        profile_id: None,
        created_at: "c".to_string(),
        updated_at: "u".to_string(),
    }
}

fn profile(name: &str, last_used: Option<&str>) -> EnvironmentProfile {
    EnvironmentProfile {
        id: name.to_string(),
        name: name.to_string(),
        description: None,
        java_version: None,
        java_manager_id: None,
        java_path: None,
        node_version: None,
        node_manager_id: None,
        node_path: None,
        maven_config_id: None,
        author_instance_id: None,
        publish_instance_id: None,
        env_vars: None,
        created_at: String::new(),
        updated_at: String::new(),
        last_used_at: last_used.map(|t| t.to_string()),
        is_active: false,
    }
}

#[test]
fn instances_are_added_with_unknown_status() {
    assert_eq!(default_status(), AemInstanceStatus::Stopped);
    let mut all: Vec<AemInstance> = Vec::new();
    let added = add_instance_with_id(&mut all, instance("", 4502), "fresh".to_string()).unwrap();
    assert_eq!(added.id, "fresh");
    assert_eq!(added.status, AemInstanceStatus::Unknown);
    assert_eq!(added.port, 4502);
    let own = add_instance_with_id(&mut all, instance("mine", 4503), "unused".to_string()).unwrap();
    assert_eq!(own.id, "mine");
    assert_eq!(all.len(), 2);
    assert_eq!(
        add_instance_with_id(&mut all, instance("", 1), "mine".to_string()).unwrap_err(),
        "Instance with ID mine already exists"
    );
    assert_eq!(all.len(), 2);
    let random = add_instance(&mut all, instance("", 1)).unwrap();
    assert_eq!(random.id.len(), 36);
    assert_eq!(all.len(), 3);
    assert_eq!(all[2].id, random.id);
}

#[test]
fn instances_are_found_updated_and_deleted() {
    let mut all = vec![instance("a", 1), instance("b", 2), instance("c", 3)];
    assert_eq!(find_instance(&all, "b"), Ok(1));
    assert_eq!(find_instance(&all, "z"), Err("Instance z not found".to_string()));
    assert_eq!(get_instance(&all, "c").unwrap().port, 3);
    assert!(get_instance(&all, "z").is_none());
    let updated = update_instance(&mut all, "b", instance("other", 22)).unwrap();
    assert_eq!(updated.id, "b");
    assert_eq!(updated.port, 22);
    assert_eq!(all[1].port, 22);
    assert_eq!(all[1].id, "b");
    assert_eq!(update_instance(&mut all, "z", instance("z", 1)).unwrap_err(), "Instance z not found");
    set_instance_status(&mut all, "a", AemInstanceStatus::Stopping, None).unwrap();
    assert_eq!(all[0].status, AemInstanceStatus::Stopping);
    assert_eq!(all[0].updated_at, "u");
    set_instance_status(&mut all, "a", AemInstanceStatus::Stopped, Some("now".to_string())).unwrap();
    assert_eq!(all[0].updated_at, "now");
    assert_eq!(set_instance_status(&mut all, "z", AemInstanceStatus::Error, None), Err("Instance z not found".to_string()));
    assert_eq!(delete_instance(&mut all, "b"), Ok(true));
    assert_eq!(all.iter().map(|i| i.id.as_str()).collect::<Vec<_>>(), vec!["a", "c"]);
    assert_eq!(delete_instance(&mut all, "b"), Err("Instance b not found".to_string()));
}

#[test]
fn instance_addresses() {
    let i = instance("a", 4502);
    assert_eq!(base_url(&i), "http://localhost:4502");
    assert_eq!(browser_url(&i, &None), "http://localhost:4502");
    assert_eq!(browser_url(&i, &Some("/crx/de".to_string())), "http://localhost:4502/crx/de");
    let urls = get_instance_urls(&i);
    assert_eq!(urls.len(), 8);
    assert_eq!(urls[0], ("home".to_string(), "http://localhost:4502/aem/start.html".to_string()));
    assert_eq!(urls[3], ("console".to_string(), "http://localhost:4502/system/console".to_string()));
    assert_eq!(
        urls[7],
        (
            "workflow".to_string(),
            "http://localhost:4502/libs/cq/workflow/admin/console/content/instances.html".to_string()
        )
    );
}

#[test]
fn jar_names_tell_type_and_port() {
    assert_eq!(parse_jar_name("aem-author-p4502.jar"), Ok(Some(("aem-author-p4502".to_string(), AemInstanceType::Author, 4502))));
    assert_eq!(parse_jar_name("AEM-Publish-P4503.JAR"), Ok(Some(("aem-publish-p4503".to_string(), AemInstanceType::Publish, 4503))));
    assert_eq!(parse_jar_name("cqauthorp80.jar"), Ok(Some(("cqauthorp80".to_string(), AemInstanceType::Author, 80))));
    assert_eq!(parse_jar_name("aem-publish-p99999.jar"), Ok(Some(("aem-publish-p99999".to_string(), AemInstanceType::Publish, 4503))));
    assert_eq!(parse_jar_name("aem-sdk-quickstart-2024.8.17740.jar"), Ok(Some(("aem-sdk-quickstart-2024.8.17740".to_string(), AemInstanceType::Author, 4502))));
    assert_eq!(parse_jar_name("cq-quickstart-5.6.jar"), Ok(Some(("cq-quickstart-5.6".to_string(), AemInstanceType::Author, 4502))));
    assert_eq!(parse_jar_name("cqquickstart.jar.jar"), Ok(Some(("cqquickstart".to_string(), AemInstanceType::Author, 4502))));
    assert_eq!(parse_jar_name("commons-io.jar"), Ok(None));
    assert_eq!(parse_jar_name("aem-author-p4502.zip"), Err("File is not a JAR file".to_string()));
    let patterns = JarPatterns::new().unwrap();
    assert_eq!(read_jar_name(&patterns, "aem-author-p1.jar"), Ok(Some(("aem-author-p1".to_string(), AemInstanceType::Author, 1))));
    assert_eq!(patterns.classify("aem-publish-p22.jar"), Some((AemInstanceType::Publish, 22)));
    assert_eq!(patterns.classify("x.jar"), None);
}

#[test]
fn jar_classification_from_groups() {
    let groups = |t: &str, p: &str| Some(vec![Some("whole".to_string()), Some(t.to_string()), Some(p.to_string())]);
    assert_eq!(classify_jar(&groups("publish", "4503"), false, false), Some((AemInstanceType::Publish, 4503)));
    assert_eq!(classify_jar(&groups("author", "65536"), false, false), Some((AemInstanceType::Author, 4502)));
    assert_eq!(classify_jar(&groups("other", "x"), true, true), Some((AemInstanceType::Author, 4502)));
    assert_eq!(classify_jar(&Some(vec![]), false, false), Some((AemInstanceType::Author, 4502)));
    assert_eq!(classify_jar(&Some(vec![None, Some("publish".to_string()), None]), false, false), Some((AemInstanceType::Publish, 4503)));
    assert_eq!(classify_jar(&None, true, false), Some((AemInstanceType::Author, 4502)));
    assert_eq!(classify_jar(&None, false, true), Some((AemInstanceType::Author, 4502)));
    assert_eq!(classify_jar(&None, false, false), None);
}

#[test]
fn found_instances_and_their_order() {
    let found = |t: AemInstanceType, port: u16| -> ScannedAemInstance {
        scanned_instance(("n".to_string(), t, port), "/d".to_string(), "/d/n.jar".to_string(), None)
    };
    let a = found(AemInstanceType::Author, 4502);
    assert_eq!(a.name, "n");
    assert_eq!(a.path, "/d");
    assert_eq!(a.jar_path, Some("/d/n.jar".to_string()));
    assert_eq!(a.license_file_path, None);
    let p = found(AemInstanceType::Publish, 80);
    assert!(scanned_before(&a, &p));
    assert!(!scanned_before(&p, &a));
    assert!(scanned_before(&found(AemInstanceType::Author, 1), &a));
    assert!(!scanned_before(&a, &a));
    assert_eq!(compare_scanned(&a, &p), Ordering::Less);
    assert_eq!(compare_scanned(&p, &a), Ordering::Greater);
    assert_eq!(compare_scanned(&a, &a), Ordering::Equal);
    assert_eq!(compare_scanned(&found(AemInstanceType::Publish, 1), &found(AemInstanceType::Publish, 2)), Ordering::Less);
}

#[test]
fn places_that_are_scanned() {
    assert!(is_quickstart_jar("aem-author-p4502.jar"));
    assert!(is_quickstart_jar("cq-5.jar"));
    assert!(is_quickstart_jar("my-quickstart.jar"));
    assert!(!is_quickstart_jar("aem-author.zip"));
    assert!(!is_quickstart_jar("commons.jar"));
    assert_eq!(license_file_names().len(), 5);
    assert_eq!(find_license_file("/d")[3], "/d/license-key.txt");
    let dirs = scan_directories(&vec!["/custom".to_string()], "/base", &Some("/home/u".to_string()));
    assert_eq!(dirs.len(), 1 + 1 + 27 + 1);
    assert_eq!(dirs[0], "/custom");
    assert_eq!(dirs[1], "/base");
    assert_eq!(dirs[2], "/home/u/aem");
    assert_eq!(dirs[5], "/home/u/Adobe/AEM");
    assert_eq!(dirs[28], "/home/u/Applications");
    assert_eq!(dirs[29], "/opt/aem");
    assert_eq!(scan_directories(&vec![], "", &None), vec!["/opt/aem"]);
}

#[test]
fn java_machine_arguments() {
    let mut i = instance("a", 4502);
    assert_eq!(jvm_arguments(&i), vec!["-Xmx1024m", "-Dsling.run.modes=author,local", "-Dhttp.port=4502"]);
    i.java_opts = Some("  java -Xmx2g   /usr/bin/java -Dfoo=bar\t-server ".to_string());
    i.instance_type = AemInstanceType::Publish;
    i.run_modes = vec!["publish".to_string(), "dev".to_string(), "nosample".to_string()];
    assert_eq!(
        jvm_arguments(&i),
        vec!["-Xmx2g", "-Dfoo=bar", "-server", "-Dsling.run.modes=publish,dev,nosample", "-Dhttp.port=4502"]
    );
    i.java_opts = Some(String::new());
    i.run_modes = vec![];
    assert_eq!(jvm_arguments(&i), vec!["-Dsling.run.modes=publish,local", "-Dhttp.port=4502"]);
}

#[test]
fn terminal_commands_are_quoted() {
    assert_eq!(shell_quoted("-Xmx1g"), "'-Xmx1g'");
    assert_eq!(shell_quoted("it's"), "'it'\\''s'");
    assert_eq!(quote_arguments(&vec!["a".to_string(), "b c".to_string()]), "'a' 'b c'");
    assert_eq!(quote_arguments(&vec![]), "");
    assert_eq!(environment_exports(&None, &None), "");
    assert_eq!(
        environment_exports(&Some("/jdk".to_string()), &Some(vec![("A".to_string(), "1".to_string()), ("B".to_string(), "2".to_string())])),
        "export JAVA_HOME='/jdk'\nexport PATH=\"/jdk/bin:$PATH\"\nexport A='1'\nexport B='2'\n"
    );
    assert_eq!(java_executable(&Some("/jdk".to_string()), true), "/jdk/bin/java");
    assert_eq!(java_executable(&Some("/jdk".to_string()), false), "java");
    assert_eq!(java_executable(&None, true), "java");
    assert_eq!(profile_java_home(&Some(String::new())), None);
    assert_eq!(profile_java_home(&Some("/jdk".to_string())), Some("/jdk".to_string()));
    assert_eq!(
        terminal_command("export A='1'\n", "/opt/aem", "Author", 4502, "java", "'-Xmx1g'", "/opt/aem/q.jar"),
        "export A='1'\ncd '/opt/aem' && echo 'Starting AEM Instance: Author' && echo 'Port: 4502' && echo '---' && 'java' '-Xmx1g' -jar '/opt/aem/q.jar'"
    );
    assert_eq!(
        apple_script("export A=\"1\"\ncd x"),
        "tell application \"Terminal\"\n                activate\n                do script \"export A=\\\"1\\\"; cd x\"\n            end tell"
    );
    let linux = launch_commands(TargetOs::Linux, "run");
    assert_eq!(linux[0].program, "gnome-terminal");
    assert_eq!(linux[0].args, vec!["--", "bash", "-c", "run; exec bash"]);
    assert_eq!(linux[1].args, vec!["-e", "bash -c 'run; exec bash'"]);
    assert_eq!(launch_commands(TargetOs::Windows, "run")[0].args, vec!["/c", "start", "cmd", "/k", "run"]);
    assert_eq!(launch_commands(TargetOs::MacOS, "run")[0].program, "osascript");
    assert_eq!(jar_not_found("/x"), "Quickstart JAR not found: /x");
}

#[test]
fn profiles_are_validated() {
    let mut p = profile("dev", None);
    let r = validate_profile(&p, false, false, false, false, false);
    assert!(r.is_valid);
    assert!(!r.java_available && !r.node_available && r.maven_available && r.aem_instance_exists);
    assert!(r.missing_components.is_empty());
    assert_eq!(r.warnings, vec!["No Java version specified", "No Node version specified"]);
    p.java_version = Some("17".to_string());
    p.node_version = Some(String::new());
    p.maven_config_id = Some("corp".to_string());
    p.author_instance_id = Some("auth-1".to_string());
    p.publish_instance_id = Some("pub-1".to_string());
    let r = validate_profile(&p, false, true, false, false, true);
    assert!(!r.is_valid);
    assert!(!r.java_available && !r.node_available && !r.maven_available && !r.aem_instance_exists);
    assert_eq!(r.missing_components, vec!["Java 17", "Maven config 'corp'", "AEM Author instance 'auth-1'"]);
    assert_eq!(r.warnings, vec!["No Node version specified", "AEM Author instance not found, but profile can still be activated"]);
    let r = validate_profile(&p, true, true, true, true, false);
    assert!(r.is_valid);
    assert!(r.java_available && r.maven_available && !r.aem_instance_exists);
    assert_eq!(r.missing_components, vec!["AEM Publish instance 'pub-1'"]);
}

#[test]
fn installed_versions_are_looked_up() {
    let java = vec![JavaVersion { version: "17".to_string(), vendor: String::new(), path: String::new(), is_default: false, is_current: false, full_version: None }];
    assert!(java_installed(&java, "17"));
    assert!(!java_installed(&java, "1"));
    let node = vec![NodeVersion { version: "v18.17.0".to_string(), path: String::new(), is_default: false, is_current: false }];
    assert!(node_installed(&node, "18.17.0"));
    assert!(node_installed(&node, "v18.17.0"));
    assert!(node_installed(&node, "vv18.17.0"));
    assert!(!node_installed(&node, "18"));
    let maven = vec![MavenConfig { id: "corp".to_string(), name: String::new(), path: String::new(), is_active: false, description: None, local_repository: None }];
    assert!(maven_stored(&maven, "corp"));
    assert!(!maven_stored(&maven, "home"));
}

#[test]
fn profiles_are_ordered_for_the_list() {
    let never_a = profile("alpha", None);
    let never_b = profile("beta", None);
    let early = profile("zeta", Some("2024-01-01T00:00:00Z"));
    let late = profile("eta", Some("2024-06-01T00:00:00Z"));
    assert_eq!(profile_order(&late, &early), -1);
    assert_eq!(profile_order(&early, &late), 1);
    assert_eq!(profile_order(&never_a, &early), -1);
    assert_eq!(profile_order(&early, &never_a), 1);
    assert_eq!(profile_order(&never_a, &never_b), -1);
    assert_eq!(profile_order(&never_a, &never_a), 0);
    assert_eq!(compare_profiles(&late, &early), Ordering::Less);
    assert_eq!(compare_profiles(&never_b, &never_a), Ordering::Greater);
    assert_eq!(compare_strings("abc", "abd"), Ordering::Less);
    assert_eq!(compare_strings("b", "abc"), Ordering::Greater);
    assert_eq!(compare_strings("ab", "abc"), Ordering::Less);
    assert_eq!(compare_strings("", ""), Ordering::Equal);
    assert_eq!(compare_strings("é", "z"), Ordering::Greater);
}

#[test]
fn version_managers_are_listed() {
    let home = Some("/Users/u".to_string());
    let mac = macos_version_managers(&home, true, false, true);
    assert_eq!(mac.len(), 3);
    assert_eq!(mac[0].id, "sdkman");
    assert_eq!(mac[0].name, "SDKMAN");
    assert!(mac[0].is_installed && mac[0].is_active);
    assert_eq!(mac[0].path, Some("/Users/u/.sdkman".to_string()));
    assert_eq!(mac[1].name, "jEnv");
    assert!(!mac[1].is_installed && !mac[1].is_active);
    assert_eq!(mac[2].manager_type, VersionManagerType::Nvm);
    assert_eq!(find_node_manager(&mac), Ok(2));
    let mac = macos_version_managers(&None, true, true, false);
    assert_eq!(mac[2].path, None);
    assert_eq!(
        find_node_manager(&mac),
        Err("No Node version manager found. Please install nvm, fnm, or volta to switch Node versions.".to_string())
    );
    let win = windows_version_managers(&home, Some("D:\\nvm".to_string()), false, false, true, true);
    assert_eq!(win.len(), 4);
    assert_eq!(win[1].path, None);
    assert_eq!(win[3].id, "nvm-windows");
    assert_eq!(win[3].path, Some("D:\\nvm".to_string()));
    assert_eq!(find_node_manager(&win), Ok(2));
    assert_eq!(unknown_manager("Java", "asdf"), "Unknown Java version manager: asdf");
    assert_eq!(unknown_manager_or_tool("nvm", "java"), "Unknown manager or tool type: nvm / java");
    assert_eq!(maven_config_not_found("corp"), "Maven config 'corp' not found");
    assert_eq!(maven_config_file("corp"), "corp.xml");
    let current = current_maven_config("/home/u/.m2/settings.xml".to_string(), None);
    assert_eq!(current.id, "current");
    assert!(current.is_active);
    let stored = stored_maven_config("corp".to_string(), "/d/corp.xml".to_string(), &Some("/d/corp.xml".to_string()), None);
    assert!(stored.is_active);
    assert_eq!(stored.id, "corp");
    let stored = stored_maven_config("corp".to_string(), "/d/corp.xml".to_string(), &None, None);
    assert!(!stored.is_active);
}
