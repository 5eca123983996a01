use std::cmp::Ordering;

use aem_env_manager::ordering::compare_versions;
use aem_env_manager::version::{
    extract_java_major_version, extract_node_version_from_path, extract_version_from_path,
    find_java, install_java_version, install_node_version, installed_versions, is_m2_settings_file,
    is_maven_settings_file, java_home_in, java_output_info, java_version_in_output,
    node_version_from_name, numbers_of, parse_java_version, parse_maven_local_repository,
    parse_release, settings_descent, switched_java_home, switched_with_manager, vendor_from_name,
    JavaVersion,
};

#[test]
fn test_extract_java_major_version() {
    assert_eq!(extract_java_major_version("17.0.1"), "17");
    assert_eq!(extract_java_major_version("1.8.0_301"), "8");
    assert_eq!(extract_java_major_version("11"), "11");
    assert_eq!(extract_java_major_version("21.0.1"), "21");
}

#[test]
fn test_compare_versions() {
    assert_eq!(compare_versions("v18.17.0", "v16.14.0"), Ordering::Greater);
    assert_eq!(compare_versions("v16.14.0", "v18.17.0"), Ordering::Less);
    assert_eq!(compare_versions("v18.17.0", "v18.17.0"), Ordering::Equal);
}

#[test]
fn test_extract_version_from_path() {
    assert_eq!(extract_version_from_path("jdk-17.0.1"), Some("17.0.1".to_string()));
    assert_eq!(extract_version_from_path("temurin-11.0.16"), Some("11.0.16".to_string()));
    assert_eq!(extract_version_from_path("zulu17.30.15"), Some("17.30.15".to_string()));
}

#[test]
fn java_major_version_edge_cases() {
    assert_eq!(extract_java_major_version(""), "");
    assert_eq!(extract_java_major_version("1."), "");
    assert_eq!(extract_java_major_version("1.8"), "8");
    assert_eq!(extract_java_major_version("1.8_5.3"), "8");
    assert_eq!(extract_java_major_version("10.0.2+13"), "10");
    assert_eq!(extract_java_major_version(".5"), "");
}

#[test]
fn version_in_a_name_begins_with_a_digit() {
    assert_eq!(extract_version_from_path("jdk1.8.0_301.jdk"), Some("1.8.0_301.".to_string()));
    assert_eq!(extract_version_from_path("openjdk"), None);
    assert_eq!(extract_version_from_path(""), None);
    assert_eq!(extract_version_from_path("a_.b-_9-3"), Some("3".to_string()));
    assert_eq!(extract_version_from_path("x.1-2"), Some("2".to_string()));
    assert_eq!(extract_version_from_path("21"), Some("21".to_string()));
}

#[test]
fn versions_compare_by_their_numbers() {
    assert_eq!(compare_versions("1.2", "1.2.0"), Ordering::Less);
    assert_eq!(compare_versions("1.10", "1.9"), Ordering::Greater);
    assert_eq!(compare_versions("vv2", "2"), Ordering::Equal);
    assert_eq!(compare_versions("", ""), Ordering::Equal);
    assert_eq!(compare_versions("1.x.3", "1.3"), Ordering::Equal);
    assert_eq!(compare_versions("4294967295", "4294967296"), Ordering::Greater);
    assert_eq!(compare_versions("+1", "1"), Ordering::Equal);
    assert_eq!(numbers_of("v18.17.0"), vec![18, 17, 0]);
    assert_eq!(numbers_of("1..2.-3. 4"), vec![1, 2]);
}

#[test]
fn node_version_from_the_name_of_a_directory() {
    assert_eq!(node_version_from_name("v18.17.0"), Some("v18.17.0".to_string()));
    assert_eq!(node_version_from_name("node-v18.17.0"), Some("v18.17.0".to_string()));
    assert_eq!(node_version_from_name("node-18.17.0"), Some("v18.17.0".to_string()));
    assert_eq!(node_version_from_name("node18"), Some("v18".to_string()));
    assert_eq!(node_version_from_name("nodevv--20"), Some("v20".to_string()));
    assert_eq!(node_version_from_name("current"), None);
    assert_eq!(node_version_from_name("v"), None);
    assert_eq!(extract_node_version_from_path("/home/u/.nvm/versions/node/v20.1.0"), Some("v20.1.0".to_string()));
    assert_eq!(extract_node_version_from_path("/"), None);
}

#[test]
fn release_file_names_version_and_vendor() {
    let content = "IMPLEMENTOR=\"Eclipse Adoptium\"\nJAVA_VERSION=\"17.0.8\"\nOS_NAME=\"Linux\"\n";
    assert_eq!(
        parse_release(content),
        Some(("17".to_string(), "Eclipse Adoptium".to_string(), Some("17.0.8".to_string())))
    );
    assert_eq!(
        parse_release("JAVA_VERSION=\"1.8.0_392\""),
        Some(("8".to_string(), "Unknown".to_string(), Some("1.8.0_392".to_string())))
    );
    assert_eq!(parse_release("IMPLEMENTOR=\"X\""), None);
    assert_eq!(parse_release(""), None);
}

#[test]
fn java_version_from_release_or_directory() {
    let release = Some("JAVA_VERSION=\"21.0.1\"\n".to_string());
    assert_eq!(
        parse_java_version(&release, &Some("whatever".to_string())),
        Some(("21".to_string(), "Unknown".to_string(), Some("21.0.1".to_string())))
    );
    assert_eq!(
        parse_java_version(&None, &Some("zulu17.30.15".to_string())),
        Some(("17.30.15".to_string(), "Azul Zulu".to_string(), None))
    );
    assert_eq!(
        parse_java_version(&Some("garbage".to_string()), &Some("jdk-11".to_string())),
        Some(("11".to_string(), "Oracle".to_string(), None))
    );
    assert_eq!(parse_java_version(&None, &Some("java".to_string())), None);
    assert_eq!(parse_java_version(&None, &None), None);
}

#[test]
fn vendors_by_directory_name() {
    assert_eq!(vendor_from_name("temurin-17"), "Eclipse Adoptium");
    assert_eq!(vendor_from_name("adoptium"), "Eclipse Adoptium");
    assert_eq!(vendor_from_name("zulu-8"), "Azul Zulu");
    assert_eq!(vendor_from_name("amazon-corretto-11"), "Amazon Corretto");
    assert_eq!(vendor_from_name("graalvm-ce"), "GraalVM");
    assert_eq!(vendor_from_name("java-11-openjdk"), "OpenJDK");
    assert_eq!(vendor_from_name("oracle-jdk"), "Oracle");
    assert_eq!(vendor_from_name("jdk-21"), "Oracle");
    assert_eq!(vendor_from_name("my-jdk"), "Unknown");
}

#[test]
fn java_version_output_is_read() {
    let output = "openjdk version \"17.0.1\" 2021-10-19\nOpenJDK Runtime Environment Temurin-17.0.1+12\n";
    assert_eq!(java_version_in_output(output), Some("17".to_string()));
    assert_eq!(java_version_in_output("java version \"1.8.0_301\""), Some("8".to_string()));
    assert_eq!(java_version_in_output("version 17"), None);
    assert_eq!(java_version_in_output("version \"17"), None);
    assert_eq!(java_version_in_output(""), None);
    assert_eq!(java_output_info(output), ("17".to_string(), "OpenJDK".to_string()));
    assert_eq!(
        java_output_info("java version \"1.8.0\"\nJava HotSpot(TM) 64-Bit Server VM"),
        ("8".to_string(), "Oracle".to_string())
    );
    assert_eq!(java_output_info("nothing"), ("Unknown".to_string(), "Unknown".to_string()));
}

#[test]
fn maven_settings_names() {
    assert!(is_maven_settings_file("settings.xml"));
    assert!(is_maven_settings_file("Settings-work.XML"));
    assert!(is_maven_settings_file("corp.m2.backup.xml"));
    assert!(!is_maven_settings_file("settings.json"));
    assert!(!is_maven_settings_file("pom.xml"));
}

#[test]
fn maven_local_repository_is_read() {
    let home = Some("/home/u".to_string());
    assert_eq!(
        parse_maven_local_repository("<settings><localRepository> /data/repo </localRepository></settings>", &home),
        Some("/data/repo".to_string())
    );
    assert_eq!(
        parse_maven_local_repository("<settings><!-- <localRepository>/path/to/local/repo</localRepository> --></settings>", &home),
        Some("/home/u/.m2/repository".to_string())
    );
    assert_eq!(
        parse_maven_local_repository("<localRepository>/path/to/local/repo</localRepository>", &home),
        Some("/home/u/.m2/repository".to_string())
    );
    assert_eq!(
        parse_maven_local_repository("<localRepository>${user.home}/repo</localRepository>", &home),
        Some("/home/u/.m2/repository".to_string())
    );
    assert_eq!(
        parse_maven_local_repository("<localRepository>~/repo</localRepository>", &home),
        Some("/home/u/repo".to_string())
    );
    assert_eq!(
        parse_maven_local_repository("<localRepository>~/repo</localRepository>", &None),
        Some("~/repo".to_string())
    );
    assert_eq!(parse_maven_local_repository("<settings/>", &None), None);
    assert_eq!(
        parse_maven_local_repository("<localRepository></localRepository>", &home),
        Some("/home/u/.m2/repository".to_string())
    );
    assert_eq!(
        parse_maven_local_repository("a<!-- x --><localRepository>/r1</localRepository><!-- y --> b", &home),
        Some("/r1".to_string())
    );
}

#[test]
fn installing_is_left_to_the_manager() {
    assert_eq!(
        install_java_version("17", "temurin", "sdkman"),
        Err("Please use sdkman to install Java 17 (temurin). Run: sdk install java 17".to_string())
    );
    assert_eq!(
        install_node_version("20", "nvm"),
        Err("Please use nvm to install Node 20. Run the appropriate install command.".to_string())
    );
}

#[test]
fn managed_versions_and_switch_results() {
    let listed = installed_versions(&vec!["17.0.1".to_string(), "11".to_string()]);
    assert_eq!(listed.len(), 2);
    assert_eq!(listed[0].version, "17.0.1");
    assert_eq!(listed[1].version, "11");
    assert_eq!(listed[1].path, "");
    assert!(!listed[1].is_default);
    assert_eq!(listed[1].vendor, None);
    let r = switched_with_manager("Java", Some("11".to_string()), "17", "sdkman");
    assert!(r.success);
    assert_eq!(r.previous_version, Some("11".to_string()));
    assert_eq!(r.current_version, "17");
    assert_eq!(r.message, Some("Switched to Java 17 via sdkman".to_string()));
    assert_eq!(r.error, None);
    let r = switched_java_home(None, "17".to_string(), "/opt/jdk-17");
    assert_eq!(r.message, Some("JAVA_HOME set to /opt/jdk-17".to_string()));
}

#[test]
fn java_is_found_by_version_or_path() {
    let all = vec![
        JavaVersion {
            version: "11".to_string(),
            vendor: "x".to_string(),
            path: "/opt/jdk-11".to_string(),
            is_default: false,
            is_current: false,
            full_version: None,
        },
        JavaVersion {
            version: "17".to_string(),
            vendor: "x".to_string(),
            path: "/opt/jdk-17.0.1".to_string(),
            is_default: false,
            is_current: false,
            full_version: None,
        },
    ];
    assert_eq!(find_java(&all, "17"), Ok(1));
    assert_eq!(find_java(&all, "17.0.1"), Ok(1));
    assert_eq!(find_java(&all, "jdk"), Ok(0));
    assert_eq!(find_java(&all, "21"), Err("Java version 21 not found".to_string()));
}

#[test]
fn searches_for_settings_and_installations() {
    assert_eq!(settings_descent(".M2", 5, 3), Some(3));
    assert_eq!(settings_descent("conf", 0, 3), Some(3));
    assert_eq!(settings_descent("Maven", 2, 2), Some(2));
    assert_eq!(settings_descent("src", 1, 3), Some(2));
    assert_eq!(settings_descent("src", 2, 3), None);
    assert!(is_m2_settings_file("Settings-work.txt"));
    assert!(is_m2_settings_file("old.m2.xml"));
    assert!(!is_m2_settings_file("toolchains.xml"));
    assert_eq!(java_home_in("/jdk", true, true), Some("/jdk/Contents/Home".to_string()));
    assert_eq!(java_home_in("/jdk", true, false), Some("/jdk".to_string()));
    assert_eq!(java_home_in("/jdk", false, false), None);
}
