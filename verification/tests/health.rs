use aem_env_manager::credentials::{get_instance_credentials, CredentialStore, Credentials};
use aem_env_manager::detection::{PortListener, ProbeAction, ProbeEvent};
use aem_env_manager::health::{
    bundle_status, extract_memory_value, megabytes_to_bytes, parse_bundle_response,
    parse_memory_status, parse_version_info,
};
use aem_env_manager::instance::{
    AemInstance, AemInstanceStatus, AemInstanceType, BundleStatus, MemoryStatus,
};
use aem_env_manager::json::JsonValue;
use aem_env_manager::lifecycle::{
    begin_health_check, begin_stop, check_instance_health, console_url, continue_health_check,
    health_check_result, stop_instance, HealthAction, HealthEvent, HealthProgress, HealthReport,
    HealthState, HttpReply, StopAction, StopEvent, StopProgress, StopState,
};

fn instance() -> AemInstance {
    AemInstance {
        id: "i-1".to_string(),
        name: "Local author".to_string(),
        instance_type: AemInstanceType::Author,
        host: "localhost".to_string(),
        port: 4502,
        path: String::new(),
        java_opts: None,
        run_modes: vec![],
        status: AemInstanceStatus::Unknown,
        profile_id: None,
        created_at: String::new(),
        updated_at: String::new(),
    }
}

fn admin() -> Credentials {
    Credentials { username: "admin".to_string(), password: "secret".to_string() }
}

fn reply(status: u16, body: &str) -> Option<HttpReply> {
    Some(HttpReply { status, body: body.as_bytes().to_vec(), text: body.to_string() })
}

/// Brings a health check to the point where the bundles page is asked for.
fn detected_running() -> HealthState {
    let i = instance();
    let c = admin();
    let (state, action) = begin_health_check(&i, &c);
    assert!(matches!(action, HealthAction::Probe(ProbeAction::ConnectPort { .. })));
    let state = match continue_health_check(&i, &c, state, HealthEvent::Probed(ProbeEvent::PortProbed(true))) {
        HealthProgress::Continue(s, HealthAction::Probe(ProbeAction::FindListener { port })) => {
            assert_eq!(port, 4502);
            s
        }
        other => panic!("unexpected: {:?}", other),
    };
    let listener = Some(PortListener { pid: 900, name: "java".to_string() });
    let state = match continue_health_check(&i, &c, state, HealthEvent::Probed(ProbeEvent::ListenerFound(listener))) {
        HealthProgress::Continue(s, HealthAction::Probe(ProbeAction::GetLoginPage { .. })) => s,
        other => panic!("unexpected: {:?}", other),
    };
    match continue_health_check(&i, &c, state, HealthEvent::Probed(ProbeEvent::LoginPageAnswered(Some(200)))) {
        HealthProgress::Continue(s, HealthAction::Fetch { url, username, password, timeout_ms }) => {
            assert_eq!(url, "http://localhost:4502/system/console/bundles.json");
            assert_eq!(username, "admin");
            assert_eq!(password, "secret");
            assert_eq!(timeout_ms, 10000);
            s
        }
        other => panic!("unexpected: {:?}", other),
    }
}

#[test]
fn test_extract_memory_value() {
    let text = "Heap Memory used: 512 MB\nHeap Memory maximum: 1024 MB";
    assert!(extract_memory_value(text, "Heap Memory used").is_some());
    assert!(extract_memory_value(text, "Heap Memory maximum").is_some());
}

#[test]
fn memory_values_are_megabytes_in_bytes() {
    let text = "Heap Memory used: 512 MB\nHeap Memory maximum: 1024 MB";
    assert_eq!(extract_memory_value(text, "Heap Memory used"), Some(512 * 1024 * 1024));
    assert_eq!(extract_memory_value(text, "Heap Memory maximum"), Some(1024 * 1024 * 1024));
    assert_eq!(extract_memory_value("used=1.5", "used"), Some(1572864));
    assert_eq!(extract_memory_value("used: 0.25MB", "used"), Some(262144));
    assert_eq!(extract_memory_value("used 7.", "used"), Some(7 * 1048576));
    assert_eq!(extract_memory_value("x3 used 2", "used"), Some(2 * 1048576));
}

#[test]
fn memory_value_is_missing_without_label_or_number() {
    assert_eq!(extract_memory_value("Heap: 5", "used"), None);
    assert_eq!(extract_memory_value("used: none", "used"), None);
    assert_eq!(extract_memory_value("used: 1.2.3", "used"), None);
    assert_eq!(extract_memory_value("", "used"), None);
}

#[test]
fn memory_value_saturates() {
    let chars: Vec<char> = "99999999999999999999".chars().collect();
    assert_eq!(megabytes_to_bytes(&chars), Some(u64::MAX));
    let chars: Vec<char> = "17592186044415".chars().collect();
    assert_eq!(megabytes_to_bytes(&chars), Some(17592186044415u64 * 1048576));
    let chars: Vec<char> = "17592186044416".chars().collect();
    assert_eq!(megabytes_to_bytes(&chars), Some(u64::MAX));
    let chars: Vec<char> = "0.000001".chars().collect();
    assert_eq!(megabytes_to_bytes(&chars), Some(1));
    let chars: Vec<char> = ".".chars().collect();
    assert_eq!(megabytes_to_bytes(&chars), None);
}

#[test]
fn memory_status_needs_both_values() {
    let page = "<td>Heap Memory used</td><td>256 MB</td><td>Heap Memory maximum</td><td>2048</td>";
    assert_eq!(
        parse_memory_status(page),
        Some(MemoryStatus { heap_used: 256 * 1048576, heap_max: 2048 * 1048576 })
    );
    assert_eq!(parse_memory_status("Heap Memory used: 256"), None);
    assert_eq!(parse_memory_status("Heap Memory maximum: 256"), None);
}

#[test]
fn bundles_are_counted_by_state() {
    let body = br#"{"status":"ok","data":[{"state":"Active"},{"state":"Active"},{"state":"Resolved"},{"state":"Installed"},{"state":"Fragment"},{"name":"x","state":"Active"}]}"#;
    assert_eq!(
        parse_bundle_response(body),
        Some(BundleStatus { total: 6, active: 3, resolved: 1, installed: 1 })
    );
    assert_eq!(
        parse_bundle_response(br#"{"data":[]}"#),
        Some(BundleStatus { total: 0, active: 0, resolved: 0, installed: 0 })
    );
}

#[test]
fn bundle_counts_never_exceed_the_total() {
    for body in [
        r#"{"data":[{"state":"Active"},{"state":"Resolved"},{"state":"Installed"}]}"#,
        r#"{"data":[{"state":"Starting"}]}"#,
        r#"{"data":[{"state":"Active"},{"state":"active"}]}"#,
    ] {
        let counts = parse_bundle_response(body.as_bytes()).unwrap();
        assert!(counts.active + counts.resolved + counts.installed <= counts.total);
    }
}

#[test]
fn bundle_listing_that_cannot_be_read_gives_nothing() {
    assert_eq!(parse_bundle_response(b"not json"), None);
    assert_eq!(parse_bundle_response(b""), None);
    assert_eq!(parse_bundle_response(br#"{"items":[]}"#), None);
    assert_eq!(parse_bundle_response(br#"{"data":{}}"#), None);
    assert_eq!(parse_bundle_response(br#"[{"state":"Active"}]"#), None);
    assert_eq!(parse_bundle_response(br#"{"data":[{"state":"Active"},{"name":"x"}]}"#), None);
    assert_eq!(parse_bundle_response(br#"{"data":[{"state":32}]}"#), None);
    assert_eq!(parse_bundle_response(&[0xff, 0xfe]), None);
}

#[test]
fn bundle_status_reads_a_listing() {
    let listing = JsonValue::Object(vec![(
        "data".to_string(),
        JsonValue::Array(vec![
            JsonValue::Object(vec![("state".to_string(), JsonValue::String("Active".to_string()))]),
            JsonValue::Object(vec![("state".to_string(), JsonValue::String("Resolved".to_string()))]),
        ]),
    )]);
    assert_eq!(
        bundle_status(&listing),
        Some(BundleStatus { total: 2, active: 1, resolved: 1, installed: 0 })
    );
    assert_eq!(bundle_status(&JsonValue::Null), None);
}

#[test]
fn version_page_is_read_line_by_line() {
    let page = "Product Name: Adobe Experience Manager\r\nProduct Version:  6.5.17.0 \nOak Version 1.22.15\nsome java.version = 11.0.20 \n";
    let info = parse_version_info(page).unwrap();
    assert_eq!(info.product_name, "Adobe Experience Manager");
    assert_eq!(info.product_version, "6.5.17.0");
    assert_eq!(info.oak_version, Some("1.22.15".to_string()));
    assert_eq!(info.java_version, Some("11.0.20".to_string()));
}

#[test]
fn version_page_without_product_version_gives_nothing() {
    assert!(parse_version_info("Product Name: X\nOak Version 1").is_none());
    assert!(parse_version_info("").is_none());
    let info = parse_version_info("Product Version: 1").unwrap();
    assert_eq!(info.product_name, "Adobe Experience Manager");
    assert_eq!(info.product_version, "1");
    assert_eq!(info.oak_version, None);
    assert_eq!(info.java_version, None);
    let info = parse_version_info("Product Version: 1\njava.version").unwrap();
    assert_eq!(info.java_version, None);
}

#[test]
fn unauthorized_bundles_page_means_running() {
    let i = instance();
    let c = admin();
    let state = detected_running();
    let event = HealthEvent::Fetched { reply: reply(401, "Unauthorized"), elapsed_ms: 17 };
    match continue_health_check(&i, &c, state, event) {
        HealthProgress::Finished(report) => {
            assert_eq!(report.status, AemInstanceStatus::Running);
            assert_eq!(report.bundle_status, None);
            assert_eq!(report.memory_status, None);
            assert_eq!(report.aem_version, None);
            assert_eq!(report.oak_version, None);
            assert_eq!(report.response_time, Some(17));
        }
        other => panic!("unexpected: {:?}", other),
    }
}

#[test]
fn health_check_asks_the_console_in_turn() {
    let i = instance();
    let c = admin();
    let state = detected_running();
    let bundles = r#"{"data":[{"state":"Active"},{"state":"Installed"}]}"#;
    let state = match continue_health_check(&i, &c, state, HealthEvent::Fetched { reply: reply(200, bundles), elapsed_ms: 21 }) {
        HealthProgress::Continue(s, HealthAction::Fetch { url, .. }) => {
            assert_eq!(url, "http://localhost:4502/system/console/memoryusage");
            s
        }
        other => panic!("unexpected: {:?}", other),
    };
    let memory = "Heap Memory used: 100 MB Heap Memory maximum: 400 MB";
    let state = match continue_health_check(&i, &c, state, HealthEvent::Fetched { reply: reply(200, memory), elapsed_ms: 5 }) {
        HealthProgress::Continue(s, HealthAction::Fetch { url, .. }) => {
            assert_eq!(url, "http://localhost:4502/system/console/status-productinfo.txt");
            s
        }
        other => panic!("unexpected: {:?}", other),
    };
    let product = "Product Version: 6.5.0\nOak Version: 1.10.2";
    match continue_health_check(&i, &c, state, HealthEvent::Fetched { reply: reply(200, product), elapsed_ms: 5 }) {
        HealthProgress::Finished(report) => {
            assert_eq!(report.status, AemInstanceStatus::Running);
            assert_eq!(report.response_time, Some(21));
            assert_eq!(
                report.bundle_status,
                Some(BundleStatus { total: 2, active: 1, resolved: 0, installed: 1 })
            );
            assert_eq!(
                report.memory_status,
                Some(MemoryStatus { heap_used: 100 * 1048576, heap_max: 400 * 1048576 })
            );
            assert_eq!(report.aem_version, Some("6.5.0".to_string()));
            assert_eq!(report.oak_version, Some("1.10.2".to_string()));
        }
        other => panic!("unexpected: {:?}", other),
    }
}

#[test]
fn failed_fetches_leave_their_part_empty() {
    let i = instance();
    let c = admin();
    let state = detected_running();
    let state = match continue_health_check(&i, &c, state, HealthEvent::Fetched { reply: reply(200, "<html>"), elapsed_ms: 1 }) {
        HealthProgress::Continue(s, _) => s,
        other => panic!("unexpected: {:?}", other),
    };
    let state = match continue_health_check(&i, &c, state, HealthEvent::Fetched { reply: None, elapsed_ms: 1 }) {
        HealthProgress::Continue(s, _) => s,
        other => panic!("unexpected: {:?}", other),
    };
    match continue_health_check(&i, &c, state, HealthEvent::Fetched { reply: None, elapsed_ms: 1 }) {
        HealthProgress::Finished(report) => {
            assert_eq!(report.status, AemInstanceStatus::Running);
            assert_eq!(report.bundle_status, None);
            assert_eq!(report.memory_status, None);
            assert_eq!(report.aem_version, None);
        }
        other => panic!("unexpected: {:?}", other),
    }
}

#[test]
fn unreachable_bundles_page_leaves_the_instance_running() {
    let i = instance();
    let c = admin();
    for r in [None, reply(500, ""), reply(404, ""), reply(302, "")] {
        let state = detected_running();
        match continue_health_check(&i, &c, state, HealthEvent::Fetched { reply: r, elapsed_ms: 3 }) {
            HealthProgress::Finished(report) => {
                assert_eq!(report.status, AemInstanceStatus::Running);
                assert_eq!(report.bundle_status, None);
                assert_eq!(report.memory_status, None);
                assert_eq!(report.aem_version, None);
                assert_eq!(report.oak_version, None);
                assert_eq!(report.response_time, Some(3));
            }
            other => panic!("unexpected: {:?}", other),
        }
    }
}

#[test]
fn health_check_of_a_stopped_instance_asks_nothing_of_the_console() {
    let i = instance();
    let c = admin();
    let (state, _) = begin_health_check(&i, &c);
    match continue_health_check(&i, &c, state, HealthEvent::Probed(ProbeEvent::PortProbed(false))) {
        HealthProgress::Finished(report) => {
            assert_eq!(report.status, AemInstanceStatus::Stopped);
            assert_eq!(report.response_time, None);
            assert_eq!(report.bundle_status, None);
        }
        other => panic!("unexpected: {:?}", other),
    }
}

#[test]
fn health_result_carries_the_report() {
    let report = HealthReport {
        status: AemInstanceStatus::Running,
        response_time: Some(4),
        bundle_status: None,
        memory_status: None,
        aem_version: Some("6.5".to_string()),
        oak_version: None,
    };
    let result = health_check_result("i-9".to_string(), report.clone(), "t".to_string());
    assert_eq!(result.instance_id, "i-9");
    assert_eq!(result.timestamp, "t");
    assert_eq!(result.status, AemInstanceStatus::Running);
    assert_eq!(result.response_time, Some(4));
    assert_eq!(result.aem_version, Some("6.5".to_string()));
    let result = check_instance_health("i-9".to_string(), report);
    assert_eq!(result.instance_id, "i-9");
    assert!(!result.timestamp.is_empty());
}

#[test]
fn console_urls() {
    assert_eq!(
        console_url("localhost", 4502, "/system/console/vmstat?shutdown_type=Stop"),
        "http://localhost:4502/system/console/vmstat?shutdown_type=Stop"
    );
}

#[test]
fn stop_is_optimistic_when_shutdown_is_answered() {
    let i = instance();
    let c = admin();
    let (state, action) = begin_stop(&i, &c);
    match action {
        StopAction::RequestShutdown { url, username, password, timeout_ms } => {
            assert_eq!(url, "http://localhost:4502/system/console/vmstat?shutdown_type=Stop");
            assert_eq!(username, "admin");
            assert_eq!(password, "secret");
            assert_eq!(timeout_ms, 10000);
        }
        other => panic!("unexpected: {:?}", other),
    }
    match stop_instance(&i, &c, state, StopEvent::ShutdownAnswered(true)) {
        StopProgress::Stopped(status) => assert_eq!(status, AemInstanceStatus::Stopping),
        other => panic!("unexpected: {:?}", other),
    }
}

#[test]
fn stop_falls_back_to_the_process() {
    let i = instance();
    let c = admin();
    let state = match stop_instance(&i, &c, StopState::Shutdown, StopEvent::ShutdownAnswered(false)) {
        StopProgress::Continue(s, StopAction::FindProcess { port }) => {
            assert_eq!(port, 4502);
            s
        }
        other => panic!("unexpected: {:?}", other),
    };
    let state = match stop_instance(&i, &c, state, StopEvent::ProcessFound(Some(321))) {
        StopProgress::Continue(s, StopAction::Terminate { pid }) => {
            assert_eq!(pid, 321);
            s
        }
        other => panic!("unexpected: {:?}", other),
    };
    let state = match stop_instance(&i, &c, state, StopEvent::Signalled(Ok(true))) {
        StopProgress::Continue(s, StopAction::CheckProcess { pid }) => {
            assert_eq!(s, StopState::Check(321));
            assert_eq!(pid, 321);
            s
        }
        other => panic!("unexpected: {:?}", other),
    };
    let state = match stop_instance(&i, &c, state, StopEvent::ProcessChecked(Ok(true))) {
        StopProgress::Continue(s, StopAction::Kill { pid }) => {
            assert_eq!(s, StopState::Kill(321));
            assert_eq!(pid, 321);
            s
        }
        other => panic!("unexpected: {:?}", other),
    };
    match stop_instance(&i, &c, state, StopEvent::Signalled(Ok(false))) {
        StopProgress::Stopped(status) => assert_eq!(status, AemInstanceStatus::Stopped),
        other => panic!("unexpected: {:?}", other),
    }
}

#[test]
fn process_that_ended_is_not_killed() {
    let i = instance();
    let c = admin();
    for signalled in [true, false] {
        let event = StopEvent::Signalled(Ok(signalled));
        let state = match stop_instance(&i, &c, StopState::Terminate(5), event) {
            StopProgress::Continue(s, StopAction::CheckProcess { pid }) => {
                assert_eq!(pid, 5);
                s
            }
            other => panic!("unexpected: {:?}", other),
        };
        match stop_instance(&i, &c, state, StopEvent::ProcessChecked(Ok(false))) {
            StopProgress::Stopped(status) => assert_eq!(status, AemInstanceStatus::Stopped),
            other => panic!("unexpected: {:?}", other),
        }
    }
}

#[test]
fn check_that_cannot_be_run_fails_the_stop() {
    let i = instance();
    let c = admin();
    let event = StopEvent::ProcessChecked(Err("no such command".to_string()));
    match stop_instance(&i, &c, StopState::Check(9), event) {
        StopProgress::Failed(message) => {
            assert_eq!(message, "Failed to check process: no such command")
        }
        other => panic!("unexpected: {:?}", other),
    }
}

#[test]
fn event_out_of_turn_changes_nothing() {
    let i = instance();
    let c = admin();
    match stop_instance(&i, &c, StopState::Check(9), StopEvent::Signalled(Ok(true))) {
        StopProgress::Continue(s, StopAction::CheckProcess { pid }) => {
            assert_eq!(s, StopState::Check(9));
            assert_eq!(pid, 9);
        }
        other => panic!("unexpected: {:?}", other),
    }
}

#[test]
fn stop_fails_when_nothing_is_found() {
    let i = instance();
    let c = admin();
    match stop_instance(&i, &c, StopState::FindProcess, StopEvent::ProcessFound(None)) {
        StopProgress::Failed(message) => {
            assert_eq!(message, "no process found to stop")
        }
        other => panic!("unexpected: {:?}", other),
    }
    match stop_instance(&i, &c, StopState::Terminate(5), StopEvent::Signalled(Err("denied".to_string()))) {
        StopProgress::Failed(message) => assert_eq!(message, "Failed to kill process: denied"),
        other => panic!("unexpected: {:?}", other),
    }
    match stop_instance(&i, &c, StopState::Kill(5), StopEvent::Signalled(Err("denied".to_string()))) {
        StopProgress::Failed(message) => assert_eq!(message, "Failed to force kill process: denied"),
        other => panic!("unexpected: {:?}", other),
    }
}

#[test]
fn credentials_fall_back_to_admin() {
    let mut store = CredentialStore::new();
    let c = get_instance_credentials(&store, "i-1", &None);
    assert_eq!((c.username.as_str(), c.password.as_str()), ("admin", "admin"));
    let c = get_instance_credentials(&store, "i-1", &Some("operator".to_string()));
    assert_eq!((c.username.as_str(), c.password.as_str()), ("operator", "admin"));
    store.insert("i-1", "alice", "pw1");
    store.insert("i-2", "bob", "pw2");
    let c = get_instance_credentials(&store, "i-1", &Some("operator".to_string()));
    assert_eq!((c.username.as_str(), c.password.as_str()), ("alice", "pw1"));
    let c = get_instance_credentials(&store, "i-3", &None);
    assert_eq!((c.username.as_str(), c.password.as_str()), ("admin", "admin"));
}

#[test]
fn credential_store_keeps_one_entry_for_an_instance() {
    let mut store = CredentialStore::new();
    assert!(store.get("a").is_none());
    store.insert("a", "u1", "first");
    store.insert("b", "u2", "second");
    store.insert("a", "u3", "third");
    assert_eq!(store.entries.len(), 2);
    let a = store.get("a").unwrap();
    assert_eq!((a.username.as_str(), a.password.as_str()), ("u3", "third"));
    let b = store.get("b").unwrap();
    assert_eq!((b.username.as_str(), b.password.as_str()), ("u2", "second"));
    store.remove("a");
    assert!(store.get("a").is_none());
    assert!(store.get("b").is_some());
    store.remove("zzz");
    assert_eq!(store.entries.len(), 1);
}
