use aem_env_manager::detection::{
    begin_detection, check_aem_http_ready, conflict_message, continue_detection,
    detect_all_instances_status, detect_all_instances_status_at, detect_instance_status,
    detection_result, is_java_name, is_java_process, login_url, socket_address, Detection, DetectionState,
    HTTP_PROBE_TIMEOUT_MS, PORT_PROBE_TIMEOUT_MS, PortListener, ProbeAction, ProbeEvent, Progress,
    TimedDetection,
};
use aem_env_manager::instance::{AemInstance, AemInstanceStatus, AemInstanceType};

fn instance(host: &str, port: u16) -> AemInstance {
    AemInstance {
        id: "i-1".to_string(),
        name: "Local author".to_string(),
        instance_type: AemInstanceType::Author,
        host: host.to_string(),
        port,
        path: String::new(),
        java_opts: None,
        run_modes: vec![],
        status: AemInstanceStatus::Unknown,
        profile_id: None,
        created_at: String::new(),
        updated_at: String::new(),
    }
}

/// Runs a detection against a fixed observation and counts the probes made.
fn detect(
    instance: &AemInstance,
    port_open: bool,
    listener: Option<(u32, &str)>,
    login: Option<u16>,
) -> (Detection, Vec<String>) {
    let (mut state, mut action) = begin_detection(instance);
    let mut probes = Vec::new();
    loop {
        let event = match &action {
            ProbeAction::ConnectPort { host, port, timeout_ms } => {
                probes.push(format!("connect {}:{} {}", host, port, timeout_ms));
                ProbeEvent::PortProbed(port_open)
            }
            ProbeAction::FindListener { port } => {
                probes.push(format!("listener {}", port));
                ProbeEvent::ListenerFound(
                    listener.map(|(pid, name)| PortListener { pid, name: name.to_string() }),
                )
            }
            ProbeAction::GetLoginPage { url, timeout_ms } => {
                probes.push(format!("get {} {}", url, timeout_ms));
                ProbeEvent::LoginPageAnswered(login)
            }
        };
        match continue_detection(instance, state, event) {
            Progress::Continue(next, next_action) => {
                state = next;
                action = next_action;
            }
            Progress::Finished(found) => return (found, probes),
        }
        assert!(probes.len() <= 3);
    }
}

#[test]
fn java_names_are_recognised() {
    assert!(is_java_process("java"));
    assert!(is_java_process("/usr/bin/java"));
    assert!(is_java_process("OpenJDK Platform binary"));
    assert!(is_java_process("JRE launcher"));
    assert!(is_java_process("JAVA.EXE"));
    assert!(!is_java_process("nginx"));
    assert!(!is_java_process(""));
}

#[test]
fn lower_case_names_are_judged_as_they_stand() {
    assert!(is_java_name("java"));
    assert!(is_java_name("/usr/lib/jvm/bin/java"));
    assert!(is_java_name("openjdk platform binary"));
    assert!(is_java_name("jre-launcher"));
    assert!(is_java_name("javaw.exe"));
    assert!(!is_java_name("JAVA.EXE"));
    assert!(!is_java_name("OpenJDK"));
    assert!(!is_java_name("nginx"));
    assert!(!is_java_name("jav"));
    assert!(!is_java_name(""));
}

#[test]
fn readiness_goes_by_the_status_code() {
    assert!(check_aem_http_ready(Some(200)));
    assert!(check_aem_http_ready(Some(302)));
    assert!(check_aem_http_ready(Some(401)));
    assert!(!check_aem_http_ready(Some(404)));
    assert!(!check_aem_http_ready(Some(500)));
    assert!(!check_aem_http_ready(Some(301)));
    assert!(!check_aem_http_ready(None));
}

#[test]
fn addresses_are_written_with_host_and_port() {
    assert_eq!(socket_address("localhost", 4502), "localhost:4502");
    assert_eq!(socket_address("10.0.0.7", 0), "10.0.0.7:0");
    assert_eq!(socket_address("h", 65535), "h:65535");
    assert_eq!(
        login_url("localhost", 4502),
        "http://localhost:4502/libs/granite/core/content/login.html"
    );
    assert_eq!(PORT_PROBE_TIMEOUT_MS, 500);
    assert_eq!(HTTP_PROBE_TIMEOUT_MS, 3000);
}

#[test]
fn closed_port_is_stopped() {
    let i = instance("localhost", 4502);
    let (found, probes) = detect(&i, false, Some((900, "java")), Some(200));
    assert_eq!(found.status, AemInstanceStatus::Stopped);
    assert_eq!(found.process_id, None);
    assert_eq!(found.process_name, None);
    assert_eq!(found.error, None);
    assert_eq!(probes, vec!["connect localhost:4502 500".to_string()]);
}

#[test]
fn foreign_listener_is_a_conflict() {
    let i = instance("localhost", 4502);
    let (found, probes) = detect(&i, true, Some((555, "nginx")), Some(200));
    assert_eq!(found.status, AemInstanceStatus::PortConflict);
    assert_eq!(found.process_id, Some(555));
    assert_eq!(found.process_name, Some("nginx".to_string()));
    assert_eq!(
        found.error,
        Some("Port 4502 is occupied by non-Java process: nginx".to_string())
    );
    assert_eq!(probes.len(), 2);
    assert_eq!(probes[1], "listener 4502");
}

#[test]
fn answering_java_is_running() {
    let i = instance("localhost", 4502);
    for code in [200u16, 302, 401] {
        let (found, probes) = detect(&i, true, Some((900, "java")), Some(code));
        assert_eq!(found.status, AemInstanceStatus::Running);
        assert_eq!(found.process_id, Some(900));
        assert_eq!(found.process_name, Some("java".to_string()));
        assert_eq!(found.error, None);
        assert_eq!(probes.len(), 3);
        assert_eq!(
            probes[2],
            "get http://localhost:4502/libs/granite/core/content/login.html 3000"
        );
    }
}

#[test]
fn silent_java_is_starting() {
    let i = instance("localhost", 4502);
    let (found, _) = detect(&i, true, Some((900, "java")), None);
    assert_eq!(found.status, AemInstanceStatus::Starting);
    assert_eq!(found.process_id, Some(900));
    let (found, _) = detect(&i, true, Some((900, "java")), Some(503));
    assert_eq!(found.status, AemInstanceStatus::Starting);
}

#[test]
fn unknown_listener_is_no_conflict() {
    let i = instance("localhost", 4502);
    let (found, probes) = detect(&i, true, None, Some(200));
    assert_eq!(found.status, AemInstanceStatus::Running);
    assert_eq!(found.process_id, None);
    assert_eq!(found.process_name, None);
    assert_eq!(probes.len(), 3);
    let (found, _) = detect(&i, true, None, None);
    assert_eq!(found.status, AemInstanceStatus::Starting);
}

#[test]
fn an_answer_that_was_not_asked_for_changes_nothing() {
    let i = instance("localhost", 4502);
    let (state, _) = begin_detection(&i);
    match continue_detection(&i, state, ProbeEvent::LoginPageAnswered(Some(200))) {
        Progress::Continue(DetectionState::Port, ProbeAction::ConnectPort { host, port, timeout_ms }) => {
            assert_eq!(host, "localhost");
            assert_eq!(port, 4502);
            assert_eq!(timeout_ms, 500);
        }
        other => panic!("unexpected progress: {:?}", other),
    }
}

#[test]
fn conflict_message_names_port_and_process() {
    assert_eq!(
        conflict_message(8080, "httpd"),
        "Port 8080 is occupied by non-Java process: httpd"
    );
}

#[test]
fn scenario_nothing_listening() {
    let i = instance("localhost", 4502);
    let (found, _) = detect(&i, false, None, None);
    let result = detection_result("i-1".to_string(), found, "2024-01-01T00:00:00+00:00".to_string(), 12);
    assert_eq!(result.status, AemInstanceStatus::Stopped);
    assert_eq!(result.process_id, None);
    assert_eq!(result.instance_id, "i-1");
    assert_eq!(result.duration_ms, 12);
    assert_eq!(result.checked_at, "2024-01-01T00:00:00+00:00");
}

#[test]
fn scenario_port_held_by_nginx() {
    let i = instance("localhost", 4502);
    let (found, _) = detect(&i, true, Some((555, "nginx")), None);
    let result = detect_instance_status("i-1".to_string(), found, 40);
    assert_eq!(result.status, AemInstanceStatus::PortConflict);
    assert_eq!(result.process_id, Some(555));
    assert_eq!(result.process_name, Some("nginx".to_string()));
    assert_eq!(
        result.error,
        Some("Port 4502 is occupied by non-Java process: nginx".to_string())
    );
    assert!(!result.checked_at.is_empty());
}

#[test]
fn scenario_java_with_redirecting_login_page() {
    let i = instance("localhost", 4502);
    let (found, _) = detect(&i, true, Some((900, "java")), Some(302));
    assert_eq!(found.status, AemInstanceStatus::Running);
}

#[test]
fn scenario_java_with_login_page_timing_out() {
    let i = instance("localhost", 4502);
    let (found, _) = detect(&i, true, Some((900, "java")), None);
    assert_eq!(found.status, AemInstanceStatus::Starting);
}

#[test]
fn batch_gives_one_result_for_each_instance_in_order() {
    let stopped = Detection {
        status: AemInstanceStatus::Stopped,
        process_id: None,
        process_name: None,
        error: None,
    };
    let running = Detection {
        status: AemInstanceStatus::Running,
        process_id: Some(7),
        process_name: Some("java".to_string()),
        error: None,
    };
    let outcomes = vec![
        (
            "a".to_string(),
            Ok(TimedDetection { found: stopped, checked_at: "t1".to_string(), duration_ms: 3 }),
        ),
        ("b".to_string(), Err("Instance b not found".to_string())),
        (
            "c".to_string(),
            Ok(TimedDetection { found: running, checked_at: "t3".to_string(), duration_ms: 9 }),
        ),
    ];
    let results = detect_all_instances_status_at(outcomes, "now");
    assert_eq!(results.len(), 3);
    assert_eq!(results[0].instance_id, "a");
    assert_eq!(results[0].status, AemInstanceStatus::Stopped);
    assert_eq!(results[0].checked_at, "t1");
    assert_eq!(results[0].duration_ms, 3);
    assert_eq!(results[1].instance_id, "b");
    assert_eq!(results[1].status, AemInstanceStatus::Unknown);
    assert_eq!(results[1].error, Some("Instance b not found".to_string()));
    assert_eq!(results[1].duration_ms, 0);
    assert_eq!(results[1].checked_at, "now");
    assert_eq!(results[1].process_id, None);
    assert_eq!(results[2].instance_id, "c");
    assert_eq!(results[2].status, AemInstanceStatus::Running);
    assert_eq!(results[2].process_id, Some(7));
    assert_eq!(results[2].process_name, Some("java".to_string()));
}

#[test]
fn batch_of_nothing_is_empty() {
    assert!(detect_all_instances_status(vec![]).is_empty());
    let one = detect_all_instances_status(vec![("x".to_string(), Err("boom".to_string()))]);
    assert_eq!(one.len(), 1);
    assert_eq!(one[0].instance_id, "x");
    assert_eq!(one[0].status, AemInstanceStatus::Unknown);
    assert!(!one[0].checked_at.is_empty());
}
