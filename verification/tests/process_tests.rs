use service_supervisor::command::{
    echo_command, elevated_start_command, force_kill_command, graceful_stop_command,
    install_path, link_status_command, list_hardware_ports_command, list_services_command,
    process_table_command,
};
use service_supervisor::process::{is_process_running, names_process};

#[test]
fn listed_process_is_running() {
    let table = "launchd\nAuthenMngService\niNodeMon\n";
    assert!(is_process_running(Some(table), "iNodeMon"));
    assert!(is_process_running(Some(table), "AuthenMngService"));
    assert!(is_process_running(Some("iNodeMon"), "iNodeMon"));
    assert!(is_process_running(Some("a\r\niNodeMon\r\n"), "iNodeMon"));
}

#[test]
fn name_must_match_a_whole_entry() {
    let table = "launchd\niNodeMonitor\n/Applications/iNodeClient/iNodeMon\n";
    assert!(!is_process_running(Some(table), "iNodeMon"));
    assert!(!is_process_running(Some("inodemon\n"), "iNodeMon"));
    assert!(!is_process_running(Some("launchd iNodeMon\n"), "iNodeMon"));
    assert!(!is_process_running(Some(""), "iNodeMon"));
}

#[test]
fn failed_query_is_not_running() {
    assert!(!is_process_running(None, "iNodeMon"));
    assert!(!is_process_running(None, ""));
}

#[test]
fn entries_are_compared_exactly() {
    let entries = vec!["a".to_string(), "bc".to_string()];
    assert!(names_process(&entries, "a"));
    assert!(names_process(&entries, "bc"));
    assert!(!names_process(&entries, "b"));
    assert!(!names_process(&entries, "abc"));
    assert!(!names_process(&[], "a"));
}

#[test]
fn start_command_keeps_the_credential_off_the_arguments() {
    let plan = elevated_start_command("AuthenMngService", "pw");
    assert_eq!(plan.program, "sudo");
    assert_eq!(
        plan.arguments,
        vec!["-S".to_string(), "/Applications/iNodeClient/AuthenMngService".to_string()]
    );
    assert_eq!(plan.input, Some("pw".to_string()));
    assert!(plan.arguments.iter().all(|a| a != "pw"));
    let other = elevated_start_command("AuthenMngService", "another secret");
    assert_eq!(other.program, plan.program);
    assert_eq!(other.arguments, plan.arguments);
    assert_eq!(other.input, Some("another secret".to_string()));
}

#[test]
fn stop_and_kill_commands() {
    let plan = graceful_stop_command("iNodeMon");
    assert_eq!(plan.program, "/Applications/iNodeClient/iNodeMon");
    assert_eq!(plan.arguments, vec!["-k".to_string()]);
    assert_eq!(plan.input, None);
    let plan = force_kill_command("iNodeMon");
    assert_eq!(plan.program, "killall");
    assert_eq!(plan.arguments, vec!["-9".to_string(), "iNodeMon".to_string()]);
    assert_eq!(plan.input, None);
    assert_eq!(install_path("x"), "/Applications/iNodeClient/x");
    assert_eq!(install_path(""), "/Applications/iNodeClient/");
}

#[test]
fn query_commands() {
    let plan = process_table_command();
    assert_eq!(plan.program, "ps");
    assert_eq!(plan.arguments, vec!["-A", "-c", "-o", "comm="]);
    assert_eq!(plan.input, None);
    let plan = echo_command("8.8.8.8");
    assert_eq!(plan.program, "ping");
    assert_eq!(plan.arguments, vec!["-c", "1", "8.8.8.8"]);
    assert_eq!(plan.input, None);
    let plan = list_services_command();
    assert_eq!(plan.program, "networksetup");
    assert_eq!(plan.arguments, vec!["-listallnetworkservices"]);
    let plan = list_hardware_ports_command();
    assert_eq!(plan.program, "networksetup");
    assert_eq!(plan.arguments, vec!["-listallhardwareports"]);
    let plan = link_status_command("en0");
    assert_eq!(plan.program, "ifconfig");
    assert_eq!(plan.arguments, vec!["en0"]);
    assert_eq!(plan.input, None);
}
