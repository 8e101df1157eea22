use service_supervisor::interface::{
    classify_interface_name, classify_service_name, combine, device_for_service, drop_heading,
    find_device_line, get_network_status, is_link_active, macos_network_status, pick_device,
    service_names, windows_network_status, InterfaceCounters, Inventory, Medium, NetworkStatus,
    ServiceLink,
};

fn counters(name: &str, received: u64, transmitted: u64) -> InterfaceCounters {
    InterfaceCounters { name: name.to_string(), received, transmitted }
}

fn link(name: &str, report: Option<&str>) -> ServiceLink {
    ServiceLink { name: name.to_string(), link_report: report.map(|r| r.to_string()) }
}

const ACTIVE: &str = "en0: flags=8863<UP,RUNNING> mtu 1500\n\tstatus: active\n";
const INACTIVE: &str = "en1: flags=8822<BROADCAST> mtu 1500\n\tstatus: inactive\n";

#[test]
fn idle_ethernet_and_busy_wifi_is_wifi() {
    let interfaces = vec![counters("Ethernet", 0, 0), counters("Wi-Fi", 1200, 3400)];
    assert_eq!(windows_network_status(&interfaces), NetworkStatus::Wifi);
}

#[test]
fn wifi_wins_when_both_are_active() {
    let interfaces = vec![counters("Ethernet", 10, 20), counters("Wi-Fi", 1, 1)];
    assert_eq!(windows_network_status(&interfaces), NetworkStatus::Wifi);
    let interfaces = vec![counters("Wi-Fi", 1, 1), counters("Ethernet", 10, 20)];
    assert_eq!(windows_network_status(&interfaces), NetworkStatus::Wifi);
}

#[test]
fn only_ethernet_active_is_ethernet() {
    let interfaces = vec![counters("Wi-Fi", 0, 0), counters("Ethernet 2", 5, 6)];
    assert_eq!(windows_network_status(&interfaces), NetworkStatus::Ethernet);
    let interfaces = vec![counters("Local Area Connection", 5, 6)];
    assert_eq!(windows_network_status(&interfaces), NetworkStatus::Ethernet);
}

#[test]
fn both_counters_must_be_above_zero() {
    assert_eq!(windows_network_status(&[counters("Wi-Fi", 0, 9)]), NetworkStatus::Disconnected);
    assert_eq!(windows_network_status(&[counters("Wi-Fi", 9, 0)]), NetworkStatus::Disconnected);
    assert_eq!(windows_network_status(&[counters("Ethernet", 0, 0)]), NetworkStatus::Disconnected);
    assert_eq!(windows_network_status(&[]), NetworkStatus::Disconnected);
}

#[test]
fn interface_names_match_without_regard_to_case() {
    assert_eq!(windows_network_status(&[counters("WI-FI", 1, 1)]), NetworkStatus::Wifi);
    assert_eq!(
        windows_network_status(&[counters("Intel Wireless Adapter", 1, 1)]),
        NetworkStatus::Wifi
    );
    assert_eq!(windows_network_status(&[counters("ETHERNET", 1, 1)]), NetworkStatus::Ethernet);
    assert_eq!(windows_network_status(&[counters("Loopback", 1, 1)]), NetworkStatus::Disconnected);
}

#[test]
fn wireless_name_is_checked_before_wired() {
    assert_eq!(classify_interface_name("wireless ethernet bridge"), Medium::Wireless);
    assert_eq!(classify_interface_name("wi-fi"), Medium::Wireless);
    assert_eq!(classify_interface_name("ethernet"), Medium::Wired);
    assert_eq!(classify_interface_name("local area connection 3"), Medium::Wired);
    assert_eq!(classify_interface_name("bluetooth"), Medium::Other);
    assert_eq!(classify_interface_name(""), Medium::Other);
    assert_eq!(classify_interface_name("Wi-Fi"), Medium::Other);
    assert_eq!(classify_service_name("wi-fi"), Medium::Wireless);
    assert_eq!(classify_service_name("usb 10/100/1000 lan"), Medium::Wired);
    assert_eq!(classify_service_name("thunderbolt ethernet"), Medium::Wired);
    assert_eq!(classify_service_name("wireless"), Medium::Other);
    assert_eq!(classify_service_name("thunderbolt bridge"), Medium::Other);
}

#[test]
fn precedence_of_the_verdict() {
    assert_eq!(combine(true, true), NetworkStatus::Wifi);
    assert_eq!(combine(true, false), NetworkStatus::Wifi);
    assert_eq!(combine(false, true), NetworkStatus::Ethernet);
    assert_eq!(combine(false, false), NetworkStatus::Disconnected);
}

#[test]
fn link_status_text() {
    assert!(is_link_active(ACTIVE));
    assert!(!is_link_active(INACTIVE));
    assert!(!is_link_active(""));
    assert!(!is_link_active("Status: Active"));
}

#[test]
fn services_classify_by_link_status_and_name() {
    let services = vec![link("Wi-Fi", Some(ACTIVE)), link("Ethernet", Some(ACTIVE))];
    assert_eq!(macos_network_status(&services), NetworkStatus::Wifi);
    let services = vec![link("Wi-Fi", Some(INACTIVE)), link("USB 10/100/1000 LAN", Some(ACTIVE))];
    assert_eq!(macos_network_status(&services), NetworkStatus::Ethernet);
    let services = vec![link("Wi-Fi", None), link("Ethernet", Some(INACTIVE))];
    assert_eq!(macos_network_status(&services), NetworkStatus::Disconnected);
    let services = vec![link("Thunderbolt Bridge", Some(ACTIVE))];
    assert_eq!(macos_network_status(&services), NetworkStatus::Disconnected);
    assert_eq!(macos_network_status(&[]), NetworkStatus::Disconnected);
}

#[test]
fn inventory_picks_the_strategy() {
    let inventory = Inventory::Counters(vec![counters("Ethernet", 3, 4)]);
    assert_eq!(get_network_status(&inventory), NetworkStatus::Ethernet);
    let inventory = Inventory::Services(vec![link("Wi-Fi", Some(ACTIVE))]);
    assert_eq!(get_network_status(&inventory), NetworkStatus::Wifi);
    assert_eq!(get_network_status(&Inventory::Unavailable), NetworkStatus::Disconnected);
}

#[test]
fn service_listing_loses_its_heading() {
    let listing = "An asterisk (*) denotes that a network service is disabled.\nEthernet\nWi-Fi\n";
    assert_eq!(service_names(listing), vec!["Ethernet".to_string(), "Wi-Fi".to_string()]);
    assert_eq!(service_names(""), Vec::<String>::new());
    assert_eq!(service_names("heading only"), Vec::<String>::new());
    assert_eq!(drop_heading(&[]), Vec::<String>::new());
    assert_eq!(
        drop_heading(&["a".to_string(), "b".to_string(), "c".to_string()]),
        vec!["b".to_string(), "c".to_string()]
    );
}

#[test]
fn device_is_the_second_word_of_the_line_after_the_service() {
    let ports = "\nHardware Port: Ethernet\nDevice: en1\nEthernet Address: 00:11:22:33:44:55\n\nHardware Port: Wi-Fi\nDevice: en0\nEthernet Address: 66:77:88:99:aa:bb\n";
    assert_eq!(device_for_service(ports, "Wi-Fi"), Some("en0".to_string()));
    assert_eq!(device_for_service(ports, "Ethernet"), Some("en1".to_string()));
    assert_eq!(device_for_service(ports, "Bluetooth PAN"), None);
    assert_eq!(device_for_service("", "Wi-Fi"), None);
    assert_eq!(device_for_service("Hardware Port: Wi-Fi", "Wi-Fi"), None);
    assert_eq!(device_for_service("Hardware Port: Wi-Fi\nDevice:", "Wi-Fi"), None);
    assert_eq!(device_for_service("Hardware Port: Wi-Fi\n  Device:\t en7  \n", "Wi-Fi"), Some("en7".to_string()));
}

#[test]
fn device_line_and_word() {
    let lines = vec!["x".to_string(), "port: wi-fi".to_string(), "device: en0".to_string()];
    assert_eq!(find_device_line(&lines, "wi-fi"), Some(2));
    assert_eq!(find_device_line(&lines, "en0"), None);
    assert_eq!(find_device_line(&lines, "lan"), None);
    assert_eq!(find_device_line(&lines, ""), Some(1));
    assert_eq!(find_device_line(&[], "wi-fi"), None);
    assert_eq!(pick_device(&["Device:".to_string(), "en0".to_string()]), Some("en0".to_string()));
    assert_eq!(pick_device(&["Device:".to_string()]), None);
    assert_eq!(pick_device(&[]), None);
}
