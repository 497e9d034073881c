use sysmon::monitor::cpu::get_cpu_info;
use sysmon::monitor::gpu::adapter_memory_mib;
use sysmon::monitor::network::{
    disconnect_command, get_network_interfaces, get_network_traffic, pick_external_interface,
    reconnect_command, traffic_totals_fit, Platform,
};

#[test]
fn interfaces_per_platform() {
    assert_eq!(get_network_interfaces(Platform::Windows), vec!["Ethernet".to_string(), "Wi-Fi".to_string()]);
    assert_eq!(get_network_interfaces(Platform::Other), vec!["eth0".to_string(), "wlan0".to_string()]);
}

#[test]
fn loopback_is_skipped() {
    let names = vec!["lo".to_string(), "Loopback".to_string(), "wlan0".to_string(), "eth1".to_string()];
    assert_eq!(pick_external_interface(&names), Some("wlan0".to_string()));
    let names = vec!["lo".to_string()];
    assert_eq!(pick_external_interface(&names), None);
    assert_eq!(pick_external_interface(&vec![]), None);
}

#[test]
fn traffic_is_summed() {
    let samples = vec![(10u64, 20u64), (1, 2), (100, 200)];
    assert!(traffic_totals_fit(&samples));
    assert_eq!(get_network_traffic(&samples), (111, 222));
    assert_eq!(get_network_traffic(&vec![]), (0, 0));
}

#[test]
fn traffic_overflow_is_detected() {
    assert!(!traffic_totals_fit(&vec![(u64::MAX, 0), (1, 0)]));
    assert!(!traffic_totals_fit(&vec![(0, u64::MAX), (0, 1)]));
    assert!(traffic_totals_fit(&vec![(u64::MAX, u64::MAX)]));
}

#[test]
fn interface_commands() {
    let (p, a) = disconnect_command(Platform::Windows, "Ethernet");
    assert_eq!(p, "netsh");
    assert_eq!(a, vec!["interface", "set", "interface", "Ethernet", "disabled"]);
    let (p, a) = reconnect_command(Platform::Windows, "Wi-Fi");
    assert_eq!(p, "netsh");
    assert_eq!(a, vec!["interface", "set", "interface", "Wi-Fi", "enabled"]);
    let (p, a) = disconnect_command(Platform::Other, "eth0");
    assert_eq!(p, "ifconfig");
    assert_eq!(a, vec!["eth0", "down"]);
    let (p, a) = reconnect_command(Platform::Other, "eth0");
    assert_eq!(p, "ifconfig");
    assert_eq!(a, vec!["eth0", "up"]);
}

#[test]
fn cpu_info() {
    let brands = vec!["Ryzen".to_string(), "Ryzen".to_string()];
    assert_eq!(get_cpu_info(&brands), ("Ryzen".to_string(), 2));
    assert_eq!(get_cpu_info(&vec![]), ("Unknown".to_string(), 0));
}

#[test]
fn adapter_memory_in_mebibytes() {
    assert_eq!(adapter_memory_mib(4_294_967_296), 4096);
    assert_eq!(adapter_memory_mib(1_048_575), 0);
    assert_eq!(adapter_memory_mib(3 * 1_048_576 + 5), 3);
    assert_eq!(adapter_memory_mib(u64::MAX), u64::MAX / 1024 / 1024);
}
