use sysmon::config::{AlertConfig, GeneralConfig, InterfaceConfig, MonitoringConfig};
use sysmon::tray::TrayManager;
use sysmon::ui::levels::{has_history_data, memory_level, traffic_level, UsageLevel};
use sysmon::ui::settings::{run_key, run_value, set_autostart, AutostartChange};

#[test]
fn traffic_levels() {
    assert_eq!(traffic_level(79, 100), UsageLevel::Low);
    assert_eq!(traffic_level(80, 100), UsageLevel::Medium);
    assert_eq!(traffic_level(94, 100), UsageLevel::Medium);
    assert_eq!(traffic_level(95, 100), UsageLevel::High);
    assert_eq!(traffic_level(500, 100), UsageLevel::High);
    assert_eq!(traffic_level(500, 0), UsageLevel::Low);
}

#[test]
fn memory_levels() {
    assert_eq!(memory_level(49, 100), UsageLevel::Low);
    assert_eq!(memory_level(50, 100), UsageLevel::Medium);
    assert_eq!(memory_level(80, 100), UsageLevel::High);
    assert_eq!(memory_level(80, 0), UsageLevel::Low);
}

#[test]
fn history_data() {
    assert!(!has_history_data(&vec![]));
    assert!(!has_history_data(&vec![0, 0, 0]));
    assert!(has_history_data(&vec![0, 3, 0]));
}

#[test]
fn autostart_changes() {
    assert_eq!(
        set_autostart(true, Some("C:\\sysmon.exe".to_string())),
        AutostartChange::Register("C:\\sysmon.exe".to_string())
    );
    assert_eq!(set_autostart(true, None), AutostartChange::Keep);
    assert_eq!(set_autostart(false, Some("x".to_string())), AutostartChange::Unregister);
    assert_eq!(run_key(), "Software\\Microsoft\\Windows\\CurrentVersion\\Run");
    assert_eq!(run_value(), "SysMon");
}

#[test]
fn default_configuration() {
    let g = GeneralConfig::default();
    assert_eq!(g.app_name, "SysMon");
    assert!(!g.start_minimized && g.start_with_windows && g.minimize_to_tray);
    let m = MonitoringConfig::default();
    assert_eq!((m.update_interval_ms, m.record_interval_sec, m.data_retention_days), (1000, 60, 90));
    let a = AlertConfig::default();
    assert!(a.enabled && a.notification_sound && !a.auto_disconnect_on_limit);
    let i = InterfaceConfig::default();
    assert_eq!((i.theme.as_str(), i.language.as_str(), i.default_tab.as_str()), ("dark", "zh-TW", "dashboard"));
    assert!(i.show_gpu);
}

#[test]
fn tray_starts_shown() {
    assert!(TrayManager::new().show_flag);
}
