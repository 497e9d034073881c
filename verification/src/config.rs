//! The parts of the configuration that the monitoring logic reads.
//!
//! The traffic limits themselves are given in gigabytes as floating-point
//! numbers in the configuration file; they are converted to byte counts by
//! the application and reach the library as plain `u64` values.
use vstd::prelude::*;

verus! {

/// General behaviour of the application window.
#[derive(Debug, Clone)]
pub struct GeneralConfig {
    pub app_name: String,
    pub start_minimized: bool,
    pub start_with_windows: bool,
    pub minimize_to_tray: bool,
}

/// How often the system is sampled and how long history is kept.
#[derive(Debug, Clone, Copy, PartialEq, Eq, Structural)]
pub struct MonitoringConfig {
    pub update_interval_ms: u64,
    pub record_interval_sec: u64,
    pub data_retention_days: u32,
}

/// Whether traffic alerts are raised and what happens at the limit.
#[derive(Debug, Clone, Copy, PartialEq, Eq, Structural)]
pub struct AlertConfig {
    pub enabled: bool,
    pub notification_sound: bool,
    pub auto_disconnect_on_limit: bool,
}

/// Appearance of the user interface.
#[derive(Debug, Clone)]
pub struct InterfaceConfig {
    pub theme: String,
    pub language: String,
    pub show_gpu: bool,
    pub default_tab: String,
}

impl Default for GeneralConfig {
    /// The application is called "SysMon", starts visible, starts with the
    /// system and minimizes to the tray.
    fn default() -> (c: Self)
        ensures
            c.app_name@ == "SysMon"@,
            !c.start_minimized,
            c.start_with_windows,
            c.minimize_to_tray,
    {
        GeneralConfig {
            app_name: String::from_str("SysMon"),
            start_minimized: false,
            start_with_windows: true,
            minimize_to_tray: true,
        }
    }
}

impl Default for MonitoringConfig {
    /// Sample every second, record every minute, keep ninety days.
    fn default() -> (c: Self)
        ensures
            c.update_interval_ms == 1000,
            c.record_interval_sec == 60,
            c.data_retention_days == 90,
    {
        MonitoringConfig { update_interval_ms: 1000, record_interval_sec: 60, data_retention_days: 90 }
    }
}

impl Default for AlertConfig {
    /// Alerts and their sound are on; automatic disconnection is off.
    fn default() -> (c: Self)
        ensures
            c.enabled,
            c.notification_sound,
            !c.auto_disconnect_on_limit,
    {
        AlertConfig { enabled: true, notification_sound: true, auto_disconnect_on_limit: false }
    }
}

impl Default for InterfaceConfig {
    /// Dark theme, Traditional Chinese, GPU shown, dashboard first.
    fn default() -> (c: Self)
        ensures
            c.theme@ == "dark"@,
            c.language@ == "zh-TW"@,
            c.show_gpu,
            c.default_tab@ == "dashboard"@,
    {
        InterfaceConfig {
            theme: String::from_str("dark"),
            language: String::from_str("zh-TW"),
            show_gpu: true,
            default_tab: String::from_str("dashboard"),
        }
    }
}

} // verus!
