use sysmon::ui::i18n::{I18n, Language};

#[test]
fn language_codes() {
    assert_eq!(I18n::new("en").lang, Language::En);
    assert_eq!(I18n::new("zh-TW").lang, Language::ZhTW);
    assert_eq!(I18n::new("fr").lang, Language::ZhTW);
    assert_eq!(I18n::new("").lang, Language::ZhTW);
}

#[test]
fn texts_per_language() {
    let zh = I18n::new("zh-TW");
    let en = I18n::new("en");
    assert_eq!(zh.t("dashboard"), "儀表板");
    assert_eq!(en.t("dashboard"), "Dashboard");
    assert_eq!(zh.t("auto_disconnect"), "達上限自動斷網");
    assert_eq!(en.t("auto_disconnect"), "Auto-disconnect on Limit");
    assert_eq!(zh.t("cpu_cores"), "CPU 核心");
    assert_eq!(en.t("no_data"), "No data yet");
    assert_eq!(zh.t("total"), "總計");
}

#[test]
fn unknown_keys_are_shown_as_they_are() {
    let zh = I18n::new("zh-TW");
    let en = I18n::new("en");
    assert_eq!(zh.t("missing_key"), "missing_key");
    assert_eq!(en.t("Dashboard"), "Dashboard");
    assert_eq!(en.t(""), "");
}

#[test]
fn every_key_has_text_in_both_languages() {
    let keys = [
        "dashboard", "network", "processes", "settings", "cpu", "memory", "gpu", "download",
        "upload", "today", "daily_limit", "monthly_limit", "traffic_history", "cpu_cores", "save",
        "reset", "traffic_limits", "alerts", "enable_alerts", "notification_sound",
        "auto_disconnect", "general", "start_with_windows", "minimize_to_tray", "show_gpu",
        "interface", "theme", "dark", "light", "language", "no_data", "speed", "total",
    ];
    let zh = I18n::new("zh-TW");
    let en = I18n::new("en");
    for k in keys {
        assert_ne!(en.t(k), k);
        assert!(!zh.t(k).is_empty());
    }
}
