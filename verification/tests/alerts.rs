use sysmon::alerts::{AlertAction, AlertLevels, AlertManager, AlertNotice};
use sysmon::config::AlertConfig;
use sysmon::monitor::network::Platform;

fn config(enabled: bool, auto: bool) -> AlertConfig {
    AlertConfig { enabled, notification_sound: true, auto_disconnect_on_limit: auto }
}

/// The decision of the float-based threshold check, used as a reference.
fn float_decision(
    flags: &mut [bool; 4],
    enabled: bool,
    auto: bool,
    du: u64,
    dl: u64,
    mu: u64,
    ml: u64,
) -> AlertAction {
    if !enabled {
        return AlertAction::NoAction;
    }
    let daily_pct = du as f64 / dl as f64;
    let monthly_pct = mu as f64 / ml as f64;
    if daily_pct >= 1.0 && auto {
        return AlertAction::Disconnect;
    }
    if daily_pct >= 0.95 && !flags[1] {
        flags[1] = true;
        return AlertAction::CriticalWarning;
    }
    if daily_pct >= 0.8 && !flags[0] {
        flags[0] = true;
        return AlertAction::Warning;
    }
    if monthly_pct >= 1.0 && auto {
        return AlertAction::Disconnect;
    }
    if monthly_pct >= 0.95 && !flags[3] {
        flags[3] = true;
        return AlertAction::CriticalWarning;
    }
    if monthly_pct >= 0.8 && !flags[2] {
        flags[2] = true;
        return AlertAction::Warning;
    }
    AlertAction::NoAction
}

#[test]
fn new_manager_gives_warning_at_80_percent() {
    let mut m = AlertManager::new(config(true, false));
    assert_eq!(m.check_thresholds(80, 100, 0, 1000, AlertLevels::default()), AlertAction::Warning);
    assert_eq!(m.check_thresholds(80, 100, 0, 1000, AlertLevels::default()), AlertAction::NoAction);
}

#[test]
fn configured_warning_level() {
    let lv = AlertLevels { warning_pct: 60, critical_pct: 90 };
    let mut m = AlertManager::new(config(true, false));
    assert_eq!(m.next_alert(59, 100, 0, 1000, lv), None);
    assert_eq!(m.next_alert(70, 100, 0, 1000, lv), Some(AlertNotice::DailyWarning));
    assert_eq!(m.next_alert(89, 100, 0, 1000, lv), None);
    assert_eq!(m.next_alert(90, 100, 0, 1000, lv), Some(AlertNotice::DailyCritical));
    assert_eq!(m.next_alert(0, 100, 600, 1000, lv), Some(AlertNotice::MonthlyWarning));
}

#[test]
fn repeated_identical_checks_raise_at_most_four_alerts() {
    let mut m = AlertManager::new(config(true, false));
    let mut raised = 0;
    let mut quiet = false;
    for _ in 0..20 {
        let a = m.check_thresholds(99, 100, 999, 1000, AlertLevels::default());
        if a != AlertAction::NoAction {
            assert!(!quiet);
            raised += 1;
        } else {
            quiet = true;
        }
    }
    assert_eq!(raised, 4);
}

#[test]
fn below_80_percent_is_quiet() {
    let mut m = AlertManager::new(config(true, true));
    assert_eq!(m.check_thresholds(79, 100, 799, 1000, AlertLevels::default()), AlertAction::NoAction);
}

#[test]
fn critical_then_warning_then_quiet() {
    let mut m = AlertManager::new(config(true, false));
    assert_eq!(m.next_alert(96, 100, 0, 1000, AlertLevels::default()), Some(AlertNotice::DailyCritical));
    // The 80 % alert has not been given yet, so it follows.
    assert_eq!(m.next_alert(96, 100, 0, 1000, AlertLevels::default()), Some(AlertNotice::DailyWarning));
    assert_eq!(m.next_alert(96, 100, 0, 1000, AlertLevels::default()), None);
}

#[test]
fn limit_with_auto_disconnect_repeats() {
    let mut m = AlertManager::new(config(true, true));
    assert_eq!(m.check_thresholds(100, 100, 0, 1000, AlertLevels::default()), AlertAction::Disconnect);
    assert_eq!(m.check_thresholds(150, 100, 0, 1000, AlertLevels::default()), AlertAction::Disconnect);
    assert_eq!(m.next_alert(150, 100, 0, 1000, AlertLevels::default()), Some(AlertNotice::DailyLimitReached));
}

#[test]
fn limit_without_auto_disconnect_is_critical() {
    let mut m = AlertManager::new(config(true, false));
    assert_eq!(m.check_thresholds(200, 100, 0, 1000, AlertLevels::default()), AlertAction::CriticalWarning);
}

#[test]
fn monthly_alerts_after_daily() {
    let mut m = AlertManager::new(config(true, true));
    assert_eq!(m.next_alert(0, 100, 1000, 1000, AlertLevels::default()), Some(AlertNotice::MonthlyLimitReached));
    let mut m = AlertManager::new(config(true, false));
    assert_eq!(m.next_alert(0, 100, 960, 1000, AlertLevels::default()), Some(AlertNotice::MonthlyCritical));
    assert_eq!(m.next_alert(0, 100, 960, 1000, AlertLevels::default()), Some(AlertNotice::MonthlyWarning));
    assert_eq!(m.next_alert(0, 100, 960, 1000, AlertLevels::default()), None);
    // A daily alert takes precedence over a monthly one.
    let mut m = AlertManager::new(config(true, false));
    assert_eq!(m.next_alert(90, 100, 960, 1000, AlertLevels::default()), Some(AlertNotice::DailyWarning));
}

#[test]
fn disabled_alerts_are_silent() {
    let mut m = AlertManager::new(config(false, true));
    assert_eq!(m.check_thresholds(1000, 100, 1000, 100, AlertLevels::default()), AlertAction::NoAction);
}

#[test]
fn resets_rearm_alerts() {
    let mut m = AlertManager::new(config(true, false));
    assert_eq!(m.check_thresholds(85, 100, 850, 1000, AlertLevels::default()), AlertAction::Warning);
    assert_eq!(m.check_thresholds(85, 100, 850, 1000, AlertLevels::default()), AlertAction::Warning);
    assert_eq!(m.check_thresholds(85, 100, 850, 1000, AlertLevels::default()), AlertAction::NoAction);
    m.reset_daily_alerts();
    assert_eq!(m.next_alert(85, 100, 850, 1000, AlertLevels::default()), Some(AlertNotice::DailyWarning));
    assert_eq!(m.next_alert(85, 100, 850, 1000, AlertLevels::default()), None);
    m.reset_monthly_alerts();
    assert_eq!(m.next_alert(85, 100, 850, 1000, AlertLevels::default()), Some(AlertNotice::MonthlyWarning));
}

#[test]
fn zero_limit_counts_any_usage() {
    let mut m = AlertManager::new(config(true, true));
    assert_eq!(m.check_thresholds(0, 0, 0, 0, AlertLevels::default()), AlertAction::NoAction);
    assert_eq!(m.check_thresholds(1, 0, 0, 0, AlertLevels::default()), AlertAction::Disconnect);
}

#[test]
fn notice_messages_and_actions() {
    let d = AlertLevels::default();
    assert_eq!(AlertNotice::DailyLimitReached.message(d), "Daily traffic limit reached. Disconnecting...");
    assert_eq!(AlertNotice::DailyCritical.message(d), "Daily traffic at 95%!");
    assert_eq!(AlertNotice::DailyWarning.message(d), "Daily traffic at 80%");
    assert_eq!(AlertNotice::MonthlyLimitReached.message(d), "Monthly traffic limit reached. Disconnecting...");
    assert_eq!(AlertNotice::MonthlyCritical.message(d), "Monthly traffic at 95%!");
    assert_eq!(AlertNotice::MonthlyWarning.message(d), "Monthly traffic at 80%");
    let l = AlertLevels { warning_pct: 60, critical_pct: 100 };
    assert_eq!(AlertNotice::DailyWarning.message(l), "Daily traffic at 60%");
    assert_eq!(AlertNotice::MonthlyCritical.message(l), "Monthly traffic at 100%!");
    assert_eq!(AlertNotice::MonthlyLimitReached.action(), AlertAction::Disconnect);
    assert_eq!(AlertNotice::DailyCritical.action(), AlertAction::CriticalWarning);
    assert_eq!(AlertNotice::MonthlyWarning.action(), AlertAction::Warning);
}

#[test]
fn disconnect_picks_first_external_interface() {
    let m = AlertManager::new(config(true, true));
    assert_eq!(m.disconnect_network(Platform::Other), Some("eth0".to_string()));
    assert_eq!(m.disconnect_network(Platform::Windows), Some("Ethernet".to_string()));
}

#[test]
fn matches_float_thresholds_on_a_grid() {
    let limits = [1u64, 3, 7, 100, 1000, 5 * 1_073_741_824, 100 * 1_073_741_824];
    for &enabled in &[true, false] {
        for &auto in &[true, false] {
            for &dl in &limits {
                for &ml in &limits {
                    let mut m = AlertManager::new(config(enabled, auto));
                    let mut flags = [false; 4];
                    for step in 0..60u64 {
                        let du = dl / 50 * step + step;
                        let mu = ml / 40 * step;
                        let got = m.check_thresholds(du, dl, mu, ml, AlertLevels::default());
                        let want = float_decision(&mut flags, enabled, auto, du, dl, mu, ml);
                        assert_eq!(got, want, "du={} dl={} mu={} ml={}", du, dl, mu, ml);
                    }
                }
            }
        }
    }
}
