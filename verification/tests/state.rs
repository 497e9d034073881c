use sysmon::alerts::{AlertLevels, AlertNotice};
use sysmon::config::AlertConfig;
use sysmon::monitor_state::{MonitorState, TrafficSample, HISTORY_LEN};
use sysmon::storage::{retention_cutoff_day, traffic_history_days};

fn alerts_on() -> AlertConfig {
    AlertConfig { enabled: true, notification_sound: false, auto_disconnect_on_limit: false }
}

fn alerts_auto() -> AlertConfig {
    AlertConfig { enabled: true, notification_sound: false, auto_disconnect_on_limit: true }
}

fn lv() -> AlertLevels {
    AlertLevels::default()
}

#[test]
fn starts_with_empty_rates_and_full_histories() {
    let s = MonitorState::new(alerts_on(), 700_000, 2024, 5, 5, 7, 1000, 2000);
    assert_eq!(s.network_sent(), 5);
    assert_eq!(s.network_recv(), 7);
    assert_eq!(s.network_sent_rate(), 0);
    assert_eq!(s.download_history().len(), HISTORY_LEN);
    assert!(s.upload_history().iter().all(|&x| x == 0));
}

#[test]
fn rates_accumulate_and_slide() {
    let mut s = MonitorState::new(alerts_on(), 1, 2024, 5, 0, 0, 1000, 2000);
    assert!(s.network_rates_fit(1100, 2500));
    s.update_network_rates(1100, 2500);
    assert_eq!(s.network_sent_rate(), 100);
    assert_eq!(s.network_recv_rate(), 500);
    assert_eq!(s.network_sent(), 100);
    assert_eq!(s.network_recv(), 500);
    assert_eq!(*s.download_history().back().unwrap(), 500);
    assert_eq!(*s.upload_history().back().unwrap(), 100);
    assert_eq!(s.download_history().len(), HISTORY_LEN);
    for i in 0..70u64 {
        s.update_network_rates(1100 + i, 2500 + 2 * i);
    }
    assert_eq!(s.download_history().len(), HISTORY_LEN);
    assert_eq!(*s.download_history().front().unwrap(), 2);
}

#[test]
fn counter_reset_keeps_previous_rate() {
    let mut s = MonitorState::new(alerts_on(), 1, 2024, 5, 0, 0, 1000, 2000);
    s.update_network_rates(1100, 2300);
    s.update_network_rates(50, 10);
    assert_eq!(s.network_sent_rate(), 100);
    assert_eq!(s.network_recv_rate(), 300);
    assert_eq!(s.network_sent(), 200);
    assert_eq!(s.network_recv(), 600);
}

#[test]
fn overflow_is_detected() {
    let s = MonitorState::new(alerts_on(), 1, 2024, 5, u64::MAX - 5, 0, 0, 0);
    assert!(!s.network_rates_fit(10, 0));
    assert!(s.network_rates_fit(5, 0));
    assert!(s.usage_fits());
    let s = MonitorState::new(alerts_on(), 1, 2024, 5, u64::MAX, 1, 0, 0);
    assert!(!s.usage_fits());
}

#[test]
fn alert_check_interval() {
    assert!(!MonitorState::alert_check_due(4999));
    assert!(MonitorState::alert_check_due(5000));
}

#[test]
fn daily_alerts_rearm_on_new_day_and_totals_restart() {
    let mut s = MonitorState::new(alerts_on(), 10, 2024, 5, 90, 0, 0, 0);
    assert_eq!(s.check_alerts(0, 100, 1000, lv()), Some(AlertNotice::DailyWarning));
    assert_eq!(s.check_alerts(0, 100, 1000, lv()), None);
    s.roll_over(10, 2024, 5);
    assert_eq!(s.network_sent(), 90);
    assert_eq!(s.check_alerts(0, 100, 1000, lv()), None);
    // A new day: yesterday's traffic no longer counts and the alerts are rearmed.
    s.roll_over(11, 2024, 5);
    assert_eq!(s.network_sent(), 0);
    assert_eq!(s.check_alerts(0, 100, 1000, lv()), None);
    s.update_network_rates(85, 0);
    assert_eq!(s.check_alerts(0, 100, 1000, lv()), Some(AlertNotice::DailyWarning));
}

#[test]
fn new_day_does_not_disconnect_on_yesterdays_traffic() {
    let mut s = MonitorState::new(alerts_auto(), 10, 2024, 5, 200, 0, 0, 0);
    assert_eq!(s.check_alerts(0, 100, 1000, lv()), Some(AlertNotice::DailyLimitReached));
    s.roll_over(11, 2024, 5);
    assert_eq!(s.check_alerts(0, 100, 1000, lv()), None);
}

#[test]
fn monthly_alerts_rearm_in_a_new_month() {
    let mut s = MonitorState::new(alerts_on(), 10, 2024, 5, 0, 0, 0, 0);
    assert_eq!(s.check_alerts(960, 100, 1000, lv()), Some(AlertNotice::MonthlyCritical));
    assert_eq!(s.check_alerts(960, 100, 1000, lv()), Some(AlertNotice::MonthlyWarning));
    assert_eq!(s.check_alerts(960, 100, 1000, lv()), None);
    s.roll_over(11, 2024, 5);
    assert_eq!(s.check_alerts(960, 100, 1000, lv()), None);
    s.roll_over(30, 2024, 6);
    assert_eq!(s.check_alerts(960, 100, 1000, lv()), Some(AlertNotice::MonthlyCritical));
}

#[test]
fn monthly_usage_is_the_current_recorded_total() {
    let mut s = MonitorState::new(alerts_on(), 10, 2024, 5, 0, 0, 0, 0);
    assert_eq!(s.check_alerts(500, 100_000, 1000, lv()), None);
    // Traffic not yet recorded does not count against the monthly limit.
    s.update_network_rates(0, 80);
    assert_eq!(s.check_alerts(0, 100_000, 100, lv()), None);
    // The recorded total as it grows does.
    assert_eq!(s.check_alerts(790, 100_000, 1000, lv()), None);
    assert_eq!(s.check_alerts(800, 100_000, 1000, lv()), Some(AlertNotice::MonthlyWarning));
}

#[test]
fn samples_hold_all_traffic_since_the_last_record() {
    let mut s = MonitorState::new(alerts_on(), 1, 2024, 5, 0, 0, 0, 0);
    s.update_network_rates(10, 4);
    s.update_network_rates(20, 12);
    assert!(s.sample_fits());
    assert_eq!(s.record_traffic(59_999), None);
    assert_eq!(
        s.record_traffic(60_000),
        Some(TrafficSample { bytes_sent: 20, bytes_received: 12, total_bytes: 32 })
    );
    s.update_network_rates(25, 12);
    assert_eq!(
        s.record_traffic(60_000),
        Some(TrafficSample { bytes_sent: 5, bytes_received: 0, total_bytes: 5 })
    );
}

#[test]
fn history_days_end_today() {
    assert_eq!(traffic_history_days(100, 7), vec![94, 95, 96, 97, 98, 99, 100]);
    assert_eq!(traffic_history_days(100, 0), Vec::<i32>::new());
    assert_eq!(traffic_history_days(i32::MIN + 1, 2), vec![i32::MIN, i32::MIN + 1]);
}

#[test]
fn retention_cutoff() {
    assert_eq!(retention_cutoff_day(1000, 90), 910);
    assert_eq!(retention_cutoff_day(1000, 0), 1000);
}
