//! The monitor's running state between two screen updates: today's traffic
//! totals, counters and rates, the traffic not yet recorded, the recent rate
//! history and the alert state.
//!
//! The application reads the operating system, the clock and the database
//! and hands the results to these functions; dates are day numbers counted
//! from the first day of the common era, months are a year and a month.
use vstd::prelude::*;
use std::collections::VecDeque;
use crate::alerts::{AlertManager, AlertNotice, AlertState, AlertLevels, check_step};
use crate::config::AlertConfig;

verus! {

/// How many rate samples the download and upload histories hold.
pub const HISTORY_LEN: usize = 60;

/// Minimum time between two threshold checks, in milliseconds.
pub const ALERT_CHECK_INTERVAL_MS: u64 = 5000;

/// Minimum time between two recorded traffic samples, in milliseconds.
pub const RECORD_INTERVAL_MS: u64 = 60_000;

/// One traffic sample to store: bytes sent and received since the previous
/// stored sample, and their sum.
#[derive(Debug, Clone, Copy, PartialEq, Eq, Structural)]
pub struct TrafficSample {
    pub bytes_sent: u64,
    pub bytes_received: u64,
    pub total_bytes: u64,
}

/// The abstract state of a monitor.
pub struct MonitorView {
    pub alerts: AlertState,
    /// Bytes sent today.
    pub network_sent: u64,
    /// Bytes received today.
    pub network_recv: u64,
    /// The system's sent counter at the last reading.
    pub last_network_sent: u64,
    /// The system's received counter at the last reading.
    pub last_network_recv: u64,
    /// Bytes sent between the last two readings.
    pub sent_rate: u64,
    /// Bytes received between the last two readings.
    pub recv_rate: u64,
    /// Bytes sent since the last stored sample.
    pub pending_sent: u64,
    /// Bytes received since the last stored sample.
    pub pending_recv: u64,
    /// Received rates, oldest first.
    pub download_history: Seq<u64>,
    /// Sent rates, oldest first.
    pub upload_history: Seq<u64>,
    /// The day that the totals and the daily alerts belong to.
    pub day: i32,
    /// The year that the monthly alerts belong to.
    pub year: i32,
    /// The month that the monthly alerts belong to.
    pub month: u32,
}

/// The rate that a counter reading gives: the growth since the last reading,
/// or the previous rate when the counter went back (it was reset).
pub open spec fn next_rate(counter: u64, last_counter: u64, rate: u64) -> u64 {
    if counter >= last_counter {
        (counter - last_counter) as u64
    } else {
        rate
    }
}

/// A history after a new sample: the sample is appended and, when the
/// history then holds more than `HISTORY_LEN` samples, the oldest is dropped.
pub open spec fn slide(history: Seq<u64>, sample: u64) -> Seq<u64> {
    if history.push(sample).len() > HISTORY_LEN {
        history.push(sample).drop_first()
    } else {
        history.push(sample)
    }
}

/// Whether today's totals and the unrecorded traffic can take the rates of
/// a new counter reading.
pub open spec fn rates_fit(v: MonitorView, sent_counter: u64, recv_counter: u64) -> bool {
    let sent_rate = next_rate(sent_counter, v.last_network_sent, v.sent_rate);
    let recv_rate = next_rate(recv_counter, v.last_network_recv, v.recv_rate);
    &&& v.network_sent + sent_rate <= u64::MAX
    &&& v.network_recv + recv_rate <= u64::MAX
    &&& v.pending_sent + sent_rate <= u64::MAX
    &&& v.pending_recv + recv_rate <= u64::MAX
}

/// The state after a reading of the system's traffic counters: the rates
/// are added to today's totals and to the unrecorded traffic.
pub open spec fn rates_step(v: MonitorView, sent_counter: u64, recv_counter: u64) -> MonitorView {
    let sent_rate = next_rate(sent_counter, v.last_network_sent, v.sent_rate);
    let recv_rate = next_rate(recv_counter, v.last_network_recv, v.recv_rate);
    MonitorView {
        network_sent: (v.network_sent + sent_rate) as u64,
        network_recv: (v.network_recv + recv_rate) as u64,
        pending_sent: (v.pending_sent + sent_rate) as u64,
        pending_recv: (v.pending_recv + recv_rate) as u64,
        last_network_sent: sent_counter,
        last_network_recv: recv_counter,
        sent_rate,
        recv_rate,
        download_history: slide(v.download_history, recv_rate),
        upload_history: slide(v.upload_history, sent_rate),
        ..v
    }
}

/// The state on `today` in `year`/`month`: on a new day today's totals
/// start from zero and the daily alerts are rearmed; in a new month the
/// monthly alerts are rearmed.
pub open spec fn rollover_step(v: MonitorView, today: i32, year: i32, month: u32) -> MonitorView {
    let new_day = today != v.day;
    let new_month = year != v.year || month != v.month;
    let a1 = if new_day {
        AlertState { daily_warning_sent: false, daily_critical_sent: false, ..v.alerts }
    } else {
        v.alerts
    };
    let a2 = if new_month {
        AlertState { monthly_warning_sent: false, monthly_critical_sent: false, ..a1 }
    } else {
        a1
    };
    MonitorView {
        alerts: a2,
        network_sent: if new_day {
            0
        } else {
            v.network_sent
        },
        network_recv: if new_day {
            0
        } else {
            v.network_recv
        },
        day: today,
        year,
        month,
        ..v
    }
}

/// Whether today's sent and received totals can be summed.
pub open spec fn usage_fits(v: MonitorView) -> bool {
    v.network_sent + v.network_recv <= u64::MAX
}

/// The state and the raised notice after a threshold check: today's totals
/// against the daily limit, the month's recorded total against the monthly
/// limit.
pub open spec fn check_alerts_step(
    v: MonitorView,
    recorded: u64,
    daily_limit: u64,
    monthly_limit: u64,
    levels: AlertLevels,
) -> (MonitorView, Option<AlertNotice>) {
    let (alerts, notice) = check_step(
        v.alerts,
        (v.network_sent + v.network_recv) as u64,
        daily_limit,
        recorded,
        monthly_limit,
        levels,
    );
    (MonitorView { alerts, ..v }, notice)
}

/// The sample that a record stores: all traffic since the previous record.
pub open spec fn pending_sample(v: MonitorView) -> TrafficSample {
    TrafficSample {
        bytes_sent: v.pending_sent,
        bytes_received: v.pending_recv,
        total_bytes: (v.pending_sent + v.pending_recv) as u64,
    }
}

/// The accounting state of the monitor.
pub struct MonitorState {
    alert_manager: AlertManager,
    network_sent: u64,
    network_recv: u64,
    last_network_sent: u64,
    last_network_recv: u64,
    network_sent_rate: u64,
    network_recv_rate: u64,
    pending_sent: u64,
    pending_recv: u64,
    download_history: VecDeque<u64>,
    upload_history: VecDeque<u64>,
    day: i32,
    year: i32,
    month: u32,
}

impl View for MonitorState {
    type V = MonitorView;

    closed spec fn view(&self) -> MonitorView {
        MonitorView {
            alerts: self.alert_manager@,
            network_sent: self.network_sent,
            network_recv: self.network_recv,
            last_network_sent: self.last_network_sent,
            last_network_recv: self.last_network_recv,
            sent_rate: self.network_sent_rate,
            recv_rate: self.network_recv_rate,
            pending_sent: self.pending_sent,
            pending_recv: self.pending_recv,
            download_history: self.download_history@,
            upload_history: self.upload_history@,
            day: self.day,
            year: self.year,
            month: self.month,
        }
    }
}

/// A view is well formed when both histories hold exactly `HISTORY_LEN`
/// samples.
pub open spec fn view_wf(v: MonitorView) -> bool {
    v.download_history.len() == HISTORY_LEN && v.upload_history.len() == HISTORY_LEN
}

impl MonitorState {
    /// Whether the state is well formed.
    pub open spec fn wf(&self) -> bool {
        view_wf(self@)
    }

    /// The state at start-up on day `today` of `year`/`month`: today's
    /// totals come from the database, the counters from the first system
    /// reading; rates and unrecorded traffic are zero and both histories hold
    /// `HISTORY_LEN` zeros.
    pub fn new(
        config: AlertConfig,
        today: i32,
        year: i32,
        month: u32,
        daily_sent: u64,
        daily_recv: u64,
        sent_counter: u64,
        recv_counter: u64,
    ) -> (s: Self)
        ensures
            s.wf(),
            s@.alerts == AlertManager::new_state(config),
            s@.network_sent == daily_sent,
            s@.network_recv == daily_recv,
            s@.last_network_sent == sent_counter,
            s@.last_network_recv == recv_counter,
            s@.sent_rate == 0,
            s@.recv_rate == 0,
            s@.pending_sent == 0,
            s@.pending_recv == 0,
            s@.download_history == Seq::new(HISTORY_LEN as nat, |i: int| 0u64),
            s@.upload_history == Seq::new(HISTORY_LEN as nat, |i: int| 0u64),
            s@.day == today,
            s@.year == year,
            s@.month == month,
    {
        let mut download_history: VecDeque<u64> = VecDeque::new();
        let mut upload_history: VecDeque<u64> = VecDeque::new();
        let mut i: usize = 0;
        while i < HISTORY_LEN
            invariant
                i <= HISTORY_LEN,
                download_history@ == Seq::new(i as nat, |j: int| 0u64),
                upload_history@ == Seq::new(i as nat, |j: int| 0u64),
            decreases HISTORY_LEN - i,
        {
            download_history.push_back(0);
            upload_history.push_back(0);
            i = i + 1;
            assert(download_history@ =~= Seq::new(i as nat, |j: int| 0u64));
            assert(upload_history@ =~= Seq::new(i as nat, |j: int| 0u64));
        }
        MonitorState {
            alert_manager: AlertManager::new(config),
            network_sent: daily_sent,
            network_recv: daily_recv,
            last_network_sent: sent_counter,
            last_network_recv: recv_counter,
            network_sent_rate: 0,
            network_recv_rate: 0,
            pending_sent: 0,
            pending_recv: 0,
            download_history,
            upload_history,
            day: today,
            year,
            month,
        }
    }

    /// Bytes sent between the last two readings.
    pub fn network_sent_rate(&self) -> (r: u64)
        ensures
            r == self@.sent_rate,
    {
        self.network_sent_rate
    }

    /// Bytes received between the last two readings.
    pub fn network_recv_rate(&self) -> (r: u64)
        ensures
            r == self@.recv_rate,
    {
        self.network_recv_rate
    }

    /// Bytes sent today.
    pub fn network_sent(&self) -> (r: u64)
        ensures
            r == self@.network_sent,
    {
        self.network_sent
    }

    /// Bytes received today.
    pub fn network_recv(&self) -> (r: u64)
        ensures
            r == self@.network_recv,
    {
        self.network_recv
    }

    /// The received rates, oldest first.
    pub fn download_history(&self) -> (h: &VecDeque<u64>)
        ensures
            h@ == self@.download_history,
    {
        &self.download_history
    }

    /// The sent rates, oldest first.
    pub fn upload_history(&self) -> (h: &VecDeque<u64>)
        ensures
            h@ == self@.upload_history,
    {
        &self.upload_history
    }

    /// The alert manager.
    pub fn alert_manager(&self) -> (m: &AlertManager)
        ensures
            m@ == self@.alerts,
    {
        &self.alert_manager
    }

    /// Moves the state to `today` in `year`/`month`: on a new day today's
    /// totals restart from zero and the daily alerts are rearmed, in a new
    /// month the monthly alerts are rearmed.
    pub fn roll_over(&mut self, today: i32, year: i32, month: u32)
        requires
            old(self).wf(),
        ensures
            final(self).wf(),
            final(self)@ == rollover_step(old(self)@, today, year, month),
            final(self)@.day == today,
            final(self)@.year == year,
            final(self)@.month == month,
    {
        if today != self.day {
            self.network_sent = 0;
            self.network_recv = 0;
            self.alert_manager.reset_daily_alerts();
            self.day = today;
        }
        if year != self.year || month != self.month {
            self.alert_manager.reset_monthly_alerts();
            self.year = year;
            self.month = month;
        }
    }

    /// Tells whether `update_network_rates` can add the rates of this
    /// reading without overflowing.
    pub fn network_rates_fit(&self, sent_counter: u64, recv_counter: u64) -> (r: bool)
        ensures
            r == rates_fit(self@, sent_counter, recv_counter),
    {
        let sent_rate = if sent_counter >= self.last_network_sent {
            sent_counter - self.last_network_sent
        } else {
            self.network_sent_rate
        };
        let recv_rate = if recv_counter >= self.last_network_recv {
            recv_counter - self.last_network_recv
        } else {
            self.network_recv_rate
        };
        sent_rate <= u64::MAX - self.network_sent && recv_rate <= u64::MAX - self.network_recv
            && sent_rate <= u64::MAX - self.pending_sent && recv_rate <= u64::MAX
            - self.pending_recv
    }

    /// Takes a reading of the system's total sent and received counters:
    /// updates the rates, today's totals, the unrecorded traffic and the
    /// histories.
    pub fn update_network_rates(&mut self, sent_counter: u64, recv_counter: u64)
        requires
            old(self).wf(),
            rates_fit(old(self)@, sent_counter, recv_counter),
        ensures
            final(self).wf(),
            final(self)@ == rates_step(old(self)@, sent_counter, recv_counter),
            final(self)@.download_history == old(self)@.download_history.drop_first().push(
                final(self)@.recv_rate,
            ),
            final(self)@.upload_history == old(self)@.upload_history.drop_first().push(
                final(self)@.sent_rate,
            ),
    {
        if sent_counter >= self.last_network_sent {
            self.network_sent_rate = sent_counter - self.last_network_sent;
        }
        if recv_counter >= self.last_network_recv {
            self.network_recv_rate = recv_counter - self.last_network_recv;
        }
        self.last_network_sent = sent_counter;
        self.last_network_recv = recv_counter;
        self.network_sent = self.network_sent + self.network_sent_rate;
        self.network_recv = self.network_recv + self.network_recv_rate;
        self.pending_sent = self.pending_sent + self.network_sent_rate;
        self.pending_recv = self.pending_recv + self.network_recv_rate;
        self.download_history.push_back(self.network_recv_rate);
        self.upload_history.push_back(self.network_sent_rate);
        if self.download_history.len() > HISTORY_LEN {
            self.download_history.pop_front();
        }
        if self.upload_history.len() > HISTORY_LEN {
            self.upload_history.pop_front();
        }
        assert(self@.download_history =~= rates_step(old(self)@, sent_counter, recv_counter).download_history);
        assert(self@.upload_history =~= rates_step(old(self)@, sent_counter, recv_counter).upload_history);
        assert(self@.download_history =~= old(self)@.download_history.drop_first().push(self@.recv_rate));
        assert(self@.upload_history =~= old(self)@.upload_history.drop_first().push(self@.sent_rate));
    }

    /// Whether a threshold check is due after `elapsed_ms` milliseconds
    /// since the last one.
    pub fn alert_check_due(elapsed_ms: u64) -> (r: bool)
        ensures
            r == (elapsed_ms >= ALERT_CHECK_INTERVAL_MS),
    {
        elapsed_ms >= ALERT_CHECK_INTERVAL_MS
    }

    /// Tells whether today's sent and received totals can be summed.
    pub fn usage_fits(&self) -> (r: bool)
        ensures
            r == usage_fits(self@),
    {
        self.network_sent <= u64::MAX - self.network_recv
    }

    /// A threshold check: today's totals against the daily limit, and the
    /// month's recorded total, as the database holds it now, against the
    /// monthly limit.
    pub fn check_alerts(
        &mut self,
        recorded: u64,
        daily_limit: u64,
        monthly_limit: u64,
        levels: AlertLevels,
    ) -> (notice: Option<AlertNotice>)
        requires
            old(self).wf(),
            usage_fits(old(self)@),
        ensures
            final(self).wf(),
            (final(self)@, notice) == check_alerts_step(
                old(self)@,
                recorded,
                daily_limit,
                monthly_limit,
                levels,
            ),
            (final(self)@.alerts, notice) == check_step(
                old(self)@.alerts,
                (old(self)@.network_sent + old(self)@.network_recv) as u64,
                daily_limit,
                recorded,
                monthly_limit,
                levels,
            ),
    {
        let daily_usage = self.network_sent + self.network_recv;
        self.alert_manager.next_alert(daily_usage, daily_limit, recorded, monthly_limit, levels)
    }

    /// Tells whether the unrecorded sent and received bytes can be added.
    pub fn sample_fits(&self) -> (r: bool)
        ensures
            r == (self@.pending_sent + self@.pending_recv <= u64::MAX),
    {
        self.pending_sent <= u64::MAX - self.pending_recv
    }

    /// The traffic sample to store when `elapsed_ms` milliseconds have
    /// passed since the last one was stored: all traffic since then, which
    /// is then no longer pending; nothing before `RECORD_INTERVAL_MS`.
    pub fn record_traffic(&mut self, elapsed_ms: u64) -> (r: Option<TrafficSample>)
        requires
            old(self).wf(),
            elapsed_ms >= RECORD_INTERVAL_MS ==> old(self)@.pending_sent + old(self)@.pending_recv
                <= u64::MAX,
        ensures
            final(self).wf(),
            elapsed_ms < RECORD_INTERVAL_MS ==> r is None && final(self)@ == old(self)@,
            elapsed_ms >= RECORD_INTERVAL_MS ==> r == Some(pending_sample(old(self)@))
                && final(self)@ == (MonitorView { pending_sent: 0, pending_recv: 0, ..old(self)@ }),
            r matches Some(t) ==> t.bytes_sent == old(self)@.pending_sent && t.bytes_received
                == old(self)@.pending_recv && t.total_bytes == t.bytes_sent + t.bytes_received,
    {
        if elapsed_ms >= RECORD_INTERVAL_MS {
            let sample = TrafficSample {
                bytes_sent: self.pending_sent,
                bytes_received: self.pending_recv,
                total_bytes: self.pending_sent + self.pending_recv,
            };
            self.pending_sent = 0;
            self.pending_recv = 0;
            Some(sample)
        } else {
            None
        }
    }
}

/// A check counts both directions of today's traffic against the daily
/// limit: with alerts on, automatic disconnection off and the daily warning
/// not yet given, a day whose sent plus received bytes are at the warning
/// level but below the critical level gives the daily warning, and one at
/// the critical level gives the daily critical alert if not yet given.
pub proof fn law_daily_usage_is_sent_plus_received(
    v: MonitorView,
    recorded: u64,
    daily_limit: u64,
    monthly_limit: u64,
    lv: AlertLevels,
)
    requires
        v.alerts.config.enabled,
        !v.alerts.config.auto_disconnect_on_limit,
        daily_limit > 0,
        v.network_sent + v.network_recv <= u64::MAX,
    ensures
        !v.alerts.daily_warning_sent
            && (v.network_sent + v.network_recv) * 100 >= daily_limit * lv.warning_pct
            && (v.network_sent + v.network_recv) * 100 < daily_limit * lv.critical_pct
            ==> check_alerts_step(v, recorded, daily_limit, monthly_limit, lv).1 == Some(
            AlertNotice::DailyWarning,
        ),
        !v.alerts.daily_critical_sent
            && (v.network_sent + v.network_recv) * 100 >= daily_limit * lv.critical_pct
            ==> check_alerts_step(v, recorded, daily_limit, monthly_limit, lv).1 == Some(
            AlertNotice::DailyCritical,
        ),
        check_alerts_step(v, recorded, daily_limit, monthly_limit, lv).1 == check_step(
            v.alerts,
            (v.network_sent + v.network_recv) as u64,
            daily_limit,
            recorded,
            monthly_limit,
            lv,
        ).1,
{
}

/// A stored sample holds the bytes sent and received since the last record,
/// and its total is their sum.
pub proof fn law_sample_total_is_sent_plus_received(v: MonitorView)
    requires
        v.pending_sent + v.pending_recv <= u64::MAX,
    ensures
        pending_sample(v).bytes_sent == v.pending_sent,
        pending_sample(v).bytes_received == v.pending_recv,
        pending_sample(v).total_bytes == pending_sample(v).bytes_sent + pending_sample(
            v,
        ).bytes_received,
{
}

/// The histories keep the last `HISTORY_LEN` rates: every reading, whatever
/// its counters, shifts them by one and puts the new rates last.
pub proof fn law_history_window(v: MonitorView, sent_counter: u64, recv_counter: u64)
    requires
        view_wf(v),
    ensures
        ({
            let w = rates_step(v, sent_counter, recv_counter);
            &&& view_wf(w)
            &&& w.download_history == v.download_history.drop_first().push(w.recv_rate)
            &&& w.upload_history == v.upload_history.drop_first().push(w.sent_rate)
        }),
{
    let w = rates_step(v, sent_counter, recv_counter);
    assert(w.download_history =~= v.download_history.drop_first().push(w.recv_rate));
    assert(w.upload_history =~= v.upload_history.drop_first().push(w.sent_rate));
}

/// Every byte of a reading is counted once in today's totals and once in
/// the traffic that the next record stores.
pub proof fn law_traffic_accounted(v: MonitorView, sent_counter: u64, recv_counter: u64)
    requires
        rates_fit(v, sent_counter, recv_counter),
    ensures
        ({
            let w = rates_step(v, sent_counter, recv_counter);
            &&& w.network_sent == v.network_sent + w.sent_rate
            &&& w.network_recv == v.network_recv + w.recv_rate
            &&& w.pending_sent == v.pending_sent + w.sent_rate
            &&& w.pending_recv == v.pending_recv + w.recv_rate
        }),
{
}

/// A record stores all traffic since the previous record: after two
/// readings that follow a record, the next record holds the sum of their
/// rates.
pub proof fn law_record_holds_traffic_since_last_record(
    v: MonitorView,
    s1: u64,
    r1: u64,
    s2: u64,
    r2: u64,
)
    requires
        v.pending_sent == 0,
        v.pending_recv == 0,
        rates_fit(v, s1, r1),
        rates_fit(rates_step(v, s1, r1), s2, r2),
    ensures
        ({
            let w1 = rates_step(v, s1, r1);
            let w2 = rates_step(w1, s2, r2);
            &&& pending_sample(w2).bytes_sent == w1.sent_rate + w2.sent_rate
            &&& pending_sample(w2).bytes_received == w1.recv_rate + w2.recv_rate
        }),
{
}

/// A rate is the growth of its counter; when a counter goes back, the
/// previous rate is kept (and counted again).
pub proof fn law_rate_from_counter(v: MonitorView, sent_counter: u64, recv_counter: u64)
    ensures
        ({
            let w = rates_step(v, sent_counter, recv_counter);
            &&& sent_counter >= v.last_network_sent ==> w.sent_rate == sent_counter - v.last_network_sent
            &&& sent_counter < v.last_network_sent ==> w.sent_rate == v.sent_rate
            &&& recv_counter >= v.last_network_recv ==> w.recv_rate == recv_counter - v.last_network_recv
            &&& recv_counter < v.last_network_recv ==> w.recv_rate == v.recv_rate
            &&& w.last_network_sent == sent_counter
            &&& w.last_network_recv == recv_counter
        }),
{
}

/// On a new day, today's totals restart from zero and the daily alerts are
/// rearmed; within the same day and month nothing changes.
pub proof fn law_day_rollover(v: MonitorView, today: i32, year: i32, month: u32)
    ensures
        ({
            let w = rollover_step(v, today, year, month);
            &&& today != v.day ==> w.network_sent == 0 && w.network_recv == 0
                && !w.alerts.daily_warning_sent && !w.alerts.daily_critical_sent
            &&& today == v.day && year == v.year && month == v.month ==> w == v
            &&& w.day == today
            &&& w.year == year
            &&& w.month == month
        }),
{
}

/// Rolling over to the same day and month twice is the same as once: the
/// state remembers the day, year and month it was moved to.
pub proof fn law_rollover_idempotent(v: MonitorView, today: i32, year: i32, month: u32)
    ensures
        rollover_step(rollover_step(v, today, year, month), today, year, month) == rollover_step(
            v,
            today,
            year,
            month,
        ),
        rollover_step(v, today, year, month).day == today,
        rollover_step(v, today, year, month).year == year,
        rollover_step(v, today, year, month).month == month,
{
}

/// Rolling over, checking, and rolling over again to the same day and month
/// (as every frame does) gives no one-shot alert twice: the second check
/// does not repeat a warning or critical alert that the first one gave.
pub proof fn law_rollover_then_check_not_repeated(
    v: MonitorView,
    today: i32,
    year: i32,
    month: u32,
    recorded: u64,
    daily_limit: u64,
    monthly_limit: u64,
    lv: AlertLevels,
)
    ensures
        ({
            let w = rollover_step(v, today, year, month);
            let (w1, n1) = check_alerts_step(w, recorded, daily_limit, monthly_limit, lv);
            let w2 = rollover_step(w1, today, year, month);
            let n2 = check_alerts_step(w2, recorded, daily_limit, monthly_limit, lv).1;
            &&& w2 == w1
            &&& (n1 matches Some(k) ==> (crate::alerts::is_one_shot(k) ==> n2 != Some(k)))
        }),
{
    let w = rollover_step(v, today, year, month);
    let (w1, n1) = check_alerts_step(w, recorded, daily_limit, monthly_limit, lv);
    crate::alerts::law_sent_alert_stays_silent(
        w1.alerts,
        (w1.network_sent + w1.network_recv) as u64,
        daily_limit,
        recorded,
        monthly_limit,
        lv,
    );
}

/// In a new month the monthly alerts are rearmed; in the same month they
/// are kept.
pub proof fn law_month_rollover(v: MonitorView, today: i32, year: i32, month: u32)
    ensures
        ({
            let w = rollover_step(v, today, year, month);
            &&& (year != v.year || month != v.month) ==> !w.alerts.monthly_warning_sent
                && !w.alerts.monthly_critical_sent
            &&& (year == v.year && month == v.month) ==> w.alerts.monthly_warning_sent
                == v.alerts.monthly_warning_sent && w.alerts.monthly_critical_sent
                == v.alerts.monthly_critical_sent
        }),
{
}

/// The first check of a new month gives the monthly critical alert when the
/// month's usage is at the critical level, even if it was given in the
/// previous month (alerts on, automatic disconnection off, the day's usage
/// below both levels).
pub proof fn law_new_month_alerts_again(
    v: MonitorView,
    today: i32,
    year: i32,
    month: u32,
    recorded: u64,
    daily_limit: u64,
    monthly_limit: u64,
    lv: AlertLevels,
)
    requires
        year != v.year || month != v.month,
        v.alerts.config.enabled,
        !v.alerts.config.auto_disconnect_on_limit,
        usage_fits(rollover_step(v, today, year, month)),
        ({
            let w = rollover_step(v, today, year, month);
            let du = (w.network_sent + w.network_recv) as u64;
            &&& !crate::alerts::level_reached(du, daily_limit, lv.warning_pct as nat)
            &&& !crate::alerts::level_reached(du, daily_limit, lv.critical_pct as nat)
            &&& crate::alerts::level_reached(
                recorded,
                monthly_limit,
                lv.critical_pct as nat,
            )
        }),
    ensures
        check_alerts_step(
            rollover_step(v, today, year, month),
            recorded,
            daily_limit,
            monthly_limit,
            lv,
        ).1 == Some(AlertNotice::MonthlyCritical),
{
}

/// The first check of a new day counts no traffic of earlier days: before
/// any reading of the new day, no daily alert is raised against a positive
/// daily limit with positive levels.
pub proof fn law_new_day_counts_only_today(
    v: MonitorView,
    today: i32,
    year: i32,
    month: u32,
    recorded: u64,
    daily_limit: u64,
    monthly_limit: u64,
    lv: AlertLevels,
)
    requires
        today != v.day,
        daily_limit > 0,
        lv.warning_pct > 0,
        lv.critical_pct > 0,
    ensures
        ({
            let n = check_alerts_step(
                rollover_step(v, today, year, month),
                recorded,
                daily_limit,
                monthly_limit,
                lv,
            ).1;
            n != Some(AlertNotice::DailyLimitReached) && n != Some(AlertNotice::DailyCritical) && n
                != Some(AlertNotice::DailyWarning)
        }),
{
    assert(daily_limit * (lv.warning_pct as nat) > 0) by (nonlinear_arith)
        requires
            daily_limit > 0,
            lv.warning_pct > 0,
    ;
    assert(daily_limit * (lv.critical_pct as nat) > 0) by (nonlinear_arith)
        requires
            daily_limit > 0,
            lv.critical_pct > 0,
    ;
}

/// Within one day and month, a warning or critical alert given by a check
/// is not given again by the next check, whatever readings come between.
pub proof fn law_same_period_alert_not_repeated(
    v: MonitorView,
    recorded: u64,
    daily_limit: u64,
    monthly_limit: u64,
    lv: AlertLevels,
    sent_counter: u64,
    recv_counter: u64,
    recorded2: u64,
    lv2: AlertLevels,
)
    requires
        rates_fit(
            check_alerts_step(v, recorded, daily_limit, monthly_limit, lv).0,
            sent_counter,
            recv_counter,
        ),
    ensures
        ({
            let (v1, n1) = check_alerts_step(v, recorded, daily_limit, monthly_limit, lv);
            let v2 = rates_step(
                rollover_step(v1, v.day, v.year, v.month),
                sent_counter,
                recv_counter,
            );
            let n2 = check_alerts_step(v2, recorded2, daily_limit, monthly_limit, lv2).1;
            n1 matches Some(k) ==> (crate::alerts::is_one_shot(k) ==> n2 != Some(k))
        }),
{
    let (v1, n1) = check_alerts_step(v, recorded, daily_limit, monthly_limit, lv);
    let v2 = rates_step(rollover_step(v1, v.day, v.year, v.month), sent_counter, recv_counter);
    crate::alerts::law_sent_alert_stays_silent(
        v2.alerts,
        (v2.network_sent + v2.network_recv) as u64,
        daily_limit,
        recorded2,
        monthly_limit,
        lv2,
    );
}

} // verus!
