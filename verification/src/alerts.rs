//! Traffic alerts against the daily and the monthly limit.
//!
//! Usage is compared with a limit by exact ratios: a level of `p` percent is
//! reached when `usage * 100 >= limit * p`. A limit of zero is reached by any
//! usage above zero and by no usage of zero.
//!
//! The warning and critical levels are configured (by default 80 % and
//! 95 %). The warning and critical alerts of each period are given once,
//! until the period's alerts are reset; reaching the limit (100 %) with
//! automatic disconnection on is reported on every check.
use vstd::prelude::*;
use crate::config::AlertConfig;
use crate::monitor::network::{
    Platform,
    get_network_interfaces,
    pick_external_interface,
    interface_names,
    first_non_loopback,
};
use crate::ui::format::{decimal, decimal_string};

verus! {

/// What the application should do after a threshold check.
#[derive(Debug, Clone, Copy, PartialEq, Eq, Structural)]
pub enum AlertAction {
    NoAction,
    Warning,
    CriticalWarning,
    Disconnect,
}

/// An alert raised by a threshold check.
#[derive(Debug, Clone, Copy, PartialEq, Eq, Structural)]
pub enum AlertNotice {
    DailyLimitReached,
    DailyCritical,
    DailyWarning,
    MonthlyLimitReached,
    MonthlyCritical,
    MonthlyWarning,
}

/// The usage levels, in percent of a limit, at which the warning and the
/// critical alert are given.
#[derive(Debug, Clone, Copy, PartialEq, Eq, Structural)]
pub struct AlertLevels {
    pub warning_pct: u32,
    pub critical_pct: u32,
}

impl Default for AlertLevels {
    /// A warning at 80 % and a critical alert at 95 %.
    fn default() -> (l: Self)
        ensures
            l.warning_pct == 80,
            l.critical_pct == 95,
    {
        AlertLevels { warning_pct: 80, critical_pct: 95 }
    }
}

/// The action that belongs to a notice.
pub open spec fn notice_action(notice: AlertNotice) -> AlertAction {
    match notice {
        AlertNotice::DailyLimitReached | AlertNotice::MonthlyLimitReached => AlertAction::Disconnect,
        AlertNotice::DailyCritical | AlertNotice::MonthlyCritical => AlertAction::CriticalWarning,
        AlertNotice::DailyWarning | AlertNotice::MonthlyWarning => AlertAction::Warning,
    }
}

/// The action of an optional notice: `NoAction` when nothing was raised.
pub open spec fn action_of(notice: Option<AlertNotice>) -> AlertAction {
    match notice {
        Some(n) => notice_action(n),
        None => AlertAction::NoAction,
    }
}

/// The text shown for a notice, with the configured levels.
pub open spec fn notice_message(notice: AlertNotice, levels: AlertLevels) -> Seq<char> {
    match notice {
        AlertNotice::DailyLimitReached => "Daily traffic limit reached. Disconnecting..."@,
        AlertNotice::DailyCritical => "Daily traffic at "@ + decimal(levels.critical_pct as nat)
            + "%!"@,
        AlertNotice::DailyWarning => "Daily traffic at "@ + decimal(levels.warning_pct as nat)
            + "%"@,
        AlertNotice::MonthlyLimitReached => "Monthly traffic limit reached. Disconnecting..."@,
        AlertNotice::MonthlyCritical => "Monthly traffic at "@ + decimal(
            levels.critical_pct as nat,
        ) + "%!"@,
        AlertNotice::MonthlyWarning => "Monthly traffic at "@ + decimal(levels.warning_pct as nat)
            + "%"@,
    }
}

impl AlertNotice {
    /// The action that the application takes for this notice.
    pub fn action(&self) -> (a: AlertAction)
        ensures
            a == notice_action(*self),
    {
        match self {
            AlertNotice::DailyLimitReached | AlertNotice::MonthlyLimitReached => AlertAction::Disconnect,
            AlertNotice::DailyCritical | AlertNotice::MonthlyCritical => AlertAction::CriticalWarning,
            AlertNotice::DailyWarning | AlertNotice::MonthlyWarning => AlertAction::Warning,
        }
    }

    /// The notification text of this notice, with the configured levels.
    pub fn message(&self, levels: AlertLevels) -> (m: String)
        ensures
            m@ == notice_message(*self, levels),
    {
        match self {
            AlertNotice::DailyLimitReached => String::from_str(
                "Daily traffic limit reached. Disconnecting...",
            ),
            AlertNotice::MonthlyLimitReached => String::from_str(
                "Monthly traffic limit reached. Disconnecting...",
            ),
            AlertNotice::DailyCritical => {
                let mut m = String::from_str("Daily traffic at ");
                m.append(decimal_string(levels.critical_pct as u64).as_str());
                m.append("%!");
                m
            },
            AlertNotice::DailyWarning => {
                let mut m = String::from_str("Daily traffic at ");
                m.append(decimal_string(levels.warning_pct as u64).as_str());
                m.append("%");
                m
            },
            AlertNotice::MonthlyCritical => {
                let mut m = String::from_str("Monthly traffic at ");
                m.append(decimal_string(levels.critical_pct as u64).as_str());
                m.append("%!");
                m
            },
            AlertNotice::MonthlyWarning => {
                let mut m = String::from_str("Monthly traffic at ");
                m.append(decimal_string(levels.warning_pct as u64).as_str());
                m.append("%");
                m
            },
        }
    }
}

/// Whether `usage` has reached `percent` percent of `limit`.
pub open spec fn level_reached(usage: u64, limit: u64, percent: nat) -> bool {
    if limit == 0 {
        usage > 0
    } else {
        usage * 100 >= limit * percent
    }
}

/// Decides `level_reached`.
pub fn ratio_reached(usage: u64, limit: u64, percent: u32) -> (r: bool)
    ensures
        r == level_reached(usage, limit, percent as nat),
{
    if limit == 0 {
        usage > 0
    } else {
        let lhs: u128 = (usage as u128) * 100;
        assert((limit as u128) * (percent as u128) <= 0xffff_ffff_ffff_ffffu128 * 0xffff_ffffu128)
            by (nonlinear_arith)
            requires
                limit <= 0xffff_ffff_ffff_ffffu64,
                percent <= 0xffff_ffffu32,
        ;
        let rhs: u128 = (limit as u128) * (percent as u128);
        lhs >= rhs
    }
}

/// The abstract state of an alert manager: its configuration and which
/// one-shot alerts have been given since the last reset.
pub struct AlertState {
    pub config: AlertConfig,
    pub daily_warning_sent: bool,
    pub daily_critical_sent: bool,
    pub monthly_warning_sent: bool,
    pub monthly_critical_sent: bool,
}

/// The outcome of one threshold check: the next state and the raised notice.
///
/// Checks go in this order and the first that applies wins: daily limit
/// with automatic disconnection, daily critical level, daily warning level,
/// monthly limit with automatic disconnection, monthly critical level,
/// monthly warning level.
pub open spec fn check_step(
    s: AlertState,
    daily_usage: u64,
    daily_limit: u64,
    monthly_usage: u64,
    monthly_limit: u64,
    levels: AlertLevels,
) -> (AlertState, Option<AlertNotice>) {
    let warn = levels.warning_pct as nat;
    let crit = levels.critical_pct as nat;
    if !s.config.enabled {
        (s, None)
    } else if level_reached(daily_usage, daily_limit, 100) && s.config.auto_disconnect_on_limit {
        (s, Some(AlertNotice::DailyLimitReached))
    } else if level_reached(daily_usage, daily_limit, crit) && !s.daily_critical_sent {
        (AlertState { daily_critical_sent: true, ..s }, Some(AlertNotice::DailyCritical))
    } else if level_reached(daily_usage, daily_limit, warn) && !s.daily_warning_sent {
        (AlertState { daily_warning_sent: true, ..s }, Some(AlertNotice::DailyWarning))
    } else if level_reached(monthly_usage, monthly_limit, 100) && s.config.auto_disconnect_on_limit {
        (s, Some(AlertNotice::MonthlyLimitReached))
    } else if level_reached(monthly_usage, monthly_limit, crit) && !s.monthly_critical_sent {
        (AlertState { monthly_critical_sent: true, ..s }, Some(AlertNotice::MonthlyCritical))
    } else if level_reached(monthly_usage, monthly_limit, warn) && !s.monthly_warning_sent {
        (AlertState { monthly_warning_sent: true, ..s }, Some(AlertNotice::MonthlyWarning))
    } else {
        (s, None)
    }
}

/// Raises traffic alerts and remembers which ones were already given.
pub struct AlertManager {
    config: AlertConfig,
    daily_warning_sent: bool,
    daily_critical_sent: bool,
    monthly_warning_sent: bool,
    monthly_critical_sent: bool,
}

impl View for AlertManager {
    type V = AlertState;

    closed spec fn view(&self) -> AlertState {
        AlertState {
            config: self.config,
            daily_warning_sent: self.daily_warning_sent,
            daily_critical_sent: self.daily_critical_sent,
            monthly_warning_sent: self.monthly_warning_sent,
            monthly_critical_sent: self.monthly_critical_sent,
        }
    }
}

impl AlertManager {
    /// The state of a new manager: the configuration, no alert given yet.
    pub open spec fn new_state(config: AlertConfig) -> AlertState {
        AlertState {
            config,
            daily_warning_sent: false,
            daily_critical_sent: false,
            monthly_warning_sent: false,
            monthly_critical_sent: false,
        }
    }

    /// A manager with the given configuration that has given no alert yet.
    pub fn new(config: AlertConfig) -> (m: Self)
        ensures
            m@ == Self::new_state(config),
    {
        AlertManager {
            config,
            daily_warning_sent: false,
            daily_critical_sent: false,
            monthly_warning_sent: false,
            monthly_critical_sent: false,
        }
    }

    /// Checks usage against the limits and returns the notice to show, if
    /// any, as `check_step` describes.
    pub fn next_alert(
        &mut self,
        daily_usage: u64,
        daily_limit: u64,
        monthly_usage: u64,
        monthly_limit: u64,
        levels: AlertLevels,
    ) -> (notice: Option<AlertNotice>)
        ensures
            (final(self)@, notice) == check_step(
                old(self)@,
                daily_usage,
                daily_limit,
                monthly_usage,
                monthly_limit,
                levels,
            ),
    {
        if !self.config.enabled {
            return None;
        }
        if ratio_reached(daily_usage, daily_limit, 100) && self.config.auto_disconnect_on_limit {
            return Some(AlertNotice::DailyLimitReached);
        }
        if ratio_reached(daily_usage, daily_limit, levels.critical_pct) && !self.daily_critical_sent {
            self.daily_critical_sent = true;
            return Some(AlertNotice::DailyCritical);
        }
        if ratio_reached(daily_usage, daily_limit, levels.warning_pct) && !self.daily_warning_sent {
            self.daily_warning_sent = true;
            return Some(AlertNotice::DailyWarning);
        }
        if ratio_reached(monthly_usage, monthly_limit, 100) && self.config.auto_disconnect_on_limit {
            return Some(AlertNotice::MonthlyLimitReached);
        }
        if ratio_reached(monthly_usage, monthly_limit, levels.critical_pct)
            && !self.monthly_critical_sent {
            self.monthly_critical_sent = true;
            return Some(AlertNotice::MonthlyCritical);
        }
        if ratio_reached(monthly_usage, monthly_limit, levels.warning_pct)
            && !self.monthly_warning_sent {
            self.monthly_warning_sent = true;
            return Some(AlertNotice::MonthlyWarning);
        }
        None
    }

    /// Checks usage against the limits and returns the action to take.
    pub fn check_thresholds(
        &mut self,
        daily_usage: u64,
        daily_limit: u64,
        monthly_usage: u64,
        monthly_limit: u64,
        levels: AlertLevels,
    ) -> (action: AlertAction)
        ensures
            final(self)@ == check_step(
                old(self)@,
                daily_usage,
                daily_limit,
                monthly_usage,
                monthly_limit,
                levels,
            ).0,
            action == action_of(
                check_step(
                    old(self)@,
                    daily_usage,
                    daily_limit,
                    monthly_usage,
                    monthly_limit,
                    levels,
                ).1,
            ),
    {
        match self.next_alert(daily_usage, daily_limit, monthly_usage, monthly_limit, levels) {
            Some(n) => n.action(),
            None => AlertAction::NoAction,
        }
    }

    /// Makes the daily warning and critical alerts available again.
    pub fn reset_daily_alerts(&mut self)
        ensures
            final(self)@ == (AlertState {
                daily_warning_sent: false,
                daily_critical_sent: false,
                ..old(self)@
            }),
    {
        self.daily_warning_sent = false;
        self.daily_critical_sent = false;
    }

    /// Makes the monthly warning and critical alerts available again.
    pub fn reset_monthly_alerts(&mut self)
        ensures
            final(self)@ == (AlertState {
                monthly_warning_sent: false,
                monthly_critical_sent: false,
                ..old(self)@
            }),
    {
        self.monthly_warning_sent = false;
        self.monthly_critical_sent = false;
    }

    /// The interface that disconnecting takes down: the first known
    /// interface of the platform that is not a loopback interface.
    pub fn disconnect_network(&self, platform: Platform) -> (iface: Option<String>)
        ensures
            iface.deep_view() == first_non_loopback(interface_names(platform)),
    {
        let interfaces = get_network_interfaces(platform);
        pick_external_interface(&interfaces)
    }
}

/// With alerts disabled, a check raises nothing and changes nothing.
pub proof fn law_disabled_alerts_are_silent(
    s: AlertState,
    du: u64,
    dl: u64,
    mu: u64,
    ml: u64,
    lv: AlertLevels,
)
    requires
        !s.config.enabled,
    ensures
        check_step(s, du, dl, mu, ml, lv) == (s, Option::<AlertNotice>::None),
{
}

/// A check never withdraws a given alert and never changes the configuration.
pub proof fn law_alert_flags_only_rise(s: AlertState, du: u64, dl: u64, mu: u64, ml: u64, lv: AlertLevels)
    ensures
        ({
            let t = check_step(s, du, dl, mu, ml, lv).0;
            &&& t.config == s.config
            &&& s.daily_warning_sent ==> t.daily_warning_sent
            &&& s.daily_critical_sent ==> t.daily_critical_sent
            &&& s.monthly_warning_sent ==> t.monthly_warning_sent
            &&& s.monthly_critical_sent ==> t.monthly_critical_sent
        }),
{
}

/// Whether a notice is one of the one-shot warning or critical alerts.
pub open spec fn is_one_shot(n: AlertNotice) -> bool {
    !(n == AlertNotice::DailyLimitReached || n == AlertNotice::MonthlyLimitReached)
}

/// A warning or critical alert, once given, is not given by the next check,
/// whatever the usage and the levels then are.
pub proof fn law_one_shot_alert_not_repeated(
    s: AlertState,
    du: u64,
    dl: u64,
    mu: u64,
    ml: u64,
    lv: AlertLevels,
    du2: u64,
    dl2: u64,
    mu2: u64,
    ml2: u64,
    lv2: AlertLevels,
)
    ensures
        ({
            let (t, n) = check_step(s, du, dl, mu, ml, lv);
            n matches Some(k) ==> (is_one_shot(k) ==> check_step(t, du2, dl2, mu2, ml2, lv2).1
                != Some(k))
        }),
{
}

/// A one-shot alert whose flag is set is not raised by any check.
pub proof fn law_sent_alert_stays_silent(s: AlertState, du: u64, dl: u64, mu: u64, ml: u64, lv: AlertLevels)
    ensures
        s.daily_warning_sent ==> check_step(s, du, dl, mu, ml, lv).1 != Some(AlertNotice::DailyWarning),
        s.daily_critical_sent ==> check_step(s, du, dl, mu, ml, lv).1 != Some(AlertNotice::DailyCritical),
        s.monthly_warning_sent ==> check_step(s, du, dl, mu, ml, lv).1 != Some(AlertNotice::MonthlyWarning),
        s.monthly_critical_sent ==> check_step(s, du, dl, mu, ml, lv).1 != Some(
            AlertNotice::MonthlyCritical,
        ),
{
}

/// How many of the four one-shot alerts have been given.
pub open spec fn sent_count(s: AlertState) -> nat {
    (if s.daily_warning_sent { 1nat } else { 0nat }) + (if s.daily_critical_sent { 1nat } else { 0nat })
        + (if s.monthly_warning_sent { 1nat } else { 0nat }) + (if s.monthly_critical_sent {
        1nat
    } else {
        0nat
    })
}

/// The state after `n` identical checks.
pub open spec fn state_after(s: AlertState, du: u64, dl: u64, mu: u64, ml: u64, lv: AlertLevels, n: nat) -> AlertState
    decreases n,
{
    if n == 0 {
        s
    } else {
        check_step(state_after(s, du, dl, mu, ml, lv, (n - 1) as nat), du, dl, mu, ml, lv).0
    }
}

/// The notice of check number `k` (from zero) in a run of identical checks.
pub open spec fn notice_at(s: AlertState, du: u64, dl: u64, mu: u64, ml: u64, lv: AlertLevels, k: nat) -> Option<AlertNotice> {
    check_step(state_after(s, du, dl, mu, ml, lv, k), du, dl, mu, ml, lv).1
}

/// How many of the first `n` identical checks raise an alert.
pub open spec fn raised_count(s: AlertState, du: u64, dl: u64, mu: u64, ml: u64, lv: AlertLevels, n: nat) -> nat
    decreases n,
{
    if n == 0 {
        0
    } else {
        raised_count(s, du, dl, mu, ml, lv, (n - 1) as nat) + if notice_at(
            s,
            du,
            dl,
            mu,
            ml,
            lv,
            (n - 1) as nat,
        ) is Some {
            1nat
        } else {
            0nat
        }
    }
}

proof fn lemma_one_step(s: AlertState, du: u64, dl: u64, mu: u64, ml: u64, lv: AlertLevels)
    requires
        !s.config.auto_disconnect_on_limit,
    ensures
        ({
            let (t, n) = check_step(s, du, dl, mu, ml, lv);
            &&& t.config == s.config
            &&& n is None ==> t == s
            &&& n is Some ==> sent_count(t) == sent_count(s) + 1
        }),
{
}

proof fn lemma_run(s: AlertState, du: u64, dl: u64, mu: u64, ml: u64, lv: AlertLevels, n: nat)
    requires
        !s.config.auto_disconnect_on_limit,
    ensures
        state_after(s, du, dl, mu, ml, lv, n).config == s.config,
        sent_count(state_after(s, du, dl, mu, ml, lv, n)) == sent_count(s) + raised_count(
            s,
            du,
            dl,
            mu,
            ml,
            lv,
            n,
        ),
    decreases n,
{
    if n > 0 {
        lemma_run(s, du, dl, mu, ml, lv, (n - 1) as nat);
        lemma_one_step(state_after(s, du, dl, mu, ml, lv, (n - 1) as nat), du, dl, mu, ml, lv);
    }
}

/// Repeating the same check without automatic disconnection raises at most
/// four alerts in all (each of the four one-shot alerts at most once), and
/// once a check raises nothing, every later identical check raises nothing.
pub proof fn law_repeated_checks(
    s: AlertState,
    du: u64,
    dl: u64,
    mu: u64,
    ml: u64,
    lv: AlertLevels,
    n: nat,
    k: nat,
)
    requires
        !s.config.auto_disconnect_on_limit,
    ensures
        raised_count(s, du, dl, mu, ml, lv, n) <= 4,
        notice_at(s, du, dl, mu, ml, lv, k) is None ==> notice_at(s, du, dl, mu, ml, lv, k + 1) is None,
{
    lemma_run(s, du, dl, mu, ml, lv, n);
    lemma_run(s, du, dl, mu, ml, lv, k);
    lemma_one_step(state_after(s, du, dl, mu, ml, lv, k), du, dl, mu, ml, lv);
    assert(state_after(s, du, dl, mu, ml, lv, k + 1) == check_step(
        state_after(s, du, dl, mu, ml, lv, k),
        du,
        dl,
        mu,
        ml,
        lv,
    ).0);
}

/// Whether the flag of a one-shot alert is set.
pub open spec fn flag_of(s: AlertState, n: AlertNotice) -> bool {
    match n {
        AlertNotice::DailyWarning => s.daily_warning_sent,
        AlertNotice::DailyCritical => s.daily_critical_sent,
        AlertNotice::MonthlyWarning => s.monthly_warning_sent,
        AlertNotice::MonthlyCritical => s.monthly_critical_sent,
        _ => false,
    }
}

/// How many of the first `n` identical checks raise the alert `x`.
pub open spec fn count_of(
    s: AlertState,
    du: u64,
    dl: u64,
    mu: u64,
    ml: u64,
    lv: AlertLevels,
    x: AlertNotice,
    n: nat,
) -> nat
    decreases n,
{
    if n == 0 {
        0
    } else {
        count_of(s, du, dl, mu, ml, lv, x, (n - 1) as nat) + if notice_at(
            s,
            du,
            dl,
            mu,
            ml,
            lv,
            (n - 1) as nat,
        ) == Some(x) {
            1nat
        } else {
            0nat
        }
    }
}

proof fn lemma_count_bounded_by_flag(
    s: AlertState,
    du: u64,
    dl: u64,
    mu: u64,
    ml: u64,
    lv: AlertLevels,
    x: AlertNotice,
    n: nat,
)
    requires
        is_one_shot(x),
    ensures
        count_of(s, du, dl, mu, ml, lv, x, n) + (if flag_of(s, x) { 1nat } else { 0nat }) <= (
        if flag_of(state_after(s, du, dl, mu, ml, lv, n), x) {
            1nat
        } else {
            0nat
        }),
    decreases n,
{
    if n > 0 {
        let m = (n - 1) as nat;
        lemma_count_bounded_by_flag(s, du, dl, mu, ml, lv, x, m);
        let t = state_after(s, du, dl, mu, ml, lv, m);
        law_alert_flags_only_rise(t, du, dl, mu, ml, lv);
        law_sent_alert_stays_silent(t, du, dl, mu, ml, lv);
    }
}

/// In a run of identical checks, each of the four one-shot alerts is
/// raised at most once, and not at all when it was already given before the
/// run.
pub proof fn law_one_shot_alert_at_most_once(
    s: AlertState,
    du: u64,
    dl: u64,
    mu: u64,
    ml: u64,
    lv: AlertLevels,
    x: AlertNotice,
    n: nat,
)
    requires
        is_one_shot(x),
    ensures
        count_of(s, du, dl, mu, ml, lv, x, n) <= 1,
        flag_of(s, x) ==> count_of(s, du, dl, mu, ml, lv, x, n) == 0,
{
    lemma_count_bounded_by_flag(s, du, dl, mu, ml, lv, x, n);
}

/// Reaching a limit is reported only with alerts and automatic
/// disconnection on and the usage at or above the limit; it leaves the state
/// as it was, so the next check reports it again.
pub proof fn law_limit_reached_repeats(s: AlertState, du: u64, dl: u64, mu: u64, ml: u64, lv: AlertLevels)
    ensures
        ({
            let (t, n) = check_step(s, du, dl, mu, ml, lv);
            (n == Some(AlertNotice::DailyLimitReached) ==> {
                &&& s.config.enabled && s.config.auto_disconnect_on_limit
                &&& level_reached(du, dl, 100)
                &&& t == s
                &&& check_step(t, du, dl, mu, ml, lv).1 == n
            }) && (n == Some(AlertNotice::MonthlyLimitReached) ==> {
                &&& s.config.enabled && s.config.auto_disconnect_on_limit
                &&& level_reached(mu, ml, 100)
                &&& t == s
                &&& check_step(t, du, dl, mu, ml, lv).1 == n
            })
        }),
{
}

/// With alerts and automatic disconnection on, a daily usage at or above
/// the daily limit always asks to disconnect.
pub proof fn law_daily_limit_disconnects(s: AlertState, du: u64, dl: u64, mu: u64, ml: u64, lv: AlertLevels)
    requires
        s.config.enabled,
        s.config.auto_disconnect_on_limit,
        level_reached(du, dl, 100),
    ensures
        check_step(s, du, dl, mu, ml, lv) == (s, Some(AlertNotice::DailyLimitReached)),
{
}

/// With alerts and automatic disconnection on, a monthly usage at or above
/// the monthly limit asks to disconnect when the daily usage is below both
/// levels and the daily limit.
pub proof fn law_monthly_limit_disconnects(s: AlertState, du: u64, dl: u64, mu: u64, ml: u64, lv: AlertLevels)
    requires
        s.config.enabled,
        s.config.auto_disconnect_on_limit,
        !level_reached(du, dl, 100),
        !level_reached(du, dl, lv.warning_pct as nat),
        !level_reached(du, dl, lv.critical_pct as nat),
        level_reached(mu, ml, 100),
    ensures
        check_step(s, du, dl, mu, ml, lv) == (s, Some(AlertNotice::MonthlyLimitReached)),
{
}

/// A fresh warning comes at the configured warning level: with alerts on,
/// the daily warning not yet given and the daily usage at the warning level
/// but below the critical level (and below the limit when automatic
/// disconnection is on), the check gives the daily warning.
pub proof fn law_warning_at_configured_level(
    s: AlertState,
    du: u64,
    dl: u64,
    mu: u64,
    ml: u64,
    lv: AlertLevels,
)
    requires
        s.config.enabled,
        !s.daily_warning_sent,
        level_reached(du, dl, lv.warning_pct as nat),
        !level_reached(du, dl, lv.critical_pct as nat),
        s.config.auto_disconnect_on_limit ==> !level_reached(du, dl, 100),
    ensures
        check_step(s, du, dl, mu, ml, lv) == (
            AlertState { daily_warning_sent: true, ..s },
            Some(AlertNotice::DailyWarning),
        ),
{
}

/// Below the warning and critical levels of both limits (and below the
/// limits when automatic disconnection is on) no alert is raised and nothing
/// changes.
pub proof fn law_quiet_below_levels(s: AlertState, du: u64, dl: u64, mu: u64, ml: u64, lv: AlertLevels)
    requires
        !level_reached(du, dl, lv.warning_pct as nat),
        !level_reached(du, dl, lv.critical_pct as nat),
        !level_reached(mu, ml, lv.warning_pct as nat),
        !level_reached(mu, ml, lv.critical_pct as nat),
        s.config.auto_disconnect_on_limit ==> !level_reached(du, dl, 100) && !level_reached(mu, ml, 100),
    ensures
        check_step(s, du, dl, mu, ml, lv) == (s, Option::<AlertNotice>::None),
{
}

/// Every raised alert matches the usage: a daily alert means the daily
/// usage reached its level, a monthly one the monthly usage.
pub proof fn law_alert_matches_level(s: AlertState, du: u64, dl: u64, mu: u64, ml: u64, lv: AlertLevels)
    ensures
        ({
            let n = check_step(s, du, dl, mu, ml, lv).1;
            &&& n == Some(AlertNotice::DailyCritical) ==> level_reached(du, dl, lv.critical_pct as nat)
            &&& n == Some(AlertNotice::DailyWarning) ==> level_reached(du, dl, lv.warning_pct as nat)
            &&& n == Some(AlertNotice::MonthlyCritical) ==> level_reached(mu, ml, lv.critical_pct as nat)
            &&& n == Some(AlertNotice::MonthlyWarning) ==> level_reached(mu, ml, lv.warning_pct as nat)
        }),
{
}

/// After a daily reset, a daily usage at the critical level raises the
/// daily critical alert again (with automatic disconnection off).
pub proof fn law_daily_reset_rearms(s: AlertState, du: u64, dl: u64, mu: u64, ml: u64, lv: AlertLevels)
    requires
        s.config.enabled,
        !s.config.auto_disconnect_on_limit,
        level_reached(du, dl, lv.critical_pct as nat),
    ensures
        check_step(
            AlertState { daily_warning_sent: false, daily_critical_sent: false, ..s },
            du,
            dl,
            mu,
            ml,
            lv,
        ).1 == Some(AlertNotice::DailyCritical),
{
}

/// After a monthly reset, with the daily usage below both levels, a monthly
/// usage at the critical level raises the monthly critical alert again (with
/// automatic disconnection off).
pub proof fn law_monthly_reset_rearms(s: AlertState, du: u64, dl: u64, mu: u64, ml: u64, lv: AlertLevels)
    requires
        s.config.enabled,
        !s.config.auto_disconnect_on_limit,
        !level_reached(du, dl, lv.warning_pct as nat),
        !level_reached(du, dl, lv.critical_pct as nat),
        level_reached(mu, ml, lv.critical_pct as nat),
    ensures
        check_step(
            AlertState { monthly_warning_sent: false, monthly_critical_sent: false, ..s },
            du,
            dl,
            mu,
            ml,
            lv,
        ).1 == Some(AlertNotice::MonthlyCritical),
{
}

} // verus!
