//! The watchdog: feeds the external reset timer only while the system is
//! healthy.
//!
//! Three signals are judged on every tick, each against its own timeout: the
//! network link, the age of the latest snapshot, and the time since metrics
//! were last scraped. One stale signal is enough to withhold the kick, so that
//! the external timer runs out and resets the board.

use vstd::prelude::*;
use crate::config::WatchdogConfig;

verus! {

/// What the watchdog is told on a tick. Timestamps are in ticks of the
/// monotonic clock.
#[derive(Debug, Clone, Copy, PartialEq, Eq)]
pub struct Signals {
    /// The clock at this tick.
    pub now: u64,
    /// Whether the network link is up.
    pub link_up: bool,
    /// Whether the network has its configuration.
    pub config_up: bool,
    /// When the latest snapshot was completed.
    pub sensors_updated: u64,
    /// When metrics were last scraped.
    pub last_scrape: u64,
}

/// What the watchdog does on a tick.
#[derive(Debug, Clone, Copy, PartialEq, Eq, Structural)]
pub enum KickDecision {
    /// Drive the kick output high, hold it for this many milliseconds, then
    /// drive it low.
    Kick(u32),
    /// Leave the kick output alone.
    Skip,
}

/// One thing done to the kick output.
#[derive(Debug, Clone, Copy, PartialEq, Eq, Structural)]
pub enum PinStep {
    /// Drive the output high.
    High,
    /// Keep the output as it is for this many milliseconds.
    Hold(u32),
    /// Drive the output low.
    Low,
}

/// Whether more than `timeout` ticks lie between `since` and `now`. A
/// timestamp that is not in the past has no age.
pub open spec fn stale(now: u64, since: u64, timeout: u64) -> bool {
    now - since > timeout
}

/// Whether the network is up at this tick.
pub open spec fn network_up(signals: Signals) -> bool {
    signals.link_up && signals.config_up
}

/// The time at which the network was last known to be up, after a tick that
/// was told `signals`.
pub open spec fn last_good_link(last_wifi_ok: u64, signals: Signals) -> u64 {
    if network_up(signals) {
        signals.now
    } else {
        last_wifi_ok
    }
}

/// The network signal: up now, or not down for longer than its timeout.
pub open spec fn network_healthy(last_wifi_ok: u64, signals: Signals, config: WatchdogConfig) -> bool {
    network_up(signals) || !stale(signals.now, last_wifi_ok, config.wifi_timeout)
}

/// The sensor signal: the latest snapshot is no older than its timeout.
pub open spec fn sensors_healthy(signals: Signals, config: WatchdogConfig) -> bool {
    !stale(signals.now, signals.sensors_updated, config.sensor_timeout)
}

/// The scrape signal: metrics were scraped no longer ago than the timeout.
pub open spec fn scrape_healthy(signals: Signals, config: WatchdogConfig) -> bool {
    !stale(signals.now, signals.last_scrape, config.metric_scrape_timeout)
}

/// The system is healthy when all three signals are.
pub open spec fn healthy(last_wifi_ok: u64, signals: Signals, config: WatchdogConfig) -> bool {
    &&& network_healthy(last_wifi_ok, signals, config)
    &&& sensors_healthy(signals, config)
    &&& scrape_healthy(signals, config)
}

/// What the watchdog decides on a tick.
pub open spec fn decision(last_wifi_ok: u64, signals: Signals, config: WatchdogConfig) -> KickDecision {
    if healthy(last_wifi_ok, signals, config) {
        KickDecision::Kick(config.kick_duration_ms)
    } else {
        KickDecision::Skip
    }
}

/// What a decision does to the kick output, in order.
pub open spec fn pulse(decision: KickDecision) -> Seq<PinStep> {
    match decision {
        KickDecision::Kick(ms) => seq![PinStep::High, PinStep::Hold(ms), PinStep::Low],
        KickDecision::Skip => Seq::empty(),
    }
}

/// Whether more than `timeout` ticks lie between `since` and `now`.
pub fn is_stale(now: u64, since: u64, timeout: u64) -> (is: bool)
    ensures
        is == stale(now, since, timeout),
{
    now >= since && now - since > timeout
}

/// The timestamp of a scrape that was recorded in whole seconds, on a clock
/// that ticks `tick_hz` times a second.
pub fn scrape_instant(last_scrape_secs: u32, tick_hz: u32) -> (ticks: u64)
    ensures
        ticks == last_scrape_secs * tick_hz,
{
    assert(last_scrape_secs * tick_hz <= 0xFFFF_FFFF * 0xFFFF_FFFF) by (nonlinear_arith)
        requires
            last_scrape_secs <= 0xFFFF_FFFF,
            tick_hz <= 0xFFFF_FFFF,
    ;
    (last_scrape_secs as u64) * (tick_hz as u64)
}

/// The steps that carry out a decision on the kick output.
pub fn kick_pulse(decision: KickDecision) -> (steps: Vec<PinStep>)
    ensures
        steps@ == pulse(decision),
{
    match decision {
        KickDecision::Kick(ms) => {
            let steps: Vec<PinStep> = vec![PinStep::High, PinStep::Hold(ms), PinStep::Low];
            proof {
                assert(steps@ =~= pulse(decision));
            }
            steps
        },
        KickDecision::Skip => {
            let steps: Vec<PinStep> = Vec::new();
            proof {
                assert(steps@ =~= pulse(decision));
            }
            steps
        },
    }
}

/// What the watchdog carries from tick to tick: when the network was last
/// known to be up.
#[derive(Debug, Clone, Copy, PartialEq, Eq)]
pub struct Watchdog {
    last_wifi_ok: u64,
}

impl View for Watchdog {
    type V = u64;

    closed spec fn view(&self) -> u64 {
        self.last_wifi_ok
    }
}

impl Watchdog {
    /// A watchdog that starts at `now` and takes the network to have been up
    /// then.
    pub fn new(now: u64) -> (watchdog: Watchdog)
        ensures
            watchdog@ == now,
    {
        Watchdog { last_wifi_ok: now }
    }

    /// When the network was last known to be up.
    pub fn last_wifi_ok(&self) -> (at: u64)
        ensures
            at == self@,
    {
        self.last_wifi_ok
    }

    /// Judges one tick. A network that is up refreshes the time it was last
    /// known to be up; nothing else changes that time. The kick is decided on
    /// the three signals together.
    pub fn tick(&mut self, signals: Signals, config: &WatchdogConfig) -> (decided: KickDecision)
        ensures
            final(self)@ == last_good_link(old(self)@, signals),
            decided == decision(old(self)@, signals, *config),
    {
        let mut healthy: bool = true;
        if signals.link_up && signals.config_up {
            self.last_wifi_ok = signals.now;
        } else if is_stale(signals.now, self.last_wifi_ok, config.wifi_timeout) {
            healthy = false;
        }
        if is_stale(signals.now, signals.sensors_updated, config.sensor_timeout) {
            healthy = false;
        }
        if is_stale(signals.now, signals.last_scrape, config.metric_scrape_timeout) {
            healthy = false;
        }
        if healthy {
            KickDecision::Kick(config.kick_duration_ms)
        } else {
            KickDecision::Skip
        }
    }
}

/// One stale signal is enough: with the network down for longer than its
/// timeout, or a snapshot older than its timeout, or the last scrape longer
/// ago than its timeout, alone or together, the kick output is left alone.
pub proof fn lemma_stale_signal_suppresses_kick(
    last_wifi_ok: u64,
    signals: Signals,
    config: WatchdogConfig,
)
    requires
        ({
            ||| !network_up(signals) && stale(signals.now, last_wifi_ok, config.wifi_timeout)
            ||| stale(signals.now, signals.sensors_updated, config.sensor_timeout)
            ||| stale(signals.now, signals.last_scrape, config.metric_scrape_timeout)
        }),
    ensures
        decision(last_wifi_ok, signals, config) == KickDecision::Skip,
        pulse(decision(last_wifi_ok, signals, config)) == Seq::<PinStep>::empty(),
{
}

/// With all three signals within their bounds the kick output goes high,
/// stays high for exactly the configured duration, and goes low.
pub proof fn lemma_fresh_signals_kick(last_wifi_ok: u64, signals: Signals, config: WatchdogConfig)
    requires
        network_up(signals) || !stale(signals.now, last_wifi_ok, config.wifi_timeout),
        !stale(signals.now, signals.sensors_updated, config.sensor_timeout),
        !stale(signals.now, signals.last_scrape, config.metric_scrape_timeout),
    ensures
        decision(last_wifi_ok, signals, config) == KickDecision::Kick(config.kick_duration_ms),
        pulse(decision(last_wifi_ok, signals, config)) == seq![
            PinStep::High,
            PinStep::Hold(config.kick_duration_ms),
            PinStep::Low,
        ],
{
}

} // verus!
