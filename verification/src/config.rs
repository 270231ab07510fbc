//! Settings of the watchdog and of the polling task.
//!
//! Every duration is in ticks of the monotonic clock, the unit of every
//! timestamp in this library.

use vstd::prelude::*;

verus! {

/// Seconds between two checks of the watchdog.
pub const WATCHDOG_TICK_SECS: u64 = 60;

/// Seconds that the network may be down before the system counts as unhealthy.
pub const WIFI_TIMEOUT_SECS: u64 = 300;

/// Seconds that a snapshot may age before the system counts as unhealthy.
pub const SENSOR_TIMEOUT_SECS: u64 = 120;

/// Seconds that may pass without a metrics scrape before the system counts as
/// unhealthy.
pub const METRIC_SCRAPE_TIMEOUT_SECS: u64 = 900;

/// Milliseconds that the kick output stays high.
pub const KICK_DURATION_MS: u32 = 25;

/// Seconds between two acquisition cycles.
pub const POLLING_INTERVAL_SECS: u64 = 2;

/// Settings of the watchdog.
#[derive(Debug, Clone, Copy, PartialEq, Eq)]
pub struct WatchdogConfig {
    /// Ticks between two checks.
    pub tick_interval: u64,
    /// Ticks that the network may be down.
    pub wifi_timeout: u64,
    /// Ticks that a snapshot may age.
    pub sensor_timeout: u64,
    /// Ticks that may pass without a metrics scrape.
    pub metric_scrape_timeout: u64,
    /// Milliseconds that the kick output stays high.
    pub kick_duration_ms: u32,
}

/// Settings of the polling task.
#[derive(Debug, Clone, Copy, PartialEq, Eq)]
pub struct SensorConfig {
    /// Ticks between two acquisition cycles.
    pub polling_interval: u64,
}

impl WatchdogConfig {
    /// The settings of the firmware on a clock that ticks `tick_hz` times a
    /// second.
    pub open spec fn standard(tick_hz: u32) -> WatchdogConfig {
        WatchdogConfig {
            tick_interval: (WATCHDOG_TICK_SECS * tick_hz) as u64,
            wifi_timeout: (WIFI_TIMEOUT_SECS * tick_hz) as u64,
            sensor_timeout: (SENSOR_TIMEOUT_SECS * tick_hz) as u64,
            metric_scrape_timeout: (METRIC_SCRAPE_TIMEOUT_SECS * tick_hz) as u64,
            kick_duration_ms: KICK_DURATION_MS,
        }
    }

    /// The settings of the firmware on a clock that ticks `tick_hz` times a
    /// second.
    pub fn new(tick_hz: u32) -> (config: WatchdogConfig)
        ensures
            config == WatchdogConfig::standard(tick_hz),
            config.tick_interval == 60 * tick_hz,
            config.wifi_timeout == 300 * tick_hz,
            config.sensor_timeout == 120 * tick_hz,
            config.metric_scrape_timeout == 900 * tick_hz,
            config.kick_duration_ms == 25,
    {
        let hz: u64 = tick_hz as u64;
        WatchdogConfig {
            tick_interval: WATCHDOG_TICK_SECS * hz,
            wifi_timeout: WIFI_TIMEOUT_SECS * hz,
            sensor_timeout: SENSOR_TIMEOUT_SECS * hz,
            metric_scrape_timeout: METRIC_SCRAPE_TIMEOUT_SECS * hz,
            kick_duration_ms: KICK_DURATION_MS,
        }
    }
}

impl SensorConfig {
    /// The settings of the firmware on a clock that ticks `tick_hz` times a
    /// second.
    pub fn new(tick_hz: u32) -> (config: SensorConfig)
        ensures
            config.polling_interval == 2 * tick_hz,
    {
        SensorConfig { polling_interval: POLLING_INTERVAL_SECS * (tick_hz as u64) }
    }

    /// The polling interval in whole seconds, as the gas-index algorithms
    /// take it; an interval beyond 65535 seconds counts as 65535.
    pub fn sampling_interval_secs(&self, tick_hz: u32) -> (secs: u16)
        requires
            tick_hz > 0,
        ensures
            secs == if self.polling_interval / (tick_hz as u64) > 65535 {
                65535
            } else {
                self.polling_interval / (tick_hz as u64)
            },
    {
        let secs: u64 = self.polling_interval / (tick_hz as u64);
        if secs > 65535 {
            65535
        } else {
            secs as u16
        }
    }
}

} // verus!
