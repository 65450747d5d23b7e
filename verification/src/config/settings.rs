//! Application settings, their defaults, and the log level they name.
use vstd::prelude::*;
use crate::text::{chars_eq_str, chars_of, str_to_lowercase, to_lowercase_text};

verus! {

#[derive(Debug)]
pub struct AppConfig {
    /// Custom path to adb executable. If empty or None, searches PATH and standard SDK locations.
    pub adb_path: Option<String>,
    /// Specific device serial to connect to (if multiple connected).
    pub target_device_serial: Option<String>,
    /// Polling interval in milliseconds (default: 750ms).
    pub polling_interval_ms: u64,
    /// Whether call state monitoring is actively running.
    pub enable_monitoring: bool,
    /// Notify on incoming call (RINGING).
    pub notify_incoming: bool,
    /// Notify on outgoing call (OFFHOOK directly from IDLE).
    pub notify_outgoing: bool,
    /// Notify on call connected (OFFHOOK after RINGING).
    pub notify_connected: bool,
    /// Notify on call ended (IDLE after OFFHOOK/RINGING).
    pub notify_ended: bool,
    /// Play sound with Windows toast notifications.
    pub notification_sound: bool,
    /// Log level filter (e.g. "info", "debug", "warn", "trace").
    pub log_level: String,
    /// Launch app automatically on Windows startup.
    pub start_with_windows: bool,
}

/// Settings with texts as characters.
pub struct ConfigView {
    pub adb_path: Option<Seq<char>>,
    pub target_device_serial: Option<Seq<char>>,
    pub polling_interval_ms: u64,
    pub enable_monitoring: bool,
    pub notify_incoming: bool,
    pub notify_outgoing: bool,
    pub notify_connected: bool,
    pub notify_ended: bool,
    pub notification_sound: bool,
    pub log_level: Seq<char>,
    pub start_with_windows: bool,
}

impl View for AppConfig {
    type V = ConfigView;

    open spec fn view(&self) -> ConfigView {
        ConfigView {
            adb_path: self.adb_path.deep_view(),
            target_device_serial: self.target_device_serial.deep_view(),
            polling_interval_ms: self.polling_interval_ms,
            enable_monitoring: self.enable_monitoring,
            notify_incoming: self.notify_incoming,
            notify_outgoing: self.notify_outgoing,
            notify_connected: self.notify_connected,
            notify_ended: self.notify_ended,
            notification_sound: self.notification_sound,
            log_level: self.log_level@,
            start_with_windows: self.start_with_windows,
        }
    }
}

pub(crate) fn clone_opt_text(s: &Option<String>) -> (r: Option<String>)
    ensures
        r.deep_view() == s.deep_view(),
{
    match s {
        Some(t) => Some(t.clone()),
        None => None,
    }
}

impl Clone for AppConfig {
    fn clone(&self) -> (r: AppConfig)
        ensures
            r@ == self@,
    {
        AppConfig {
            adb_path: clone_opt_text(&self.adb_path),
            target_device_serial: clone_opt_text(&self.target_device_serial),
            polling_interval_ms: self.polling_interval_ms,
            enable_monitoring: self.enable_monitoring,
            notify_incoming: self.notify_incoming,
            notify_outgoing: self.notify_outgoing,
            notify_connected: self.notify_connected,
            notify_ended: self.notify_ended,
            notification_sound: self.notification_sound,
            log_level: self.log_level.clone(),
            start_with_windows: self.start_with_windows,
        }
    }
}

/// The settings used when none are saved: no custom `adb`, no target
/// device, polling every 750 ms, monitoring and every notification on,
/// with sound, log level `info`, not started with Windows.
pub open spec fn default_config() -> ConfigView {
    ConfigView {
        adb_path: None,
        target_device_serial: None,
        polling_interval_ms: 750,
        enable_monitoring: true,
        notify_incoming: true,
        notify_outgoing: true,
        notify_connected: true,
        notify_ended: true,
        notification_sound: true,
        log_level: "info"@,
        start_with_windows: false,
    }
}

impl Default for AppConfig {
    fn default() -> (r: AppConfig)
        ensures
            r@ == default_config(),
    {
        AppConfig {
            adb_path: None,
            target_device_serial: None,
            polling_interval_ms: 750,
            enable_monitoring: true,
            notify_incoming: true,
            notify_outgoing: true,
            notify_connected: true,
            notify_ended: true,
            notification_sound: true,
            log_level: String::from_str("info"),
            start_with_windows: false,
        }
    }
}

/// Log verbosity.
#[derive(Debug, Clone, Copy, PartialEq, Eq, Structural)]
pub enum LogLevel {
    Trace,
    Debug,
    Info,
    Warn,
    Error,
}

/// The level a lower-cased setting names; anything unknown means `Info`.
pub open spec fn log_level_of_keyword(k: Seq<char>) -> LogLevel {
    if k == "trace"@ {
        LogLevel::Trace
    } else if k == "debug"@ {
        LogLevel::Debug
    } else if k == "warn"@ {
        LogLevel::Warn
    } else if k == "error"@ {
        LogLevel::Error
    } else {
        LogLevel::Info
    }
}

/// The level a log-level setting names, ignoring case.
pub fn log_level_from_setting(setting: &str) -> (r: LogLevel)
    ensures
        r == log_level_of_keyword(str_to_lowercase(setting@)),
{
    let lower = to_lowercase_text(setting);
    let k = chars_of(lower.as_str());
    if chars_eq_str(&k, "trace") {
        LogLevel::Trace
    } else if chars_eq_str(&k, "debug") {
        LogLevel::Debug
    } else if chars_eq_str(&k, "warn") {
        LogLevel::Warn
    } else if chars_eq_str(&k, "error") {
        LogLevel::Error
    } else {
        LogLevel::Info
    }
}

/// How long the monitor waits between polls: the configured interval, but
/// never less than 250 ms.
pub fn poll_interval_ms(config: &AppConfig) -> (r: u64)
    ensures
        r == if config.polling_interval_ms >= 250 { config.polling_interval_ms } else { 250 },
{
    if config.polling_interval_ms >= 250 {
        config.polling_interval_ms
    } else {
        250
    }
}

} // verus!
