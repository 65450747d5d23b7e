//! The monitoring service's state and the decisions of its loop: how
//! commands change the settings, and what each poll of the device does to
//! the status and the call state machine. Waiting, running `adb` and
//! showing toasts are left to the caller.
use vstd::prelude::*;
use crate::adb::device::{DeviceInfo, DeviceStatus, DeviceView, DeviceStatusView};
use crate::call::detector::{
    event_for, start_time_after, tracking_after, tracking_wf, CallStateMachine, CallTracking,
};
use crate::call::state::{call_event_text, CallEvent, CallMetadata, CallState};
use crate::config::settings::{clone_opt_text, AppConfig, ConfigView};
use crate::notifications::windows::{NotificationManager, ToastContent, ToastView};
use crate::text::{is_ascii_digit, push_str, string_of};

verus! {

/// Whether `t` reads as a wall-clock time `HH:MM:SS`.
pub open spec fn is_clock_text(t: Seq<char>) -> bool {
    &&& t.len() == 8
    &&& t[2] == ':' && t[5] == ':'
    &&& forall|i: int| 0 <= i < 8 && i != 2 && i != 5 ==> is_ascii_digit(#[trigger] t[i])
}

/// The local time of day as `HH:MM:SS`, from `chrono::Local::now()`
/// formatted with `%H:%M:%S`. The value depends on the clock; the contract
/// claims only its shape (each field zero-padded to two digits).
#[verifier::external_body]
fn local_clock_text() -> (r: String)
    ensures
        is_clock_text(r@),
{
    chrono::Local::now().format("%H:%M:%S").to_string()
}

/// Real-time application monitoring status snapshot
#[derive(Debug)]
pub struct AppStatus {
    pub adb_connected: bool,
    pub device_info: Option<DeviceInfo>,
    pub monitoring_active: bool,
    pub current_call_state: CallState,
    pub last_event: String,
    pub last_event_time: String,
    pub error_message: Option<String>,
}

/// A status snapshot with texts as characters.
pub struct AppStatusView {
    pub adb_connected: bool,
    pub device_info: Option<DeviceView>,
    pub monitoring_active: bool,
    pub current_call_state: CallState,
    pub last_event: Seq<char>,
    pub last_event_time: Seq<char>,
    pub error_message: Option<Seq<char>>,
}

pub open spec fn device_view_of(d: Option<DeviceInfo>) -> Option<DeviceView> {
    match d {
        Some(x) => Some(x@),
        None => None,
    }
}

impl View for AppStatus {
    type V = AppStatusView;

    open spec fn view(&self) -> AppStatusView {
        AppStatusView {
            adb_connected: self.adb_connected,
            device_info: device_view_of(self.device_info),
            monitoring_active: self.monitoring_active,
            current_call_state: self.current_call_state,
            last_event: self.last_event@,
            last_event_time: self.last_event_time@,
            error_message: self.error_message.deep_view(),
        }
    }
}

fn clone_device(d: &Option<DeviceInfo>) -> (r: Option<DeviceInfo>)
    ensures
        device_view_of(r) == device_view_of(*d),
{
    match d {
        Some(x) => Some(x.clone()),
        None => None,
    }
}

impl Clone for AppStatus {
    fn clone(&self) -> (r: AppStatus)
        ensures
            r@ == self@,
    {
        AppStatus {
            adb_connected: self.adb_connected,
            device_info: clone_device(&self.device_info),
            monitoring_active: self.monitoring_active,
            current_call_state: self.current_call_state,
            last_event: self.last_event.clone(),
            last_event_time: self.last_event_time.clone(),
            error_message: clone_opt_text(&self.error_message),
        }
    }
}

impl Default for AppStatus {
    /// Nothing connected or monitored, idle, the event "Application
    /// initialized" stamped with the current time.
    fn default() -> (r: AppStatus)
        ensures
            !r@.adb_connected,
            r@.device_info is None,
            !r@.monitoring_active,
            r@.current_call_state == CallState::Idle,
            r@.last_event == "Application initialized"@,
            is_clock_text(r@.last_event_time),
            r@.error_message is None,
    {
        AppStatus {
            adb_connected: false,
            device_info: None,
            monitoring_active: false,
            current_call_state: CallState::Idle,
            last_event: String::from_str("Application initialized"),
            last_event_time: local_clock_text(),
            error_message: None,
        }
    }
}

pub enum AppCommand {
    ToggleMonitoring(bool),
    SetPollingInterval(u64),
    RestartAdb,
    TestNotification,
    UpdateConfig(AppConfig),
    Quit,
}

/// What the service has to do after a command.
#[derive(Debug)]
pub enum CommandEffect {
    /// Save the settings.
    SaveConfig,
    /// Restart the ADB server.
    RestartAdb,
    /// Show this toast.
    ShowToast(ToastContent),
    /// Save the settings and look for `adb` again with them.
    SaveConfigAndReconnect,
    /// Stop the service.
    Quit,
}

/// Applies a command from the user interface to the settings and the status.
pub fn apply_command(config: &mut AppConfig, status: &mut AppStatus, cmd: AppCommand) -> (r:
    CommandEffect)
    ensures
        match cmd {
            AppCommand::ToggleMonitoring(enable) => {
                &&& final(config)@ == ConfigView { enable_monitoring: enable, ..old(config)@ }
                &&& final(status)@ == AppStatusView { monitoring_active: enable, ..old(status)@ }
                &&& r is SaveConfig
            },
            AppCommand::SetPollingInterval(ms) => {
                &&& final(config)@ == ConfigView { polling_interval_ms: ms, ..old(config)@ }
                &&& final(status)@ == old(status)@
                &&& r is SaveConfig
            },
            AppCommand::RestartAdb => {
                &&& final(config)@ == old(config)@
                &&& final(status)@ == old(status)@
                &&& r is RestartAdb
            },
            AppCommand::TestNotification => {
                &&& final(config)@ == old(config)@
                &&& final(status)@ == old(status)@
                &&& r matches CommandEffect::ShowToast(t) && t@ == (ToastView {
                    title: "📞 Test Notification"@,
                    message: "WinCallNotifier is working properly!"@,
                    is_incoming: false,
                    sound: true,
                })
            },
            AppCommand::UpdateConfig(new_cfg) => {
                &&& final(config)@ == new_cfg@
                &&& final(status)@ == old(status)@
                &&& r is SaveConfigAndReconnect
            },
            AppCommand::Quit => {
                &&& final(config)@ == old(config)@
                &&& final(status)@ == old(status)@
                &&& r is Quit
            },
        },
{
    match cmd {
        AppCommand::ToggleMonitoring(enable) => {
            config.enable_monitoring = enable;
            status.monitoring_active = enable;
            CommandEffect::SaveConfig
        },
        AppCommand::SetPollingInterval(ms) => {
            config.polling_interval_ms = ms;
            CommandEffect::SaveConfig
        },
        AppCommand::RestartAdb => CommandEffect::RestartAdb,
        AppCommand::TestNotification => {
            let notifier = NotificationManager::new();
            CommandEffect::ShowToast(
                notifier.send_toast(
                    "📞 Test Notification",
                    "WinCallNotifier is working properly!",
                    true,
                ),
            )
        },
        AppCommand::UpdateConfig(new_cfg) => {
            *config = new_cfg;
            CommandEffect::SaveConfigAndReconnect
        },
        AppCommand::Quit => CommandEffect::Quit,
    }
}

/// `prefix` followed by `text`, as an error message.
fn prefixed(prefix: &str, text: &str) -> (r: String)
    ensures
        r@ == prefix@ + text@,
{
    let mut out: Vec<char> = Vec::new();
    push_str(&mut out, prefix);
    push_str(&mut out, text);
    string_of(out.as_slice())
}

/// Records that no `adb` was found (`error_text` is the error's message);
/// during a poll this also marks ADB as not connected.
pub fn note_adb_missing(status: &mut AppStatus, error_text: &str, polling: bool)
    ensures
        final(status)@ == (AppStatusView {
            adb_connected: if polling { false } else { old(status)@.adb_connected },
            error_message: Some("ADB not found: "@ + error_text@),
            ..old(status)@
        }),
{
    if polling {
        status.adb_connected = false;
    }
    status.error_message = Some(prefixed("ADB not found: ", error_text));
}

/// Records that `adb` was found.
pub fn note_adb_found(status: &mut AppStatus)
    ensures
        final(status)@ == (AppStatusView { error_message: None, ..old(status)@ }),
{
    status.error_message = None;
}

/// What a poll does once the device is known.
#[derive(Debug)]
pub enum PollAction {
    /// Nothing more this round.
    Wait,
    /// Show this toast (the device asks for USB-debugging authorization).
    ShowToast(ToastContent),
    /// Query the call state of the device with this serial.
    QueryCallState(String),
}

/// What the polling loop remembers between rounds.
pub struct MonitorState {
    call_machine: CallStateMachine,
    last_device_status: Option<DeviceStatus>,
}

/// What the loop remembers: the call tracking and the last device status seen.
pub struct MonitorView {
    pub tracking: CallTracking,
    pub last_device_status: Option<DeviceStatusView>,
}

pub open spec fn status_view_of(s: Option<DeviceStatus>) -> Option<DeviceStatusView> {
    match s {
        Some(x) => Some(x@),
        None => None,
    }
}

impl View for MonitorState {
    type V = MonitorView;

    closed spec fn view(&self) -> MonitorView {
        MonitorView {
            tracking: self.call_machine@,
            last_device_status: status_view_of(self.last_device_status),
        }
    }
}

/// The warning toast for an unauthorized device.
pub open spec fn unauthorized_toast() -> ToastView {
    ToastView {
        title: "⚠️ Device Unauthorized"@,
        message: "Please unlock your phone and accept the USB debugging authorization prompt."@,
        is_incoming: false,
        sound: true,
    }
}

/// The status right after a device refresh, before the device is looked at.
pub open spec fn refreshed_status(
    s: AppStatusView,
    device: Option<DeviceView>,
    monitoring_enabled: bool,
) -> AppStatusView {
    AppStatusView {
        adb_connected: true,
        device_info: device,
        monitoring_active: monitoring_enabled,
        ..s
    }
}

impl MonitorState {
    /// The call tracking always satisfies `tracking_wf`.
    #[verifier::type_invariant]
    spec fn inv(self) -> bool {
        tracking_wf(self.call_machine@)
    }

    pub fn new() -> (r: Self)
        ensures
            r@.tracking == crate::call::detector::idle_tracking(),
            r@.last_device_status is None,
            tracking_wf(r@.tracking),
            r.start_time() is None,
    {
        MonitorState { call_machine: CallStateMachine::new(), last_device_status: None }
    }

    /// The clock reading taken when the call in progress left `Idle`.
    pub closed spec fn start_time(&self) -> Option<std::time::Instant> {
        self.call_machine.start_time()
    }

    /// The call state the machine is in.
    pub fn call_state(&self) -> (r: CallState)
        ensures
            r == self@.tracking.current,
            tracking_wf(self@.tracking),
    {
        proof {
            use_type_invariant(self);
        }
        self.call_machine.current_state()
    }

    /// Takes in the outcome of a device refresh. A device that went away
    /// resets the call tracking; an unauthorized device is warned about once;
    /// an authorized device is queried while monitoring is on.
    pub fn on_device(
        &mut self,
        status: &mut AppStatus,
        device: Option<DeviceInfo>,
        monitoring_enabled: bool,
    ) -> (r: PollAction)
        ensures
            tracking_wf(old(self)@.tracking),
            tracking_wf(final(self)@.tracking),
            if device is None && old(self)@.last_device_status is Some {
                final(self).start_time() is None
            } else {
                final(self).start_time() == old(self).start_time()
            },
            ({
                let s = refreshed_status(old(status)@, device_view_of(device), monitoring_enabled);
                match device {
                    None => if old(self)@.last_device_status is Some {
                        &&& final(self)@.tracking == crate::call::detector::idle_tracking()
                        &&& final(self)@.last_device_status is None
                        &&& final(status)@.current_call_state == CallState::Idle
                        &&& final(status)@.last_event == "Device disconnected"@
                        &&& is_clock_text(final(status)@.last_event_time)
                        &&& final(status)@ == AppStatusView {
                            current_call_state: CallState::Idle,
                            last_event: final(status)@.last_event,
                            last_event_time: final(status)@.last_event_time,
                            ..s
                        }
                        &&& r is Wait
                    } else {
                        &&& final(self)@ == old(self)@
                        &&& final(status)@ == s
                        &&& r is Wait
                    },
                    Some(d) => if d@.status == DeviceStatusView::Unauthorized {
                        &&& final(self)@.tracking == old(self)@.tracking
                        &&& final(self)@.last_device_status == Some(DeviceStatusView::Unauthorized)
                        &&& final(status)@ == AppStatusView {
                            error_message: Some("Device unauthorized. Check phone screen."@),
                            ..s
                        }
                        &&& if old(self)@.last_device_status == Some(DeviceStatusView::Unauthorized) {
                            r is Wait
                        } else {
                            r matches PollAction::ShowToast(t) && t@ == unauthorized_toast()
                        }
                    } else {
                        &&& final(self)@.tracking == old(self)@.tracking
                        &&& final(self)@.last_device_status == Some(d@.status)
                        &&& final(status)@ == s
                        &&& if monitoring_enabled {
                            r matches PollAction::QueryCallState(serial) && serial@ == d@.serial
                        } else {
                            r is Wait
                        }
                    },
                }
            }),
    {
        proof {
            use_type_invariant(&*self);
        }
        status.adb_connected = true;
        status.device_info = clone_device(&device);
        status.monitoring_active = monitoring_enabled;
        match device {
            None => {
                if self.last_device_status.is_some() {
                    self.call_machine = CallStateMachine::new();
                    self.last_device_status = None;
                    status.current_call_state = CallState::Idle;
                    status.last_event = String::from_str("Device disconnected");
                    status.last_event_time = local_clock_text();
                }
                PollAction::Wait
            },
            Some(d) => {
                match d.status {
                    DeviceStatus::Unauthorized => {
                        let already = match &self.last_device_status {
                            Some(DeviceStatus::Unauthorized) => true,
                            _ => false,
                        };
                        status.error_message = Some(
                            String::from_str("Device unauthorized. Check phone screen."),
                        );
                        if !already {
                            self.last_device_status = Some(DeviceStatus::Unauthorized);
                            let notifier = NotificationManager::new();
                            PollAction::ShowToast(
                                notifier.send_toast(
                                    "⚠️ Device Unauthorized",
                                    "Please unlock your phone and accept the USB debugging authorization prompt.",
                                    true,
                                ),
                            )
                        } else {
                            PollAction::Wait
                        }
                    },
                    _ => {
                        self.last_device_status = Some(d.status.clone());
                        if monitoring_enabled {
                            PollAction::QueryCallState(d.serial)
                        } else {
                            PollAction::Wait
                        }
                    },
                }
            },
        }
    }

    /// Takes in the result of a call-state query (`Err` carrying the
    /// error's message). A reading updates the shown state (unless unknown)
    /// and drives the call state machine; the event it yields, if any,
    /// becomes the last event and is returned for a toast.
    pub fn on_call_state(
        &mut self,
        status: &mut AppStatus,
        result: Result<(CallState, CallMetadata), String>,
    ) -> (r: Option<CallEvent>)
        ensures
            tracking_wf(old(self)@.tracking),
            tracking_wf(final(self)@.tracking),
            match result {
                Ok(reading) => start_time_after(
                    old(self)@.tracking,
                    reading.0,
                    old(self).start_time(),
                    final(self).start_time(),
                ),
                Err(_) => final(self).start_time() == old(self).start_time(),
            },
            final(self)@.last_device_status == old(self)@.last_device_status,
            match result {
                Ok(reading) => {
                    &&& final(self)@.tracking == tracking_after(
                        old(self)@.tracking,
                        reading.0,
                        Some(reading.1),
                    )
                    &&& event_for(old(self)@.tracking, reading.0, Some(reading.1), r)
                    &&& final(status)@.error_message is None
                    &&& final(status)@.current_call_state == if reading.0 == CallState::Unknown {
                        old(status)@.current_call_state
                    } else {
                        reading.0
                    }
                    &&& match r {
                        Some(ev) => final(status)@.last_event == call_event_text(ev)
                            && is_clock_text(final(status)@.last_event_time),
                        None => final(status)@.last_event == old(status)@.last_event
                            && final(status)@.last_event_time == old(status)@.last_event_time,
                    }
                    &&& final(status)@.adb_connected == old(status)@.adb_connected
                    &&& final(status)@.device_info == old(status)@.device_info
                    &&& final(status)@.monitoring_active == old(status)@.monitoring_active
                },
                Err(text) => {
                    &&& final(self)@ == old(self)@
                    &&& final(status)@ == AppStatusView {
                        error_message: Some("Telephony error: "@ + text@),
                        ..old(status)@
                    }
                    &&& r is None
                },
            },
    {
        proof {
            use_type_invariant(&*self);
        }
        match result {
            Ok((new_state, metadata)) => {
                status.error_message = None;
                if new_state != CallState::Unknown {
                    status.current_call_state = new_state;
                }
                let mut machine = CallStateMachine::new();
                std::mem::swap(&mut machine, &mut self.call_machine);
                let event = machine.transition(new_state, Some(metadata));
                self.call_machine = machine;
                match &event {
                    Some(ev) => {
                        status.last_event = ev.display_text();
                        status.last_event_time = local_clock_text();
                    },
                    None => {},
                }
                event
            },
            Err(text) => {
                status.error_message = Some(prefixed("Telephony error: ", text.as_str()));
                None
            },
        }
    }
}

} // verus!
