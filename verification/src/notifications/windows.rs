//! Which toast a call event gets, and what it says. Showing the toast is
//! left to the caller.
use vstd::prelude::*;
use crate::call::state::{CallEvent, CallMetadata};
use crate::config::settings::AppConfig;
use crate::text::{decimal_seq, push_decimal, push_str, string_of};

verus! {

/// A toast notification to show.
#[derive(Debug)]
pub struct ToastContent {
    pub title: String,
    pub message: String,
    /// Shown with the incoming-call scenario (stays on screen) rather than briefly.
    pub is_incoming: bool,
    pub sound: bool,
}

/// A toast with texts as characters.
pub struct ToastView {
    pub title: Seq<char>,
    pub message: Seq<char>,
    pub is_incoming: bool,
    pub sound: bool,
}

impl View for ToastContent {
    type V = ToastView;

    open spec fn view(&self) -> ToastView {
        ToastView {
            title: self.title@,
            message: self.message@,
            is_incoming: self.is_incoming,
            sound: self.sound,
        }
    }
}

/// `number` when known, else `fallback`.
pub open spec fn number_or(number: Option<String>, fallback: Seq<char>) -> Seq<char> {
    match number {
        Some(n) => n@,
        None => fallback,
    }
}

/// The toast for a call event (title, message, incoming scenario), before
/// the settings are consulted.
pub open spec fn event_toast(event: CallEvent, sound: bool) -> ToastView {
    match event {
        CallEvent::IncomingCall { metadata } => ToastView {
            title: "📞 Incoming Call"@,
            message: match metadata.caller_number {
                Some(n) => "Incoming call from "@ + n@,
                None => "Your phone is ringing"@,
            },
            is_incoming: true,
            sound,
        },
        CallEvent::OutgoingCall { metadata } => ToastView {
            title: "📞 Outgoing Call"@,
            message: "Call started to "@ + number_or(metadata.caller_number, "Dialing..."@),
            is_incoming: false,
            sound,
        },
        CallEvent::CallConnected { metadata } => ToastView {
            title: "📞 Call Connected"@,
            message: match metadata.caller_number {
                Some(n) => "Call connected with "@ + n@,
                None => "The call is now active"@,
            },
            is_incoming: false,
            sound,
        },
        CallEvent::CallEnded { duration_secs } => ToastView {
            title: "📞 Call Ended"@,
            message: match duration_secs {
                Some(d) => "The call has ended (duration: "@ + decimal_seq(d as nat) + "s)"@,
                None => "The call has ended"@,
            },
            is_incoming: false,
            sound,
        },
    }
}

/// Whether the settings want a toast for this kind of event.
pub open spec fn event_enabled(event: CallEvent, config: AppConfig) -> bool {
    match event {
        CallEvent::IncomingCall { .. } => config.notify_incoming,
        CallEvent::OutgoingCall { .. } => config.notify_outgoing,
        CallEvent::CallConnected { .. } => config.notify_connected,
        CallEvent::CallEnded { .. } => config.notify_ended,
    }
}

fn push_number_or(out: &mut Vec<char>, number: &Option<String>, fallback: &str)
    ensures
        final(out)@ == old(out)@ + number_or(*number, fallback@),
{
    match number {
        Some(n) => push_str(out, n.as_str()),
        None => push_str(out, fallback),
    }
}

/// Each kind of event is shown or not by its own setting: incoming calls by
/// `notify_incoming`, outgoing calls by `notify_outgoing`, connected calls by
/// `notify_connected` and ended calls by `notify_ended`.
pub proof fn law_each_event_has_its_own_setting(
    metadata: CallMetadata,
    duration_secs: Option<u64>,
    config: AppConfig,
)
    ensures
        event_enabled(CallEvent::IncomingCall { metadata }, config) == config.notify_incoming,
        event_enabled(CallEvent::OutgoingCall { metadata }, config) == config.notify_outgoing,
        event_enabled(CallEvent::CallConnected { metadata }, config) == config.notify_connected,
        event_enabled(CallEvent::CallEnded { duration_secs }, config) == config.notify_ended,
{
}

#[derive(Debug)]
pub struct NotificationManager {}

impl NotificationManager {
    pub fn new() -> (r: Self) {
        NotificationManager {  }
    }

    /// The toast for a call event, showing the phone number when known, or
    /// `None` when the settings turn off toasts of that kind.
    pub fn show_call_event(&self, event: &CallEvent, config: &AppConfig) -> (r: Option<
        ToastContent,
    >)
        ensures
            match r {
                Some(t) => event_enabled(*event, *config) && t@ == event_toast(
                    *event,
                    config.notification_sound,
                ),
                None => !event_enabled(*event, *config),
            },
            (event is IncomingCall) ==> (r is None <==> !config.notify_incoming),
            (event is OutgoingCall) ==> (r is None <==> !config.notify_outgoing),
            (event is CallConnected) ==> (r is None <==> !config.notify_connected),
            (event is CallEnded) ==> (r is None <==> !config.notify_ended),
    {
        let mut message: Vec<char> = Vec::new();
        let (title, is_incoming, enabled) = match event {
            CallEvent::IncomingCall { metadata } => {
                // Without a caller number (redacted by Android) the toast
                // falls back to a plain ringing notice.
                match &metadata.caller_number {
                    Some(n) => {
                        push_str(&mut message, "Incoming call from ");
                        push_str(&mut message, n.as_str());
                    },
                    None => push_str(&mut message, "Your phone is ringing"),
                }
                ("📞 Incoming Call", true, config.notify_incoming)
            },
            CallEvent::OutgoingCall { metadata } => {
                push_str(&mut message, "Call started to ");
                push_number_or(&mut message, &metadata.caller_number, "Dialing...");
                ("📞 Outgoing Call", false, config.notify_outgoing)
            },
            CallEvent::CallConnected { metadata } => {
                match &metadata.caller_number {
                    Some(n) => {
                        push_str(&mut message, "Call connected with ");
                        push_str(&mut message, n.as_str());
                    },
                    None => push_str(&mut message, "The call is now active"),
                }
                ("📞 Call Connected", false, config.notify_connected)
            },
            CallEvent::CallEnded { duration_secs } => {
                match duration_secs {
                    Some(d) => {
                        push_str(&mut message, "The call has ended (duration: ");
                        push_decimal(&mut message, *d);
                        push_str(&mut message, "s)");
                    },
                    None => push_str(&mut message, "The call has ended"),
                }
                ("📞 Call Ended", false, config.notify_ended)
            },
        };
        if !enabled {
            return None;
        }
        assert(message@ =~= event_toast(*event, config.notification_sound).message);
        Some(
            ToastContent {
                title: String::from_str(title),
                message: string_of(message.as_slice()),
                is_incoming,
                sound: config.notification_sound,
            },
        )
    }

    /// An informational toast, shown briefly.
    pub fn send_toast(&self, title: &str, message: &str, sound: bool) -> (r: ToastContent)
        ensures
            r@ == (ToastView { title: title@, message: message@, is_incoming: false, sound }),
    {
        ToastContent {
            title: String::from_str(title),
            message: String::from_str(message),
            is_incoming: false,
            sound,
        }
    }
}

impl Default for NotificationManager {
    fn default() -> (r: Self) {
        Self::new()
    }
}

} // verus!
