//! Normalized call states, the phone number captured with them, and the
//! logical call events derived from state changes.
use vstd::prelude::*;
use crate::text::{decimal_seq, push_decimal, push_str, string_of};

verus! {

/// Normalized telephony call states.
#[derive(Debug, Clone, Copy, PartialEq, Eq, Hash, Structural)]
pub enum CallState {
    Idle,
    Ringing,
    Offhook,
    Unknown,
}

impl Default for CallState {
    fn default() -> (r: CallState)
        ensures
            r == CallState::Unknown,
    {
        CallState::Unknown
    }
}

/// Text that `Display` shows for a call state.
pub open spec fn call_state_text(s: CallState) -> Seq<char> {
    match s {
        CallState::Idle => "IDLE"@,
        CallState::Ringing => "RINGING"@,
        CallState::Offhook => "OFFHOOK"@,
        CallState::Unknown => "UNKNOWN"@,
    }
}

impl CallState {
    /// The text `Display` shows: `IDLE`, `RINGING`, `OFFHOOK` or `UNKNOWN`.
    pub fn display_text(&self) -> (r: String)
        ensures
            r@ == call_state_text(*self),
    {
        match self {
            CallState::Idle => String::from_str("IDLE"),
            CallState::Ringing => String::from_str("RINGING"),
            CallState::Offhook => String::from_str("OFFHOOK"),
            CallState::Unknown => String::from_str("UNKNOWN"),
        }
    }
}

/// Metadata captured during call detection containing exclusively the phone number
#[derive(Debug, PartialEq, Eq)]
pub struct CallMetadata {
    pub caller_number: Option<String>,
}

impl Clone for CallMetadata {
    fn clone(&self) -> (r: CallMetadata)
        ensures
            r == *self,
    {
        match &self.caller_number {
            Some(n) => CallMetadata { caller_number: Some(n.clone()) },
            None => CallMetadata { caller_number: None },
        }
    }
}

impl Default for CallMetadata {
    fn default() -> (r: CallMetadata)
        ensures
            r.caller_number is None,
    {
        CallMetadata { caller_number: None }
    }
}

/// High-level logical call event derived from transitions in CallState
#[derive(Debug, PartialEq, Eq)]
pub enum CallEvent {
    IncomingCall { metadata: CallMetadata },
    OutgoingCall { metadata: CallMetadata },
    CallConnected { metadata: CallMetadata },
    CallEnded { duration_secs: Option<u64> },
}

impl Clone for CallEvent {
    fn clone(&self) -> (r: CallEvent)
        ensures
            r == *self,
    {
        match self {
            CallEvent::IncomingCall { metadata } => CallEvent::IncomingCall {
                metadata: metadata.clone(),
            },
            CallEvent::OutgoingCall { metadata } => CallEvent::OutgoingCall {
                metadata: metadata.clone(),
            },
            CallEvent::CallConnected { metadata } => CallEvent::CallConnected {
                metadata: metadata.clone(),
            },
            CallEvent::CallEnded { duration_secs } => CallEvent::CallEnded {
                duration_secs: *duration_secs,
            },
        }
    }
}

/// `lead`, followed by `" "`, `word` and the number when there is one.
pub open spec fn with_number(lead: Seq<char>, word: Seq<char>, number: Option<String>) -> Seq<char> {
    match number {
        Some(n) => lead + " "@ + word + " "@ + n@,
        None => lead,
    }
}

/// Text that `Display` shows for a call event.
pub open spec fn call_event_text(e: CallEvent) -> Seq<char> {
    match e {
        CallEvent::IncomingCall { metadata } => with_number(
            "Incoming Call"@,
            "from"@,
            metadata.caller_number,
        ),
        CallEvent::OutgoingCall { metadata } => with_number(
            "Outgoing Call"@,
            "to"@,
            metadata.caller_number,
        ),
        CallEvent::CallConnected { metadata } => with_number(
            "Call Connected"@,
            "with"@,
            metadata.caller_number,
        ),
        CallEvent::CallEnded { duration_secs } => match duration_secs {
            Some(d) => "Call Ended (duration: "@ + decimal_seq(d as nat) + "s)"@,
            None => "Call Ended"@,
        },
    }
}

fn push_with_number(out: &mut Vec<char>, lead: &str, word: &str, number: &Option<String>)
    ensures
        final(out)@ == old(out)@ + with_number(lead@, word@, *number),
{
    push_str(out, lead);
    match number {
        Some(n) => {
            push_str(out, " ");
            push_str(out, word);
            push_str(out, " ");
            push_str(out, n.as_str());
        },
        None => {},
    }
}

impl CallEvent {
    /// The text `Display` shows, e.g. `Incoming Call from +1555…` or
    /// `Call Ended (duration: 42s)`.
    pub fn display_text(&self) -> (r: String)
        ensures
            r@ == call_event_text(*self),
    {
        let mut out: Vec<char> = Vec::new();
        match self {
            CallEvent::IncomingCall { metadata } => {
                push_with_number(&mut out, "Incoming Call", "from", &metadata.caller_number);
            },
            CallEvent::OutgoingCall { metadata } => {
                push_with_number(&mut out, "Outgoing Call", "to", &metadata.caller_number);
            },
            CallEvent::CallConnected { metadata } => {
                push_with_number(&mut out, "Call Connected", "with", &metadata.caller_number);
            },
            CallEvent::CallEnded { duration_secs } => match duration_secs {
                Some(d) => {
                    push_str(&mut out, "Call Ended (duration: ");
                    push_decimal(&mut out, *d);
                    push_str(&mut out, "s)");
                },
                None => {
                    push_str(&mut out, "Call Ended");
                },
            },
        }
        assert(out@ =~= Seq::<char>::empty() + call_event_text(*self));
        string_of(out.as_slice())
    }
}

} // verus!
