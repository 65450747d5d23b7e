//! The call state machine: turns successive call-state readings into at most
//! one logical call event per change of state.
use vstd::prelude::*;
use crate::call::state::{CallEvent, CallMetadata, CallState};

verus! {

/// `std::time::Instant`, a reading of the monotonic clock, carried opaquely.
#[verifier::external_type_specification]
#[verifier::external_body]
pub struct ExInstant(std::time::Instant);

/// Reads the monotonic clock with `std::time::Instant::now`.
#[verifier::external_body]
fn clock_now() -> std::time::Instant {
    std::time::Instant::now()
}

/// Time passed since `t` (`Instant::elapsed`); it depends on the clock, so
/// nothing is claimed of it.
#[verifier::external_body]
fn time_since(t: &std::time::Instant) -> std::time::Duration {
    t.elapsed()
}

/// Whole seconds of a duration (`Duration::as_secs`); the duration is opaque
/// here, so nothing is claimed of the number.
#[verifier::external_body]
fn whole_seconds(d: &std::time::Duration) -> u64 {
    d.as_secs()
}

/// What the state machine tracks, without the clock reading itself.
pub struct CallTracking {
    /// Last accepted state.
    pub current: CallState,
    /// State before the last change.
    pub previous: CallState,
    /// Whether a call start time is recorded.
    pub timing: bool,
    /// Metadata of the call in progress.
    pub metadata: CallMetadata,
    /// Whether the call in progress began by ringing.
    pub incoming: bool,
}

/// Kinds of event a change of state produces.
pub enum EventKind {
    Incoming,
    Outgoing,
    Connected,
    Ended,
}

/// The event kind for a change from `old` to `new`, if that change is meaningful.
pub open spec fn event_kind(old: CallState, new: CallState) -> Option<EventKind> {
    match (old, new) {
        (CallState::Idle, CallState::Ringing) => Some(EventKind::Incoming),
        (CallState::Idle, CallState::Offhook) => Some(EventKind::Outgoing),
        (CallState::Ringing, CallState::Offhook) => Some(EventKind::Connected),
        (CallState::Offhook, CallState::Idle) => Some(EventKind::Ended),
        (CallState::Ringing, CallState::Idle) => Some(EventKind::Ended),
        (CallState::Offhook, CallState::Ringing) => Some(EventKind::Incoming),
        _ => None,
    }
}

/// Metadata kept after a reading: the new metadata when it carries a number.
pub open spec fn metadata_after(t: CallTracking, metadata: Option<CallMetadata>) -> CallMetadata {
    match metadata {
        Some(m) => if m.caller_number is Some {
            m
        } else {
            t.metadata
        },
        None => t.metadata,
    }
}

/// Tracking after a reading of `new` with `metadata`.
pub open spec fn tracking_after(
    t: CallTracking,
    new: CallState,
    metadata: Option<CallMetadata>,
) -> CallTracking {
    if new == CallState::Unknown {
        t
    } else {
        let m = metadata_after(t, metadata);
        if t.current == new {
            CallTracking { metadata: m, ..t }
        } else {
            let moved = CallTracking { current: new, previous: t.current, metadata: m, ..t };
            match event_kind(t.current, new) {
                Some(EventKind::Incoming) => if t.current == CallState::Idle {
                    CallTracking { incoming: true, timing: true, ..moved }
                } else {
                    moved
                },
                Some(EventKind::Outgoing) => CallTracking { incoming: false, timing: true, ..moved },
                Some(EventKind::Ended) => CallTracking {
                    incoming: false,
                    timing: false,
                    metadata: CallMetadata { caller_number: None },
                    ..moved
                },
                _ => moved,
            }
        }
    }
}

/// Whether `ev` is the event for a reading of `new` taken in state `t`.
/// The duration of an ended call comes from the clock: only its presence is
/// fixed, and it is present exactly when a start time was recorded.
pub open spec fn event_for(
    t: CallTracking,
    new: CallState,
    metadata: Option<CallMetadata>,
    ev: Option<CallEvent>,
) -> bool {
    let m = metadata_after(t, metadata);
    if new == CallState::Unknown || t.current == new {
        ev is None
    } else {
        match event_kind(t.current, new) {
            Some(EventKind::Incoming) => ev == Some(CallEvent::IncomingCall { metadata: m }),
            Some(EventKind::Outgoing) => ev == Some(CallEvent::OutgoingCall { metadata: m }),
            Some(EventKind::Connected) => ev == Some(CallEvent::CallConnected { metadata: m }),
            Some(EventKind::Ended) => match ev {
                Some(CallEvent::CallEnded { duration_secs }) => duration_secs is Some <==> t.timing,
                _ => false,
            },
            None => ev is None,
        }
    }
}

/// How the recorded start of a call moves with a reading of `new` taken in
/// state `t`: a clock reading is taken when a call leaves `Idle`, dropped when
/// it returns to `Idle`, and otherwise kept as it was (so an answered call is
/// timed from its first ring).
pub open spec fn start_time_after(
    t: CallTracking,
    new: CallState,
    before: Option<std::time::Instant>,
    after: Option<std::time::Instant>,
) -> bool {
    if new == CallState::Unknown || t.current == new {
        after == before
    } else if t.current == CallState::Idle {
        after is Some
    } else if new == CallState::Idle {
        after is None
    } else {
        after == before
    }
}

/// Tracking of a machine that is idle with nothing recorded.
pub open spec fn idle_tracking() -> CallTracking {
    CallTracking {
        current: CallState::Idle,
        previous: CallState::Idle,
        timing: false,
        metadata: CallMetadata { caller_number: None },
        incoming: false,
    }
}

/// Dedicated Call State Machine to prevent duplicate notifications
/// and accurately detect Call transitions (Incoming, Outgoing, Connected, Ended).
#[derive(Debug)]
pub struct CallStateMachine {
    current_state: CallState,
    previous_state: CallState,
    call_start_time: Option<std::time::Instant>,
    active_metadata: CallMetadata,
    is_incoming: bool,
}

impl View for CallStateMachine {
    type V = CallTracking;

    closed spec fn view(&self) -> CallTracking {
        CallTracking {
            current: self.current_state,
            previous: self.previous_state,
            timing: self.call_start_time is Some,
            metadata: self.active_metadata,
            incoming: self.is_incoming,
        }
    }
}

/// Invariant of every tracking the machine can be in: the state is never
/// `Unknown`, and a start time is recorded exactly while a call is not idle.
pub open spec fn tracking_wf(t: CallTracking) -> bool {
    &&& t.current != CallState::Unknown
    &&& t.previous != CallState::Unknown
    &&& t.timing <==> t.current != CallState::Idle
}

impl CallStateMachine {
    #[verifier::type_invariant]
    spec fn inv(self) -> bool {
        tracking_wf(self@)
    }

    /// The clock reading taken when the call in progress left `Idle`.
    pub closed spec fn start_time(&self) -> Option<std::time::Instant> {
        self.call_start_time
    }

    pub fn new() -> (r: Self)
        ensures
            r@ == idle_tracking(),
            tracking_wf(r@),
            r.start_time() is None,
    {
        CallStateMachine {
            current_state: CallState::Idle,
            previous_state: CallState::Idle,
            call_start_time: None,
            active_metadata: CallMetadata::default(),
            is_incoming: false,
        }
    }

    pub fn current_state(&self) -> (r: CallState)
        ensures
            r == self@.current,
    {
        self.current_state
    }

    /// Feeds a newly polled CallState and optional metadata.
    /// Returns Some(CallEvent) if and only if a meaningful state transition occurs.
    /// Returns None for identical consecutive states (debouncing/deduplication).
    pub fn transition(&mut self, new_state: CallState, metadata: Option<CallMetadata>) -> (r:
        Option<CallEvent>)
        ensures
            tracking_wf(old(self)@),
            tracking_wf(final(self)@),
            final(self)@ == tracking_after(old(self)@, new_state, metadata),
            event_for(old(self)@, new_state, metadata, r),
            start_time_after(old(self)@, new_state, old(self).start_time(), final(self).start_time()),
    {
        proof {
            use_type_invariant(&*self);
        }
        // Unknown states do not change existing logical call tracking
        if new_state == CallState::Unknown {
            return None;
        }
        let meta = match metadata {
            Some(m) => m,
            None => CallMetadata::default(),
        };
        if meta.caller_number.is_some() {
            self.active_metadata = meta.clone();
        }
        let old_state = self.current_state;
        // Debounce identical states
        if old_state == new_state {
            return None;
        }
        let metadata_now = self.active_metadata.clone();
        match (old_state, new_state) {
            // IDLE -> RINGING: New incoming call detected
            (CallState::Idle, CallState::Ringing) => {
                let now = clock_now();
                *self = CallStateMachine {
                    current_state: new_state,
                    previous_state: old_state,
                    call_start_time: Some(now),
                    active_metadata: metadata_now.clone(),
                    is_incoming: true,
                };
                Some(CallEvent::IncomingCall { metadata: metadata_now })
            },
            // IDLE -> OFFHOOK: Outgoing call initiated
            (CallState::Idle, CallState::Offhook) => {
                let now = clock_now();
                *self = CallStateMachine {
                    current_state: new_state,
                    previous_state: old_state,
                    call_start_time: Some(now),
                    active_metadata: metadata_now.clone(),
                    is_incoming: false,
                };
                Some(CallEvent::OutgoingCall { metadata: metadata_now })
            },
            // RINGING -> OFFHOOK: Incoming call was answered (Call connected)
            (CallState::Ringing, CallState::Offhook) => {
                self.previous_state = old_state;
                self.current_state = new_state;
                Some(CallEvent::CallConnected { metadata: metadata_now })
            },
            // OFFHOOK -> IDLE: Call ended normally; RINGING -> IDLE: missed or rejected
            (CallState::Offhook, CallState::Idle) | (CallState::Ringing, CallState::Idle) => {
                let duration = match &self.call_start_time {
                    Some(t) => {
                        let elapsed = time_since(t);
                        Some(whole_seconds(&elapsed))
                    },
                    None => None,
                };
                *self = CallStateMachine {
                    current_state: new_state,
                    previous_state: old_state,
                    call_start_time: None,
                    active_metadata: CallMetadata::default(),
                    is_incoming: false,
                };
                Some(CallEvent::CallEnded { duration_secs: duration })
            },
            // OFFHOOK -> RINGING: Call waiting or conference transition
            (CallState::Offhook, CallState::Ringing) => {
                self.previous_state = old_state;
                self.current_state = new_state;
                Some(CallEvent::IncomingCall { metadata: metadata_now })
            },
            _ => {
                self.previous_state = old_state;
                self.current_state = new_state;
                None
            },
        }
    }

    /// Resets the state machine, e.g. when a device disconnects
    pub fn reset(&mut self)
        ensures
            final(self)@ == idle_tracking(),
            tracking_wf(final(self)@),
            final(self).start_time() is None,
    {
        *self = CallStateMachine::new();
    }
}

impl Default for CallStateMachine {
    fn default() -> (r: Self)
        ensures
            r@ == idle_tracking(),
    {
        Self::new()
    }
}

// ---------------------------------------------------------------------------
// Laws
// ---------------------------------------------------------------------------

/// Every reading keeps the tracking invariant: the state never becomes
/// `Unknown`, and a start time is recorded exactly while a call is active.
pub proof fn law_tracking_invariant_kept(t: CallTracking, new: CallState, m: Option<CallMetadata>)
    requires
        tracking_wf(t),
    ensures
        tracking_wf(tracking_after(t, new, m)),
{
}

/// An `Unknown` reading changes nothing and produces no event.
pub proof fn law_unknown_reading_ignored(
    t: CallTracking,
    m: Option<CallMetadata>,
    ev: Option<CallEvent>,
)
    requires
        event_for(t, CallState::Unknown, m, ev),
    ensures
        tracking_after(t, CallState::Unknown, m) == t,
        ev is None,
{
}

/// A reading produces an event exactly when it is known and differs from
/// the current state: one event per change of state.
pub proof fn law_event_iff_state_changes(
    t: CallTracking,
    new: CallState,
    m: Option<CallMetadata>,
    ev: Option<CallEvent>,
)
    requires
        tracking_wf(t),
        event_for(t, new, m, ev),
    ensures
        ev is Some <==> (new != CallState::Unknown && new != t.current),
{
}

/// After a known reading the machine is in the state read.
pub proof fn law_state_follows_reading(t: CallTracking, new: CallState, m: Option<CallMetadata>)
    requires
        new != CallState::Unknown,
    ensures
        tracking_after(t, new, m).current == new,
{
}

/// Reading the same state again, with any metadata, is silent (debouncing).
pub proof fn law_repeated_reading_silent(
    t: CallTracking,
    new: CallState,
    m1: Option<CallMetadata>,
    m2: Option<CallMetadata>,
    ev: Option<CallEvent>,
)
    requires
        event_for(tracking_after(t, new, m1), new, m2, ev),
    ensures
        ev is None,
{
}

/// In a tracking that satisfies the invariant, an ended call always
/// reports its duration, and leaves the machine idle with no caller kept.
pub proof fn law_ended_call_has_duration(
    t: CallTracking,
    new: CallState,
    m: Option<CallMetadata>,
    ev: Option<CallEvent>,
)
    requires
        tracking_wf(t),
        event_for(t, new, m, ev),
        ev matches Some(CallEvent::CallEnded { .. }),
    ensures
        ev matches Some(CallEvent::CallEnded { duration_secs }) && duration_secs is Some,
        tracking_after(t, new, m).current == CallState::Idle,
        tracking_after(t, new, m).metadata.caller_number is None,
{
}

} // verus!
