//! The listener for the shortcut and the reaction to it.
//!
//! The service decides; its caller acts. The caller registers the shortcut with
//! the system, waits for events, runs the capture and the delivery, and reports
//! each event here. One reaction runs at a time: a press that comes while a
//! reaction runs is counted and reacted to later, on a wake.
use crate::hotkey::{Code, Modifiers};
use crate::router::DeliveryOutcome;
use crate::screenshot::{CaptureError, CaptureResult};
use crate::text::join;
use vstd::prelude::*;

verus! {

/// What is put behind the path of a capture to make the message.
pub const REQUEST: &'static str = " Analyze this image";

/// A shortcut: modifiers and a key.
#[derive(Debug, Clone, Copy, PartialEq, Eq, Structural)]
pub struct Chord {
    pub modifiers: Modifiers,
    pub key: Code,
}

/// Whether a shortcut is registered, and which.
#[derive(Debug, Clone, Copy, PartialEq, Eq, Structural)]
pub enum ListenerState {
    Unregistered,
    Registered(Chord),
}

/// How far the reaction to a press has come.
#[derive(Debug, Clone, Copy, PartialEq, Eq, Structural)]
pub enum Reaction {
    /// No reaction runs.
    Idle,
    /// The capture runs.
    Capturing,
    /// The delivery runs.
    Delivering,
}

/// Why a request to the listener was refused.
#[derive(Debug, Clone, Copy, PartialEq, Eq, Structural)]
pub enum ListenerError {
    /// A shortcut is registered: it has to be unregistered first.
    AlreadyRegistered,
    /// No shortcut is registered.
    NotRegistered,
}

/// Why a reaction ended without a delivery.
#[derive(Debug)]
pub enum ReactionError {
    /// The capture failed.
    Capture(CaptureError),
    /// No running target session was found.
    NoTargetFound,
}

/// What the caller reports.
#[derive(Debug)]
pub enum ServiceEvent {
    /// The shortcut is to be registered.
    Register(Chord),
    /// The shortcut is to be unregistered.
    Unregister,
    /// The system reports the shortcut, pressed or released.
    Key { pressed: bool },
    /// The wait ended without an event from the system.
    Wake,
    /// The capture ended.
    Captured(Result<CaptureResult, CaptureError>),
    /// The delivery ended with this outcome.
    Routed(DeliveryOutcome),
    /// The process is asked to end.
    Terminate,
}

/// What the caller is to do.
#[derive(Debug)]
pub enum ServiceAction {
    /// Register this shortcut with the system.
    RegisterChord(Chord),
    /// Unregister this shortcut.
    UnregisterChord(Chord),
    /// Tell the requester that the request was refused.
    Refuse(ListenerError),
    /// Run the capture.
    Capture,
    /// Deliver this message.
    Deliver { message: String },
    /// Tell the user that the message was sent.
    Announce,
    /// Tell the user that the reaction failed, and go on listening.
    Report(ReactionError),
    /// Wait for the next event.
    Wait,
    /// Leave the loop, after unregistering the shortcut if one is registered.
    Exit { unregister: Option<Chord> },
}

/// The service: the listener, the reaction that runs, and the presses that wait
/// for theirs.
#[derive(Debug, Clone, Copy, PartialEq, Eq, Structural)]
pub struct Orchestrator {
    pub listener: ListenerState,
    pub reaction: Reaction,
    pub queued: u64,
}

/// One more press in the queue, as far as it can count.
pub open spec fn one_more(queued: u64) -> u64 {
    if queued < u64::MAX {
        (queued + 1) as u64
    } else {
        queued
    }
}

impl Orchestrator {
    /// A service with no shortcut registered and no reaction running.
    pub open spec fn fresh() -> Orchestrator {
        Orchestrator { listener: ListenerState::Unregistered, reaction: Reaction::Idle, queued: 0 }
    }

    /// The service once `event` is reported. An event that the service does not
    /// wait for changes nothing.
    pub open spec fn after(self, event: ServiceEvent) -> Orchestrator {
        match event {
            ServiceEvent::Register(chord) => match self.listener {
                ListenerState::Unregistered => Orchestrator {
                    listener: ListenerState::Registered(chord),
                    ..self
                },
                ListenerState::Registered(_) => self,
            },
            ServiceEvent::Unregister => Orchestrator {
                listener: ListenerState::Unregistered,
                ..self
            },
            ServiceEvent::Key { pressed } => if !pressed || self.listener is Unregistered {
                self
            } else if self.reaction is Idle {
                Orchestrator { reaction: Reaction::Capturing, ..self }
            } else {
                Orchestrator { queued: one_more(self.queued), ..self }
            },
            ServiceEvent::Wake => if self.reaction is Idle && self.queued > 0 {
                Orchestrator {
                    reaction: Reaction::Capturing,
                    queued: (self.queued - 1) as u64,
                    ..self
                }
            } else {
                self
            },
            ServiceEvent::Captured(result) => if !(self.reaction is Capturing) {
                self
            } else if result matches Ok(CaptureResult::Path(_)) {
                Orchestrator { reaction: Reaction::Delivering, ..self }
            } else {
                Orchestrator { reaction: Reaction::Idle, ..self }
            },
            ServiceEvent::Routed(outcome) => if self.reaction is Delivering {
                Orchestrator { reaction: Reaction::Idle, ..self }
            } else {
                self
            },
            ServiceEvent::Terminate => Orchestrator {
                listener: ListenerState::Unregistered,
                queued: 0,
                ..self
            },
        }
    }

    /// The message that the caller is to deliver on `event`, where the event is
    /// one on which the service delivers: the end of a running capture that
    /// wrote a file. The message is the path of the file and the request.
    pub open spec fn delivers(self, event: ServiceEvent) -> Option<Seq<char>> {
        match event {
            ServiceEvent::Captured(Ok(CaptureResult::Path(path))) => if self.reaction
                is Capturing {
                Some(path@ + REQUEST@)
            } else {
                None
            },
            _ => None,
        }
    }

    /// What the caller is to do on `event`, unless it is to deliver.
    pub open spec fn action(self, event: ServiceEvent) -> ServiceAction {
        match event {
            ServiceEvent::Register(chord) => match self.listener {
                ListenerState::Unregistered => ServiceAction::RegisterChord(chord),
                ListenerState::Registered(_) => ServiceAction::Refuse(
                    ListenerError::AlreadyRegistered,
                ),
            },
            ServiceEvent::Unregister => match self.listener {
                ListenerState::Registered(chord) => ServiceAction::UnregisterChord(chord),
                ListenerState::Unregistered => ServiceAction::Refuse(ListenerError::NotRegistered),
            },
            ServiceEvent::Key { pressed } => if pressed && self.listener is Registered
                && self.reaction is Idle {
                ServiceAction::Capture
            } else {
                ServiceAction::Wait
            },
            ServiceEvent::Wake => if self.reaction is Idle && self.queued > 0 {
                ServiceAction::Capture
            } else {
                ServiceAction::Wait
            },
            ServiceEvent::Captured(result) => if !(self.reaction is Capturing) {
                ServiceAction::Wait
            } else {
                match result {
                    Err(why) => ServiceAction::Report(ReactionError::Capture(why)),
                    Ok(_) => ServiceAction::Wait,
                }
            },
            ServiceEvent::Routed(outcome) => if !(self.reaction is Delivering) {
                ServiceAction::Wait
            } else if outcome is Delivered {
                ServiceAction::Announce
            } else {
                ServiceAction::Report(ReactionError::NoTargetFound)
            },
            ServiceEvent::Terminate => ServiceAction::Exit {
                unregister: match self.listener {
                    ListenerState::Registered(chord) => Some(chord),
                    ListenerState::Unregistered => None,
                },
            },
        }
    }

    /// Whether `action` is what the caller is to do on `event`.
    pub open spec fn answers(self, event: ServiceEvent, action: ServiceAction) -> bool {
        match self.delivers(event) {
            Some(text) => action matches ServiceAction::Deliver { message } && message@ == text,
            None => action == self.action(event),
        }
    }

    /// A service with no shortcut registered and no reaction running.
    pub fn new() -> (service: Orchestrator)
        ensures
            service == Orchestrator::fresh(),
    {
        Orchestrator { listener: ListenerState::Unregistered, reaction: Reaction::Idle, queued: 0 }
    }

    /// Whether a reaction runs.
    pub fn is_busy(&self) -> (busy: bool)
        ensures
            busy == !(self.reaction is Idle),
    {
        match self.reaction {
            Reaction::Idle => false,
            _ => true,
        }
    }

    /// Takes in what the caller reports and says what to do.
    pub fn step(&mut self, event: ServiceEvent) -> (action: ServiceAction)
        ensures
            *final(self) == old(self).after(event),
            old(self).answers(event, action),
    {
        match event {
            ServiceEvent::Register(chord) => match self.listener {
                ListenerState::Unregistered => {
                    self.listener = ListenerState::Registered(chord);
                    ServiceAction::RegisterChord(chord)
                },
                ListenerState::Registered(_) => ServiceAction::Refuse(
                    ListenerError::AlreadyRegistered,
                ),
            },
            ServiceEvent::Unregister => match self.listener {
                ListenerState::Registered(chord) => {
                    self.listener = ListenerState::Unregistered;
                    ServiceAction::UnregisterChord(chord)
                },
                ListenerState::Unregistered => ServiceAction::Refuse(ListenerError::NotRegistered),
            },
            ServiceEvent::Key { pressed } => {
                let registered = match self.listener {
                    ListenerState::Registered(_) => true,
                    ListenerState::Unregistered => false,
                };
                if !pressed || !registered {
                    ServiceAction::Wait
                } else if !self.is_busy() {
                    self.reaction = Reaction::Capturing;
                    ServiceAction::Capture
                } else {
                    if self.queued < u64::MAX {
                        self.queued = self.queued + 1;
                    }
                    ServiceAction::Wait
                }
            },
            ServiceEvent::Wake => {
                if !self.is_busy() && self.queued > 0 {
                    self.reaction = Reaction::Capturing;
                    self.queued = self.queued - 1;
                    ServiceAction::Capture
                } else {
                    ServiceAction::Wait
                }
            },
            ServiceEvent::Captured(result) => {
                match self.reaction {
                    Reaction::Capturing => match result {
                        Ok(CaptureResult::Path(path)) => {
                            self.reaction = Reaction::Delivering;
                            ServiceAction::Deliver { message: capture_message(path.as_str()) }
                        },
                        Ok(CaptureResult::Cancelled) => {
                            self.reaction = Reaction::Idle;
                            ServiceAction::Wait
                        },
                        Err(why) => {
                            self.reaction = Reaction::Idle;
                            ServiceAction::Report(ReactionError::Capture(why))
                        },
                    },
                    _ => ServiceAction::Wait,
                }
            },
            ServiceEvent::Routed(outcome) => {
                match self.reaction {
                    Reaction::Delivering => {
                        self.reaction = Reaction::Idle;
                        match outcome {
                            DeliveryOutcome::Delivered => ServiceAction::Announce,
                            _ => ServiceAction::Report(ReactionError::NoTargetFound),
                        }
                    },
                    _ => ServiceAction::Wait,
                }
            },
            ServiceEvent::Terminate => {
                let unregister = match self.listener {
                    ListenerState::Registered(chord) => Some(chord),
                    ListenerState::Unregistered => None,
                };
                self.listener = ListenerState::Unregistered;
                self.queued = 0;
                ServiceAction::Exit { unregister }
            },
        }
    }
}

/// The message that asks the session to look at the capture at `path`: the path
/// and the request.
pub fn capture_message(path: &str) -> (message: String)
    ensures
        message@ == path@ + REQUEST@,
{
    join(path, REQUEST)
}

/// A capture that the user gave up never leads to a delivery: on its report the
/// service asks the caller to wait, and the reaction that was capturing is over.
pub proof fn lemma_cancelled_capture_delivers_nothing(service: Orchestrator)
    ensures
        service.delivers(ServiceEvent::Captured(Ok(CaptureResult::Cancelled))) is None,
        service.action(ServiceEvent::Captured(Ok(CaptureResult::Cancelled))) == ServiceAction::Wait,
        service.after(ServiceEvent::Captured(Ok(CaptureResult::Cancelled))).reaction == (
        if service.reaction is Capturing {
            Reaction::Idle
        } else {
            service.reaction
        }),
{
}

/// A delivery is asked for only at the end of a running capture that wrote a
/// file, and the delivery runs only from then on.
pub proof fn lemma_delivery_needs_capture(service: Orchestrator, event: ServiceEvent)
    ensures
        service.delivers(event) is Some ==> service.reaction is Capturing && event matches ServiceEvent::Captured(
            Ok(CaptureResult::Path(_)),
        ),
        !(service.reaction is Delivering) && service.after(event).reaction is Delivering
            ==> service.delivers(event) is Some,
{
}

/// One reaction at a time: a capture is asked for only while no reaction runs,
/// and a press that comes while one runs is counted, not reacted to.
pub proof fn lemma_single_flight(service: Orchestrator, event: ServiceEvent)
    ensures
        service.action(event) is Capture ==> service.reaction is Idle && service.after(
            event,
        ).reaction is Capturing,
        !(service.reaction is Idle) && service.listener is Registered && event
            == (ServiceEvent::Key { pressed: true }) ==> service.after(event).reaction
            == service.reaction && service.after(event).queued == one_more(service.queued),
{
}

/// One shortcut at a time: while a shortcut is registered, a request to
/// register is refused and changes nothing.
pub proof fn lemma_one_chord(service: Orchestrator, chord: Chord)
    requires
        service.listener is Registered,
    ensures
        service.after(ServiceEvent::Register(chord)) == service,
        service.action(ServiceEvent::Register(chord)) == ServiceAction::Refuse(
            ListenerError::AlreadyRegistered,
        ),
{
}

} // verus!
