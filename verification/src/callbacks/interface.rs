use crate::callbacks::types::event::{EventState, EventType};
use tokio::sync::mpsc::error::TrySendError;
use tokio::sync::mpsc::Sender;
use vstd::prelude::*;

verus! {

/// `tokio::sync::mpsc::Sender`, carried as an opaque value.
#[verifier::external_type_specification]
#[verifier::external_body]
#[verifier::reject_recursive_types(T)]
pub struct ExMpscSender<T>(Sender<T>);

/// Why an event did not reach the host.
#[derive(Debug, Clone, Copy, PartialEq, Eq, Structural)]
pub enum EventDropped {
    /// The queue to the host is full.
    Full,
    /// The host has closed its receiver.
    Closed,
}

/// What became of an event handed to `EventHandler::send_event`.
#[derive(Debug, Clone, Copy, PartialEq, Eq, Structural)]
pub enum EventOutcome {
    /// The event is in the queue to the host.
    Forwarded,
    /// No sender is registered; the event is the caller's to log.
    Unregistered,
    /// A sender is registered, but the event could not be queued.
    Dropped(EventDropped),
}

/// `tokio::sync::mpsc::Sender::try_send`: queues the event without waiting, or
/// says why it could not. Which of the three happens depends on the receiver,
/// so nothing is claimed of the result.
#[verifier::external_body]
fn try_send_event(tx: &Sender<(EventType, EventState)>, event: (EventType, EventState)) -> (r:
    Result<(), EventDropped>) {
    match tx.try_send(event) {
        Ok(()) => Ok(()),
        Err(TrySendError::Full(_)) => Err(EventDropped::Full),
        Err(TrySendError::Closed(_)) => Err(EventDropped::Closed),
    }
}

/// `Clone` of `tokio::sync::mpsc::Sender`: another handle to the same queue.
#[verifier::external_body]
fn clone_event_sender(tx: &Sender<(EventType, EventState)>) -> (r: Sender<(EventType, EventState)>) {
    tx.clone()
}

/// What the handler reports for what the queue did with the event.
pub open spec fn event_outcome_of(sent: Result<(), EventDropped>) -> EventOutcome {
    match sent {
        Ok(_) => EventOutcome::Forwarded,
        Err(why) => EventOutcome::Dropped(why),
    }
}

/// What the handler reports for what the queue did with the event.
pub fn event_outcome(sent: Result<(), EventDropped>) -> (r: EventOutcome)
    ensures
        r == event_outcome_of(sent),
{
    match sent {
        Ok(()) => EventOutcome::Forwarded,
        Err(why) => EventOutcome::Dropped(why),
    }
}

/// What receives the events of the embedded side.
pub trait EventCallbackInterface {
    fn handle_event(&mut self, event_type: EventType, event_data: EventState);
}

/// Forwards events to the host over a bounded queue, if one is registered.
#[derive(Debug)]
pub struct EventHandler {
    event_sender: Option<Sender<(EventType, EventState)>>,
}

impl EventHandler {
    /// The sender that events are forwarded to, if one is registered.
    pub closed spec fn sender(&self) -> Option<Sender<(EventType, EventState)>> {
        self.event_sender
    }

    /// Whether a sender is registered.
    pub open spec fn registered(&self) -> bool {
        self.sender() is Some
    }

    /// A handler that forwards to `event_sender`, or to nobody.
    pub fn new(event_sender: Option<Sender<(EventType, EventState)>>) -> (h: Self)
        ensures
            h.sender() == event_sender,
    {
        EventHandler { event_sender }
    }

    /// Whether a sender is registered.
    pub fn is_registered(&self) -> (r: bool)
        ensures
            r == self.registered(),
    {
        self.event_sender.is_some()
    }

    /// Hands the event to the host without waiting. Without a registered
    /// sender the outcome is `Unregistered`; with one it is `Forwarded` or
    /// `Dropped`, as the queue decides. The call never panics.
    pub fn send_event(&self, event_type: EventType, event_data: EventState) -> (r: EventOutcome)
        ensures
            r is Unregistered <==> !self.registered(),
    {
        match &self.event_sender {
            Some(tx) => event_outcome(try_send_event(tx, (event_type, event_data))),
            None => EventOutcome::Unregistered,
        }
    }
}

impl Clone for EventHandler {
    /// Another handle to the same queue.
    fn clone(&self) -> (r: Self)
        ensures
            r.registered() == self.registered(),
    {
        match &self.event_sender {
            Some(tx) => EventHandler { event_sender: Some(clone_event_sender(tx)) },
            None => EventHandler { event_sender: None },
        }
    }
}

impl EventCallbackInterface for EventHandler {
    /// Forwards the event and forgets what became of it; the handler stays
    /// as it was.
    fn handle_event(&mut self, event_type: EventType, event_data: EventState)
        ensures
            final(self).sender() == old(self).sender(),
    {
        let _ = self.send_event(event_type, event_data);
    }
}

/// The event callback as the embedded side sees it.
#[derive(Debug)]
pub struct PyEventCallbackInterface {
    event_handler: EventHandler,
}

impl PyEventCallbackInterface {
    /// The handler behind the callback.
    pub closed spec fn handler(&self) -> EventHandler {
        self.event_handler
    }

    /// Whether events reach a registered sender.
    pub open spec fn registered(&self) -> bool {
        self.handler().registered()
    }

    /// The callback over the handler given.
    pub fn new(event_handler: EventHandler) -> (r: Self)
        ensures
            r.handler() == event_handler,
    {
        PyEventCallbackInterface { event_handler }
    }

    /// Forwards the event to the handler; the outcome is the handler's.
    pub fn handle_event(&mut self, event_type: EventType, event_data: EventState) -> (r:
        EventOutcome)
        ensures
            r is Unregistered <==> !old(self).registered(),
            final(self).handler() == old(self).handler(),
    {
        self.event_handler.send_event(event_type, event_data)
    }
}

impl Clone for PyEventCallbackInterface {
    fn clone(&self) -> (r: Self)
        ensures
            r.registered() == self.registered(),
    {
        PyEventCallbackInterface { event_handler: self.event_handler.clone() }
    }
}

} // verus!
