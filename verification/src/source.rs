//! The adapter boundary.
//!
//! Two implementations: `MockSource` for the dev harness, and the shell's
//! hook listener, which feeds translated hook payloads. Both push into one
//! channel (`EventSink` is `Clone`), so adding a source changes nothing here.

use vstd::prelude::*;

use std::sync::mpsc::{Receiver, Sender};

use crate::event::SessionEvent;

verus! {

#[verifier::external_type_specification]
#[verifier::external_body]
#[verifier::reject_recursive_types(T)]
pub struct ExSender<T>(std::sync::mpsc::Sender<T>);

#[verifier::external_type_specification]
#[verifier::external_body]
#[verifier::reject_recursive_types(T)]
pub struct ExReceiver<T>(std::sync::mpsc::Receiver<T>);

/// `std::sync::mpsc::channel`: a fresh unbounded channel. Nothing is claimed
/// of it.
#[verifier::external_body]
fn open_channel() -> (Sender<SessionEvent>, Receiver<SessionEvent>) {
    std::sync::mpsc::channel()
}

/// `Sender::send`, with its outcome dropped: a closed channel means the app
/// is shutting down. Nothing is claimed.
#[verifier::external_body]
fn send(tx: &Sender<SessionEvent>, event: SessionEvent) {
    let _ = tx.send(event);
}

/// `Sender::clone`: another handle to the same channel. Nothing is claimed
/// of it.
pub assume_specification<T>[ <std::sync::mpsc::Sender<T> as Clone>::clone ](
    s: &std::sync::mpsc::Sender<T>,
) -> std::sync::mpsc::Sender<T>;

/// Where a source pushes events.
#[derive(Clone)]
pub struct EventSink(Sender<SessionEvent>);

impl EventSink {
    /// The sending half this sink pushes into.
    pub closed spec fn sender(&self) -> Sender<SessionEvent> {
        self.0
    }

    pub fn new(tx: Sender<SessionEvent>) -> (r: EventSink)
        ensures
            r.sender() == tx,
    {
        EventSink(tx)
    }

    /// Emit an event. A closed channel means the app is shutting down, which
    /// is not a source's problem to report.
    pub fn emit(&self, event: SessionEvent) {
        send(&self.0, event);
    }
}

/// A producer of session events.
pub trait EventSource: Send {
    /// Begin producing. Returns immediately; delivery is via the sink.
    fn start(&mut self, sink: EventSink);

    /// Stop producing. Sources that hold no resources need not override.
    fn stop(&mut self) {
    }

    /// The action channel, once one exists. The pet is a pure observer: hooks
    /// are an observation channel, so nothing provides one yet.
    fn actions(&self) -> (r: Option<&dyn ActionChannel>)
        default_ensures
            r is None,
    {
        None
    }
}

/// Reserved for a later version. Nothing implements it.
pub trait ActionChannel: Send + Sync {}

/// The channel a source pushes into and the shell's pump pulls from.
/// Unbounded, so a source that starts before the pump does simply queues.
pub fn channel() -> (Sender<SessionEvent>, Receiver<SessionEvent>) {
    open_channel()
}

} // verus!
