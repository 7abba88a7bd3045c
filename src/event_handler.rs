//! The sinks that the simulation hands its events to.
use crate::geometry::{ContactEvent, ContactPair, IntersectionEvent};
use crossbeam::channel::Sender;
use vstd::prelude::*;

verus! {

/// crossbeam's sending half of a channel, carried through unopened.
#[verifier::external_type_specification]
#[verifier::external_body]
#[verifier::reject_recursive_types(T)]
pub struct ExSender<T>(Sender<T>);

/// Relies on `crossbeam_channel::Sender::try_send`: it never waits; the
/// message is queued, or, when the channel is full or every receiver is gone,
/// it is handed back unchanged in the error.
#[verifier::external_body]
fn send_or_return<T>(sender: &Sender<T>, msg: T) -> (r: Result<(), T>)
    ensures
        r matches Err(m) ==> m == msg,
{
    sender.try_send(msg).map_err(|e| e.into_inner())
}

/// A sink for the events that the simulation generates.
///
/// The simulation's worker threads may call it at the same time and without
/// locking, so every implementation keeps itself consistent on its own.
/// Implementations typically collect the events for later processing.
pub trait EventHandler: Send + Sync {
    /// Handles an event saying that the intersection state between two
    /// colliders changed.
    fn handle_intersection_event(&self, event: IntersectionEvent);

    /// Handles an event saying that two colliders started or stopped touching,
    /// whatever the number of contact points. `contact_pair` is valid for the
    /// length of this call only.
    fn handle_contact_event(&self, event: ContactEvent, contact_pair: &ContactPair);
}

/// The sink that discards every event.
impl EventHandler for () {
    fn handle_intersection_event(&self, _event: IntersectionEvent) {
    }

    fn handle_contact_event(&self, _event: ContactEvent, _contact_pair: &ContactPair) {
    }
}

/// A sink that forwards each category of events into a channel of its own.
///
/// A send that finds the channel closed is dropped without a word: a consumer
/// that went away never disturbs the simulation.
pub struct ChannelEventCollector {
    intersection_event_sender: Sender<IntersectionEvent>,
    contact_event_sender: Sender<ContactEvent>,
}

impl ChannelEventCollector {
    /// The channel that intersection events go to.
    pub closed spec fn intersection_sender(&self) -> Sender<IntersectionEvent> {
        self.intersection_event_sender
    }

    /// The channel that contact events go to.
    pub closed spec fn contact_sender(&self) -> Sender<ContactEvent> {
        self.contact_event_sender
    }

    /// A collector that sends intersection events to `intersection_event_sender`
    /// and contact events to `contact_event_sender`. A send never waits: on a
    /// full bounded channel the event is dropped, so give it unbounded channels
    /// to keep every event.
    pub fn new(
        intersection_event_sender: Sender<IntersectionEvent>,
        contact_event_sender: Sender<ContactEvent>,
    ) -> (r: Self)
        ensures
            r.intersection_sender() == intersection_event_sender,
            r.contact_sender() == contact_event_sender,
    {
        ChannelEventCollector { intersection_event_sender, contact_event_sender }
    }
}

impl EventHandler for ChannelEventCollector {
    fn handle_intersection_event(&self, event: IntersectionEvent) {
        let _ = send_or_return(&self.intersection_event_sender, event);
    }

    fn handle_contact_event(&self, event: ContactEvent, _contact_pair: &ContactPair) {
        let _ = send_or_return(&self.contact_event_sender, event);
    }
}

} // verus!
