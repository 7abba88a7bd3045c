//! Event reporting for a collision simulation: a per-collider mask of the event
//! categories it takes part in, the events themselves, and the sinks that the
//! simulation hands them to.
pub mod active_events;
pub mod event_handler;
pub mod geometry;

pub use active_events::ActiveEvents;
pub use event_handler::{ChannelEventCollector, EventHandler};
pub use geometry::{ColliderHandle, ContactEvent, ContactPair, IntersectionEvent};
