//! One participant of a publish/subscribe event bus: it records the events it
//! hears, and stops when a termination request addresses it.
pub mod identity;
pub mod events;
pub mod dispatch;
pub mod event_loop;
