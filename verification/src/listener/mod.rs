//! Events, and the listeners that produce them.

pub mod logon;
pub mod record;
pub mod variant;

pub use logon::{LogonEvent, LogonExtractor, LogonVariant};
pub use record::{DataField, RawRecord};

use crate::clock::Timestamp;
use crate::error::{SentinelError, SentinelErrorView};
use crate::listener::logon::LogonEventView;
use vstd::prelude::*;

verus! {

/// What woke the machine. No listener produces these yet.
#[derive(Debug, Clone)]
pub struct WakeEvent {}

/// The kind of device that showed activity.
#[derive(Debug, Clone)]
pub enum ActivityType {
    Mouse,
    Keyboard,
    Device,
}

/// Activity of a user at the machine. No listener produces these yet.
#[derive(Debug, Clone)]
pub struct ActivityEvent {
    pub activity_type: ActivityType,
}

/// What an event reports, by kind.
#[derive(Debug, Clone)]
pub enum EventDetails {
    Login(LogonEvent),
    Wake(WakeEvent),
    Activity(ActivityEvent),
}

/// One normalised record: what it reports, and when the record was made.
#[derive(Debug, Clone)]
pub struct Event {
    pub details: EventDetails,
    pub timestamp: Timestamp,
}

/// `EventDetails` with the texts of a logon as sequences of characters.
pub enum EventDetailsView {
    Login(LogonEventView),
    Wake(WakeEvent),
    Activity(ActivityEvent),
}

/// An `Event` with the texts of its details as sequences of characters.
pub struct EventView {
    pub details: EventDetailsView,
    pub timestamp: Timestamp,
}

impl View for EventDetails {
    type V = EventDetailsView;

    open spec fn view(&self) -> EventDetailsView {
        match *self {
            EventDetails::Login(logon) => EventDetailsView::Login(logon@),
            EventDetails::Wake(wake) => EventDetailsView::Wake(wake),
            EventDetails::Activity(activity) => EventDetailsView::Activity(activity),
        }
    }
}

impl View for Event {
    type V = EventView;

    open spec fn view(&self) -> EventView {
        EventView { details: self.details@, timestamp: self.timestamp }
    }
}

/// The views of a run of events.
pub open spec fn events_view(events: Seq<Event>) -> Seq<EventView> {
    Seq::new(events.len(), |i: int| events[i]@)
}

/// The views of a run of failures.
pub open spec fn errors_view(errors: Seq<SentinelError>) -> Seq<SentinelErrorView> {
    Seq::new(errors.len(), |i: int| errors[i]@)
}

/// A source of events that is asked again and again for what is new.
pub trait EventListener {
    fn get_events(&mut self) -> Result<Vec<Event>, SentinelError>;
}

} // verus!
