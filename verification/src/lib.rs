//! Normalisation of failed-logon records from a host's security event log,
//! and the decisions of the loop that polls the log and hands the normalised
//! events on.

pub mod clock;
pub mod decimal;
pub mod dispatcher;
pub mod error;
pub mod listener;
pub mod poll;
pub mod text;

pub use error::SentinelError;
pub use listener::{
    ActivityEvent, ActivityType, DataField, Event, EventDetails, EventListener, LogonEvent,
    LogonExtractor, LogonVariant, RawRecord, WakeEvent,
};
