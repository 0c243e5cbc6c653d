//! The failures that normalisation and polling report.

use vstd::prelude::*;
use vstd::string::StringExecFns;

verus! {

/// A failure of one record or of one poll cycle. None of them ends the
/// polling.
#[derive(Debug, Clone)]
pub enum SentinelError {
    /// The record's structure is not that of a security event.
    XmlParseError(String),
    /// The record's creation time is not an RFC 3339 date and time.
    TimestampParseError(String),
    /// The query of the event log failed.
    EventQueryError(String),
    /// No receiver is left on the listener's channel.
    ChannelSendError,
}

/// A `SentinelError` with its detail as a sequence of characters.
pub enum SentinelErrorView {
    XmlParseError(Seq<char>),
    TimestampParseError(Seq<char>),
    EventQueryError(Seq<char>),
    ChannelSendError,
}

impl View for SentinelError {
    type V = SentinelErrorView;

    open spec fn view(&self) -> SentinelErrorView {
        match *self {
            SentinelError::XmlParseError(detail) => SentinelErrorView::XmlParseError(detail@),
            SentinelError::TimestampParseError(detail) => SentinelErrorView::TimestampParseError(
                detail@,
            ),
            SentinelError::EventQueryError(detail) => SentinelErrorView::EventQueryError(detail@),
            SentinelError::ChannelSendError => SentinelErrorView::ChannelSendError,
        }
    }
}

/// The line that describes a failure.
pub open spec fn message_of(e: SentinelErrorView) -> Seq<char> {
    match e {
        SentinelErrorView::XmlParseError(detail) => "Failed to parse XML: "@ + detail,
        SentinelErrorView::TimestampParseError(detail) => "Failed to parse timestamp: "@ + detail,
        SentinelErrorView::EventQueryError(detail) => "Failed to query events: "@ + detail,
        SentinelErrorView::ChannelSendError => "Failed to send event to channel"@,
    }
}

impl SentinelError {
    /// The line that describes this failure.
    pub fn to_string(&self) -> (r: String)
        ensures
            r@ == message_of(self@),
    {
        match self {
            SentinelError::XmlParseError(detail) => String::from_str("Failed to parse XML: ").concat(
                detail.as_str(),
            ),
            SentinelError::TimestampParseError(detail) => String::from_str(
                "Failed to parse timestamp: ",
            ).concat(detail.as_str()),
            SentinelError::EventQueryError(detail) => String::from_str(
                "Failed to query events: ",
            ).concat(detail.as_str()),
            SentinelError::ChannelSendError => String::from_str("Failed to send event to channel"),
        }
    }
}

} // verus!
