//! Normalising a failed-logon record into a logon event.
//!
//! Two choices are fixed here. A record without a `TargetUserName` is kept,
//! under the user name `Unknown`. A record that could not be decoded, or whose
//! creation time cannot be read, is set aside with its failure, and the rest
//! of its batch is still normalised.

use crate::clock::{as_instant, read_rfc3339, reading_view, rfc3339_reading, Timestamp};
use crate::error::{SentinelError, SentinelErrorView};
use crate::listener::record::{field_value, text_of, RawRecord, RawRecordView};
use crate::listener::variant::{classify, LogonVariantView};
use crate::listener::{errors_view, events_view, Event, EventDetails, EventDetailsView, EventView};
use crate::text::text_eq;
use vstd::prelude::*;
use vstd::string::StringExecFns;

pub use crate::listener::variant::LogonVariant;

verus! {

/// A failed logon: who tried, from where, and how.
#[derive(Debug, Clone)]
pub struct LogonEvent {
    pub username: String,
    pub source_ip: String,
    pub variant: LogonVariant,
    pub event_record_id: u32,
}

/// A `LogonEvent` with its texts as sequences of characters.
pub struct LogonEventView {
    pub username: Seq<char>,
    pub source_ip: Seq<char>,
    pub variant: LogonVariantView,
    pub event_record_id: u32,
}

impl View for LogonEvent {
    type V = LogonEventView;

    open spec fn view(&self) -> LogonEventView {
        LogonEventView {
            username: self.username@,
            source_ip: self.source_ip@,
            variant: self.variant@,
            event_record_id: self.event_record_id,
        }
    }
}

/// The user name of an event: `user@domain` where the record names both and
/// the domain is neither empty nor `-`, the bare user where it names no such
/// domain, and `Unknown` where it names no user.
pub open spec fn username_of(user: Option<Seq<char>>, domain: Option<Seq<char>>) -> Seq<char> {
    match user {
        Some(u) => match domain {
            Some(d) => if d.len() == 0 || d == "-"@ {
                u
            } else {
                u + "@"@ + d
            },
            None => u,
        },
        None => "Unknown"@,
    }
}

/// The source address of an event: the record's own text, or `N/A`.
pub open spec fn source_ip_of(ip: Option<Seq<char>>) -> Seq<char> {
    match ip {
        Some(text) => text,
        None => "N/A"@,
    }
}

/// The variant of an event: what the record's logon type stands for, or
/// `Invalid` with `N/A` where the record has none.
pub open spec fn variant_of(logon_type: Option<Seq<char>>) -> LogonVariantView {
    match logon_type {
        Some(text) => classify(text),
        None => LogonVariantView::Invalid("N/A"@),
    }
}

/// The logon event that a record describes.
pub open spec fn logon_event_of(record: RawRecordView) -> LogonEventView {
    LogonEventView {
        username: username_of(
            field_value(record.data, "TargetUserName"@),
            field_value(record.data, "TargetDomainName"@),
        ),
        source_ip: source_ip_of(field_value(record.data, "IpAddress"@)),
        variant: variant_of(field_value(record.data, "LogonType"@)),
        event_record_id: record.event_record_id,
    }
}

/// What a record normalises to, given the reading of its creation time: the
/// instant and the logon event, or a timestamp failure with the reading's
/// message.
pub open spec fn normalized(
    record: RawRecordView,
    reading: Result<Timestamp, Seq<char>>,
) -> Result<(Timestamp, LogonEventView), SentinelErrorView> {
    match reading {
        Ok(at) => Ok((at, logon_event_of(record))),
        Err(why) => Err(SentinelErrorView::TimestampParseError(why)),
    }
}

/// The view of an outcome of normalisation.
pub open spec fn outcome_view(r: Result<(Timestamp, LogonEvent), SentinelError>) -> Result<
    (Timestamp, LogonEventView),
    SentinelErrorView,
> {
    match r {
        Ok(pair) => Ok((pair.0, pair.1@)),
        Err(e) => Err(e@),
    }
}

/// What a record normalises to.
pub open spec fn outcome_of(record: RawRecordView) -> Result<
    (Timestamp, LogonEventView),
    SentinelErrorView,
> {
    normalized(record, as_instant(rfc3339_reading(record.system_time)))
}

/// A record fails only on its creation time: whatever fields it lacks, it
/// normalises where its creation time can be read, with the instant that was
/// read.
pub proof fn lemma_only_the_creation_time_can_fail(record: RawRecordView)
    ensures
        outcome_of(record) is Ok <==> rfc3339_reading(record.system_time) is Ok,
        rfc3339_reading(record.system_time) matches Ok(at) ==> outcome_of(record) == Ok::<
            (Timestamp, LogonEventView),
            SentinelErrorView,
        >((Timestamp { secs: at.0, nanos: at.1 }, logon_event_of(record))),
        rfc3339_reading(record.system_time) matches Err(why) ==> outcome_of(record) == Err::<
            (Timestamp, LogonEventView),
            SentinelErrorView,
        >(SentinelErrorView::TimestampParseError(why)),
{
}

/// A field that a record lacks is stood in for: the user by `Unknown`, the
/// address by `N/A`, the logon type by `Invalid` with `N/A`; and a missing
/// domain leaves the user bare.
pub proof fn lemma_absent_fields_are_stood_in_for(record: RawRecordView)
    ensures
        field_value(record.data, "TargetUserName"@) is None ==> logon_event_of(record).username
            == "Unknown"@,
        field_value(record.data, "TargetUserName"@) is Some && field_value(
            record.data,
            "TargetDomainName"@,
        ) is None ==> logon_event_of(record).username == field_value(
            record.data,
            "TargetUserName"@,
        )->Some_0,
        field_value(record.data, "IpAddress"@) is None ==> logon_event_of(record).source_ip
            == "N/A"@,
        field_value(record.data, "LogonType"@) is None ==> logon_event_of(record).variant
            == LogonVariantView::Invalid("N/A"@),
        logon_event_of(record).event_record_id == record.event_record_id,
{
}

/// What the decoding of a record gave: the record, or the decoder's message
/// where the text was no security event.
pub open spec fn decoded_view(decoded: Result<RawRecord, String>) -> Result<
    RawRecordView,
    Seq<char>,
> {
    match decoded {
        Ok(record) => Ok(record@),
        Err(why) => Err(why@),
    }
}

/// The views of a run of decoded records.
pub open spec fn records_view(records: Seq<Result<RawRecord, String>>) -> Seq<
    Result<RawRecordView, Seq<char>>,
> {
    Seq::new(records.len(), |i: int| decoded_view(records[i]))
}

/// The event that a decoded record gives: an XML failure with the decoder's
/// message where decoding failed, a timestamp failure where the creation time
/// cannot be read, and else the logon event at the instant of the record.
pub open spec fn event_of(decoded: Result<RawRecordView, Seq<char>>) -> Result<
    EventView,
    SentinelErrorView,
> {
    match decoded {
        Ok(record) => match outcome_of(record) {
            Ok(pair) => Ok(
                EventView { details: EventDetailsView::Login(pair.1), timestamp: pair.0 },
            ),
            Err(e) => Err(e),
        },
        Err(why) => Err(SentinelErrorView::XmlParseError(why)),
    }
}

/// The view of an event or a failure.
pub open spec fn event_outcome_view(r: Result<Event, SentinelError>) -> Result<
    EventView,
    SentinelErrorView,
> {
    match r {
        Ok(event) => Ok(event@),
        Err(e) => Err(e@),
    }
}

/// The events of a batch of decoded records: one for each record that
/// normalises, in the order of the records.
pub open spec fn batch_events(records: Seq<Result<RawRecordView, Seq<char>>>) -> Seq<EventView>
    decreases records.len(),
{
    if records.len() == 0 {
        Seq::empty()
    } else {
        let before = batch_events(records.drop_last());
        match event_of(records.last()) {
            Ok(event) => before.push(event),
            Err(_) => before,
        }
    }
}

/// The failures of a batch of decoded records: one for each record that
/// does not normalise, in the order of the records.
pub open spec fn batch_failures(records: Seq<Result<RawRecordView, Seq<char>>>) -> Seq<
    SentinelErrorView,
>
    decreases records.len(),
{
    if records.len() == 0 {
        Seq::empty()
    } else {
        let before = batch_failures(records.drop_last());
        match event_of(records.last()) {
            Ok(_) => before,
            Err(e) => before.push(e),
        }
    }
}

/// Every record of a batch gives either an event or a failure.
pub proof fn lemma_batch_accounts_for_every_record(
    records: Seq<Result<RawRecordView, Seq<char>>>,
)
    ensures
        batch_events(records).len() + batch_failures(records).len() == records.len(),
    decreases records.len(),
{
    if records.len() > 0 {
        lemma_batch_accounts_for_every_record(records.drop_last());
    }
}

/// What a batch of records normalises to.
#[derive(Debug, Clone)]
pub struct Batch {
    /// The events of the records that normalise, in the records' order.
    pub events: Vec<Event>,
    /// The failures of the other records, in the records' order.
    pub failures: Vec<SentinelError>,
}

/// Derives the user name of an event from the record's user and domain.
pub fn derive_username(user: Option<String>, domain: Option<String>) -> (name: String)
    ensures
        name@ == username_of(text_of(user), text_of(domain)),
{
    match user {
        Some(u) => match domain {
            Some(d) => {
                if d.as_str().is_empty() || text_eq(d.as_str(), "-") {
                    u
                } else {
                    u.concat("@").concat(d.as_str())
                }
            },
            None => u,
        },
        None => String::from_str("Unknown"),
    }
}

/// Turns the records of the security log into logon events.
pub struct LogonExtractor;

impl LogonExtractor {
    /// An extractor. It holds no state.
    pub fn new() -> (extractor: Self) {
        LogonExtractor
    }

    /// Reads the four fields of interest out of `record`.
    pub fn logon_event(&self, record: &RawRecord) -> (event: LogonEvent)
        ensures
            event@ == logon_event_of(record@),
    {
        let username = derive_username(
            record.field("TargetUserName"),
            record.field("TargetDomainName"),
        );
        let source_ip = match record.field("IpAddress") {
            Some(text) => text,
            None => String::from_str("N/A"),
        };
        let variant = match record.field("LogonType") {
            Some(text) => LogonVariant::from_string(text.as_str()),
            None => LogonVariant::Invalid(String::from_str("N/A")),
        };
        LogonEvent { username, source_ip, variant, event_record_id: record.event_record_id }
    }

    /// Normalises `record`, given the reading of its creation time.
    pub fn assemble(&self, record: &RawRecord, reading: Result<Timestamp, String>) -> (r: Result<
        (Timestamp, LogonEvent),
        SentinelError,
    >)
        ensures
            outcome_view(r) == normalized(record@, reading_view(reading)),
    {
        match reading {
            Ok(at) => Ok((at, self.logon_event(record))),
            Err(why) => Err(SentinelError::TimestampParseError(why)),
        }
    }

    /// Normalises `record`: reads its creation time as an RFC 3339 date and
    /// time, and its user, domain, address and logon type out of its fields.
    /// It fails only where the creation time cannot be read.
    pub fn parse_login_event(&self, record: &RawRecord) -> (r: Result<
        (Timestamp, LogonEvent),
        SentinelError,
    >)
        ensures
            outcome_view(r) == normalized(
                record@,
                as_instant(rfc3339_reading(record.system_time@)),
            ),
    {
        let reading = read_rfc3339(record.system_time.as_str());
        self.assemble(record, reading)
    }

    /// Normalises a decoded record into an event. A record that could not
    /// be decoded gives an XML failure with the decoder's message.
    pub fn normalize(&self, decoded: &Result<RawRecord, String>) -> (r: Result<
        Event,
        SentinelError,
    >)
        ensures
            event_outcome_view(r) == event_of(decoded_view(*decoded)),
    {
        match decoded {
            Ok(record) => match self.parse_login_event(record) {
                Ok((timestamp, logon)) => Ok(
                    Event { details: EventDetails::Login(logon), timestamp },
                ),
                Err(e) => Err(e),
            },
            Err(why) => Err(SentinelError::XmlParseError(why.clone())),
        }
    }

    /// Normalises a batch of decoded records. A record that fails is set
    /// aside with its failure, and the records after it are still normalised.
    pub fn collect_events(&self, records: &Vec<Result<RawRecord, String>>) -> (batch: Batch)
        ensures
            events_view(batch.events@) == batch_events(records_view(records@)),
            errors_view(batch.failures@) == batch_failures(records_view(records@)),
    {
        let ghost all = records_view(records@);
        let mut events: Vec<Event> = Vec::new();
        let mut failures: Vec<SentinelError> = Vec::new();
        let mut i: usize = 0;
        assert(events_view(events@) =~= batch_events(all.subrange(0, 0)));
        assert(errors_view(failures@) =~= batch_failures(all.subrange(0, 0)));
        while i < records.len()
            invariant
                i <= records.len(),
                all == records_view(records@),
                events_view(events@) == batch_events(all.subrange(0, i as int)),
                errors_view(failures@) == batch_failures(all.subrange(0, i as int)),
            decreases records.len() - i,
        {
            let ghost upto = all.subrange(0, i + 1);
            let ghost seen_events = events_view(events@);
            let ghost seen_failures = errors_view(failures@);
            assert(upto.last() == decoded_view(records@[i as int]));
            assert(upto.drop_last() =~= all.subrange(0, i as int));
            match self.normalize(&records[i]) {
                Ok(event) => {
                    events.push(event);
                    assert(events_view(events@) =~= seen_events.push(event@));
                },
                Err(e) => {
                    failures.push(e);
                    assert(errors_view(failures@) =~= seen_failures.push(e@));
                },
            }
            i += 1;
        }
        assert(all.subrange(0, i as int) =~= all);
        Batch { events, failures }
    }
}

impl Default for LogonExtractor {
    fn default() -> (extractor: Self) {
        LogonExtractor::new()
    }
}

} // verus!
