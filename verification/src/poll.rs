//! The decisions of one polling loop.
//!
//! A loop alternates work that only its driver can do (querying the log,
//! sending on the channel, sleeping) with decisions. The decisions are here:
//! the driver performs an [`Action`], reports how it ended as a [`Signal`],
//! and is told the next action. Every signal is answered in every state, so a
//! loop never stalls, and no failure ends it.
//!
//! One action at a time is pending for a loop, so the cycles of one listener
//! do not overlap: the next query is asked for only after the sleep that ends
//! a cycle.

use crate::error::{SentinelError, SentinelErrorView};
use crate::listener::logon::{
    batch_events, batch_failures, records_view, LogonExtractor,
};
use crate::listener::record::{RawRecord, RawRecordView};
use crate::listener::{errors_view, events_view, Event, EventView};
use std::collections::VecDeque;
use vstd::prelude::*;

verus! {

/// How the action that a loop asked for last has ended.
#[derive(Debug, Clone)]
pub enum Signal {
    /// The query returned these records, each decoded or with the decoder's
    /// message.
    Queried(Vec<Result<RawRecord, String>>),
    /// The query failed, with this message.
    QueryFailed(String),
    /// The event was sent.
    Sent,
    /// The event was not sent: the channel has no receiver.
    Closed,
    /// The sleep is over.
    Woke,
}

/// What the driver of a loop is to do next.
#[derive(Debug, Clone)]
pub enum Action {
    /// Query the log source, off the scheduling thread.
    Query,
    /// Send this event on the listener's channel.
    Send(Event),
    /// Sleep for this many milliseconds.
    Sleep(u64),
}

/// The answer to a signal: the next action, and the failures to report.
#[derive(Debug, Clone)]
pub struct Step {
    pub action: Action,
    pub reports: Vec<SentinelError>,
}

/// A `Signal` with its texts as sequences of characters.
pub enum SignalView {
    Queried(Seq<Result<RawRecordView, Seq<char>>>),
    QueryFailed(Seq<char>),
    Sent,
    Closed,
    Woke,
}

/// An `Action` with the texts of its event as sequences of characters.
pub enum ActionView {
    Query,
    Send(EventView),
    Sleep(u64),
}

/// A `Step` with its texts as sequences of characters.
pub struct StepView {
    pub action: ActionView,
    pub reports: Seq<SentinelErrorView>,
}

impl View for Signal {
    type V = SignalView;

    open spec fn view(&self) -> SignalView {
        match *self {
            Signal::Queried(records) => SignalView::Queried(records_view(records@)),
            Signal::QueryFailed(why) => SignalView::QueryFailed(why@),
            Signal::Sent => SignalView::Sent,
            Signal::Closed => SignalView::Closed,
            Signal::Woke => SignalView::Woke,
        }
    }
}

impl View for Action {
    type V = ActionView;

    open spec fn view(&self) -> ActionView {
        match *self {
            Action::Query => ActionView::Query,
            Action::Send(event) => ActionView::Send(event@),
            Action::Sleep(millis) => ActionView::Sleep(millis),
        }
    }
}

impl View for Step {
    type V = StepView;

    open spec fn view(&self) -> StepView {
        StepView { action: self.action@, reports: errors_view(self.reports@) }
    }
}

/// The state of one polling loop.
#[derive(Debug)]
pub struct PollCycle {
    interval_ms: u64,
    pending: VecDeque<Event>,
}

/// The state of a polling loop: the length of its sleep, and the events that
/// wait to be sent, the next one first.
pub struct PollCycleView {
    pub interval_ms: u64,
    pub pending: Seq<EventView>,
}

impl View for PollCycle {
    type V = PollCycleView;

    closed spec fn view(&self) -> PollCycleView {
        PollCycleView { interval_ms: self.interval_ms, pending: events_view(self.pending@) }
    }
}

/// Goes on with a queue of waiting events: the first is sent and the rest
/// waits; with none waiting the loop sleeps.
pub open spec fn proceed(
    interval_ms: u64,
    queue: Seq<EventView>,
    reports: Seq<SentinelErrorView>,
) -> (PollCycleView, StepView) {
    if queue.len() > 0 {
        (
            PollCycleView { interval_ms, pending: queue.drop_first() },
            StepView { action: ActionView::Send(queue[0]), reports },
        )
    } else {
        (
            PollCycleView { interval_ms, pending: Seq::empty() },
            StepView { action: ActionView::Sleep(interval_ms), reports },
        )
    }
}

/// The state after a signal, and the answer to it.
///
/// - Records that were returned are normalised, and their events wait behind
///   those that wait already; the failures are reported; the first event
///   that waits is sent, or the loop sleeps where none does.
/// - A failed query is reported, and the loop sleeps.
/// - After an event was sent the next one is sent, or the loop sleeps.
/// - A closed channel is reported, the events that wait are given up, and
///   the loop sleeps.
/// - After the sleep the log is queried.
pub open spec fn step_of(s: PollCycleView, signal: SignalView) -> (PollCycleView, StepView) {
    match signal {
        SignalView::Queried(records) => proceed(
            s.interval_ms,
            s.pending + batch_events(records),
            batch_failures(records),
        ),
        SignalView::QueryFailed(why) => (
            s,
            StepView {
                action: ActionView::Sleep(s.interval_ms),
                reports: seq![SentinelErrorView::EventQueryError(why)],
            },
        ),
        SignalView::Sent => proceed(s.interval_ms, s.pending, Seq::empty()),
        SignalView::Closed => (
            PollCycleView { interval_ms: s.interval_ms, pending: Seq::empty() },
            StepView {
                action: ActionView::Sleep(s.interval_ms),
                reports: seq![SentinelErrorView::ChannelSendError],
            },
        ),
        SignalView::Woke => (s, StepView { action: ActionView::Query, reports: Seq::empty() }),
    }
}

/// The state of a loop after `k` events in a row were sent.
pub open spec fn after_sent(s: PollCycleView, k: nat) -> PollCycleView
    decreases k,
{
    if k == 0 {
        s
    } else {
        step_of(after_sent(s, (k - 1) as nat), SignalView::Sent).0
    }
}

/// A channel without a receiver does not end the loop: the failure is
/// reported, the loop sleeps, and after the sleep it queries the log again.
pub proof fn lemma_closed_channel_resumes(s: PollCycleView)
    ensures
        step_of(s, SignalView::Closed).1.action == ActionView::Sleep(s.interval_ms),
        step_of(s, SignalView::Closed).1.reports == seq![SentinelErrorView::ChannelSendError],
        step_of(s, SignalView::Closed).0.pending.len() == 0,
        step_of(step_of(s, SignalView::Closed).0, SignalView::Woke).1.action == ActionView::Query,
{
}

/// A failed query does not end the loop: the failure is reported, the loop
/// sleeps with its state unchanged, and after the sleep it queries again.
pub proof fn lemma_failed_query_resumes(s: PollCycleView, why: Seq<char>)
    ensures
        step_of(s, SignalView::QueryFailed(why)).0 == s,
        step_of(s, SignalView::QueryFailed(why)).1.action == ActionView::Sleep(s.interval_ms),
        step_of(s, SignalView::QueryFailed(why)).1.reports == seq![
            SentinelErrorView::EventQueryError(why),
        ],
        step_of(step_of(s, SignalView::QueryFailed(why)).0, SignalView::Woke).1.action
            == ActionView::Query,
{
}

/// Events leave in the order in which they wait: after `k` events were sent,
/// the next answer sends the event that stood at place `k`, and once all were
/// sent the loop sleeps.
pub proof fn lemma_sends_in_order(s: PollCycleView, k: nat)
    ensures
        after_sent(s, k).interval_ms == s.interval_ms,
        k <= s.pending.len() ==> after_sent(s, k).pending == s.pending.skip(k as int),
        k < s.pending.len() ==> step_of(after_sent(s, k), SignalView::Sent).1.action
            == ActionView::Send(s.pending[k as int]),
        k >= s.pending.len() ==> step_of(after_sent(s, k), SignalView::Sent).1.action
            == ActionView::Sleep(s.interval_ms),
        k >= s.pending.len() ==> after_sent(s, k).pending.len() == 0,
    decreases k,
{
    if k > 0 {
        lemma_sends_in_order(s, (k - 1) as nat);
        let before = after_sent(s, (k - 1) as nat);
        if k <= s.pending.len() {
            assert(before.pending.drop_first() =~= s.pending.skip(k as int));
        }
    } else {
        assert(s.pending.skip(0) =~= s.pending);
    }
}

/// The events of a batch are sent in the order of its records: with nothing
/// waiting, the answer to a batch sends its first event, and each later
/// answer the next one.
pub proof fn lemma_batch_sent_in_order(
    s: PollCycleView,
    records: Seq<Result<RawRecordView, Seq<char>>>,
    k: nat,
)
    requires
        s.pending.len() == 0,
        k < batch_events(records).len(),
    ensures
        k == 0 ==> step_of(s, SignalView::Queried(records)).1.action == ActionView::Send(
            batch_events(records)[0],
        ),
        k > 0 ==> step_of(
            after_sent(step_of(s, SignalView::Queried(records)).0, (k - 1) as nat),
            SignalView::Sent,
        ).1.action == ActionView::Send(batch_events(records)[k as int]),
{
    let queue = batch_events(records);
    assert(s.pending + queue =~= queue);
    if k > 0 {
        lemma_sends_in_order(step_of(s, SignalView::Queried(records)).0, (k - 1) as nat);
    }
}

fn enqueue(pending: &mut VecDeque<Event>, events: Vec<Event>)
    ensures
        final(pending)@ == old(pending)@ + events@,
{
    let mut rest = events;
    let mut tail: VecDeque<Event> = VecDeque::new();
    loop
        invariant
            rest@ + tail@ == events@,
            pending@ == old(pending)@,
        ensures
            tail@ == events@,
        decreases rest.len(),
    {
        let ghost before = rest@;
        match rest.pop() {
            Some(event) => {
                tail.push_front(event);
                assert(rest@ + tail@ =~= before + tail@.drop_first());
            },
            None => {
                assert(rest@ + tail@ =~= tail@);
                break ;
            },
        }
    }
    pending.append(&mut tail);
}

impl PollCycle {
    /// A loop that sleeps `interval_ms` milliseconds between its cycles, with
    /// no event waiting.
    pub fn new(interval_ms: u64) -> (cycle: Self)
        ensures
            cycle@ == (PollCycleView { interval_ms, pending: Seq::empty() }),
    {
        let cycle = PollCycle { interval_ms, pending: VecDeque::new() };
        assert(cycle@.pending =~= Seq::empty());
        cycle
    }

    /// The length of the sleep between two cycles, in milliseconds.
    pub fn interval_ms(&self) -> (millis: u64)
        ensures
            millis == self@.interval_ms,
    {
        self.interval_ms
    }

    /// The number of events that wait to be sent.
    pub fn pending_len(&self) -> (n: usize)
        ensures
            n == self@.pending.len(),
    {
        self.pending.len()
    }

    /// The first action of a loop: to query the log.
    pub fn start(&self) -> (action: Action)
        ensures
            action@ == ActionView::Query,
    {
        Action::Query
    }

    fn advance(&mut self, reports: Vec<SentinelError>) -> (step: Step)
        ensures
            (final(self)@, step@) == proceed(
                old(self)@.interval_ms,
                old(self)@.pending,
                errors_view(reports@),
            ),
    {
        let ghost queue = self.pending@;
        match self.pending.pop_front() {
            Some(event) => {
                assert(events_view(self.pending@) =~= events_view(queue).drop_first());
                Step { action: Action::Send(event), reports }
            },
            None => {
                assert(events_view(self.pending@) =~= Seq::empty());
                Step { action: Action::Sleep(self.interval_ms), reports }
            },
        }
    }

    /// Takes in how the last action ended, and answers with the next action
    /// and the failures to report.
    pub fn step(&mut self, signal: Signal) -> (step: Step)
        ensures
            (final(self)@, step@) == step_of(old(self)@, signal@),
    {
        match signal {
            Signal::Queried(records) => {
                let ghost waiting = self.pending@;
                let batch = LogonExtractor::new().collect_events(&records);
                enqueue(&mut self.pending, batch.events);
                assert(events_view(self.pending@) =~= events_view(waiting) + batch_events(
                    records_view(records@),
                ));
                self.advance(batch.failures)
            },
            Signal::QueryFailed(why) => {
                let mut reports: Vec<SentinelError> = Vec::new();
                let report = SentinelError::EventQueryError(why);
                reports.push(report);
                assert(errors_view(reports@) =~= seq![report@]);
                Step { action: Action::Sleep(self.interval_ms), reports }
            },
            Signal::Sent => {
                let reports: Vec<SentinelError> = Vec::new();
                assert(errors_view(reports@) =~= Seq::empty());
                self.advance(reports)
            },
            Signal::Closed => {
                self.pending.clear();
                let mut reports: Vec<SentinelError> = Vec::new();
                reports.push(SentinelError::ChannelSendError);
                assert(errors_view(reports@) =~= seq![SentinelErrorView::ChannelSendError]);
                assert(events_view(self.pending@) =~= Seq::empty());
                Step { action: Action::Sleep(self.interval_ms), reports }
            },
            Signal::Woke => {
                let reports: Vec<SentinelError> = Vec::new();
                assert(errors_view(reports@) =~= Seq::empty());
                Step { action: Action::Query, reports }
            },
        }
    }
}

} // verus!
