use sentinel::dispatcher::Dispatcher;
use sentinel::poll::{Action, PollCycle, Signal};
use sentinel::{DataField, EventDetails, RawRecord, SentinelError};

fn failed_logon(id: u32, user: &str) -> Result<RawRecord, String> {
    Ok(RawRecord {
        system_time: "2025-07-22T16:25:08.8954670Z".to_string(),
        event_record_id: id,
        data: vec![DataField { name: "TargetUserName".to_string(), value: user.to_string() }],
    })
}

fn sent_id(action: &Action) -> u32 {
    match action {
        Action::Send(event) => match &event.details {
            EventDetails::Login(logon) => logon.event_record_id,
            other => panic!("got {:?}", other),
        },
        other => panic!("expected a send, got {:?}", other),
    }
}

#[test]
fn a_cycle_queries_sends_in_order_and_sleeps() {
    let mut cycle = PollCycle::new(1000);
    assert_eq!(cycle.interval_ms(), 1000);
    assert!(matches!(cycle.start(), Action::Query));

    let step = cycle.step(Signal::Queried(vec![
        failed_logon(1, "a"),
        failed_logon(2, "b"),
        failed_logon(3, "c"),
    ]));
    assert!(step.reports.is_empty());
    assert_eq!(sent_id(&step.action), 1);
    assert_eq!(cycle.pending_len(), 2);

    let step = cycle.step(Signal::Sent);
    assert_eq!(sent_id(&step.action), 2);
    let step = cycle.step(Signal::Sent);
    assert_eq!(sent_id(&step.action), 3);
    assert_eq!(cycle.pending_len(), 0);

    let step = cycle.step(Signal::Sent);
    assert!(matches!(step.action, Action::Sleep(1000)));
    assert!(step.reports.is_empty());

    let step = cycle.step(Signal::Woke);
    assert!(matches!(step.action, Action::Query));
    assert!(step.reports.is_empty());
}

#[test]
fn an_empty_batch_goes_straight_to_sleep() {
    let mut cycle = PollCycle::new(250);
    let step = cycle.step(Signal::Queried(Vec::new()));
    assert!(matches!(step.action, Action::Sleep(250)));
    assert!(step.reports.is_empty());
}

#[test]
fn failures_of_a_batch_are_reported_and_the_rest_is_sent() {
    let mut cycle = PollCycle::new(1000);
    let step = cycle.step(Signal::Queried(vec![
        Err("missing field `System`".to_string()),
        failed_logon(7, "a"),
        Ok(RawRecord { system_time: "soon".to_string(), event_record_id: 8, data: Vec::new() }),
    ]));
    assert_eq!(sent_id(&step.action), 7);
    assert_eq!(step.reports.len(), 2);
    assert!(matches!(step.reports[0], SentinelError::XmlParseError(_)));
    assert!(matches!(step.reports[1], SentinelError::TimestampParseError(_)));
    let step = cycle.step(Signal::Sent);
    assert!(matches!(step.action, Action::Sleep(1000)));
}

#[test]
fn a_closed_channel_is_reported_and_polling_goes_on() {
    let mut cycle = PollCycle::new(1000);
    let step = cycle.step(Signal::Queried(vec![failed_logon(1, "a"), failed_logon(2, "b")]));
    assert_eq!(sent_id(&step.action), 1);

    let step = cycle.step(Signal::Closed);
    assert!(matches!(step.action, Action::Sleep(1000)));
    assert_eq!(step.reports.len(), 1);
    assert!(matches!(step.reports[0], SentinelError::ChannelSendError));
    assert_eq!(cycle.pending_len(), 0);

    let step = cycle.step(Signal::Woke);
    assert!(matches!(step.action, Action::Query));

    let step = cycle.step(Signal::Queried(vec![failed_logon(3, "c")]));
    assert_eq!(sent_id(&step.action), 3);
}

#[test]
fn a_failed_query_is_reported_and_polling_goes_on() {
    let mut cycle = PollCycle::new(1000);
    let step = cycle.step(Signal::QueryFailed("access denied".to_string()));
    assert!(matches!(step.action, Action::Sleep(1000)));
    assert_eq!(step.reports.len(), 1);
    assert_eq!(step.reports[0].to_string(), "Failed to query events: access denied");
    let step = cycle.step(Signal::Woke);
    assert!(matches!(step.action, Action::Query));
}

#[test]
fn listeners_do_not_touch_each_other() {
    let mut dispatcher = Dispatcher::new();
    let first = dispatcher.add_listener(1000);
    let second = dispatcher.add_listener(500);
    assert_eq!((first, second), (0, 1));
    assert_eq!(dispatcher.len(), 2);
    assert!(matches!(dispatcher.start(first), Some(Action::Query)));
    assert!(matches!(dispatcher.start(second), Some(Action::Query)));

    let step = dispatcher.deliver(first, Signal::QueryFailed("channel not found".to_string()));
    let step = step.unwrap();
    assert!(matches!(step.action, Action::Sleep(1000)));
    assert_eq!(step.reports.len(), 1);

    let step = dispatcher
        .deliver(second, Signal::Queried(vec![failed_logon(1, "a"), failed_logon(2, "b")]))
        .unwrap();
    assert!(step.reports.is_empty());
    assert_eq!(sent_id(&step.action), 1);

    let step = dispatcher.deliver(first, Signal::Woke).unwrap();
    assert!(matches!(step.action, Action::Query));
    let step = dispatcher.deliver(first, Signal::Queried(vec![failed_logon(9, "z")])).unwrap();
    assert_eq!(sent_id(&step.action), 9);
    let step = dispatcher.deliver(first, Signal::Closed).unwrap();
    assert!(matches!(step.action, Action::Sleep(1000)));

    let step = dispatcher.deliver(second, Signal::Sent).unwrap();
    assert_eq!(sent_id(&step.action), 2);
    let step = dispatcher.deliver(second, Signal::Sent).unwrap();
    assert!(matches!(step.action, Action::Sleep(500)));
}

#[test]
fn a_listener_that_does_not_exist_answers_nothing() {
    let mut dispatcher = Dispatcher::new();
    assert!(dispatcher.start(0).is_none());
    assert!(dispatcher.deliver(0, Signal::Woke).is_none());
    dispatcher.add_listener(1000);
    assert!(dispatcher.deliver(1, Signal::Woke).is_none());
    assert!(dispatcher.deliver(0, Signal::Woke).is_some());
    assert_eq!(dispatcher.len(), 1);
}
