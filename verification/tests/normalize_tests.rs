use chrono::DateTime;
use sentinel::clock::Timestamp;
use sentinel::listener::logon::derive_username;
use sentinel::{DataField, EventDetails, LogonExtractor, LogonVariant, RawRecord, SentinelError};

fn logon_record(system_time: &str, event_record_id: u32, data: &[(&str, &str)]) -> RawRecord {
    RawRecord {
        system_time: system_time.to_string(),
        event_record_id,
        data: data
            .iter()
            .map(|(name, value)| DataField { name: name.to_string(), value: value.to_string() })
            .collect(),
    }
}

fn some(text: &str) -> Option<String> {
    Some(text.to_string())
}

#[test]
fn user_and_domain_are_joined() {
    assert_eq!(derive_username(some("SYSTEM"), some("NT AUTHORITY")), "SYSTEM@NT AUTHORITY");
    assert_eq!(derive_username(some("alice"), some("CORP")), "alice@CORP");
    assert_eq!(derive_username(some(""), some("CORP")), "@CORP");
    assert_eq!(derive_username(some("U"), some("--")), "U@--");
    assert_eq!(derive_username(some("U"), some(" ")), "U@ ");
}

#[test]
fn user_stands_alone_without_a_domain() {
    assert_eq!(derive_username(some("TESTUSER"), None), "TESTUSER");
    assert_eq!(derive_username(some("U"), some("-")), "U");
    assert_eq!(derive_username(some("U"), some("")), "U");
}

#[test]
fn a_missing_user_is_unknown() {
    assert_eq!(derive_username(None, None), "Unknown");
    assert_eq!(derive_username(None, some("CORP")), "Unknown");
    assert_eq!(derive_username(None, some("-")), "Unknown");
}

#[test]
fn a_record_without_a_user_is_kept() {
    let extractor = LogonExtractor::new();
    let (_, logon) = extractor
        .parse_login_event(&logon_record(
            "2025-07-22T16:25:08.8954670Z",
            3,
            &[("TargetDomainName", "CORP"), ("IpAddress", "10.0.0.7"), ("LogonType", "3")],
        ))
        .unwrap();
    assert_eq!(logon.username, "Unknown");
    assert_eq!(logon.source_ip, "10.0.0.7");
    assert!(matches!(logon.variant, LogonVariant::Network));
    assert_eq!(logon.event_record_id, 3);
}

#[test]
fn a_record_with_only_a_user_is_kept() {
    let extractor = LogonExtractor::new();
    let (_, logon) = extractor
        .parse_login_event(&logon_record(
            "2025-07-22T16:25:08.8954670Z",
            0,
            &[("TargetUserName", "TESTUSER")],
        ))
        .unwrap();
    assert_eq!(logon.username, "TESTUSER");
    assert_eq!(logon.source_ip, "N/A");
    match logon.variant {
        LogonVariant::Invalid(text) => assert_eq!(text, "N/A"),
        other => panic!("expected Invalid, got {:?}", other),
    }
}

#[test]
fn a_record_without_fields_is_kept() {
    let extractor = LogonExtractor::new();
    let (_, logon) =
        extractor.parse_login_event(&logon_record("2025-07-22T16:25:08Z", 12, &[])).unwrap();
    assert_eq!(logon.username, "Unknown");
    assert_eq!(logon.source_ip, "N/A");
    assert!(!logon.variant.is_valid());
    assert_eq!(logon.event_record_id, 12);
}

#[test]
fn a_later_field_overrides_an_earlier_one() {
    let record = logon_record(
        "2025-07-22T16:25:08Z",
        1,
        &[
            ("TargetUserName", "first"),
            ("LogonType", "2"),
            ("TargetUserName", "second"),
            ("LogonType", "x"),
        ],
    );
    assert_eq!(record.field("TargetUserName"), Some("second".to_string()));
    assert_eq!(record.field("LogonType"), Some("x".to_string()));
    assert_eq!(record.field("IpAddress"), None);
    assert_eq!(record.field("targetusername"), None);
    let logon = LogonExtractor::new().logon_event(&record);
    assert_eq!(logon.username, "second");
    match logon.variant {
        LogonVariant::Invalid(text) => assert_eq!(text, "x"),
        other => panic!("expected Invalid, got {:?}", other),
    }
}

#[test]
fn the_address_is_passed_through_unchecked() {
    let record = logon_record("2025-07-22T16:25:08Z", 1, &[("IpAddress", "not an address")]);
    assert_eq!(LogonExtractor::new().logon_event(&record).source_ip, "not an address");
}

#[test]
fn the_creation_time_is_kept_exactly() {
    let extractor = LogonExtractor::new();
    let (at, _) =
        extractor.parse_login_event(&logon_record("2025-07-22T16:25:08.8954670Z", 1, &[])).unwrap();
    assert_eq!(at, Timestamp { secs: 1753201508, nanos: 895467000 });
    let (at, _) =
        extractor.parse_login_event(&logon_record("1996-12-19T16:39:57-08:00", 1, &[])).unwrap();
    assert_eq!(at, Timestamp { secs: 851042397, nanos: 0 });
    let (at, _) =
        extractor.parse_login_event(&logon_record("1970-01-01T00:00:00Z", 1, &[])).unwrap();
    assert_eq!(at, Timestamp { secs: 0, nanos: 0 });
    let (at, _) =
        extractor.parse_login_event(&logon_record("1969-12-31T23:59:59.5Z", 1, &[])).unwrap();
    assert_eq!(at, Timestamp { secs: -1, nanos: 500000000 });
    let (at, _) =
        extractor.parse_login_event(&logon_record("2016-12-31T23:59:60Z", 1, &[])).unwrap();
    assert_eq!(at, Timestamp { secs: 1483228799, nanos: 1000000000 });
}

#[test]
fn an_unreadable_creation_time_fails_the_record() {
    let extractor = LogonExtractor::new();
    for text in ["", "not a time", "2025-07-22", "2025-07-22T16:25:08", "2025-13-01T00:00:00Z",
        "2025-07-22T16:25:08Z trailing"] {
        let expected = DateTime::parse_from_rfc3339(text).unwrap_err().to_string();
        let record = logon_record(text, 1, &[("TargetUserName", "TESTUSER")]);
        match extractor.parse_login_event(&record) {
            Err(SentinelError::TimestampParseError(detail)) => assert_eq!(detail, expected),
            other => panic!("{:?} gave {:?}", text, other),
        }
    }
    let failure =
        extractor.parse_login_event(&logon_record("not a time", 1, &[])).unwrap_err();
    assert_eq!(failure.to_string(), "Failed to parse timestamp: premature end of input");
}

#[test]
fn assembling_follows_the_reading_it_is_given() {
    let extractor = LogonExtractor::new();
    let record = logon_record("ignored", 9, &[("TargetUserName", "U"), ("LogonType", "10")]);
    let (at, logon) =
        extractor.assemble(&record, Ok(Timestamp { secs: 42, nanos: 7 })).unwrap();
    assert_eq!(at, Timestamp { secs: 42, nanos: 7 });
    assert_eq!(logon.username, "U");
    assert!(matches!(logon.variant, LogonVariant::RemoteInteractive));
    assert_eq!(logon.event_record_id, 9);
    match extractor.assemble(&record, Err("bad".to_string())) {
        Err(SentinelError::TimestampParseError(detail)) => assert_eq!(detail, "bad"),
        other => panic!("got {:?}", other),
    }
}

#[test]
fn normalizing_wraps_the_logon_in_an_event() {
    let extractor = LogonExtractor::new();
    let decoded = Ok(logon_record(
        "2025-07-22T16:25:08.8954670Z",
        8485950,
        &[("TargetUserName", "SYSTEM"), ("TargetDomainName", "NT AUTHORITY")],
    ));
    let event = extractor.normalize(&decoded).unwrap();
    assert_eq!(event.timestamp, Timestamp { secs: 1753201508, nanos: 895467000 });
    match event.details {
        EventDetails::Login(logon) => {
            assert_eq!(logon.username, "SYSTEM@NT AUTHORITY");
            assert_eq!(logon.event_record_id, 8485950);
        },
        other => panic!("got {:?}", other),
    }
    let timeless = Ok(logon_record("yesterday", 1, &[]));
    assert!(matches!(
        extractor.normalize(&timeless),
        Err(SentinelError::TimestampParseError(_))
    ));
}

#[test]
fn a_batch_keeps_going_past_a_failure() {
    let extractor = LogonExtractor::new();
    let records = vec![
        Ok(logon_record("2025-07-22T16:25:08Z", 1, &[("TargetUserName", "a")])),
        Err("missing field `System`".to_string()),
        Ok(logon_record("whenever", 2, &[("TargetUserName", "b")])),
        Ok(logon_record("2025-07-22T16:25:09Z", 3, &[("TargetUserName", "c")])),
    ];
    let batch = extractor.collect_events(&records);
    let ids: Vec<u32> = batch
        .events
        .iter()
        .map(|event| match &event.details {
            EventDetails::Login(logon) => logon.event_record_id,
            other => panic!("got {:?}", other),
        })
        .collect();
    assert_eq!(ids, vec![1, 3]);
    assert_eq!(batch.events[0].timestamp.secs + 1, batch.events[1].timestamp.secs);
    assert_eq!(batch.failures.len(), 2);
    assert!(matches!(&batch.failures[0], SentinelError::XmlParseError(d) if d == "missing field `System`"));
    assert!(matches!(&batch.failures[1], SentinelError::TimestampParseError(_)));
    assert_eq!(batch.events.len() + batch.failures.len(), records.len());

    let empty = extractor.collect_events(&Vec::new());
    assert!(empty.events.is_empty());
    assert!(empty.failures.is_empty());
}
