use sentinel::{LogonVariant, SentinelError};

#[test]
fn known_codes_give_their_kinds() {
    assert!(matches!(LogonVariant::from_string("2"), LogonVariant::Interactive));
    assert!(matches!(LogonVariant::from_string("3"), LogonVariant::Network));
    assert!(matches!(LogonVariant::from_string("4"), LogonVariant::Batch));
    assert!(matches!(LogonVariant::from_string("5"), LogonVariant::Service));
    assert!(matches!(LogonVariant::from_string("7"), LogonVariant::Unlock));
    assert!(matches!(LogonVariant::from_string("8"), LogonVariant::NetworkCleartext));
    assert!(matches!(LogonVariant::from_string("9"), LogonVariant::NewCredentials));
    assert!(matches!(LogonVariant::from_string("10"), LogonVariant::RemoteInteractive));
    assert!(matches!(LogonVariant::from_string("11"), LogonVariant::CachedInteractive));
    assert!(matches!(LogonVariant::from_string("12"), LogonVariant::CachedRemoteInteractive));
    assert!(matches!(LogonVariant::from_string("13"), LogonVariant::CachedUnlock));
    assert!(matches!(LogonVariant::from_string("+5"), LogonVariant::Service));
    assert!(matches!(LogonVariant::from_string("005"), LogonVariant::Service));
}

#[test]
fn other_codes_are_unknown_with_their_number() {
    assert!(matches!(LogonVariant::from_string("0"), LogonVariant::Unknown(0)));
    assert!(matches!(LogonVariant::from_string("1"), LogonVariant::Unknown(1)));
    assert!(matches!(LogonVariant::from_string("6"), LogonVariant::Unknown(6)));
    assert!(matches!(LogonVariant::from_string("14"), LogonVariant::Unknown(14)));
    assert!(matches!(LogonVariant::from_string("99"), LogonVariant::Unknown(99)));
    assert!(matches!(LogonVariant::from_string("-1"), LogonVariant::Unknown(-1)));
    assert!(matches!(LogonVariant::from_string("-5"), LogonVariant::Unknown(-5)));
    let unknown = LogonVariant::from_string("-1");
    assert!(unknown.is_valid());
    assert_eq!(unknown.as_number(), -1);
}

#[test]
fn other_texts_are_invalid_with_the_text() {
    for text in ["", "invalid", "N/A", "5 ", " 5", "five", "5.0", "99999999999999999999999999"] {
        match LogonVariant::from_string(text) {
            LogonVariant::Invalid(kept) => assert_eq!(kept, text),
            other => panic!("{:?} gave {:?}", text, other),
        }
    }
}

#[test]
fn a_classified_number_reads_back() {
    for n in -3isize..40 {
        let variant = LogonVariant::from_string(&n.to_string());
        assert!(variant.is_valid());
        assert_eq!(variant.as_number(), n);
    }
}

#[test]
fn variants_are_shown_with_their_words() {
    assert_eq!(LogonVariant::Interactive.to_string(), "Interactive");
    assert_eq!(LogonVariant::Network.to_string(), "Network");
    assert_eq!(LogonVariant::Batch.to_string(), "Batch");
    assert_eq!(LogonVariant::Service.to_string(), "Service");
    assert_eq!(LogonVariant::Unlock.to_string(), "Unlock");
    assert_eq!(LogonVariant::NetworkCleartext.to_string(), "Network Cleartext");
    assert_eq!(LogonVariant::NewCredentials.to_string(), "New Credentials");
    assert_eq!(LogonVariant::RemoteInteractive.to_string(), "Remote Interactive");
    assert_eq!(LogonVariant::CachedInteractive.to_string(), "Cached Interactive");
    assert_eq!(LogonVariant::CachedRemoteInteractive.to_string(), "Cached Remote Interactive");
    assert_eq!(LogonVariant::CachedUnlock.to_string(), "Cached Unlock");
    assert_eq!(LogonVariant::Unknown(99).to_string(), "Unknown (99)");
    assert_eq!(LogonVariant::Unknown(-7).to_string(), "Unknown (-7)");
    assert_eq!(LogonVariant::Unknown(0).to_string(), "Unknown (0)");
    assert_eq!(LogonVariant::Invalid("N/A".to_string()).to_string(), "Invalid (N/A)");
    assert_eq!(LogonVariant::Invalid(String::new()).to_string(), "Invalid ()");
}

#[test]
fn failures_are_described_in_a_line() {
    assert_eq!(
        SentinelError::XmlParseError("missing field `System`".to_string()).to_string(),
        "Failed to parse XML: missing field `System`"
    );
    assert_eq!(
        SentinelError::TimestampParseError("premature end of input".to_string()).to_string(),
        "Failed to parse timestamp: premature end of input"
    );
    assert_eq!(
        SentinelError::EventQueryError("access denied".to_string()).to_string(),
        "Failed to query events: access denied"
    );
    assert_eq!(SentinelError::ChannelSendError.to_string(), "Failed to send event to channel");
}
