use razy_awslogs::errors::ErrorKind;
use razy_awslogs::event::LogEventsResponse;
use razy_awslogs::event::LogEvent;
use razy_awslogs::reader::{RawFilteredEvent, RawFilteredPage, RawSequentialEvent, RawSequentialPage};

#[test]
fn sequential_record_is_tagged_with_the_configured_stream() {
    let raw = RawSequentialEvent {
        message: Some("a message".to_string()),
        timestamp: Some(1234567890123),
    };
    let stream = "my-stream".to_string();
    let event = LogEvent::from_sequential(&raw, &stream).expect("a well-formed record converts");
    assert_eq!(event.message, "a message");
    assert_eq!(event.timestamp.epoch_millis(), 1234567890123);
    assert_eq!(event.stream_name, Some("my-stream".to_string()));
}

#[test]
fn converting_the_same_record_twice_gives_identical_events() {
    let raw = RawSequentialEvent {
        message: Some("same".to_string()),
        timestamp: Some(42),
    };
    let stream = "s".to_string();
    let first = LogEvent::from_sequential(&raw, &stream).expect("converts");
    let second = LogEvent::from_sequential(&raw, &stream).expect("converts");
    assert_eq!(first.message, second.message);
    assert_eq!(first.timestamp, second.timestamp);
    assert_eq!(first.stream_name, second.stream_name);

    let raw_filtered = RawFilteredEvent {
        message: Some("same".to_string()),
        timestamp: Some(42),
        log_stream_name: Some("s2".to_string()),
    };
    let a = LogEvent::from_filtered(&raw_filtered).expect("converts");
    let b = LogEvent::from_filtered(&raw_filtered).expect("converts");
    assert_eq!(a.message, b.message);
    assert_eq!(a.timestamp, b.timestamp);
    assert_eq!(a.stream_name, b.stream_name);
}

#[test]
fn a_record_without_a_message_is_malformed() {
    let raw = RawSequentialEvent {
        message: None,
        timestamp: Some(1),
    };
    let err = LogEvent::from_sequential(&raw, &"s".to_string()).unwrap_err();
    assert_eq!(err.kind(), ErrorKind::MalformedRecord);
}

#[test]
fn a_record_without_a_timestamp_is_malformed() {
    let raw = RawFilteredEvent {
        message: Some("m".to_string()),
        timestamp: None,
        log_stream_name: None,
    };
    let err = LogEvent::from_filtered(&raw).unwrap_err();
    assert_eq!(err.kind(), ErrorKind::MalformedRecord);
}

#[test]
fn filtered_record_keeps_or_omits_its_own_stream_name() {
    let with = RawFilteredEvent {
        message: Some("m".to_string()),
        timestamp: Some(7),
        log_stream_name: Some("origin".to_string()),
    };
    assert_eq!(
        LogEvent::from_filtered(&with).expect("converts").stream_name,
        Some("origin".to_string())
    );
    let without = RawFilteredEvent {
        message: Some("m".to_string()),
        timestamp: Some(7),
        log_stream_name: None,
    };
    assert_eq!(LogEvent::from_filtered(&without).expect("converts").stream_name, None);
}

#[test]
fn a_sequential_page_without_events_normalizes_to_an_empty_page() {
    let page = RawSequentialPage {
        events: None,
        next_forward_token: Some("tok".to_string()),
    };
    let resp = LogEventsResponse::from_sequential_page(page, &"s".to_string()).expect("converts");
    assert!(resp.events.is_empty());
    assert_eq!(resp.next_token, Some("tok".to_string()));
}

#[test]
fn a_sequential_page_keeps_the_backend_order() {
    let page = RawSequentialPage {
        events: Some(vec![
            RawSequentialEvent {
                message: Some("first".to_string()),
                timestamp: Some(1),
            },
            RawSequentialEvent {
                message: Some("second".to_string()),
                timestamp: Some(2),
            },
        ]),
        next_forward_token: None,
    };
    let resp = LogEventsResponse::from_sequential_page(page, &"s".to_string()).expect("converts");
    assert_eq!(resp.events.len(), 2);
    assert_eq!(resp.events[0].message, "first");
    assert_eq!(resp.events[1].message, "second");
    assert_eq!(resp.events[1].stream_name, Some("s".to_string()));
    assert_eq!(resp.next_token, None);
}

#[test]
fn one_malformed_record_rejects_the_whole_page() {
    let page = RawFilteredPage {
        events: Some(vec![
            RawFilteredEvent {
                message: Some("fine".to_string()),
                timestamp: Some(1),
                log_stream_name: None,
            },
            RawFilteredEvent {
                message: None,
                timestamp: Some(2),
                log_stream_name: None,
            },
        ]),
        next_token: Some("t".to_string()),
    };
    let err = LogEventsResponse::from_filtered_page(page).unwrap_err();
    assert_eq!(err.kind(), ErrorKind::MalformedRecord);
}

#[test]
fn a_filtered_page_normalizes_events_and_token() {
    let page = RawFilteredPage {
        events: Some(vec![RawFilteredEvent {
            message: Some("m".to_string()),
            timestamp: Some(99),
            log_stream_name: Some("w".to_string()),
        }]),
        next_token: Some("next".to_string()),
    };
    let resp = LogEventsResponse::from_filtered_page(page).expect("converts");
    assert_eq!(resp.events.len(), 1);
    assert_eq!(resp.events[0].message, "m");
    assert_eq!(resp.events[0].timestamp.epoch_millis(), 99);
    assert_eq!(resp.events[0].stream_name, Some("w".to_string()));
    assert_eq!(resp.next_token, Some("next".to_string()));
}
