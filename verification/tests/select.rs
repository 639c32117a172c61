use razy_awslogs::errors::{Error, ErrorKind};
use razy_awslogs::event::LogEventsRequest;
use razy_awslogs::options::GetOptions;
use razy_awslogs::reader::{select_reader, FilterLogEventsReader, GetLogEventsReader, ReaderChoice};
use razy_awslogs::time::Timestamp;

fn options(
    stream_name: Option<&str>,
    filter_expression: Option<&str>,
) -> GetOptions {
    GetOptions {
        group_name: "group".to_string(),
        stream_name: stream_name.map(|s| s.to_string()),
        filter_expression: filter_expression.map(|s| s.to_string()),
        start_time: Some(Timestamp::from_epoch_millis(1000)),
        end_time: Some(Timestamp::from_epoch_millis(2000)),
        watch: false,
        use_prefix: true,
    }
}

#[test]
fn a_filter_expression_selects_the_filtered_reader_even_with_a_stream() {
    let opts = options(Some("stream"), Some("ERROR"));
    match select_reader(&opts).expect("a filter expression configures a run") {
        ReaderChoice::Filtered(f) => {
            assert_eq!(f.group_name, "group");
            assert_eq!(f.filter_expression, "ERROR");
            assert!(f.stream_names.is_none());
            assert_eq!(f.request.start_time, Some(Timestamp::from_epoch_millis(1000)));
            assert_eq!(f.request.end_time, Some(Timestamp::from_epoch_millis(2000)));
        }
        ReaderChoice::Sequential(_) => panic!("the filtered reader must be chosen"),
    }
}

#[test]
fn no_filter_selects_the_sequential_reader_with_its_stream() {
    let opts = options(Some("stream"), None);
    match select_reader(&opts).expect("a stream name configures a sequential run") {
        ReaderChoice::Sequential(g) => {
            assert_eq!(g.group_name, "group");
            assert_eq!(g.stream_name, "stream");
            assert_eq!(g.request.start_time, Some(Timestamp::from_epoch_millis(1000)));
            assert_eq!(g.request.end_time, Some(Timestamp::from_epoch_millis(2000)));
        }
        ReaderChoice::Filtered(_) => panic!("the sequential reader must be chosen"),
    }
}

#[test]
fn no_filter_and_no_stream_is_a_configuration_error() {
    let opts = options(None, None);
    let err = select_reader(&opts).expect_err("nothing to read from");
    assert_eq!(err.kind(), ErrorKind::InsufficientArguments);
    assert_eq!(
        err.message().as_str(),
        "Need to specify '--stream' when omit '--filter-expression'"
    );
}

#[test]
fn sequential_request_carries_the_configuration_and_token() {
    let reader = GetLogEventsReader {
        group_name: "g".to_string(),
        stream_name: "s".to_string(),
        request: LogEventsRequest {
            start_time: Some(Timestamp::from_epoch_millis(10)),
            end_time: None,
        },
    };
    let req = reader.build_request(Some("tok".to_string()));
    assert_eq!(req.log_group_name, "g");
    assert_eq!(req.log_stream_name, "s");
    assert_eq!(req.start_time, Some(10));
    assert_eq!(req.end_time, None);
    assert_eq!(req.next_token, Some("tok".to_string()));

    let first = reader.build_request(None);
    assert_eq!(first.next_token, None);
}

#[test]
fn filtered_request_carries_the_pattern_streams_and_bounds() {
    let reader = FilterLogEventsReader {
        group_name: "g".to_string(),
        stream_names: Some(vec!["a".to_string(), "b".to_string()]),
        filter_expression: "WARN".to_string(),
        request: LogEventsRequest {
            start_time: None,
            end_time: Some(Timestamp::from_epoch_millis(99)),
        },
    };
    let req = reader.build_request(Some("t".to_string()));
    assert_eq!(req.log_group_name, "g");
    assert_eq!(
        req.log_stream_names,
        Some(vec!["a".to_string(), "b".to_string()])
    );
    assert_eq!(req.filter_pattern, Some("WARN".to_string()));
    assert_eq!(req.start_time, None);
    assert_eq!(req.end_time, Some(99));
    assert_eq!(req.next_token, Some("t".to_string()));
}

#[test]
fn request_bounds_convert_to_epoch_milliseconds() {
    let request = LogEventsRequest {
        start_time: Some(Timestamp::from_epoch_millis(-5)),
        end_time: None,
    };
    assert_eq!(request.start_time_value(), Some(-5));
    assert_eq!(request.end_time_value(), None);
}

#[test]
fn errors_carry_their_kind_and_message() {
    let e = Error::new(ErrorKind::BackendRejected, "the group does not exist".to_string());
    assert_eq!(e.kind(), ErrorKind::BackendRejected);
    assert_eq!(e.message().as_str(), "the group does not exist");
    let k = Error::from_kind(ErrorKind::SyncChannel);
    assert_eq!(k.kind(), ErrorKind::SyncChannel);
    assert_eq!(k.message().as_str(), "Any sync error occurred");
}

#[test]
fn each_error_kind_describes_itself() {
    assert_eq!(ErrorKind::InsufficientArguments.text(), "Argument error.");
    assert_eq!(
        ErrorKind::MalformedRecord.text(),
        "Malformed record in a response."
    );
    assert_eq!(
        ErrorKind::TransportError.text(),
        "The remote call could not complete."
    );
    assert_eq!(
        ErrorKind::BackendRejected.text(),
        "The service rejected the request."
    );
}
