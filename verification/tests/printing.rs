use razy_awslogs::event::LogEvent;
use razy_awslogs::options::GetOptions;
use razy_awslogs::printer::{create_printer, LogPrinter, MessagePrinter, PrinterChoice};
use razy_awslogs::time::Timestamp;

fn event_at(millis: i64, message: &str) -> LogEvent {
    LogEvent {
        message: message.to_string(),
        timestamp: Timestamp::from_epoch_millis(millis),
        stream_name: None,
    }
}

fn plain_printer(offset_seconds: i32) -> LogPrinter {
    LogPrinter {
        enable_color: false,
        utc_offset_seconds: offset_seconds,
    }
}

#[test]
fn prefixed_sink_formats_hello_at_utc_plus_nine() {
    // 1672531200000 is 2023-01-01T00:00:00Z; displayed at UTC+9.
    let event = event_at(1672531200000, "hello");
    let line = plain_printer(9 * 3600).format_event(&event);
    assert_eq!(line, "[2023-01-01 09:00:00] hello");
}

#[test]
fn bare_sink_formats_hello_as_the_message_alone() {
    let event = event_at(1672531200000, "hello");
    let printer = MessagePrinter::default();
    assert_eq!(printer.format_event(&event), "hello");
}

#[test]
fn colorized_prefix_wraps_only_the_bracketed_time() {
    let event = event_at(1672531200000, "hello");
    let printer = LogPrinter {
        enable_color: true,
        utc_offset_seconds: 9 * 3600,
    };
    let line = printer.format_event(&event);
    assert_eq!(line, "\u{1b}[32m[2023-01-01 09:00:00]\u{1b}[0m hello");
}

#[test]
fn prefix_times_at_utc_cover_epoch_and_both_directions() {
    let p = plain_printer(0);
    assert_eq!(
        p.format_event(&event_at(0, "x")),
        "[1970-01-01 00:00:00] x"
    );
    assert_eq!(
        p.format_event(&event_at(-1, "x")),
        "[1969-12-31 23:59:59] x"
    );
    assert_eq!(
        p.format_event(&event_at(951827696000, "x")),
        "[2000-02-29 12:34:56] x"
    );
    assert_eq!(
        p.format_event(&event_at(253402300799999, "x")),
        "[9999-12-31 23:59:59] x"
    );
    assert_eq!(
        p.format_event(&event_at(-62167219200000, "x")),
        "[0000-01-01 00:00:00] x"
    );
    assert_eq!(
        p.format_event(&event_at(-62167219200001, "x")),
        "[-0001-12-31 23:59:59] x"
    );
    assert_eq!(
        p.format_event(&event_at(-30641760000000, "x")),
        "[0999-01-01 00:00:00] x"
    );
}

#[test]
fn sub_second_precision_is_preserved_by_the_model() {
    let t = Timestamp::from_epoch_millis(1672531200123);
    assert_eq!(t.epoch_millis(), 1672531200123);
}

#[test]
fn batch_formatting_gives_one_line_per_event_in_order() {
    let events = vec![
        event_at(1672531200000, "first"),
        event_at(1672531201000, "second"),
    ];
    let bare = MessagePrinter::default().format_events(&events);
    assert_eq!(bare, vec!["first".to_string(), "second".to_string()]);
    let prefixed = plain_printer(9 * 3600).format_events(&events);
    assert_eq!(
        prefixed,
        vec![
            "[2023-01-01 09:00:00] first".to_string(),
            "[2023-01-01 09:00:01] second".to_string(),
        ]
    );
}

#[test]
fn printer_choice_follows_the_prefix_option() {
    let mut options = GetOptions {
        group_name: "g".to_string(),
        stream_name: None,
        filter_expression: None,
        start_time: None,
        end_time: None,
        watch: false,
        use_prefix: true,
    };
    match create_printer(&options) {
        PrinterChoice::Prefixed(p) => assert_eq!(p.utc_offset_seconds, 9 * 3600),
        PrinterChoice::Bare(_) => panic!("prefixes were asked for"),
    }
    options.use_prefix = false;
    assert!(matches!(create_printer(&options), PrinterChoice::Bare(_)));
}
