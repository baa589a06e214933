use sert::log::{compose, LogLevel, LogStream, Logger};

const RESET: &str = "\u{1b}[39m";

#[test]
fn level_labels() {
    assert_eq!(LogLevel::Null.label_text(), "");
    assert_eq!(LogLevel::Info.label_text(), "INFO: ");
    assert_eq!(LogLevel::Warn.label_text(), "WARN: ");
    assert_eq!(LogLevel::Error.label_text(), "ERROR: ");
}

#[test]
fn errors_go_to_the_error_stream() {
    assert_eq!(LogLevel::Error.stream(), LogStream::Stderr);
    assert_eq!(LogLevel::Warn.stream(), LogStream::Stdout);
    assert_eq!(LogLevel::Info.stream(), LogStream::Stdout);
    assert_eq!(LogLevel::Null.stream(), LogStream::Stdout);
}

#[test]
fn compose_orders_the_parts() {
    assert_eq!(
        compose(Some("12:00"), "<c>", LogLevel::Warn, "<r>", "careful"),
        "12:00 <c>WARN: <r>careful"
    );
    assert_eq!(compose(None, "", LogLevel::Null, "", "plain"), "plain");
    assert_eq!(compose(Some(""), "", LogLevel::Info, "<r>", ""), " INFO: <r>");
}

#[test]
fn plain_logger_writes_label_reset_and_message() {
    let logger = Logger::new(String::new(), false);
    let record = logger.log(LogLevel::Info, 0, 0, "Started up logger.");
    assert_eq!(record.stream, LogStream::Stdout);
    assert_eq!(record.text, format!("INFO: {}Started up logger.", RESET));
    let record = logger.log(LogLevel::Error, 0, 0, "Error sending data.");
    assert_eq!(record.stream, LogStream::Stderr);
    assert_eq!(record.text, format!("ERROR: {}Error sending data.", RESET));
    let record = logger.log(LogLevel::Null, 0, 0, "Terminating");
    assert_eq!(record.text, format!("{}Terminating", RESET));
}

#[test]
fn coloured_logger_paints_by_level() {
    let logger = Logger::new(String::new(), true);
    let cases = [
        (LogLevel::Info, "\u{1b}[38;5;4m", "INFO: "),
        (LogLevel::Warn, "\u{1b}[38;5;3m", "WARN: "),
        (LogLevel::Error, "\u{1b}[38;5;1m", "ERROR: "),
    ];
    for (level, paint, label) in cases {
        let text = logger.log(level, 0, 0, "msg").text;
        let painted = format!("{}{}{}msg", paint, label, RESET);
        let unpainted = format!("{}{}msg", label, RESET);
        assert!(text == painted || text == unpainted, "text {:?}", text);
    }
    assert_eq!(logger.log(LogLevel::Null, 0, 0, "msg").text, format!("{}msg", RESET));
}

#[test]
fn stamped_logger_formats_the_instant() {
    let logger = Logger::new(String::from("%Y-%m-%d %H:%M:%S"), false);
    let record = logger.log(LogLevel::Info, 1431648000, 0, "up");
    assert_eq!(record.text, format!("2015-05-15 00:00:00 INFO: {}up", RESET));
    let record = logger.log(LogLevel::Warn, 86399, 999_999_999, "late");
    assert_eq!(record.text, format!("1970-01-01 23:59:59 WARN: {}late", RESET));
}

#[test]
fn same_instant_gives_the_same_stamp() {
    let logger = Logger::new(String::from("%H:%M:%S%.3f"), false);
    let first = logger.log(LogLevel::Info, 1_700_000_000, 123_000_000, "x");
    let second = logger.log(LogLevel::Info, 1_700_000_000, 123_000_000, "x");
    assert_eq!(first, second);
    assert_eq!(first.text, format!("22:13:20.123 INFO: {}x", RESET));
}

#[test]
fn unusable_pattern_leaves_the_stamp_out() {
    let logger = Logger::new(String::from("%Q"), false);
    let record = logger.log(LogLevel::Info, 0, 0, "up");
    assert_eq!(record.text, format!("INFO: {}up", RESET));
}

#[test]
fn instant_out_of_range_leaves_the_stamp_out() {
    let logger = Logger::new(String::from("%Y"), false);
    let record = logger.log(LogLevel::Info, i64::MAX, 0, "up");
    assert_eq!(record.text, format!("INFO: {}up", RESET));
    let record = logger.log(LogLevel::Info, 0, 2_000_000_000, "up");
    assert_eq!(record.text, format!("INFO: {}up", RESET));
}
