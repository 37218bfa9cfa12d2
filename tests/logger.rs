use logout::{
    fallback_lines, format_line, new_log, Level, LevelFilter, Logger, TimeFormat, Timestamp,
    WriteOutcome,
};

fn epoch() -> Timestamp {
    Timestamp { unix_nanos: 0, offset_seconds: 0 }
}

#[test]
fn level_names() {
    assert_eq!(Level::Error.as_str(), "ERROR");
    assert_eq!(Level::Warn.as_str(), "WARN");
    assert_eq!(Level::Info.as_str(), "INFO");
    assert_eq!(Level::Debug.as_str(), "DEBUG");
    assert_eq!(Level::Trace.as_str(), "TRACE");
}

#[test]
fn threshold_admits_more_urgent_levels() {
    assert!(LevelFilter::Info.admits(Level::Error));
    assert!(LevelFilter::Info.admits(Level::Warn));
    assert!(LevelFilter::Info.admits(Level::Info));
    assert!(!LevelFilter::Info.admits(Level::Debug));
    assert!(!LevelFilter::Info.admits(Level::Trace));
    assert!(!LevelFilter::Off.admits(Level::Error));
    assert!(LevelFilter::Trace.admits(Level::Trace));
}

#[test]
fn line_with_named_thread() {
    let line = format_line("T", Some("main"), "ThreadId(1)", Level::Warn, "disk low");
    assert_eq!(line, "[T] (main ThreadId(1)) WARN disk low");
}

#[test]
fn line_with_unnamed_thread() {
    let line = format_line("T", None, "ThreadId(7)", Level::Error, "boom");
    assert_eq!(line, "[T] (<unnamed> ThreadId(7)) ERROR boom");
}

#[test]
fn message_kept_verbatim() {
    let line = format_line("T", None, "id", Level::Info, " [x] (y)\tz ");
    assert_eq!(line, "[T] (<unnamed> id) INFO  [x] (y)\tz ");
}

#[test]
fn epoch_in_rfc2822() {
    assert_eq!(epoch().render(TimeFormat::Rfc2822).unwrap(), "Thu, 01 Jan 1970 00:00:00 +0000");
}

#[test]
fn epoch_in_rfc3339() {
    assert_eq!(epoch().render(TimeFormat::Rfc3339).unwrap(), "1970-01-01T00:00:00Z");
}

#[test]
fn the_two_formats_differ() {
    let t = Timestamp { unix_nanos: 1_700_000_000_123_000_000, offset_seconds: 3600 };
    let a = t.time_field(TimeFormat::Rfc2822);
    let b = t.time_field(TimeFormat::Rfc3339);
    assert_eq!(a, "Tue, 14 Nov 2023 23:13:20 +0100");
    assert_eq!(b, "2023-11-14T23:13:20.123+01:00");
    assert_ne!(a, b);
}

#[test]
fn offset_shifts_the_shown_time() {
    let t = Timestamp { unix_nanos: 0, offset_seconds: -5400 };
    assert_eq!(t.time_field(TimeFormat::Rfc3339), "1969-12-31T22:30:00-01:30");
}

#[test]
fn unrenderable_year_gives_time_error() {
    // 1800-01-01T00:00:00Z: RFC 2822 has no years before 1900.
    let t = Timestamp { unix_nanos: -5_364_662_400_000_000_000, offset_seconds: 0 };
    assert!(t.render(TimeFormat::Rfc2822).is_none());
    assert_eq!(t.time_field(TimeFormat::Rfc2822), "time error");
    assert_eq!(t.time_field(TimeFormat::Rfc3339), "1800-01-01T00:00:00Z");
}

#[test]
fn invalid_offset_gives_time_error() {
    let t = Timestamp { unix_nanos: 0, offset_seconds: 100_000 };
    assert_eq!(t.time_field(TimeFormat::Rfc2822), "time error");
    assert_eq!(t.time_field(TimeFormat::Rfc3339), "time error");
}

#[test]
fn time_error_leaves_rest_of_line() {
    let logger = new_log();
    let bad = Timestamp { unix_nanos: -5_364_662_400_000_000_000, offset_seconds: 0 };
    let line = logger.record_line(&bad, Some("w"), "ThreadId(2)", Level::Info, "hi").unwrap();
    assert_eq!(line, "[time error] (w ThreadId(2)) INFO hi");
}

#[test]
fn new_log_defaults() {
    let logger = new_log();
    assert_eq!(logger.get_time_format(), TimeFormat::Rfc2822);
    assert_eq!(logger.get_level(), LevelFilter::Info);
}

#[test]
fn builder_replaces_one_setting_at_a_time() {
    let logger = Logger::new(5u8).time_format(TimeFormat::Rfc3339).max_log_level(LevelFilter::Trace);
    assert_eq!(*logger.destination(), 5u8);
    assert_eq!(logger.get_time_format(), TimeFormat::Rfc3339);
    assert_eq!(logger.get_level(), LevelFilter::Trace);
}

#[test]
fn sink_keeps_settings_and_original() {
    let first = Logger::new(1u8).max_log_level(LevelFilter::Warn).time_format(TimeFormat::Rfc3339);
    let second = first.sink(vec![0u8; 3]);
    assert_eq!(second.destination(), &vec![0u8; 3]);
    assert_eq!(second.get_level(), LevelFilter::Warn);
    assert_eq!(second.get_time_format(), TimeFormat::Rfc3339);
    assert_eq!(*first.destination(), 1u8);
    assert_eq!(second.into_sink(), vec![0u8; 3]);
}

#[test]
fn admitted_record_gives_canonical_line() {
    let logger = Logger::new(()).time_format(TimeFormat::Rfc3339);
    let line = logger.record_line(&epoch(), None, "ThreadId(3)", Level::Warn, "x = 1").unwrap();
    assert_eq!(line, "[1970-01-01T00:00:00Z] (<unnamed> ThreadId(3)) WARN x = 1");
}

#[test]
fn record_below_threshold_gives_nothing() {
    let logger = Logger::new(()).max_log_level(LevelFilter::Warn);
    assert!(logger.record_line(&epoch(), None, "id", Level::Info, "m").is_none());
    assert!(logger.record_line(&epoch(), None, "id", Level::Trace, "m").is_none());
    assert!(!logger.enabled(Level::Info));
    assert!(logger.enabled(Level::Error));
}

#[test]
fn off_threshold_gives_nothing() {
    let logger = Logger::new(()).max_log_level(LevelFilter::Off);
    assert!(logger.record_line(&epoch(), None, "id", Level::Error, "m").is_none());
}

#[test]
fn event_line_uses_the_clock() {
    let logger = Logger::new(()).time_format(TimeFormat::Rfc3339);
    let line = logger.event_line(Some("t"), "ThreadId(9)", Level::Error, "now").unwrap();
    assert!(line.starts_with('['));
    assert!(line.ends_with("] (t ThreadId(9)) ERROR now"));
    assert!(!line.starts_with("[time error]"));
    assert!(logger.event_line(Some("t"), "ThreadId(9)", Level::Debug, "now").is_none());
}

#[test]
fn now_is_after_2020() {
    let t = Timestamp::now();
    assert!(t.unix_nanos > 1_577_836_800_000_000_000);
}

#[test]
fn now_is_a_usable_instant() {
    let t = Timestamp::now();
    assert!(-93_599 <= t.offset_seconds && t.offset_seconds <= 93_599);
    assert!(t.unix_nanos <= 253_402_300_799_999_999_999);
    assert!(t.render(TimeFormat::Rfc3339).is_some());
}

#[test]
fn rendered_texts_open_in_their_shape() {
    let t = Timestamp { unix_nanos: 951_782_400_000_000_000, offset_seconds: 0 };
    let a = t.render(TimeFormat::Rfc2822).unwrap();
    let b = t.render(TimeFormat::Rfc3339).unwrap();
    assert_eq!(a, "Tue, 29 Feb 2000 00:00:00 +0000");
    assert_eq!(b, "2000-02-29T00:00:00Z");
    assert_eq!(&a[3..5], ", ");
    assert_eq!(&b[4..5], "-");
}

#[test]
fn rfc3339_refuses_second_offsets() {
    let t = Timestamp { unix_nanos: 0, offset_seconds: 30 };
    assert!(t.render(TimeFormat::Rfc3339).is_none());
    assert!(t.render(TimeFormat::Rfc2822).is_none());
}

#[test]
fn nothing_to_stderr_after_a_write() {
    assert!(fallback_lines("l", &WriteOutcome::Written).is_empty());
}

#[test]
fn failed_write_goes_to_stderr_with_a_note() {
    let lines = fallback_lines("the line", &WriteOutcome::Failed("broken pipe".to_string()));
    assert_eq!(
        lines,
        vec![
            "error writing to sink, falling back to stderr: broken pipe".to_string(),
            "the line".to_string(),
        ]
    );
}

#[test]
fn unreachable_destination_goes_to_stderr() {
    let lines = fallback_lines("the line", &WriteOutcome::Unavailable);
    assert_eq!(lines, vec!["the line".to_string()]);
}
