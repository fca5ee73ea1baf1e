use ironscribe::destinations::console_line::{format_entry, level_label, render_line};
use owo_colors::OwoColorize;
use ironscribe::{ConsoleDestination, LogEntry, LogLevel, LogMessageType, LogService, Timestamp};

fn fixed_entry(message_type: LogMessageType, message: &str) -> LogEntry {
    LogEntry {
        log_unit_id: 0xa1a2a3a4_b1b2_c1c2_d1d2_d3d4d5d6d7d8,
        message_id: 0x0123456789abcdef_0123456789abcdef,
        level: LogLevel::from(message_type),
        message: message.to_string(),
        message_type,
        timestamp: Timestamp { nanos: 1_431_648_000_123_456_789 },
    }
}

#[test]
fn test_render_line_joins_the_parts() {
    assert_eq!(render_line("T", "L", "U", "M"), "[T] [L] [U] M");
    assert_eq!(render_line("", "", "", ""), "[] [] [] ");
    assert_eq!(
        render_line("2015-05-15 00:00:00 UTC", "INFO", "unit", "hello [world]"),
        "[2015-05-15 00:00:00 UTC] [INFO] [unit] hello [world]"
    );
}

#[test]
fn test_level_labels_are_coloured_and_bold() {
    assert_eq!(level_label(LogMessageType::Error), "\x1b[1m\x1b[31mERROR\x1b[39m\x1b[0m");
    assert_eq!(level_label(LogMessageType::Warning), "\x1b[1m\x1b[33mWARN\x1b[39m\x1b[0m");
    assert_eq!(level_label(LogMessageType::Info), "\x1b[1m\x1b[34mINFO\x1b[39m\x1b[0m");
    assert_eq!(level_label(LogMessageType::Success), "\x1b[1m\x1b[32mSUCCESS\x1b[39m\x1b[0m");
}

#[test]
fn test_format_entry_exact_line() {
    let entry = fixed_entry(LogMessageType::Error, "boom");
    assert_eq!(
        format_entry(&entry),
        "[2015-05-15 00:00:00 UTC] [\x1b[1m\x1b[31mERROR\x1b[39m\x1b[0m] \
         [\x1b[2ma1a2a3a4-b1b2-c1c2-d1d2-d3d4d5d6d7d8\x1b[0m] boom"
    );
    let entry = fixed_entry(LogMessageType::Success, "");
    assert_eq!(
        format_entry(&entry),
        "[2015-05-15 00:00:00 UTC] [\x1b[1m\x1b[32mSUCCESS\x1b[39m\x1b[0m] \
         [\x1b[2ma1a2a3a4-b1b2-c1c2-d1d2-d3d4d5d6d7d8\x1b[0m] "
    );
}

#[test]
fn test_format_entry_times() {
    let mut entry = fixed_entry(LogMessageType::Info, "m");
    entry.timestamp = Timestamp { nanos: 0 };
    assert!(format_entry(&entry).starts_with("[1970-01-01 00:00:00 UTC] "));
    entry.timestamp = Timestamp { nanos: -1 };
    assert!(format_entry(&entry).starts_with("[1969-12-31 23:59:59 UTC] "));
    entry.timestamp = Timestamp { nanos: i64::MAX };
    assert!(format_entry(&entry).starts_with("[2262-04-11 23:47:16 UTC] "));
    entry.timestamp = Timestamp { nanos: i64::MIN };
    assert!(format_entry(&entry).starts_with("[1677-09-21 00:12:43 UTC] "));
}

#[test]
fn test_format_entry_agrees_with_the_styling_and_time_crates() {
    let entry = LogEntry::warning(77, "careful".to_string());
    let time = chrono::DateTime::from_timestamp_nanos(entry.timestamp.nanos)
        .format("%Y-%m-%d %H:%M:%S UTC");
    let expected = format!(
        "[{}] [{}] [{}] {}",
        time,
        "WARN".yellow().bold().to_string(),
        uuid::Uuid::from_u128(77).to_string().dimmed(),
        "careful"
    );
    assert_eq!(format_entry(&entry), expected);
}

#[test]
fn test_log_mirrors_one_line_per_message_in_order() {
    let mut console = ConsoleDestination::new();
    let unit = console.create_log_unit("mirror".to_string()).unwrap();
    assert!(console.take_console_output().is_empty());

    let first = LogEntry::info(unit.id, "start".to_string());
    let second = LogEntry::error(unit.id, "boom".to_string());
    console.log(first.clone()).unwrap();
    console.log(second.clone()).unwrap();

    let lines = console.take_console_output();
    assert_eq!(lines, vec![format_entry(&first), format_entry(&second)]);
    assert!(lines[0].ends_with("] start"));
    assert!(lines[1].ends_with("] boom"));

    // taking the lines leaves what is stored
    assert!(console.take_console_output().is_empty());
    assert_eq!(console.get_log_entries(unit.id).unwrap().len(), 2);
    assert_eq!(console.get_log_unit(unit.id).unwrap(), Some(unit));
}

#[test]
fn test_timestamp_now_is_close_to_the_clock() {
    let before = chrono::Utc::now().timestamp_nanos_opt().unwrap();
    let now = Timestamp::now();
    let after = chrono::Utc::now().timestamp_nanos_opt().unwrap();
    assert!(before <= now.nanos && now.nanos <= after);
    assert!(now.nanos > 0);
    assert_eq!(Timestamp::from_nanos(5).nanos, 5);
    assert_eq!(Timestamp::from_unix(0, 0).nanos, 0);
    assert_eq!(Timestamp::from_unix(1, 5).nanos, 1_000_000_005);
    assert_eq!(Timestamp::from_unix(-1, 999_999_999).nanos, -1);
    assert_eq!(Timestamp::from_unix(1_431_648_000, 123_456_789).nanos, 1_431_648_000_123_456_789);
    assert_eq!(Timestamp::from_unix(59, 1_999_999_999).nanos, 60_999_999_999);
    assert_eq!(Timestamp::from_unix(9_223_372_036, 854_775_807).nanos, i64::MAX);
    assert_eq!(Timestamp::from_unix(9_223_372_036, 854_775_808).nanos, i64::MAX);
    assert_eq!(Timestamp::from_unix(i64::MAX, u32::MAX).nanos, i64::MAX);
    assert_eq!(Timestamp::from_unix(-9_223_372_037, 145_224_192).nanos, i64::MIN);
    assert_eq!(Timestamp::from_unix(-9_223_372_037, 145_224_191).nanos, i64::MIN);
    assert_eq!(Timestamp::from_unix(-9_223_372_037, 145_224_193).nanos, i64::MIN + 1);
    assert_eq!(Timestamp::from_unix(i64::MIN, 0).nanos, i64::MIN);
    assert!(Timestamp::from_nanos(5).not_after(&Timestamp::from_nanos(5)));
    assert!(Timestamp::from_nanos(-5).not_after(&Timestamp::from_nanos(5)));
    assert!(!Timestamp::from_nanos(6).not_after(&Timestamp::from_nanos(5)));
    assert!(Timestamp::from_nanos(4) < Timestamp::from_nanos(5));
}
