use ironscribe::destinations::console::{clone_entries, UnitTable};
use ironscribe::model::ident::new_id;
use ironscribe::{
    ConsoleDestination, DefaultLogService, LogEntry, LogLevel, LogMessageType, LogService, LogUnit,
    Timestamp,
};

#[test]
fn test_end_to_end_session() {
    let mut console = ConsoleDestination::new();
    let unit = console.create_log_unit("session-1".to_string()).unwrap();
    console.log(LogEntry::info(unit.id, "start".to_string())).unwrap();
    console.log(LogEntry::error(unit.id, "boom".to_string())).unwrap();

    let entries = console.get_log_entries(unit.id).unwrap();
    let messages: Vec<&str> = entries.iter().map(|e| e.message.as_str()).collect();
    assert_eq!(messages, vec!["start", "boom"]);
    assert_eq!(entries[0].message_type, LogMessageType::Info);
    assert_eq!(entries[1].message_type, LogMessageType::Error);
    assert_eq!(entries[0].level.rank(), 2);
    assert_eq!(entries[1].level.rank(), 0);
}

#[test]
fn test_units_by_external_id_returns_exactly_the_matching_units() {
    let mut console = ConsoleDestination::new();
    let u1 = console.create_log_unit("u".to_string()).unwrap();
    let u2 = console.create_log_unit("u".to_string()).unwrap();
    let v = console.create_log_unit("v".to_string()).unwrap();

    let mut found = console.get_log_units_by_external_id("u").unwrap();
    found.sort_by_key(|unit| unit.id);
    let mut expected = vec![u1.clone(), u2.clone()];
    expected.sort_by_key(|unit| unit.id);
    assert_eq!(found, expected);
    assert!(!found.contains(&v));

    assert_eq!(console.get_log_units_by_external_id("v").unwrap(), vec![v]);
    assert!(console.get_log_units_by_external_id("w").unwrap().is_empty());
    assert!(console.get_log_units_by_external_id("").unwrap().is_empty());
    assert!(console.get_log_units_by_external_id("U").unwrap().is_empty());
    assert!(console.get_log_units_by_external_id("u ").unwrap().is_empty());
}

#[test]
fn test_reading_twice_gives_the_same_sequence() {
    let mut console = ConsoleDestination::new();
    let unit = console.create_log_unit("twice".to_string()).unwrap();
    for i in 0..5 {
        console.log(LogEntry::warning(unit.id, format!("message {}", i))).unwrap();
    }
    let first = console.get_log_entries(unit.id).unwrap();
    let second = console.get_log_entries(unit.id).unwrap();
    assert_eq!(first, second);
    assert_eq!(first.len(), 5);
    assert_eq!(console.get_log_unit(unit.id).unwrap(), console.get_log_unit(unit.id).unwrap());
}

#[test]
fn test_unknown_unit_is_empty_and_not_found() {
    let mut console = ConsoleDestination::new();
    let unknown = new_id();
    assert_eq!(console.get_log_entries(unknown).unwrap(), vec![]);
    assert_eq!(console.get_log_unit(unknown).unwrap(), None);

    let unit = console.create_log_unit("known".to_string()).unwrap();
    console.log(LogEntry::info(unit.id, "x".to_string())).unwrap();
    assert_eq!(console.get_log_entries(unknown).unwrap(), vec![]);
    assert_eq!(console.get_log_unit(unknown).unwrap(), None);
    assert_eq!(console.get_log_entries(0).unwrap(), vec![]);
    assert_eq!(console.get_log_unit(0).unwrap(), None);
}

#[test]
fn test_log_before_create_is_accepted() {
    let mut console = ConsoleDestination::new();
    let unit_id = new_id();
    let entry = LogEntry::success(unit_id, "early".to_string());
    console.log(entry.clone()).unwrap();
    assert_eq!(console.get_log_entries(unit_id).unwrap(), vec![entry]);
    // the unit itself is still not known
    assert_eq!(console.get_log_unit(unit_id).unwrap(), None);
}

#[test]
fn test_insert_unit_replaces_and_resets() {
    let mut console = ConsoleDestination::new();
    let unit = LogUnit { id: 42, external_id: "first".to_string(), timestamp: Timestamp { nanos: 1 } };
    console.insert_unit(unit.clone());
    console.log(LogEntry::info(42, "kept until replaced".to_string())).unwrap();
    assert_eq!(console.get_log_entries(42).unwrap().len(), 1);

    let again = LogUnit { id: 42, external_id: "second".to_string(), timestamp: Timestamp { nanos: 2 } };
    console.insert_unit(again.clone());
    assert_eq!(console.get_log_unit(42).unwrap(), Some(again.clone()));
    assert!(console.get_log_entries(42).unwrap().is_empty());
    assert!(console.get_log_units_by_external_id("first").unwrap().is_empty());
    assert_eq!(console.get_log_units_by_external_id("second").unwrap(), vec![again]);
}

#[test]
fn test_logged_messages_are_neither_lost_nor_doubled() {
    let mut console = ConsoleDestination::new();
    let unit = console.create_log_unit("many".to_string()).unwrap();
    let other = console.create_log_unit("other".to_string()).unwrap();
    let entries: Vec<LogEntry> =
        (0..50).map(|i| LogEntry::info(unit.id, format!("payload {}", i))).collect();
    for (i, entry) in entries.iter().enumerate() {
        console.log(entry.clone()).unwrap();
        if i % 7 == 0 {
            console.log(LogEntry::error(other.id, "elsewhere".to_string())).unwrap();
        }
    }
    assert_eq!(console.get_log_entries(unit.id).unwrap(), entries);
    assert_eq!(console.get_log_entries(other.id).unwrap().len(), 8);
}

#[test]
fn test_unit_table() {
    let mut table = UnitTable::new();
    assert_eq!(table.get(1), None);
    assert!(table.with_external_id("a").is_empty());
    let a = LogUnit { id: 1, external_id: "a".to_string(), timestamp: Timestamp { nanos: 10 } };
    let b = LogUnit { id: 2, external_id: "b".to_string(), timestamp: Timestamp { nanos: 20 } };
    let a2 = LogUnit { id: 3, external_id: "a".to_string(), timestamp: Timestamp { nanos: 30 } };
    table.insert(a.clone());
    table.insert(b.clone());
    table.insert(a2.clone());
    assert_eq!(table.get(1), Some(a.clone()));
    assert_eq!(table.get(2), Some(b.clone()));
    assert_eq!(table.get(4), None);
    let mut found = table.with_external_id("a");
    found.sort_by_key(|u| u.id);
    assert_eq!(found, vec![a, a2]);
    assert_eq!(table.with_external_id("b"), vec![b]);
}

#[test]
fn test_clone_entries_copies_every_field() {
    let entries = vec![
        LogEntry::info(1, "one".to_string()),
        LogEntry::error(2, "two".to_string()),
        LogEntry {
            log_unit_id: 3,
            message_id: 4,
            level: LogLevel::Success,
            message: "three".to_string(),
            message_type: LogMessageType::Success,
            timestamp: Timestamp { nanos: -9 },
        },
    ];
    assert_eq!(clone_entries(&entries), entries);
    assert!(clone_entries(&Vec::new()).is_empty());
}

#[test]
fn test_facade_and_destination_agree() {
    let mut console = ConsoleDestination::new();
    let mut service = DefaultLogService::new();
    let unit = LogUnit { id: 5, external_id: "same".to_string(), timestamp: Timestamp { nanos: 0 } };
    console.insert_unit(unit.clone());
    let entry = LogEntry::info(5, "both".to_string());
    console.log(entry.clone()).unwrap();
    service.log(entry.clone()).unwrap();
    assert_eq!(
        console.get_log_entries(5).unwrap(),
        service.get_log_entries(5).unwrap()
    );
    assert_eq!(console.take_console_output(), service.take_console_output());
}
