use ironscribe::model::ident::new_id;
use ironscribe::{ConsoleDestination, DefaultLogService, LogEntry, LogLevel, LogMessageType, LogService};
use std::sync::{Arc, Mutex};

#[test]
fn test_console_destination_basic_functionality() {
    let mut console = ConsoleDestination::new();

    // Test creating a log unit (using the trait method)
    let unit = LogService::create_log_unit(&mut console, "integration-test".to_string()).unwrap();

    assert_eq!(unit.external_id, "integration-test");
    assert!(unit.id != 0);

    // Test retrieving the created log unit
    let retrieved_unit = LogService::get_log_unit(&console, unit.id).unwrap();
    assert!(retrieved_unit.is_some());
    assert_eq!(retrieved_unit.unwrap().external_id, "integration-test");
}

#[test]
fn test_console_logging_all_message_types() {
    let mut console = ConsoleDestination::new();
    let unit = LogService::create_log_unit(&mut console, "message-types-test".to_string()).unwrap();

    // Test all message types
    let error_entry = LogEntry::error(unit.id, "This is an error message".to_string());
    let warning_entry = LogEntry::warning(unit.id, "This is a warning message".to_string());
    let info_entry = LogEntry::info(unit.id, "This is an info message".to_string());
    let success_entry = LogEntry::success(unit.id, "This is a success message".to_string());

    // Log all entries
    LogService::log(&mut console, error_entry.clone()).unwrap();
    LogService::log(&mut console, warning_entry.clone()).unwrap();
    LogService::log(&mut console, info_entry.clone()).unwrap();
    LogService::log(&mut console, success_entry.clone()).unwrap();

    // Retrieve and verify all entries
    let entries = LogService::get_log_entries(&console, unit.id).unwrap();
    assert_eq!(entries.len(), 4);

    // Verify message types and content
    assert_eq!(entries[0].message_type, LogMessageType::Error);
    assert_eq!(entries[0].message, "This is an error message");
    assert_eq!(entries[1].message_type, LogMessageType::Warning);
    assert_eq!(entries[1].message, "This is a warning message");
    assert_eq!(entries[2].message_type, LogMessageType::Info);
    assert_eq!(entries[2].message, "This is an info message");
    assert_eq!(entries[3].message_type, LogMessageType::Success);
    assert_eq!(entries[3].message, "This is a success message");
}

#[test]
fn test_console_log_levels_ordering() {
    let mut console = ConsoleDestination::new();
    let unit = LogService::create_log_unit(&mut console, "log-levels-test".to_string()).unwrap();

    // Create entries with different levels
    let error_entry = LogEntry::error(unit.id, "Error".to_string());
    let warning_entry = LogEntry::warning(unit.id, "Warning".to_string());
    let info_entry = LogEntry::info(unit.id, "Info".to_string());
    let success_entry = LogEntry::success(unit.id, "Success".to_string());

    // Verify log level ordering
    assert!(error_entry.level < warning_entry.level);
    assert!(warning_entry.level < info_entry.level);
    assert!(info_entry.level < success_entry.level);

    assert_eq!(error_entry.level, LogLevel::Error);
    assert_eq!(warning_entry.level, LogLevel::Warning);
    assert_eq!(info_entry.level, LogLevel::Info);
    assert_eq!(success_entry.level, LogLevel::Success);
}

#[test]
fn test_console_multiple_log_units() {
    let mut console = ConsoleDestination::new();

    // Create multiple log units
    let unit1 = LogService::create_log_unit(&mut console, "unit-1".to_string()).unwrap();
    let unit2 = LogService::create_log_unit(&mut console, "unit-2".to_string()).unwrap();
    let unit3 = LogService::create_log_unit(&mut console, "unit-1".to_string()).unwrap(); // Same external_id as unit1

    // Log entries to different units
    LogService::log(&mut console, LogEntry::info(unit1.id, "Message for unit 1".to_string()))
        .unwrap();
    LogService::log(&mut console, LogEntry::error(unit2.id, "Error for unit 2".to_string()))
        .unwrap();
    LogService::log(&mut console, LogEntry::success(unit3.id, "Success for unit 3".to_string()))
        .unwrap();

    // Verify entries are stored separately
    let entries1 = LogService::get_log_entries(&console, unit1.id).unwrap();
    let entries2 = LogService::get_log_entries(&console, unit2.id).unwrap();
    let entries3 = LogService::get_log_entries(&console, unit3.id).unwrap();

    assert_eq!(entries1.len(), 1);
    assert_eq!(entries2.len(), 1);
    assert_eq!(entries3.len(), 1);

    // Test retrieving by external_id
    let units_by_external_id =
        LogService::get_log_units_by_external_id(&console, "unit-1").unwrap();
    assert_eq!(units_by_external_id.len(), 2); // unit1 and unit3
}

#[test]
fn test_default_log_service_with_console() {
    let mut service = DefaultLogService::new();

    // Create log unit using the service
    let unit = LogService::create_log_unit(&mut service, "default-service-test".to_string())
        .unwrap();

    // Log various messages
    LogService::log(&mut service, LogEntry::info(unit.id, "Service info message".to_string()))
        .unwrap();
    LogService::log(
        &mut service,
        LogEntry::warning(unit.id, "Service warning message".to_string()),
    )
    .unwrap();
    LogService::log(&mut service, LogEntry::error(unit.id, "Service error message".to_string()))
        .unwrap();
    LogService::log(
        &mut service,
        LogEntry::success(unit.id, "Service success message".to_string()),
    )
    .unwrap();

    // Retrieve and verify
    let entries = LogService::get_log_entries(&service, unit.id).unwrap();
    assert_eq!(entries.len(), 4);

    // Verify the service maintains the correct order
    assert_eq!(entries[0].message, "Service info message");
    assert_eq!(entries[1].message, "Service warning message");
    assert_eq!(entries[2].message, "Service error message");
    assert_eq!(entries[3].message, "Service success message");
}

#[test]
fn test_logging_macros_integration() {
    let mut service = DefaultLogService::new();
    let unit = service.create_log_unit("macro-test".to_string()).unwrap();

    // Test all logging forms
    service.log(LogEntry::info(unit.id, format!("Info message from macro"))).unwrap();

    service.log(LogEntry::warning(unit.id, format!("Warning message from macro"))).unwrap();
    service.log(LogEntry::error(unit.id, format!("Error message from macro"))).unwrap();
    service.log(LogEntry::success(unit.id, format!("Success message from macro"))).unwrap();

    // Test formatted messages
    let count = 42;
    service
        .log(LogEntry::info(unit.id, format!("Formatted message with count: {}", count)))
        .unwrap();

    // Verify all entries
    let entries = LogService::get_log_entries(&service, unit.id).unwrap();
    assert_eq!(entries.len(), 5);

    assert_eq!(entries[0].message, "Info message from macro");
    assert_eq!(entries[1].message, "Warning message from macro");
    assert_eq!(entries[2].message, "Error message from macro");
    assert_eq!(entries[3].message, "Success message from macro");
    assert_eq!(entries[4].message, "Formatted message with count: 42");
}

#[test]
fn test_console_concurrent_logging() {
    let console = Arc::new(Mutex::new(ConsoleDestination::new()));
    let unit = console.lock().unwrap().create_log_unit("concurrent-test".to_string()).unwrap();
    let runtime = tokio::runtime::Builder::new_multi_thread().worker_threads(4).build().unwrap();

    // Create multiple concurrent logging tasks
    let mut handles = vec![];

    for i in 0..10 {
        let console_clone = Arc::clone(&console);
        let unit_id = unit.id;

        let handle = runtime.spawn(async move {
            let entry = LogEntry::info(unit_id, format!("Concurrent message {}", i));
            console_clone.lock().unwrap().log(entry).unwrap();
        });
        handles.push(handle);
    }

    // Wait for all tasks to complete
    for handle in handles {
        runtime.block_on(handle).unwrap();
    }

    // Verify all messages were logged
    let entries = console.lock().unwrap().get_log_entries(unit.id).unwrap();
    assert_eq!(entries.len(), 10);

    // Verify all messages are present (order may vary due to concurrency)
    let messages: std::collections::HashSet<String> =
        entries.iter().map(|e| e.message.clone()).collect();

    for i in 0..10 {
        assert!(messages.contains(&format!("Concurrent message {}", i)));
    }
}

#[test]
fn test_console_log_unit_timestamps() {
    let mut console = ConsoleDestination::new();
    let runtime = tokio::runtime::Builder::new_current_thread().enable_time().build().unwrap();

    let unit1 = LogService::create_log_unit(&mut console, "timestamp-test-1".to_string()).unwrap();

    // Small delay to ensure different timestamps
    runtime.block_on(async { tokio::time::sleep(tokio::time::Duration::from_millis(10)).await });

    let unit2 = LogService::create_log_unit(&mut console, "timestamp-test-2".to_string()).unwrap();

    // Verify timestamps are different and in order
    assert!(unit1.timestamp < unit2.timestamp);

    // Log entries and verify their timestamps
    let entry1 = LogEntry::info(unit1.id, "First message".to_string());
    let entry2 = LogEntry::info(unit2.id, "Second message".to_string());

    LogService::log(&mut console, entry1.clone()).unwrap();

    runtime.block_on(async { tokio::time::sleep(tokio::time::Duration::from_millis(10)).await });

    LogService::log(&mut console, entry2.clone()).unwrap();

    // Retrieve entries and verify timestamps
    let entries1 = LogService::get_log_entries(&console, unit1.id).unwrap();
    let entries2 = LogService::get_log_entries(&console, unit2.id).unwrap();

    assert_eq!(entries1.len(), 1);
    assert_eq!(entries2.len(), 1);

    // Entry timestamps should be after their respective unit timestamps
    assert!(entries1[0].timestamp >= unit1.timestamp);
    assert!(entries2[0].timestamp >= unit2.timestamp);
}

#[test]
fn test_console_empty_log_units() {
    let mut console = ConsoleDestination::new();
    let unit = LogService::create_log_unit(&mut console, "empty-test".to_string()).unwrap();

    // Test retrieving entries from empty log unit
    let entries = LogService::get_log_entries(&console, unit.id).unwrap();
    assert_eq!(entries.len(), 0);

    // Test retrieving non-existent log unit
    let non_existent_id = new_id();
    let non_existent_unit = LogService::get_log_unit(&console, non_existent_id).unwrap();
    assert!(non_existent_unit.is_none());

    // Test retrieving entries for non-existent log unit
    let non_existent_entries = LogService::get_log_entries(&console, non_existent_id).unwrap();
    assert_eq!(non_existent_entries.len(), 0);
}

#[test]
fn test_console_log_entry_structure() {
    let mut console = ConsoleDestination::new();
    let unit = LogService::create_log_unit(&mut console, "structure-test".to_string()).unwrap();

    let message = "Test message structure";
    let entry = LogEntry::info(unit.id, message.to_string());

    // Verify entry structure before logging
    assert_eq!(entry.log_unit_id, unit.id);
    assert!(entry.message_id != 0);
    assert_eq!(entry.level, LogLevel::Info);
    assert_eq!(entry.message, message);
    assert_eq!(entry.message_type, LogMessageType::Info);

    LogService::log(&mut console, entry.clone()).unwrap();

    // Retrieve and verify structure is preserved
    let entries = LogService::get_log_entries(&console, unit.id).unwrap();
    let retrieved_entry = &entries[0];

    assert_eq!(retrieved_entry.log_unit_id, entry.log_unit_id);
    assert_eq!(retrieved_entry.message_id, entry.message_id);
    assert_eq!(retrieved_entry.level, entry.level);
    assert_eq!(retrieved_entry.message, entry.message);
    assert_eq!(retrieved_entry.message_type, entry.message_type);
    assert_eq!(retrieved_entry.timestamp, entry.timestamp);
}

#[test]
fn test_console_destination_direct_usage() {
    // Test using ConsoleDestination as a trait object
    let mut console: Box<dyn LogService> = Box::new(ConsoleDestination::new());

    let unit = console.create_log_unit("trait-object-test".to_string()).unwrap();
    console.log(LogEntry::info(unit.id, "Message via trait object".to_string())).unwrap();

    let entries = console.get_log_entries(unit.id).unwrap();
    assert_eq!(entries.len(), 1);
    assert_eq!(entries[0].message, "Message via trait object");
}
