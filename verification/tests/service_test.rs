use ironscribe::{ConsoleDestination, DefaultLogService, LogEntry, LogService};

#[test]
fn test_console_destination() {
    let mut destination = ConsoleDestination::new();
    let unit = destination.create_log_unit("test".to_string()).unwrap();

    let entry = LogEntry::info(unit.id, "Test message".to_string());
    destination.log(entry.clone()).unwrap();

    let entries = destination.get_log_entries(unit.id).unwrap();
    assert_eq!(entries.len(), 1);
    assert_eq!(entries[0].message, "Test message");
}

#[test]
fn test_default_log_service() {
    let mut service = DefaultLogService::new();
    let unit = service.create_log_unit("test".to_string()).unwrap();

    let entry = LogEntry::info(unit.id, "Test message".to_string());
    service.log(entry).unwrap();

    let entries = service.get_log_entries(unit.id).unwrap();
    assert_eq!(entries.len(), 1);
}

#[test]
fn test_logging_macros() {
    let mut service = DefaultLogService::new();
    let unit = service.create_log_unit("test".to_string()).unwrap();

    service.log(LogEntry::info(unit.id, format!("This is an info message"))).unwrap();
    service.log(LogEntry::warning(unit.id, format!("This is a warning message"))).unwrap();
    service.log(LogEntry::error(unit.id, format!("This is an error message"))).unwrap();
    service.log(LogEntry::success(unit.id, format!("This is a success message"))).unwrap();

    let entries = service.get_log_entries(unit.id).unwrap();
    assert_eq!(entries.len(), 4);
}

#[test]
fn test_service_with_given_destination_forwards_to_it() {
    let mut console = ConsoleDestination::new();
    let unit = console.create_log_unit("given".to_string()).unwrap();
    console.log(LogEntry::info(unit.id, "before".to_string())).unwrap();

    let mut service = DefaultLogService::with_destination(console);
    service.log(LogEntry::error(unit.id, "after".to_string())).unwrap();
    let entries = service.get_log_entries(unit.id).unwrap();
    assert_eq!(entries.len(), 2);
    assert_eq!(entries[0].message, "before");
    assert_eq!(entries[1].message, "after");
    assert_eq!(service.get_log_unit(unit.id).unwrap().unwrap(), unit);
    assert_eq!(service.get_log_units_by_external_id("given").unwrap(), vec![unit.clone()]);
    assert_eq!(service.take_console_output().len(), 2);

    let console = service.into_destination();
    assert_eq!(console.get_log_entries(unit.id).unwrap().len(), 2);
}

#[test]
fn test_default_service_is_an_empty_console_service() {
    let mut service: DefaultLogService<ConsoleDestination> = Default::default();
    assert!(service.get_log_units_by_external_id("").unwrap().is_empty());
    assert!(service.take_console_output().is_empty());
    let service = DefaultLogService::new_console();
    assert!(service.get_log_entries(1).unwrap().is_empty());
}
