use ironscribe::{init_default_logger, BasicLogService, LogMessage, LogMessageType, LoggerSlot};

#[test]
fn test_global_logger_initialization() {
    // Initialize the logger of the program
    let mut slot = LoggerSlot::new();
    let result = init_default_logger(&mut slot);
    assert!(result.is_ok());
}

#[test]
fn test_global_logging_macros() {
    let mut slot = LoggerSlot::new();
    let _ = init_default_logger(&mut slot);

    slot.info(format!("This is an info message"));
    slot.warn(format!("This is a warning message"));
    slot.error(format!("This is an error message"));

    // Verify logs were added
    let lines = slot.print_logs().unwrap();
    assert_eq!(lines.len(), 3);
    assert!(lines[0].contains("Type: Info, Message: This is an info message, Timestamp: "));
    assert!(lines[1].contains("Type: Warning, Message: This is a warning message, Timestamp: "));
    assert!(lines[2].contains("Type: Error, Message: This is an error message, Timestamp: "));
}

#[test]
fn test_formatted_global_logging() {
    let mut slot = LoggerSlot::new();
    let _ = init_default_logger(&mut slot);

    let user_id = 42;
    let username = "alice";

    slot.info(format!("User {} ({}) logged in", user_id, username));
    slot.warn(format!("User {} has {} failed login attempts", username, 3));
    slot.error(format!("Failed to authenticate user {}", user_id));

    let lines = slot.print_logs().unwrap();
    assert_eq!(lines.len(), 3);
    assert!(lines[0].contains("Message: User 42 (alice) logged in,"));
    assert!(lines[1].contains("Message: User alice has 3 failed login attempts,"));
    assert!(lines[2].contains("Message: Failed to authenticate user 42,"));
}

#[test]
fn test_with_logger_function() {
    let mut slot = LoggerSlot::new();
    let _ = init_default_logger(&mut slot);

    // Add some logs
    slot.info(format!("Test message 1"));
    slot.warn(format!("Test message 2"));

    // Access the logger for custom operations
    assert_eq!(slot.save_log(), Some("Saving logs...".to_string()));
    assert_eq!(slot.print_logs().unwrap().len(), 2);
    assert!(slot.flush_log());

    // Verify logs were flushed
    slot.info(format!("Message after flush"));

    let lines = slot.print_logs().unwrap();
    assert_eq!(lines.len(), 1);
    assert!(lines[0].contains("Message: Message after flush,"));
}

#[test]
fn test_second_initialization_is_refused() {
    let mut slot = LoggerSlot::new();
    assert!(!slot.is_initialized());
    assert_eq!(init_default_logger(&mut slot), Ok(()));
    assert!(slot.is_initialized());
    slot.info("kept".to_string());
    assert_eq!(init_default_logger(&mut slot), Err("Logger already initialized"));
    assert_eq!(slot.init_logger(BasicLogService::new()), Err("Logger already initialized"));
    assert_eq!(slot.print_logs().unwrap().len(), 1);
}

#[test]
fn test_empty_slot_drops_messages() {
    let mut slot = LoggerSlot::new();
    assert!(!slot.info("lost".to_string()));
    assert!(!slot.warn("lost".to_string()));
    assert!(!slot.error("lost".to_string()));
    assert!(!slot.add_message(LogMessage::new(LogMessageType::Success, "lost".to_string())));
    assert!(!slot.flush_log());
    assert_eq!(slot.save_log(), None);
    assert_eq!(slot.print_logs(), None);
}

#[test]
fn test_basic_log_service_lines() {
    let mut service = BasicLogService::new();
    assert!(service.logs.is_empty());
    service.add_message(LogMessage {
        id: 0xa1a2a3a4_b1b2_c1c2_d1d2_d3d4d5d6d7d8,
        log_type: LogMessageType::Success,
        message: "all good".to_string(),
        timestamp: ironscribe::Timestamp { nanos: 1_431_648_000_000_000_000 },
    });
    assert_eq!(service.logs.len(), 1);
    assert_eq!(service.save_log(), "Saving logs...");
    assert_eq!(
        service.print_logs(),
        vec![
            "Log ID: a1a2a3a4-b1b2-c1c2-d1d2-d3d4d5d6d7d8, Type: Success, Message: all good, Timestamp: 2015-05-15 00:00:00 UTC"
                .to_string()
        ]
    );
    assert_eq!(service.logs.len(), 1);
    service.flush_log();
    assert!(service.logs.is_empty());
    assert!(service.print_logs().is_empty());
}
