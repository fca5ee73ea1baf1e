//! Core types of the logging framework.

pub mod basic_logger;
pub mod ident;
pub mod log_entry;
pub mod log_service;
pub mod log_unit;
pub mod text;
pub mod timestamp;

pub use basic_logger::{init_default_logger, BasicLogService, LogMessage, LoggerSlot};
pub use log_entry::{LogEntry, LogLevel, LogMessageType};
pub use log_service::LogService;
pub use log_unit::LogUnit;
pub use timestamp::Timestamp;
