//! IronScribe: a pluggable logging framework.
//!
//! Related log messages are grouped under a [`LogUnit`]; typed
//! [`LogEntry`] values are appended to a unit and can be read back by unit
//! or by the caller-supplied external identifier.

pub mod destinations;
pub mod model;
pub mod service;

pub use crate::destinations::console::ConsoleDestination;
pub use crate::destinations::mongodb::{MongoConfig, MongoDestination};
pub use crate::destinations::postgres::{PostgresConfig, PostgresDestination};
pub use crate::destinations::records::{LogEntryWrapper, LogUnitWrapper};
pub use crate::model::basic_logger::{init_default_logger, BasicLogService, LogMessage, LoggerSlot};
pub use crate::model::log_entry::{LogEntry, LogLevel, LogMessageType};
pub use crate::model::log_service::{LogError, LogResult, LogService};
pub use crate::model::log_unit::LogUnit;
pub use crate::model::timestamp::Timestamp;
pub use crate::service::default::DefaultLogService;
