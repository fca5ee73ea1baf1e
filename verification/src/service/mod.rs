//! The default log service.

pub mod default;

pub use default::DefaultLogService;
