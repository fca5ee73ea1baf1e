//! Log destinations: where log units and messages are kept.

pub mod by_time;
pub mod console;
pub mod console_line;
pub mod dual_write;
pub mod mapping;
pub mod mongodb;
pub mod postgres;
pub mod records;

pub use console::ConsoleDestination;
pub use mongodb::MongoDestination;
pub use postgres::PostgresDestination;
