//! The document destination: the console mirror and the rules of a
//! destination that keeps log units and messages in a document store.

use crate::destinations::console::ConsoleDestination;
use crate::destinations::dual_write::{
    is_backend_failure, mirror_entry, mirror_unit, unit_is_mirrored, StoreOutcome,
};
use crate::destinations::records::{
    entries_from_documents, entry_of_wrapper, is_result_of_entries, is_result_of_unit,
    is_result_of_units, unit_from_document, unit_of_wrapper, units_from_documents,
    wrapper_of_unit, LogEntryWrapperView,
};
use crate::model::log_entry::LogEntry;
use crate::model::log_service::{
    text_views, LogError, LogErrorView, LogResult, LogService, StoreState,
};
use crate::model::log_unit::{LogUnit, LogUnitView};
use vstd::prelude::*;
use vstd::string::StringExecFns;

pub use crate::destinations::records::{LogEntryWrapper, LogUnitWrapper};

verus! {

/// Where the document store is found and how its collections are named.
#[derive(Debug)]
pub struct MongoConfig {
    pub connection_string: String,
    pub database_name: String,
    pub log_units_collection: String,
    pub log_entries_collection: String,
}

impl Clone for MongoConfig {
    fn clone(&self) -> (copy: MongoConfig)
        ensures
            copy.connection_string@ == self.connection_string@,
            copy.database_name@ == self.database_name@,
            copy.log_units_collection@ == self.log_units_collection@,
            copy.log_entries_collection@ == self.log_entries_collection@,
    {
        MongoConfig {
            connection_string: self.connection_string.clone(),
            database_name: self.database_name.clone(),
            log_units_collection: self.log_units_collection.clone(),
            log_entries_collection: self.log_entries_collection.clone(),
        }
    }
}

impl Default for MongoConfig {
    fn default() -> (config: MongoConfig)
        ensures
            config.connection_string@ == "mongodb://localhost:27017"@,
            config.database_name@ == "ironscribe"@,
            config.log_units_collection@ == "log_units"@,
            config.log_entries_collection@ == "log_entries"@,
    {
        MongoConfig {
            connection_string: String::from_str("mongodb://localhost:27017"),
            database_name: String::from_str("ironscribe"),
            log_units_collection: String::from_str("log_units"),
            log_entries_collection: String::from_str("log_entries"),
        }
    }
}

/// How the logging of a message ends once the store has answered to the
/// write of the message's document. Where the store failed, the operation
/// fails with the store's error. Where the store accepted the document,
/// the message that the document is read as is mirrored; a document that
/// cannot be read fails the operation. Nothing is mirrored where the
/// operation fails.
pub open spec fn document_is_mirrored(
    before: StoreState,
    after: StoreState,
    wrapper: LogEntryWrapperView,
    outcome: StoreOutcome<()>,
    r: LogResult<()>,
) -> bool {
    match outcome {
        Ok(_) => match entry_of_wrapper(wrapper) {
            Ok(entry) => r is Ok && after == before.with_entry(entry),
            Err(error) => r matches Err(e) && e@ == error && after == before,
        },
        Err(detail) => is_backend_failure(r, detail) && after == before,
    }
}

/// The document destination: its configuration and its console mirror. The
/// store itself is driven by the caller, which hands each answer of the
/// store to the method that completes the operation.
pub struct MongoDestination {
    config: MongoConfig,
    console: ConsoleDestination,
}

impl MongoDestination {
    /// The state of the console mirror.
    pub closed spec fn mirror(&self) -> StoreState {
        self.console.state()
    }

    /// The configuration the destination was made with.
    pub closed spec fn spec_config(&self) -> MongoConfig {
        self.config
    }

    /// A destination for the given configuration, with an empty mirror.
    pub fn new(config: MongoConfig) -> (destination: MongoDestination)
        ensures
            destination.mirror() == StoreState::empty(),
            destination.spec_config() == config,
    {
        MongoDestination { config, console: ConsoleDestination::new() }
    }

    /// A destination for the default configuration.
    pub fn with_default_config() -> (destination: MongoDestination)
        ensures
            destination.mirror() == StoreState::empty(),
            destination.spec_config().connection_string@ == "mongodb://localhost:27017"@,
            destination.spec_config().database_name@ == "ironscribe"@,
            destination.spec_config().log_units_collection@ == "log_units"@,
            destination.spec_config().log_entries_collection@ == "log_entries"@,
    {
        MongoDestination::new(MongoConfig::default())
    }

    /// The configuration the destination was made with.
    pub fn config(&self) -> (config: &MongoConfig)
        ensures
            *config == self.spec_config(),
    {
        &self.config
    }

    /// First step of creating a unit: the new unit and the document that
    /// the caller writes to the store before it calls `unit_stored`.
    pub fn prepare_unit(external_id: String) -> (r: (LogUnit, LogUnitWrapper))
        ensures
            r.0.external_id@ == external_id@,
            r.0.id != 0,
            r.1@ == wrapper_of_unit(r.0@),
            unit_of_wrapper(r.1@) == Ok::<LogUnitView, LogErrorView>(r.0@),
    {
        let unit = LogUnit::new(external_id);
        let wrapper = LogUnitWrapper::from(unit.clone());
        (unit, wrapper)
    }

    /// Last step of creating a unit, with the store's answer to the write
    /// of the unit's document.
    pub fn unit_stored(&mut self, unit: LogUnit, outcome: StoreOutcome<()>) -> (r: LogResult<
        LogUnit,
    >)
        ensures
            final(self).spec_config() == old(self).spec_config(),
            unit_is_mirrored(old(self).mirror(), final(self).mirror(), unit, outcome, r),
    {
        mirror_unit(&mut self.console, unit, outcome)
    }

    /// Last step of logging a message, with the document that was written
    /// and the store's answer to the write. What is mirrored is the message
    /// that the document is read as.
    pub fn entry_stored(&mut self, wrapper: LogEntryWrapper, outcome: StoreOutcome<()>) -> (r:
        LogResult<()>)
        ensures
            final(self).spec_config() == old(self).spec_config(),
            document_is_mirrored(old(self).mirror(), final(self).mirror(), wrapper@, outcome, r),
    {
        match outcome {
            Ok(_) => match wrapper.into_entry() {
                Ok(entry) => mirror_entry(&mut self.console, entry, Ok(())),
                Err(error) => Err(error),
            },
            Err(detail) => Err(LogError::Backend(detail)),
        }
    }

    /// The messages of a unit, from the store's answer to the query for the
    /// unit's documents, arranged by the time of their creation.
    pub fn entries_found(outcome: StoreOutcome<Vec<LogEntryWrapper>>) -> (r: LogResult<
        Vec<LogEntry>,
    >)
        ensures
            is_result_of_entries(r, outcome),
    {
        entries_from_documents(outcome)
    }

    /// The unit with a given identifier, from the store's answer to the
    /// query for its document.
    pub fn unit_found(outcome: StoreOutcome<Option<LogUnitWrapper>>) -> (r: LogResult<
        Option<LogUnit>,
    >)
        ensures
            is_result_of_unit(r, outcome),
    {
        unit_from_document(outcome)
    }

    /// The units with a given external identifier, from the store's answer
    /// to the query for their documents.
    pub fn units_found(outcome: StoreOutcome<Vec<LogUnitWrapper>>) -> (r: LogResult<Vec<LogUnit>>)
        ensures
            is_result_of_units(r, outcome),
    {
        units_from_documents(outcome)
    }

    /// Takes the console lines that were mirrored since they were last
    /// taken, oldest first.
    pub fn take_console_output(&mut self) -> (lines: Vec<String>)
        ensures
            text_views(lines@) == old(self).mirror().console,
            final(self).mirror() == old(self).mirror().without_console(),
            final(self).spec_config() == old(self).spec_config(),
    {
        self.console.take_console_output()
    }
}

} // verus!
