//! The default log service: a front for one chosen destination.

use crate::destinations::console::ConsoleDestination;
use crate::model::log_entry::LogEntry;
use crate::model::log_service::{LogResult, LogService, StoreState};
use crate::model::log_unit::LogUnit;
use vstd::prelude::*;

verus! {

/// Default log service: holds one destination and hands every call on to
/// it unchanged.
pub struct DefaultLogService<D: LogService> {
    destination: D,
}

impl DefaultLogService<ConsoleDestination> {
    /// Creates a log service with a new console destination.
    pub fn new_console() -> (service: DefaultLogService<ConsoleDestination>)
        ensures
            service.state() == StoreState::empty(),
            service.never_fails(),
    {
        DefaultLogService { destination: ConsoleDestination::new() }
    }

    /// Creates a log service with the default destination, the console.
    pub fn new() -> (service: DefaultLogService<ConsoleDestination>)
        ensures
            service.state() == StoreState::empty(),
            service.never_fails(),
    {
        DefaultLogService::new_console()
    }
}

impl<D: LogService> DefaultLogService<D> {
    /// Creates a log service with the given destination.
    pub fn with_destination(destination: D) -> (service: DefaultLogService<D>)
        ensures
            service.state() == destination.state(),
            service.never_fails() == destination.never_fails(),
            service.spec_destination() == destination,
    {
        DefaultLogService { destination }
    }

    /// The destination that the service holds.
    pub closed spec fn spec_destination(&self) -> D {
        self.destination
    }

    /// The destination that the service holds.
    pub fn into_destination(self) -> (destination: D)
        ensures
            destination == self.spec_destination(),
            destination.state() == self.state(),
            destination.never_fails() == self.never_fails(),
    {
        self.destination
    }
}

impl Default for DefaultLogService<ConsoleDestination> {
    fn default() -> (service: DefaultLogService<ConsoleDestination>)
        ensures
            service.state() == StoreState::empty(),
            service.never_fails(),
    {
        DefaultLogService::new()
    }
}

impl<D: LogService> LogService for DefaultLogService<D> {
    closed spec fn state(&self) -> StoreState {
        self.destination.state()
    }

    closed spec fn never_fails(&self) -> bool {
        self.destination.never_fails()
    }

    fn create_log_unit(&mut self, external_id: String) -> (r: LogResult<LogUnit>) {
        self.destination.create_log_unit(external_id)
    }

    fn log(&mut self, entry: LogEntry) -> (r: LogResult<()>) {
        self.destination.log(entry)
    }

    fn get_log_entries(&self, log_unit_id: u128) -> (r: LogResult<Vec<LogEntry>>) {
        self.destination.get_log_entries(log_unit_id)
    }

    fn get_log_unit(&self, log_unit_id: u128) -> (r: LogResult<Option<LogUnit>>) {
        self.destination.get_log_unit(log_unit_id)
    }

    fn get_log_units_by_external_id(&self, external_id: &str) -> (r: LogResult<Vec<LogUnit>>) {
        self.destination.get_log_units_by_external_id(external_id)
    }

    fn take_console_output(&mut self) -> (lines: Vec<String>) {
        self.destination.take_console_output()
    }
}

} // verus!
