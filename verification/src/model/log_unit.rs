//! Log units: named groups of related log messages.

use crate::model::ident::{id_to_string, is_random_id, new_id, uuid_text};
use crate::model::timestamp::Timestamp;
use vstd::prelude::*;
use vstd::std_specs::cmp::PartialEqSpecImpl;

verus! {

/// A log unit groups related log messages.
#[derive(Debug)]
pub struct LogUnit {
    /// Unique identifier of the unit.
    pub id: u128,
    /// Identifier supplied by the caller; several units may share one.
    pub external_id: String,
    /// When the unit was created.
    pub timestamp: Timestamp,
}

/// The mathematical value of a [`LogUnit`].
pub struct LogUnitView {
    pub id: u128,
    pub external_id: Seq<char>,
    pub timestamp: Timestamp,
}

impl View for LogUnit {
    type V = LogUnitView;

    open spec fn view(&self) -> LogUnitView {
        LogUnitView { id: self.id, external_id: self.external_id@, timestamp: self.timestamp }
    }
}

impl Clone for LogUnit {
    fn clone(&self) -> (copy: LogUnit)
        ensures
            copy@ == self@,
    {
        LogUnit {
            id: self.id,
            external_id: self.external_id.clone(),
            timestamp: self.timestamp,
        }
    }
}

impl PartialEqSpecImpl for LogUnit {
    open spec fn obeys_eq_spec() -> bool {
        true
    }

    open spec fn eq_spec(&self, other: &LogUnit) -> bool {
        self@ == other@
    }
}

impl PartialEq for LogUnit {
    fn eq(&self, other: &LogUnit) -> (equal: bool) {
        self.id == other.id && self.external_id == other.external_id && self.timestamp
            == other.timestamp
    }
}

impl LogUnit {
    /// Creates a log unit with the given external identifier, a fresh random
    /// identifier and the current time.
    pub fn new(external_id: String) -> (unit: LogUnit)
        ensures
            unit.external_id@ == external_id@,
            is_random_id(unit.id),
            unit.id != 0,
    {
        LogUnit { id: new_id(), external_id, timestamp: Timestamp::now() }
    }

    /// Creates a log unit that is its own correlation key: its external
    /// identifier is the canonical text of its fresh identifier.
    pub fn new_with_generated_id() -> (unit: LogUnit)
        ensures
            unit.external_id@ == uuid_text(unit.id),
            unit.external_id@.len() == 36,
            is_random_id(unit.id),
            unit.id != 0,
    {
        let id: u128 = new_id();
        LogUnit { id, external_id: id_to_string(id), timestamp: Timestamp::now() }
    }
}

} // verus!
