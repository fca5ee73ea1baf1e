//! The write discipline of destinations that keep their data in an external
//! store: the store is written first, and a write is mirrored to the console
//! only once the store has accepted it.

use crate::destinations::console::ConsoleDestination;
use crate::model::log_entry::{LogEntry, LogEntryView};
use crate::model::log_service::{LogError, LogErrorView, LogResult, LogService, StoreState};
use crate::model::log_unit::LogUnit;
use vstd::prelude::*;

verus! {

/// What the external store answered: the result of the operation, or the
/// text of the store's error.
pub type StoreOutcome<T> = Result<T, String>;

/// Whether a result is the backend error with the text of a store's error.
pub open spec fn is_backend_failure<T>(r: LogResult<T>, detail: String) -> bool {
    r matches Err(error) && error@ == LogErrorView::Backend(detail@)
}

/// How the creation of a unit ends once the store has answered: where the
/// store accepted the unit, the unit is returned and the mirror holds it;
/// where the store failed, the operation fails with the store's error and
/// the mirror is as it was.
pub open spec fn unit_is_mirrored(
    before: StoreState,
    after: StoreState,
    unit: LogUnit,
    outcome: StoreOutcome<()>,
    r: LogResult<LogUnit>,
) -> bool {
    match outcome {
        Ok(_) => r matches Ok(created) && created@ == unit@ && after == before.with_unit(unit@),
        Err(detail) => is_backend_failure(r, detail) && after == before,
    }
}

/// How the logging of a message ends once the store has answered: where
/// the store accepted the message, the mirror holds the message and its
/// console line; where the store failed, the operation fails with the
/// store's error and nothing is mirrored.
pub open spec fn entry_is_mirrored(
    before: StoreState,
    after: StoreState,
    entry: LogEntryView,
    outcome: StoreOutcome<()>,
    r: LogResult<()>,
) -> bool {
    match outcome {
        Ok(_) => r is Ok && after == before.with_entry(entry),
        Err(detail) => is_backend_failure(r, detail) && after == before,
    }
}

/// Turns the store's answer into the result of a destination's operation: a
/// failure of the store is a backend error with the store's text.
pub fn store_result<T>(outcome: StoreOutcome<T>) -> (r: LogResult<T>)
    ensures
        match outcome {
            Ok(value) => r == Ok::<T, LogError>(value),
            Err(detail) => is_backend_failure(r, detail),
        },
{
    match outcome {
        Ok(value) => Ok(value),
        Err(detail) => Err(LogError::Backend(detail)),
    }
}

/// Completes the creation of a unit once the store has answered. Where the
/// store accepted the unit, the unit is mirrored and returned. Where the
/// store failed, the operation fails with the store's error and the mirror
/// stays as it was.
pub fn mirror_unit(
    console: &mut ConsoleDestination,
    unit: LogUnit,
    outcome: StoreOutcome<()>,
) -> (r: LogResult<LogUnit>)
    ensures
        unit_is_mirrored(old(console).state(), final(console).state(), unit, outcome, r),
{
    match outcome {
        Ok(_) => {
            console.insert_unit(unit.clone());
            Ok(unit)
        },
        Err(detail) => Err(LogError::Backend(detail)),
    }
}

/// Completes the logging of a message once the store has answered. Where
/// the store accepted the message, the message is mirrored: kept by the
/// mirror and written as a console line. Where the store failed, the
/// operation fails with the store's error and nothing is mirrored.
pub fn mirror_entry(
    console: &mut ConsoleDestination,
    entry: LogEntry,
    outcome: StoreOutcome<()>,
) -> (r: LogResult<()>)
    ensures
        entry_is_mirrored(old(console).state(), final(console).state(), entry@, outcome, r),
{
    match outcome {
        Ok(_) => console.log(entry),
        Err(detail) => Err(LogError::Backend(detail)),
    }
}

} // verus!
