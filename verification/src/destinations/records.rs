//! The documents that log units and messages are stored as, with their
//! identifiers as texts.

use crate::destinations::by_time::{is_sorted_by_time, sort_by_timestamp};
use crate::destinations::dual_write::{is_backend_failure, StoreOutcome};
use crate::destinations::mapping::{collect, lemma_collect_failure_stays, lemma_collect_next};
use crate::model::ident::{id_to_string, parse_id, uuid_parse, uuid_text};
use crate::model::log_entry::{level_of, LogEntry, LogEntryView, LogLevel, LogMessageType};
use crate::model::log_service::{
    entry_views, result_view, unit_views, LogError, LogErrorView, LogResult,
};
use crate::model::log_unit::{LogUnit, LogUnitView};
use crate::model::timestamp::Timestamp;
use vstd::prelude::*;

verus! {

/// The document of a log message: the message with its identifiers as
/// texts.
#[derive(Debug)]
pub struct LogEntryWrapper {
    pub message_id: String,
    pub log_unit_id: String,
    pub message: String,
    pub message_type: LogMessageType,
    /// The stored level of the message; written, never trusted when read.
    pub level: LogLevel,
    pub timestamp: Timestamp,
}

/// The mathematical value of a [`LogEntryWrapper`].
pub struct LogEntryWrapperView {
    pub message_id: Seq<char>,
    pub log_unit_id: Seq<char>,
    pub message: Seq<char>,
    pub message_type: LogMessageType,
    pub level: LogLevel,
    pub timestamp: Timestamp,
}

impl View for LogEntryWrapper {
    type V = LogEntryWrapperView;

    open spec fn view(&self) -> LogEntryWrapperView {
        LogEntryWrapperView {
            message_id: self.message_id@,
            log_unit_id: self.log_unit_id@,
            message: self.message@,
            message_type: self.message_type,
            level: self.level,
            timestamp: self.timestamp,
        }
    }
}

impl Clone for LogEntryWrapper {
    fn clone(&self) -> (copy: LogEntryWrapper)
        ensures
            copy@ == self@,
    {
        LogEntryWrapper {
            message_id: self.message_id.clone(),
            log_unit_id: self.log_unit_id.clone(),
            message: self.message.clone(),
            message_type: self.message_type,
            level: self.level,
            timestamp: self.timestamp,
        }
    }
}

/// The document of a log unit: the unit with its identifier as a text.
#[derive(Debug)]
pub struct LogUnitWrapper {
    pub log_unit_id: String,
    pub external_id: String,
    pub timestamp: Timestamp,
}

/// The mathematical value of a [`LogUnitWrapper`].
pub struct LogUnitWrapperView {
    pub log_unit_id: Seq<char>,
    pub external_id: Seq<char>,
    pub timestamp: Timestamp,
}

impl View for LogUnitWrapper {
    type V = LogUnitWrapperView;

    open spec fn view(&self) -> LogUnitWrapperView {
        LogUnitWrapperView {
            log_unit_id: self.log_unit_id@,
            external_id: self.external_id@,
            timestamp: self.timestamp,
        }
    }
}

impl Clone for LogUnitWrapper {
    fn clone(&self) -> (copy: LogUnitWrapper)
        ensures
            copy@ == self@,
    {
        LogUnitWrapper {
            log_unit_id: self.log_unit_id.clone(),
            external_id: self.external_id.clone(),
            timestamp: self.timestamp,
        }
    }
}

/// The values of a sequence of message documents.
pub open spec fn entry_wrapper_views(wrappers: Seq<LogEntryWrapper>) -> Seq<LogEntryWrapperView> {
    wrappers.map_values(|w: LogEntryWrapper| w@)
}

/// The values of a sequence of unit documents.
pub open spec fn unit_wrapper_views(wrappers: Seq<LogUnitWrapper>) -> Seq<LogUnitWrapperView> {
    wrappers.map_values(|w: LogUnitWrapper| w@)
}

/// The document that a message is written as: each identifier as its
/// canonical text, all else as it is.
pub open spec fn wrapper_of_entry(entry: LogEntryView) -> LogEntryWrapperView {
    LogEntryWrapperView {
        message_id: uuid_text(entry.message_id),
        log_unit_id: uuid_text(entry.log_unit_id),
        message: entry.message,
        message_type: entry.message_type,
        level: entry.level,
        timestamp: entry.timestamp,
    }
}

/// The message that a document is read as: the identifiers are parsed from
/// their texts, and the level is derived from the kind, whatever level the
/// document holds. A document with an identifier that is not the text of
/// one is an error that names the text; the identifier of the message is
/// read first.
pub open spec fn entry_of_wrapper(wrapper: LogEntryWrapperView) -> Result<
    LogEntryView,
    LogErrorView,
> {
    match uuid_parse(wrapper.message_id) {
        None => Err(LogErrorView::InvalidIdentifier(wrapper.message_id)),
        Some(message_id) => match uuid_parse(wrapper.log_unit_id) {
            None => Err(LogErrorView::InvalidIdentifier(wrapper.log_unit_id)),
            Some(log_unit_id) => Ok(
                LogEntryView {
                    log_unit_id,
                    message_id,
                    level: level_of(wrapper.message_type),
                    message: wrapper.message,
                    message_type: wrapper.message_type,
                    timestamp: wrapper.timestamp,
                },
            ),
        },
    }
}

/// The document that a unit is written as.
pub open spec fn wrapper_of_unit(unit: LogUnitView) -> LogUnitWrapperView {
    LogUnitWrapperView {
        log_unit_id: uuid_text(unit.id),
        external_id: unit.external_id,
        timestamp: unit.timestamp,
    }
}

/// The unit that a document is read as. A document with an identifier that
/// is not the text of one is an error that names the text.
pub open spec fn unit_of_wrapper(wrapper: LogUnitWrapperView) -> Result<LogUnitView, LogErrorView> {
    match uuid_parse(wrapper.log_unit_id) {
        None => Err(LogErrorView::InvalidIdentifier(wrapper.log_unit_id)),
        Some(id) => Ok(
            LogUnitView { id, external_id: wrapper.external_id, timestamp: wrapper.timestamp },
        ),
    }
}

/// What each document of a sequence is read as.
pub open spec fn entry_reads(wrappers: Seq<LogEntryWrapperView>) -> Seq<
    Result<LogEntryView, LogErrorView>,
> {
    wrappers.map_values(|w: LogEntryWrapperView| entry_of_wrapper(w))
}

/// What each document of a sequence is read as.
pub open spec fn unit_reads(wrappers: Seq<LogUnitWrapperView>) -> Seq<
    Result<LogUnitView, LogErrorView>,
> {
    wrappers.map_values(|w: LogUnitWrapperView| unit_of_wrapper(w))
}

/// The messages that a sequence of documents is read as, in the order of
/// the documents, or the error of the first document that cannot be read.
pub open spec fn entries_of_wrappers(wrappers: Seq<LogEntryWrapperView>) -> Result<
    Seq<LogEntryView>,
    LogErrorView,
> {
    collect(entry_reads(wrappers))
}

/// The units that a sequence of documents is read as, in the order of the
/// documents, or the error of the first document that cannot be read.
pub open spec fn units_of_wrappers(wrappers: Seq<LogUnitWrapperView>) -> Result<
    Seq<LogUnitView>,
    LogErrorView,
> {
    collect(unit_reads(wrappers))
}

impl LogEntryWrapper {
    /// The document that a message is written as. Read back, the document
    /// gives the same message in every field, its level derived anew from
    /// its kind.
    pub fn from(entry: LogEntry) -> (wrapper: LogEntryWrapper)
        ensures
            wrapper@ == wrapper_of_entry(entry@),
            entry_of_wrapper(wrapper@) == Ok::<LogEntryView, LogErrorView>(
                LogEntryView { level: level_of(entry.message_type), ..entry@ },
            ),
            entry.is_consistent() ==> entry_of_wrapper(wrapper@) == Ok::<
                LogEntryView,
                LogErrorView,
            >(entry@),
    {
        LogEntryWrapper {
            message_id: id_to_string(entry.message_id),
            log_unit_id: id_to_string(entry.log_unit_id),
            message: entry.message,
            message_type: entry.message_type,
            level: entry.level,
            timestamp: entry.timestamp,
        }
    }

    /// The message that the document is read as, or the error of reading
    /// it. A message that is read is consistent: its level is that of its
    /// kind.
    pub fn into_entry(self) -> (r: LogResult<LogEntry>)
        ensures
            result_view(r, |entry: LogEntry| entry@) == entry_of_wrapper(self@),
            r matches Ok(entry) ==> entry.is_consistent(),
    {
        let message_id: u128 = match parse_id(self.message_id.as_str()) {
            Some(id) => id,
            None => {
                return Err(LogError::InvalidIdentifier(self.message_id));
            },
        };
        let log_unit_id: u128 = match parse_id(self.log_unit_id.as_str()) {
            Some(id) => id,
            None => {
                return Err(LogError::InvalidIdentifier(self.log_unit_id));
            },
        };
        Ok(
            LogEntry {
                log_unit_id,
                message_id,
                level: LogLevel::from(self.message_type),
                message: self.message,
                message_type: self.message_type,
                timestamp: self.timestamp,
            },
        )
    }
}

impl LogUnitWrapper {
    /// The document that a unit is written as. Read back, the document
    /// gives the same unit in every field.
    pub fn from(unit: LogUnit) -> (wrapper: LogUnitWrapper)
        ensures
            wrapper@ == wrapper_of_unit(unit@),
            unit_of_wrapper(wrapper@) == Ok::<LogUnitView, LogErrorView>(unit@),
    {
        LogUnitWrapper {
            log_unit_id: id_to_string(unit.id),
            external_id: unit.external_id,
            timestamp: unit.timestamp,
        }
    }

    /// The unit that the document is read as, or the error of reading it.
    pub fn into_unit(self) -> (r: LogResult<LogUnit>)
        ensures
            result_view(r, |unit: LogUnit| unit@) == unit_of_wrapper(self@),
    {
        match parse_id(self.log_unit_id.as_str()) {
            Some(id) => Ok(
                LogUnit { id, external_id: self.external_id, timestamp: self.timestamp },
            ),
            None => Err(LogError::InvalidIdentifier(self.log_unit_id)),
        }
    }
}

/// The messages that a sequence of documents is read as, in the order of
/// the documents. The first document that cannot be read fails the whole
/// read.
pub fn wrappers_to_entries(wrappers: Vec<LogEntryWrapper>) -> (r: LogResult<Vec<LogEntry>>)
    ensures
        result_view(r, |entries: Vec<LogEntry>| entry_views(entries@)) == entries_of_wrappers(
            entry_wrapper_views(wrappers@),
        ),
{
    let ghost reads = entry_reads(entry_wrapper_views(wrappers@));
    let mut entries: Vec<LogEntry> = Vec::new();
    proof {
        assert(reads.take(0) =~= Seq::empty());
        assert(entry_views(entries@) =~= Seq::<LogEntryView>::empty());
    }
    for wrapper in it: wrappers
        invariant
            it.seq() == wrappers@,
            reads == entry_reads(entry_wrapper_views(wrappers@)),
            collect(reads.take(it.index())) == Ok::<Seq<LogEntryView>, LogErrorView>(
                entry_views(entries@),
            ),
    {
        proof {
            lemma_collect_next(reads, it.index());
        }
        let ghost before = entry_views(entries@);
        match wrapper.into_entry() {
            Ok(entry) => {
                entries.push(entry);
                assert(entry_views(entries@) =~= before.push(entry@));
            },
            Err(error) => {
                proof {
                    lemma_collect_failure_stays(reads, it.index() + 1);
                }
                return Err(error);
            },
        }
    }
    assert(reads.take(reads.len() as int) =~= reads);
    Ok(entries)
}

/// The units that a sequence of documents is read as, in the order of the
/// documents. The first document that cannot be read fails the whole read.
pub fn wrappers_to_units(wrappers: Vec<LogUnitWrapper>) -> (r: LogResult<Vec<LogUnit>>)
    ensures
        result_view(r, |units: Vec<LogUnit>| unit_views(units@)) == units_of_wrappers(
            unit_wrapper_views(wrappers@),
        ),
{
    let ghost reads = unit_reads(unit_wrapper_views(wrappers@));
    let mut units: Vec<LogUnit> = Vec::new();
    proof {
        assert(reads.take(0) =~= Seq::empty());
        assert(unit_views(units@) =~= Seq::<LogUnitView>::empty());
    }
    for wrapper in it: wrappers
        invariant
            it.seq() == wrappers@,
            reads == unit_reads(unit_wrapper_views(wrappers@)),
            collect(reads.take(it.index())) == Ok::<Seq<LogUnitView>, LogErrorView>(
                unit_views(units@),
            ),
    {
        proof {
            lemma_collect_next(reads, it.index());
        }
        let ghost before = unit_views(units@);
        match wrapper.into_unit() {
            Ok(unit) => {
                units.push(unit);
                assert(unit_views(units@) =~= before.push(unit@));
            },
            Err(error) => {
                proof {
                    lemma_collect_failure_stays(reads, it.index() + 1);
                }
                return Err(error);
            },
        }
    }
    assert(reads.take(reads.len() as int) =~= reads);
    Ok(units)
}

/// Whether `r` is what a read of messages gives where the records were
/// read as `read`: the error of the read, or the messages that were read,
/// arranged by the time of their creation.
pub open spec fn is_sorted_read(
    r: LogResult<Vec<LogEntry>>,
    read: Result<Seq<LogEntryView>, LogErrorView>,
) -> bool {
    match read {
        Ok(entries) => r matches Ok(sorted) && is_sorted_by_time(entry_views(sorted@), entries),
        Err(error) => r matches Err(e) && e@ == error,
    }
}

/// Arranges the messages of a read by the time of their creation; the
/// error of a failed read stays.
pub fn sort_read(read: LogResult<Vec<LogEntry>>) -> (r: LogResult<Vec<LogEntry>>)
    ensures
        is_sorted_read(r, result_view(read, |entries: Vec<LogEntry>| entry_views(entries@))),
{
    match read {
        Ok(entries) => Ok(sort_by_timestamp(entries)),
        Err(error) => Err(error),
    }
}

/// Whether `r` is the result of the query for the messages of a unit, given
/// the store's answer: the store's failure, or what the documents found are
/// read as, arranged by time.
pub open spec fn is_result_of_entries(
    r: LogResult<Vec<LogEntry>>,
    outcome: StoreOutcome<Vec<LogEntryWrapper>>,
) -> bool {
    match outcome {
        Ok(wrappers) => is_sorted_read(r, entries_of_wrappers(entry_wrapper_views(wrappers@))),
        Err(detail) => is_backend_failure(r, detail),
    }
}

/// Whether `r` is the result of the query for one unit, given the store's
/// answer: the store's failure, `None` where no document was found, or what
/// the document found is read as.
pub open spec fn is_result_of_unit(
    r: LogResult<Option<LogUnit>>,
    outcome: StoreOutcome<Option<LogUnitWrapper>>,
) -> bool {
    match outcome {
        Ok(None) => r matches Ok(None),
        Ok(Some(wrapper)) => match unit_of_wrapper(wrapper@) {
            Ok(unit) => r matches Ok(Some(found)) && found@ == unit,
            Err(error) => r matches Err(e) && e@ == error,
        },
        Err(detail) => is_backend_failure(r, detail),
    }
}

/// Whether `r` is the result of the query for several units, given the
/// store's answer: the store's failure, or what the documents found are
/// read as, in their order.
pub open spec fn is_result_of_units(
    r: LogResult<Vec<LogUnit>>,
    outcome: StoreOutcome<Vec<LogUnitWrapper>>,
) -> bool {
    match outcome {
        Ok(wrappers) => result_view(r, |units: Vec<LogUnit>| unit_views(units@))
            == units_of_wrappers(unit_wrapper_views(wrappers@)),
        Err(detail) => is_backend_failure(r, detail),
    }
}

/// The messages of a unit, from the store's answer to the query for the
/// unit's documents. The store promises no order, so the messages are
/// arranged by the time of their creation.
pub fn entries_from_documents(outcome: StoreOutcome<Vec<LogEntryWrapper>>) -> (r: LogResult<
    Vec<LogEntry>,
>)
    ensures
        is_result_of_entries(r, outcome),
{
    match outcome {
        Ok(wrappers) => sort_read(wrappers_to_entries(wrappers)),
        Err(detail) => Err(LogError::Backend(detail)),
    }
}

/// The unit with a given identifier, from the store's answer to the query
/// for its document.
pub fn unit_from_document(outcome: StoreOutcome<Option<LogUnitWrapper>>) -> (r: LogResult<
    Option<LogUnit>,
>)
    ensures
        is_result_of_unit(r, outcome),
{
    match outcome {
        Ok(None) => Ok(None),
        Ok(Some(wrapper)) => match wrapper.into_unit() {
            Ok(unit) => Ok(Some(unit)),
            Err(error) => Err(error),
        },
        Err(detail) => Err(LogError::Backend(detail)),
    }
}

/// The units with a given external identifier, from the store's answer to
/// the query for their documents.
pub fn units_from_documents(outcome: StoreOutcome<Vec<LogUnitWrapper>>) -> (r: LogResult<
    Vec<LogUnit>,
>)
    ensures
        is_result_of_units(r, outcome),
{
    match outcome {
        Ok(wrappers) => wrappers_to_units(wrappers),
        Err(detail) => Err(LogError::Backend(detail)),
    }
}

} // verus!
