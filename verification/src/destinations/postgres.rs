//! The relational destination: the console mirror and the rules of a
//! destination that keeps log units and messages in the rows of a
//! relational store.

use crate::destinations::console::ConsoleDestination;
use crate::destinations::dual_write::{
    entry_is_mirrored, is_backend_failure, mirror_entry, mirror_unit, unit_is_mirrored,
    StoreOutcome,
};
use crate::destinations::mapping::{collect, lemma_collect_failure_stays, lemma_collect_next};
use crate::destinations::records::{
    is_result_of_unit, is_result_of_units, is_sorted_read, sort_read, unit_from_document,
    unit_of_wrapper, units_from_documents, wrapper_of_unit, LogUnitWrapper,
};
use crate::model::ident::{id_to_string, parse_id, uuid_parse, uuid_text};
use crate::model::log_entry::{level_of, LogEntry, LogEntryView, LogLevel, LogMessageType};
use crate::model::log_service::{
    entry_views, result_view, text_views, LogError, LogErrorView, LogResult, LogService,
    StoreState,
};
use crate::model::log_unit::{LogUnit, LogUnitView};
use crate::model::text::str_equal;
use crate::model::timestamp::Timestamp;
use vstd::prelude::*;
use vstd::string::StringExecFns;

verus! {

/// Where the relational store is found and how its tables are named.
#[derive(Debug)]
pub struct PostgresConfig {
    pub connection_string: String,
    pub log_units_table: String,
    pub log_entries_table: String,
}

impl Clone for PostgresConfig {
    fn clone(&self) -> (copy: PostgresConfig)
        ensures
            copy.connection_string@ == self.connection_string@,
            copy.log_units_table@ == self.log_units_table@,
            copy.log_entries_table@ == self.log_entries_table@,
    {
        PostgresConfig {
            connection_string: self.connection_string.clone(),
            log_units_table: self.log_units_table.clone(),
            log_entries_table: self.log_entries_table.clone(),
        }
    }
}

impl Default for PostgresConfig {
    fn default() -> (config: PostgresConfig)
        ensures
            config.connection_string@ == "postgresql://localhost/ironscribe"@,
            config.log_units_table@ == "log_units"@,
            config.log_entries_table@ == "log_entries"@,
    {
        PostgresConfig {
            connection_string: String::from_str("postgresql://localhost/ironscribe"),
            log_units_table: String::from_str("log_units"),
            log_entries_table: String::from_str("log_entries"),
        }
    }
}

/// The tag under which a message kind is stored.
pub open spec fn tag_of(message_type: LogMessageType) -> Seq<char> {
    match message_type {
        LogMessageType::Error => "Error"@,
        LogMessageType::Warning => "Warning"@,
        LogMessageType::Info => "Info"@,
        LogMessageType::Success => "Success"@,
    }
}

/// The message kind that a stored tag stands for; `None` for a text that is
/// not a tag.
pub open spec fn type_of_tag(tag: Seq<char>) -> Option<LogMessageType> {
    if tag == "Error"@ {
        Some(LogMessageType::Error)
    } else if tag == "Warning"@ {
        Some(LogMessageType::Warning)
    } else if tag == "Info"@ {
        Some(LogMessageType::Info)
    } else if tag == "Success"@ {
        Some(LogMessageType::Success)
    } else {
        None
    }
}

/// Reading the tag of a message kind gives that kind back, and a text that
/// is read as a kind is the tag of that kind: tags and kinds correspond one
/// to one.
pub proof fn lemma_tag_round_trip(message_type: LogMessageType, tag: Seq<char>)
    ensures
        type_of_tag(tag_of(message_type)) == Some(message_type),
        type_of_tag(tag) matches Some(kind) ==> tag_of(kind) == tag,
{
    reveal_strlit("Error");
    reveal_strlit("Warning");
    reveal_strlit("Info");
    reveal_strlit("Success");
    assert("Error"@.len() == 5);
    assert("Warning"@.len() == 7);
    assert("Info"@.len() == 4);
    assert("Success"@.len() == 7);
    assert("Warning"@[0] == 'W');
    assert("Success"@[0] == 'S');
}

/// A row of the table of log messages: the message with its identifiers as
/// texts, its kind as a tag and its level as a number.
#[derive(Debug)]
pub struct EntryRow {
    pub log_unit_id: String,
    pub message_id: String,
    /// The stored rank of the message; written, never trusted when read.
    pub level: i32,
    pub message: String,
    /// The tag of the message kind.
    pub message_type: String,
    pub timestamp: Timestamp,
}

/// The mathematical value of an [`EntryRow`].
pub struct EntryRowView {
    pub log_unit_id: Seq<char>,
    pub message_id: Seq<char>,
    pub level: int,
    pub message: Seq<char>,
    pub message_type: Seq<char>,
    pub timestamp: Timestamp,
}

impl View for EntryRow {
    type V = EntryRowView;

    open spec fn view(&self) -> EntryRowView {
        EntryRowView {
            log_unit_id: self.log_unit_id@,
            message_id: self.message_id@,
            level: self.level as int,
            message: self.message@,
            message_type: self.message_type@,
            timestamp: self.timestamp,
        }
    }
}

impl Clone for EntryRow {
    fn clone(&self) -> (copy: EntryRow)
        ensures
            copy@ == self@,
    {
        EntryRow {
            log_unit_id: self.log_unit_id.clone(),
            message_id: self.message_id.clone(),
            level: self.level,
            message: self.message.clone(),
            message_type: self.message_type.clone(),
            timestamp: self.timestamp,
        }
    }
}

/// The values of a sequence of rows.
pub open spec fn row_views(rows: Seq<EntryRow>) -> Seq<EntryRowView> {
    rows.map_values(|r: EntryRow| r@)
}

/// The row that a message is written as: each identifier as its canonical
/// text, the kind as its tag, the level as its rank.
pub open spec fn row_of(entry: LogEntryView) -> EntryRowView {
    EntryRowView {
        log_unit_id: uuid_text(entry.log_unit_id),
        message_id: uuid_text(entry.message_id),
        level: entry.level.spec_rank(),
        message: entry.message,
        message_type: tag_of(entry.message_type),
        timestamp: entry.timestamp,
    }
}

/// The message that a row is read as: the kind is read from the tag, the
/// identifiers are parsed from their texts, and the level is derived from
/// the kind, whatever level the row holds. A row with an unknown tag is an
/// error that names the tag; a row with an identifier that is not the text
/// of one is an error that names the text. The tag is read first, then the
/// identifier of the unit, then that of the message.
pub open spec fn entry_of_row(row: EntryRowView) -> Result<LogEntryView, LogErrorView> {
    match type_of_tag(row.message_type) {
        None => Err(LogErrorView::UnknownMessageType(row.message_type)),
        Some(message_type) => match uuid_parse(row.log_unit_id) {
            None => Err(LogErrorView::InvalidIdentifier(row.log_unit_id)),
            Some(log_unit_id) => match uuid_parse(row.message_id) {
                None => Err(LogErrorView::InvalidIdentifier(row.message_id)),
                Some(message_id) => Ok(
                    LogEntryView {
                        log_unit_id,
                        message_id,
                        level: level_of(message_type),
                        message: row.message,
                        message_type,
                        timestamp: row.timestamp,
                    },
                ),
            },
        },
    }
}

/// What each row of a sequence is read as.
pub open spec fn row_reads(rows: Seq<EntryRowView>) -> Seq<Result<LogEntryView, LogErrorView>> {
    rows.map_values(|r: EntryRowView| entry_of_row(r))
}

/// The messages that a sequence of rows is read as, in the order of the
/// rows, or the error of the first row that cannot be read.
pub open spec fn entries_of_rows(rows: Seq<EntryRowView>) -> Result<
    Seq<LogEntryView>,
    LogErrorView,
> {
    collect(row_reads(rows))
}

/// Whatever level a row holds, the message read from it is consistent: its
/// level is that of its kind.
pub proof fn lemma_row_level_is_derived(row: EntryRowView)
    ensures
        entry_of_row(row) matches Ok(entry) ==> entry.is_consistent(),
{
}

/// Whether `r` is the result of the query for the messages of a unit, given
/// the store's answer: the store's failure, or what the rows found are read
/// as, arranged by time.
pub open spec fn is_result_of_rows(
    r: LogResult<Vec<LogEntry>>,
    outcome: StoreOutcome<Vec<EntryRow>>,
) -> bool {
    match outcome {
        Ok(rows) => is_sorted_read(r, entries_of_rows(row_views(rows@))),
        Err(detail) => is_backend_failure(r, detail),
    }
}

/// The relational destination: its configuration and its console mirror.
/// The store itself is driven by the caller, which hands each answer of the
/// store to the method that completes the operation.
pub struct PostgresDestination {
    config: PostgresConfig,
    console: ConsoleDestination,
}

impl PostgresDestination {
    /// The state of the console mirror.
    pub closed spec fn mirror(&self) -> StoreState {
        self.console.state()
    }

    /// The configuration the destination was made with.
    pub closed spec fn spec_config(&self) -> PostgresConfig {
        self.config
    }

    /// A destination for the given configuration, with an empty mirror.
    pub fn new(config: PostgresConfig) -> (destination: PostgresDestination)
        ensures
            destination.mirror() == StoreState::empty(),
            destination.spec_config() == config,
    {
        PostgresDestination { config, console: ConsoleDestination::new() }
    }

    /// A destination for the default configuration.
    pub fn with_default_config() -> (destination: PostgresDestination)
        ensures
            destination.mirror() == StoreState::empty(),
            destination.spec_config().connection_string@ == "postgresql://localhost/ironscribe"@,
            destination.spec_config().log_units_table@ == "log_units"@,
            destination.spec_config().log_entries_table@ == "log_entries"@,
    {
        PostgresDestination::new(PostgresConfig::default())
    }

    /// The configuration the destination was made with.
    pub fn config(&self) -> (config: &PostgresConfig)
        ensures
            *config == self.spec_config(),
    {
        &self.config
    }

    /// The tag under which a message kind is stored.
    pub fn message_type_to_string(msg_type: LogMessageType) -> (tag: &'static str)
        ensures
            tag@ == tag_of(msg_type),
            type_of_tag(tag@) == Some(msg_type),
    {
        proof {
            lemma_tag_round_trip(msg_type, Seq::empty());
        }
        match msg_type {
            LogMessageType::Error => "Error",
            LogMessageType::Warning => "Warning",
            LogMessageType::Info => "Info",
            LogMessageType::Success => "Success",
        }
    }

    /// The message kind that a stored tag stands for. A text that is not a
    /// tag is an error that names the text.
    pub fn string_to_message_type(s: &str) -> (r: LogResult<LogMessageType>)
        ensures
            match type_of_tag(s@) {
                Some(message_type) => r == Ok::<LogMessageType, LogError>(message_type),
                None => r matches Err(error) && error@ == LogErrorView::UnknownMessageType(s@),
            },
    {
        if str_equal(s, "Error") {
            Ok(LogMessageType::Error)
        } else if str_equal(s, "Warning") {
            Ok(LogMessageType::Warning)
        } else if str_equal(s, "Info") {
            Ok(LogMessageType::Info)
        } else if str_equal(s, "Success") {
            Ok(LogMessageType::Success)
        } else {
            Err(LogError::UnknownMessageType(String::from_str(s)))
        }
    }

    /// The row that a message is written as. Read back, the row gives the
    /// same message in every field, its level derived anew from its kind.
    pub fn entry_to_row(entry: &LogEntry) -> (row: EntryRow)
        ensures
            row@ == row_of(entry@),
            entry_of_row(row@) == Ok::<LogEntryView, LogErrorView>(
                LogEntryView { level: level_of(entry.message_type), ..entry@ },
            ),
            entry.is_consistent() ==> entry_of_row(row@) == Ok::<LogEntryView, LogErrorView>(
                entry@,
            ),
    {
        EntryRow {
            log_unit_id: id_to_string(entry.log_unit_id),
            message_id: id_to_string(entry.message_id),
            level: entry.level.rank(),
            message: entry.message.clone(),
            message_type: String::from_str(Self::message_type_to_string(entry.message_type)),
            timestamp: entry.timestamp,
        }
    }

    /// The message that a row is read as, or the error of reading it. The
    /// level of the row is not read.
    pub fn row_to_entry(row: EntryRow) -> (r: LogResult<LogEntry>)
        ensures
            result_view(r, |entry: LogEntry| entry@) == entry_of_row(row@),
            r matches Ok(entry) ==> entry.is_consistent(),
    {
        let message_type = match Self::string_to_message_type(row.message_type.as_str()) {
            Ok(message_type) => message_type,
            Err(error) => {
                return Err(error);
            },
        };
        let log_unit_id: u128 = match parse_id(row.log_unit_id.as_str()) {
            Some(id) => id,
            None => {
                return Err(LogError::InvalidIdentifier(row.log_unit_id));
            },
        };
        let message_id: u128 = match parse_id(row.message_id.as_str()) {
            Some(id) => id,
            None => {
                return Err(LogError::InvalidIdentifier(row.message_id));
            },
        };
        Ok(
            LogEntry {
                log_unit_id,
                message_id,
                level: LogLevel::from(message_type),
                message: row.message,
                message_type,
                timestamp: row.timestamp,
            },
        )
    }

    /// The messages that the rows of a query are read as, in the order of
    /// the rows. The first row that cannot be read fails the whole read.
    pub fn rows_to_entries(rows: Vec<EntryRow>) -> (r: LogResult<Vec<LogEntry>>)
        ensures
            result_view(r, |entries: Vec<LogEntry>| entry_views(entries@)) == entries_of_rows(
                row_views(rows@),
            ),
    {
        let ghost reads = row_reads(row_views(rows@));
        let mut entries: Vec<LogEntry> = Vec::new();
        proof {
            assert(reads.take(0) =~= Seq::empty());
            assert(entry_views(entries@) =~= Seq::<LogEntryView>::empty());
        }
        for row in it: rows
            invariant
                it.seq() == rows@,
                reads == row_reads(row_views(rows@)),
                collect(reads.take(it.index())) == Ok::<Seq<LogEntryView>, LogErrorView>(
                    entry_views(entries@),
                ),
        {
            proof {
                lemma_collect_next(reads, it.index());
            }
            let ghost before = entry_views(entries@);
            match Self::row_to_entry(row) {
                Ok(entry) => {
                    entries.push(entry);
                    assert(entry_views(entries@) =~= before.push(entry@));
                },
                Err(error) => {
                    proof {
                        lemma_collect_failure_stays(reads, it.index() + 1);
                    }
                    return Err(error);
                },
            }
        }
        assert(reads.take(reads.len() as int) =~= reads);
        Ok(entries)
    }

    /// First step of creating a unit: the new unit and the row that the
    /// caller writes to the store before it calls `unit_stored`.
    pub fn prepare_unit(external_id: String) -> (r: (LogUnit, LogUnitWrapper))
        ensures
            r.0.external_id@ == external_id@,
            r.0.id != 0,
            r.1@ == wrapper_of_unit(r.0@),
            unit_of_wrapper(r.1@) == Ok::<LogUnitView, LogErrorView>(r.0@),
    {
        let unit = LogUnit::new(external_id);
        let row = LogUnitWrapper::from(unit.clone());
        (unit, row)
    }

    /// Last step of creating a unit, with the store's answer to the write
    /// of the unit's row.
    pub fn unit_stored(&mut self, unit: LogUnit, outcome: StoreOutcome<()>) -> (r: LogResult<
        LogUnit,
    >)
        ensures
            final(self).spec_config() == old(self).spec_config(),
            unit_is_mirrored(old(self).mirror(), final(self).mirror(), unit, outcome, r),
    {
        mirror_unit(&mut self.console, unit, outcome)
    }

    /// Last step of logging a message, with the store's answer to the write
    /// of the message's row.
    pub fn entry_stored(&mut self, entry: LogEntry, outcome: StoreOutcome<()>) -> (r: LogResult<()>)
        ensures
            final(self).spec_config() == old(self).spec_config(),
            entry_is_mirrored(old(self).mirror(), final(self).mirror(), entry@, outcome, r),
    {
        mirror_entry(&mut self.console, entry, outcome)
    }

    /// The messages of a unit, from the store's answer to the query for the
    /// unit's rows, arranged by the time of their creation.
    pub fn entries_found(outcome: StoreOutcome<Vec<EntryRow>>) -> (r: LogResult<Vec<LogEntry>>)
        ensures
            is_result_of_rows(r, outcome),
    {
        match outcome {
            Ok(rows) => sort_read(Self::rows_to_entries(rows)),
            Err(detail) => Err(LogError::Backend(detail)),
        }
    }

    /// The unit with a given identifier, from the store's answer to the
    /// query for its row.
    pub fn unit_found(outcome: StoreOutcome<Option<LogUnitWrapper>>) -> (r: LogResult<
        Option<LogUnit>,
    >)
        ensures
            is_result_of_unit(r, outcome),
    {
        unit_from_document(outcome)
    }

    /// The units with a given external identifier, from the store's answer
    /// to the query for their rows.
    pub fn units_found(outcome: StoreOutcome<Vec<LogUnitWrapper>>) -> (r: LogResult<Vec<LogUnit>>)
        ensures
            is_result_of_units(r, outcome),
    {
        units_from_documents(outcome)
    }

    /// Takes the console lines that were mirrored since they were last
    /// taken, oldest first.
    pub fn take_console_output(&mut self) -> (lines: Vec<String>)
        ensures
            text_views(lines@) == old(self).mirror().console,
            final(self).mirror() == old(self).mirror().without_console(),
            final(self).spec_config() == old(self).spec_config(),
    {
        self.console.take_console_output()
    }
}

} // verus!
