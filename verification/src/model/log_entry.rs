//! Log messages, their kinds and the numeric levels used to sort them.

use crate::model::ident::{is_random_id, new_id};
use crate::model::timestamp::Timestamp;
use std::cmp::Ordering;
use vstd::prelude::*;
use vstd::std_specs::cmp::{PartialEqSpecImpl, PartialOrdSpec, PartialOrdSpecImpl};
use vstd::std_specs::convert::FromSpecImpl;

verus! {

/// The kind of a log message.
#[derive(Debug, Clone, Copy, PartialEq, Eq, Structural)]
pub enum LogMessageType {
    Error,
    Warning,
    Info,
    Success,
}

/// Numeric level of a message, used for sorting. `Error` is the most severe
/// and sorts first; `Success` is the least severe and sorts last.
#[derive(Debug, Clone, Copy, PartialEq, Eq, Structural, Ord)]
pub enum LogLevel {
    Error,
    Warning,
    Info,
    Success,
}

/// The rank of a message kind: 0 for `Error` up to 3 for `Success`.
pub open spec fn rank_of(message_type: LogMessageType) -> int {
    match message_type {
        LogMessageType::Error => 0,
        LogMessageType::Warning => 1,
        LogMessageType::Info => 2,
        LogMessageType::Success => 3,
    }
}

/// The level that belongs to a message kind.
pub open spec fn level_of(message_type: LogMessageType) -> LogLevel {
    match message_type {
        LogMessageType::Error => LogLevel::Error,
        LogMessageType::Warning => LogLevel::Warning,
        LogMessageType::Info => LogLevel::Info,
        LogMessageType::Success => LogLevel::Success,
    }
}

impl LogMessageType {
    /// The rank of the kind: 0 for `Error`, the most severe, up to 3 for
    /// `Success`, the least severe.
    pub fn rank(self) -> (r: i32)
        ensures
            r == rank_of(self),
            r == level_of(self).spec_rank(),
    {
        LogLevel::from(self).rank()
    }
}

impl LogLevel {
    /// The number a level stands for: 0 for `Error` up to 3 for `Success`.
    pub open spec fn spec_rank(self) -> int {
        match self {
            LogLevel::Error => 0,
            LogLevel::Warning => 1,
            LogLevel::Info => 2,
            LogLevel::Success => 3,
        }
    }

    /// The number a level stands for.
    pub fn rank(self) -> (r: i32)
        ensures
            r == self.spec_rank(),
    {
        match self {
            LogLevel::Error => 0,
            LogLevel::Warning => 1,
            LogLevel::Info => 2,
            LogLevel::Success => 3,
        }
    }
}

impl FromSpecImpl<LogMessageType> for LogLevel {
    open spec fn obeys_from_spec() -> bool {
        true
    }

    open spec fn from_spec(message_type: LogMessageType) -> LogLevel {
        level_of(message_type)
    }
}

impl From<LogMessageType> for LogLevel {
    fn from(msg_type: LogMessageType) -> (level: LogLevel) {
        match msg_type {
            LogMessageType::Error => LogLevel::Error,
            LogMessageType::Warning => LogLevel::Warning,
            LogMessageType::Info => LogLevel::Info,
            LogMessageType::Success => LogLevel::Success,
        }
    }
}

impl PartialOrdSpecImpl for LogLevel {
    open spec fn obeys_partial_cmp_spec() -> bool {
        true
    }

    open spec fn partial_cmp_spec(&self, other: &LogLevel) -> Option<Ordering> {
        if self.spec_rank() < other.spec_rank() {
            Some(Ordering::Less)
        } else if self.spec_rank() == other.spec_rank() {
            Some(Ordering::Equal)
        } else {
            Some(Ordering::Greater)
        }
    }
}

impl PartialOrd for LogLevel {
    fn partial_cmp(&self, other: &LogLevel) -> (r: Option<Ordering>) {
        let a: i32 = self.rank();
        let b: i32 = other.rank();
        if a < b {
            Some(Ordering::Less)
        } else if a == b {
            Some(Ordering::Equal)
        } else {
            Some(Ordering::Greater)
        }
    }
}

/// A single log message.
#[derive(Debug)]
pub struct LogEntry {
    /// Identifier of the log unit the message belongs to.
    pub log_unit_id: u128,
    /// Unique identifier of the message.
    pub message_id: u128,
    /// Numeric level for sorting; always the level of `message_type`.
    pub level: LogLevel,
    /// The text of the message.
    pub message: String,
    /// The kind of the message.
    pub message_type: LogMessageType,
    /// When the message was created.
    pub timestamp: Timestamp,
}

/// The mathematical value of a [`LogEntry`].
pub struct LogEntryView {
    pub log_unit_id: u128,
    pub message_id: u128,
    pub level: LogLevel,
    pub message: Seq<char>,
    pub message_type: LogMessageType,
    pub timestamp: Timestamp,
}

impl LogEntryView {
    /// Level and kind agree: the level is the one derived from the kind.
    pub open spec fn is_consistent(self) -> bool {
        self.level == level_of(self.message_type)
    }
}

impl View for LogEntry {
    type V = LogEntryView;

    open spec fn view(&self) -> LogEntryView {
        LogEntryView {
            log_unit_id: self.log_unit_id,
            message_id: self.message_id,
            level: self.level,
            message: self.message@,
            message_type: self.message_type,
            timestamp: self.timestamp,
        }
    }
}

impl Clone for LogEntry {
    fn clone(&self) -> (copy: LogEntry)
        ensures
            copy@ == self@,
    {
        LogEntry {
            log_unit_id: self.log_unit_id,
            message_id: self.message_id,
            level: self.level,
            message: self.message.clone(),
            message_type: self.message_type,
            timestamp: self.timestamp,
        }
    }
}

impl PartialEqSpecImpl for LogEntry {
    open spec fn obeys_eq_spec() -> bool {
        true
    }

    open spec fn eq_spec(&self, other: &LogEntry) -> bool {
        self@ == other@
    }
}

impl PartialEq for LogEntry {
    fn eq(&self, other: &LogEntry) -> (equal: bool) {
        self.log_unit_id == other.log_unit_id && self.message_id == other.message_id
            && self.level == other.level && self.message == other.message && self.message_type
            == other.message_type && self.timestamp == other.timestamp
    }
}

impl LogEntry {
    /// Level and kind agree: the level is the one derived from the kind.
    pub open spec fn is_consistent(&self) -> bool {
        self@.is_consistent()
    }

    /// Creates a log message of the given kind for a unit. The message gets
    /// a fresh random identifier and the current time; its level is derived
    /// from its kind.
    pub fn new(log_unit_id: u128, message: String, message_type: LogMessageType) -> (entry:
        LogEntry)
        ensures
            entry.log_unit_id == log_unit_id,
            entry.message@ == message@,
            entry.message_type == message_type,
            entry.level == level_of(message_type),
            entry.level.spec_rank() == rank_of(message_type),
            entry.is_consistent(),
            is_random_id(entry.message_id),
            entry.message_id != 0,
    {
        LogEntry {
            log_unit_id,
            message_id: new_id(),
            level: LogLevel::from(message_type),
            message,
            message_type,
            timestamp: Timestamp::now(),
        }
    }

    /// Creates an error message.
    pub fn error(log_unit_id: u128, message: String) -> (entry: LogEntry)
        ensures
            entry.log_unit_id == log_unit_id,
            entry.message@ == message@,
            entry.message_type == LogMessageType::Error,
            entry.level == LogLevel::Error,
            entry.level.spec_rank() == rank_of(entry.message_type),
            entry.is_consistent(),
            is_random_id(entry.message_id),
            entry.message_id != 0,
    {
        LogEntry::new(log_unit_id, message, LogMessageType::Error)
    }

    /// Creates a warning message.
    pub fn warning(log_unit_id: u128, message: String) -> (entry: LogEntry)
        ensures
            entry.log_unit_id == log_unit_id,
            entry.message@ == message@,
            entry.message_type == LogMessageType::Warning,
            entry.level == LogLevel::Warning,
            entry.level.spec_rank() == rank_of(entry.message_type),
            entry.is_consistent(),
            is_random_id(entry.message_id),
            entry.message_id != 0,
    {
        LogEntry::new(log_unit_id, message, LogMessageType::Warning)
    }

    /// Creates an info message.
    pub fn info(log_unit_id: u128, message: String) -> (entry: LogEntry)
        ensures
            entry.log_unit_id == log_unit_id,
            entry.message@ == message@,
            entry.message_type == LogMessageType::Info,
            entry.level == LogLevel::Info,
            entry.level.spec_rank() == rank_of(entry.message_type),
            entry.is_consistent(),
            is_random_id(entry.message_id),
            entry.message_id != 0,
    {
        LogEntry::new(log_unit_id, message, LogMessageType::Info)
    }

    /// Creates a success message.
    pub fn success(log_unit_id: u128, message: String) -> (entry: LogEntry)
        ensures
            entry.log_unit_id == log_unit_id,
            entry.message@ == message@,
            entry.message_type == LogMessageType::Success,
            entry.level == LogLevel::Success,
            entry.level.spec_rank() == rank_of(entry.message_type),
            entry.is_consistent(),
            is_random_id(entry.message_id),
            entry.message_id != 0,
    {
        LogEntry::new(log_unit_id, message, LogMessageType::Success)
    }
}

/// The ranks of the four kinds are strictly ordered from `Error`, the most
/// severe, to `Success`, the least severe.
pub proof fn lemma_rank_chain()
    ensures
        rank_of(LogMessageType::Error) < rank_of(LogMessageType::Warning),
        rank_of(LogMessageType::Warning) < rank_of(LogMessageType::Info),
        rank_of(LogMessageType::Info) < rank_of(LogMessageType::Success),
{
}

/// Ranks order the kinds totally: two kinds have the same rank only if they
/// are the same kind, so of two different kinds one ranks strictly before
/// the other. The level derived from a kind carries the same rank, and
/// levels compare as their ranks do.
pub proof fn lemma_rank_total_order(a: LogMessageType, b: LogMessageType)
    ensures
        0 <= rank_of(a) <= 3,
        rank_of(a) == rank_of(b) <==> a == b,
        a != b ==> rank_of(a) < rank_of(b) || rank_of(b) < rank_of(a),
        level_of(a).spec_rank() == rank_of(a),
        PartialOrdSpec::partial_cmp_spec(&level_of(a), &level_of(b)) == Some(Ordering::Less)
            <==> rank_of(a) < rank_of(b),
{
}

} // verus!
