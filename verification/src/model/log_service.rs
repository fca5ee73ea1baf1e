//! The contract that every log destination meets, stated over the
//! mathematical state of a destination.

use crate::destinations::console_line::console_line;
use crate::model::log_entry::{LogEntry, LogEntryView};
use crate::model::log_unit::{LogUnit, LogUnitView};
use vstd::prelude::*;
use vstd::string::StringExecFns;

verus! {

/// Why an operation of a log destination failed.
#[derive(Debug)]
pub enum LogError {
    /// The external store could not be reached or refused the operation.
    Backend(String),
    /// A stored identifier is not the text of an identifier.
    InvalidIdentifier(String),
    /// A stored message-type tag is none of the known tags.
    UnknownMessageType(String),
}

/// The mathematical value of a [`LogError`].
pub enum LogErrorView {
    Backend(Seq<char>),
    InvalidIdentifier(Seq<char>),
    UnknownMessageType(Seq<char>),
}

impl View for LogError {
    type V = LogErrorView;

    open spec fn view(&self) -> LogErrorView {
        match self {
            LogError::Backend(detail) => LogErrorView::Backend(detail@),
            LogError::InvalidIdentifier(text) => LogErrorView::InvalidIdentifier(text@),
            LogError::UnknownMessageType(tag) => LogErrorView::UnknownMessageType(tag@),
        }
    }
}

impl LogErrorView {
    /// The text of the error, as it is shown to a user.
    pub open spec fn message(self) -> Seq<char> {
        match self {
            LogErrorView::Backend(detail) => "Backend error: "@ + detail,
            LogErrorView::InvalidIdentifier(text) => "Invalid identifier: "@ + text,
            LogErrorView::UnknownMessageType(tag) => "Unknown message type: "@ + tag,
        }
    }
}

/// The result of an operation of a log destination.
pub type LogResult<T> = Result<T, LogError>;

impl LogError {
    /// The text of the error, as it is shown to a user.
    pub fn message(&self) -> (text: String)
        ensures
            text@ == self@.message(),
    {
        match self {
            LogError::Backend(detail) => String::from_str("Backend error: ").concat(
                detail.as_str(),
            ),
            LogError::InvalidIdentifier(id_text) => String::from_str("Invalid identifier: ").concat(
                id_text.as_str(),
            ),
            LogError::UnknownMessageType(tag) => String::from_str("Unknown message type: ").concat(
                tag.as_str(),
            ),
        }
    }
}

/// The mathematical value of a result: the value of what was returned, as
/// `value` gives it, or the value of the error.
pub open spec fn result_view<T, V>(r: LogResult<T>, value: spec_fn(T) -> V) -> Result<
    V,
    LogErrorView,
> {
    match r {
        Ok(returned) => Ok(value(returned)),
        Err(error) => Err(error@),
    }
}

/// The values of a sequence of log messages.
pub open spec fn entry_views(entries: Seq<LogEntry>) -> Seq<LogEntryView> {
    entries.map_values(|e: LogEntry| e@)
}

/// The values of a sequence of log units.
pub open spec fn unit_views(units: Seq<LogUnit>) -> Seq<LogUnitView> {
    units.map_values(|u: LogUnit| u@)
}

/// The values of a sequence of texts.
pub open spec fn text_views(texts: Seq<String>) -> Seq<Seq<char>> {
    texts.map_values(|t: String| t@)
}

/// The value of an optional log unit.
pub open spec fn optional_unit_view(unit: Option<LogUnit>) -> Option<LogUnitView> {
    match unit {
        Some(u) => Some(u@),
        None => None,
    }
}

/// A sequence lists a set if it holds each member of the set exactly once
/// and nothing else.
pub open spec fn lists<T>(listing: Seq<T>, members: Set<T>) -> bool {
    listing.no_duplicates() && listing.to_set() == members
}

/// The units with the given external identifier among those that a map of
/// units holds under their own identifiers.
pub open spec fn matching_units(units: Map<u128, LogUnitView>, external_id: Seq<char>) -> Set<
    LogUnitView,
> {
    Set::new(
        |u: LogUnitView|
            units.contains_key(u.id) && units[u.id] == u && u.external_id == external_id,
    )
}

/// The mathematical state of a log destination.
pub struct StoreState {
    /// The stored units, by identifier.
    pub units: Map<u128, LogUnitView>,
    /// The stored messages of each unit, in the order in which they were
    /// logged.
    pub entries: Map<u128, Seq<LogEntryView>>,
    /// The lines mirrored to the console that have not been taken yet.
    pub console: Seq<Seq<char>>,
}

impl StoreState {
    /// The state of a new destination: nothing stored, nothing mirrored.
    pub open spec fn empty() -> StoreState {
        StoreState { units: Map::empty(), entries: Map::empty(), console: Seq::empty() }
    }

    /// The messages stored for a unit; none for a unit that is not known.
    pub open spec fn entries_of(self, log_unit_id: u128) -> Seq<LogEntryView> {
        if self.entries.contains_key(log_unit_id) {
            self.entries[log_unit_id]
        } else {
            Seq::empty()
        }
    }

    /// The unit stored under an identifier, if there is one.
    pub open spec fn unit(self, log_unit_id: u128) -> Option<LogUnitView> {
        if self.units.contains_key(log_unit_id) {
            Some(self.units[log_unit_id])
        } else {
            None
        }
    }

    /// The stored units that carry the given external identifier.
    pub open spec fn units_with_external_id(self, external_id: Seq<char>) -> Set<LogUnitView> {
        matching_units(self.units, external_id)
    }

    /// The state after a unit was created: the unit is stored under its
    /// identifier, with no messages yet.
    pub open spec fn with_unit(self, unit: LogUnitView) -> StoreState {
        StoreState {
            units: self.units.insert(unit.id, unit),
            entries: self.entries.insert(unit.id, Seq::empty()),
            console: self.console,
        }
    }

    /// The state after a message was logged: the message is the last of its
    /// unit's messages, and its console line is the last line mirrored.
    pub open spec fn with_entry(self, entry: LogEntryView) -> StoreState {
        StoreState {
            units: self.units,
            entries: self.entries.insert(
                entry.log_unit_id,
                self.entries_of(entry.log_unit_id).push(entry),
            ),
            console: self.console.push(console_line(entry)),
        }
    }

    /// The state after the mirrored lines were taken.
    pub open spec fn without_console(self) -> StoreState {
        StoreState { units: self.units, entries: self.entries, console: Seq::empty() }
    }

    /// Every unit is stored under its own identifier, and every message
    /// under the identifier of the unit it names.
    pub open spec fn well_formed(self) -> bool {
        &&& forall|id: u128| #[trigger]
            self.units.contains_key(id) ==> self.units[id].id == id
        &&& forall|id: u128, i: int|
            self.entries.contains_key(id) && 0 <= i < self.entries[id].len() ==> (
            #[trigger] self.entries[id][i]).log_unit_id == id
    }
}

/// One step on the state of a log destination.
pub enum StoreOp {
    /// A unit is created.
    CreateUnit(LogUnitView),
    /// A message is logged.
    Log(LogEntryView),
    /// The mirrored lines are taken.
    TakeConsole,
}

impl StoreOp {
    /// Whether the step creates the unit `log_unit_id` or logs a message
    /// for it.
    pub open spec fn touches(self, log_unit_id: u128) -> bool {
        match self {
            StoreOp::CreateUnit(unit) => unit.id == log_unit_id,
            StoreOp::Log(entry) => entry.log_unit_id == log_unit_id,
            StoreOp::TakeConsole => false,
        }
    }
}

impl StoreState {
    /// The state after one step.
    pub open spec fn step(self, op: StoreOp) -> StoreState {
        match op {
            StoreOp::CreateUnit(unit) => self.with_unit(unit),
            StoreOp::Log(entry) => self.with_entry(entry),
            StoreOp::TakeConsole => self.without_console(),
        }
    }

    /// The state after a sequence of steps, the first of them first.
    pub open spec fn run(self, ops: Seq<StoreOp>) -> StoreState
        decreases ops.len(),
    {
        if ops.len() == 0 {
            self
        } else {
            self.run(ops.drop_last()).step(ops.last())
        }
    }

    /// The state after a sequence of messages was logged, the first of them
    /// first.
    pub open spec fn log_all(self, entries: Seq<LogEntryView>) -> StoreState
        decreases entries.len(),
    {
        if entries.len() == 0 {
            self
        } else {
            self.log_all(entries.drop_last()).with_entry(entries.last())
        }
    }
}

/// Every step keeps a well-formed state well-formed.
pub proof fn lemma_step_well_formed(state: StoreState, op: StoreOp)
    requires
        state.well_formed(),
    ensures
        state.step(op).well_formed(),
{
    let next = state.step(op);
    assert forall|id: u128, i: int|
        next.entries.contains_key(id) && 0 <= i < next.entries[id].len() implies (
    #[trigger] next.entries[id][i]).log_unit_id == id by {
        match op {
            StoreOp::Log(entry) => {
                if id == entry.log_unit_id && i < state.entries_of(id).len() {
                    assert(next.entries[id][i] == state.entries[id][i]);
                }
            },
            _ => {},
        }
    }
}

/// Every state that a new destination can reach is well-formed: each unit
/// is stored under its own identifier, and each message under the
/// identifier of the unit it names.
pub proof fn lemma_reachable_well_formed(ops: Seq<StoreOp>)
    ensures
        StoreState::empty().run(ops).well_formed(),
    decreases ops.len(),
{
    if ops.len() > 0 {
        lemma_reachable_well_formed(ops.drop_last());
        lemma_step_well_formed(StoreState::empty().run(ops.drop_last()), ops.last());
    }
}

/// What is read of a unit depends on the state alone. Two reads with no
/// write between them are reads in one state, so they give the same
/// messages in the same order; taking the mirrored lines is no write.
pub proof fn lemma_reads_agree(
    state: StoreState,
    log_unit_id: u128,
    first: Seq<LogEntryView>,
    second: Seq<LogEntryView>,
)
    requires
        first == state.entries_of(log_unit_id),
        second == state.entries_of(log_unit_id),
    ensures
        first == second,
        state.without_console().entries_of(log_unit_id) == first,
        state.without_console().unit(log_unit_id) == state.unit(log_unit_id),
{
}

/// A unit that was never created and for which nothing was logged is not
/// known: the destination holds no messages for it, and no unit under its
/// identifier.
pub proof fn lemma_unknown_unit(ops: Seq<StoreOp>, log_unit_id: u128)
    requires
        forall|i: int| 0 <= i < ops.len() ==> !(#[trigger] ops[i]).touches(log_unit_id),
    ensures
        StoreState::empty().run(ops).entries_of(log_unit_id) == Seq::<LogEntryView>::empty(),
        StoreState::empty().run(ops).unit(log_unit_id) == None::<LogUnitView>,
        !StoreState::empty().run(ops).entries.contains_key(log_unit_id),
    decreases ops.len(),
{
    if ops.len() > 0 {
        let earlier = ops.drop_last();
        assert forall|i: int| 0 <= i < earlier.len() implies !(#[trigger] earlier[i]).touches(
            log_unit_id,
        ) by {
            assert(earlier[i] == ops[i]);
        }
        lemma_unknown_unit(earlier, log_unit_id);
        assert(!ops.last().touches(log_unit_id));
    }
}

/// Logging a sequence of messages for one unit appends exactly these
/// messages, in the order in which they were logged, to the messages of the
/// unit: none is lost, none is stored twice, none is stored in part. The
/// units and the messages of every other unit stay as they were.
pub proof fn lemma_log_all_appends(state: StoreState, entries: Seq<LogEntryView>, log_unit_id: u128)
    requires
        forall|i: int|
            0 <= i < entries.len() ==> (#[trigger] entries[i]).log_unit_id == log_unit_id,
    ensures
        state.log_all(entries).entries_of(log_unit_id) == state.entries_of(log_unit_id) + entries,
        state.log_all(entries).entries_of(log_unit_id).len() == state.entries_of(log_unit_id).len()
            + entries.len(),
        state.entries_of(log_unit_id).len() == 0 && entries.no_duplicates() ==> state.log_all(
            entries,
        ).entries_of(log_unit_id).no_duplicates(),
        state.log_all(entries).units == state.units,
        forall|other: u128|
            other != log_unit_id ==> #[trigger] state.log_all(entries).entries_of(other)
                == state.entries_of(other),
    decreases entries.len(),
{
    if entries.len() == 0 {
        assert(state.entries_of(log_unit_id) + entries =~= state.entries_of(log_unit_id));
    } else {
        let earlier = entries.drop_last();
        assert forall|i: int| 0 <= i < earlier.len() implies (#[trigger] earlier[i]).log_unit_id
            == log_unit_id by {
            assert(earlier[i] == entries[i]);
        }
        lemma_log_all_appends(state, earlier, log_unit_id);
        let before = state.log_all(earlier);
        assert(before.with_entry(entries.last()).entries_of(log_unit_id) =~= (state.entries_of(
            log_unit_id,
        ) + earlier).push(entries.last()));
        assert((state.entries_of(log_unit_id) + earlier).push(entries.last())
            =~= state.entries_of(log_unit_id) + entries);
        assert forall|other: u128| other != log_unit_id implies #[trigger] state.log_all(
            entries,
        ).entries_of(other) == state.entries_of(other) by {
            assert(before.entries_of(other) == state.entries_of(other));
        }
    }
}

/// In whatever order a given collection of messages for one unit is logged,
/// the unit ends up with the same collection of messages: the order of the
/// calls decides the order of the messages and nothing else.
pub proof fn lemma_log_all_any_order(
    state: StoreState,
    first: Seq<LogEntryView>,
    second: Seq<LogEntryView>,
    log_unit_id: u128,
)
    requires
        forall|i: int| 0 <= i < first.len() ==> (#[trigger] first[i]).log_unit_id == log_unit_id,
        forall|i: int| 0 <= i < second.len() ==> (#[trigger] second[i]).log_unit_id == log_unit_id,
        first.to_multiset() == second.to_multiset(),
    ensures
        state.log_all(first).entries_of(log_unit_id).to_multiset() == state.log_all(
            second,
        ).entries_of(log_unit_id).to_multiset(),
        state.log_all(first).entries_of(log_unit_id).len() == state.log_all(second).entries_of(
            log_unit_id,
        ).len(),
{
    lemma_log_all_appends(state, first, log_unit_id);
    lemma_log_all_appends(state, second, log_unit_id);
    vstd::seq_lib::lemma_multiset_commutative(state.entries_of(log_unit_id), first);
    vstd::seq_lib::lemma_multiset_commutative(state.entries_of(log_unit_id), second);
    first.to_multiset_ensures();
    second.to_multiset_ensures();
}

/// The operations of a log destination. Any number of callers may share a
/// destination behind a lock: each operation is one step on the state.
pub trait LogService {
    /// The state of the destination.
    spec fn state(&self) -> StoreState;

    /// Whether no operation of this destination ever fails, as is the case
    /// where everything is kept in memory.
    spec fn never_fails(&self) -> bool;

    /// Creates a log unit with the given external identifier and stores it.
    /// On failure nothing is stored.
    fn create_log_unit(&mut self, external_id: String) -> (r: LogResult<LogUnit>)
        ensures
            old(self).never_fails() ==> r is Ok,
            final(self).never_fails() == old(self).never_fails(),
            match r {
                Ok(unit) => {
                    &&& unit@.external_id == external_id@
                    &&& final(self).state() == old(self).state().with_unit(unit@)
                },
                Err(_) => final(self).state() == old(self).state(),
            },
    ;

    /// Stores a message as the last message of the unit it names, whether
    /// or not that unit was created, and mirrors it to the console. On
    /// failure nothing is stored and nothing is mirrored.
    fn log(&mut self, entry: LogEntry) -> (r: LogResult<()>)
        ensures
            old(self).never_fails() ==> r is Ok,
            final(self).never_fails() == old(self).never_fails(),
            match r {
                Ok(_) => final(self).state() == old(self).state().with_entry(entry@),
                Err(_) => final(self).state() == old(self).state(),
            },
    ;

    /// The messages of a unit in the order in which they were logged; none
    /// for a unit that is not known.
    fn get_log_entries(&self, log_unit_id: u128) -> (r: LogResult<Vec<LogEntry>>)
        ensures
            self.never_fails() ==> r is Ok,
            r matches Ok(entries) ==> entry_views(entries@) == self.state().entries_of(
                log_unit_id,
            ),
    ;

    /// The unit with the given identifier, or `None` where there is none.
    fn get_log_unit(&self, log_unit_id: u128) -> (r: LogResult<Option<LogUnit>>)
        ensures
            self.never_fails() ==> r is Ok,
            r matches Ok(unit) ==> optional_unit_view(unit) == self.state().unit(log_unit_id),
    ;

    /// All units that carry the given external identifier, each once.
    fn get_log_units_by_external_id(&self, external_id: &str) -> (r: LogResult<Vec<LogUnit>>)
        ensures
            self.never_fails() ==> r is Ok,
            r matches Ok(units) ==> lists(
                unit_views(units@),
                self.state().units_with_external_id(external_id@),
            ),
    ;

    /// Takes the lines that were mirrored to the console since they were
    /// last taken, oldest first. What is stored stays.
    fn take_console_output(&mut self) -> (lines: Vec<String>)
        ensures
            text_views(lines@) == old(self).state().console,
            final(self).state() == old(self).state().without_console(),
            final(self).never_fails() == old(self).never_fails(),
    ;
}

} // verus!
