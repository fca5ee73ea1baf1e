//! The console destination: an in-memory store that mirrors every logged
//! message as a coloured console line.

use crate::destinations::console_line::format_entry;
use crate::model::log_entry::{LogEntry, LogEntryView};
use crate::model::log_service::{
    entry_views, lists, matching_units, text_views, unit_views, LogResult, LogService, StoreState,
};
use crate::model::log_unit::{LogUnit, LogUnitView};
use crate::model::text::str_equal;
use std::collections::HashMap;
use vstd::prelude::*;
use vstd::std_specs::hash::{group_hash_axioms, spec_hash_map_iter};
use vstd::std_specs::iter::IteratorSpec;

verus! {

/// A copy of a vector of log messages.
pub fn clone_entries(entries: &Vec<LogEntry>) -> (copy: Vec<LogEntry>)
    ensures
        entry_views(copy@) == entry_views(entries@),
{
    let mut copy: Vec<LogEntry> = Vec::new();
    let mut i: usize = 0;
    while i < entries.len()
        invariant
            i <= entries.len(),
            copy.len() == i,
            forall|j: int| 0 <= j < i ==> copy[j]@ == entries[j]@,
        decreases entries.len() - i,
    {
        copy.push(entries[i].clone());
        i = i + 1;
    }
    assert(entry_views(copy@) =~= entry_views(entries@));
    copy
}

/// The stored log units, each kept under its own identifier.
pub struct UnitTable {
    units: HashMap<u128, LogUnit>,
}

impl View for UnitTable {
    type V = Map<u128, LogUnitView>;

    closed spec fn view(&self) -> Map<u128, LogUnitView> {
        self.units@.map_values(|u: LogUnit| u@)
    }
}

impl UnitTable {
    /// Every unit is kept under its own identifier.
    #[verifier::type_invariant]
    spec fn keyed_by_id(&self) -> bool {
        forall|id: u128| #[trigger]
            self.units@.contains_key(id) ==> self.units@[id].id == id
    }

    /// A table without units.
    pub fn new() -> (table: UnitTable)
        ensures
            table@ == Map::<u128, LogUnitView>::empty(),
    {
        let table = UnitTable { units: HashMap::new() };
        assert(table@ =~= Map::<u128, LogUnitView>::empty());
        table
    }

    /// Puts a unit under its identifier, in place of any unit that was
    /// there.
    pub fn insert(&mut self, unit: LogUnit)
        ensures
            final(self)@ == old(self)@.insert(unit.id, unit@),
    {
        broadcast use group_hash_axioms;

        proof {
            use_type_invariant(&*self);
        }
        let ghost before = self@;
        let ghost value = unit@;
        // The map is taken out for the insertion and put back whole: the
        // table is never seen with its invariant suspended.
        let mut units: HashMap<u128, LogUnit> = HashMap::new();
        std::mem::swap(&mut self.units, &mut units);
        units.insert(unit.id, unit);
        self.units = units;
        assert(self@ =~= before.insert(value.id, value));
    }

    /// A copy of the unit with the given identifier, if there is one.
    pub fn get(&self, id: u128) -> (found: Option<LogUnit>)
        ensures
            self@.contains_key(id) ==> found is Some && found->0@ == self@[id],
            !self@.contains_key(id) ==> found is None,
            found matches Some(unit) ==> unit.id == id,
    {
        broadcast use group_hash_axioms;

        proof {
            use_type_invariant(self);
        }
        match self.units.get(&id) {
            Some(stored) => Some(stored.clone()),
            None => None,
        }
    }

    /// Copies of all units with the given external identifier, found by a
    /// scan over the table. The order is that in which the table is walked.
    pub fn with_external_id(&self, external_id: &str) -> (found: Vec<LogUnit>)
        ensures
            lists(unit_views(found@), matching_units(self@, external_id@)),
    {
        broadcast use group_hash_axioms;

        proof {
            use_type_invariant(self);
        }
        let mut found: Vec<LogUnit> = Vec::new();
        let ghost mut picked: Seq<int> = Seq::empty();
        let ghost mut seen: int = 0;
        let ghost pairs = spec_hash_map_iter(&self.units).remaining();
        for pair in it: self.units.iter()
            invariant
                it.seq() == pairs,
                it.index() == seen,
                pairs.no_duplicates(),
                picked.len() == found.len(),
                forall|j: int|
                    0 <= j < picked.len() ==> 0 <= #[trigger] picked[j] < seen && found[j]@ == (
                    *pairs[picked[j]].1)@,
                forall|j: int, k: int| 0 <= j < k < picked.len() ==> picked[j] < picked[k],
                forall|j: int|
                    0 <= j < picked.len() ==> (#[trigger] found[j])@.external_id == external_id@,
                forall|i: int|
                    0 <= i < seen && (*pairs[i].1)@.external_id == external_id@ ==> exists|j: int|
                        0 <= j < picked.len() && #[trigger] picked[j] == i,
        {
            let (_id, unit) = pair;
            let ghost picked_before = picked;
            if str_equal(unit.external_id.as_str(), external_id) {
                found.push(unit.clone());
                proof {
                    picked = picked.push(seen);
                }
            }
            proof {
                assert forall|i: int|
                    0 <= i < seen + 1 && (*pairs[i].1)@.external_id
                        == external_id@ implies exists|j: int|
                    0 <= j < picked.len() && #[trigger] picked[j] == i by {
                    if i < seen {
                        let j = choose|j: int|
                            0 <= j < picked_before.len() && #[trigger] picked_before[j] == i;
                        assert(picked[j] == i);
                    } else {
                        assert(picked[picked.len() - 1] == seen);
                    }
                }
                seen = seen + 1;
            }
        }
        proof {
            assert(seen == pairs.len());
            let units = self.units@;
            let listing = unit_views(found@);
            let members = matching_units(self@, external_id@);
            assert forall|j: int, k: int|
                0 <= j < listing.len() && 0 <= k < listing.len() && j != k implies listing[j]
                != listing[k] by {
                let a = picked[j];
                let b = picked[k];
                assert(units.contains_key(*pairs[a].0) && units[*pairs[a].0] == *pairs[a].1);
                assert(units.contains_key(*pairs[b].0) && units[*pairs[b].0] == *pairs[b].1);
                if listing[j] == listing[k] {
                    assert(*pairs[a].0 == *pairs[b].0);
                    assert(pairs[a] == pairs[b]);
                    assert(a == b);
                    assert(false);
                }
            }
            assert forall|u: LogUnitView| listing.to_set().contains(u) implies members.contains(
                u,
            ) by {
                let j = choose|j: int| 0 <= j < listing.len() && listing[j] == u;
                let a = picked[j];
                assert(units.contains_key(*pairs[a].0) && units[*pairs[a].0] == *pairs[a].1);
            }
            assert forall|u: LogUnitView| members.contains(u) implies listing.to_set().contains(
                u,
            ) by {
                let id = u.id;
                assert(units.contains_key(id));
                assert(pairs.contains((&id, &units[id])));
                let i = choose|i: int| 0 <= i < pairs.len() && pairs[i] == (&id, &units[id]);
                let j = choose|j: int| 0 <= j < picked.len() && picked[j] == i;
                assert(listing[j] == u);
            }
            assert(listing.to_set() =~= members);
        }
        found
    }
}

/// Console-based log destination: keeps units and messages in memory and
/// mirrors every logged message as a coloured console line.
pub struct ConsoleDestination {
    log_units: UnitTable,
    log_entries: HashMap<u128, Vec<LogEntry>>,
    console: Vec<String>,
}

impl ConsoleDestination {
    /// Creates a console destination that holds nothing.
    pub fn new() -> (store: ConsoleDestination)
        ensures
            store.state() == StoreState::empty(),
    {
        let store = ConsoleDestination {
            log_units: UnitTable::new(),
            log_entries: HashMap::new(),
            console: Vec::new(),
        };
        proof {
            assert(store.state().entries =~= Map::empty());
            assert(store.state().console =~= Seq::empty());
        }
        store
    }

    /// Stores a unit under its identifier and gives it an empty sequence of
    /// messages. A unit already stored under that identifier is replaced,
    /// and its messages are dropped.
    pub fn insert_unit(&mut self, unit: LogUnit)
        ensures
            final(self).state() == old(self).state().with_unit(unit@),
    {
        broadcast use group_hash_axioms;

        let id: u128 = unit.id;
        let ghost before = self.state();
        let ghost value = unit@;
        self.log_units.insert(unit);
        self.log_entries.insert(id, Vec::new());
        proof {
            assert(entry_views(Seq::<LogEntry>::empty()) =~= Seq::<LogEntryView>::empty());
            assert(self.state().entries =~= before.with_unit(value).entries);
        }
    }
}

impl Default for ConsoleDestination {
    fn default() -> (store: ConsoleDestination)
        ensures
            store.state() == StoreState::empty(),
    {
        ConsoleDestination::new()
    }
}

impl LogService for ConsoleDestination {
    closed spec fn state(&self) -> StoreState {
        StoreState {
            units: self.log_units@,
            entries: self.log_entries@.map_values(|es: Vec<LogEntry>| entry_views(es@)),
            console: text_views(self.console@),
        }
    }

    open spec fn never_fails(&self) -> bool {
        true
    }

    /// Creates a unit with a fresh identifier and stores it. Never fails.
    fn create_log_unit(&mut self, external_id: String) -> (r: LogResult<LogUnit>) {
        let log_unit = LogUnit::new(external_id);
        self.insert_unit(log_unit.clone());
        Ok(log_unit)
    }

    /// Stores a message and mirrors it to the console. Never fails.
    fn log(&mut self, entry: LogEntry) -> (r: LogResult<()>) {
        broadcast use group_hash_axioms;

        let id: u128 = entry.log_unit_id;
        let ghost before = self.state();
        let ghost value = entry@;
        let line = format_entry(&entry);
        let mut unit_entries: Vec<LogEntry> = match self.log_entries.remove(&id) {
            Some(stored) => stored,
            None => Vec::new(),
        };
        proof {
            assert(entry_views(unit_entries@) =~= before.entries_of(id));
            assert(entry_views(unit_entries@.push(entry)) =~= before.entries_of(id).push(value));
        }
        unit_entries.push(entry);
        self.log_entries.insert(id, unit_entries);
        self.console.push(line);
        proof {
            assert(self.state().entries =~= before.with_entry(value).entries);
            assert(self.state().console =~= before.with_entry(value).console);
        }
        Ok(())
    }

    /// The messages of a unit in the order in which they were logged. Never
    /// fails.
    fn get_log_entries(&self, log_unit_id: u128) -> (r: LogResult<Vec<LogEntry>>) {
        broadcast use group_hash_axioms;

        match self.log_entries.get(&log_unit_id) {
            Some(stored) => Ok(clone_entries(stored)),
            None => {
                assert(entry_views(Seq::<LogEntry>::empty()) =~= Seq::<LogEntryView>::empty());
                Ok(Vec::new())
            },
        }
    }

    /// The unit with the given identifier, or `None`. Never fails.
    fn get_log_unit(&self, log_unit_id: u128) -> (r: LogResult<Option<LogUnit>>)
        ensures
            r matches Ok(Some(unit)) ==> unit.id == log_unit_id,
    {
        Ok(self.log_units.get(log_unit_id))
    }

    /// All units with the given external identifier, found by a scan over
    /// the stored units. Never fails.
    fn get_log_units_by_external_id(&self, external_id: &str) -> (r: LogResult<Vec<LogUnit>>) {
        Ok(self.log_units.with_external_id(external_id))
    }

    fn take_console_output(&mut self) -> (lines: Vec<String>) {
        let ghost before = self.state();
        let mut lines: Vec<String> = Vec::new();
        std::mem::swap(&mut self.console, &mut lines);
        proof {
            assert(self.state().console =~= before.without_console().console);
        }
        lines
    }
}

} // verus!
