//! Ordering log messages by the time of their creation.

use crate::model::log_entry::{LogEntry, LogEntryView};
use crate::model::log_service::entry_views;
use vstd::prelude::*;

verus! {

/// Whether the message at index `i` comes before the message at index `j`
/// when the messages are arranged by time: it is older, or it is of the
/// same time and stands earlier in `entries`.
pub open spec fn comes_before(entries: Seq<LogEntryView>, i: int, j: int) -> bool {
    entries[i].timestamp.nanos < entries[j].timestamp.nanos || (entries[i].timestamp.nanos
        == entries[j].timestamp.nanos && i < j)
}

/// `order` arranges the indices of `entries` by time: it names as many
/// indices as there are messages, and each index it names comes before all
/// that follow it. So `order` names every index once, older messages come
/// first, and messages of the same time keep the order they had.
pub open spec fn is_time_order(order: Seq<int>, entries: Seq<LogEntryView>) -> bool {
    &&& order.len() == entries.len()
    &&& forall|a: int| 0 <= a < order.len() ==> 0 <= #[trigger] order[a] < entries.len()
    &&& forall|a: int, b: int|
        0 <= a < b < order.len() ==> comes_before(entries, #[trigger] order[a], #[trigger] order[b])
}

/// The messages of `entries` in the arrangement `order`.
pub open spec fn arranged(order: Seq<int>, entries: Seq<LogEntryView>) -> Seq<LogEntryView> {
    order.map_values(|i: int| entries[i])
}

/// `sorted` holds the messages of `entries` arranged by time, messages of
/// the same time in the order they had in `entries`.
pub open spec fn is_sorted_by_time(sorted: Seq<LogEntryView>, entries: Seq<LogEntryView>) -> bool {
    exists|order: Seq<int>| #[trigger]
        is_time_order(order, entries) && sorted == arranged(order, entries)
}

/// In a sequence that is sorted by time no message is older than one that
/// stands before it.
pub proof fn lemma_sorted_by_time_ascends(sorted: Seq<LogEntryView>, entries: Seq<LogEntryView>)
    requires
        is_sorted_by_time(sorted, entries),
    ensures
        sorted.len() == entries.len(),
        forall|a: int, b: int|
            0 <= a <= b < sorted.len() ==> (#[trigger] sorted[a]).timestamp.nanos <= (
            #[trigger] sorted[b]).timestamp.nanos,
        forall|a: int| 0 <= a < sorted.len() ==> entries.contains(#[trigger] sorted[a]),
{
    let order = choose|order: Seq<int>| #[trigger]
        is_time_order(order, entries) && sorted == arranged(order, entries);
    assert forall|a: int, b: int| 0 <= a <= b < sorted.len() implies (
    #[trigger] sorted[a]).timestamp.nanos <= (#[trigger] sorted[b]).timestamp.nanos by {
        if a < b {
            assert(comes_before(entries, order[a], order[b]));
        }
    }
    assert forall|a: int| 0 <= a < sorted.len() implies entries.contains(#[trigger] sorted[a]) by {
        assert(entries[order[a]] == sorted[a]);
    }
}

/// An arrangement by time names every index of the messages.
proof fn lemma_time_order_names_every_index(order: Seq<int>, entries: Seq<LogEntryView>, i: int)
    requires
        is_time_order(order, entries),
        0 <= i < entries.len(),
    ensures
        exists|a: int| 0 <= a < order.len() && order[a] == i,
{
    let n = entries.len() as int;
    assert forall|a: int, b: int|
        0 <= a < order.len() && 0 <= b < order.len() && a != b implies order[a] != order[b] by {
        if a < b {
            assert(comes_before(entries, order[a], order[b]));
        } else {
            assert(comes_before(entries, order[b], order[a]));
        }
    }
    order.unique_seq_to_set();
    vstd::seq_lib::seq_to_set_is_finite(order);
    vstd::set_lib::lemma_int_range(0, n);
    let range = vstd::set_lib::set_int_range(0, n);
    assert forall|x: int| order.to_set().contains(x) implies range.contains(x) by {
        let a = choose|a: int| 0 <= a < order.len() && order[a] == x;
        assert(0 <= order[a] < n);
    }
    vstd::set_lib::lemma_subset_equality(order.to_set(), range);
    assert(range.contains(i));
    assert(order.to_set().contains(i));
}

/// Two arrangements by time of the same messages name the same index at
/// every place.
proof fn lemma_time_orders_agree(
    first: Seq<int>,
    second: Seq<int>,
    entries: Seq<LogEntryView>,
    a: int,
)
    requires
        is_time_order(first, entries),
        is_time_order(second, entries),
        0 <= a < entries.len(),
    ensures
        first[a] == second[a],
    decreases a,
{
    assert forall|b: int| 0 <= b < a implies first[b] == second[b] by {
        lemma_time_orders_agree(first, second, entries, b);
    }
    let x = first[a];
    let y = second[a];
    if x != y {
        if comes_before(entries, x, y) {
            lemma_time_order_names_every_index(second, entries, x);
            let c = choose|c: int| 0 <= c < second.len() && second[c] == x;
            if c < a {
                assert(comes_before(entries, first[c], first[a]));
            } else {
                assert(comes_before(entries, second[a], second[c]));
            }
        } else {
            assert(comes_before(entries, y, x));
            lemma_time_order_names_every_index(first, entries, y);
            let c = choose|c: int| 0 <= c < first.len() && first[c] == y;
            if c < a {
                assert(comes_before(entries, second[c], second[a]));
            } else {
                assert(comes_before(entries, first[a], first[c]));
            }
        }
    }
}

/// There is one arrangement of given messages by time and no other: two
/// sequences that are both sorted by time from the same messages are equal.
pub proof fn lemma_sorted_by_time_unique(
    first: Seq<LogEntryView>,
    second: Seq<LogEntryView>,
    entries: Seq<LogEntryView>,
)
    requires
        is_sorted_by_time(first, entries),
        is_sorted_by_time(second, entries),
    ensures
        first == second,
{
    let order1 = choose|order: Seq<int>| #[trigger]
        is_time_order(order, entries) && first == arranged(order, entries);
    let order2 = choose|order: Seq<int>| #[trigger]
        is_time_order(order, entries) && second == arranged(order, entries);
    assert forall|a: int| 0 <= a < first.len() implies first[a] == second[a] by {
        lemma_time_orders_agree(order1, order2, entries, a);
    }
    assert(first =~= second);
}

/// Arranges messages by the time of their creation, oldest first. Messages
/// of the same time keep the order in which they were given.
pub fn sort_by_timestamp(entries: Vec<LogEntry>) -> (sorted: Vec<LogEntry>)
    ensures
        is_sorted_by_time(entry_views(sorted@), entry_views(entries@)),
        sorted.len() == entries.len(),
{
    let ghost all = entry_views(entries@);
    let ghost mut order: Seq<int> = Seq::empty();
    let mut sorted: Vec<LogEntry> = Vec::new();
    for entry in it: entries
        invariant
            it.seq() == entries@,
            all == entry_views(entries@),
            sorted.len() == it.index(),
            order.len() == it.index(),
            forall|a: int| 0 <= a < order.len() ==> 0 <= #[trigger] order[a] < it.index(),
            forall|a: int, b: int|
                0 <= a < b < order.len() ==> comes_before(
                    all,
                    #[trigger] order[a],
                    #[trigger] order[b],
                ),
            forall|a: int| 0 <= a < order.len() ==> (#[trigger] sorted[a])@ == all[order[a]],
    {
        let ghost k = it.index();
        let ghost order_before = order;
        let ghost sorted_before = sorted@;
        assert(entry@ == all[k]);
        let mut pos: usize = sorted.len();
        while pos > 0 && sorted[pos - 1].timestamp.nanos > entry.timestamp.nanos
            invariant
                pos <= sorted.len(),
                forall|a: int|
                    pos <= a < sorted.len() ==> (#[trigger] sorted[a]).timestamp.nanos
                        > entry.timestamp.nanos,
            decreases pos,
        {
            pos = pos - 1;
        }
        sorted.insert(pos, entry);
        proof {
            order = order_before.insert(pos as int, k);
            assert forall|a: int| 0 <= a < order.len() implies (#[trigger] sorted[a])@
                == all[order[a]] by {
                if a < pos {
                    assert(sorted[a] == sorted_before[a]);
                } else if a > pos {
                    assert(sorted[a] == sorted_before[a - 1]);
                }
            }
            assert forall|a: int, b: int| 0 <= a < b < order.len() implies comes_before(
                all,
                #[trigger] order[a],
                #[trigger] order[b],
            ) by {
                if b == pos {
                    // the messages before the new one are not younger
                    assert(order[a] == order_before[a]);
                    assert(sorted_before[a]@ == all[order_before[a]]);
                    if a < pos - 1 {
                        assert(comes_before(all, order_before[a], order_before[pos - 1]));
                    }
                    assert(sorted_before[pos - 1]@ == all[order_before[pos - 1]]);
                } else if a == pos {
                    // the messages after the new one are younger
                    assert(order[b] == order_before[b - 1]);
                    assert(sorted_before[b - 1]@ == all[order_before[b - 1]]);
                } else {
                    let a0 = if a < pos { a } else { a - 1 };
                    let b0 = if b < pos { b } else { b - 1 };
                    assert(order[a] == order_before[a0]);
                    assert(order[b] == order_before[b0]);
                    assert(comes_before(all, order_before[a0], order_before[b0]));
                }
            }
        }
    }
    proof {
        assert(entry_views(sorted@) =~= arranged(order, all));
        assert(is_time_order(order, all));
    }
    sorted
}

} // verus!
