//! Reading a sequence of stored records: every record must be readable,
//! and the first one that is not fails the whole read.

use crate::model::log_service::LogErrorView;
use vstd::prelude::*;

verus! {

/// The values read from a sequence of records, given what each single
/// record was read as: all values in the order of the records, or the
/// error of the first record that could not be read.
pub open spec fn collect<V>(results: Seq<Result<V, LogErrorView>>) -> Result<Seq<V>, LogErrorView>
    decreases results.len(),
{
    if results.len() == 0 {
        Ok(Seq::empty())
    } else {
        match collect(results.drop_last()) {
            Err(error) => Err(error),
            Ok(values) => match results.last() {
                Ok(value) => Ok(values.push(value)),
                Err(error) => Err(error),
            },
        }
    }
}

/// Reading one record more: a failure so far stays, else the next record
/// decides.
pub proof fn lemma_collect_next<V>(results: Seq<Result<V, LogErrorView>>, i: int)
    requires
        0 <= i < results.len(),
    ensures
        collect(results.take(i + 1)) == (match collect(results.take(i)) {
            Err(error) => Err(error),
            Ok(values) => match results[i] {
                Ok(value) => Ok(values.push(value)),
                Err(error) => Err(error),
            },
        }),
{
    assert(results.take(i + 1).drop_last() =~= results.take(i));
    assert(results.take(i + 1).last() == results[i]);
}

/// The failure of a part of the records from the first on is the failure
/// of the whole read.
pub proof fn lemma_collect_failure_stays<V>(results: Seq<Result<V, LogErrorView>>, k: int)
    requires
        0 <= k <= results.len(),
        collect(results.take(k)) is Err,
    ensures
        collect(results) == collect(results.take(k)),
    decreases results.len() - k,
{
    if k == results.len() {
        assert(results.take(k) =~= results);
    } else {
        lemma_collect_next(results, k);
        lemma_collect_failure_stays(results, k + 1);
    }
}

/// A read succeeds exactly where every record can be read, and then gives
/// for each record the value it was read as. A read fails exactly where
/// some record cannot be read, and then with the error of the first such
/// record.
pub proof fn lemma_collect_outcome<V>(results: Seq<Result<V, LogErrorView>>)
    ensures
        match collect(results) {
            Ok(values) => values.len() == results.len() && forall|i: int|
                0 <= i < results.len() ==> #[trigger] results[i] == Ok::<V, LogErrorView>(
                    values[i],
                ),
            Err(error) => exists|k: int|
                0 <= k < results.len() && #[trigger] results[k] == Err::<V, LogErrorView>(error)
                    && forall|i: int| 0 <= i < k ==> (#[trigger] results[i]) is Ok,
        },
    decreases results.len(),
{
    if results.len() > 0 {
        let earlier = results.drop_last();
        lemma_collect_outcome(earlier);
        match collect(earlier) {
            Err(error) => {
                let k = choose|k: int|
                    0 <= k < earlier.len() && #[trigger] earlier[k] == Err::<V, LogErrorView>(error)
                        && forall|i: int| 0 <= i < k ==> (#[trigger] earlier[i]) is Ok;
                assert(results[k] == earlier[k]);
                assert forall|i: int| 0 <= i < k implies (#[trigger] results[i]) is Ok by {
                    assert(results[i] == earlier[i]);
                }
            },
            Ok(values) => {
                assert forall|i: int| 0 <= i < earlier.len() implies (#[trigger] results[i]) is Ok by {
                    assert(results[i] == earlier[i]);
                }
                match results.last() {
                    Ok(value) => {
                        let all = values.push(value);
                        assert forall|i: int| 0 <= i < results.len() implies #[trigger] results[i]
                            == Ok::<V, LogErrorView>(all[i]) by {
                            if i < earlier.len() {
                                assert(results[i] == earlier[i]);
                            }
                        }
                    },
                    Err(error) => {
                        assert(results[results.len() - 1] == Err::<V, LogErrorView>(error));
                    },
                }
            },
        }
    }
}

} // verus!
