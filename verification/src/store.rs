//! A model of the record store, and what a whole poll does against it.
//!
//! The store itself is reached by the caller. Here it is a sequence of rows
//! in ascending order of identifier, with the two queries that a poll makes:
//! the highest identifier, and the rows above a given identifier. `poll`
//! chains the cursor's two steps over one unchanging store, and the proofs
//! below say what comes out of it.

use crate::daemon::{
    fetch_point_after_check, row_outcomes, watermark_after_check, watermark_after_rows, Outcome,
    Row,
};
use crate::decoder::{decode_spec, DecodeFailureView};
use crate::payload::{has_binary_opening, hex_text, parsed_payload};
use vstd::prelude::*;

verus! {

/// Whether the rows stand in strictly ascending order of identifier.
pub open spec fn ascending(rows: Seq<Row>) -> bool {
    forall|i: int, j: int| 0 <= i < j < rows.len() ==> rows[i].0 < rows[j].0
}

/// The highest identifier in an ascending store; `None` for an empty one.
pub open spec fn max_id(store: Seq<Row>) -> Option<int> {
    if store.len() == 0 {
        None
    } else {
        Some(store.last().0)
    }
}

/// The test that picks the rows whose identifier is above `id`.
pub open spec fn is_after(id: int) -> spec_fn(Row) -> bool {
    |row: Row| row.0 > id
}

/// The rows of the store whose identifier is above `id`, in store order.
pub open spec fn rows_after(store: Seq<Row>, id: int) -> Seq<Row> {
    store.filter(is_after(id))
}

/// One poll of `store` from `watermark`: the watermark afterwards, and the
/// outcome of each row that was fetched.
pub open spec fn poll(watermark: Option<int>, store: Seq<Row>) -> (Option<int>, Seq<Outcome>) {
    let checked = watermark_after_check(watermark, max_id(store));
    match fetch_point_after_check(watermark, max_id(store)) {
        None => (checked, Seq::empty()),
        Some(after) => {
            let rows = rows_after(store, after);
            (watermark_after_rows(checked, rows), row_outcomes(rows))
        },
    }
}

/// No row of `rows` is above `id` when every identifier is at most `id`.
proof fn lemma_none_after(rows: Seq<Row>, id: int)
    requires
        forall|i: int| 0 <= i < rows.len() ==> rows[i].0 <= id,
    ensures
        rows_after(rows, id) == Seq::<Row>::empty(),
    decreases rows.len(),
{
    reveal_with_fuel(Seq::filter, 2);
    if rows.len() > 0 {
        lemma_none_after(rows.drop_last(), id);
        assert(!is_after(id)(rows.last()));
    } else {
        assert(rows =~= Seq::<Row>::empty());
    }
}

/// Every row of `rows` is above `id` when every identifier is.
proof fn lemma_all_after(rows: Seq<Row>, id: int)
    requires
        forall|i: int| 0 <= i < rows.len() ==> rows[i].0 > id,
    ensures
        rows_after(rows, id) == rows,
    decreases rows.len(),
{
    reveal_with_fuel(Seq::filter, 2);
    if rows.len() > 0 {
        lemma_all_after(rows.drop_last(), id);
        assert(is_after(id)(rows.last()));
        assert(rows.drop_last().push(rows.last()) =~= rows);
    }
}

/// The highest identifier of an ascending store is the identifier of one of
/// its rows and no row lies above it.
pub proof fn max_id_is_the_greatest(store: Seq<Row>)
    requires
        ascending(store),
        store.len() > 0,
    ensures
        max_id(store) matches Some(top) && (exists|i: int|
            0 <= i < store.len() && store[i].0 == top) && (forall|i: int|
            0 <= i < store.len() ==> store[i].0 <= top),
{
    let last = store.len() - 1;
    assert(store[last].0 == store.last().0);
    assert forall|i: int| 0 <= i < store.len() implies store[i].0 <= store.last().0 by {
        if i < last {
            assert(store[i].0 < store[last].0);
        }
    }
}

/// What the store hands out above `id` is what a poll relies on: rows of the
/// store, every one above `id`, in strictly ascending order.
pub proof fn rows_after_are_ascending_and_above(store: Seq<Row>, id: int)
    requires
        ascending(store),
    ensures
        ascending(rows_after(store, id)),
        forall|k: int|
            0 <= k < rows_after(store, id).len() ==> (#[trigger] rows_after(store, id)[k]).0 > id,
        forall|k: int|
            0 <= k < rows_after(store, id).len() ==> store.contains(
                #[trigger] rows_after(store, id)[k],
            ),
    decreases store.len(),
{
    reveal_with_fuel(Seq::filter, 2);
    if store.len() > 0 {
        let rest = store.drop_last();
        let last = store.last();
        rows_after_are_ascending_and_above(rest, id);
        let fetched = rows_after(rest, id);
        assert forall|k: int| 0 <= k < fetched.len() implies store.contains(
            #[trigger] fetched[k],
        ) && fetched[k].0 < last.0 by {
            assert(rest.contains(fetched[k]));
            let j = choose|j: int| 0 <= j < rest.len() && rest[j] == fetched[k];
            assert(store[j] == fetched[k]);
            assert(store[j].0 < store[store.len() - 1].0);
        }
        if is_after(id)(last) {
            assert(rows_after(store, id) == fetched.push(last));
            assert(store[store.len() - 1] == last);
        }
    }
}

/// A poll of a non-empty store always ends with the watermark at the
/// store's highest identifier, wherever it started.
pub proof fn poll_reaches_the_maximum(watermark: Option<int>, store: Seq<Row>)
    requires
        ascending(store),
        store.len() > 0,
    ensures
        poll(watermark, store).0 == max_id(store),
{
    reveal_with_fuel(Seq::filter, 2);
    let top = store.last().0;
    match watermark {
        None => {},
        Some(w) => {
            if top > w {
                assert(is_after(w)(store.last()));
                assert(rows_after(store, w).last() == store.last());
            } else if top < w {
                shrink_resynchronizes(w, store);
            }
        },
    }
}

/// Polling the same store a second time emits nothing and leaves the
/// watermark where the first poll put it.
pub proof fn second_poll_is_silent(watermark: Option<int>, store: Seq<Row>)
    requires
        ascending(store),
    ensures
        poll(poll(watermark, store).0, store) == (
            poll(watermark, store).0,
            Seq::<Outcome>::empty(),
        ),
{
    if store.len() > 0 {
        poll_reaches_the_maximum(watermark, store);
    }
}

/// The first poll of a non-empty store puts the watermark at the store's
/// highest identifier and fetches nothing, so nothing that was there before
/// the daemon started is ever emitted.
pub proof fn first_poll_is_silent(store: Seq<Row>)
    requires
        store.len() > 0,
    ensures
        poll(None, store) == (Some(store.last().0), Seq::<Outcome>::empty()),
{
}

/// Polling an empty store changes nothing and emits nothing.
pub proof fn empty_store_is_silent(watermark: Option<int>)
    ensures
        poll(watermark, Seq::<Row>::empty()) == (watermark, Seq::<Outcome>::empty()),
{
}

/// A poll that finds the highest identifier at the watermark changes nothing
/// and emits nothing.
pub proof fn unchanged_store_is_silent(watermark: int, store: Seq<Row>)
    requires
        max_id(store) == Some(watermark),
    ensures
        poll(Some(watermark), store) == (Some(watermark), Seq::<Outcome>::empty()),
{
}

/// When rows above the watermark have been added to the store, the next poll
/// decodes exactly the added rows, in their order, and moves the watermark
/// to the last of them.
pub proof fn growth_is_detected(watermark: int, kept: Seq<Row>, added: Seq<Row>)
    requires
        forall|i: int| 0 <= i < kept.len() ==> kept[i].0 <= watermark,
        forall|i: int| 0 <= i < added.len() ==> added[i].0 > watermark,
        added.len() > 0,
    ensures
        poll(Some(watermark), kept + added) == (Some(added.last().0), row_outcomes(added)),
{
    let store = kept + added;
    assert(store.last() == added.last());
    assert(rows_after(store, watermark) == added) by {
        Seq::filter_distributes_over_add(kept, added, is_after(watermark));
        lemma_none_after(kept, watermark);
        lemma_all_after(added, watermark);
        assert(Seq::<Row>::empty() + added =~= added);
    }
}

/// When the `count` rows numbered from the watermark upwards without a gap
/// have been added, the next poll decodes exactly those rows in ascending
/// order and the watermark ends `count` higher.
pub proof fn consecutive_growth_is_detected(watermark: int, kept: Seq<Row>, added: Seq<Row>)
    requires
        forall|i: int| 0 <= i < kept.len() ==> kept[i].0 <= watermark,
        forall|i: int| 0 <= i < added.len() ==> added[i].0 == watermark + 1 + i,
        added.len() > 0,
    ensures
        poll(Some(watermark), kept + added) == (
            Some(watermark + added.len()),
            row_outcomes(added),
        ),
        ascending(added),
{
    growth_is_detected(watermark, kept, added);
}

/// When the store's highest identifier has fallen below the watermark, the
/// next poll emits nothing and drops the watermark to that identifier: the
/// row that now holds it is not delivered.
pub proof fn shrink_resynchronizes(watermark: int, store: Seq<Row>)
    requires
        ascending(store),
        store.len() > 0,
        store.last().0 < watermark,
    ensures
        poll(Some(watermark), store) == (Some(store.last().0), Seq::<Outcome>::empty()),
{
    let top = store.last().0;
    assert forall|i: int| 0 <= i < store.len() implies store[i].0 <= top by {
        if i < store.len() - 1 {
            assert(store[i].0 < store[store.len() - 1].0);
        }
    }
    lemma_none_after(store, top);
    assert(row_outcomes(Seq::<Row>::empty()) =~= Seq::<Outcome>::empty());
}

/// Rows are decoded one by one: the outcomes of two batches taken together
/// are the outcomes of the first followed by those of the second.
pub proof fn outcomes_are_per_row(first: Seq<Row>, second: Seq<Row>)
    ensures
        row_outcomes(first + second) == row_outcomes(first) + row_outcomes(second),
{
    assert(row_outcomes(first + second) =~= row_outcomes(first) + row_outcomes(second));
}

/// A row whose payload is no binary property list gives a failure of its own
/// and nothing else: the rows before and after it are decoded as if it were not
/// there, and the watermark still moves to the last row fetched.
pub proof fn failure_is_isolated(
    watermark: Option<int>,
    before: Seq<Row>,
    broken: Row,
    after: Seq<Row>,
)
    requires
        !has_binary_opening(broken.1) || parsed_payload(broken.1) is None,
    ensures
        row_outcomes(before + seq![broken] + after) == row_outcomes(before) + seq![
            Err(DecodeFailureView::NotAStructuredPayload { raw_hex: hex_text(broken.1) }),
        ] + row_outcomes(after),
        watermark_after_rows(watermark, before + seq![broken] + after) == Some(
            (before + seq![broken] + after).last().0,
        ),
        after.len() > 0 ==> watermark_after_rows(watermark, before + seq![broken] + after)
            == watermark_after_rows(watermark, before + after),
{
    let rows = before + seq![broken] + after;
    let failure: Outcome = Err(
        DecodeFailureView::NotAStructuredPayload { raw_hex: hex_text(broken.1) },
    );
    assert(decode_spec(broken.1, broken.0) == failure);
    assert(row_outcomes(rows) =~= row_outcomes(before) + seq![failure] + row_outcomes(after));
    if after.len() > 0 {
        assert(rows.last() == after.last());
        assert((before + after).last() == after.last());
    }
}

} // verus!
