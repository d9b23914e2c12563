//! What holds of the commands, stated over the picture of the store.
//!
//! Each law takes what [`exec`](crate::executor::exec) promises of a command
//! that succeeded and spells out what follows for the rows. A command that
//! failed has left the store as it was, so a history of a store is the
//! sequence of the commands that succeeded.

use vstd::prelude::*;
use crate::command::CommandView;
use crate::executor::{executed, listed, shown};
use crate::item::{empty_store, lemma_listing_counts, lists, ItemView, RowView, StoreView};
use crate::text::{line_text, shows};

verus! {

/// Adding an item reports one row and makes the table one row larger: the
/// new row holds the note, is not done, and stands under the id that follows
/// the largest id given so far, which is at least one and was not in use.
/// Every other row stays as it was.
pub proof fn law_add_adds_one_row(note: Seq<char>, before: StoreView, after: StoreView, count: nat)
    requires
        executed(CommandView::Add(note), before, after, count),
    ensures
        count == 1,
        after.count() == before.count() + 1,
        before.next_id() >= 1,
        !before.rows.dom().contains(before.next_id()),
        after.rows.dom() == before.rows.dom().insert(before.next_id()),
        after.rows[before.next_id()] == (RowView { note, is_done: false }),
        after.highest == before.next_id(),
        forall|id: int| before.rows.dom().contains(id) ==> #[trigger] after.rows[id] == before.rows[id],
{
    let id = before.next_id();
    assert(!before.rows.dom().contains(id));
    assert(after.rows.dom() =~= before.rows.dom().insert(id));
}

/// The first item of a store that has never held a row gets the id one, and
/// is then the only row.
pub proof fn law_first_item_gets_id_one(note: Seq<char>, after: StoreView, count: nat)
    requires
        executed(CommandView::Add(note), empty_store(), after, count),
    ensures
        count == 1,
        after.rows == Map::<int, RowView>::empty().insert(1, RowView { note, is_done: false }),
        after.highest == 1,
{
}

/// Marking an item as done reports one row where the id is in use: that row
/// is done afterwards and keeps its note, and no other row changes. Where
/// the id is not in use it reports none and the store stays as it was.
pub proof fn law_done_targets_one_row(id: nat, before: StoreView, after: StoreView, count: nat)
    requires
        executed(CommandView::Done(id), before, after, count),
    ensures
        after.rows.dom() == before.rows.dom(),
        before.rows.dom().contains(id as int) ==> {
            &&& count == 1
            &&& after.rows[id as int].is_done
            &&& after.rows[id as int].note == before.rows[id as int].note
        },
        forall|other: int|
            before.rows.dom().contains(other) && other != id ==> #[trigger] after.rows[other]
                == before.rows[other],
        !before.rows.dom().contains(id as int) ==> count == 0 && after == before,
{
    assert(after.rows.dom() =~= before.rows.dom());
}

/// Removing an item reports one row where the id is in use: that row is gone
/// afterwards, and every other row stays under its own id as it was. Where
/// the id is not in use it reports none and the store stays as it was.
pub proof fn law_remove_targets_one_row(id: nat, before: StoreView, after: StoreView, count: nat)
    requires
        executed(CommandView::Remove(id), before, after, count),
    ensures
        after.rows.dom() == before.rows.dom().remove(id as int),
        before.rows.dom().contains(id as int) ==> count == 1 && after.count() + 1 == before.count(),
        forall|other: int|
            before.rows.dom().contains(other) && other != id ==> after.rows.dom().contains(other)
                && #[trigger] after.rows[other] == before.rows[other],
        !before.rows.dom().contains(id as int) ==> count == 0 && after == before,
{
    assert(after.rows.dom() =~= before.rows.dom().remove(id as int));
    if !before.rows.dom().contains(id as int) {
        assert(after.rows =~= before.rows);
    }
}

/// A listing reports as many rows as the table holds, writes exactly that
/// many lines, and leaves the store as it was.
pub proof fn law_list_counts_the_rows(
    store: StoreView,
    after: StoreView,
    count: nat,
    shown_before: Seq<Seq<char>>,
    shown_after: Seq<Seq<char>>,
)
    requires
        executed(CommandView::List, store, after, count),
        listed(shown_before, shown_after, store.rows),
    ensures
        after == store,
        count == store.count(),
        shown_after.len() == shown_before.len() + count,
{
    let items = choose|items: Seq<ItemView>| #[trigger]
        lists(items, store.rows) && shown(shown_before, shown_after, items);
    lemma_listing_counts(items, store.rows);
}

/// An item that was added is shown by the next listing: among the lines that
/// the listing writes there is one with the note as it was given, not struck
/// through, under the id that the item got.
pub proof fn law_added_item_is_listed(
    note: Seq<char>,
    before: StoreView,
    store: StoreView,
    count: nat,
    shown_before: Seq<Seq<char>>,
    shown_after: Seq<Seq<char>>,
)
    requires
        executed(CommandView::Add(note), before, store, count),
        listed(shown_before, shown_after, store.rows),
    ensures
        exists|i: int|
            shown_before.len() <= i < shown_after.len() && #[trigger] shown_after[i] == line_text(
                before.next_id(),
                note,
            ),
{
    let id = before.next_id();
    let items = choose|items: Seq<ItemView>| #[trigger]
        lists(items, store.rows) && shown(shown_before, shown_after, items);
    assert(store.rows.dom().contains(id));
    let k = choose|k: int| 0 <= k < items.len() && #[trigger] items[k].id == id;
    assert(shows(items[k], shown_after[shown_before.len() + k]));
    let i = shown_before.len() + k;
    assert(shown_after[i] == line_text(id, note));
}

/// No command takes a done flag back, and no command changes a note: a row
/// that is still there keeps its note, and stays done where it was done.
pub proof fn law_rows_keep_note_and_done(
    command: CommandView,
    before: StoreView,
    after: StoreView,
    count: nat,
    id: int,
)
    requires
        executed(command, before, after, count),
        before.rows.dom().contains(id),
        after.rows.dom().contains(id),
    ensures
        after.rows[id].note == before.rows[id].note,
        before.rows[id].is_done ==> after.rows[id].is_done,
{
}

/// No command brings an id into use that is not above every id given so
/// far, and none lowers the largest id given.
pub proof fn law_ids_count_upwards(
    command: CommandView,
    before: StoreView,
    after: StoreView,
    count: nat,
)
    requires
        executed(command, before, after, count),
    ensures
        after.highest >= before.highest,
        forall|id: int|
            after.rows.dom().contains(id) && !before.rows.dom().contains(id) ==> id
                > before.highest,
{
}

/// Some command that succeeded on `before` has left `after`.
pub open spec fn follows(before: StoreView, after: StoreView) -> bool {
    exists|command: CommandView, count: nat| #[trigger] executed(command, before, after, count)
}

/// The stores that a history goes through: each is left by a command that
/// succeeded on the one before.
pub open spec fn is_history(stores: Seq<StoreView>) -> bool {
    forall|i: int| 0 <= i < stores.len() - 1 ==> follows(#[trigger] stores[i], stores[i + 1])
}

/// An id is never given twice. An id that was in use at some time and is out
/// of use at a later time was removed between the two, and it is out of use
/// at every time after that.
pub proof fn law_ids_are_never_given_again(
    stores: Seq<StoreView>,
    early: int,
    late: int,
    later: int,
    id: int,
)
    requires
        is_history(stores),
        0 <= early <= late <= later < stores.len(),
        stores[early].rows.dom().contains(id),
        !stores[late].rows.dom().contains(id),
    ensures
        !stores[later].rows.dom().contains(id),
    decreases later - late,
{
    lemma_highest_never_falls(stores, early, later);
    if late < later {
        law_ids_are_never_given_again(stores, early, late, later - 1, id);
        lemma_highest_never_falls(stores, early, later - 1);
        let before = stores[later - 1];
        assert(follows(before, stores[later - 1 + 1]));
        let (command, count) = choose|command: CommandView, count: nat| #[trigger]
            executed(command, before, stores[later], count);
        law_ids_count_upwards(command, before, stores[later], count);
    }
}

/// Along a history no id in use lies above the largest id given, and the
/// largest id given never falls.
proof fn lemma_highest_never_falls(stores: Seq<StoreView>, early: int, late: int)
    requires
        is_history(stores),
        0 <= early <= late < stores.len(),
        stores.len() > 1,
    ensures
        stores[early].well_formed(),
        stores[early].highest <= stores[late].highest,
    decreases late - early,
{
    if early < late {
        lemma_highest_never_falls(stores, early, late - 1);
        let before = stores[late - 1];
        assert(follows(before, stores[late - 1 + 1]));
        let (command, count) = choose|command: CommandView, count: nat| #[trigger]
            executed(command, before, stores[late], count);
        law_ids_count_upwards(command, before, stores[late], count);
    } else if early < stores.len() - 1 {
        assert(follows(stores[early], stores[early + 1]));
    } else {
        assert(follows(stores[early - 1], stores[early - 1 + 1]));
    }
}

} // verus!
