//! Items and the mathematical picture of the store.
//!
//! The item table is pictured as a finite map from an item's id to its note
//! and its done flag, the store as that map with the largest id that was
//! ever given. Every contract about the store is stated over that picture.

use vstd::prelude::*;

verus! {

/// One item of the todo list as it is read from the table.
#[derive(Debug)]
pub struct Item {
    pub id: i32,
    pub note: String,
    pub is_done: bool,
}

/// The mathematical picture of an [`Item`].
pub struct ItemView {
    pub id: int,
    pub note: Seq<char>,
    pub is_done: bool,
}

impl View for Item {
    type V = ItemView;

    open spec fn view(&self) -> ItemView {
        ItemView { id: self.id as int, note: self.note@, is_done: self.is_done }
    }
}

/// What the table holds under one id.
pub struct RowView {
    pub note: Seq<char>,
    pub is_done: bool,
}

/// The rows of the item table: each id that is in use, with what is stored
/// under it.
pub type TableView = Map<int, RowView>;

/// The picture of the store: the rows of the item table, and the largest id
/// that the table has ever given to a row, nought where it has given none.
/// The table gives each new row the id that follows it, so that ids start at
/// one and an id is never given twice.
pub struct StoreView {
    pub rows: TableView,
    pub highest: int,
}

impl StoreView {
    /// The table is finite, the largest id that was given is nought or
    /// more, and no id in use lies above it.
    pub open spec fn well_formed(self) -> bool {
        &&& self.rows.dom().finite()
        &&& 0 <= self.highest
        &&& forall|id: int| #[trigger] self.rows.dom().contains(id) ==> id <= self.highest
    }

    /// The id that the next new row gets.
    pub open spec fn next_id(self) -> int {
        self.highest + 1
    }

    /// The number of rows.
    pub open spec fn count(self) -> nat {
        self.rows.dom().len()
    }
}

/// The views of the items of a vector, in order.
pub open spec fn views(items: Seq<Item>) -> Seq<ItemView> {
    items.map_values(|item: Item| item@)
}

/// The store that has never held a row.
pub open spec fn empty_store() -> StoreView {
    StoreView { rows: Map::empty(), highest: 0 }
}

/// The store after a new item with `note` has been stored under `id`.
pub open spec fn with_added(store: StoreView, id: int, note: Seq<char>, is_done: bool) -> StoreView {
    StoreView { rows: store.rows.insert(id, RowView { note, is_done }), highest: id }
}

/// `after` is `before` with one more row: `note` and `is_done`, stored under
/// the id that follows the largest id that the table has given so far.
pub open spec fn adds_row(
    before: StoreView,
    after: StoreView,
    note: Seq<char>,
    is_done: bool,
) -> bool {
    after == with_added(before, before.next_id(), note, is_done)
}

/// The store after the done flag of the item `id` has been set to `is_done`.
/// A store without that id stays as it is.
pub open spec fn with_flag(store: StoreView, id: int, is_done: bool) -> StoreView {
    if store.rows.dom().contains(id) {
        StoreView {
            rows: store.rows.insert(id, RowView { note: store.rows[id].note, is_done }),
            highest: store.highest,
        }
    } else {
        store
    }
}

/// The store after the item `id` has been deleted. The id stays given.
pub open spec fn without(store: StoreView, id: int) -> StoreView {
    StoreView { rows: store.rows.remove(id), highest: store.highest }
}

/// The number of rows that a statement aimed at `id` touches: ids are unique,
/// so it is one where the id is in use and zero where it is not.
pub open spec fn rows_matched(store: StoreView, id: int) -> nat {
    if store.rows.dom().contains(id) {
        1
    } else {
        0
    }
}

/// `items` is a full listing of `table`: every row appears exactly once, in
/// some order, with its own id, note and done flag.
pub open spec fn lists(items: Seq<ItemView>, table: TableView) -> bool {
    &&& forall|i: int|
        0 <= i < items.len() ==> table.dom().contains(#[trigger] items[i].id) && table[items[i].id]
            == (RowView { note: items[i].note, is_done: items[i].is_done })
    &&& forall|i: int, j: int|
        0 <= i < j < items.len() ==> #[trigger] items[i].id != #[trigger] items[j].id
    &&& forall|id: int| #[trigger]
        table.dom().contains(id) ==> exists|i: int| 0 <= i < items.len() && #[trigger] items[i].id == id
}

/// The ids of a listing, in order.
pub open spec fn ids(items: Seq<ItemView>) -> Seq<int> {
    items.map_values(|item: ItemView| item.id)
}

/// A table that can be listed is finite, and the listing is as long as the
/// table has rows.
pub proof fn lemma_listing_counts(items: Seq<ItemView>, table: TableView)
    requires
        lists(items, table),
    ensures
        table.dom().finite(),
        table.dom().len() == items.len(),
{
    let order = ids(items);
    assert(order.no_duplicates()) by {
        assert forall|i: int, j: int|
            0 <= i < order.len() && 0 <= j < order.len() && i != j implies order[i] != order[j] by {
            if i < j {
                assert(items[i].id != items[j].id);
            } else {
                assert(items[j].id != items[i].id);
            }
        }
    }
    assert(order.to_set() =~= table.dom()) by {
        assert forall|id: int| order.to_set().contains(id) <==> table.dom().contains(id) by {
            if order.to_set().contains(id) {
                let i = choose|i: int| 0 <= i < order.len() && order[i] == id;
                assert(table.dom().contains(items[i].id));
            }
            if table.dom().contains(id) {
                let i = choose|i: int| 0 <= i < items.len() && #[trigger] items[i].id == id;
                assert(order[i] == id);
            }
        }
    }
    order.unique_seq_to_set();
}

/// A well-formed store with a row added is well-formed, and has one row
/// more.
pub proof fn lemma_added_row_counts(
    before: StoreView,
    after: StoreView,
    note: Seq<char>,
    is_done: bool,
)
    requires
        before.well_formed(),
        adds_row(before, after, note, is_done),
    ensures
        after.well_formed(),
        after.count() == before.count() + 1,
{
    let id = before.next_id();
    assert(!before.rows.dom().contains(id));
    assert(after.rows.dom() =~= before.rows.dom().insert(id));
}

/// A well-formed store with a flag set is well-formed, under the same ids.
pub proof fn lemma_flag_keeps_ids(store: StoreView, id: int, is_done: bool)
    requires
        store.well_formed(),
    ensures
        with_flag(store, id, is_done).well_formed(),
        with_flag(store, id, is_done).rows.dom() == store.rows.dom(),
{
    assert(with_flag(store, id, is_done).rows.dom() =~= store.rows.dom());
}

/// A well-formed store with a row deleted is well-formed.
pub proof fn lemma_deleted_row_counts(store: StoreView, id: int)
    requires
        store.well_formed(),
    ensures
        without(store, id).well_formed(),
        without(store, id).count() + rows_matched(store, id) == store.count(),
{
    assert(without(store, id).rows.dom() =~= store.rows.dom().remove(id));
}

} // verus!
