//! The store executor: one statement against the item table per command.
//!
//! Each function says what the table holds afterwards and what it counts, for
//! a connection of which [`holds_item_table`] holds: one that reaches a store
//! of items and is the only writer of its database. [`open_in_memory`] hands
//! out such a connection. Of a database in a file, which other connections
//! may write to, [`open_database`] says only what it has left there.
//!
//! The storage engine alone decides whether a statement succeeds. Its
//! failure comes back as a [`StoreError`], is never retried, and leaves the
//! store as it was.

use vstd::prelude::*;
use rusqlite::Connection;
use crate::command::{CommandView, ItemCommand};
use crate::item::{
    adds_row, empty_store, lemma_added_row_counts, lemma_deleted_row_counts, lemma_flag_keeps_ids,
    lemma_listing_counts, lists, rows_matched, views, with_flag, without, Item, ItemView,
    StoreView, TableView,
};
use crate::store::{
    create_table, delete_row, forget_count, holds_item_table, insert_row, laid_out,
    open_existing, open_memory, open_or_create, opened_on, same_database, select_rows,
    sole_writer, store_view, update_flag,
};
use crate::text::{render, shows};

verus! {

/// A failure of the storage engine.
#[derive(Debug)]
pub enum StoreError {
    /// The database could be neither opened nor created.
    Open(rusqlite::Error),
    /// A statement against the item table failed.
    Statement(rusqlite::Error),
}

/// A connection as [`open_database`] or [`open_in_memory`] hands it out.
pub struct Opened {
    pub conn: Connection,
    /// The database was not there and has been created with an empty table.
    pub created: bool,
}

/// The texts of the lines of an output, in order.
pub open spec fn texts(lines: Seq<String>) -> Seq<Seq<char>> {
    lines.map_values(|line: String| line@)
}

/// `after` is `before` followed by one line for each of `items`, in order.
pub open spec fn shown(before: Seq<Seq<char>>, after: Seq<Seq<char>>, items: Seq<ItemView>) -> bool {
    &&& after.len() == before.len() + items.len()
    &&& after.subrange(0, before.len() as int) == before
    &&& forall|i: int| 0 <= i < items.len() ==> shows(#[trigger] items[i], after[before.len() + i])
}

/// `after` is `before` followed by one line for each row of `table`, each
/// row shown once.
pub open spec fn listed(before: Seq<Seq<char>>, after: Seq<Seq<char>>, table: TableView) -> bool {
    exists|items: Seq<ItemView>| #[trigger] lists(items, table) && shown(before, after, items)
}

/// What a command that succeeded has done to the store: `after` is what it
/// leaves of `before`, and `count` the number that it reports.
pub open spec fn executed(
    command: CommandView,
    before: StoreView,
    after: StoreView,
    count: nat,
) -> bool {
    &&& before.well_formed()
    &&& after.well_formed()
    &&& match command {
        CommandView::Add(note) => {
            &&& adds_row(before, after, note, false)
            &&& after.count() == before.count() + 1
            &&& count == 1
        },
        CommandView::Done(id) => {
            &&& after == with_flag(before, id as int, true)
            &&& count == rows_matched(before, id as int)
        },
        CommandView::Remove(id) => {
            &&& after == without(before, id as int)
            &&& count == rows_matched(before, id as int)
        },
        CommandView::List => {
            &&& after == before
            &&& count == before.count()
        },
    }
}

/// Turns the outcome of a statement into the library's own result: the count
/// as it is, the engine's error as a [`StoreError::Statement`].
pub fn counted(outcome: Result<usize, rusqlite::Error>) -> (r: Result<usize, StoreError>)
    ensures
        match (outcome, r) {
            (Ok(count), Ok(same)) => same == count,
            (Err(e), Err(StoreError::Statement(kept))) => kept == e,
            _ => false,
        },
{
    match outcome {
        Ok(count) => Ok(count),
        Err(e) => Err(StoreError::Statement(e)),
    }
}

/// Creates the table `item` and has the engine count its ids from nought.
/// After success the table has been left there without a row and with no
/// id given, so that its first item gets the id one; for a connection that
/// is the sole writer of its database this is a store of items of its own.
/// On a connection that holds such a store already the call fails, and the
/// store stays as it was.
pub fn create_item_table(conn: &mut Connection) -> (r: Result<(), StoreError>)
    ensures
        same_database(*old(conn), *final(conn)),
        r is Ok ==> laid_out(*final(conn)) && store_view(*final(conn)) == empty_store(),
        r is Ok && sole_writer(*old(conn)) ==> holds_item_table(*final(conn)),
        holds_item_table(*old(conn)) ==> {
            &&& r is Err
            &&& holds_item_table(*final(conn))
            &&& store_view(*final(conn)) == store_view(*old(conn))
        },
        r matches Err(e) ==> e is Statement,
{
    match counted(create_table(conn)) {
        Err(e) => Err(e),
        Ok(_) => {
            match counted(forget_count(conn)) {
                Err(e) => Err(e),
                Ok(_) => Ok(()),
            }
        },
    }
}

/// Stores a new item with `note`, not done, under the id that follows the
/// largest id given so far, and reports one row.
pub fn insert_into_item_table(conn: &mut Connection, note: String) -> (r: Result<usize, StoreError>)
    ensures
        same_database(*old(conn), *final(conn)),
        holds_item_table(*old(conn)) ==> (r matches Ok(count) ==> {
            &&& holds_item_table(*final(conn))
            &&& executed(
                CommandView::Add(note@),
                store_view(*old(conn)),
                store_view(*final(conn)),
                count as nat,
            )
        }),
        holds_item_table(*old(conn)) ==> (r is Err ==> {
            &&& holds_item_table(*final(conn))
            &&& store_view(*final(conn)) == store_view(*old(conn))
        }),
        r matches Err(e) ==> e is Statement,
{
    let r = counted(insert_row(conn, note.as_str(), false));
    proof {
        if holds_item_table(*old(conn)) && r is Ok {
            lemma_added_row_counts(store_view(*old(conn)), store_view(*conn), note@, false);
        }
    }
    r
}

/// Marks the item `id` as done and reports how many rows that were: one
/// where the id is in use, none where it is not, and then nothing changes.
pub fn set_item_as_done(conn: &mut Connection, id: usize) -> (r: Result<usize, StoreError>)
    ensures
        same_database(*old(conn), *final(conn)),
        holds_item_table(*old(conn)) ==> (r matches Ok(count) ==> {
            &&& holds_item_table(*final(conn))
            &&& executed(
                CommandView::Done(id as nat),
                store_view(*old(conn)),
                store_view(*final(conn)),
                count as nat,
            )
        }),
        holds_item_table(*old(conn)) ==> (r is Err ==> {
            &&& holds_item_table(*final(conn))
            &&& store_view(*final(conn)) == store_view(*old(conn))
        }),
        r matches Err(e) ==> e is Statement,
{
    let r = counted(update_flag(conn, true, id));
    proof {
        if holds_item_table(*old(conn)) && r is Ok {
            lemma_flag_keeps_ids(store_view(*old(conn)), id as int, true);
        }
    }
    r
}

/// Deletes the item `id` and reports how many rows that were: one where the
/// id is in use, none where it is not.
pub fn remove_item(conn: &mut Connection, id: usize) -> (r: Result<usize, StoreError>)
    ensures
        same_database(*old(conn), *final(conn)),
        holds_item_table(*old(conn)) ==> (r matches Ok(count) ==> {
            &&& holds_item_table(*final(conn))
            &&& executed(
                CommandView::Remove(id as nat),
                store_view(*old(conn)),
                store_view(*final(conn)),
                count as nat,
            )
        }),
        holds_item_table(*old(conn)) ==> (r is Err ==> {
            &&& holds_item_table(*final(conn))
            &&& store_view(*final(conn)) == store_view(*old(conn))
        }),
        r matches Err(e) ==> e is Statement,
{
    let r = counted(delete_row(conn, id));
    proof {
        if holds_item_table(*old(conn)) && r is Ok {
            lemma_deleted_row_counts(store_view(*old(conn)), id as int);
        }
    }
    r
}

/// Appends to `out` one line for each of `items`, in order, and reports how
/// many lines that were. What `out` held stays in front.
pub fn write_lines(items: &Vec<Item>, out: &mut Vec<String>) -> (count: usize)
    ensures
        count == items@.len(),
        final(out)@.len() == old(out)@.len() + items@.len(),
        final(out)@.subrange(0, old(out)@.len() as int) == old(out)@,
        shown(texts(old(out)@), texts(final(out)@), views(items@)),
{
    let mut i: usize = 0;
    while i < items.len()
        invariant
            i <= items@.len(),
            out@.len() == old(out)@.len() + i,
            out@.subrange(0, old(out)@.len() as int) == old(out)@,
            forall|k: int| 0 <= k < i ==> shows(#[trigger] items@[k]@, out@[old(out)@.len() + k]@),
        decreases items@.len() - i,
    {
        let line = render(&items[i]);
        out.push(line);
        i = i + 1;
    }
    proof {
        let before = texts(old(out)@);
        let after = texts(out@);
        assert(after.subrange(0, before.len() as int) =~= before) by {
            assert forall|k: int| 0 <= k < before.len() implies after[k] == before[k] by {
                assert(out@.subrange(0, old(out)@.len() as int)[k] == old(out)@[k]);
            }
        }
        assert forall|k: int| 0 <= k < views(items@).len() implies shows(
            #[trigger] views(items@)[k],
            after[before.len() + k],
        ) by {
            assert(shows(items@[k]@, out@[old(out)@.len() + k]@));
        }
    }
    i
}

/// Reads every item and appends one line for each to `out`. The count is the
/// number of rows in the table, and as many lines are appended. Where the
/// engine fails, `out` is left as it was.
pub fn list_items(conn: &Connection, out: &mut Vec<String>) -> (r: Result<usize, StoreError>)
    ensures
        holds_item_table(*conn) ==> (r matches Ok(count) ==> {
            &&& executed(CommandView::List, store_view(*conn), store_view(*conn), count as nat)
            &&& listed(texts(old(out)@), texts(final(out)@), store_view(*conn).rows)
        }),
        r matches Ok(count) ==> {
            &&& final(out)@.len() == old(out)@.len() + count
            &&& final(out)@.subrange(0, old(out)@.len() as int) == old(out)@
        },
        r matches Err(e) ==> e is Statement && final(out)@ == old(out)@,
{
    match select_rows(conn) {
        Err(e) => Err(StoreError::Statement(e)),
        Ok(items) => {
            let count = write_lines(&items, out);
            proof {
                if holds_item_table(*conn) {
                    lemma_listing_counts(views(items@), store_view(*conn).rows);
                    assert(lists(views(items@), store_view(*conn).rows));
                }
            }
            Ok(count)
        },
    }
}

/// Executes one command against the item table: exactly one statement. Lines
/// of a listing are appended to `out`; no other command touches it.
pub fn exec(conn: &mut Connection, item: ItemCommand, out: &mut Vec<String>) -> (r: Result<
    usize,
    StoreError,
>)
    ensures
        same_database(*old(conn), *final(conn)),
        holds_item_table(*old(conn)) ==> (r matches Ok(count) ==> {
            &&& holds_item_table(*final(conn))
            &&& executed(item@, store_view(*old(conn)), store_view(*final(conn)), count as nat)
            &&& item is List ==> listed(
                texts(old(out)@),
                texts(final(out)@),
                store_view(*old(conn)).rows,
            )
        }),
        holds_item_table(*old(conn)) ==> (r is Err ==> {
            &&& holds_item_table(*final(conn))
            &&& store_view(*final(conn)) == store_view(*old(conn))
        }),
        item is List ==> (r matches Ok(count) ==> {
            &&& final(out)@.len() == old(out)@.len() + count
            &&& final(out)@.subrange(0, old(out)@.len() as int) == old(out)@
        }),
        !(item is List) || r is Err ==> final(out)@ == old(out)@,
        r matches Err(e) ==> e is Statement,
{
    match item {
        ItemCommand::List => list_items(conn, out),
        ItemCommand::Add(note) => insert_into_item_table(conn, note),
        ItemCommand::Done(id) => set_item_as_done(conn, id),
        ItemCommand::Remove(id) => remove_item(conn, id),
    }
}

/// Settles the attempt to open the database as it is. A connection that
/// opened is handed out as it was found. A failure is no error yet, whatever
/// its reason: the database is then to be made.
pub fn opened_as_found(attempt: Result<Connection, rusqlite::Error>) -> (r: Option<Opened>)
    ensures
        match (attempt, r) {
            (Ok(conn), Some(opened)) => opened == (Opened { conn, created: false }),
            (Err(_), None) => true,
            _ => false,
        },
{
    match attempt {
        Ok(conn) => Some(Opened { conn, created: false }),
        Err(_) => None,
    }
}

/// Turns the outcome of creating the database into the library's own result:
/// the connection as it is, the engine's error as a [`StoreError::Open`].
pub fn reached(outcome: Result<Connection, rusqlite::Error>) -> (r: Result<Connection, StoreError>)
    ensures
        match (outcome, r) {
            (Ok(conn), Ok(same)) => same == conn,
            (Err(e), Err(StoreError::Open(kept))) => kept == e,
            _ => false,
        },
{
    match outcome {
        Ok(conn) => Ok(conn),
        Err(e) => Err(StoreError::Open(e)),
    }
}

/// Settles the making of the database. `conn` reaches the new database, and
/// `table` is what creating the item table in it came to. With the table the
/// connection is handed out as created; without it the failure comes back and
/// the connection is given up.
pub fn opened_as_made(conn: Connection, table: Result<(), StoreError>) -> (r: Result<
    Opened,
    StoreError,
>)
    ensures
        match (table, r) {
            (Ok(_), Ok(opened)) => opened == (Opened { conn, created: true }),
            (Err(e), Err(kept)) => kept == e,
            _ => false,
        },
{
    match table {
        Ok(_) => Ok(Opened { conn, created: true }),
        Err(e) => Err(e),
    }
}

/// Opens the database at `path`. It is first opened as it is, for reading and
/// writing. Where that fails, for whatever reason, it is created, and the
/// item table in it. Of a database that was there nothing is known. One that
/// has been created was left with the table laid out, without a row and
/// with no id given; other connections may reach the file, so no more is
/// said of it.
///
/// Whether the database opens, and whether it can be made, is for the
/// storage engine to say on every path. What is returned for each of its
/// answers is settled by [`opened_as_found`], [`reached`] and
/// [`opened_as_made`].
pub fn open_database(path: &str) -> (r: Result<Opened, StoreError>)
    ensures
        r matches Ok(opened) ==> {
            &&& opened_on(opened.conn) == path@
            &&& opened.created ==> laid_out(opened.conn) && store_view(opened.conn)
                == empty_store()
        },
{
    match opened_as_found(open_existing(path)) {
        Some(opened) => Ok(opened),
        None => {
            match reached(open_or_create(path)) {
                Err(e) => Err(e),
                Ok(conn) => {
                    let mut conn = conn;
                    let table = create_item_table(&mut conn);
                    opened_as_made(conn, table)
                },
            }
        },
    }
}

/// Opens a store of items in memory: a new database that no other connection
/// can reach, with the item table in it. After success the connection holds
/// a store of its own that has never held a row.
pub fn open_in_memory() -> (r: Result<Opened, StoreError>)
    ensures
        r matches Ok(opened) ==> {
            &&& opened.created
            &&& holds_item_table(opened.conn)
            &&& store_view(opened.conn) == empty_store()
        },
{
    match reached(open_memory()) {
        Err(e) => Err(e),
        Ok(conn) => {
            let mut conn = conn;
            let table = create_item_table(&mut conn);
            opened_as_made(conn, table)
        },
    }
}

} // verus!
