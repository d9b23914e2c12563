//! The item table in SQLite, reached through `rusqlite`.
//!
//! Verus cannot look into a database. What it is told about one stands in
//! this file: the two outside types, the names for what a connection
//! reaches, and one function per call whose contract is believed, not
//! proved. The executor is proved from these.
//!
//! A database lies outside the connection, and another connection may write
//! to it. What a statement does to the rows is therefore claimed only for a
//! connection that is the [`sole_writer`] of its database, and only the
//! engine gives that: it does for a database in memory, and for no file.
//!
//! Every statement names the table as `main.item`, so that a temporary
//! table of the same name does not stand before it. Whether a statement
//! succeeds is for the storage engine to say; one that fails leaves the
//! store as it was, since the engine applies a statement as a whole or not
//! at all.

use vstd::prelude::*;
use rusqlite::Connection;
use rusqlite::OpenFlags;
use crate::item::{
    adds_row, empty_store, lists, rows_matched, views, with_flag, without, Item, StoreView,
    TableView,
};

verus! {

/// `rusqlite::Connection`, carried through as an opaque value.
#[verifier::external_type_specification]
#[verifier::external_body]
pub struct ExConnection(rusqlite::Connection);

/// `rusqlite::Error`, carried through as an opaque value.
#[verifier::external_type_specification]
#[verifier::external_body]
pub struct ExStorageError(rusqlite::Error);

/// No other connection, in this process or in another, reaches the database
/// that `conn` reaches: what the database holds changes only by a statement
/// on `conn`.
pub uninterp spec fn sole_writer(conn: Connection) -> bool;

/// The text that was handed to the call that opened `conn`.
pub uninterp spec fn opened_on(conn: Connection) -> Seq<char>;

/// The rows of the table `main.item` in the database that `conn` reaches,
/// as a statement on this connection has last left or found them. Only for a
/// [`sole_writer`] are they the rows that the next statement finds.
pub uninterp spec fn stored_rows(conn: Connection) -> TableView;

/// The count that the engine keeps for the table `main.item`: the value
/// under the table's name in `main.sqlite_sequence`, nought where it keeps
/// none, as a statement on this connection has last left or found it. For a
/// key that counts upwards this is the largest id that the table has ever
/// held.
pub uninterp spec fn highest_id(conn: Connection) -> int;

/// The database that `conn` reaches holds the table `main.item` as
/// [`create_table`] lays it out, with nothing attached to it that acts on a
/// statement, and every row in it is as [`insert_row`] writes one: a text as
/// the note, and nought or one as the flag; as a statement on this
/// connection has last left or found it.
pub uninterp spec fn laid_out(conn: Connection) -> bool;

/// The picture of the store that `conn` reaches.
pub open spec fn store_view(conn: Connection) -> StoreView {
    StoreView { rows: stored_rows(conn), highest: highest_id(conn) }
}

/// `conn` reaches a store of items that is its own: nobody else writes to
/// the database, the table is laid out for items, it is finite, and no id in
/// it lies above the count, which is nought or more.
pub open spec fn holds_item_table(conn: Connection) -> bool {
    sole_writer(conn) && laid_out(conn) && store_view(conn).well_formed()
}

/// `after` is the connection `before` after a statement: it reaches the
/// database that it reached, and is its sole writer if it was.
pub open spec fn same_database(before: Connection, after: Connection) -> bool {
    sole_writer(after) == sole_writer(before) && opened_on(after) == opened_on(before)
}

/// `Connection::open_in_memory`, which makes a database in memory that no
/// other connection can reach.
///
/// The contract claims that the connection is the sole writer of its
/// database.
#[verifier::external_body]
pub(crate) fn open_memory() -> (r: Result<Connection, rusqlite::Error>)
    ensures
        r matches Ok(conn) ==> sole_writer(conn),
{
    Connection::open_in_memory()
}

/// `Connection::open_with_flags` for reading and writing, without the flag
/// that creates a missing file. Nothing is claimed of the database that it
/// finds, only that the connection was opened with `path`.
#[verifier::external_body]
pub(crate) fn open_existing(path: &str) -> (r: Result<Connection, rusqlite::Error>)
    ensures
        r matches Ok(conn) ==> opened_on(conn) == path@,
{
    Connection::open_with_flags(
        path,
        OpenFlags::SQLITE_OPEN_READ_WRITE | OpenFlags::SQLITE_OPEN_URI
            | OpenFlags::SQLITE_OPEN_NO_MUTEX,
    )
}

/// `Connection::open`, which creates the file where it is missing. Nothing
/// is claimed of the database that it finds or makes, only that the
/// connection was opened with `path`.
#[verifier::external_body]
pub(crate) fn open_or_create(path: &str) -> (r: Result<Connection, rusqlite::Error>)
    ensures
        r matches Ok(conn) ==> opened_on(conn) == path@,
{
    Connection::open(path)
}

/// `Connection::execute` with the statement that creates the table
/// `main.item`: an integer primary key `id` that counts upwards and is never
/// given twice, a text `note` and a flag `is_done`, none of them null.
///
/// The contract claims that after success the statement has left the table
/// there and empty, and the count which the engine keeps under its name as
/// it found it: the statement writes none. It claims that the statement
/// fails on a connection that holds its own store of items already, and
/// leaves the store as it was.
#[verifier::external_body]
pub(crate) fn create_table(conn: &mut Connection) -> (r: Result<usize, rusqlite::Error>)
    ensures
        same_database(*old(conn), *final(conn)),
        r is Ok ==> {
            &&& laid_out(*final(conn))
            &&& stored_rows(*final(conn)) == empty_store().rows
            &&& highest_id(*final(conn)) == highest_id(*old(conn))
        },
        holds_item_table(*old(conn)) ==> {
            &&& r is Err
            &&& laid_out(*final(conn))
            &&& store_view(*final(conn)) == store_view(*old(conn))
        },
{
    conn.execute(
        "CREATE TABLE main.item (
        id INTEGER PRIMARY KEY AUTOINCREMENT,
        note TEXT NOT NULL,
        is_done NOT NULL
    )",
        (),
    )
}

/// `Connection::execute` with the statement that deletes, from the engine's
/// table `main.sqlite_sequence`, the row under the name of the table `item`.
///
/// The contract claims that after success the engine keeps no count for the
/// table, and so counts from nought, and that the rows and the layout of the
/// table are as they were.
#[verifier::external_body]
pub(crate) fn forget_count(conn: &mut Connection) -> (r: Result<usize, rusqlite::Error>)
    ensures
        same_database(*old(conn), *final(conn)),
        r is Ok ==> {
            &&& highest_id(*final(conn)) == empty_store().highest
            &&& stored_rows(*final(conn)) == stored_rows(*old(conn))
            &&& laid_out(*final(conn)) == laid_out(*old(conn))
        },
{
    conn.execute("DELETE FROM main.sqlite_sequence WHERE name = 'item'", ())
}

/// `Connection::execute` with the statement that inserts one row, the note
/// and the flag bound to it.
///
/// The contract claims that after success one row has been reported, and the
/// table holds one row more: the note and the flag, under the id that
/// follows the count which the engine keeps, which is then the new count.
/// The engine takes the larger of that count and the last id in the table,
/// and the hypothesis has no id in the table above the count. After a
/// failure the store is as it was.
#[verifier::external_body]
pub(crate) fn insert_row(conn: &mut Connection, note: &str, is_done: bool) -> (r: Result<
    usize,
    rusqlite::Error,
>)
    ensures
        same_database(*old(conn), *final(conn)),
        holds_item_table(*old(conn)) ==> (r matches Ok(changed) ==> {
            &&& changed == 1
            &&& laid_out(*final(conn))
            &&& adds_row(store_view(*old(conn)), store_view(*final(conn)), note@, is_done)
        }),
        holds_item_table(*old(conn)) ==> (r is Err ==> {
            &&& laid_out(*final(conn))
            &&& store_view(*final(conn)) == store_view(*old(conn))
        }),
{
    conn.execute("INSERT INTO main.item (note, is_done) VALUES (?1, ?2)", (note, is_done))
}

/// `Connection::execute` with the statement that sets the flag of the row
/// whose id is `id`, the flag and the id bound to it.
///
/// The contract claims that after success the rows that the statement met
/// have been reported, one or none as ids are unique, and that the row, if
/// there is one, has the flag and is otherwise as before. No other row
/// changes. An id beyond the engine's integers fails the call. After a
/// failure the store is as it was.
#[verifier::external_body]
pub(crate) fn update_flag(conn: &mut Connection, is_done: bool, id: usize) -> (r: Result<
    usize,
    rusqlite::Error,
>)
    ensures
        same_database(*old(conn), *final(conn)),
        holds_item_table(*old(conn)) ==> (r matches Ok(changed) ==> {
            &&& changed == rows_matched(store_view(*old(conn)), id as int)
            &&& laid_out(*final(conn))
            &&& store_view(*final(conn)) == with_flag(store_view(*old(conn)), id as int, is_done)
        }),
        holds_item_table(*old(conn)) ==> (r is Err ==> {
            &&& laid_out(*final(conn))
            &&& store_view(*final(conn)) == store_view(*old(conn))
        }),
{
    conn.execute("UPDATE main.item SET is_done = ?1 WHERE id = ?2", (is_done, id))
}

/// `Connection::execute` with the statement that deletes the row whose id is
/// `id`, the id bound to it.
///
/// The contract claims that after success the rows that the statement met
/// have been reported, one or none, and that the row, if there was one, is
/// gone, while its id stays given. No other row changes. An id beyond the
/// engine's integers fails the call. After a failure the store is as it was.
#[verifier::external_body]
pub(crate) fn delete_row(conn: &mut Connection, id: usize) -> (r: Result<usize, rusqlite::Error>)
    ensures
        same_database(*old(conn), *final(conn)),
        holds_item_table(*old(conn)) ==> (r matches Ok(changed) ==> {
            &&& changed == rows_matched(store_view(*old(conn)), id as int)
            &&& laid_out(*final(conn))
            &&& store_view(*final(conn)) == without(store_view(*old(conn)), id as int)
        }),
        holds_item_table(*old(conn)) ==> (r is Err ==> {
            &&& laid_out(*final(conn))
            &&& store_view(*final(conn)) == store_view(*old(conn))
        }),
{
    conn.execute("DELETE FROM main.item WHERE id = ?1", (id,))
}

/// `Connection::prepare` and `Statement::query_map` with the statement that
/// selects every row, each row read into an [`Item`] with `Row::get`.
///
/// The contract claims that after success every row of the table has come
/// exactly once. It leaves the order to the engine. A row whose id does not
/// fit an item's id fails the call.
#[verifier::external_body]
pub(crate) fn select_rows(conn: &Connection) -> (r: Result<Vec<Item>, rusqlite::Error>)
    ensures
        holds_item_table(*conn) ==> (r matches Ok(items) ==> lists(
            views(items@),
            stored_rows(*conn),
        )),
{
    let mut statement = conn.prepare("SELECT id, note, is_done FROM main.item")?;
    let rows = statement.query_map(
        [],
        |row| Ok(Item { id: row.get(0)?, note: row.get(1)?, is_done: row.get(2)? }),
    )?;
    let items = rows.collect();
    items
}

} // verus!
