//! A todo list kept in a local SQLite database.
//!
//! - [`arguments`] resolves the arguments of the process into a command and
//!   the path of the database.
//! - [`executor`] opens the database and runs one command against the item
//!   table: one statement per command.
//! - [`text`] writes the lines of a listing.
//! - [`item`] holds the item and the picture of the table that the contracts
//!   speak of, [`laws`] what follows from the contracts for the rows.
//!
//! The argument parser, the storage engine and the terminal styling are
//! outside crates. Their calls stand in [`arguments`], [`store`] and
//! [`text`], each behind a function whose contract is believed and says so;
//! everything else is proved.

pub mod arguments;
pub mod command;
pub mod executor;
pub mod item;
pub mod laws;
pub mod store;
pub mod text;
