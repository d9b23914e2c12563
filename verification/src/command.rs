//! The commands of the todo list.

use vstd::prelude::*;

verus! {

/// One request against the item table.
#[derive(Debug)]
pub enum ItemCommand {
    /// Add a new item with this note.
    Add(String),
    /// Mark the item with this id as done.
    Done(usize),
    /// Remove the item with this id.
    Remove(usize),
    /// List every item.
    List,
}

/// The mathematical picture of an [`ItemCommand`].
pub enum CommandView {
    Add(Seq<char>),
    Done(nat),
    Remove(nat),
    List,
}

impl View for ItemCommand {
    type V = CommandView;

    open spec fn view(&self) -> CommandView {
        match self {
            ItemCommand::Add(note) => CommandView::Add(note@),
            ItemCommand::Done(id) => CommandView::Done(*id as nat),
            ItemCommand::Remove(id) => CommandView::Remove(*id as nat),
            ItemCommand::List => CommandView::List,
        }
    }
}

} // verus!
