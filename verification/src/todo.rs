//! A todo entry, the list filter, and the one error a store reports.

use vstd::prelude::*;

verus! {

/// One entry of the list.
#[derive(Debug, Clone, PartialEq, Eq)]
pub struct Todo {
    pub id: u32,
    pub completed: bool,
    pub text: String,
}

/// What a [`Todo`] is, as a mathematical value.
pub struct TodoView {
    pub id: nat,
    pub completed: bool,
    pub text: Seq<char>,
}

impl View for Todo {
    type V = TodoView;

    open spec fn view(&self) -> TodoView {
        TodoView { id: self.id as nat, completed: self.completed, text: self.text@ }
    }
}

/// Which entries the rendered list shows.
#[derive(Debug, Clone, Copy, PartialEq, Eq, Structural)]
pub enum Filter {
    All,
    Active,
    Completed,
}

impl Filter {
    /// Whether an entry with the given `completed` flag is shown under this
    /// filter.
    pub open spec fn admits(self, completed: bool) -> bool {
        match self {
            Filter::All => true,
            Filter::Active => !completed,
            Filter::Completed => completed,
        }
    }

    /// Whether `item` is shown under this filter.
    pub fn matches(&self, item: &Todo) -> (shown: bool)
        ensures
            shown == self.admits(item.completed),
    {
        match self {
            Filter::All => true,
            Filter::Active => !item.completed,
            Filter::Completed => item.completed,
        }
    }
}

impl Default for Filter {
    fn default() -> (filter: Filter)
        ensures
            filter == Filter::All,
    {
        Filter::All
    }
}

/// Why a store operation did not take place.
#[derive(Debug, Clone, Copy, PartialEq, Eq, Structural)]
pub enum StoreError {
    /// No entry has the id that was asked for.
    NotFound,
}

} // verus!
