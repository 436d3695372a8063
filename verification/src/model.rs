//! The todo store as a mathematical value, and its operations as functions
//! on that value. The contracts of [`crate::store::DbData`] are stated over
//! these.

use vstd::prelude::*;
use crate::todo::{Filter, Todo, TodoView};

verus! {

/// What a store holds: the id counter, the filter in force, and the entries
/// in insertion order.
pub struct DbView {
    pub inc: nat,
    pub filter: Filter,
    pub todos: Seq<TodoView>,
}

/// The entries of a list, each as a mathematical value.
pub open spec fn views_of(list: Seq<Todo>) -> Seq<TodoView> {
    Seq::new(list.len(), |i: int| list[i]@)
}

/// The test for an entry that is not completed.
pub open spec fn is_active() -> spec_fn(TodoView) -> bool {
    |t: TodoView| !t.completed
}

/// The test for an entry that `filter` admits.
pub open spec fn is_admitted(filter: Filter) -> spec_fn(TodoView) -> bool {
    |t: TodoView| filter.admits(t.completed)
}

/// The entries of `todos` that are not completed, in their order.
pub open spec fn active(todos: Seq<TodoView>) -> Seq<TodoView> {
    todos.filter(is_active())
}

/// The entries of `todos` that `filter` admits, in their order.
pub open spec fn admitted(todos: Seq<TodoView>, filter: Filter) -> Seq<TodoView> {
    todos.filter(is_admitted(filter))
}

impl TodoView {
    /// The same entry with its `completed` flag set to `done`.
    pub open spec fn with_completed(self, done: bool) -> TodoView {
        TodoView { id: self.id, completed: done, text: self.text }
    }
}

impl DbView {
    /// The store at startup.
    pub open spec fn empty() -> DbView {
        DbView { inc: 0, filter: Filter::All, todos: Seq::empty() }
    }

    /// Ids grow strictly along insertion order, and none exceeds the counter.
    pub open spec fn wf(self) -> bool {
        &&& forall|i: int, j: int|
            0 <= i < j < self.todos.len() ==> self.todos[i].id < self.todos[j].id
        &&& forall|i: int| 0 <= i < self.todos.len() ==> self.todos[i].id <= self.inc
    }

    /// Some entry has this id.
    pub open spec fn has_id(self, id: nat) -> bool {
        exists|i: int| 0 <= i < self.todos.len() && self.todos[i].id == id
    }

    /// `i` is the first position whose entry has this id.
    pub open spec fn is_first(self, id: nat, i: int) -> bool {
        &&& 0 <= i < self.todos.len()
        &&& self.todos[i].id == id
        &&& forall|j: int| 0 <= j < i ==> self.todos[j].id != id
    }

    /// The first position whose entry has this id, counted in insertion order.
    /// Meaningful only when [`Self::has_id`] holds.
    pub open spec fn position(self, id: nat) -> int {
        choose|i: int| self.is_first(id, i)
    }

    /// Every entry is completed. True of the empty store.
    pub open spec fn every_completed(self) -> bool {
        forall|i: int| 0 <= i < self.todos.len() ==> self.todos[i].completed
    }

    /// The store is not empty and every entry is completed.
    pub open spec fn all_completed(self) -> bool {
        self.todos.len() > 0 && self.every_completed()
    }

    /// How many entries are not completed.
    pub open spec fn count_active(self) -> nat {
        active(self.todos).len()
    }

    /// The entries that the list shows, in the order it shows them: newest
    /// first, and only those the filter admits.
    pub open spec fn visible(self) -> Seq<TodoView> {
        admitted(self.todos.reverse(), self.filter)
    }

    /// After `create`: the counter goes up by one and a fresh, not completed
    /// entry with the new counter value as its id is added at the end.
    pub open spec fn create(self, text: Seq<char>) -> DbView {
        DbView {
            inc: self.inc + 1,
            filter: self.filter,
            todos: self.todos.push(TodoView { id: self.inc + 1, completed: false, text }),
        }
    }

    /// The store with the `completed` flag of the entry at `i` flipped.
    pub open spec fn toggle_at(self, i: int) -> DbView {
        DbView {
            inc: self.inc,
            filter: self.filter,
            todos: self.todos.update(i, self.todos[i].with_completed(!self.todos[i].completed)),
        }
    }

    /// After `toggle`: the entry with this id has its flag flipped; a store
    /// without such an entry stays as it is.
    pub open spec fn toggle(self, id: nat) -> DbView {
        if self.has_id(id) {
            self.toggle_at(self.position(id))
        } else {
            self
        }
    }

    /// After `delete`: the entry with this id is gone and the others keep
    /// their order; a store without such an entry stays as it is.
    pub open spec fn delete(self, id: nat) -> DbView {
        if self.has_id(id) {
            DbView {
                inc: self.inc,
                filter: self.filter,
                todos: self.todos.remove(self.position(id)),
            }
        } else {
            self
        }
    }

    /// The flag that `toggle_all` gives every entry: completed, unless every
    /// entry is completed already.
    pub open spec fn toggle_all_target(self) -> bool {
        !self.every_completed()
    }

    /// After `toggle_all`: every entry carries [`Self::toggle_all_target`].
    pub open spec fn toggle_all(self) -> DbView {
        DbView {
            inc: self.inc,
            filter: self.filter,
            todos: Seq::new(
                self.todos.len(),
                |i: int| self.todos[i].with_completed(self.toggle_all_target()),
            ),
        }
    }

    /// `toggle_all` changes the flag of at least one entry.
    pub open spec fn toggle_all_changes(self) -> bool {
        exists|i: int|
            0 <= i < self.todos.len() && self.todos[i].completed != self.toggle_all_target()
    }

    /// After `set_filter`: only the filter differs.
    pub open spec fn set_filter(self, mode: Filter) -> DbView {
        DbView { inc: self.inc, filter: mode, todos: self.todos }
    }
}

/// The first position of an id is unique: whatever position is first, it is
/// the one that [`DbView::position`] names.
pub proof fn lemma_first_is_position(s: DbView, id: nat, i: int)
    requires
        s.is_first(id, i),
    ensures
        s.has_id(id),
        s.position(id) == i,
{
    let p = s.position(id);
    assert(s.is_first(id, p));
    if p < i {
        assert(s.todos[p].id != id);
    } else if i < p {
        assert(s.todos[i].id != id);
    }
}

/// Where an id is present, [`DbView::position`] is the first place that
/// holds it.
pub proof fn lemma_position_is_first(s: DbView, id: nat)
    requires
        s.has_id(id),
    ensures
        s.is_first(id, s.position(id)),
{
    let w = choose|i: int| 0 <= i < s.todos.len() && s.todos[i].id == id;
    lemma_first_exists(s, id, w);
}

/// If some place up to `w` holds the id, some place is the first to hold it.
proof fn lemma_first_exists(s: DbView, id: nat, w: int)
    requires
        0 <= w < s.todos.len(),
        s.todos[w].id == id,
    ensures
        exists|i: int| s.is_first(id, i),
    decreases w,
{
    if forall|j: int| 0 <= j < w ==> s.todos[j].id != id {
        assert(s.is_first(id, w));
    } else {
        let j = choose|j: int| 0 <= j < w && s.todos[j].id == id;
        lemma_first_exists(s, id, j);
    }
}

/// Adding an entry at the end adds it to the active entries exactly when it
/// is not completed.
pub proof fn lemma_active_push(todos: Seq<TodoView>, t: TodoView)
    ensures
        active(todos.push(t)) == if t.completed {
            active(todos)
        } else {
            active(todos).push(t)
        },
{
    reveal(Seq::filter);
    assert(todos.push(t).drop_last() =~= todos);
}

/// Adding an entry at the end adds it to the admitted entries exactly when
/// the filter admits it.
pub proof fn lemma_admitted_push(todos: Seq<TodoView>, filter: Filter, t: TodoView)
    ensures
        admitted(todos.push(t), filter) == if filter.admits(t.completed) {
            admitted(todos, filter).push(t)
        } else {
            admitted(todos, filter)
        },
{
    reveal(Seq::filter);
    assert(todos.push(t).drop_last() =~= todos);
}

} // verus!
