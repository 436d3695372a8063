//! The todo store.

use vstd::prelude::*;
use crate::model::{active, lemma_active_push, lemma_first_is_position, views_of, DbView};
use crate::todo::{Filter, StoreError, Todo};

verus! {

/// The todos, the filter in force, and the counter that ids come from.
///
/// A store starts empty ([`DbData::new`]) and changes only through the
/// methods below, each of which keeps [`DbView::wf`].
pub struct DbData {
    inc: u32,
    filter: Filter,
    todos: Vec<Todo>,
}

impl View for DbData {
    type V = DbView;

    closed spec fn view(&self) -> DbView {
        DbView {
            inc: self.inc as nat,
            filter: self.filter,
            todos: views_of(self.todos@),
        }
    }
}

impl DbData {
    /// A store with no entries, the counter at zero and the filter on `All`.
    pub fn new() -> (db: DbData)
        ensures
            db@ == DbView::empty(),
    {
        let db = DbData { inc: 0, filter: Filter::All, todos: Vec::new() };
        assert(db@.todos =~= DbView::empty().todos);
        db
    }

    /// Adds a new, not completed entry with the next id and returns a copy
    /// of it. Any text is accepted.
    pub fn create(&mut self, text: String) -> (created: Todo)
        requires
            old(self)@.inc < u32::MAX,
        ensures
            final(self)@ == old(self)@.create(text@),
            created@ == final(self)@.todos.last(),
            created.id == old(self)@.inc + 1,
            old(self)@.wf() ==> final(self)@.wf(),
            old(self)@.wf() ==> forall|k: int|
                0 <= k < old(self)@.todos.len() ==> (#[trigger] old(self)@.todos[k]).id
                    < created.id,
    {
        self.inc = self.inc + 1;
        let created = Todo { id: self.inc, completed: false, text: text.clone() };
        self.todos.push(Todo { id: self.inc, completed: false, text });
        assert(self@.todos =~= old(self)@.create(text@).todos);
        created
    }

    /// The first position whose entry has this id, if there is one.
    fn index_of(&self, id: u32) -> (found: Option<usize>)
        ensures
            found is Some <==> self@.has_id(id as nat),
            found matches Some(idx) ==> idx == self@.position(id as nat) && idx
                < self.todos@.len(),
    {
        let mut i: usize = 0;
        while i < self.todos.len()
            invariant
                i <= self.todos@.len(),
                forall|j: int| 0 <= j < i ==> self@.todos[j].id != id as nat,
            decreases self.todos@.len() - i,
        {
            if self.todos[i].id == id {
                proof {
                    assert(self@.is_first(id as nat, i as int));
                    lemma_first_is_position(self@, id as nat, i as int);
                }
                return Some(i);
            }
            i += 1;
        }
        None
    }

    /// Removes the entry with this id; the others keep their order. Fails
    /// with `NotFound`, and changes nothing, if no entry has this id.
    pub fn delete(&mut self, id: u32) -> (r: Result<(), StoreError>)
        ensures
            r is Ok <==> old(self)@.has_id(id as nat),
            final(self)@ == old(self)@.delete(id as nat),
            old(self)@.wf() ==> final(self)@.wf(),
    {
        match self.index_of(id) {
            Some(index) => {
                self.todos.remove(index);
                assert(self@.todos =~= old(self)@.todos.remove(index as int));
                Ok(())
            },
            None => Err(StoreError::NotFound),
        }
    }

    /// Flips `completed` on the entry with this id and returns its position
    /// in insertion order. Fails with `NotFound`, and changes nothing, if no
    /// entry has this id.
    pub fn toggle(&mut self, id: u32) -> (r: Result<usize, StoreError>)
        ensures
            r is Ok <==> old(self)@.has_id(id as nat),
            r matches Ok(idx) ==> idx == old(self)@.position(id as nat),
            final(self)@ == old(self)@.toggle(id as nat),
            old(self)@.wf() ==> final(self)@.wf(),
    {
        match self.index_of(id) {
            Some(idx) => {
                let flag = self.todos[idx].completed;
                self.todos[idx].completed = !flag;
                assert(self@.todos =~= old(self)@.toggle_at(idx as int).todos);
                Ok(idx)
            },
            None => Err(StoreError::NotFound),
        }
    }

    /// Marks every entry completed, or, if every entry is completed already,
    /// marks every entry not completed. Returns whether any entry changed.
    pub fn toggleall(&mut self) -> (dirty: bool)
        ensures
            final(self)@ == old(self)@.toggle_all(),
            dirty == old(self)@.toggle_all_changes(),
            old(self)@.wf() ==> final(self)@.wf(),
    {
        let set = !self.every_completed();
        let mut dirty = false;
        let mut i: usize = 0;
        while i < self.todos.len()
            invariant
                self.inc == old(self).inc,
                self.filter == old(self).filter,
                self.todos@.len() == old(self).todos@.len(),
                i <= self.todos@.len(),
                set == old(self)@.toggle_all_target(),
                forall|j: int|
                    0 <= j < i ==> self.todos@[j]@ == old(self).todos@[j]@.with_completed(set),
                forall|j: int| i <= j < self.todos@.len() ==> self.todos@[j] == old(self).todos@[j],
                dirty == exists|j: int| 0 <= j < i && old(self)@.todos[j].completed != set,
            decreases self.todos@.len() - i,
        {
            let ghost before = dirty;
            if self.todos[i].completed != set {
                dirty = true;
                self.todos[i].completed = set;
            }
            proof {
                let k = i as int;
                if old(self)@.todos[k].completed != set {
                    assert(0 <= k < i + 1 && old(self)@.todos[k].completed != set);
                } else if before {
                    let j = choose|j: int| 0 <= j < i && old(self)@.todos[j].completed != set;
                    assert(0 <= j < i + 1 && old(self)@.todos[j].completed != set);
                }
            }
            i += 1;
        }
        assert(self@.todos =~= old(self)@.toggle_all().todos);
        dirty
    }

    /// Makes `mode` the filter in force. The entries are not touched.
    pub fn set_filter(&mut self, mode: Filter)
        ensures
            final(self)@ == old(self)@.set_filter(mode),
    {
        self.filter = mode;
    }

    /// The entries, in insertion order.
    pub fn todos(&self) -> (list: &Vec<Todo>)
        ensures
            views_of(list@) == self@.todos,
    {
        &self.todos
    }

    /// The counter: the id that `create` gave last, or zero if it gave none.
    pub fn inc(&self) -> (inc: u32)
        ensures
            inc == self@.inc,
    {
        self.inc
    }

    /// The filter in force.
    pub fn get_filter(&self) -> (mode: Filter)
        ensures
            mode == self@.filter,
    {
        self.filter
    }

    /// The number of entries that are not completed.
    pub fn count_active(&self) -> (n: usize)
        ensures
            n == self@.count_active(),
    {
        let mut n: usize = 0;
        let mut i: usize = 0;
        while i < self.todos.len()
            invariant
                i <= self.todos@.len(),
                n <= i,
                n == active(self@.todos.take(i as int)).len(),
            decreases self.todos@.len() - i,
        {
            proof {
                lemma_active_push(self@.todos.take(i as int), self@.todos[i as int]);
                assert(self@.todos.take(i as int + 1) =~= self@.todos.take(i as int).push(
                    self@.todos[i as int],
                ));
            }
            if !self.todos[i].completed {
                n += 1;
            }
            i += 1;
        }
        assert(self@.todos.take(i as int) =~= self@.todos);
        n
    }

    /// Whether every entry is completed. True of the empty store.
    fn every_completed(&self) -> (all: bool)
        ensures
            all == self@.every_completed(),
    {
        let mut i: usize = 0;
        while i < self.todos.len()
            invariant
                i <= self.todos@.len(),
                forall|j: int| 0 <= j < i ==> self@.todos[j].completed,
            decreases self.todos@.len() - i,
        {
            if !self.todos[i].completed {
                assert(!self@.todos[i as int].completed);
                return false;
            }
            i += 1;
        }
        true
    }

    /// Whether the store is not empty and every entry is completed.
    pub fn all_completed(&self) -> (all: bool)
        ensures
            all == self@.all_completed(),
    {
        self.todos.len() > 0 && self.every_completed()
    }
}

impl Default for DbData {
    fn default() -> (db: DbData)
        ensures
            db@ == DbView::empty(),
    {
        DbData::new()
    }
}

} // verus!
