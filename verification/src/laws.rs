//! What holds of the store operations taken together: which facts every
//! operation keeps, and how one operation bears on the next.
//!
//! Everything here is stated over [`DbView`], the value that the contracts
//! of [`crate::store::DbData`] speak of, so each statement carries over to
//! the executable store through those contracts.

use vstd::prelude::*;
use crate::model::{
    active, admitted, is_active, is_admitted, lemma_active_push, lemma_admitted_push,
    lemma_first_is_position, lemma_position_is_first, DbView,
};
use crate::todo::{Filter, TodoView};

verus! {

/// One write to the store.
pub enum Op {
    Create(Seq<char>),
    Toggle(nat),
    Delete(nat),
    ToggleAll,
    SetFilter(Filter),
}

impl DbView {
    /// The store after one write.
    pub open spec fn apply(self, op: Op) -> DbView {
        match op {
            Op::Create(text) => self.create(text),
            Op::Toggle(id) => self.toggle(id),
            Op::Delete(id) => self.delete(id),
            Op::ToggleAll => self.toggle_all(),
            Op::SetFilter(mode) => self.set_filter(mode),
        }
    }

    /// The store after a sequence of writes, applied first to last.
    pub open spec fn run(self, ops: Seq<Op>) -> DbView
        decreases ops.len(),
    {
        if ops.len() == 0 {
            self
        } else {
            self.run(ops.drop_last()).apply(ops.last())
        }
    }

    /// The id that a `create` gives its entry when it is the write at place
    /// `k` of `ops`.
    pub open spec fn created_id(self, ops: Seq<Op>, k: int) -> nat {
        self.run(ops.take(k)).inc + 1
    }

    /// The number of entries that are not completed after a sequence of
    /// writes, kept as a running count: the number at the start, and for each
    /// write in turn what [`Self::active_delta`] says it adds or takes away.
    pub open spec fn active_tally(self, ops: Seq<Op>) -> int
        decreases ops.len(),
    {
        if ops.len() == 0 {
            self.count_active() as int
        } else {
            self.active_tally(ops.drop_last()) + self.run(ops.drop_last()).active_delta(
                ops.last(),
            )
        }
    }

    /// By how much one write changes the number of entries that are not
    /// completed.
    pub open spec fn active_delta(self, op: Op) -> int {
        match op {
            Op::Create(_) => 1,
            Op::Toggle(id) => if !self.has_id(id) {
                0
            } else if self.todos[self.position(id)].completed {
                1
            } else {
                -1
            },
            Op::Delete(id) => if self.has_id(id) && !self.todos[self.position(id)].completed {
                -1
            } else {
                0
            },
            Op::ToggleAll => if self.every_completed() {
                self.todos.len() - self.count_active()
            } else {
                -self.count_active()
            },
            Op::SetFilter(_) => 0,
        }
    }
}

/// The empty store is well formed.
pub proof fn lemma_empty_wf()
    ensures
        DbView::empty().wf(),
{
}

/// Every write keeps the store well formed and never lowers the counter.
pub proof fn lemma_apply_keeps_wf(s: DbView, op: Op)
    requires
        s.wf(),
    ensures
        s.apply(op).wf(),
        s.apply(op).inc >= s.inc,
{
    match op {
        Op::Create(text) => {},
        Op::Toggle(id) => {
            if s.has_id(id) {
                lemma_position_is_first(s, id);
            }
        },
        Op::Delete(id) => {
            if s.has_id(id) {
                lemma_delete_removes_one(s, id);
                let p = s.position(id);
                let d = s.delete(id);
                assert forall|i: int, j: int| 0 <= i < j < d.todos.len() implies d.todos[i].id
                    < d.todos[j].id by {
                    let a = if i < p { i } else { i + 1 };
                    let b = if j < p { j } else { j + 1 };
                    assert(d.todos[i] == s.todos[a]);
                    assert(d.todos[j] == s.todos[b]);
                }
            }
        },
        Op::ToggleAll => {},
        Op::SetFilter(mode) => {},
    }
}

/// Every sequence of writes keeps the store well formed and never lowers the
/// counter.
pub proof fn lemma_run_keeps_wf(s: DbView, ops: Seq<Op>)
    requires
        s.wf(),
    ensures
        s.run(ops).wf(),
        s.run(ops).inc >= s.inc,
    decreases ops.len(),
{
    if ops.len() > 0 {
        lemma_run_keeps_wf(s, ops.drop_last());
        lemma_apply_keeps_wf(s.run(ops.drop_last()), ops.last());
    }
}

/// Running a longer prefix of the same writes never lowers the counter.
pub proof fn lemma_counter_monotone(s: DbView, ops: Seq<Op>, a: int, b: int)
    requires
        s.wf(),
        0 <= a <= b <= ops.len(),
    ensures
        s.run(ops.take(a)).wf(),
        s.run(ops.take(b)).wf(),
        s.run(ops.take(a)).inc <= s.run(ops.take(b)).inc,
        ops[a] is Create && a < b ==> s.run(ops.take(a)).inc < s.run(ops.take(b)).inc,
    decreases b - a,
{
    lemma_run_keeps_wf(s, ops.take(a));
    if a < b {
        lemma_counter_monotone(s, ops, a, b - 1);
        assert(ops.take(b).drop_last() =~= ops.take(b - 1));
        assert(ops.take(b).last() == ops[b - 1]);
        lemma_apply_keeps_wf(s.run(ops.take(b - 1)), ops[b - 1]);
    }
}

/// Ids never repeat and always grow. Of two `create`s in one sequence of
/// writes, whatever else is done in between, deletes included, the later one
/// assigns the larger id; and the id that a `create` assigns is larger than
/// every id held by the store at any earlier moment.
pub proof fn lemma_created_ids_increase(s: DbView, ops: Seq<Op>, i: int, j: int)
    requires
        s.wf(),
        0 <= i <= j < ops.len(),
        ops[j] is Create,
    ensures
        forall|k: int|
            0 <= k < s.run(ops.take(i)).todos.len() ==> (#[trigger] s.run(ops.take(i)).todos[k]).id
                < s.created_id(ops, j),
        ops[i] is Create && i < j ==> s.created_id(ops, i) < s.created_id(ops, j),
        s.run(ops.take(j + 1)).todos.last().id == s.created_id(ops, j),
{
    lemma_counter_monotone(s, ops, i, j);
    assert(ops.take(j + 1).drop_last() =~= ops.take(j));
    assert(ops.take(j + 1).last() == ops[j]);
}

/// Deleting an id that is present removes exactly the entry at its position:
/// the entries before it stay where they are and those after it move up by
/// one, so the rest keeps its order.
pub proof fn lemma_delete_removes_one(s: DbView, id: nat)
    requires
        s.has_id(id),
    ensures
        0 <= s.position(id) < s.todos.len(),
        s.todos[s.position(id)].id == id,
        s.delete(id).todos.len() == s.todos.len() - 1,
        forall|k: int| 0 <= k < s.position(id) ==> s.delete(id).todos[k] == s.todos[k],
        forall|k: int|
            s.position(id) <= k < s.todos.len() - 1 ==> s.delete(id).todos[k] == s.todos[k + 1],
{
    lemma_position_is_first(s, id);
}

/// In a well-formed store a deleted id is gone: deleting it a second time
/// finds nothing.
pub proof fn lemma_delete_twice(s: DbView, id: nat)
    requires
        s.wf(),
    ensures
        !s.delete(id).has_id(id),
        s.delete(id).delete(id) == s.delete(id),
{
    if s.has_id(id) {
        lemma_position_is_first(s, id);
        let p = s.position(id);
        let d = s.delete(id);
        assert forall|k: int| 0 <= k < d.todos.len() implies d.todos[k].id != id by {
            if k < p {
                assert(d.todos[k] == s.todos[k]);
            } else {
                assert(d.todos[k] == s.todos[k + 1]);
                assert(s.todos[p].id < s.todos[k + 1].id);
            }
        }
    }
}

/// Toggling the same id twice gives back the store as it was.
pub proof fn lemma_toggle_twice(s: DbView, id: nat)
    ensures
        s.toggle(id).toggle(id) == s,
{
    if s.has_id(id) {
        lemma_position_is_first(s, id);
        let p = s.position(id);
        let t = s.toggle(id);
        assert(t.is_first(id, p));
        lemma_first_is_position(t, id, p);
        assert(t.toggle(id).todos =~= s.todos);
    }
}

/// `toggle_all` on a store whose entries are all completed leaves none
/// completed; on any other store it leaves all completed. Ids, texts, order,
/// counter and filter stay.
pub proof fn lemma_toggle_all_sets_every_flag(s: DbView)
    ensures
        s.toggle_all().todos.len() == s.todos.len(),
        s.toggle_all().inc == s.inc,
        s.toggle_all().filter == s.filter,
        forall|i: int|
            0 <= i < s.todos.len() ==> {
                &&& (#[trigger] s.toggle_all().todos[i]).id == s.todos[i].id
                &&& s.toggle_all().todos[i].text == s.todos[i].text
                &&& s.toggle_all().todos[i].completed == !s.every_completed()
            },
        s.toggle_all_changes() <==> s.todos.len() > 0,
{
    if s.todos.len() > 0 {
        if s.every_completed() {
            assert(s.todos[0].completed != s.toggle_all_target());
        } else {
            let i = choose|i: int| 0 <= i < s.todos.len() && !s.todos[i].completed;
            assert(s.todos[i].completed != s.toggle_all_target());
        }
    }
}

/// `toggle_all` swings between the two states. Once every entry is
/// completed, two calls in a row give back the store as it was; and from any
/// store, a third call gives what the first gave.
pub proof fn lemma_toggle_all_oscillates(s: DbView)
    ensures
        s.every_completed() ==> s.toggle_all().toggle_all() == s,
        s.toggle_all().toggle_all().toggle_all() == s.toggle_all(),
{
    lemma_toggle_all_sets_every_flag(s);
    let t = s.toggle_all();
    lemma_toggle_all_sets_every_flag(t);
    let u = t.toggle_all();
    lemma_toggle_all_sets_every_flag(u);
    if s.todos.len() == 0 {
        assert(t.todos =~= s.todos);
        assert(u.todos =~= s.todos);
    } else {
        lemma_toggle_all_never_idle(s);
        lemma_toggle_all_never_idle(t);
        if s.every_completed() {
            assert(u.todos =~= s.todos);
        }
    }
    assert(u.toggle_all().todos =~= t.todos);
}

/// On a store that is not empty `toggle_all` is never a no-op: it turns a
/// store whose entries are all completed into one whose entries are not, and
/// the other way round.
pub proof fn lemma_toggle_all_never_idle(s: DbView)
    requires
        s.todos.len() > 0,
    ensures
        s.toggle_all() != s,
        s.toggle_all().every_completed() == !s.every_completed(),
{
    lemma_toggle_all_sets_every_flag(s);
    let t = s.toggle_all();
    if s.every_completed() {
        assert(!t.todos[0].completed);
    } else {
        let i = choose|i: int| 0 <= i < s.todos.len() && !s.todos[i].completed;
        assert(t.todos[i].completed);
    }
}

/// A sequence cut at `p`: what lies before, the entry at `p`, what lies after.
proof fn lemma_split_at(todos: Seq<TodoView>, p: int)
    requires
        0 <= p < todos.len(),
    ensures
        todos == todos.take(p) + seq![todos[p]] + todos.skip(p + 1),
        active(todos).len() == active(todos.take(p)).len() + active(seq![todos[p]]).len() + active(
            todos.skip(p + 1),
        ).len(),
        active(seq![todos[p]]).len() == if todos[p].completed {
            0nat
        } else {
            1nat
        },
{
    let a = todos.take(p);
    let m = seq![todos[p]];
    let b = todos.skip(p + 1);
    assert(todos =~= a + m + b);
    Seq::filter_distributes_over_add(a + m, b, is_active());
    Seq::filter_distributes_over_add(a, m, is_active());
    assert(m =~= Seq::<TodoView>::empty().push(todos[p]));
    lemma_active_push(Seq::<TodoView>::empty(), todos[p]);
    reveal(Seq::filter);
    assert(active(Seq::<TodoView>::empty()).len() == 0);
}

/// Among entries that all carry the same flag, either all are active or none.
proof fn lemma_active_uniform(todos: Seq<TodoView>, flag: bool)
    requires
        forall|i: int| 0 <= i < todos.len() ==> todos[i].completed == flag,
    ensures
        active(todos).len() == if flag {
            0
        } else {
            todos.len()
        },
    decreases todos.len(),
{
    reveal(Seq::filter);
    if todos.len() > 0 {
        lemma_active_uniform(todos.drop_last(), flag);
    }
}

/// The count of entries that are not completed moves with each write by
/// exactly [`DbView::active_delta`]: up by one on `create`, up or down by one
/// on a `toggle` that finds its entry, down by one on a `delete` of an entry
/// that was not completed, to all or none on `toggle_all`, and not at all
/// otherwise.
pub proof fn lemma_count_active_step(s: DbView, op: Op)
    ensures
        s.apply(op).count_active() == s.count_active() + s.active_delta(op),
{
    match op {
        Op::Create(text) => {
            lemma_active_push(s.todos, TodoView { id: s.inc + 1, completed: false, text });
        },
        Op::Toggle(id) => {
            if s.has_id(id) {
                lemma_position_is_first(s, id);
                let p = s.position(id);
                let t = s.toggle(id);
                lemma_split_at(s.todos, p);
                lemma_split_at(t.todos, p);
                assert(t.todos.take(p) =~= s.todos.take(p));
                assert(t.todos.skip(p + 1) =~= s.todos.skip(p + 1));
            }
        },
        Op::Delete(id) => {
            if s.has_id(id) {
                lemma_position_is_first(s, id);
                let p = s.position(id);
                let d = s.delete(id);
                lemma_split_at(s.todos, p);
                assert(d.todos =~= s.todos.take(p) + s.todos.skip(p + 1));
                Seq::filter_distributes_over_add(s.todos.take(p), s.todos.skip(p + 1), is_active());
            }
        },
        Op::ToggleAll => {
            lemma_active_uniform(s.toggle_all().todos, s.toggle_all_target());
            if s.every_completed() {
                lemma_active_uniform(s.todos, true);
            }
        },
        Op::SetFilter(mode) => {},
    }
}

/// After any sequence of writes the number of entries that are not completed
/// equals the running count kept along the way.
pub proof fn lemma_count_active_run(s: DbView, ops: Seq<Op>)
    ensures
        s.run(ops).count_active() == s.active_tally(ops),
    decreases ops.len(),
{
    if ops.len() > 0 {
        lemma_count_active_run(s, ops.drop_last());
        lemma_count_active_step(s.run(ops.drop_last()), ops.last());
    }
}

/// The list shows exactly the entries that the filter admits: each entry it
/// shows is an entry of the store that the filter admits, and each such
/// entry is shown.
pub proof fn lemma_visible_exact(s: DbView, t: TodoView)
    ensures
        s.visible().contains(t) <==> s.todos.contains(t) && s.filter.admits(t.completed),
{
    lemma_visible_is_reversed_admitted(s);
    lemma_admitted_exact(s.todos, s.filter, t);
    let a = admitted(s.todos, s.filter);
    if a.contains(t) {
        let i = choose|i: int| 0 <= i < a.len() && a[i] == t;
        assert(a.reverse()[a.len() - 1 - i] == t);
    }
    if a.reverse().contains(t) {
        let i = choose|i: int| 0 <= i < a.reverse().len() && a.reverse()[i] == t;
        assert(a[a.len() - 1 - i] == t);
    }
}

/// The admitted entries of a sequence are its entries that the filter admits.
proof fn lemma_admitted_exact(todos: Seq<TodoView>, filter: Filter, t: TodoView)
    ensures
        admitted(todos, filter).contains(t) <==> todos.contains(t) && filter.admits(t.completed),
    decreases todos.len(),
{
    reveal(Seq::filter);
    if todos.len() > 0 {
        let rest = todos.drop_last();
        let x = todos.last();
        lemma_admitted_exact(rest, filter, t);
        let a = admitted(todos, filter);
        let r = admitted(rest, filter);
        if todos.contains(t) {
            let i = choose|i: int| 0 <= i < todos.len() && todos[i] == t;
            if i < todos.len() - 1 {
                assert(rest[i] == t);
            }
        }
        if rest.contains(t) {
            let i = choose|i: int| 0 <= i < rest.len() && rest[i] == t;
            assert(todos[i] == t);
        }
        assert(todos[todos.len() - 1] == x);
        if r.contains(t) {
            let i = choose|i: int| 0 <= i < r.len() && r[i] == t;
            assert(a[i] == t);
        }
        if filter.admits(x.completed) {
            assert(a == r.push(x));
            assert(a[a.len() - 1] == x);
            if a.contains(t) {
                let i = choose|i: int| 0 <= i < a.len() && a[i] == t;
                if i < a.len() - 1 {
                    assert(r[i] == t);
                }
            }
        }
    }
}

/// The list keeps the order of the store, newest first: it is the admitted
/// entries in insertion order, read backwards.
pub proof fn lemma_visible_is_reversed_admitted(s: DbView)
    ensures
        s.visible() == admitted(s.todos, s.filter).reverse(),
{
    lemma_admitted_reverse(s.todos, s.filter);
}

/// Filtering a reversed sequence gives the filtered sequence reversed.
proof fn lemma_admitted_reverse(todos: Seq<TodoView>, filter: Filter)
    ensures
        admitted(todos.reverse(), filter) == admitted(todos, filter).reverse(),
    decreases todos.len(),
{
    reveal(Seq::filter);
    if todos.len() == 0 {
        assert(todos.reverse() =~= todos);
        assert(admitted(todos, filter).reverse() =~= admitted(todos, filter));
    } else {
        let rest = todos.drop_last();
        let x = todos.last();
        lemma_admitted_reverse(rest, filter);
        assert(todos.reverse() =~= seq![x] + rest.reverse());
        Seq::filter_distributes_over_add(seq![x], rest.reverse(), is_admitted(filter));
        assert(seq![x] =~= Seq::<TodoView>::empty().push(x));
        lemma_admitted_push(Seq::<TodoView>::empty(), filter, x);
        assert(admitted(Seq::<TodoView>::empty(), filter) =~= Seq::<TodoView>::empty());
        let r = admitted(rest, filter);
        if filter.admits(x.completed) {
            assert(admitted(todos, filter) == r.push(x));
            assert(r.push(x).reverse() =~= seq![x] + r.reverse());
        } else {
            assert(admitted(seq![x], filter) =~= Seq::<TodoView>::empty());
            assert(Seq::<TodoView>::empty() + r.reverse() =~= r.reverse());
        }
    }
}

/// Choosing another filter changes what the list shows and nothing else:
/// the entries and the counter stay as they are.
pub proof fn lemma_set_filter_keeps_entries(s: DbView, mode: Filter)
    ensures
        s.set_filter(mode).todos == s.todos,
        s.set_filter(mode).inc == s.inc,
        s.set_filter(mode).count_active() == s.count_active(),
        s.set_filter(mode).visible() == admitted(s.todos.reverse(), mode),
{
}

} // verus!
