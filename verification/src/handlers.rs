//! The answer to each request, from the state as it stands after the write
//! that the request asked for.
//!
//! Every function takes the flag that tells a request for a fragment from a
//! plain navigation. A plain navigation is answered with the whole page. A
//! request for a fragment is answered with the least that shows the change:
//! the part that changed, and beside it the parts whose content depends on
//! it, each marked to replace the element with the same id.

use vstd::prelude::*;
use crate::hx::IsHXRequest;
use crate::model::{views_of, DbView};
use crate::reply::{Reply, ReplyView};
use crate::store::DbData;
use crate::todo::{Filter, StoreError};
use crate::views::{
    about_count_text, about_text, f_about, f_about_count, f_todos, f_todos_count, f_todos_input,
    f_todos_item, f_todos_items, f_todos_toggleall, frag, nav, nav_text, page, page_text,
    todos_count_text, todos_input_text, todos_item_text, todos_items_text, todos_text,
    todos_toggleall_text,
};

verus! {

/// The "About" page with the counter at `count`: whole for a plain
/// navigation, title and content for a fragment request.
pub open spec fn about_index_reply(hx: bool, count: nat) -> ReplyView {
    ReplyView::Html(
        if !hx {
            page_text("About"@, about_text(count))
        } else {
            nav_text("About"@, about_text(count))
        },
    )
}

/// Answers a request for the "About" page.
pub fn about_index(hx: IsHXRequest, count: u32) -> (reply: Reply)
    ensures
        reply@ == about_index_reply(hx.0, count as nat),
{
    if !hx.0 {
        page(String::from_str("About"), f_about(count))
    } else {
        nav(String::from_str("About"), f_about(count))
    }
}

/// After an increment that left the counter at `count`: the whole page for
/// a plain navigation, the counter alone for a fragment request.
pub open spec fn about_increment_reply(hx: bool, count: nat) -> ReplyView {
    ReplyView::Html(
        if !hx {
            page_text("About"@, about_text(count))
        } else {
            about_count_text(count)
        },
    )
}

/// Answers the request that incremented the counter to `count`.
pub fn about_increment(hx: IsHXRequest, count: u32) -> (reply: Reply)
    ensures
        reply@ == about_increment_reply(hx.0, count as nat),
{
    if !hx.0 {
        return page(String::from_str("About"), f_about(count));
    }
    frag(f_about_count(count))
}

/// The "Todos" page: whole for a plain navigation, title and content for a
/// fragment request.
pub open spec fn todos_index_reply(hx: bool, db: DbView) -> ReplyView {
    ReplyView::Html(
        if !hx {
            page_text("Todos"@, todos_text(db))
        } else {
            nav_text("Todos"@, todos_text(db))
        },
    )
}

/// Answers a request for the "Todos" page.
pub fn todos_index(hx: IsHXRequest, db: &DbData) -> (reply: Reply)
    ensures
        reply@ == todos_index_reply(hx.0, db@),
{
    if !hx.0 {
        page(String::from_str("Todos"), f_todos(db))
    } else {
        nav(String::from_str("Todos"), f_todos(db))
    }
}

/// After a `create`: the row of the newest entry, and beside it the input
/// field, the count and the toggle-all checkbox.
pub open spec fn todos_create_reply(hx: bool, db: DbView) -> ReplyView {
    if !hx {
        todos_index_reply(false, db)
    } else {
        ReplyView::Html(
            todos_item_text(db.todos.last()) + todos_input_text(true) + todos_count_text(db, true)
                + todos_toggleall_text(db, true),
        )
    }
}

/// Answers the request that created an entry. For a fragment request the
/// store must hold an entry.
pub fn todos_create(hx: IsHXRequest, db: &DbData) -> (reply: Reply)
    requires
        hx.0 ==> db@.todos.len() > 0,
    ensures
        reply@ == todos_create_reply(hx.0, db@),
{
    if !hx.0 {
        return todos_index(hx, db);
    }
    let list = db.todos();
    assert(list@[list@.len() - 1]@ == views_of(list@)[list@.len() - 1]);
    let mut out = f_todos_item(&list[list.len() - 1]);
    out.append(f_todos_input(true).as_str());
    out.append(f_todos_count(db, true).as_str());
    out.append(f_todos_toggleall(db, true).as_str());
    frag(out)
}

/// After a `toggleall`: the count and the toggle-all checkbox, and the list
/// as well if an entry changed.
pub open spec fn todos_toggleall_reply(hx: bool, db: DbView, dirty: bool) -> ReplyView {
    if !hx {
        todos_index_reply(false, db)
    } else {
        ReplyView::Html(
            todos_count_text(db, true) + todos_toggleall_text(db, true) + if dirty {
                todos_items_text(db, true)
            } else {
                ""@
            },
        )
    }
}

/// Answers the request that toggled every entry; `dirty` is what
/// [`DbData::toggleall`] returned.
pub fn todos_toggleall(hx: IsHXRequest, db: &DbData, dirty: bool) -> (reply: Reply)
    ensures
        reply@ == todos_toggleall_reply(hx.0, db@, dirty),
{
    if !hx.0 {
        return todos_index(hx, db);
    }
    let mut out = f_todos_count(db, true);
    out.append(f_todos_toggleall(db, true).as_str());
    if dirty {
        out.append(f_todos_items(db, true).as_str());
    } else {
        out.append("");
    }
    frag(out)
}

/// After a change of filter: the list as it now shows.
pub open spec fn todos_filter_reply(hx: bool, db: DbView) -> ReplyView {
    if !hx {
        todos_index_reply(false, db)
    } else {
        ReplyView::Html(todos_items_text(db, true))
    }
}

/// Answers the request that set the filter.
pub fn todos_filter(hx: IsHXRequest, db: &DbData) -> (reply: Reply)
    ensures
        reply@ == todos_filter_reply(hx.0, db@),
{
    if !hx.0 {
        return todos_index(hx, db);
    }
    frag(f_todos_items(db, true))
}

/// After a `toggle`: a client error if the id was not found. Otherwise the
/// row of the entry, but only while the filter is `All`, and beside it the
/// count and the toggle-all checkbox.
pub open spec fn todos_toggle_reply(
    hx: bool,
    db: DbView,
    toggled: Result<usize, StoreError>,
) -> ReplyView {
    match toggled {
        Err(_) => ReplyView::BadRequest,
        Ok(idx) => if !hx {
            todos_index_reply(false, db)
        } else {
            ReplyView::Html(
                if db.filter == Filter::All {
                    todos_item_text(db.todos[idx as int])
                } else {
                    ""@
                } + todos_count_text(db, true) + todos_toggleall_text(db, true),
            )
        },
    }
}

/// Answers the request that toggled one entry; `toggled` is what
/// [`DbData::toggle`] returned. Where the row is sent, the position must lie
/// within the store.
pub fn todos_toggle(hx: IsHXRequest, db: &DbData, toggled: Result<usize, StoreError>) -> (reply:
    Reply)
    requires
        hx.0 && db@.filter == Filter::All ==> (toggled matches Ok(idx) ==> idx
            < db@.todos.len()),
    ensures
        reply@ == todos_toggle_reply(hx.0, db@, toggled),
{
    let idx = match toggled {
        Ok(x) => x,
        Err(_) => {
            return Reply::BadRequest;
        },
    };
    if !hx.0 {
        return todos_index(hx, db);
    }
    let mut out = if db.get_filter() == Filter::All {
        let list = db.todos();
        assert(list@[idx as int]@ == views_of(list@)[idx as int]);
        f_todos_item(&list[idx])
    } else {
        String::from_str("")
    };
    out.append(f_todos_count(db, true).as_str());
    out.append(f_todos_toggleall(db, true).as_str());
    frag(out)
}

/// After a `delete`: a client error if the id was not found. Otherwise the
/// count and the toggle-all checkbox; the row goes away by itself.
pub open spec fn todos_delete_reply(
    hx: bool,
    db: DbView,
    deleted: Result<(), StoreError>,
) -> ReplyView {
    match deleted {
        Err(_) => ReplyView::BadRequest,
        Ok(_) => if !hx {
            todos_index_reply(false, db)
        } else {
            ReplyView::Html(todos_count_text(db, true) + todos_toggleall_text(db, true))
        },
    }
}

/// Answers the request that deleted one entry; `deleted` is what
/// [`DbData::delete`] returned.
pub fn todos_delete(hx: IsHXRequest, db: &DbData, deleted: Result<(), StoreError>) -> (reply:
    Reply)
    ensures
        reply@ == todos_delete_reply(hx.0, db@, deleted),
{
    if deleted.is_err() {
        return Reply::BadRequest;
    }
    if !hx.0 {
        return todos_index(hx, db);
    }
    let mut out = f_todos_count(db, true);
    out.append(f_todos_toggleall(db, true).as_str());
    frag(out)
}

} // verus!
