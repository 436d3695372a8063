//! The pages and fragments, as text.
//!
//! Beside each function that writes a part stands a spec function, named for
//! the part with `_text` at the end, that says which text is written. A
//! fragment that is sent beside the main one carries the attribute of
//! [`oob_text`], by which the client puts it in the place of the element with
//! the same id.

use vstd::prelude::*;
use crate::decimal::{decimal, decimal_text, lemma_decimal_injective};
use crate::markup::{
    attr, attr_text, doctype, doctype_text, element, element_text, raw_attr, raw_attr_text,
    void_element, void_element_text,
};
use crate::model::{admitted, lemma_admitted_push, views_of, DbView};
use crate::reply::{Reply, ReplyView};
use crate::store::DbData;
use crate::styles::{FILTER_STYLE, TABS_STYLE, TODOS_STYLE};
use crate::todo::{Filter, Todo, TodoView};

verus! {

/// The tabs of the site.
#[derive(Debug, Clone, Copy, PartialEq, Eq, Structural)]
pub enum Tabs {
    About,
    Todos,
}

/// The attribute that marks the selected tab, or nothing.
pub open spec fn selected_text(on: bool) -> Seq<char> {
    if on {
        "class=\"selected\""@
    } else {
        ""@
    }
}

/// The attribute that ticks a checkbox or a radio button, or nothing.
pub open spec fn checked_text(on: bool) -> Seq<char> {
    if on {
        "checked"@
    } else {
        ""@
    }
}

/// The attribute that makes a fragment replace the element with the same id
/// wherever it stands in the page, or nothing.
pub open spec fn oob_text(oob: bool) -> Seq<char> {
    if oob {
        "hx-swap-oob=\"true\""@
    } else {
        ""@
    }
}

fn selected(on: bool) -> (text: &'static str)
    ensures
        text@ == selected_text(on),
{
    if on {
        "class=\"selected\""
    } else {
        ""
    }
}

fn checked(on: bool) -> (text: &'static str)
    ensures
        text@ == checked_text(on),
{
    if on {
        "checked"
    } else {
        ""
    }
}

fn oob_attr(oob: bool) -> (text: &'static str)
    ensures
        text@ == oob_text(oob),
{
    if oob {
        "hx-swap-oob=\"true\""
    } else {
        ""
    }
}

/// A whole document around `body`, for a request that is a plain navigation.
pub open spec fn page_text(title: Seq<char>, body: Seq<char>) -> Seq<char> {
    doctype_text("html"@) + element_text(
        "html"@,
        ""@,
        element_text(
            "head"@,
            ""@,
            void_element_text("meta"@, attr_text("charset"@, "UTF-8"@)) + element_text(
                "title"@,
                ""@,
                title,
            ) + void_element_text(
                "link"@,
                attr_text("rel"@, "stylesheet"@) + attr_text(
                    "href"@,
                    "https://unpkg.com/water.css@2.1.1/out/water.css"@,
                ) + attr_text(
                    "integrity"@,
                    "sha384-eHoWBq4xGyEfS3rmZe6gvzlNS/nNJhiPPbKCJN1cQHJukU+q6ji3My2fJGYd1EBo"@,
                ) + attr_text("crossorigin"@, "anonymous"@),
            ) + element_text(
                "script"@,
                attr_text("src"@, "https://unpkg.com/htmx.org@1.8.2/dist/htmx.js"@) + attr_text(
                    "integrity"@,
                    "sha384-dUlt2hvoUDyqJ29JH9ln6o/B23lVQiQm8Z0+oEuPBWwKXiyG2MozxxFsCKWM7dLl"@,
                ) + attr_text("crossorigin"@, "anonymous"@),
                ""@,
            ),
        ) + element_text("body"@, ""@, body),
    )
}

/// Answers with a whole document: the head with the title, the style sheet
/// and the script, and `body` as the body.
pub fn page(title: String, body: String) -> (reply: Reply)
    ensures
        reply@ == ReplyView::Html(page_text(title@, body@)),
{
    let meta = void_element("meta", attr("charset", "UTF-8").as_str());
    let title_element = element("title", "", title.as_str());
    let mut link_attrs = attr("rel", "stylesheet");
    link_attrs.append(attr("href", "https://unpkg.com/water.css@2.1.1/out/water.css").as_str());
    link_attrs.append(
        attr(
            "integrity",
            "sha384-eHoWBq4xGyEfS3rmZe6gvzlNS/nNJhiPPbKCJN1cQHJukU+q6ji3My2fJGYd1EBo",
        ).as_str(),
    );
    link_attrs.append(attr("crossorigin", "anonymous").as_str());
    let link = void_element("link", link_attrs.as_str());
    let mut script_attrs = attr("src", "https://unpkg.com/htmx.org@1.8.2/dist/htmx.js");
    script_attrs.append(
        attr(
            "integrity",
            "sha384-dUlt2hvoUDyqJ29JH9ln6o/B23lVQiQm8Z0+oEuPBWwKXiyG2MozxxFsCKWM7dLl",
        ).as_str(),
    );
    script_attrs.append(attr("crossorigin", "anonymous").as_str());
    let script = element("script", script_attrs.as_str(), "");
    let mut head_children = meta;
    head_children.append(title_element.as_str());
    head_children.append(link.as_str());
    head_children.append(script.as_str());
    let mut html_children = element("head", "", head_children.as_str());
    html_children.append(element("body", "", body.as_str()).as_str());
    let mut out = doctype("html");
    out.append(element("html", "", html_children.as_str()).as_str());
    Reply::Html(out)
}

/// The title and the content alone, for a navigation that the client turned
/// into a request for a fragment.
pub open spec fn nav_text(title: Seq<char>, content: Seq<char>) -> Seq<char> {
    element_text("head"@, ""@, element_text("title"@, ""@, title)) + content
}

/// Answers with the title and the content, without the document around them.
pub fn nav(title: String, content: String) -> (reply: Reply)
    ensures
        reply@ == ReplyView::Html(nav_text(title@, content@)),
{
    let mut out = element("head", "", element("title", "", title.as_str()).as_str());
    out.append(content.as_str());
    Reply::Html(out)
}

/// Answers with a fragment as it is.
pub fn frag(content: String) -> (reply: Reply)
    ensures
        reply@ == ReplyView::Html(content@),
{
    Reply::Html(content)
}

/// The two tabs, the selected one marked.
pub open spec fn tabs_text(selected: Tabs) -> Seq<char> {
    element_text(
        "div"@,
        attr_text("class"@, "nav-tabs"@) + attr_text("hx-boost"@, "true"@),
        element_text(
            "a"@,
            attr_text("href"@, "/"@) + raw_attr_text(selected_text(selected == Tabs::About)),
            "About"@,
        ) + element_text(
            "a"@,
            attr_text("href"@, "/todos"@) + raw_attr_text(selected_text(selected == Tabs::Todos)),
            "Todos"@,
        ) + element_text("style"@, ""@, TABS_STYLE@),
    )
}

/// Writes the two tabs with `selected_tab` marked.
pub fn f_tabs(selected_tab: Tabs) -> (out: String)
    ensures
        out@ == tabs_text(selected_tab),
{
    let (sel_about, sel_todos) = match selected_tab {
        Tabs::About => (selected(true), selected(false)),
        Tabs::Todos => (selected(false), selected(true)),
    };
    let mut div_attrs = attr("class", "nav-tabs");
    div_attrs.append(attr("hx-boost", "true").as_str());
    let mut about_attrs = attr("href", "/");
    about_attrs.append(raw_attr(sel_about).as_str());
    let mut todos_attrs = attr("href", "/todos");
    todos_attrs.append(raw_attr(sel_todos).as_str());
    let mut children = element("a", about_attrs.as_str(), "About");
    children.append(element("a", todos_attrs.as_str(), "Todos").as_str());
    children.append(element("style", "", TABS_STYLE).as_str());
    element("div", div_attrs.as_str(), children.as_str())
}

/// The counter as it is shown.
pub open spec fn about_count_text(count: nat) -> Seq<char> {
    element_text("span"@, attr_text("id"@, "about-count"@), decimal_text(count))
}

/// Writes the counter.
pub fn f_about_count(count: u32) -> (out: String)
    ensures
        out@ == about_count_text(count as nat),
{
    element("span", attr("id", "about-count").as_str(), decimal(count as u64).as_str())
}

/// The "About" page: the tabs, a line of text, the button that increments
/// the counter, and the counter.
pub open spec fn about_text(count: nat) -> Seq<char> {
    tabs_text(Tabs::About) + void_element_text("br"@, ""@) + element_text(
        "p"@,
        ""@,
        "This site demonstrates HTMX + Rust"@,
    ) + element_text(
        "form"@,
        attr_text("action"@, "./"@) + attr_text("method"@, "POST"@) + attr_text(
            "hx-boost"@,
            "true"@,
        ) + attr_text("hx-target"@, "#about-count"@) + attr_text("hx-swap"@, "outerHTML"@),
        element_text("button"@, ""@, "Increment"@),
    ) + element_text("p"@, ""@, "The counter is currently at: "@ + about_count_text(count))
}

/// Writes the "About" page for a counter that stands at `count`.
pub fn f_about(count: u32) -> (out: String)
    ensures
        out@ == about_text(count as nat),
{
    let mut form_attrs = attr("action", "./");
    form_attrs.append(attr("method", "POST").as_str());
    form_attrs.append(attr("hx-boost", "true").as_str());
    form_attrs.append(attr("hx-target", "#about-count").as_str());
    form_attrs.append(attr("hx-swap", "outerHTML").as_str());
    let form = element("form", form_attrs.as_str(), element("button", "", "Increment").as_str());
    let mut counter_line = String::from_str("The counter is currently at: ");
    counter_line.append(f_about_count(count).as_str());
    let mut out = f_tabs(Tabs::About);
    out.append(void_element("br", "").as_str());
    out.append(element("p", "", "This site demonstrates HTMX + Rust").as_str());
    out.append(form.as_str());
    out.append(element("p", "", counter_line.as_str()).as_str());
    out
}

/// The address that toggles the entry with this id.
pub open spec fn toggle_path_text(id: nat) -> Seq<char> {
    "/todos/todo/"@ + decimal_text(id) + "/toggle"@
}

/// The address that deletes the entry with this id.
pub open spec fn delete_path_text(id: nat) -> Seq<char> {
    "/todos/todo/"@ + decimal_text(id)
}

/// The controls of a row act on that row alone: entries with different ids
/// have different addresses, for toggling and for deleting.
pub proof fn lemma_paths_distinct(a: nat, b: nat)
    requires
        a != b,
    ensures
        toggle_path_text(a) != toggle_path_text(b),
        delete_path_text(a) != delete_path_text(b),
{
    let head = "/todos/todo/"@;
    let tail = "/toggle"@;
    if delete_path_text(a) == delete_path_text(b) {
        assert(delete_path_text(a).skip(head.len() as int) =~= decimal_text(a));
        assert(delete_path_text(b).skip(head.len() as int) =~= decimal_text(b));
        lemma_decimal_injective(a, b);
    }
    if toggle_path_text(a) == toggle_path_text(b) {
        let n = head.len() as int;
        let la = decimal_text(a).len() as int;
        let lb = decimal_text(b).len() as int;
        assert(toggle_path_text(a).len() == n + la + tail.len());
        assert(toggle_path_text(b).len() == n + lb + tail.len());
        assert(toggle_path_text(a).subrange(n, n + la) =~= decimal_text(a));
        assert(toggle_path_text(b).subrange(n, n + lb) =~= decimal_text(b));
        lemma_decimal_injective(a, b);
    }
}

/// One row of the list: a checkbox that toggles the entry, its text, and a
/// button that deletes it.
pub open spec fn todos_item_text(item: TodoView) -> Seq<char> {
    element_text(
        "li"@,
        attr_text("hx-target"@, "this"@) + attr_text("hx-swap"@, "outerHTML"@),
        void_element_text(
            "input"@,
            attr_text("type"@, "checkbox"@) + raw_attr_text(checked_text(item.completed))
                + attr_text("hx-post"@, toggle_path_text(item.id)),
        ) + element_text("label"@, ""@, item.text) + element_text(
            "button"@,
            attr_text("class"@, "delete"@) + attr_text("hx-delete"@, delete_path_text(item.id)),
            ""@,
        ),
    )
}

/// Writes one row of the list.
pub fn f_todos_item(item: &Todo) -> (out: String)
    ensures
        out@ == todos_item_text(item@),
{
    let id = decimal(item.id as u64);
    let mut toggle_path = String::from_str("/todos/todo/");
    toggle_path.append(id.as_str());
    toggle_path.append("/toggle");
    let mut delete_path = String::from_str("/todos/todo/");
    delete_path.append(id.as_str());
    let mut li_attrs = attr("hx-target", "this");
    li_attrs.append(attr("hx-swap", "outerHTML").as_str());
    let mut input_attrs = attr("type", "checkbox");
    input_attrs.append(raw_attr(checked(item.completed)).as_str());
    input_attrs.append(attr("hx-post", toggle_path.as_str()).as_str());
    let mut button_attrs = attr("class", "delete");
    button_attrs.append(attr("hx-delete", delete_path.as_str()).as_str());
    let mut children = void_element("input", input_attrs.as_str());
    children.append(element("label", "", item.text.as_str()).as_str());
    children.append(element("button", button_attrs.as_str(), "").as_str());
    element("li", li_attrs.as_str(), children.as_str())
}

/// The rows of a sequence of entries, one after the other.
pub open spec fn rows_text(items: Seq<TodoView>) -> Seq<char>
    decreases items.len(),
{
    if items.len() == 0 {
        Seq::empty()
    } else {
        rows_text(items.drop_last()) + todos_item_text(items.last())
    }
}

/// The rows of a sequence with one more entry at its end.
pub proof fn lemma_rows_push(items: Seq<TodoView>, item: TodoView)
    ensures
        rows_text(items.push(item)) == rows_text(items) + todos_item_text(item),
{
    assert(items.push(item).drop_last() =~= items);
}

/// The list: the rows of the entries that the store shows under its filter,
/// newest first, inside the form that applies changes without scripting.
pub open spec fn todos_items_text(db: DbView, oob: bool) -> Seq<char> {
    element_text(
        "form"@,
        attr_text("action"@, "/todos;apply"@) + attr_text("method"@, "POST"@) + attr_text(
            "hx-boost"@,
            "true"@,
        ) + attr_text("hx-swap"@, "none"@),
        element_text(
            "ul"@,
            attr_text("id"@, "items-list"@) + raw_attr_text(oob_text(oob)),
            rows_text(db.visible()),
        ) + element_text("noscript"@, ""@, element_text("button"@, ""@, "Apply"@)),
    )
}

/// Writes the rows of the entries that the filter admits, newest first.
fn visible_rows(db: &DbData) -> (rows: String)
    ensures
        rows@ == rows_text(db@.visible()),
{
    let list = db.todos();
    let filter = db.get_filter();
    let mut rows = String::new();
    let mut i: usize = list.len();
    proof {
        reveal(Seq::filter);
        assert(db@.todos.subrange(i as int, list@.len() as int).reverse() =~= Seq::<
            TodoView,
        >::empty());
    }
    while i > 0
        invariant
            i <= list@.len(),
            views_of(list@) == db@.todos,
            filter == db@.filter,
            rows@ == rows_text(
                admitted(db@.todos.subrange(i as int, list@.len() as int).reverse(), filter),
            ),
        decreases i,
    {
        i -= 1;
        let ghost done = db@.todos.subrange(i as int + 1, list@.len() as int).reverse();
        proof {
            assert(db@.todos.subrange(i as int, list@.len() as int).reverse() =~= done.push(
                db@.todos[i as int],
            ));
            lemma_admitted_push(done, filter, db@.todos[i as int]);
            lemma_rows_push(admitted(done, filter), db@.todos[i as int]);
            assert(list@[i as int]@ == db@.todos[i as int]);
        }
        if filter.matches(&list[i]) {
            rows.append(f_todos_item(&list[i]).as_str());
        }
    }
    assert(db@.todos.subrange(0, list@.len() as int) =~= db@.todos);
    rows
}

/// Writes the list as the store shows it under its filter.
pub fn f_todos_items(db: &DbData, oob: bool) -> (out: String)
    ensures
        out@ == todos_items_text(db@, oob),
{
    let mut form_attrs = attr("action", "/todos;apply");
    form_attrs.append(attr("method", "POST").as_str());
    form_attrs.append(attr("hx-boost", "true").as_str());
    form_attrs.append(attr("hx-swap", "none").as_str());
    let mut ul_attrs = attr("id", "items-list");
    ul_attrs.append(raw_attr(oob_attr(oob)).as_str());
    let mut children = element("ul", ul_attrs.as_str(), visible_rows(db).as_str());
    children.append(element("noscript", "", element("button", "", "Apply").as_str()).as_str());
    element("form", form_attrs.as_str(), children.as_str())
}

/// The checkbox that toggles every entry, ticked when the store is not empty
/// and every entry is completed.
pub open spec fn todos_toggleall_text(db: DbView, oob: bool) -> Seq<char> {
    void_element_text(
        "input"@,
        attr_text("id"@, "toggle-all"@) + attr_text("type"@, "checkbox"@) + raw_attr_text(
            checked_text(db.all_completed()),
        ) + attr_text("hx-post"@, "/todos/toggleall"@) + attr_text("hx-target"@, "this"@)
            + raw_attr_text(oob_text(oob)),
    )
}

/// Writes the checkbox that toggles every entry.
pub fn f_todos_toggleall(db: &DbData, oob: bool) -> (out: String)
    ensures
        out@ == todos_toggleall_text(db@, oob),
{
    let alldone = db.all_completed();
    let mut attrs = attr("id", "toggle-all");
    attrs.append(attr("type", "checkbox").as_str());
    attrs.append(raw_attr(checked(alldone)).as_str());
    attrs.append(attr("hx-post", "/todos/toggleall").as_str());
    attrs.append(attr("hx-target", "this").as_str());
    attrs.append(raw_attr(oob_attr(oob)).as_str());
    void_element("input", attrs.as_str())
}

/// The field in which a new entry is typed.
pub open spec fn todos_input_text(oob: bool) -> Seq<char> {
    void_element_text(
        "input"@,
        attr_text("id"@, "todo-new"@) + attr_text("name"@, "text"@) + attr_text(
            "placeholder"@,
            "What needs to be done?"@,
        ) + raw_attr_text("autofocus"@) + attr_text("hx-post"@, "/todos"@) + attr_text(
            "hx-target"@,
            ".todos ul"@,
        ) + attr_text("hx-swap"@, "afterbegin"@) + raw_attr_text(oob_text(oob)),
    )
}

/// Writes the field in which a new entry is typed.
pub fn f_todos_input(oob: bool) -> (out: String)
    ensures
        out@ == todos_input_text(oob),
{
    let mut attrs = attr("id", "todo-new");
    attrs.append(attr("name", "text").as_str());
    attrs.append(attr("placeholder", "What needs to be done?").as_str());
    attrs.append(raw_attr("autofocus").as_str());
    attrs.append(attr("hx-post", "/todos").as_str());
    attrs.append(attr("hx-target", ".todos ul").as_str());
    attrs.append(attr("hx-swap", "afterbegin").as_str());
    attrs.append(raw_attr(oob_attr(oob)).as_str());
    void_element("input", attrs.as_str())
}

/// The ending of the word "item" for a count: none for exactly one.
pub open spec fn plural_text(count: nat) -> Seq<char> {
    if count == 1 {
        ""@
    } else {
        "s"@
    }
}

/// The line that says how many entries are left to do.
pub open spec fn todos_count_text(db: DbView, oob: bool) -> Seq<char> {
    element_text(
        "span"@,
        attr_text("id"@, "todo-count"@) + raw_attr_text(oob_text(oob)),
        element_text("strong"@, ""@, decimal_text(db.count_active())) + " item"@ + plural_text(
            db.count_active(),
        ) + " left"@,
    )
}

/// Writes the line that says how many entries are left to do.
pub fn f_todos_count(db: &DbData, oob: bool) -> (out: String)
    ensures
        out@ == todos_count_text(db@, oob),
{
    let len = db.count_active();
    let mut attrs = attr("id", "todo-count");
    attrs.append(raw_attr(oob_attr(oob)).as_str());
    let mut children = element("strong", "", decimal(len as u64).as_str());
    children.append(" item");
    children.append(
        if len == 1 {
            ""
        } else {
            "s"
        },
    );
    children.append(" left");
    element("span", attrs.as_str(), children.as_str())
}

/// One choice of the filter control: a radio button, ticked when it is the
/// filter in force, and its label.
pub open spec fn filter_choice_text(id: Seq<char>, value: Seq<char>, on: bool) -> Seq<char> {
    void_element_text(
        "input"@,
        attr_text("type"@, "radio"@) + attr_text("id"@, id) + attr_text("name"@, "mode"@)
            + attr_text("value"@, value) + raw_attr_text(checked_text(on)) + attr_text(
            "hx-get"@,
            "/todos/filter"@,
        ),
    ) + element_text("label"@, attr_text("for"@, id), value)
}

/// Writes one choice of the filter control.
fn filter_choice(id: &str, value: &str, on: bool) -> (out: String)
    ensures
        out@ == filter_choice_text(id@, value@, on),
{
    let mut attrs = attr("type", "radio");
    attrs.append(attr("id", id).as_str());
    attrs.append(attr("name", "mode").as_str());
    attrs.append(attr("value", value).as_str());
    attrs.append(raw_attr(checked(on)).as_str());
    attrs.append(attr("hx-get", "/todos/filter").as_str());
    let mut out = void_element("input", attrs.as_str());
    out.append(element("label", attr("for", id).as_str(), value).as_str());
    out
}

/// The filter control: the three choices, the one in force ticked, and the
/// style sheet of the control.
pub open spec fn todos_filter_text(db: DbView) -> Seq<char> {
    element_text(
        "fieldset"@,
        attr_text("class"@, "filter"@) + attr_text("hx-swap"@, "none"@),
        element_text("legend"@, ""@, "Filter"@) + filter_choice_text(
            "filter-all"@,
            "All"@,
            db.filter == Filter::All,
        ) + filter_choice_text("filter-active"@, "Active"@, db.filter == Filter::Active)
            + filter_choice_text(
            "filter-completed"@,
            "Completed"@,
            db.filter == Filter::Completed,
        ),
    ) + element_text("style"@, ""@, FILTER_STYLE@)
}

/// Writes the filter control.
pub fn f_todos_filter(db: &DbData) -> (out: String)
    ensures
        out@ == todos_filter_text(db@),
{
    let selected_filter = db.get_filter();
    let mut attrs = attr("class", "filter");
    attrs.append(attr("hx-swap", "none").as_str());
    let mut children = element("legend", "", "Filter");
    children.append(filter_choice("filter-all", "All", selected_filter == Filter::All).as_str());
    children.append(
        filter_choice("filter-active", "Active", selected_filter == Filter::Active).as_str(),
    );
    children.append(
        filter_choice(
            "filter-completed",
            "Completed",
            selected_filter == Filter::Completed,
        ).as_str(),
    );
    let mut out = element("fieldset", attrs.as_str(), children.as_str());
    out.append(element("style", "", FILTER_STYLE).as_str());
    out
}

/// The "Todos" page: the tabs, then the section with the header (the
/// toggle-all checkbox and the input field), the list, the footer (the count
/// and the filter control) and the style sheet.
pub open spec fn todos_text(db: DbView) -> Seq<char> {
    tabs_text(Tabs::Todos) + element_text(
        "section"@,
        attr_text("class"@, "todos"@),
        element_text(
            "header"@,
            ""@,
            element_text("h1"@, ""@, "todos"@) + element_text(
                "form"@,
                attr_text("action"@, "/todos"@) + attr_text("method"@, "POST"@) + attr_text(
                    "hx-boost"@,
                    "true"@,
                ) + attr_text("hx-target"@, "none"@),
                todos_toggleall_text(db, false) + todos_input_text(false),
            ),
        ) + todos_items_text(db, false) + element_text(
            "footer"@,
            ""@,
            todos_count_text(db, false) + todos_filter_text(db),
        ) + element_text("style"@, ""@, TODOS_STYLE@),
    )
}

/// Writes the "Todos" page.
pub fn f_todos(db: &DbData) -> (out: String)
    ensures
        out@ == todos_text(db@),
{
    let mut form_attrs = attr("action", "/todos");
    form_attrs.append(attr("method", "POST").as_str());
    form_attrs.append(attr("hx-boost", "true").as_str());
    form_attrs.append(attr("hx-target", "none").as_str());
    let mut form_children = f_todos_toggleall(db, false);
    form_children.append(f_todos_input(false).as_str());
    let mut header_children = element("h1", "", "todos");
    header_children.append(
        element("form", form_attrs.as_str(), form_children.as_str()).as_str(),
    );
    let mut footer_children = f_todos_count(db, false);
    footer_children.append(f_todos_filter(db).as_str());
    let mut section_children = element("header", "", header_children.as_str());
    section_children.append(f_todos_items(db, false).as_str());
    section_children.append(element("footer", "", footer_children.as_str()).as_str());
    section_children.append(element("style", "", TODOS_STYLE).as_str());
    let mut out = f_tabs(Tabs::Todos);
    out.append(
        element("section", attr("class", "todos").as_str(), section_children.as_str()).as_str(),
    );
    out
}

} // verus!
