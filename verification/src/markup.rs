//! The few shapes of HTML text that the pages are put together from.
//!
//! Text is written as it is given: nothing is escaped, and no space or line
//! break is added between the parts.

use vstd::prelude::*;

verus! {

/// An attribute with a value: a space, the key, and the value in double
/// quotes.
pub open spec fn attr_text(key: Seq<char>, value: Seq<char>) -> Seq<char> {
    " "@ + key + "=\""@ + value + "\""@
}

/// A piece of attribute text written as it stands after a space: a bare
/// attribute name, a ready-made `key="value"` pair, or nothing at all.
pub open spec fn raw_attr_text(text: Seq<char>) -> Seq<char> {
    " "@ + text
}

/// An element with a start tag, its content and an end tag.
pub open spec fn element_text(name: Seq<char>, attrs: Seq<char>, children: Seq<char>) -> Seq<
    char,
> {
    "<"@ + name + attrs + ">"@ + children + "</"@ + name + ">"@
}

/// An element that has no content and no end tag, such as `input` or `br`.
pub open spec fn void_element_text(name: Seq<char>, attrs: Seq<char>) -> Seq<char> {
    "<"@ + name + attrs + ">"@
}

/// A document type declaration.
pub open spec fn doctype_text(value: Seq<char>) -> Seq<char> {
    "<!DOCTYPE "@ + value + ">"@
}

/// Writes an attribute with a value.
pub fn attr(key: &str, value: &str) -> (out: String)
    ensures
        out@ == attr_text(key@, value@),
{
    let mut out = String::from_str(" ");
    out.append(key);
    out.append("=\"");
    out.append(value);
    out.append("\"");
    out
}

/// Writes a piece of attribute text as it stands, after a space.
pub fn raw_attr(text: &str) -> (out: String)
    ensures
        out@ == raw_attr_text(text@),
{
    let mut out = String::from_str(" ");
    out.append(text);
    out
}

/// Writes an element with its content between a start tag and an end tag.
pub fn element(name: &str, attrs: &str, children: &str) -> (out: String)
    ensures
        out@ == element_text(name@, attrs@, children@),
{
    let mut out = String::from_str("<");
    out.append(name);
    out.append(attrs);
    out.append(">");
    out.append(children);
    out.append("</");
    out.append(name);
    out.append(">");
    out
}

/// Writes an element that has no content and no end tag.
pub fn void_element(name: &str, attrs: &str) -> (out: String)
    ensures
        out@ == void_element_text(name@, attrs@),
{
    let mut out = String::from_str("<");
    out.append(name);
    out.append(attrs);
    out.append(">");
    out
}

/// Writes a document type declaration.
pub fn doctype(value: &str) -> (out: String)
    ensures
        out@ == doctype_text(value@),
{
    let mut out = String::from_str("<!DOCTYPE ");
    out.append(value);
    out.append(">");
    out
}

} // verus!
