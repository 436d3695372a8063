//! What a handler answers with.

use vstd::prelude::*;

verus! {

/// The answer to one request.
#[derive(Debug, Clone, PartialEq, Eq)]
pub enum Reply {
    /// Success, with this HTML text as the body.
    Html(String),
    /// The request named something that does not exist: a client error with
    /// no body.
    BadRequest,
}

/// What a [`Reply`] is, as a mathematical value.
pub enum ReplyView {
    Html(Seq<char>),
    BadRequest,
}

impl View for Reply {
    type V = ReplyView;

    open spec fn view(&self) -> ReplyView {
        match self {
            Reply::Html(body) => ReplyView::Html(body@),
            Reply::BadRequest => ReplyView::BadRequest,
        }
    }
}

} // verus!
