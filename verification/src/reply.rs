//! What a request is answered with.
use vstd::prelude::*;

verus! {

/// An answer to a request, before it is put on the wire.
#[derive(Debug, PartialEq, Eq)]
pub enum Reply {
    /// `200 OK` with an HTML page.
    Html(String),
    /// `500 Internal Server Error` with a plain-text explanation.
    ServerError(String),
    /// `303 See Other` to a path.
    Redirect(String),
}

/// A reply, as the contracts speak of it.
pub enum ReplyView {
    Html(Seq<char>),
    ServerError(Seq<char>),
    Redirect(Seq<char>),
}

impl View for Reply {
    type V = ReplyView;

    open spec fn view(&self) -> ReplyView {
        match self {
            Reply::Html(s) => ReplyView::Html(s@),
            Reply::ServerError(s) => ReplyView::ServerError(s@),
            Reply::Redirect(s) => ReplyView::Redirect(s@),
        }
    }
}

} // verus!
