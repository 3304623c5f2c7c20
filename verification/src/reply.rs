//! What a request to one of the services came back with.

use vstd::prelude::*;

verus! {

/// The outcome of one GET, as the caller that made it hands it over.
#[derive(Clone, Debug, PartialEq, Eq)]
pub enum Reply {
    /// The bytes of the response's body.
    Body(Vec<u8>),
    /// The request could not be sent, or its body could not be read to the end.
    Lost,
}

/// The outcome of the GET of a page, where the caller that made it has
/// decoded the body into text.
#[derive(Clone, Debug, PartialEq, Eq)]
pub enum Page {
    /// The text of the response's body.
    Text(String),
    /// The request could not be sent, or its body could not be read to the end.
    Lost,
}

/// A page's outcome, its text as a sequence of characters.
pub enum PageView {
    Text(Seq<char>),
    Lost,
}

impl View for Page {
    type V = PageView;

    open spec fn view(&self) -> PageView {
        match self {
            Page::Text(text) => PageView::Text(text@),
            Page::Lost => PageView::Lost,
        }
    }
}

/// An outcome, its body as a sequence of bytes.
pub enum ReplyView {
    Body(Seq<u8>),
    Lost,
}

impl View for Reply {
    type V = ReplyView;

    open spec fn view(&self) -> ReplyView {
        match self {
            Reply::Body(bytes) => ReplyView::Body(bytes@),
            Reply::Lost => ReplyView::Lost,
        }
    }
}

} // verus!
