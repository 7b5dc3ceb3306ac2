//! What goes back to the client: a status, a content type and a body.

use vstd::prelude::*;

verus! {

/// The content type that a reply declares.
#[derive(Clone, Copy, Debug, PartialEq, Eq, Structural)]
pub enum ContentType {
    PlainText,
    Html,
    Json,
}

/// A reply, as plain values.
#[derive(Debug)]
pub struct Reply {
    pub status: u16,
    pub content_type: Option<ContentType>,
    pub body: String,
}

/// A reply with its body as a sequence of characters.
pub struct ReplyView {
    pub status: u16,
    pub content_type: Option<ContentType>,
    pub body: Seq<char>,
}

impl View for Reply {
    type V = ReplyView;

    open spec fn view(&self) -> ReplyView {
        ReplyView { status: self.status, content_type: self.content_type, body: self.body@ }
    }
}

/// Whether a status reports success to the client.
pub open spec fn is_success(status: u16) -> bool {
    200 <= status < 300
}

/// Whether a status blames the client.
pub open spec fn is_client_error(status: u16) -> bool {
    400 <= status < 500
}

/// Whether a status blames the server.
pub open spec fn is_server_error(status: u16) -> bool {
    500 <= status < 600
}

impl Reply {
    /// A reply that carries only a status: no content type and an empty body.
    pub fn bare(status: u16) -> (reply: Reply)
        ensures
            reply@ == (ReplyView { status, content_type: None, body: Seq::empty() }),
    {
        Reply { status, content_type: None, body: String::new() }
    }

    /// A reply with a body of the given content type.
    pub fn with_body(status: u16, content_type: ContentType, body: String) -> (reply: Reply)
        ensures
            reply@ == (ReplyView { status, content_type: Some(content_type), body: body@ }),
    {
        Reply { status, content_type: Some(content_type), body }
    }
}

} // verus!
