//! The errors that a handler may answer with, each with its status and text.

use vstd::prelude::*;
use vstd::string::*;
use crate::reply::{ContentType, Reply, ReplyView};

verus! {

/// What went wrong while a request was handled.
#[derive(Clone, Copy, Debug, PartialEq, Eq, Structural)]
pub enum MyError {
    InternalError,
    BadClientData,
    Timeout,
}

impl MyError {
    /// The status of each error.
    pub open spec fn status(self) -> u16 {
        match self {
            MyError::InternalError => 500,
            MyError::BadClientData => 400,
            MyError::Timeout => 504,
        }
    }

    /// The text of each error.
    pub open spec fn text(self) -> Seq<char> {
        match self {
            MyError::InternalError => "internal error"@,
            MyError::BadClientData => "bad request"@,
            MyError::Timeout => "timeout"@,
        }
    }

    /// The status that reports the error.
    pub fn status_code(&self) -> (status: u16)
        ensures
            status == self.status(),
    {
        match self {
            MyError::InternalError => 500,
            MyError::BadClientData => 400,
            MyError::Timeout => 504,
        }
    }

    /// The text that names the error.
    pub fn message(&self) -> (text: String)
        ensures
            text@ == self.text(),
    {
        match self {
            MyError::InternalError => String::from_str("internal error"),
            MyError::BadClientData => String::from_str("bad request"),
            MyError::Timeout => String::from_str("timeout"),
        }
    }

    /// The reply for the error: its status, with its text as the body of a page.
    pub fn error_response(&self) -> (reply: Reply)
        ensures
            reply@ == (ReplyView {
                status: self.status(),
                content_type: Some(ContentType::Html),
                body: self.text(),
            }),
    {
        Reply::with_body(self.status_code(), ContentType::Html, self.message())
    }
}

} // verus!
