//! What the caller is told: a status and a body.

use crate::urls::UrlMap;
use vstd::prelude::*;
use vstd::string::StringExecFns;

verus! {

/// The statuses that the relay answers with.
#[derive(Clone, Copy, Debug, PartialEq, Eq, Structural)]
pub enum Status {
    Success,
    BadRequest,
    Unauthorized,
    InternalServerError,
}

impl Status {
    /// The status as a number of HTTP.
    pub open spec fn number(self) -> int {
        match self {
            Status::Success => 200,
            Status::BadRequest => 400,
            Status::Unauthorized => 401,
            Status::InternalServerError => 500,
        }
    }

    /// The status as a number of HTTP.
    pub fn code(&self) -> (n: u16)
        ensures
            n == self.number(),
    {
        match self {
            Status::Success => 200,
            Status::BadRequest => 400,
            Status::Unauthorized => 401,
            Status::InternalServerError => 500,
        }
    }
}

/// A body, to be sent as one JSON object: the addresses by entry name, or one
/// field that holds a message.
#[derive(Debug)]
pub enum Body {
    Urls(UrlMap),
    Fault { field: String, message: String },
}

/// A body as plain text.
pub enum BodyView {
    Urls(Map<Seq<char>, Seq<char>>),
    Fault { field: Seq<char>, message: Seq<char> },
}

impl View for Body {
    type V = BodyView;

    open spec fn view(&self) -> BodyView {
        match self {
            Body::Urls(urls) => BodyView::Urls(urls@),
            Body::Fault { field, message } => BodyView::Fault { field: field@, message: message@ },
        }
    }
}

/// The answer to a request.
#[derive(Debug)]
pub struct Reply {
    pub status: Status,
    pub body: Body,
}

/// A reply as plain text.
pub struct ReplyView {
    pub status: Status,
    pub body: BodyView,
}

impl View for Reply {
    type V = ReplyView;

    open spec fn view(&self) -> ReplyView {
        ReplyView { status: self.status, body: self.body@ }
    }
}

/// A refusal: `status`, and a body whose one field `field` holds `message`.
pub open spec fn fault(status: Status, field: Seq<char>, message: Seq<char>) -> ReplyView {
    ReplyView { status, body: BodyView::Fault { field, message } }
}

/// The answer to a request that was served in full: the addresses gathered.
pub open spec fn success(urls: Map<Seq<char>, Seq<char>>) -> ReplyView {
    ReplyView { status: Status::Success, body: BodyView::Urls(urls) }
}

/// The answer when the store refused an object. It names no file: whatever
/// was stored before stays stored and is not reported.
pub open spec fn storage_failure() -> ReplyView {
    fault(Status::InternalServerError, "err"@, "an error occured during image upload"@)
}

impl Reply {
    /// A refusal: `status`, and a body whose one field `field` holds `message`.
    pub fn fault(status: Status, field: &str, message: &str) -> (reply: Reply)
        ensures
            reply@ == fault(status, field@, message@),
    {
        let field = String::from_str(field);
        let message = String::from_str(message);
        Reply { status, body: Body::Fault { field, message } }
    }

    /// The answer to a request that was served in full.
    pub fn success(urls: UrlMap) -> (reply: Reply)
        ensures
            reply@ == success(urls@),
    {
        Reply { status: Status::Success, body: Body::Urls(urls) }
    }

    /// The answer when the store refused an object.
    pub fn storage_failure() -> (reply: Reply)
        ensures
            reply@ == storage_failure(),
    {
        Reply::fault(Status::InternalServerError, "err", "an error occured during image upload")
    }
}

} // verus!
