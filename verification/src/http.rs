//! What a handler hands back: a reply to send and notes for the log.
//!
//! Both are plain data. Turning a reply into bytes on a socket, and a JSON
//! body into JSON text, is left to whoever sends it.

use vstd::prelude::*;

verus! {

/// What a reply carries.
#[derive(Clone, Debug, PartialEq, Eq)]
pub enum Body {
    /// Text, sent as it is.
    Text(String),
    /// Bytes, sent as they are.
    Bytes(Vec<u8>),
    /// A JSON object whose members are texts, by name.
    Object(Vec<(String, String)>),
    /// A JSON array of such objects.
    List(Vec<Vec<(String, String)>>),
}

/// A reply to a request.
#[derive(Clone, Debug, PartialEq, Eq)]
pub struct Response {
    /// The HTTP status code.
    pub status: u16,
    /// The `Content-Type` header; `None` where the handler sets none.
    pub content_type: Option<String>,
    /// Further headers, by name.
    pub headers: Vec<(String, String)>,
    /// What the reply carries.
    pub body: Body,
}

/// A reply together with the entries that go to the log before it is sent,
/// each a message and its marker.
#[derive(Clone, Debug, PartialEq, Eq)]
pub struct Outcome {
    /// What to append to the log, in this order.
    pub notes: Vec<(String, String)>,
    /// What to send.
    pub reply: Response,
}

/// A body as mathematical data.
pub enum BodyView {
    Text(Seq<char>),
    Bytes(Seq<u8>),
    Object(Seq<(Seq<char>, Seq<char>)>),
    List(Seq<Seq<(Seq<char>, Seq<char>)>>),
}

/// A reply as mathematical data.
pub struct ResponseView {
    pub status: u16,
    pub content_type: Option<Seq<char>>,
    pub headers: Seq<(Seq<char>, Seq<char>)>,
    pub body: BodyView,
}

/// An outcome as mathematical data.
pub struct OutcomeView {
    pub notes: Seq<(Seq<char>, Seq<char>)>,
    pub reply: ResponseView,
}

impl View for Body {
    type V = BodyView;

    open spec fn view(&self) -> BodyView {
        match self {
            Body::Text(text) => BodyView::Text(text@),
            Body::Bytes(bytes) => BodyView::Bytes(bytes@),
            Body::Object(members) => BodyView::Object(members.deep_view()),
            Body::List(items) => BodyView::List(items.deep_view()),
        }
    }
}

impl View for Response {
    type V = ResponseView;

    open spec fn view(&self) -> ResponseView {
        ResponseView {
            status: self.status,
            content_type: self.content_type.deep_view(),
            headers: self.headers.deep_view(),
            body: self.body@,
        }
    }
}

impl View for Outcome {
    type V = OutcomeView;

    open spec fn view(&self) -> OutcomeView {
        OutcomeView { notes: self.notes.deep_view(), reply: self.reply@ }
    }
}

/// A reply that carries the JSON object `members`.
pub open spec fn json_reply(status: u16, members: Seq<(Seq<char>, Seq<char>)>) -> ResponseView {
    ResponseView {
        status,
        content_type: Some("application/json"@),
        headers: Seq::empty(),
        body: BodyView::Object(members),
    }
}

/// A reply that reports a failure: a JSON object with the one member
/// `error`.
pub open spec fn error_reply(status: u16, error: Seq<char>) -> ResponseView {
    json_reply(status, seq![("error"@, error)])
}

/// A reply that carries `text` under the content type given, if any.
pub open spec fn text_reply(status: u16, content_type: Option<Seq<char>>, text: Seq<char>) -> ResponseView {
    ResponseView { status, content_type, headers: Seq::empty(), body: BodyView::Text(text) }
}

/// A name and its text, owned.
pub fn pair(name: &str, text: &str) -> (p: (String, String))
    ensures
        p.deep_view() == (name@, text@),
{
    (String::from_str(name), String::from_str(text))
}

impl Response {
    /// Builds `json_reply`.
    pub fn json(status: u16, members: Vec<(String, String)>) -> (r: Response)
        ensures
            r@ == json_reply(status, members.deep_view()),
    {
        let r = Response {
            status,
            content_type: Some(String::from_str("application/json")),
            headers: Vec::new(),
            body: Body::Object(members),
        };
        assert(r.headers.deep_view() =~= Seq::empty());
        r
    }

    /// Builds `error_reply`.
    pub fn error(status: u16, error: &str) -> (r: Response)
        ensures
            r@ == error_reply(status, error@),
    {
        let mut members: Vec<(String, String)> = Vec::new();
        members.push(pair("error", error));
        assert(members.deep_view() =~= seq![("error"@, error@)]);
        Response::json(status, members)
    }

    /// Builds `text_reply`.
    pub fn text(status: u16, content_type: Option<&str>, text: String) -> (r: Response)
        ensures
            r@ == text_reply(status, content_type.deep_view(), text@),
    {
        let content_type = match content_type {
            Some(kind) => Some(String::from_str(kind)),
            None => None,
        };
        let r = Response { status, content_type, headers: Vec::new(), body: Body::Text(text) };
        assert(r.headers.deep_view() =~= Seq::empty());
        r
    }
}

} // verus!
