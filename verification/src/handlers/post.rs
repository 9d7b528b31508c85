//! The relay proper: a payload comes in, its member `data` goes upstream,
//! and what comes back goes out.
//!
//! Sending takes time and may fail, so a post is handled in two parts. The
//! first part ends in a reply or in a request to send; the second part turns
//! what came of the sending into the reply.

use crate::config::{is_on, switch_is_on, Environment, EnvironmentView};
use crate::handlers::access::{api_key_accepted, key_accepted, Header, HeaderView};
use crate::http::{
    error_reply, json_reply, pair, text_reply, Outcome, OutcomeView, Response, ResponseView,
};
use crate::text::{decimal, prefixed, to_decimal};
use std::collections::HashMap;
use vstd::prelude::*;

verus! {

/// A JSON value of `serde_json`. Nothing here looks into one.
#[verifier::external_type_specification]
#[verifier::external_body]
pub struct ExValue(serde_json::Value);

/// The error of `serde_json`.
#[verifier::external_type_specification]
#[verifier::external_body]
pub struct ExJsonError(serde_json::Error);

/// The body of a request to the relay: a JSON object. Its member `data` is
/// what the relay sends on; the other members are kept and not read.
#[derive(Clone, Debug, PartialEq)]
pub struct Payload {
    /// The member `data`, if the object has one.
    pub data: Option<serde_json::Value>,
    /// Every other member, by name.
    pub _extra: HashMap<String, serde_json::Value>,
}

/// A request to send to the upstream service.
#[derive(Clone, Debug, PartialEq, Eq)]
pub struct Forward {
    /// Where to post it.
    pub url: String,
    /// The `Authorization` header.
    pub authorization: String,
    /// The `Content-Type` header.
    pub content_type: String,
    /// The body.
    pub body: String,
}

/// What follows the first part of handling a post.
#[derive(Clone, Debug, PartialEq, Eq)]
pub enum Next {
    /// The request is answered.
    Reply(Response),
    /// The payload goes upstream, and the answer from there decides.
    Forward(Forward),
}

/// The first part of handling a post: the entries for the log, and what
/// follows.
#[derive(Clone, Debug, PartialEq, Eq)]
pub struct PostStep {
    /// What to append to the log, in this order.
    pub notes: Vec<(String, String)>,
    /// What to do then.
    pub next: Next,
}

/// What came of sending a payload upstream.
#[derive(Clone, Debug, PartialEq, Eq)]
pub enum Forwarded {
    /// The request could not be sent, for the reason given.
    Failed(String),
    /// An answer came, and its body could not be read, for the reason given.
    Unread(String),
    /// An answer came with this status and this body.
    Answer { status: u16, text: String },
}

/// A request to the upstream service as mathematical data.
pub struct ForwardView {
    pub url: Seq<char>,
    pub authorization: Seq<char>,
    pub content_type: Seq<char>,
    pub body: Seq<char>,
}

/// What follows, as mathematical data.
pub enum NextView {
    Reply(ResponseView),
    Forward(ForwardView),
}

/// The first part of handling a post as mathematical data.
pub struct PostStepView {
    pub notes: Seq<(Seq<char>, Seq<char>)>,
    pub next: NextView,
}

/// What came of sending a payload upstream, as mathematical data.
pub enum ForwardedView {
    Failed(Seq<char>),
    Unread(Seq<char>),
    Answer { status: u16, text: Seq<char> },
}

impl View for Forward {
    type V = ForwardView;

    open spec fn view(&self) -> ForwardView {
        ForwardView {
            url: self.url@,
            authorization: self.authorization@,
            content_type: self.content_type@,
            body: self.body@,
        }
    }
}

impl View for Next {
    type V = NextView;

    open spec fn view(&self) -> NextView {
        match self {
            Next::Reply(reply) => NextView::Reply(reply@),
            Next::Forward(forward) => NextView::Forward(forward@),
        }
    }
}

impl View for PostStep {
    type V = PostStepView;

    open spec fn view(&self) -> PostStepView {
        PostStepView { notes: self.notes.deep_view(), next: self.next@ }
    }
}

impl View for Forwarded {
    type V = ForwardedView;

    open spec fn view(&self) -> ForwardedView {
        match self {
            Forwarded::Failed(reason) => ForwardedView::Failed(reason@),
            Forwarded::Unread(reason) => ForwardedView::Unread(reason@),
            Forwarded::Answer { status, text } => ForwardedView::Answer {
                status: *status,
                text: text@,
            },
        }
    }
}

/// Where payloads are sent.
pub open spec fn upstream_url() -> Seq<char> {
    "https://app.jobnimbus.com/api1/contacts"@
}

/// The entry that records a payload, shown as `shown`. The payload came in
/// as the JSON body of a request, and the entry says so.
pub open spec fn received_note(shown: Seq<char>) -> (Seq<char>, Seq<char>) {
    ("Received payload: Json("@ + shown + ")"@, "📥"@)
}

/// The entry that records that a payload is about to go upstream.
pub open spec fn forwarding_note() -> (Seq<char>, Seq<char>) {
    ("Forwarding payload to Job Nimbus..."@, "📤"@)
}

/// The first part of handling a post. `shown` is the payload as the log
/// shows it. `data` is `None` where the payload has no member `data`, else
/// that member as JSON text, or the reason for which it could not be
/// written as JSON text.
///
/// A request without the expected key is turned away where keys are asked
/// for. A payload without `data` is a bad request. In test mode nothing is
/// sent and the request succeeds; else the payload goes upstream under the
/// relay's own key, and without that key the relay cannot serve.
pub open spec fn post_step(
    env: EnvironmentView,
    header: HeaderView,
    shown: Seq<char>,
    data: Option<Result<Seq<char>, Seq<char>>>,
) -> PostStepView {
    if is_on(env.api_security) && !key_accepted(env, header) {
        PostStepView {
            notes: seq![("Unauthorized API access attempt."@, "❌"@)],
            next: NextView::Reply(error_reply(401, "Unauthorized"@)),
        }
    } else {
        match data {
            None => PostStepView {
                notes: seq![received_note(shown), ("Missing 'data' in input payload."@, "❌"@)],
                next: NextView::Reply(error_reply(400, "Missing 'data' in payload"@)),
            },
            Some(Err(reason)) => PostStepView {
                notes: seq![
                    received_note(shown),
                    ("Error encoding forward payload to JSON: "@ + reason, "❌"@),
                ],
                next: NextView::Reply(error_reply(500, "Failed to encode payload"@)),
            },
            Some(Ok(json)) => if is_on(env.test_mode) {
                PostStepView {
                    notes: seq![
                        received_note(shown),
                        forwarding_note(),
                        ("Simulated forwarding in test mode."@, "🧪"@),
                    ],
                    next: NextView::Reply(
                        json_reply(
                            200,
                            seq![("status"@, "ok"@), ("message"@, "Test forward successful"@)],
                        ),
                    ),
                }
            } else {
                match env.job_nimbus_api_key {
                    None => PostStepView {
                        notes: seq![
                            received_note(shown),
                            forwarding_note(),
                            ("JOB_NIMBUS_API_KEY not set in environment."@, "❌"@),
                        ],
                        next: NextView::Reply(error_reply(500, "Server configuration error"@)),
                    },
                    Some(key) => PostStepView {
                        notes: seq![received_note(shown), forwarding_note()],
                        next: NextView::Forward(
                            ForwardView {
                                url: upstream_url(),
                                authorization: "bearer "@ + key,
                                content_type: "application/json"@,
                                body: json,
                            },
                        ),
                    },
                }
            },
        }
    }
}

/// The second part of handling a post: what the answer from upstream leads
/// to. An answer that was read is passed on as it is, under status 200
/// whatever its own status was.
pub open spec fn forwarded_outcome(forwarded: ForwardedView) -> OutcomeView {
    match forwarded {
        ForwardedView::Failed(reason) => OutcomeView {
            notes: seq![("HTTP request error: "@ + reason, "❌"@)],
            reply: error_reply(500, "Failed to forward payload"@),
        },
        ForwardedView::Unread(reason) => OutcomeView {
            notes: seq![("Failed to read response: "@ + reason, "❌"@)],
            reply: error_reply(500, "Failed to read response"@),
        },
        ForwardedView::Answer { status, text } => OutcomeView {
            notes: seq![
                (
                    "Received response from Job Nimbus (HTTP "@ + decimal(status as nat) + ")"@,
                    "📬"@,
                ),
                ("Response: "@ + text, "📬"@),
            ],
            reply: text_reply(200, Some("application/json"@), text),
        },
    }
}

/// The indented JSON text that `serde_json` writes for `value`; `None`
/// where it writes none.
pub uninterp spec fn pretty_json(value: serde_json::Value) -> Option<Seq<char>>;

/// What handling a post goes by in place of the payload's member `data`:
/// nothing where the payload has none, else the member's indented JSON
/// text, or `reason` where it has no such text.
pub open spec fn encoded(data: Option<serde_json::Value>, reason: Seq<char>) -> Option<
    Result<Seq<char>, Seq<char>>,
> {
    match data {
        None => None,
        Some(value) => match pretty_json(value) {
            Some(json) => Some(Ok(json)),
            None => Some(Err(reason)),
        },
    }
}

/// Writes a JSON value as indented text with `serde_json::to_string_pretty`.
/// The text depends on the value alone, and so does whether there is one:
/// that is all that is claimed.
#[verifier::external_body]
fn to_pretty_json(value: &serde_json::Value) -> (text: Result<String, serde_json::Error>)
    ensures
        match text {
            Ok(json) => pretty_json(*value) == Some(json@),
            Err(_) => pretty_json(*value) is None,
        },
{
    serde_json::to_string_pretty(value)
}

/// The message of an error of `serde_json`, as its `Display` writes it.
/// Nothing is claimed of the text.
#[verifier::external_body]
fn json_error_text(error: &serde_json::Error) -> (text: String) {
    error.to_string()
}

/// The payload as `Debug` writes it, JSON values included. Nothing is
/// claimed of the text: the order in which the members of `_extra` come
/// out differs from one process to the next.
#[verifier::external_body]
fn debug_text(payload: &Payload) -> (text: String) {
    format!("{:?}", payload)
}

/// Handles a post as far as it can be handled without the upstream service,
/// given the payload as the log shows it and its member `data` as JSON
/// text.
pub fn post_decide(
    env: &Environment,
    header: &Header,
    shown: &str,
    data: Option<Result<String, String>>,
) -> (step: PostStep)
    ensures
        step@ == post_step(
            env@,
            header@,
            shown@,
            match data {
                None => None,
                Some(Ok(json)) => Some(Ok(json@)),
                Some(Err(reason)) => Some(Err(reason@)),
            },
        ),
{
    let mut notes: Vec<(String, String)> = Vec::new();
    if switch_is_on(&env.api_security) && !api_key_accepted(env, header) {
        notes.push(pair("Unauthorized API access attempt.", "❌"));
        assert(notes.deep_view() =~= seq![("Unauthorized API access attempt."@, "❌"@)]);
        return PostStep { notes, next: Next::Reply(Response::error(401, "Unauthorized")) };
    }
    let mut received = prefixed("Received payload: Json(", shown);
    received.append(")");
    notes.push((received, String::from_str("📥")));
    let json = match data {
        None => {
            notes.push(pair("Missing 'data' in input payload.", "❌"));
            assert(notes.deep_view() =~= seq![
                received_note(shown@),
                ("Missing 'data' in input payload."@, "❌"@),
            ]);
            return PostStep {
                notes,
                next: Next::Reply(Response::error(400, "Missing 'data' in payload")),
            };
        },
        Some(Err(reason)) => {
            notes.push(
                (
                    prefixed("Error encoding forward payload to JSON: ", reason.as_str()),
                    String::from_str("❌"),
                ),
            );
            assert(notes.deep_view() =~= seq![
                received_note(shown@),
                ("Error encoding forward payload to JSON: "@ + reason@, "❌"@),
            ]);
            return PostStep {
                notes,
                next: Next::Reply(Response::error(500, "Failed to encode payload")),
            };
        },
        Some(Ok(json)) => json,
    };
    notes.push(pair("Forwarding payload to Job Nimbus...", "📤"));
    if switch_is_on(&env.test_mode) {
        notes.push(pair("Simulated forwarding in test mode.", "🧪"));
        let mut members: Vec<(String, String)> = Vec::new();
        members.push(pair("status", "ok"));
        members.push(pair("message", "Test forward successful"));
        assert(notes.deep_view() =~= seq![
            received_note(shown@),
            forwarding_note(),
            ("Simulated forwarding in test mode."@, "🧪"@),
        ]);
        assert(members.deep_view() =~= seq![
            ("status"@, "ok"@),
            ("message"@, "Test forward successful"@),
        ]);
        return PostStep { notes, next: Next::Reply(Response::json(200, members)) };
    }
    match &env.job_nimbus_api_key {
        None => {
            notes.push(pair("JOB_NIMBUS_API_KEY not set in environment.", "❌"));
            assert(notes.deep_view() =~= seq![
                received_note(shown@),
                forwarding_note(),
                ("JOB_NIMBUS_API_KEY not set in environment."@, "❌"@),
            ]);
            PostStep { notes, next: Next::Reply(Response::error(500, "Server configuration error")) }
        },
        Some(key) => {
            assert(notes.deep_view() =~= seq![received_note(shown@), forwarding_note()]);
            PostStep {
                notes,
                next: Next::Forward(
                    Forward {
                        url: String::from_str("https://app.jobnimbus.com/api1/contacts"),
                        authorization: prefixed("bearer ", key.as_str()),
                        content_type: String::from_str("application/json"),
                        body: json,
                    },
                ),
            }
        },
    }
}

/// Handles a post as far as it can be handled without the upstream service.
/// What goes upstream is the indented JSON text of the payload's member
/// `data` and of nothing else in the payload. How the payload is shown in
/// the log is up to `Debug`, and what an error of `serde_json` says is up to
/// `serde_json`: whatever these two texts are, the step is the one that
/// `post_step` names.
pub fn post_handler(env: &Environment, header: &Header, payload: &Payload) -> (step: PostStep)
    ensures
        exists|shown: Seq<char>, reason: Seq<char>| #[trigger]
            post_step(env@, header@, shown, encoded(payload.data, reason)) == step@,
{
    let shown = debug_text(payload);
    let ghost mut reason: Seq<char> = Seq::empty();
    let data = match &payload.data {
        None => None,
        Some(value) => match to_pretty_json(value) {
            Ok(json) => Some(Ok(json)),
            Err(error) => {
                let text = json_error_text(&error);
                proof {
                    reason = text@;
                }
                Some(Err(text))
            },
        },
    };
    let ghost seen: Option<Result<Seq<char>, Seq<char>>> = match &data {
        None => None,
        Some(Ok(json)) => Some(Ok(json@)),
        Some(Err(why)) => Some(Err(why@)),
    };
    assert(seen == encoded(payload.data, reason));
    let step = post_decide(env, header, shown.as_str(), data);
    assert(post_step(env@, header@, shown@, encoded(payload.data, reason)) == step@);
    step
}

/// Handles the second part of a post: what came back from upstream.
pub fn post_forwarded(forwarded: Forwarded) -> (outcome: Outcome)
    ensures
        outcome@ == forwarded_outcome(forwarded@),
{
    let mut notes: Vec<(String, String)> = Vec::new();
    match forwarded {
        Forwarded::Failed(reason) => {
            notes.push((prefixed("HTTP request error: ", reason.as_str()), String::from_str("❌")));
            assert(notes.deep_view() =~= seq![("HTTP request error: "@ + reason@, "❌"@)]);
            Outcome { notes, reply: Response::error(500, "Failed to forward payload") }
        },
        Forwarded::Unread(reason) => {
            notes.push(
                (prefixed("Failed to read response: ", reason.as_str()), String::from_str("❌")),
            );
            assert(notes.deep_view() =~= seq![("Failed to read response: "@ + reason@, "❌"@)]);
            Outcome { notes, reply: Response::error(500, "Failed to read response") }
        },
        Forwarded::Answer { status, text } => {
            let mut received = prefixed(
                "Received response from Job Nimbus (HTTP ",
                to_decimal(status as u64).as_str(),
            );
            received.append(")");
            notes.push((received, String::from_str("📬")));
            notes.push((prefixed("Response: ", text.as_str()), String::from_str("📬")));
            assert(notes.deep_view() =~= seq![
                (
                    "Received response from Job Nimbus (HTTP "@ + decimal(status as nat) + ")"@,
                    "📬"@,
                ),
                ("Response: "@ + text@, "📬"@),
            ]);
            Outcome { notes, reply: Response::text(200, Some("application/json"), text) }
        },
    }
}

} // verus!
