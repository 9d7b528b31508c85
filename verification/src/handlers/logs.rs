//! The log over HTTP: serving it pruned, and clearing it.

use crate::config::{Environment, EnvironmentView};
use crate::handlers::access::{gui_allows, gui_authorized, Header, HeaderView};
use crate::http::{
    error_reply, json_reply, pair, text_reply, Body, BodyView, Outcome, OutcomeView, Response,
    ResponseView,
};
use crate::prune::{prune, pruned};
use crate::store::{file_after_read, read_at};
use crate::time::{local_now, Retention, Timestamp};
use vstd::prelude::*;

verus! {

/// What a request for the log leads to: the reply, and the text to put in
/// the log file's place before the reply is sent, if any.
#[derive(Clone, Debug, PartialEq, Eq)]
pub struct LogsOutcome {
    /// What to send, if the rewrite succeeds.
    pub reply: Response,
    /// The new text of the log file; `None` where the file is left alone.
    pub rewrite: Option<String>,
}

/// The outcome of a request for the log as mathematical data.
pub struct LogsOutcomeView {
    pub reply: ResponseView,
    pub rewrite: Option<Seq<char>>,
}

impl View for LogsOutcome {
    type V = LogsOutcomeView;

    open spec fn view(&self) -> LogsOutcomeView {
        LogsOutcomeView { reply: self.reply@, rewrite: self.rewrite.deep_view() }
    }
}

/// The content type of the log and of the replies around it.
pub open spec fn plain_text() -> Seq<char> {
    "text/plain; charset=utf-8"@
}

/// The window for which the relay keeps its log: seven days.
pub open spec fn week() -> Retention {
    Retention { secs: 604_800, subsec_nanos: 0 }
}

/// The headers that keep a reply out of every cache.
pub open spec fn uncached() -> Seq<(Seq<char>, Seq<char>)> {
    seq![
        ("Cache-Control"@, "no-cache, no-store, must-revalidate"@),
        ("X-Content-Type-Options"@, "nosniff"@),
    ]
}

/// What a request for the log leads to at `now`, given the text of the log
/// file; `None` stands for a file that does not exist or cannot be read as
/// text.
pub open spec fn logs_outcome(
    env: EnvironmentView,
    header: HeaderView,
    query: Option<Seq<char>>,
    content: Option<Seq<char>>,
    now: Timestamp,
) -> LogsOutcomeView {
    if !gui_allows(env, header, query) {
        LogsOutcomeView {
            reply: text_reply(401, Some(plain_text()), "Unauthorized"@),
            rewrite: None,
        }
    } else {
        match content {
            None => LogsOutcomeView {
                reply: text_reply(200, Some(plain_text()), Seq::empty()),
                rewrite: None,
            },
            Some(text) => LogsOutcomeView {
                reply: ResponseView {
                    status: 200,
                    content_type: Some(plain_text()),
                    headers: uncached(),
                    body: BodyView::Text(pruned(text, week(), now)),
                },
                rewrite: Some(pruned(text, week(), now)),
            },
        }
    }
}

/// The reply once the log file was rewritten, or could not be.
pub open spec fn logs_reply(outcome: LogsOutcomeView, written: bool) -> ResponseView {
    if written {
        outcome.reply
    } else {
        text_reply(500, Some(plain_text()), "Failed to write pruned logs"@)
    }
}

/// What clearing the log leads to, given whether the file could be emptied
/// and, if not, the reason.
pub open spec fn clear_outcome(cleared: Result<(), Seq<char>>) -> OutcomeView {
    match cleared {
        Ok(_) => OutcomeView {
            notes: seq![("Logs cleared."@, "🧹"@)],
            reply: json_reply(200, seq![("status"@, "ok"@), ("message"@, "Logs cleared"@)]),
        },
        Err(reason) => OutcomeView {
            notes: seq![("Failed to clear logs: "@ + reason, "❌"@)],
            reply: error_reply(500, "Failed to clear logs"@),
        },
    }
}

/// Builds `text_reply` under `plain_text`.
fn plain_reply(status: u16, text: String) -> (reply: Response)
    ensures
        reply@ == text_reply(status, Some(plain_text()), text@),
{
    Response::text(status, Some("text/plain; charset=utf-8"), text)
}

/// Answers a request for the log as it stands at `now`: entries older than
/// a week leave it, and what is left is both sent and written back.
pub fn logs_handler_at(
    env: &Environment,
    header: &Header,
    query: Option<&str>,
    content: Option<&str>,
    now: &Timestamp,
) -> (outcome: LogsOutcome)
    ensures
        outcome@ == logs_outcome(env@, header@, query.deep_view(), content.deep_view(), *now),
{
    if !gui_authorized(env, header, query) {
        return LogsOutcome {
            reply: plain_reply(401, String::from_str("Unauthorized")),
            rewrite: None,
        };
    }
    match content {
        None => LogsOutcome { reply: plain_reply(200, String::new()), rewrite: None },
        Some(text) => {
            let kept = prune(text, &Retention::default(), now);
            let mut headers: Vec<(String, String)> = Vec::new();
            headers.push(pair("Cache-Control", "no-cache, no-store, must-revalidate"));
            headers.push(pair("X-Content-Type-Options", "nosniff"));
            assert(headers.deep_view() =~= uncached());
            LogsOutcome {
                reply: Response {
                    status: 200,
                    content_type: Some(String::from_str("text/plain; charset=utf-8")),
                    headers,
                    body: Body::Text(kept.clone()),
                },
                rewrite: Some(kept),
            }
        },
    }
}

/// Answers a request for the log as it stands now.
pub fn logs_handler(env: &Environment, header: &Header, query: Option<&str>, content: Option<&str>) -> (outcome:
    LogsOutcome)
    ensures
        exists|now: Timestamp| #[trigger]
            logs_outcome(env@, header@, query.deep_view(), content.deep_view(), now) == outcome@,
{
    let now = local_now();
    logs_handler_at(env, header, query, content, &now)
}

/// The reply to send once the rewrite that `outcome` asked for was tried:
/// the reply of `outcome` if the file was written, a failure if not. Where
/// `outcome` asked for no rewrite, `written` is `true`.
pub fn logs_handler_done(outcome: LogsOutcome, written: bool) -> (reply: Response)
    ensures
        reply@ == logs_reply(outcome@, written),
{
    if written {
        outcome.reply
    } else {
        plain_reply(500, String::from_str("Failed to write pruned logs"))
    }
}

/// Answers a request to clear the log, once the file was emptied or could
/// not be.
pub fn clear_logs_handler(cleared: Result<(), String>) -> (outcome: Outcome)
    ensures
        outcome@ == clear_outcome(
            match cleared {
                Ok(_) => Ok(()),
                Err(reason) => Err(reason@),
            },
        ),
{
    let mut notes: Vec<(String, String)> = Vec::new();
    match cleared {
        Ok(_) => {
            notes.push(pair("Logs cleared.", "🧹"));
            let mut members: Vec<(String, String)> = Vec::new();
            members.push(pair("status", "ok"));
            members.push(pair("message", "Logs cleared"));
            assert(notes.deep_view() =~= seq![("Logs cleared."@, "🧹"@)]);
            assert(members.deep_view() =~= seq![("status"@, "ok"@), ("message"@, "Logs cleared"@)]);
            Outcome { notes, reply: Response::json(200, members) }
        },
        Err(reason) => {
            let mut message = String::from_str("Failed to clear logs: ");
            message.append(reason.as_str());
            notes.push((message, String::from_str("❌")));
            assert(notes.deep_view() =~= seq![("Failed to clear logs: "@ + reason@, "❌"@)]);
            Outcome { notes, reply: Response::error(500, "Failed to clear logs") }
        },
    }
}

/// A request that is let in is served what a read of the log store
/// returns, and asks for the file to be rewritten as that read leaves it.
pub proof fn logs_are_read_from_the_store(
    env: EnvironmentView,
    header: HeaderView,
    query: Option<Seq<char>>,
    content: Option<Seq<char>>,
    now: Timestamp,
)
    requires
        gui_allows(env, header, query),
    ensures
        logs_outcome(env, header, query, content, now).reply.status == 200,
        logs_outcome(env, header, query, content, now).reply.body == BodyView::Text(
            read_at(content, week(), now),
        ),
        logs_outcome(env, header, query, content, now).rewrite == file_after_read(
            content,
            week(),
            now,
        ),
{
}

} // verus!
