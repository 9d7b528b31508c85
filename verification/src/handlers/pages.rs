//! The pages of the relay: the front page and the files below `/static/`.

use crate::config::{Environment, EnvironmentView};
use crate::handlers::access::{gui_allows, gui_authorized, Header, HeaderView};
use crate::http::{text_reply, Body, BodyView, Response, ResponseView};
use crate::text::{pieces, pieces_not_empty, same_text, split};
use vstd::prelude::*;

verus! {

/// The files to read for a request below `/static/`: the first of `paths`
/// that can be read is the one to serve. With `as_text`, a file can be read
/// only if it holds text.
#[derive(Clone, Debug, PartialEq, Eq)]
pub struct StaticPlan {
    /// Where to look, in this order.
    pub paths: Vec<String>,
    /// Whether only a file that holds text will do.
    pub as_text: bool,
}

/// The reply to a request for the front page, given the page's text if it
/// could be read.
pub open spec fn index_reply(
    env: EnvironmentView,
    header: HeaderView,
    query: Option<Seq<char>>,
    page: Option<Seq<char>>,
) -> ResponseView {
    if !gui_allows(env, header, query) {
        text_reply(401, None, "Unauthorized"@)
    } else {
        match page {
            Some(html) => text_reply(200, Some("text/html"@), html),
            None => text_reply(500, None, "Failed to load index.html"@),
        }
    }
}

/// Where the file named `filename` lies.
pub open spec fn static_path(filename: Seq<char>) -> Seq<char> {
    "static/"@ + filename
}

/// Whether `filename` names the manual, which is looked for in two places.
pub open spec fn is_readme(filename: Seq<char>) -> bool {
    filename == "README.md"@
}

/// The files to try for `filename`, in their order.
pub open spec fn static_paths(filename: Seq<char>) -> Seq<Seq<char>> {
    if is_readme(filename) {
        seq!["static/README.md"@, "README.md"@]
    } else {
        seq![static_path(filename)]
    }
}

/// What follows the last dot of `path`; all of `path` where it has no dot.
pub open spec fn extension(path: Seq<char>) -> Seq<char> {
    pieces(path, '.').last()
}

/// The content type under which the file at `path` is served.
pub open spec fn content_type_of(path: Seq<char>) -> Seq<char> {
    let ext = extension(path);
    if ext == "css"@ {
        "text/css"@
    } else if ext == "js"@ {
        "application/javascript"@
    } else if ext == "json"@ {
        "application/json"@
    } else if ext == "ico"@ {
        "image/x-icon"@
    } else if ext == "png"@ {
        "image/png"@
    } else if ext == "jpg"@ || ext == "jpeg"@ {
        "image/jpeg"@
    } else if ext == "svg"@ {
        "image/svg+xml"@
    } else if ext == "webp"@ {
        "image/webp"@
    } else if ext == "md"@ {
        "text/markdown; charset=utf-8"@
    } else {
        "application/octet-stream"@
    }
}

/// The reply to a request for the file `filename`, given what the first
/// readable file among `static_paths` holds; `None` where none is readable.
pub open spec fn static_reply(filename: Seq<char>, loaded: Option<Seq<u8>>) -> ResponseView {
    match loaded {
        Some(bytes) => ResponseView {
            status: 200,
            content_type: Some(
                if is_readme(filename) {
                    "text/markdown; charset=utf-8"@
                } else {
                    content_type_of(static_path(filename))
                },
            ),
            headers: Seq::empty(),
            body: BodyView::Bytes(bytes),
        },
        None => if is_readme(filename) {
            text_reply(404, None, "README.md not found"@)
        } else {
            text_reply(404, None, "File not found: "@ + static_path(filename))
        },
    }
}

/// Answers a request for the front page.
pub fn index_handler(env: &Environment, header: &Header, query: Option<&str>, page: Option<String>) -> (reply:
    Response)
    ensures
        reply@ == index_reply(env@, header@, query.deep_view(), page.deep_view()),
{
    if !gui_authorized(env, header, query) {
        return Response::text(401, None, String::from_str("Unauthorized"));
    }
    match page {
        Some(html) => Response::text(200, Some("text/html"), html),
        None => Response::text(500, None, String::from_str("Failed to load index.html")),
    }
}

/// Computes `content_type_of`.
pub fn content_type(path: &str) -> (kind: String)
    ensures
        kind@ == content_type_of(path@),
{
    let parts = split(path, '.');
    proof {
        pieces_not_empty(path@, '.');
    }
    let ext = parts[parts.len() - 1].as_str();
    assert(ext@ == extension(path@));
    let kind = if same_text(ext, "css") {
        "text/css"
    } else if same_text(ext, "js") {
        "application/javascript"
    } else if same_text(ext, "json") {
        "application/json"
    } else if same_text(ext, "ico") {
        "image/x-icon"
    } else if same_text(ext, "png") {
        "image/png"
    } else if same_text(ext, "jpg") || same_text(ext, "jpeg") {
        "image/jpeg"
    } else if same_text(ext, "svg") {
        "image/svg+xml"
    } else if same_text(ext, "webp") {
        "image/webp"
    } else if same_text(ext, "md") {
        "text/markdown; charset=utf-8"
    } else {
        "application/octet-stream"
    };
    String::from_str(kind)
}

/// Computes `static_path`.
pub fn path_of(filename: &str) -> (path: String)
    ensures
        path@ == static_path(filename@),
{
    let mut path = String::from_str("static/");
    path.append(filename);
    path
}

/// Names the files to read for a request below `/static/`.
pub fn static_file_plan(filename: &str) -> (plan: StaticPlan)
    ensures
        plan.paths.deep_view() == static_paths(filename@),
        plan.as_text == is_readme(filename@),
{
    let mut paths: Vec<String> = Vec::new();
    if same_text(filename, "README.md") {
        paths.push(String::from_str("static/README.md"));
        paths.push(String::from_str("README.md"));
        assert(paths.deep_view() =~= static_paths(filename@));
        StaticPlan { paths, as_text: true }
    } else {
        paths.push(path_of(filename));
        assert(paths.deep_view() =~= static_paths(filename@));
        StaticPlan { paths, as_text: false }
    }
}

/// Answers a request for the file `filename` below `/static/`.
pub fn static_file_handler(filename: &str, loaded: Option<Vec<u8>>) -> (reply: Response)
    ensures
        reply@ == static_reply(filename@, loaded.deep_view()),
{
    let readme = same_text(filename, "README.md");
    match loaded {
        Some(bytes) => {
            let kind = if readme {
                String::from_str("text/markdown; charset=utf-8")
            } else {
                content_type(path_of(filename).as_str())
            };
            let reply = Response {
                status: 200,
                content_type: Some(kind),
                headers: Vec::new(),
                body: Body::Bytes(bytes),
            };
            assert(reply.headers.deep_view() =~= Seq::empty());
            assert(bytes.deep_view() =~= bytes@);
            reply
        },
        None => {
            if readme {
                Response::text(404, None, String::from_str("README.md not found"))
            } else {
                let mut text = String::from_str("File not found: ");
                text.append(path_of(filename).as_str());
                Response::text(404, None, text)
            }
        },
    }
}

} // verus!
