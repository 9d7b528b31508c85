use sch2jn::config::Environment;
use sch2jn::handlers::{
    api_key_accepted, clear_logs_handler, content_type, gui_authorized, index_handler,
    logs_handler, logs_handler_at, logs_handler_done, password_in_query, path_of, post_decide,
    post_forwarded, post_handler, run_tests_handler, run_tests_plan, static_file_handler,
    static_file_plan, Forward, Forwarded, Header, LogsOutcome, Next, Payload, PostStep, TestRun,
};
use sch2jn::http::{Body, Outcome, Response};
use sch2jn::time::Timestamp;
use std::collections::HashMap;

fn s(text: &str) -> String {
    text.to_string()
}

fn note(message: &str, marker: &str) -> (String, String) {
    (s(message), s(marker))
}

fn members(pairs: &[(&str, &str)]) -> Vec<(String, String)> {
    pairs.iter().map(|(name, text)| (s(name), s(text))).collect()
}

fn json(status: u16, pairs: &[(&str, &str)]) -> Response {
    Response {
        status,
        content_type: Some(s("application/json")),
        headers: vec![],
        body: Body::Object(members(pairs)),
    }
}

fn failure(status: u16, error: &str) -> Response {
    json(status, &[("error", error)])
}

fn text(status: u16, content_type: Option<&str>, body: &str) -> Response {
    Response {
        status,
        content_type: content_type.map(s),
        headers: vec![],
        body: Body::Text(s(body)),
    }
}

fn object(pairs: &[(&str, serde_json::Value)]) -> serde_json::Value {
    let mut map = serde_json::Map::new();
    for (name, value) in pairs {
        map.insert(s(name), value.clone());
    }
    serde_json::Value::Object(map)
}

fn word(text: &str) -> serde_json::Value {
    serde_json::Value::String(s(text))
}

fn payload(data: Option<serde_json::Value>) -> Payload {
    let mut extra = HashMap::new();
    extra.insert(s("event"), word("project.updated"));
    Payload { data, _extra: extra }
}

fn contact() -> serde_json::Value {
    object(&[
        ("first_name", word("testmatt")),
        ("status_name", word("Job Sold")),
        ("record_type_name", word("East Customers")),
    ])
}

fn noon() -> Timestamp {
    // 2024-05-10T12:00:00Z
    Timestamp { secs: 1_715_342_400, nanos: 0, offset: 0 }
}

fn guarded(password: Option<&str>) -> Environment {
    let mut env = Environment::empty();
    env.gui_auth_required = Some(s("true"));
    env.gui_password = password.map(s);
    env
}

fn secured(subcontractor: Option<&str>, upstream: Option<&str>) -> Environment {
    let mut env = Environment::empty();
    env.api_security = Some(s("true"));
    env.subcontractor_api_key = subcontractor.map(s);
    env.job_nimbus_api_key = upstream.map(s);
    env
}

fn status_of(step: &PostStep) -> u16 {
    match &step.next {
        Next::Reply(reply) => reply.status,
        Next::Forward(_) => panic!("the payload is on its way upstream"),
    }
}

#[test]
fn test_missing_payload() {
    let step = post_handler(&Environment::empty(), &Header::Missing, &payload(None));
    assert_eq!(status_of(&step), 400);
}

#[test]
fn test_valid_payload_direct_data() {
    let mut env = Environment::empty();
    env.test_mode = Some(s("true"));
    env.job_nimbus_api_key = Some(s("dummy"));
    let step = post_handler(&env, &Header::Missing, &payload(Some(contact())));
    assert_eq!(status_of(&step), 200);
    let body = match step.next {
        Next::Reply(Response { body: Body::Object(members), .. }) => members,
        other => panic!("no JSON object: {:?}", other),
    };
    let response_text: String = body.iter().map(|(name, text)| format!("{name}:{text};")).collect();
    assert!(
        response_text.contains("ok") || response_text.contains("success"),
        "Response should indicate success"
    );
}

#[test]
fn a_post_without_data_is_a_bad_request() {
    let step = post_handler(&Environment::empty(), &Header::Missing, &payload(None));
    assert_eq!(step.next, Next::Reply(failure(400, "Missing 'data' in payload")));
    assert_eq!(step.notes.len(), 2);
    assert!(step.notes[0].0.starts_with("Received payload: Json(Payload { data: None, _extra: {"));
    assert!(step.notes[0].0.contains("\"event\": String(\"project.updated\")"));
    assert!(step.notes[0].0.ends_with("})"));
    assert_eq!(step.notes[0].1, "📥");
    assert_eq!(step.notes[1], note("Missing 'data' in input payload.", "❌"));
}

#[test]
fn a_post_in_test_mode_is_not_sent() {
    let mut env = Environment::empty();
    env.test_mode = Some(s("true"));
    let step = post_handler(&env, &Header::Missing, &payload(Some(contact())));
    assert_eq!(
        step.next,
        Next::Reply(json(200, &[("status", "ok"), ("message", "Test forward successful")]))
    );
    assert_eq!(step.notes.len(), 3);
    assert!(step.notes[0].0.starts_with("Received payload: Json(Payload { data: Some(Object {"));
    assert_eq!(step.notes[1], note("Forwarding payload to Job Nimbus...", "📤"));
    assert_eq!(step.notes[2], note("Simulated forwarding in test mode.", "🧪"));
}

#[test]
fn a_post_goes_upstream_as_indented_json() {
    let mut env = Environment::empty();
    env.job_nimbus_api_key = Some(s("k-123"));
    let step = post_handler(&env, &Header::Missing, &payload(Some(contact())));
    assert_eq!(
        step.next,
        Next::Forward(Forward {
            url: s("https://app.jobnimbus.com/api1/contacts"),
            authorization: s("bearer k-123"),
            content_type: s("application/json"),
            body: s(
                "{\n  \"first_name\": \"testmatt\",\n  \"record_type_name\": \"East Customers\",\n  \"status_name\": \"Job Sold\"\n}"
            ),
        })
    );
    assert_eq!(step.notes.len(), 2);
    assert_eq!(step.notes[1], note("Forwarding payload to Job Nimbus...", "📤"));
}

#[test]
fn a_post_of_data_that_is_no_object_goes_upstream_too() {
    let mut env = Environment::empty();
    env.job_nimbus_api_key = Some(s(""));
    let step = post_handler(&env, &Header::Missing, &payload(Some(serde_json::Value::Null)));
    match step.next {
        Next::Forward(forward) => {
            assert_eq!(forward.body, "null");
            assert_eq!(forward.authorization, "bearer ");
        }
        other => panic!("not sent: {:?}", other),
    }
}

#[test]
fn a_post_without_the_upstream_key_cannot_be_served() {
    let step = post_handler(&Environment::empty(), &Header::Missing, &payload(Some(contact())));
    assert_eq!(step.next, Next::Reply(failure(500, "Server configuration error")));
    assert_eq!(step.notes.len(), 3);
    assert_eq!(step.notes[2], note("JOB_NIMBUS_API_KEY not set in environment.", "❌"));
}

#[test]
fn test_mode_is_on_for_the_word_true_only() {
    for value in ["TRUE", "1", "yes", "", " true", "true "] {
        let mut env = Environment::empty();
        env.test_mode = Some(s(value));
        let step = post_handler(&env, &Header::Missing, &payload(Some(contact())));
        assert_eq!(status_of(&step), 500, "TEST_MODE={:?}", value);
    }
}

#[test]
fn a_post_without_key_is_turned_away_where_keys_are_asked_for() {
    let env = secured(Some("sub"), Some("up"));
    let step = post_handler(&env, &Header::Missing, &payload(Some(contact())));
    assert_eq!(
        step,
        PostStep {
            notes: vec![note("Unauthorized API access attempt.", "❌")],
            next: Next::Reply(failure(401, "Unauthorized")),
        }
    );
}

#[test]
fn a_post_with_the_wrong_key_is_turned_away() {
    let env = secured(Some("sub"), Some("up"));
    for key in ["up", "Sub", "sub ", ""] {
        let step = post_handler(&env, &Header::Text(s(key)), &payload(None));
        assert_eq!(status_of(&step), 401, "key {:?}", key);
    }
}

#[test]
fn a_post_with_the_subcontractor_key_is_let_in() {
    let env = secured(Some("sub"), Some("up"));
    let step = post_handler(&env, &Header::Text(s("sub")), &payload(None));
    assert_eq!(status_of(&step), 400);
}

#[test]
fn the_upstream_key_lets_in_where_no_subcontractor_key_is_set() {
    let env = secured(None, Some("up"));
    assert!(api_key_accepted(&env, &Header::Text(s("up"))));
    assert!(!api_key_accepted(&env, &Header::Text(s("sub"))));
    assert!(!api_key_accepted(&env, &Header::Unreadable));
    assert!(!api_key_accepted(&env, &Header::Missing));
}

#[test]
fn the_empty_key_lets_in_where_no_key_is_set() {
    let env = secured(None, None);
    assert!(api_key_accepted(&env, &Header::Text(s(""))));
    assert!(api_key_accepted(&env, &Header::Unreadable));
    assert!(!api_key_accepted(&env, &Header::Missing));
    assert!(!api_key_accepted(&env, &Header::Text(s("x"))));
}

#[test]
fn keys_are_not_asked_for_unless_security_is_on() {
    let mut env = secured(Some("sub"), None);
    env.api_security = Some(s("false"));
    assert_eq!(status_of(&post_handler(&env, &Header::Missing, &payload(None))), 400);
    env.api_security = None;
    assert_eq!(status_of(&post_handler(&env, &Header::Missing, &payload(None))), 400);
}

#[test]
fn the_header_of_the_key_can_be_renamed() {
    let mut env = Environment::empty();
    assert_eq!(env.api_key_header(), "x-api-key");
    env.api_key_header = Some(s("x-relay-key"));
    assert_eq!(env.api_key_header(), "x-relay-key");
    env.api_key_header = Some(s(""));
    assert_eq!(env.api_key_header(), "");
}

#[test]
fn a_payload_that_cannot_be_written_is_a_server_error() {
    let step = post_decide(
        &Environment::empty(),
        &Header::Missing,
        "Payload { .. }",
        Some(Err(s("key must be a string"))),
    );
    assert_eq!(
        step,
        PostStep {
            notes: vec![
                note("Received payload: Json(Payload { .. })", "📥"),
                note("Error encoding forward payload to JSON: key must be a string", "❌"),
            ],
            next: Next::Reply(failure(500, "Failed to encode payload")),
        }
    );
}

#[test]
fn post_decide_sends_the_text_it_is_given() {
    let mut env = Environment::empty();
    env.job_nimbus_api_key = Some(s("🔑"));
    let step = post_decide(&env, &Header::Missing, "shown", Some(Ok(s("{\"a\": 1}"))));
    assert_eq!(
        step,
        PostStep {
            notes: vec![
                note("Received payload: Json(shown)", "📥"),
                note("Forwarding payload to Job Nimbus...", "📤"),
            ],
            next: Next::Forward(Forward {
                url: s("https://app.jobnimbus.com/api1/contacts"),
                authorization: s("bearer 🔑"),
                content_type: s("application/json"),
                body: s("{\"a\": 1}"),
            }),
        }
    );
}

#[test]
fn an_answer_from_upstream_is_passed_on() {
    let outcome = post_forwarded(Forwarded::Answer { status: 201, text: s("{\"jnid\":\"abc\"}") });
    assert_eq!(
        outcome,
        Outcome {
            notes: vec![
                note("Received response from Job Nimbus (HTTP 201)", "📬"),
                note("Response: {\"jnid\":\"abc\"}", "📬"),
            ],
            reply: text(200, Some("application/json"), "{\"jnid\":\"abc\"}"),
        }
    );
}

#[test]
fn a_refusal_from_upstream_is_passed_on_under_status_200() {
    let outcome = post_forwarded(Forwarded::Answer { status: 404, text: s("Not Found") });
    assert_eq!(outcome.reply, text(200, Some("application/json"), "Not Found"));
    assert_eq!(outcome.notes[0], note("Received response from Job Nimbus (HTTP 404)", "📬"));
    let odd = post_forwarded(Forwarded::Answer { status: 0, text: s("") });
    assert_eq!(odd.notes[0].0, "Received response from Job Nimbus (HTTP 0)");
    let max = post_forwarded(Forwarded::Answer { status: u16::MAX, text: s("") });
    assert_eq!(max.notes[0].0, "Received response from Job Nimbus (HTTP 65535)");
    assert_eq!(max.notes[1], note("Response: ", "📬"));
}

#[test]
fn a_payload_that_could_not_be_sent_is_a_server_error() {
    assert_eq!(
        post_forwarded(Forwarded::Failed(s("connection refused"))),
        Outcome {
            notes: vec![note("HTTP request error: connection refused", "❌")],
            reply: failure(500, "Failed to forward payload"),
        }
    );
}

#[test]
fn an_answer_that_could_not_be_read_is_a_server_error() {
    assert_eq!(
        post_forwarded(Forwarded::Unread(s("timed out"))),
        Outcome {
            notes: vec![note("Failed to read response: timed out", "❌")],
            reply: failure(500, "Failed to read response"),
        }
    );
}

#[test]
fn the_first_password_of_a_query_counts() {
    assert_eq!(password_in_query("password=abc"), Some(s("abc")));
    assert_eq!(password_in_query("a=1&password=abc&password=def"), Some(s("abc")));
    assert_eq!(password_in_query("password=a=b"), Some(s("a=b")));
    assert_eq!(password_in_query("password="), Some(s("")));
    assert_eq!(password_in_query("password=%20x"), Some(s("%20x")));
}

#[test]
fn a_password_without_value_is_passed_over() {
    assert_eq!(password_in_query("password"), None);
    assert_eq!(password_in_query("password&password=x"), Some(s("x")));
    assert_eq!(password_in_query(""), None);
    assert_eq!(password_in_query("&&"), None);
    assert_eq!(password_in_query("Password=x"), None);
    assert_eq!(password_in_query("passwords=x"), None);
    assert_eq!(password_in_query("a=password=x"), None);
    assert_eq!(password_in_query(" password=x"), None);
}

#[test]
fn pages_are_open_unless_a_password_is_asked_for() {
    let env = Environment::empty();
    assert!(gui_authorized(&env, &Header::Missing, None));
    let mut off = guarded(Some("pw"));
    off.gui_auth_required = Some(s("yes"));
    assert!(gui_authorized(&off, &Header::Missing, None));
}

#[test]
fn the_password_opens_the_pages_from_header_or_query() {
    let env = guarded(Some("pw"));
    assert!(gui_authorized(&env, &Header::Text(s("pw")), None));
    assert!(gui_authorized(&env, &Header::Missing, Some("password=pw")));
    assert!(gui_authorized(&env, &Header::Unreadable, Some("x=1&password=pw")));
    assert!(!gui_authorized(&env, &Header::Missing, None));
    assert!(!gui_authorized(&env, &Header::Missing, Some("password=PW")));
    assert!(!gui_authorized(&env, &Header::Unreadable, None));
}

#[test]
fn a_header_with_the_wrong_password_hides_the_query() {
    let env = guarded(Some("pw"));
    assert!(!gui_authorized(&env, &Header::Text(s("no")), Some("password=pw")));
}

#[test]
fn the_empty_password_is_asked_for_where_none_is_set() {
    let env = guarded(None);
    assert!(gui_authorized(&env, &Header::Text(s("")), None));
    assert!(gui_authorized(&env, &Header::Missing, Some("password=")));
    assert!(!gui_authorized(&env, &Header::Missing, Some("")));
    assert!(!gui_authorized(&env, &Header::Missing, None));
}

#[test]
fn the_log_is_served_pruned_and_written_back() {
    let content = "2024-05-01T00:00:00Z x old\n2024-05-09T00:00:00Z x new\nplain";
    let outcome = logs_handler_at(&Environment::empty(), &Header::Missing, None, Some(content), &noon());
    let kept = "2024-05-09T00:00:00Z x new\nplain\n";
    assert_eq!(
        outcome,
        LogsOutcome {
            reply: Response {
                status: 200,
                content_type: Some(s("text/plain; charset=utf-8")),
                headers: vec![
                    (s("Cache-Control"), s("no-cache, no-store, must-revalidate")),
                    (s("X-Content-Type-Options"), s("nosniff")),
                ],
                body: Body::Text(s(kept)),
            },
            rewrite: Some(s(kept)),
        }
    );
}

#[test]
fn the_log_keeps_seven_days() {
    let edge = "2024-05-03T12:00:00Z x edge\n2024-05-03T12:00:00.000000001Z x inside\n";
    let outcome = logs_handler_at(&Environment::empty(), &Header::Missing, None, Some(edge), &noon());
    assert_eq!(outcome.rewrite, Some(s("2024-05-03T12:00:00.000000001Z x inside\n")));
}

#[test]
fn a_missing_log_is_served_empty_and_not_created() {
    let outcome = logs_handler_at(&Environment::empty(), &Header::Missing, None, None, &noon());
    assert_eq!(
        outcome,
        LogsOutcome { reply: text(200, Some("text/plain; charset=utf-8"), ""), rewrite: None }
    );
}

#[test]
fn an_empty_log_is_served_empty_and_written_back() {
    let outcome = logs_handler_at(&Environment::empty(), &Header::Missing, None, Some(""), &noon());
    assert_eq!(outcome.rewrite, Some(String::new()));
    assert_eq!(outcome.reply.body, Body::Text(String::new()));
    assert_eq!(outcome.reply.headers.len(), 2);
}

#[test]
fn the_log_is_closed_to_those_without_the_password() {
    let outcome = logs_handler_at(&guarded(Some("pw")), &Header::Missing, None, Some("line\n"), &noon());
    assert_eq!(
        outcome,
        LogsOutcome {
            reply: text(401, Some("text/plain; charset=utf-8"), "Unauthorized"),
            rewrite: None,
        }
    );
    let open = logs_handler_at(
        &guarded(Some("pw")),
        &Header::Missing,
        Some("password=pw"),
        Some("line\n"),
        &noon(),
    );
    assert_eq!(open.rewrite, Some(s("line\n")));
}

#[test]
fn the_log_is_served_as_it_stands_now() {
    let content = "2000-01-01T00:00:00Z x old\n2999-01-01T00:00:00Z x new\n";
    let outcome = logs_handler(&Environment::empty(), &Header::Missing, None, Some(content));
    assert_eq!(outcome.rewrite, Some(s("2999-01-01T00:00:00Z x new\n")));
    assert_eq!(outcome.reply.status, 200);
}

#[test]
fn a_log_that_could_not_be_written_back_is_a_server_error() {
    let outcome = logs_handler_at(&Environment::empty(), &Header::Missing, None, Some("a\n"), &noon());
    let reply = outcome.reply.clone();
    assert_eq!(logs_handler_done(outcome.clone(), true), reply);
    assert_eq!(
        logs_handler_done(outcome, false),
        text(500, Some("text/plain; charset=utf-8"), "Failed to write pruned logs")
    );
}

#[test]
fn the_front_page_is_served_as_html() {
    assert_eq!(
        index_handler(&Environment::empty(), &Header::Missing, None, Some(s("<html></html>"))),
        text(200, Some("text/html"), "<html></html>")
    );
}

#[test]
fn a_front_page_that_cannot_be_read_is_a_server_error() {
    assert_eq!(
        index_handler(&Environment::empty(), &Header::Missing, None, None),
        text(500, None, "Failed to load index.html")
    );
}

#[test]
fn the_front_page_is_closed_to_those_without_the_password() {
    assert_eq!(
        index_handler(&guarded(Some("pw")), &Header::Text(s("x")), None, Some(s("<html>"))),
        text(401, None, "Unauthorized")
    );
    assert_eq!(
        index_handler(&guarded(Some("pw")), &Header::Text(s("pw")), None, Some(s("<html>"))),
        text(200, Some("text/html"), "<html>")
    );
}

#[test]
fn files_are_served_under_the_type_of_their_extension() {
    for (path, kind) in [
        ("static/css/site.css", "text/css"),
        ("static/js/app.js", "application/javascript"),
        ("static/data.json", "application/json"),
        ("static/favicon.ico", "image/x-icon"),
        ("static/images/a.png", "image/png"),
        ("static/images/a.jpg", "image/jpeg"),
        ("static/images/a.jpeg", "image/jpeg"),
        ("static/images/a.svg", "image/svg+xml"),
        ("static/images/a.webp", "image/webp"),
        ("static/notes.md", "text/markdown; charset=utf-8"),
        ("static/archive.tar.css", "text/css"),
        ("static/a.PNG", "application/octet-stream"),
        ("static/a.html", "application/octet-stream"),
        ("static/css", "application/octet-stream"),
        ("static/a.", "application/octet-stream"),
        ("static/a.css/b", "application/octet-stream"),
        ("css", "text/css"),
        (".css", "text/css"),
        ("", "application/octet-stream"),
    ] {
        assert_eq!(content_type(path), kind, "{}", path);
    }
}

#[test]
fn files_lie_below_static() {
    assert_eq!(path_of("css/site.css"), "static/css/site.css");
    assert_eq!(path_of(""), "static/");
    assert_eq!(path_of("../x"), "static/../x");
}

#[test]
fn the_manual_is_looked_for_in_two_places() {
    let plan = static_file_plan("README.md");
    assert_eq!(plan.paths, vec![s("static/README.md"), s("README.md")]);
    assert!(plan.as_text);
}

#[test]
fn any_other_file_is_looked_for_below_static() {
    let plan = static_file_plan("css/site.css");
    assert_eq!(plan.paths, vec![s("static/css/site.css")]);
    assert!(!plan.as_text);
    let lower = static_file_plan("readme.md");
    assert_eq!(lower.paths, vec![s("static/readme.md")]);
    assert!(!lower.as_text);
}

#[test]
fn a_file_is_served_with_its_bytes() {
    assert_eq!(
        static_file_handler("images/a.png", Some(vec![0x89, 0x50, 0x4E, 0x47])),
        Response {
            status: 200,
            content_type: Some(s("image/png")),
            headers: vec![],
            body: Body::Bytes(vec![0x89, 0x50, 0x4E, 0x47]),
        }
    );
}

#[test]
fn the_manual_is_served_as_markdown() {
    assert_eq!(
        static_file_handler("README.md", Some(b"# Relay".to_vec())),
        Response {
            status: 200,
            content_type: Some(s("text/markdown; charset=utf-8")),
            headers: vec![],
            body: Body::Bytes(b"# Relay".to_vec()),
        }
    );
}

#[test]
fn a_file_that_is_not_there_is_not_found() {
    assert_eq!(
        static_file_handler("js/app.js", None),
        text(404, None, "File not found: static/js/app.js")
    );
    assert_eq!(static_file_handler("README.md", None), text(404, None, "README.md not found"));
}

#[test]
fn clearing_the_log_is_recorded() {
    assert_eq!(
        clear_logs_handler(Ok(())),
        Outcome {
            notes: vec![note("Logs cleared.", "🧹")],
            reply: json(200, &[("status", "ok"), ("message", "Logs cleared")]),
        }
    );
}

#[test]
fn a_log_that_cannot_be_cleared_is_a_server_error() {
    assert_eq!(
        clear_logs_handler(Err(s("Permission denied (os error 13)"))),
        Outcome {
            notes: vec![note("Failed to clear logs: Permission denied (os error 13)", "❌")],
            reply: failure(500, "Failed to clear logs"),
        }
    );
}

#[test]
fn a_test_run_is_prepared_with_a_dummy_key() {
    let plan = run_tests_plan(&Environment::empty(), Ok(()));
    assert_eq!(
        plan.notes,
        vec![
            note("Running integration tests...", "🧪"),
            note(
                "Warning: JOB_NIMBUS_API_KEY not set for tests. Using dummy key for testing.",
                "⚠️"
            ),
        ]
    );
    assert_eq!(
        plan.variables,
        vec![(s("JOB_NIMBUS_API_KEY"), s("test_dummy_key")), (s("TEST_MODE"), s("true"))]
    );
    assert_eq!(plan.program, "cargo");
    assert_eq!(
        plan.arguments,
        vec![
            s("test"),
            s("--test"),
            s("integration_tests"),
            s("--"),
            s("--format=pretty"),
            s("--nocapture")
        ]
    );
}

#[test]
fn a_test_run_keeps_the_key_that_is_set() {
    let mut env = Environment::empty();
    env.job_nimbus_api_key = Some(s("real"));
    let plan = run_tests_plan(&env, Err(s("read-only file system")));
    assert_eq!(
        plan.notes,
        vec![
            note("Running integration tests...", "🧪"),
            note("Warning: Failed to create logs directory: read-only file system", "⚠️"),
        ]
    );
    assert_eq!(plan.variables, vec![(s("TEST_MODE"), s("true"))]);
}

#[test]
fn a_test_run_that_cannot_start_is_a_server_error() {
    assert_eq!(
        run_tests_handler(TestRun::NotRun(s("No such file or directory (os error 2)"))),
        Outcome {
            notes: vec![note("Failed to run tests: No such file or directory (os error 2)", "❌")],
            reply: failure(500, "Failed to run tests: No such file or directory (os error 2)"),
        }
    );
}

#[test]
fn a_test_run_is_reported_with_details_first() {
    let stdout = "   Compiling relay v0.1.0\n\nrunning 2 tests\ntest a ... ok\ntest b ... ok\n\ntest result: ok. 2 passed\n";
    let report = "Test Details:\ntest a ... ok\ntest b ... ok\n\nTest Summary:\nrunning 2 tests\ntest result: ok. 2 passed";
    assert_eq!(
        run_tests_handler(TestRun::Finished { stdout: s(stdout), stderr: s(""), success: true }),
        Outcome {
            notes: vec![note(report, "🧪")],
            reply: json(200, &[("status", "ok"), ("message", report)]),
        }
    );
}

#[test]
fn a_failed_test_run_is_a_warning() {
    let stdout = "running 1 test\ntest a ... FAILED\n";
    let stderr = "warning: unused\nthread 'a' panicked at src/lib.rs:1:1\nerror: test failed\nerror: 3 warnings emitted\n";
    let report = "Test Details:\ntest a ... FAILED\n\nTest Summary:\nrunning 1 test";
    assert_eq!(
        run_tests_handler(TestRun::Finished { stdout: s(stdout), stderr: s(stderr), success: false }),
        Outcome {
            notes: vec![
                note(report, "🧪"),
                note(
                    "Test failures detected: thread 'a' panicked at src/lib.rs:1:1\nerror: test failed",
                    "⚠️"
                ),
            ],
            reply: json(200, &[("status", "warning"), ("message", report)]),
        }
    );
}

#[test]
fn a_silent_test_run_is_reported_as_such() {
    let outcome = run_tests_handler(TestRun::Finished {
        stdout: s("    Finished test profile\n \n"),
        stderr: s("    Finished test profile\n"),
        success: true,
    });
    assert_eq!(
        outcome,
        Outcome {
            notes: vec![note("No test output generated.", "🧪")],
            reply: json(200, &[("status", "ok"), ("message", "No test output generated.")]),
        }
    );
}

#[test]
fn what_goes_upstream_is_data_as_serde_json_indents_it() {
    let mut env = Environment::empty();
    env.job_nimbus_api_key = Some(s("k"));
    let data = object(&[
        ("b", serde_json::Value::Bool(true)),
        ("a", serde_json::Value::Array(vec![word("x"), serde_json::Value::Null])),
        ("n", object(&[("deep", word("é \"quoted\" 🔔"))])),
    ]);
    let mut sent = payload(Some(data.clone()));
    sent._extra.insert(s("secret"), word("not for upstream"));
    let step = post_handler(&env, &Header::Missing, &sent);
    match step.next {
        Next::Forward(forward) => {
            assert_eq!(forward.body, serde_json::to_string_pretty(&data).unwrap());
            assert!(!forward.body.contains("secret"));
            assert!(!forward.body.contains("project.updated"));
            assert_eq!(forward.url, "https://app.jobnimbus.com/api1/contacts");
            assert_eq!(forward.authorization, "bearer k");
            assert_eq!(forward.content_type, "application/json");
        }
        other => panic!("not sent: {:?}", other),
    }
}

#[test]
fn a_post_with_data_is_never_refused_for_its_encoding() {
    let mut env = Environment::empty();
    env.job_nimbus_api_key = Some(s("k"));
    for data in [
        serde_json::Value::Null,
        serde_json::Value::Bool(false),
        word(""),
        serde_json::Value::Array(vec![]),
        object(&[]),
    ] {
        let step = post_handler(&env, &Header::Missing, &payload(Some(data.clone())));
        match step.next {
            Next::Forward(forward) => {
                assert_eq!(forward.body, serde_json::to_string_pretty(&data).unwrap())
            }
            other => panic!("not sent: {:?}", other),
        }
    }
}
