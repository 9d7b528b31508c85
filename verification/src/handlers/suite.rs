//! Running the test suite on request.

use crate::config::{Environment, EnvironmentView};
use crate::http::{error_reply, json_reply, pair, Outcome, OutcomeView, Response};
use crate::report::{failures, failures_in, report, test_report};
use crate::text::prefixed;
use vstd::prelude::*;

verus! {

/// What came of running the test suite.
#[derive(Clone, Debug, PartialEq, Eq)]
pub enum TestRun {
    /// The run could not be started, for the reason given.
    NotRun(String),
    /// The run ended. It printed `stdout` and, as errors, `stderr`.
    Finished { stdout: String, stderr: String, success: bool },
}

/// What came of running the test suite, as mathematical data.
pub enum TestRunView {
    NotRun(Seq<char>),
    Finished { stdout: Seq<char>, stderr: Seq<char>, success: bool },
}

impl View for TestRun {
    type V = TestRunView;

    open spec fn view(&self) -> TestRunView {
        match self {
            TestRun::NotRun(reason) => TestRunView::NotRun(reason@),
            TestRun::Finished { stdout, stderr, success } => TestRunView::Finished {
                stdout: stdout@,
                stderr: stderr@,
                success: *success,
            },
        }
    }
}

/// How to run the test suite: the entries for the log, the variables to set
/// in the environment, each with its value, and the command with its
/// arguments.
#[derive(Clone, Debug, PartialEq, Eq)]
pub struct TestsPlan {
    /// What to append to the log, in this order.
    pub notes: Vec<(String, String)>,
    /// The variables to set, each with its value.
    pub variables: Vec<(String, String)>,
    /// The command to run.
    pub program: String,
    /// The command's arguments.
    pub arguments: Vec<String>,
}

/// The entries for the log before the test suite runs. `logs_dir` tells
/// whether the directory of the log could be made, and if not, why.
pub open spec fn tests_notes(env: EnvironmentView, logs_dir: Result<(), Seq<char>>) -> Seq<
    (Seq<char>, Seq<char>),
> {
    seq![("Running integration tests..."@, "🧪"@)] + (match logs_dir {
        Ok(_) => Seq::empty(),
        Err(reason) => seq![("Warning: Failed to create logs directory: "@ + reason, "⚠️"@)],
    }) + (match env.job_nimbus_api_key {
        Some(_) => Seq::empty(),
        None => seq![
            (
                "Warning: JOB_NIMBUS_API_KEY not set for tests. Using dummy key for testing."@,
                "⚠️"@,
            ),
        ],
    })
}

/// The variables to set before the test suite runs: test mode is switched
/// on, and a key is made up where none is set.
pub open spec fn tests_variables(env: EnvironmentView) -> Seq<(Seq<char>, Seq<char>)> {
    (match env.job_nimbus_api_key {
        Some(_) => Seq::empty(),
        None => seq![("JOB_NIMBUS_API_KEY"@, "test_dummy_key"@)],
    }) + seq![("TEST_MODE"@, "true"@)]
}

/// The arguments with which the test suite is run.
pub open spec fn tests_arguments() -> Seq<Seq<char>> {
    seq!["test"@, "--test"@, "integration_tests"@, "--"@, "--format=pretty"@, "--nocapture"@]
}

/// What a run of the test suite leads to. A run that ended is reported
/// under status 200, as `ok` if it succeeded and as `warning` if not.
pub open spec fn tests_outcome(run: TestRunView) -> OutcomeView {
    match run {
        TestRunView::NotRun(reason) => OutcomeView {
            notes: seq![("Failed to run tests: "@ + reason, "❌"@)],
            reply: error_reply(500, "Failed to run tests: "@ + reason),
        },
        TestRunView::Finished { stdout, stderr, success } => OutcomeView {
            notes: seq![(test_report(stdout), "🧪"@)] + (match failures(stderr) {
                Some(lines) => seq![("Test failures detected: "@ + lines, "⚠️"@)],
                None => Seq::empty(),
            }),
            reply: json_reply(
                200,
                seq![
                    ("status"@, if success {
                        "ok"@
                    } else {
                        "warning"@
                    }),
                    ("message"@, test_report(stdout)),
                ],
            ),
        },
    }
}

/// Prepares a run of the test suite.
pub fn run_tests_plan(env: &Environment, logs_dir: Result<(), String>) -> (plan: TestsPlan)
    ensures
        plan.notes.deep_view() == tests_notes(
            env@,
            match logs_dir {
                Ok(_) => Ok(()),
                Err(reason) => Err(reason@),
            },
        ),
        plan.variables.deep_view() == tests_variables(env@),
        plan.program@ == "cargo"@,
        plan.arguments.deep_view() == tests_arguments(),
{
    let mut notes: Vec<(String, String)> = Vec::new();
    let mut variables: Vec<(String, String)> = Vec::new();
    notes.push(pair("Running integration tests...", "🧪"));
    let ghost first = notes.deep_view();
    assert(first =~= seq![("Running integration tests..."@, "🧪"@)]);
    if let Err(reason) = &logs_dir {
        notes.push(
            (
                prefixed("Warning: Failed to create logs directory: ", reason.as_str()),
                String::from_str("⚠️"),
            ),
        );
        assert(notes.deep_view() =~= first + seq![
            ("Warning: Failed to create logs directory: "@ + reason@, "⚠️"@),
        ]);
    } else {
        assert(notes.deep_view() =~= first + Seq::empty());
    }
    let ghost second = notes.deep_view();
    if env.job_nimbus_api_key.is_none() {
        notes.push(
            pair(
                "Warning: JOB_NIMBUS_API_KEY not set for tests. Using dummy key for testing.",
                "⚠️",
            ),
        );
        variables.push(pair("JOB_NIMBUS_API_KEY", "test_dummy_key"));
        assert(notes.deep_view() =~= second + seq![
            (
                "Warning: JOB_NIMBUS_API_KEY not set for tests. Using dummy key for testing."@,
                "⚠️"@,
            ),
        ]);
    } else {
        assert(notes.deep_view() =~= second + Seq::empty());
    }
    variables.push(pair("TEST_MODE", "true"));
    assert(variables.deep_view() =~= tests_variables(env@));
    let mut arguments: Vec<String> = Vec::new();
    arguments.push(String::from_str("test"));
    arguments.push(String::from_str("--test"));
    arguments.push(String::from_str("integration_tests"));
    arguments.push(String::from_str("--"));
    arguments.push(String::from_str("--format=pretty"));
    arguments.push(String::from_str("--nocapture"));
    assert(arguments.deep_view() =~= tests_arguments());
    TestsPlan { notes, variables, program: String::from_str("cargo"), arguments }
}

/// Answers a request to run the test suite, once the run is over or could
/// not be started.
pub fn run_tests_handler(run: TestRun) -> (outcome: Outcome)
    ensures
        outcome@ == tests_outcome(run@),
{
    let mut notes: Vec<(String, String)> = Vec::new();
    match run {
        TestRun::NotRun(reason) => {
            let message = prefixed("Failed to run tests: ", reason.as_str());
            notes.push((message.clone(), String::from_str("❌")));
            assert(notes.deep_view() =~= seq![("Failed to run tests: "@ + reason@, "❌"@)]);
            Outcome { notes, reply: Response::error(500, message.as_str()) }
        },
        TestRun::Finished { stdout, stderr, success } => {
            let text = report(stdout.as_str());
            notes.push((text.clone(), String::from_str("🧪")));
            let ghost first = notes.deep_view();
            assert(first =~= seq![(test_report(stdout@), "🧪"@)]);
            match failures_in(stderr.as_str()) {
                Some(lines) => {
                    notes.push(
                        (
                            prefixed("Test failures detected: ", lines.as_str()),
                            String::from_str("⚠️"),
                        ),
                    );
                    assert(notes.deep_view() =~= first + seq![
                        ("Test failures detected: "@ + lines@, "⚠️"@),
                    ]);
                },
                None => {
                    assert(notes.deep_view() =~= first + Seq::empty());
                },
            }
            let mut members: Vec<(String, String)> = Vec::new();
            members.push(pair("status", if success {
                "ok"
            } else {
                "warning"
            }));
            members.push((String::from_str("message"), text));
            assert(members.deep_view() =~= seq![
                ("status"@, if success {
                    "ok"@
                } else {
                    "warning"@
                }),
                ("message"@, test_report(stdout@)),
            ]);
            Outcome { notes, reply: Response::json(200, members) }
        },
    }
}

} // verus!
