//! What the relay answers to each request.
//!
//! A handler here is a function from what the request and the machine hold
//! to the reply, the log entries, and what is to be written or sent on. It
//! opens no socket and no file: whoever serves the request reads what the
//! handler names, calls it, and carries out what it hands back.

pub mod access;
pub mod logs;
pub mod pages;
pub mod post;
pub mod suite;

pub use crate::handlers::access::{
    api_key_accepted, gui_authorized, password_in_query, Header, HeaderView,
};
pub use crate::handlers::logs::{
    clear_logs_handler, logs_handler, logs_handler_at, logs_handler_done, LogsOutcome,
    LogsOutcomeView,
};
pub use crate::handlers::pages::{
    content_type, index_handler, path_of, static_file_handler, static_file_plan, StaticPlan,
};
pub use crate::handlers::post::{
    encoded, post_decide, post_forwarded, post_handler, pretty_json, Forward, ForwardView,
    Forwarded, ForwardedView, Next, NextView, Payload, PostStep, PostStepView,
};
pub use crate::handlers::suite::{
    run_tests_handler, run_tests_plan, TestRun, TestRunView, TestsPlan,
};
