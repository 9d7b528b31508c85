//! The relay's settings, as they stand in the environment.

use crate::http::{pair, Body, BodyView, Response, ResponseView};
use crate::text::same_text;
use vstd::prelude::*;

verus! {

/// The variables that the relay reads, each with its value; `None` where a
/// variable is not set or holds no text.
#[derive(Clone, Debug, PartialEq, Eq)]
pub struct Environment {
    /// `PORT`
    pub port: Option<String>,
    /// `API_SECURITY`
    pub api_security: Option<String>,
    /// `API_KEY_HEADER`
    pub api_key_header: Option<String>,
    /// `SUBCONTRACTOR_API_KEY`
    pub subcontractor_api_key: Option<String>,
    /// `USE_JOB_NIMBUS_AS_SUBCONTRACTOR_KEY`
    pub use_job_nimbus_as_subcontractor_key: Option<String>,
    /// `JOB_NIMBUS_API_KEY`
    pub job_nimbus_api_key: Option<String>,
    /// `GUI_AUTH_REQUIRED`
    pub gui_auth_required: Option<String>,
    /// `GUI_PASSWORD`
    pub gui_password: Option<String>,
    /// `TEST_MODE`
    pub test_mode: Option<String>,
}

/// The environment as mathematical data.
pub struct EnvironmentView {
    pub port: Option<Seq<char>>,
    pub api_security: Option<Seq<char>>,
    pub api_key_header: Option<Seq<char>>,
    pub subcontractor_api_key: Option<Seq<char>>,
    pub use_job_nimbus_as_subcontractor_key: Option<Seq<char>>,
    pub job_nimbus_api_key: Option<Seq<char>>,
    pub gui_auth_required: Option<Seq<char>>,
    pub gui_password: Option<Seq<char>>,
    pub test_mode: Option<Seq<char>>,
}

impl View for Environment {
    type V = EnvironmentView;

    open spec fn view(&self) -> EnvironmentView {
        EnvironmentView {
            port: self.port.deep_view(),
            api_security: self.api_security.deep_view(),
            api_key_header: self.api_key_header.deep_view(),
            subcontractor_api_key: self.subcontractor_api_key.deep_view(),
            use_job_nimbus_as_subcontractor_key: self.use_job_nimbus_as_subcontractor_key.deep_view(),
            job_nimbus_api_key: self.job_nimbus_api_key.deep_view(),
            gui_auth_required: self.gui_auth_required.deep_view(),
            gui_password: self.gui_password.deep_view(),
            test_mode: self.test_mode.deep_view(),
        }
    }
}

/// Whether a switch is on: its variable holds exactly `true`.
pub open spec fn is_on(value: Option<Seq<char>>) -> bool {
    value == Some("true"@)
}

/// The value of a variable, or `fallback` where it is not set.
pub open spec fn value_or(value: Option<Seq<char>>, fallback: Seq<char>) -> Seq<char> {
    match value {
        Some(text) => text,
        None => fallback,
    }
}

/// The name of the request header in which a caller of the relay sends its
/// key.
pub open spec fn api_key_header(env: EnvironmentView) -> Seq<char> {
    value_or(env.api_key_header, "x-api-key"@)
}

/// The key that a caller of the relay has to send: the subcontractor key
/// where one is set, else the key of the upstream service, else the empty
/// text. `USE_JOB_NIMBUS_AS_SUBCONTRACTOR_KEY` makes no difference to it.
pub open spec fn expected_api_key(env: EnvironmentView) -> Seq<char> {
    match env.subcontractor_api_key {
        Some(key) => key,
        None => value_or(env.job_nimbus_api_key, Seq::empty()),
    }
}

/// What stands in place of a secret when the settings are shown.
pub open spec fn mask() -> Seq<char> {
    "********"@
}

/// One setting as it is shown: its name, its value, what it is for and of
/// what kind its value is.
pub open spec fn shown_setting(
    key: Seq<char>,
    value: Seq<char>,
    description: Seq<char>,
    kind: Seq<char>,
) -> Seq<(Seq<char>, Seq<char>)> {
    seq![("key"@, key), ("value"@, value), ("description"@, description), ("type"@, kind)]
}

/// The settings as they are shown, in a fixed order. A setting that is not
/// set shows its default, and the three secrets never show their value.
pub open spec fn shown_settings(env: EnvironmentView) -> Seq<Seq<(Seq<char>, Seq<char>)>> {
    seq![
        shown_setting(
            "PORT"@,
            value_or(env.port, "8787"@),
            "Port on which the server listens"@,
            "port"@,
        ),
        shown_setting(
            "API_SECURITY"@,
            value_or(env.api_security, "false"@),
            "Enable API security for incoming requests"@,
            "boolean"@,
        ),
        shown_setting(
            "API_KEY_HEADER"@,
            value_or(env.api_key_header, "x-api-key"@),
            "Header key for API authentication"@,
            "string"@,
        ),
        shown_setting(
            "SUBCONTRACTOR_API_KEY"@,
            mask(),
            "Subcontractor API key if applicable"@,
            "string"@,
        ),
        shown_setting(
            "USE_JOB_NIMBUS_AS_SUBCONTRACTOR_KEY"@,
            value_or(env.use_job_nimbus_as_subcontractor_key, "false"@),
            "Use Job Nimbus API key as subcontractor key"@,
            "boolean"@,
        ),
        shown_setting(
            "JOB_NIMBUS_API_KEY"@,
            mask(),
            "Job Nimbus API key for integration"@,
            "string"@,
        ),
        shown_setting(
            "GUI_AUTH_REQUIRED"@,
            value_or(env.gui_auth_required, "false"@),
            "Toggle GUI authentication"@,
            "boolean"@,
        ),
        shown_setting("GUI_PASSWORD"@, mask(), "Password for GUI access"@, "string"@),
        shown_setting(
            "TEST_MODE"@,
            value_or(env.test_mode, "false"@),
            "Toggle test mode for simulated requests"@,
            "boolean"@,
        ),
    ]
}

/// The reply that shows the settings: a JSON array with one object for each.
pub open spec fn settings_reply(env: EnvironmentView) -> ResponseView {
    ResponseView {
        status: 200,
        content_type: Some("application/json"@),
        headers: Seq::empty(),
        body: BodyView::List(shown_settings(env)),
    }
}

/// Decides `is_on`.
pub fn switch_is_on(value: &Option<String>) -> (on: bool)
    ensures
        on == is_on(value.deep_view()),
{
    match value {
        Some(text) => same_text(text.as_str(), "true"),
        None => false,
    }
}

/// Computes `value_or`.
pub fn text_or(value: &Option<String>, fallback: &str) -> (text: String)
    ensures
        text@ == value_or(value.deep_view(), fallback@),
{
    match value {
        Some(text) => text.clone(),
        None => String::from_str(fallback),
    }
}

/// Builds `shown_setting`.
fn setting(key: &str, value: &str, description: &str, kind: &str) -> (shown: Vec<(String, String)>)
    ensures
        shown.deep_view() == shown_setting(key@, value@, description@, kind@),
{
    let mut shown: Vec<(String, String)> = Vec::new();
    shown.push(pair("key", key));
    shown.push(pair("value", value));
    shown.push(pair("description", description));
    shown.push(pair("type", kind));
    assert(shown.deep_view() =~= shown_setting(key@, value@, description@, kind@));
    shown
}

impl Environment {
    /// An environment in which no variable is set.
    pub fn empty() -> (env: Environment)
        ensures
            env@ == (EnvironmentView {
                port: None,
                api_security: None,
                api_key_header: None,
                subcontractor_api_key: None,
                use_job_nimbus_as_subcontractor_key: None,
                job_nimbus_api_key: None,
                gui_auth_required: None,
                gui_password: None,
                test_mode: None,
            }),
    {
        Environment {
            port: None,
            api_security: None,
            api_key_header: None,
            subcontractor_api_key: None,
            use_job_nimbus_as_subcontractor_key: None,
            job_nimbus_api_key: None,
            gui_auth_required: None,
            gui_password: None,
            test_mode: None,
        }
    }

    /// Computes `api_key_header`.
    pub fn api_key_header(&self) -> (name: String)
        ensures
            name@ == api_key_header(self@),
    {
        text_or(&self.api_key_header, "x-api-key")
    }

    /// Computes `expected_api_key`.
    pub fn expected_api_key(&self) -> (key: String)
        ensures
            key@ == expected_api_key(self@),
    {
        proof {
            reveal_strlit("");
        }
        assert(""@ =~= Seq::empty());
        match &self.subcontractor_api_key {
            Some(key) => key.clone(),
            None => text_or(&self.job_nimbus_api_key, ""),
        }
    }
}

/// Shows the settings to whoever asks for them.
pub fn config_handler(env: &Environment) -> (reply: Response)
    ensures
        reply@ == settings_reply(env@),
{
    let mut shown: Vec<Vec<(String, String)>> = Vec::new();
    shown.push(
        setting(
            "PORT",
            text_or(&env.port, "8787").as_str(),
            "Port on which the server listens",
            "port",
        ),
    );
    shown.push(
        setting(
            "API_SECURITY",
            text_or(&env.api_security, "false").as_str(),
            "Enable API security for incoming requests",
            "boolean",
        ),
    );
    shown.push(
        setting(
            "API_KEY_HEADER",
            text_or(&env.api_key_header, "x-api-key").as_str(),
            "Header key for API authentication",
            "string",
        ),
    );
    shown.push(
        setting("SUBCONTRACTOR_API_KEY", "********", "Subcontractor API key if applicable", "string"),
    );
    shown.push(
        setting(
            "USE_JOB_NIMBUS_AS_SUBCONTRACTOR_KEY",
            text_or(&env.use_job_nimbus_as_subcontractor_key, "false").as_str(),
            "Use Job Nimbus API key as subcontractor key",
            "boolean",
        ),
    );
    shown.push(
        setting("JOB_NIMBUS_API_KEY", "********", "Job Nimbus API key for integration", "string"),
    );
    shown.push(
        setting(
            "GUI_AUTH_REQUIRED",
            text_or(&env.gui_auth_required, "false").as_str(),
            "Toggle GUI authentication",
            "boolean",
        ),
    );
    shown.push(setting("GUI_PASSWORD", "********", "Password for GUI access", "string"));
    shown.push(
        setting(
            "TEST_MODE",
            text_or(&env.test_mode, "false").as_str(),
            "Toggle test mode for simulated requests",
            "boolean",
        ),
    );
    assert(shown.deep_view() =~= shown_settings(env@));
    let reply = Response {
        status: 200,
        content_type: Some(String::from_str("application/json")),
        headers: Vec::new(),
        body: Body::List(shown),
    };
    assert(reply.headers.deep_view() =~= Seq::empty());
    reply
}

} // verus!
