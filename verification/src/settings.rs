use vstd::prelude::*;
use crate::string_map::StringMap;
use crate::target::{target_spec, text_view, DatabaseTarget, DatabaseTargetView};

verus! {

/// The environment variable that names the coordinator's host.
pub const ENV_HOST: &'static str = "CITUS_HOST";

/// The environment variable that names the database user.
pub const ENV_USER: &'static str = "POSTGRES_USER";

/// The environment variable that holds the user's password.
pub const ENV_PASSWORD: &'static str = "POSTGRES_PASSWORD";

/// The environment variable that names the database.
pub const ENV_DATABASE: &'static str = "POSTGRES_DB";

/// The environment variable that holds this process's host name, which the
/// container runtime sets to the name of the container.
pub const ENV_HOSTNAME: &'static str = "HOSTNAME";

/// The path whose existence tells health checks that the event subscription
/// is open.
pub const READINESS_MARKER: &'static str = "/healthcheck/manager-ready";

/// What the supervisor is started with, for the lifetime of the process.
#[derive(Debug, PartialEq, Eq)]
pub struct Settings {
    /// Where to reach the coordinator database.
    pub target: DatabaseTarget,
    /// The host name of this process, which is the name of its own
    /// container; `None` where it is not set.
    pub hostname: Option<String>,
}

/// What settings are, with texts as sequences of characters.
pub struct SettingsView {
    pub target: DatabaseTargetView,
    pub hostname: Option<Seq<char>>,
}

impl View for Settings {
    type V = SettingsView;

    open spec fn view(&self) -> SettingsView {
        SettingsView { target: self.target@, hostname: text_view(self.hostname) }
    }
}

/// The value of the variable `name` in an environment, if it is set.
pub open spec fn variable(environment: Map<Seq<char>, Seq<char>>, name: Seq<char>) -> Option<
    Seq<char>,
> {
    if environment.contains_key(name) {
        Some(environment[name])
    } else {
        None
    }
}

/// The settings that an environment stands for: the target from the four
/// database variables, with its defaults, and the host name as it is set.
pub open spec fn settings_spec(environment: Map<Seq<char>, Seq<char>>) -> SettingsView {
    SettingsView {
        target: target_spec(
            variable(environment, ENV_HOST@),
            variable(environment, ENV_USER@),
            variable(environment, ENV_PASSWORD@),
            variable(environment, ENV_DATABASE@),
        ),
        hostname: variable(environment, ENV_HOSTNAME@),
    }
}

/// A copy of the value of the variable `name`, if it is set.
fn read_variable(environment: &StringMap, name: &str) -> (value: Option<String>)
    ensures
        text_view(value) == variable(environment@, name@),
{
    match environment.get(name) {
        Some(value) => Some(value.clone()),
        None => None,
    }
}

impl Settings {
    /// Reads the settings from the variables of the environment.
    pub fn from_environment(environment: &StringMap) -> (settings: Settings)
        ensures
            settings@ == settings_spec(environment@),
    {
        let host = read_variable(environment, ENV_HOST);
        let user = read_variable(environment, ENV_USER);
        let password = read_variable(environment, ENV_PASSWORD);
        let dbname = read_variable(environment, ENV_DATABASE);
        Settings {
            target: DatabaseTarget::from_settings(host, user, password, dbname),
            hostname: read_variable(environment, ENV_HOSTNAME),
        }
    }
}

} // verus!
