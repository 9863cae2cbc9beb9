use vstd::prelude::*;
use vstd::utf8::encode_utf8;

verus! {

/// The coordinator's host name where none is configured.
pub const DEFAULT_HOST: &'static str = "master";

/// The database user where none is configured.
pub const DEFAULT_USER: &'static str = "postgres";

/// Where and as whom to reach the coordinator database.
#[derive(Debug, PartialEq, Eq)]
pub struct DatabaseTarget {
    pub host: String,
    pub user: String,
    pub password: Option<String>,
    pub dbname: String,
}

/// What a target is, with texts as sequences of characters.
pub struct DatabaseTargetView {
    pub host: Seq<char>,
    pub user: Seq<char>,
    pub password: Option<Seq<char>>,
    pub dbname: Seq<char>,
}

impl View for DatabaseTarget {
    type V = DatabaseTargetView;

    open spec fn view(&self) -> DatabaseTargetView {
        DatabaseTargetView {
            host: self.host@,
            user: self.user@,
            password: match self.password {
                Some(password) => Some(password@),
                None => None,
            },
            dbname: self.dbname@,
        }
    }
}

/// The target that the configured values stand for: the host defaults to
/// `master`, the user to `postgres`, the database to the user's name, and
/// the password to none.
pub open spec fn target_spec(
    host: Option<Seq<char>>,
    user: Option<Seq<char>>,
    password: Option<Seq<char>>,
    dbname: Option<Seq<char>>,
) -> DatabaseTargetView {
    let user = match user {
        Some(user) => user,
        None => DEFAULT_USER@,
    };
    DatabaseTargetView {
        host: match host {
            Some(host) => host,
            None => DEFAULT_HOST@,
        },
        user,
        password,
        dbname: match dbname {
            Some(dbname) => dbname,
            None => user,
        },
    }
}

/// The view of an optional text.
pub open spec fn text_view(text: Option<String>) -> Option<Seq<char>> {
    match text {
        Some(text) => Some(text@),
        None => None,
    }
}

impl DatabaseTarget {
    /// Builds the target from the configured values, each `None` where it
    /// is not set.
    pub fn from_settings(
        host: Option<String>,
        user: Option<String>,
        password: Option<String>,
        dbname: Option<String>,
    ) -> (target: DatabaseTarget)
        ensures
            target@ == target_spec(
                text_view(host),
                text_view(user),
                text_view(password),
                text_view(dbname),
            ),
    {
        let host = match host {
            Some(host) => host,
            None => DEFAULT_HOST.to_owned(),
        };
        let user = match user {
            Some(user) => user,
            None => DEFAULT_USER.to_owned(),
        };
        let dbname = match dbname {
            Some(dbname) => dbname,
            None => user.clone(),
        };
        DatabaseTarget { host, user, password, dbname }
    }

    /// A copy of the target.
    pub fn duplicate(&self) -> (copy: DatabaseTarget)
        ensures
            copy@ == self@,
    {
        DatabaseTarget {
            host: self.host.clone(),
            user: self.user.clone(),
            password: match &self.password {
                Some(password) => Some(password.clone()),
                None => None,
            },
            dbname: self.dbname.clone(),
        }
    }
}

/// Declares tokio-postgres's `Config` to the verifier, as an opaque type.
#[verifier::external_type_specification]
#[verifier::external_body]
pub struct ExConfig(tokio_postgres::Config);

/// The hosts that a connection configuration holds, in the order in which
/// they were added, each as the text it was given as: a host name, or the
/// path of a socket directory where the text begins with `/`.
pub uninterp spec fn config_hosts(config: tokio_postgres::Config) -> Seq<Seq<char>>;

/// The user that a connection configuration holds, if one was set.
pub uninterp spec fn config_user(config: tokio_postgres::Config) -> Option<Seq<char>>;

/// The password that a connection configuration holds, as the bytes of its
/// UTF-8 encoding, if one was set.
pub uninterp spec fn config_password(config: tokio_postgres::Config) -> Option<Seq<u8>>;

/// The database name that a connection configuration holds, if one was set.
pub uninterp spec fn config_dbname(config: tokio_postgres::Config) -> Option<Seq<char>>;

/// A fresh connection configuration.
///
/// Trusted: stands for tokio-postgres's `Config::new`, which starts with no
/// host, user, password or database name.
#[verifier::external_body]
fn config_new() -> (config: tokio_postgres::Config)
    ensures
        config_hosts(config) == Seq::<Seq<char>>::empty(),
        config_user(config) is None,
        config_password(config) is None,
        config_dbname(config) is None,
{
    tokio_postgres::Config::new()
}

/// Adds a host to the configuration.
///
/// Trusted: stands for tokio-postgres's `Config::host`, which appends the
/// host to those already there and touches nothing else.
#[verifier::external_body]
fn config_add_host(config: &mut tokio_postgres::Config, host: &str)
    ensures
        config_hosts(*final(config)) == config_hosts(*old(config)).push(host@),
        config_user(*final(config)) == config_user(*old(config)),
        config_password(*final(config)) == config_password(*old(config)),
        config_dbname(*final(config)) == config_dbname(*old(config)),
{
    config.host(host);
}

/// Sets the user of the configuration.
///
/// Trusted: stands for tokio-postgres's `Config::user`, which stores the
/// user and touches nothing else.
#[verifier::external_body]
fn config_set_user(config: &mut tokio_postgres::Config, user: &str)
    ensures
        config_hosts(*final(config)) == config_hosts(*old(config)),
        config_user(*final(config)) == Some(user@),
        config_password(*final(config)) == config_password(*old(config)),
        config_dbname(*final(config)) == config_dbname(*old(config)),
{
    config.user(user);
}

/// Sets the database name of the configuration.
///
/// Trusted: stands for tokio-postgres's `Config::dbname`, which stores the
/// name and touches nothing else.
#[verifier::external_body]
fn config_set_dbname(config: &mut tokio_postgres::Config, dbname: &str)
    ensures
        config_hosts(*final(config)) == config_hosts(*old(config)),
        config_user(*final(config)) == config_user(*old(config)),
        config_password(*final(config)) == config_password(*old(config)),
        config_dbname(*final(config)) == Some(dbname@),
{
    config.dbname(dbname);
}

/// Sets the password of the configuration.
///
/// Trusted: stands for tokio-postgres's `Config::password`, which stores
/// the bytes of the password and touches nothing else.
#[verifier::external_body]
fn config_set_password(config: &mut tokio_postgres::Config, password: &str)
    ensures
        config_hosts(*final(config)) == config_hosts(*old(config)),
        config_user(*final(config)) == config_user(*old(config)),
        config_password(*final(config)) == Some(encode_utf8(password@)),
        config_dbname(*final(config)) == config_dbname(*old(config)),
{
    config.password(password);
}

/// The connection configuration for a target: its one host, its user and
/// database name, and its password where it has one.
pub fn connection_config(target: &DatabaseTarget) -> (config: tokio_postgres::Config)
    ensures
        config_hosts(config) == seq![target.host@],
        config_user(config) == Some(target.user@),
        config_dbname(config) == Some(target.dbname@),
        config_password(config) == match target.password {
            Some(password) => Some(encode_utf8(password@)),
            None => None,
        },
{
    let mut config = config_new();
    config_add_host(&mut config, target.host.as_str());
    config_set_user(&mut config, target.user.as_str());
    config_set_dbname(&mut config, target.dbname.as_str());
    if let Some(password) = &target.password {
        config_set_password(&mut config, password.as_str());
    }
    config
}

} // verus!
