use membership_manager::settings::{
    Settings, ENV_DATABASE, ENV_HOST, ENV_HOSTNAME, ENV_PASSWORD, ENV_USER, READINESS_MARKER,
};
use membership_manager::string_map::StringMap;
use membership_manager::target::DatabaseTarget;

fn environment(variables: &[(&str, &str)]) -> StringMap {
    let mut map = StringMap::new();
    for (name, value) in variables {
        map.insert((*name).to_owned(), (*value).to_owned());
    }
    map
}

#[test]
fn variable_names() {
    assert_eq!(ENV_HOST, "CITUS_HOST");
    assert_eq!(ENV_USER, "POSTGRES_USER");
    assert_eq!(ENV_PASSWORD, "POSTGRES_PASSWORD");
    assert_eq!(ENV_DATABASE, "POSTGRES_DB");
    assert_eq!(ENV_HOSTNAME, "HOSTNAME");
    assert_eq!(READINESS_MARKER, "/healthcheck/manager-ready");
}

#[test]
fn empty_environment_gives_the_defaults() {
    let settings = Settings::from_environment(&StringMap::new());
    assert_eq!(
        settings,
        Settings {
            target: DatabaseTarget {
                host: "master".to_owned(),
                user: "postgres".to_owned(),
                password: None,
                dbname: "postgres".to_owned(),
            },
            hostname: None,
        }
    );
}

#[test]
fn full_environment_is_taken_as_it_is() {
    let settings = Settings::from_environment(&environment(&[
        ("PATH", "/usr/bin"),
        ("CITUS_HOST", "coordinator"),
        ("POSTGRES_USER", "citus"),
        ("POSTGRES_PASSWORD", "s3cr3t"),
        ("POSTGRES_DB", "shards"),
        ("HOSTNAME", "0f3a9c1d2b4e"),
    ]));
    assert_eq!(
        settings,
        Settings {
            target: DatabaseTarget {
                host: "coordinator".to_owned(),
                user: "citus".to_owned(),
                password: Some("s3cr3t".to_owned()),
                dbname: "shards".to_owned(),
            },
            hostname: Some("0f3a9c1d2b4e".to_owned()),
        }
    );
}

#[test]
fn database_follows_the_configured_user() {
    let settings =
        Settings::from_environment(&environment(&[("POSTGRES_USER", "citus"), ("HOSTNAME", "m")]));
    assert_eq!(settings.target.user, "citus");
    assert_eq!(settings.target.dbname, "citus");
    assert_eq!(settings.target.host, "master");
    assert_eq!(settings.target.password, None);
    assert_eq!(settings.hostname, Some("m".to_owned()));
}

#[test]
fn database_can_differ_from_the_user() {
    let settings = Settings::from_environment(&environment(&[("POSTGRES_DB", "shards")]));
    assert_eq!(settings.target.user, "postgres");
    assert_eq!(settings.target.dbname, "shards");
}

#[test]
fn variable_names_are_case_sensitive() {
    let settings = Settings::from_environment(&environment(&[
        ("citus_host", "coordinator"),
        ("hostname", "m"),
    ]));
    assert_eq!(settings.target.host, "master");
    assert_eq!(settings.hostname, None);
}
