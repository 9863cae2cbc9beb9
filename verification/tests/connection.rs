use membership_manager::connect::{
    ConnectAction, ConnectInput, ConnectState, ConnectionManager, BACKOFF_SECONDS,
};
use membership_manager::target::{connection_config, DatabaseTarget, DEFAULT_HOST, DEFAULT_USER};
use tokio_postgres::config::Host;

fn connect_after(refusals: usize) -> (ConnectionManager, Vec<ConnectAction>) {
    let mut manager = ConnectionManager::new();
    let mut actions = Vec::new();
    for _ in 0..refusals {
        actions.push(manager.step(ConnectInput::Wake).unwrap());
        assert_eq!(manager.state(), ConnectState::Connecting);
        actions.push(manager.step(ConnectInput::Refused).unwrap());
        assert_eq!(manager.state(), ConnectState::Disconnected);
    }
    actions.push(manager.step(ConnectInput::Wake).unwrap());
    actions.push(manager.step(ConnectInput::Opened).unwrap());
    (manager, actions)
}

#[test]
fn backoff_is_one_second() {
    assert_eq!(BACKOFF_SECONDS, 1);
}

#[test]
fn connects_at_once_when_the_first_attempt_succeeds() {
    let (manager, actions) = connect_after(0);
    assert_eq!(manager.state(), ConnectState::Connected);
    assert_eq!(actions, vec![ConnectAction::Attempt, ConnectAction::Serve]);
}

#[test]
fn three_refusals_make_four_attempts() {
    let (manager, actions) = connect_after(3);
    assert_eq!(manager.state(), ConnectState::Connected);
    assert_eq!(
        actions,
        vec![
            ConnectAction::Attempt,
            ConnectAction::Backoff { seconds: 1 },
            ConnectAction::Attempt,
            ConnectAction::Backoff { seconds: 1 },
            ConnectAction::Attempt,
            ConnectAction::Backoff { seconds: 1 },
            ConnectAction::Attempt,
            ConnectAction::Serve,
        ]
    );
}

#[test]
fn many_refusals_never_surface() {
    let refusals = 250;
    let (manager, actions) = connect_after(refusals);
    let attempts = actions.iter().filter(|a| **a == ConnectAction::Attempt).count();
    let backoffs = actions
        .iter()
        .filter(|a| **a == ConnectAction::Backoff { seconds: BACKOFF_SECONDS })
        .count();
    assert_eq!(attempts, refusals + 1);
    assert_eq!(backoffs, refusals);
    assert_eq!(actions.len(), 2 * refusals + 2);
    assert_eq!(actions.last(), Some(&ConnectAction::Serve));
    assert_eq!(manager.state(), ConnectState::Connected);
}

#[test]
fn manager_starts_disconnected() {
    assert_eq!(ConnectionManager::new().state(), ConnectState::Disconnected);
}

#[test]
fn inputs_that_do_not_apply_change_nothing() {
    let mut manager = ConnectionManager::new();
    assert_eq!(manager.step(ConnectInput::Opened), None);
    assert_eq!(manager.step(ConnectInput::Refused), None);
    assert_eq!(manager.state(), ConnectState::Disconnected);
    assert_eq!(manager.step(ConnectInput::Wake), Some(ConnectAction::Attempt));
    assert_eq!(manager.step(ConnectInput::Wake), None);
    assert_eq!(manager.state(), ConnectState::Connecting);
    assert_eq!(manager.step(ConnectInput::Opened), Some(ConnectAction::Serve));
    assert_eq!(manager.step(ConnectInput::Wake), None);
    assert_eq!(manager.step(ConnectInput::Opened), None);
    assert_eq!(manager.step(ConnectInput::Refused), None);
    assert_eq!(manager.state(), ConnectState::Connected);
}

#[test]
fn target_defaults() {
    let target = DatabaseTarget::from_settings(None, None, None, None);
    assert_eq!(
        target,
        DatabaseTarget {
            host: "master".to_owned(),
            user: "postgres".to_owned(),
            password: None,
            dbname: "postgres".to_owned(),
        }
    );
    assert_eq!(DEFAULT_HOST, "master");
    assert_eq!(DEFAULT_USER, "postgres");
}

#[test]
fn database_defaults_to_the_user() {
    let target = DatabaseTarget::from_settings(None, Some("citus".to_owned()), None, None);
    assert_eq!(target.user, "citus");
    assert_eq!(target.dbname, "citus");
    assert_eq!(target.host, "master");
}

#[test]
fn target_takes_what_is_configured() {
    let target = DatabaseTarget::from_settings(
        Some("coordinator".to_owned()),
        Some("citus".to_owned()),
        Some("s3cr3t".to_owned()),
        Some("shards".to_owned()),
    );
    assert_eq!(
        target,
        DatabaseTarget {
            host: "coordinator".to_owned(),
            user: "citus".to_owned(),
            password: Some("s3cr3t".to_owned()),
            dbname: "shards".to_owned(),
        }
    );
}

#[test]
fn empty_password_is_a_password() {
    let target = DatabaseTarget::from_settings(None, None, Some(String::new()), None);
    assert_eq!(target.password, Some(String::new()));
    let config = connection_config(&target);
    assert_eq!(config.get_password(), Some(&b""[..]));
}

#[test]
fn duplicate_is_equal() {
    let target = DatabaseTarget::from_settings(
        Some("coordinator".to_owned()),
        None,
        Some("pw".to_owned()),
        None,
    );
    assert_eq!(target.duplicate(), target);
}

#[test]
fn connection_config_without_password() {
    let target = DatabaseTarget::from_settings(None, None, None, None);
    let config = connection_config(&target);
    assert_eq!(config.get_hosts(), &[Host::Tcp("master".to_owned())]);
    assert_eq!(config.get_user(), Some("postgres"));
    assert_eq!(config.get_dbname(), Some("postgres"));
    assert_eq!(config.get_password(), None);
    assert!(config.get_ports().is_empty());
}

#[test]
fn connection_config_with_password() {
    let target = DatabaseTarget::from_settings(
        Some("coordinator".to_owned()),
        Some("citus".to_owned()),
        Some("p\u{e4}ss".to_owned()),
        Some("shards".to_owned()),
    );
    let config = connection_config(&target);
    assert_eq!(config.get_hosts(), &[Host::Tcp("coordinator".to_owned())]);
    assert_eq!(config.get_user(), Some("citus"));
    assert_eq!(config.get_dbname(), Some("shards"));
    assert_eq!(config.get_password(), Some("p\u{e4}ss".as_bytes()));
    assert_eq!(config.get_password().unwrap().len(), 5);
}
