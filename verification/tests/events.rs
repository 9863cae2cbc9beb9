use membership_manager::command::{
    add_worker, command_for, remove_worker, DbCommand, Statement, StatementKind, SQL_ADD_NODE,
    SQL_DELETE_PLACEMENTS, SQL_REMOVE_NODE,
};
use membership_manager::event::{
    EventActor, LifecycleEvent, MembershipChange, ACTION_DESTROY, ACTION_HEALTHY, ATTRIBUTE_NAME,
};
use membership_manager::string_map::StringMap;

fn named(action: &str, worker: &str) -> LifecycleEvent {
    let mut attributes = StringMap::new();
    attributes.insert("image".to_owned(), "citusdata/citus".to_owned());
    attributes.insert("name".to_owned(), worker.to_owned());
    LifecycleEvent {
        action: Some(action.to_owned()),
        actor: Some(EventActor { attributes: Some(attributes) }),
    }
}

fn statement(kind: StatementKind, host: &str) -> Statement {
    Statement { kind, host: host.to_owned() }
}

#[test]
fn healthy_event_registers_the_worker() {
    let event = named("health_status: healthy", "worker-1");
    let change = event.decode();
    assert_eq!(change, MembershipChange::Add("worker-1".to_owned()));
    let command = command_for(&change);
    assert_eq!(
        command,
        Some(DbCommand {
            transactional: false,
            statements: vec![statement(StatementKind::AddNode, "worker-1")],
        })
    );
}

#[test]
fn destroy_event_evicts_the_worker_in_one_transaction() {
    let event = named("destroy", "worker-1");
    let change = event.decode();
    assert_eq!(change, MembershipChange::Remove("worker-1".to_owned()));
    let command = command_for(&change).unwrap();
    assert!(command.transactional);
    assert_eq!(
        command.statements,
        vec![
            statement(StatementKind::DeletePlacements, "worker-1"),
            statement(StatementKind::RemoveNode, "worker-1"),
        ]
    );
}

#[test]
fn pause_event_is_ignored() {
    let event = named("pause", "worker-1");
    let change = event.decode();
    assert_eq!(change, MembershipChange::Ignore);
    assert_eq!(command_for(&change), None);
}

#[test]
fn event_without_action_is_ignored() {
    let mut event = named("destroy", "worker-1");
    event.action = None;
    assert_eq!(event.worker(), Some(&"worker-1".to_owned()));
    assert_eq!(event.decode(), MembershipChange::Ignore);
}

#[test]
fn event_without_actor_is_ignored() {
    let event = LifecycleEvent { action: Some("destroy".to_owned()), actor: None };
    assert_eq!(event.worker(), None);
    assert_eq!(event.decode(), MembershipChange::Ignore);
}

#[test]
fn event_without_attributes_is_ignored() {
    let event = LifecycleEvent {
        action: Some("health_status: healthy".to_owned()),
        actor: Some(EventActor { attributes: None }),
    };
    assert_eq!(event.worker(), None);
    assert_eq!(event.decode(), MembershipChange::Ignore);
}

#[test]
fn event_without_name_is_ignored() {
    let mut attributes = StringMap::new();
    attributes.insert("image".to_owned(), "citusdata/citus".to_owned());
    let event = LifecycleEvent {
        action: Some("health_status: healthy".to_owned()),
        actor: Some(EventActor { attributes: Some(attributes) }),
    };
    assert_eq!(event.worker(), None);
    assert_eq!(event.decode(), MembershipChange::Ignore);
}

#[test]
fn action_must_match_exactly() {
    assert_eq!(named("Destroy", "w").decode(), MembershipChange::Ignore);
    assert_eq!(named("destroy ", "w").decode(), MembershipChange::Ignore);
    assert_eq!(named("health_status: unhealthy", "w").decode(), MembershipChange::Ignore);
    assert_eq!(named("health_status", "w").decode(), MembershipChange::Ignore);
    assert_eq!(named("", "w").decode(), MembershipChange::Ignore);
}

#[test]
fn empty_worker_name_is_still_a_name() {
    assert_eq!(named("destroy", "").decode(), MembershipChange::Remove(String::new()));
}

#[test]
fn action_and_attribute_names() {
    assert_eq!(ACTION_HEALTHY, "health_status: healthy");
    assert_eq!(ACTION_DESTROY, "destroy");
    assert_eq!(ATTRIBUTE_NAME, "name");
}

#[test]
fn string_map_finds_what_was_bound() {
    let mut map = StringMap::new();
    assert_eq!(map.get("name"), None);
    map.insert("name".to_owned(), "worker-1".to_owned());
    map.insert("role".to_owned(), "Worker".to_owned());
    assert_eq!(map.get("name"), Some(&"worker-1".to_owned()));
    assert_eq!(map.get("role"), Some(&"Worker".to_owned()));
    assert_eq!(map.get("nam"), None);
    assert_eq!(map.get("name "), None);
    assert_eq!(map.get(""), None);
}

#[test]
fn string_map_later_binding_replaces_earlier() {
    let mut map = StringMap::new();
    map.insert("name".to_owned(), "worker-1".to_owned());
    map.insert("other".to_owned(), "x".to_owned());
    map.insert("name".to_owned(), "worker-2".to_owned());
    assert_eq!(map.get("name"), Some(&"worker-2".to_owned()));
    assert_eq!(map.get("other"), Some(&"x".to_owned()));
}

#[test]
fn statement_texts() {
    assert_eq!(StatementKind::AddNode.sql(), "SELECT master_add_node($1, 5432)");
    assert_eq!(
        StatementKind::DeletePlacements.sql(),
        "DELETE FROM pg_dist_placement WHERE groupid = (SELECT groupid FROM pg_dist_node WHERE nodename=$1 AND nodeport=5432 LIMIT 1)"
    );
    assert_eq!(StatementKind::RemoveNode.sql(), "SELECT master_remove_node($1, 5432)");
    assert_eq!(StatementKind::AddNode.sql(), SQL_ADD_NODE);
    assert_eq!(StatementKind::DeletePlacements.sql(), SQL_DELETE_PLACEMENTS);
    assert_eq!(StatementKind::RemoveNode.sql(), SQL_REMOVE_NODE);
}

#[test]
fn add_worker_is_one_statement_on_its_own() {
    let command = add_worker("worker-7");
    assert!(!command.transactional);
    assert_eq!(command.statements, vec![statement(StatementKind::AddNode, "worker-7")]);
}

#[test]
fn remove_worker_deletes_placements_before_the_node() {
    let command = remove_worker("worker-7");
    assert!(command.transactional);
    assert_eq!(command.statements.len(), 2);
    let removal = command
        .statements
        .iter()
        .position(|s| s.kind == StatementKind::RemoveNode)
        .unwrap();
    assert_eq!(removal, 1);
    assert_eq!(command.statements[removal - 1], statement(StatementKind::DeletePlacements, "worker-7"));
    assert_eq!(command.statements[removal].host, "worker-7");
}

#[test]
fn commands_follow_the_events_in_order() {
    let events = vec![
        named("health_status: healthy", "worker-1"),
        named("health_status: healthy", "worker-2"),
        named("destroy", "worker-1"),
        named("health_status: healthy", "worker-1"),
        named("destroy", "worker-2"),
    ];
    let commands: Vec<DbCommand> =
        events.iter().map(|e| command_for(&e.decode()).unwrap()).collect();
    assert_eq!(
        commands,
        vec![
            add_worker("worker-1"),
            add_worker("worker-2"),
            remove_worker("worker-1"),
            add_worker("worker-1"),
            remove_worker("worker-2"),
        ]
    );
}
