use membership_manager::filters::{
    event_filters, events_options, EventFilters, FilterEntry, FILTER_EVENT, FILTER_LABEL,
    FILTER_TYPE, LABEL_WORKER_ROLE, TYPE_CONTAINER,
};
use membership_manager::metadata::{
    resolve_compose_project, ContainerConfig, ContainerInspection, MissingMetadata,
    LABEL_COMPOSE_PROJECT,
};
use membership_manager::string_map::StringMap;
use std::collections::HashMap;

fn entry(key: &str, values: &[&str]) -> FilterEntry {
    FilterEntry { key: key.to_owned(), values: values.iter().map(|v| (*v).to_owned()).collect() }
}

fn inspection_with(labels: &[(&str, &str)]) -> ContainerInspection {
    let mut map = StringMap::new();
    for (key, value) in labels {
        map.insert((*key).to_owned(), (*value).to_owned());
    }
    ContainerInspection { config: Some(ContainerConfig { labels: Some(map) }) }
}

#[test]
fn filter_names() {
    assert_eq!(FILTER_EVENT, "event");
    assert_eq!(FILTER_LABEL, "label");
    assert_eq!(FILTER_TYPE, "type");
    assert_eq!(TYPE_CONTAINER, "container");
    assert_eq!(LABEL_WORKER_ROLE, "com.citusdata.role=Worker");
    assert_eq!(LABEL_COMPOSE_PROJECT, "com.docker.compose.project");
}

#[test]
fn filters_of_a_project() {
    let filters = event_filters("citus");
    assert_eq!(
        filters,
        EventFilters {
            entries: vec![
                entry("event", &["health_status: healthy", "destroy"]),
                entry("label", &["com.docker.compose.project=citus", "com.citusdata.role=Worker"]),
                entry("type", &["container"]),
            ],
        }
    );
}

#[test]
fn filters_of_an_empty_project_name() {
    let filters = event_filters("");
    assert_eq!(
        filters.entries[1],
        entry("label", &["com.docker.compose.project=", "com.citusdata.role=Worker"])
    );
}

#[test]
fn options_hold_the_filters_and_no_time_bound() {
    let options = events_options(&event_filters("demo"));
    let mut expected: HashMap<String, Vec<String>> = HashMap::new();
    expected.insert(
        "event".to_owned(),
        vec!["health_status: healthy".to_owned(), "destroy".to_owned()],
    );
    expected.insert(
        "label".to_owned(),
        vec!["com.docker.compose.project=demo".to_owned(), "com.citusdata.role=Worker".to_owned()],
    );
    expected.insert("type".to_owned(), vec!["container".to_owned()]);
    assert_eq!(options.filters, Some(expected));
    assert_eq!(options.since, None);
    assert_eq!(options.until, None);
}

#[test]
fn options_of_no_filters_hold_an_empty_mapping() {
    let options = events_options(&EventFilters { entries: Vec::new() });
    assert_eq!(options.filters, Some(HashMap::new()));
    assert_eq!(options.since, None);
    assert_eq!(options.until, None);
}

#[test]
fn later_filter_entry_replaces_earlier() {
    let filters = EventFilters {
        entries: vec![
            entry("type", &["image"]),
            entry("event", &["destroy"]),
            entry("type", &["container"]),
        ],
    };
    let options = events_options(&filters);
    let held = options.filters.unwrap();
    assert_eq!(held.len(), 2);
    assert_eq!(held.get("type"), Some(&vec!["container".to_owned()]));
    assert_eq!(held.get("event"), Some(&vec!["destroy".to_owned()]));
}

#[test]
fn project_is_read_from_the_label() {
    let inspection = inspection_with(&[
        ("com.citusdata.role", "Manager"),
        ("com.docker.compose.project", "citus"),
        ("com.docker.compose.service", "manager"),
    ]);
    assert_eq!(inspection.compose_project(), Some(&"citus".to_owned()));
    assert_eq!(resolve_compose_project(Some(&inspection)), Ok("citus".to_owned()));
}

#[test]
fn container_without_project_label() {
    let inspection = inspection_with(&[("com.citusdata.role", "Manager")]);
    assert_eq!(inspection.compose_project(), None);
    assert_eq!(
        resolve_compose_project(Some(&inspection)),
        Err(MissingMetadata::ProjectLabelAbsent)
    );
}

#[test]
fn container_without_labels() {
    let inspection = ContainerInspection { config: Some(ContainerConfig { labels: None }) };
    assert_eq!(
        resolve_compose_project(Some(&inspection)),
        Err(MissingMetadata::ProjectLabelAbsent)
    );
}

#[test]
fn container_without_config() {
    let inspection = ContainerInspection { config: None };
    assert_eq!(
        resolve_compose_project(Some(&inspection)),
        Err(MissingMetadata::ProjectLabelAbsent)
    );
}

#[test]
fn container_not_found() {
    assert_eq!(resolve_compose_project(None), Err(MissingMetadata::ContainerNotFound));
}

#[test]
fn label_name_must_match_exactly() {
    let inspection = inspection_with(&[("com.docker.compose.project ", "citus")]);
    assert_eq!(
        resolve_compose_project(Some(&inspection)),
        Err(MissingMetadata::ProjectLabelAbsent)
    );
}
