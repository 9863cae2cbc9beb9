use std::collections::HashMap;
use vstd::prelude::*;
use crate::event::{ACTION_DESTROY, ACTION_HEALTHY};
use crate::metadata::LABEL_COMPOSE_PROJECT;

verus! {

/// The filter that selects events by their action.
pub const FILTER_EVENT: &'static str = "event";

/// The filter that selects events by the labels of what they are about.
pub const FILTER_LABEL: &'static str = "label";

/// The filter that selects events by the kind of object they are about.
pub const FILTER_TYPE: &'static str = "type";

/// The kind of object whose events are wanted.
pub const TYPE_CONTAINER: &'static str = "container";

/// The label that marks a container as a worker of the database.
pub const LABEL_WORKER_ROLE: &'static str = "com.citusdata.role=Worker";

/// One filter of an event subscription: an event passes it if it matches
/// one of the values (for `label`: all of the values).
#[derive(Debug, PartialEq, Eq)]
pub struct FilterEntry {
    pub key: String,
    pub values: Vec<String>,
}

/// The filters of an event subscription, all of which an event must pass.
/// Of two entries with the same key the later one counts.
#[derive(Debug, PartialEq, Eq)]
pub struct EventFilters {
    pub entries: Vec<FilterEntry>,
}

/// What a filter is, with texts as sequences of characters.
pub struct FilterEntryView {
    pub key: Seq<char>,
    pub values: Seq<Seq<char>>,
}

impl View for FilterEntry {
    type V = FilterEntryView;

    open spec fn view(&self) -> FilterEntryView {
        FilterEntryView { key: self.key@, values: self.values@.map_values(|value: String| value@) }
    }
}

impl View for EventFilters {
    type V = Seq<FilterEntryView>;

    open spec fn view(&self) -> Seq<FilterEntryView> {
        self.entries@.map_values(|entry: FilterEntry| entry@)
    }
}

/// The mapping from filter keys to values that a list of entries stands
/// for: a later entry replaces an earlier one with the same key.
pub open spec fn filter_mapping(entries: Seq<FilterEntryView>) -> Map<Seq<char>, Seq<Seq<char>>>
    decreases entries.len(),
{
    if entries.len() == 0 {
        Map::empty()
    } else {
        filter_mapping(entries.drop_last()).insert(entries.last().key, entries.last().values)
    }
}

/// The label filter value that selects the containers of `project`.
pub open spec fn project_label(project: Seq<char>) -> Seq<char> {
    LABEL_COMPOSE_PROJECT@ + "="@ + project
}

/// The filters that scope a subscription to the worker containers of
/// `project`: health and destroy events, of containers, that carry both the
/// project's label and the worker role.
pub open spec fn event_filters_spec(project: Seq<char>) -> Seq<FilterEntryView> {
    seq![
        FilterEntryView { key: FILTER_EVENT@, values: seq![ACTION_HEALTHY@, ACTION_DESTROY@] },
        FilterEntryView {
            key: FILTER_LABEL@,
            values: seq![project_label(project), LABEL_WORKER_ROLE@],
        },
        FilterEntryView { key: FILTER_TYPE@, values: seq![TYPE_CONTAINER@] },
    ]
}

/// Builds the filters that scope a subscription to the workers of `project`.
pub fn event_filters(project: &str) -> (filters: EventFilters)
    ensures
        filters@ == event_filters_spec(project@),
{
    let mut actions: Vec<String> = Vec::new();
    actions.push(ACTION_HEALTHY.to_owned());
    actions.push(ACTION_DESTROY.to_owned());
    let mut labels: Vec<String> = Vec::new();
    labels.push(String::from_str(LABEL_COMPOSE_PROJECT).concat("=").concat(project));
    labels.push(LABEL_WORKER_ROLE.to_owned());
    let mut kinds: Vec<String> = Vec::new();
    kinds.push(TYPE_CONTAINER.to_owned());
    let mut entries: Vec<FilterEntry> = Vec::new();
    entries.push(FilterEntry { key: FILTER_EVENT.to_owned(), values: actions });
    entries.push(FilterEntry { key: FILTER_LABEL.to_owned(), values: labels });
    entries.push(FilterEntry { key: FILTER_TYPE.to_owned(), values: kinds });
    let filters = EventFilters { entries };
    proof {
        let expected = event_filters_spec(project@);
        assert(filters@[0].values =~= expected[0].values);
        assert(filters@[1].values =~= expected[1].values);
        assert(filters@[2].values =~= expected[2].values);
        assert(filters@ =~= expected);
    }
    filters
}

/// The filters of a project stand for a mapping with exactly three keys:
/// the wanted actions under `event`, the two labels under `label`, and the
/// kind of object under `type`.
pub proof fn law_event_filters_mapping(project: Seq<char>)
    ensures
        filter_mapping(event_filters_spec(project)) == Map::<Seq<char>, Seq<Seq<char>>>::empty()
            .insert(FILTER_EVENT@, seq![ACTION_HEALTHY@, ACTION_DESTROY@])
            .insert(FILTER_LABEL@, seq![project_label(project), LABEL_WORKER_ROLE@])
            .insert(FILTER_TYPE@, seq![TYPE_CONTAINER@]),
        FILTER_EVENT@ != FILTER_LABEL@,
        FILTER_EVENT@ != FILTER_TYPE@,
        FILTER_LABEL@ != FILTER_TYPE@,
{
    reveal_strlit("event");
    reveal_strlit("label");
    reveal_strlit("type");
    assert(FILTER_EVENT@[0] == 'e');
    assert(FILTER_LABEL@[0] == 'l');
    assert(FILTER_TYPE@[0] == 't');
    let entries = event_filters_spec(project);
    assert(entries.drop_last().drop_last().drop_last() =~= Seq::<FilterEntryView>::empty());
    reveal_with_fuel(filter_mapping, 4);
}

/// Declares bollard's `EventsOptions` to the verifier, as an opaque type.
#[verifier::external_type_specification]
#[verifier::external_body]
pub struct ExEventsOptions(bollard::query_parameters::EventsOptions);

/// The filters that event options hold, as a mapping from filter keys to
/// values, or `None` where they hold none.
pub uninterp spec fn options_filters(options: bollard::query_parameters::EventsOptions) -> Option<
    Map<Seq<char>, Seq<Seq<char>>>,
>;

/// The time from which event options ask for past events, if they do.
pub uninterp spec fn options_since(options: bollard::query_parameters::EventsOptions) -> Option<
    Seq<char>,
>;

/// The time at which event options ask the stream to end, if they do.
pub uninterp spec fn options_until(options: bollard::query_parameters::EventsOptions) -> Option<
    Seq<char>,
>;

/// Event options with the given filters and nothing else.
///
/// Trusted: stands for bollard's `EventsOptionsBuilder`, from `default()`
/// through `filters(..)` to `build()`. The default builder holds no filters
/// and neither time bound; `filters` stores a copy of the mapping it is
/// given; `build` hands out what the builder holds.
#[verifier::external_body]
fn build_events_options(filters: &EventFilters) -> (options:
    bollard::query_parameters::EventsOptions)
    ensures
        options_filters(options) == Some(filter_mapping(filters@)),
        options_since(options) is None,
        options_until(options) is None,
{
    let mut mapping: HashMap<String, Vec<String>> = HashMap::new();
    for entry in filters.entries.iter() {
        mapping.insert(entry.key.clone(), entry.values.clone());
    }
    bollard::query_parameters::EventsOptionsBuilder::default().filters(&mapping).build()
}

/// The options that open a live subscription with exactly `filters`: no
/// replay of past events, and no end.
pub fn events_options(filters: &EventFilters) -> (options: bollard::query_parameters::EventsOptions)
    ensures
        options_filters(options) == Some(filter_mapping(filters@)),
        options_since(options) is None,
        options_until(options) is None,
{
    build_events_options(filters)
}

} // verus!
