use vstd::prelude::*;
use crate::string_map::StringMap;
use crate::text::str_eq;

verus! {

/// The action that reports a worker as ready to serve.
pub const ACTION_HEALTHY: &'static str = "health_status: healthy";

/// The action that reports a worker container as gone.
pub const ACTION_DESTROY: &'static str = "destroy";

/// The actor attribute that holds the worker's name.
pub const ATTRIBUTE_NAME: &'static str = "name";

/// Who an event is about.
#[derive(Debug)]
pub struct EventActor {
    pub attributes: Option<StringMap>,
}

/// One container lifecycle event, as the container runtime delivers it.
#[derive(Debug)]
pub struct LifecycleEvent {
    pub action: Option<String>,
    pub actor: Option<EventActor>,
}

/// What an event asks of the node registry.
#[derive(Debug, PartialEq, Eq)]
pub enum MembershipChange {
    /// Register the named worker.
    Add(String),
    /// Evict the named worker.
    Remove(String),
    /// Nothing: the event is incomplete or of no interest.
    Ignore,
}

/// What an actor is, with its attributes as a mapping.
pub struct EventActorView {
    pub attributes: Option<Map<Seq<char>, Seq<char>>>,
}

/// What an event is, with texts as sequences of characters.
pub struct LifecycleEventView {
    pub action: Option<Seq<char>>,
    pub actor: Option<EventActorView>,
}

/// What a membership change is, with the worker's name as a sequence of
/// characters.
pub enum MembershipChangeView {
    Add(Seq<char>),
    Remove(Seq<char>),
    Ignore,
}

impl View for EventActor {
    type V = EventActorView;

    open spec fn view(&self) -> EventActorView {
        EventActorView {
            attributes: match self.attributes {
                Some(attributes) => Some(attributes@),
                None => None,
            },
        }
    }
}

impl View for LifecycleEvent {
    type V = LifecycleEventView;

    open spec fn view(&self) -> LifecycleEventView {
        LifecycleEventView {
            action: match self.action {
                Some(action) => Some(action@),
                None => None,
            },
            actor: match self.actor {
                Some(actor) => Some(actor@),
                None => None,
            },
        }
    }
}

impl View for MembershipChange {
    type V = MembershipChangeView;

    open spec fn view(&self) -> MembershipChangeView {
        match self {
            MembershipChange::Add(worker) => MembershipChangeView::Add(worker@),
            MembershipChange::Remove(worker) => MembershipChangeView::Remove(worker@),
            MembershipChange::Ignore => MembershipChangeView::Ignore,
        }
    }
}

impl LifecycleEventView {
    /// The name of the worker that the event is about: the actor's `name`
    /// attribute, where the event has an actor with attributes that hold one.
    pub open spec fn worker(self) -> Option<Seq<char>> {
        match self.actor {
            Some(actor) => match actor.attributes {
                Some(attributes) => if attributes.contains_key(ATTRIBUTE_NAME@) {
                    Some(attributes[ATTRIBUTE_NAME@])
                } else {
                    None
                },
                None => None,
            },
            None => None,
        }
    }

    /// The change that the event asks for. Only an event that has both an
    /// action and a worker name asks for one, and only the two meaningful
    /// actions do.
    pub open spec fn change(self) -> MembershipChangeView {
        match (self.action, self.worker()) {
            (Some(action), Some(worker)) => if action == ACTION_HEALTHY@ {
                MembershipChangeView::Add(worker)
            } else if action == ACTION_DESTROY@ {
                MembershipChangeView::Remove(worker)
            } else {
                MembershipChangeView::Ignore
            },
            _ => MembershipChangeView::Ignore,
        }
    }
}

/// The two meaningful actions are different texts.
pub proof fn lemma_actions_differ()
    ensures
        ACTION_HEALTHY@ != ACTION_DESTROY@,
{
    reveal_strlit("health_status: healthy");
    reveal_strlit("destroy");
    assert(ACTION_HEALTHY@.len() == 22);
    assert(ACTION_DESTROY@.len() == 7);
}

impl LifecycleEvent {
    /// The name of the worker that the event is about, if it carries one.
    pub fn worker(&self) -> (name: Option<&String>)
        ensures
            match name {
                Some(worker) => self@.worker() == Some(worker@),
                None => self@.worker() is None,
            },
    {
        match &self.actor {
            Some(actor) => match &actor.attributes {
                Some(attributes) => attributes.get(ATTRIBUTE_NAME),
                None => None,
            },
            None => None,
        }
    }

    /// Decodes the event into the change it asks for.
    pub fn decode(&self) -> (change: MembershipChange)
        ensures
            change@ == self@.change(),
    {
        let action = match &self.action {
            Some(action) => action,
            None => {
                return MembershipChange::Ignore;
            },
        };
        let worker = match self.worker() {
            Some(worker) => worker,
            None => {
                return MembershipChange::Ignore;
            },
        };
        if str_eq(action.as_str(), ACTION_HEALTHY) {
            MembershipChange::Add(worker.clone())
        } else if str_eq(action.as_str(), ACTION_DESTROY) {
            MembershipChange::Remove(worker.clone())
        } else {
            MembershipChange::Ignore
        }
    }
}

} // verus!
