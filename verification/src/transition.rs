use vstd::prelude::*;
use vstd::laws_eq::obeys_concrete_eq;

verus! {

/// The kind of an event replayed from the durable history log, by its wire tag.
#[derive(PartialEq, Eq, Structural, Clone, Copy, Debug, Hash)]
pub struct EventType(pub i32);

/// The kind of a command that the entity emitted earlier, by its wire tag.
#[derive(PartialEq, Eq, Structural, Clone, Copy, Debug, Hash)]
pub struct CommandType(pub i32);

/// What triggers a transition. The three origins are kept apart because they
/// come from different sources: a local decision, the history log, or the
/// entity's own earlier output.
#[derive(PartialEq, Eq, Clone, Copy, Debug, Hash)]
pub enum TransitionEvent<ExplicitEvent> {
    /// A trigger that the caller defines and decides locally.
    Explicit(ExplicitEvent),
    /// An event replayed from the history log.
    History(EventType),
    /// A command that the entity emitted before and now meets again.
    Command(CommandType),
}

/// The key of one edge of the table: the state it leaves and the event that
/// triggers it.
#[derive(PartialEq, Eq, Clone, Copy, Debug, Hash)]
pub struct Transition<State, ExplicitEvent> {
    pub from: State,
    pub event: TransitionEvent<ExplicitEvent>,
}

impl<ExplicitEvent: PartialEq + Copy> TransitionEvent<ExplicitEvent> {
    /// Whether two events have the same origin and carry the same value.
    pub fn same(&self, other: &Self) -> (r: bool)
        requires
            obeys_concrete_eq::<ExplicitEvent>(),
        ensures
            r == (*self == *other),
    {
        proof {
            reveal(obeys_concrete_eq);
        }
        match (self, other) {
            (TransitionEvent::Explicit(a), TransitionEvent::Explicit(b)) => *a == *b,
            (TransitionEvent::History(a), TransitionEvent::History(b)) => a.0 == b.0,
            (TransitionEvent::Command(a), TransitionEvent::Command(b)) => a.0 == b.0,
            _ => false,
        }
    }
}

impl<State: PartialEq + Copy, ExplicitEvent: PartialEq + Copy> Transition<State, ExplicitEvent> {
    /// The key for leaving `from` on `event`.
    pub fn new(from: State, event: TransitionEvent<ExplicitEvent>) -> (r: Self)
        ensures
            r.from == from,
            r.event == event,
    {
        Transition { from, event }
    }

    /// Whether two keys name the same edge: the same origin state and the same
    /// event. There is no partial match.
    pub fn same(&self, other: &Self) -> (r: bool)
        requires
            obeys_concrete_eq::<State>(),
            obeys_concrete_eq::<ExplicitEvent>(),
        ensures
            r == (*self == *other),
    {
        proof {
            reveal(obeys_concrete_eq);
        }
        self.from == other.from && self.event.same(&other.event)
    }
}

} // verus!
