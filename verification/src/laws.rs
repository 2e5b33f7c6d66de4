use vstd::prelude::*;
use crate::action::TransitionAction;
use crate::definition::DefinitionModel;
use crate::error::StateMachineError;
use crate::transition::Transition;

verus! {

/// Registration attempts only ever add to the table: the final states stay
/// as they were, every key that was registered keeps its action, the table
/// stays free of transitions out of final states, and a key that is new
/// afterwards is the key of one of the attempts.
pub proof fn lemma_register_all_grows<State, ExplicitEvent, Data, Effect, Chooser>(
    model: DefinitionModel<State, ExplicitEvent, Data, Effect, Chooser>,
    attempts: Seq<
        (Transition<State, ExplicitEvent>, TransitionAction<State, Data, Effect, Chooser>),
    >,
)
    ensures
        model.register_all(attempts).name == model.name,
        model.register_all(attempts).initial_state == model.initial_state,
        model.register_all(attempts).final_states == model.final_states,
        model.register_all(attempts).valid_event_types == model.valid_event_types,
        model.closed_under_finals() ==> model.register_all(attempts).closed_under_finals(),
        forall|key: Transition<State, ExplicitEvent>| #[trigger]
            model.transitions.dom().contains(key) ==> model.register_all(attempts).lookup(key)
                == model.lookup(key),
        forall|key: Transition<State, ExplicitEvent>| #[trigger]
            model.register_all(attempts).transitions.dom().contains(key)
                ==> model.transitions.dom().contains(key) || exists|i: int|
                0 <= i < attempts.len() && (#[trigger] attempts[i]).0 == key,
    decreases attempts.len(),
{
    if attempts.len() > 0 {
        let front = attempts.drop_last();
        lemma_register_all_grows(model, front);
        let before = model.register_all(front);
        let after = model.register_all(attempts);
        assert(after == before.register(attempts.last().0, attempts.last().1));
        assert forall|key: Transition<State, ExplicitEvent>| #[trigger]
            after.transitions.dom().contains(key) implies model.transitions.dom().contains(key)
            || exists|i: int| 0 <= i < attempts.len() && (#[trigger] attempts[i]).0 == key by {
            if before.transitions.dom().contains(key) {
                if !model.transitions.dom().contains(key) {
                    let i = choose|i: int| 0 <= i < front.len() && (#[trigger] front[i]).0 == key;
                    assert(attempts[i].0 == key);
                }
            } else {
                assert(attempts[attempts.len() - 1].0 == key);
            }
        }
    }
}

/// Uniqueness: once a key has been registered, every later attempt to
/// register it, whatever was attempted in between, is refused as a
/// duplicate and leaves the definition as it was.
pub proof fn lemma_second_registration_refused<State, ExplicitEvent, Data, Effect, Chooser>(
    model: DefinitionModel<State, ExplicitEvent, Data, Effect, Chooser>,
    key: Transition<State, ExplicitEvent>,
    first: TransitionAction<State, Data, Effect, Chooser>,
    between: Seq<
        (Transition<State, ExplicitEvent>, TransitionAction<State, Data, Effect, Chooser>),
    >,
    second: TransitionAction<State, Data, Effect, Chooser>,
)
    requires
        model.verdict(key) is Ok,
    ensures
        model.register(key, first).register_all(between).verdict(key) == Err::<(), _>(
            StateMachineError::DuplicatedTransition,
        ),
        model.register(key, first).register_all(between).register(key, second) == model.register(
            key,
            first,
        ).register_all(between),
        model.register(key, first).register_all(between).lookup(key) == Ok::<_, StateMachineError>(
            first,
        ),
{
    let once = model.register(key, first);
    assert(once.transitions.dom().contains(key));
    lemma_register_all_grows(once, between);
}

/// Final-state closure: an attempt to register a transition out of a final
/// state is refused with the final-state error, the definition stays as it
/// was, and the table holds no transition out of that state afterwards.
pub proof fn lemma_final_state_closure<State, ExplicitEvent, Data, Effect, Chooser>(
    model: DefinitionModel<State, ExplicitEvent, Data, Effect, Chooser>,
    key: Transition<State, ExplicitEvent>,
    action: TransitionAction<State, Data, Effect, Chooser>,
)
    requires
        model.closed_under_finals(),
        model.final_states.contains(key.from),
    ensures
        model.verdict(key) == Err::<(), _>(StateMachineError::TransitionFromFinalState),
        model.register(key, action) == model,
        forall|other: Transition<State, ExplicitEvent>|
            other.from == key.from ==> !#[trigger] model.register(
                key,
                action,
            ).transitions.dom().contains(other),
{
}

/// Lookup within the table: after a key has been registered, a lookup of it
/// answers with exactly the action registered, and the lookup of every other
/// key answers as before.
pub proof fn lemma_lookup_after_registration<State, ExplicitEvent, Data, Effect, Chooser>(
    model: DefinitionModel<State, ExplicitEvent, Data, Effect, Chooser>,
    key: Transition<State, ExplicitEvent>,
    action: TransitionAction<State, Data, Effect, Chooser>,
)
    requires
        model.verdict(key) is Ok,
    ensures
        model.register(key, action).lookup(key) == Ok::<_, StateMachineError>(action),
        forall|other: Transition<State, ExplicitEvent>|
            other != key ==> #[trigger] model.register(key, action).lookup(other) == model.lookup(
                other,
            ),
{
}

/// Lookup outside the table: a key that was not in the table and that none
/// of the attempts named is unknown afterwards.
pub proof fn lemma_unregistered_lookup_fails<State, ExplicitEvent, Data, Effect, Chooser>(
    model: DefinitionModel<State, ExplicitEvent, Data, Effect, Chooser>,
    attempts: Seq<
        (Transition<State, ExplicitEvent>, TransitionAction<State, Data, Effect, Chooser>),
    >,
    key: Transition<State, ExplicitEvent>,
)
    requires
        !model.transitions.dom().contains(key),
        forall|i: int| 0 <= i < attempts.len() ==> (#[trigger] attempts[i]).0 != key,
    ensures
        model.register_all(attempts).lookup(key) == Err::<
            TransitionAction<State, Data, Effect, Chooser>,
            _,
        >(StateMachineError::UnknownTransition),
{
    lemma_register_all_grows(model, attempts);
}

} // verus!
