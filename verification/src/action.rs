use vstd::prelude::*;
use core::marker::PhantomData;
use crate::error::StateMachineError;
use crate::state_set::StateSet;

verus! {

/// An action whose destination is declared when it is registered. Its
/// callback sees the payload for its side effects and has no say in where the
/// entity goes.
pub struct FixedTransitionAction<State, Data, Effect> {
    /// Run on the payload, for its side effects.
    pub callback: Effect,
    /// The declared destination.
    pub state: State,
    pub payload: PhantomData<Data>,
}

/// An action whose destination is computed from the payload by its callback,
/// within a declared set of expected states.
pub struct DynamicTransitionAction<State, Data, Chooser> {
    /// Computes the destination from the payload.
    pub callback: Chooser,
    /// The states that the callback has declared it may choose.
    pub expected_states: StateSet<State>,
    pub payload: PhantomData<Data>,
}

/// What a registered transition does.
pub enum TransitionAction<State, Data, Effect, Chooser> {
    Dynamic(DynamicTransitionAction<State, Data, Chooser>),
    Fixed(FixedTransitionAction<State, Data, Effect>),
}

impl<State: PartialEq + Copy, Data, Effect: Fn(Data)> FixedTransitionAction<State, Data, Effect> {
    /// The action with this callback and this destination.
    pub open spec fn spec_new(callback: Effect, state: State) -> Self {
        FixedTransitionAction { callback, state, payload: PhantomData }
    }

    /// An action that runs `callback` and then goes to `state`.
    #[verifier::when_used_as_spec(spec_new)]
    pub fn new(callback: Effect, state: State) -> (r: Self)
        ensures
            r == Self::spec_new(callback, state),
    {
        FixedTransitionAction { callback, state, payload: PhantomData }
    }

    /// Runs the callback on `data` and returns the declared destination,
    /// whatever the payload holds.
    pub fn apply(&self, data: Data) -> (r: State)
        requires
            call_requires(self.callback, (data,)),
        ensures
            r == self.state,
            call_ensures(self.callback, (data,), ()),
    {
        (self.callback)(data);
        self.state
    }
}

impl<State: PartialEq + Copy, Data, Chooser: Fn(Data) -> State> DynamicTransitionAction<
    State,
    Data,
    Chooser,
> {
    /// The set of expected states is well formed.
    pub open spec fn wf(&self) -> bool {
        self.expected_states.wf()
    }

    /// What the action answers when its callback has chosen `chosen`: that
    /// state if it was expected, the error if not.
    pub open spec fn outcome(&self, chosen: State) -> Result<State, StateMachineError> {
        if self.expected_states@.contains(chosen) {
            Ok(chosen)
        } else {
            Err(StateMachineError::UnexpectedState)
        }
    }

    /// The action with this callback and these expected states.
    pub open spec fn spec_new(callback: Chooser, expected_states: StateSet<State>) -> Self {
        DynamicTransitionAction { callback, expected_states, payload: PhantomData }
    }

    /// An action that goes where `callback` says, among `expected_states`.
    #[verifier::when_used_as_spec(spec_new)]
    pub fn new(callback: Chooser, expected_states: StateSet<State>) -> (r: Self)
        requires
            expected_states.wf(),
        ensures
            r == Self::spec_new(callback, expected_states),
            r.wf(),
    {
        DynamicTransitionAction { callback, expected_states, payload: PhantomData }
    }

    /// Holds the state that the callback chose against the expected states.
    pub fn check_expected(&self, chosen: State) -> (r: Result<State, StateMachineError>)
        requires
            self.wf(),
        ensures
            r == self.outcome(chosen),
    {
        if self.expected_states.contains(&chosen) {
            Ok(chosen)
        } else {
            Err(StateMachineError::UnexpectedState)
        }
    }

    /// Runs the callback on `data` and returns the state it chose, provided
    /// that state is one of the expected states.
    pub fn apply(&self, data: Data) -> (r: Result<State, StateMachineError>)
        requires
            self.wf(),
            call_requires(self.callback, (data,)),
        ensures
            exists|chosen: State|
                call_ensures(self.callback, (data,), chosen) && r == #[trigger] self.outcome(
                    chosen,
                ),
            r matches Ok(state) ==> self.expected_states@.contains(state),
            r matches Err(e) ==> e == StateMachineError::UnexpectedState,
    {
        let chosen = (self.callback)(data);
        self.check_expected(chosen)
    }
}

impl<State: PartialEq + Copy, Data, Effect: Fn(Data), Chooser: Fn(Data) -> State> TransitionAction<
    State,
    Data,
    Effect,
    Chooser,
> {
    /// A dynamic action's set of expected states is well formed.
    pub open spec fn wf(&self) -> bool {
        self matches TransitionAction::Dynamic(action) ==> action.wf()
    }

    /// Whether the action's callback may be called on `data`.
    pub open spec fn accepts(&self, data: Data) -> bool {
        match self {
            TransitionAction::Dynamic(action) => call_requires(action.callback, (data,)),
            TransitionAction::Fixed(action) => call_requires(action.callback, (data,)),
        }
    }

    /// Whether `result` is an answer that the action can give on `data`: the
    /// declared destination of a fixed action, or the outcome of a state that
    /// a dynamic action's callback can choose.
    pub open spec fn may_yield(&self, data: Data, result: Result<State, StateMachineError>) -> bool {
        match self {
            TransitionAction::Dynamic(action) => exists|chosen: State|
                call_ensures(action.callback, (data,), chosen) && result
                    == #[trigger] action.outcome(chosen),
            TransitionAction::Fixed(action) => call_ensures(action.callback, (data,), ())
                && result == Ok::<State, StateMachineError>(action.state),
        }
    }

    /// Applies the action to `data`, whichever shape it has.
    pub fn apply(&self, data: Data) -> (r: Result<State, StateMachineError>)
        requires
            self.wf(),
            self.accepts(data),
        ensures
            self.may_yield(data, r),
    {
        match self {
            TransitionAction::Dynamic(action) => action.apply(data),
            TransitionAction::Fixed(action) => Ok(action.apply(data)),
        }
    }
}

/// Fixed-action determinism: whatever two payloads a fixed action is applied
/// to, it answers with the same destination.
pub proof fn lemma_fixed_destination_ignores_payload<State: PartialEq + Copy, Data, Effect: Fn(Data)>(
    action: FixedTransitionAction<State, Data, Effect>,
    first: Data,
    second: Data,
    first_result: State,
    second_result: State,
)
    requires
        call_ensures(
            FixedTransitionAction::<State, Data, Effect>::apply,
            (&action, first),
            first_result,
        ),
        call_ensures(
            FixedTransitionAction::<State, Data, Effect>::apply,
            (&action, second),
            second_result,
        ),
    ensures
        first_result == second_result,
        first_result == action.state,
{
}

/// Dynamic-action containment: every state that a dynamic action answers with
/// is one of its expected states, and it answers with a state exactly when
/// its callback chose an expected one.
pub proof fn lemma_dynamic_result_is_expected<State: PartialEq + Copy, Data, Chooser: Fn(Data) -> State>(
    action: DynamicTransitionAction<State, Data, Chooser>,
    data: Data,
    result: Result<State, StateMachineError>,
)
    requires
        call_ensures(
            DynamicTransitionAction::<State, Data, Chooser>::apply,
            (&action, data),
            result,
        ),
    ensures
        result matches Ok(state) ==> action.expected_states@.contains(state) && call_ensures(
            action.callback,
            (data,),
            state,
        ),
        result is Err ==> result == Err::<State, StateMachineError>(
            StateMachineError::UnexpectedState,
        ) && exists|chosen: State|
            call_ensures(action.callback, (data,), chosen)
                && !#[trigger] action.expected_states@.contains(chosen),
{
    let chosen = choose|chosen: State|
        call_ensures(action.callback, (data,), chosen) && result == #[trigger] action.outcome(
            chosen,
        );
    assert(result == action.outcome(chosen));
}

} // verus!
