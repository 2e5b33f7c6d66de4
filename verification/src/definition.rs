use vstd::prelude::*;
use vstd::laws_eq::obeys_concrete_eq;
use crate::action::{DynamicTransitionAction, FixedTransitionAction, TransitionAction};
use crate::error::StateMachineError;
use crate::state_set::StateSet;
use crate::table::{has_key, keys_distinct, lemma_table_keys, lemma_table_push, lemma_table_value, table_of};
use crate::transition::{CommandType, EventType, Transition, TransitionEvent};

verus! {

/// What a definition is, as mathematics: its label, its initial state, its
/// final states, the states that count as observable, and the transition
/// table as a map from key to action.
#[verifier::reject_recursive_types(State)]
#[verifier::reject_recursive_types(ExplicitEvent)]
pub struct DefinitionModel<State, ExplicitEvent, Data, Effect, Chooser> {
    pub name: Seq<char>,
    pub initial_state: State,
    pub final_states: Seq<State>,
    pub valid_event_types: Set<State>,
    pub transitions: Map<
        Transition<State, ExplicitEvent>,
        TransitionAction<State, Data, Effect, Chooser>,
    >,
}

impl<State, ExplicitEvent, Data, Effect, Chooser> DefinitionModel<
    State,
    ExplicitEvent,
    Data,
    Effect,
    Chooser,
> {
    /// No registered transition leaves a final state.
    pub open spec fn closed_under_finals(self) -> bool {
        forall|key: Transition<State, ExplicitEvent>| #[trigger]
            self.transitions.dom().contains(key) ==> !self.final_states.contains(key.from)
    }

    /// Whether `key` may be registered: not from a final state, and not a
    /// second time.
    pub open spec fn verdict(self, key: Transition<State, ExplicitEvent>) -> Result<
        (),
        StateMachineError,
    > {
        if self.final_states.contains(key.from) {
            Err(StateMachineError::TransitionFromFinalState)
        } else if self.transitions.dom().contains(key) {
            Err(StateMachineError::DuplicatedTransition)
        } else {
            Ok(())
        }
    }

    /// The definition after an attempt to register `action` under `key`: with
    /// the new entry where the attempt is allowed, unchanged where it is not.
    pub open spec fn register(
        self,
        key: Transition<State, ExplicitEvent>,
        action: TransitionAction<State, Data, Effect, Chooser>,
    ) -> Self {
        if self.verdict(key) is Ok {
            DefinitionModel { transitions: self.transitions.insert(key, action), ..self }
        } else {
            self
        }
    }

    /// The definition after the attempts `attempts`, made in order.
    pub open spec fn register_all(
        self,
        attempts: Seq<
            (Transition<State, ExplicitEvent>, TransitionAction<State, Data, Effect, Chooser>),
        >,
    ) -> Self
        decreases attempts.len(),
    {
        if attempts.len() == 0 {
            self
        } else {
            self.register_all(attempts.drop_last()).register(attempts.last().0, attempts.last().1)
        }
    }

    /// What a lookup of `key` answers: the registered action, or the error
    /// where none is registered.
    pub open spec fn lookup(self, key: Transition<State, ExplicitEvent>) -> Result<
        TransitionAction<State, Data, Effect, Chooser>,
        StateMachineError,
    > {
        if self.transitions.dom().contains(key) {
            Ok(self.transitions[key])
        } else {
            Err(StateMachineError::UnknownTransition)
        }
    }
}

/// The blueprint that every entity instance of one kind follows. It is built
/// once, by registering transitions, and only read after that.
pub struct StateMachineDefinition<State, ExplicitEvent, Data, Effect, Chooser> {
    name: String,
    initial_state: State,
    final_states: Vec<State>,
    valid_event_types: StateSet<State>,
    transitions: Vec<
        (Transition<State, ExplicitEvent>, TransitionAction<State, Data, Effect, Chooser>),
    >,
}

impl<State, ExplicitEvent, Data, Effect, Chooser> View for StateMachineDefinition<
    State,
    ExplicitEvent,
    Data,
    Effect,
    Chooser,
> {
    type V = DefinitionModel<State, ExplicitEvent, Data, Effect, Chooser>;

    closed spec fn view(&self) -> Self::V {
        DefinitionModel {
            name: self.name@,
            initial_state: self.initial_state,
            final_states: self.final_states@,
            valid_event_types: self.valid_event_types@,
            transitions: table_of(self.transitions@),
        }
    }
}

impl<
    State: PartialEq + Copy,
    ExplicitEvent: PartialEq + Copy,
    Data,
    Effect: Fn(Data),
    Chooser: Fn(Data) -> State,
> StateMachineDefinition<State, ExplicitEvent, Data, Effect, Chooser> {
    /// `==` on states and on explicit events is equality of values, no key is
    /// stored twice, no stored key leaves a final state, and every stored
    /// action is well formed.
    pub closed spec fn wf(&self) -> bool {
        &&& obeys_concrete_eq::<State>()
        &&& obeys_concrete_eq::<ExplicitEvent>()
        &&& self.valid_event_types.wf()
        &&& keys_distinct(self.transitions@)
        &&& forall|i: int|
            0 <= i < self.transitions@.len() ==> {
                &&& !self.final_states@.contains((#[trigger] self.transitions@[i]).0.from)
                &&& self.transitions@[i].1.wf()
            }
    }

    /// In a well-formed definition no registered transition leaves a final
    /// state, and every registered action is well formed.
    pub proof fn lemma_wf_table(&self)
        requires
            self.wf(),
        ensures
            self@.closed_under_finals(),
            forall|key: Transition<State, ExplicitEvent>| #[trigger]
                self@.transitions.dom().contains(key) ==> self@.transitions[key].wf(),
    {
        assert forall|key: Transition<State, ExplicitEvent>| #[trigger]
            self@.transitions.dom().contains(key) implies !self@.final_states.contains(key.from)
            && self@.transitions[key].wf() by {
            lemma_table_keys(self.transitions@, key);
            let i = choose|i: int|
                0 <= i < self.transitions@.len() && (#[trigger] self.transitions@[i]).0 == key;
            lemma_table_value(self.transitions@, i);
        }
    }

    /// A definition with no transition yet.
    pub fn new(
        name: String,
        initial_state: State,
        final_states: Vec<State>,
        valid_event_types: StateSet<State>,
    ) -> (r: Self)
        requires
            obeys_concrete_eq::<State>(),
            obeys_concrete_eq::<ExplicitEvent>(),
            valid_event_types.wf(),
        ensures
            r.wf(),
            r@ == (DefinitionModel::<State, ExplicitEvent, Data, Effect, Chooser> {
                name: name@,
                initial_state,
                final_states: final_states@,
                valid_event_types: valid_event_types@,
                transitions: Map::empty(),
            }),
    {
        StateMachineDefinition {
            name,
            initial_state,
            final_states,
            valid_event_types,
            transitions: Vec::new(),
        }
    }

    /// The diagnostic label.
    pub fn name(&self) -> (r: &String)
        ensures
            r@ == self@.name,
    {
        &self.name
    }

    /// The state in which every new entity instance starts.
    pub fn initial_state(&self) -> (r: &State)
        ensures
            *r == self@.initial_state,
    {
        &self.initial_state
    }

    /// The states that count as observable from outside.
    pub fn valid_event_types(&self) -> (r: &StateSet<State>)
        requires
            self.wf(),
        ensures
            r.wf(),
            r@ == self@.valid_event_types,
    {
        &self.valid_event_types
    }

    /// Where in the list the key `transition` is stored, if anywhere.
    fn position(&self, transition: &Transition<State, ExplicitEvent>) -> (r: Option<usize>)
        requires
            self.wf(),
        ensures
            match r {
                Some(i) => i < self.transitions@.len() && self.transitions@[i as int].0
                    == *transition,
                None => !has_key(self.transitions@, *transition),
            },
    {
        let mut i: usize = 0;
        while i < self.transitions.len()
            invariant
                i <= self.transitions.len(),
                obeys_concrete_eq::<State>(),
                obeys_concrete_eq::<ExplicitEvent>(),
                forall|j: int| 0 <= j < i ==> (#[trigger] self.transitions@[j]).0 != *transition,
            decreases self.transitions.len() - i,
        {
            if self.transitions[i].0.same(transition) {
                return Some(i);
            }
            i += 1;
        }
        None
    }

    /// The action registered for exactly this key, or the error where there
    /// is none.
    pub fn get_transition_action(&self, transition: Transition<State, ExplicitEvent>) -> (r: Result<
        &TransitionAction<State, Data, Effect, Chooser>,
        StateMachineError,
    >)
        requires
            self.wf(),
        ensures
            match r {
                Ok(action) => self@.lookup(transition) == Ok::<_, StateMachineError>(*action)
                    && action.wf(),
                Err(e) => self@.lookup(transition) == Err::<
                    TransitionAction<State, Data, Effect, Chooser>,
                    _,
                >(e),
            },
    {
        proof {
            lemma_table_keys(self.transitions@, transition);
        }
        match self.position(&transition) {
            Some(i) => {
                proof {
                    lemma_table_value(self.transitions@, i as int);
                }
                Ok(&self.transitions[i].1)
            },
            None => Err(StateMachineError::UnknownTransition),
        }
    }

    /// Refuses `from` where it is a final state.
    fn check_final_state(&self, from: State) -> (r: Result<(), StateMachineError>)
        requires
            self.wf(),
        ensures
            r == if self@.final_states.contains(from) {
                Err::<(), _>(StateMachineError::TransitionFromFinalState)
            } else {
                Ok(())
            },
    {
        proof {
            reveal(obeys_concrete_eq);
        }
        let mut i: usize = 0;
        while i < self.final_states.len()
            invariant
                i <= self.final_states.len(),
                obeys_concrete_eq::<State>(),
                forall|j: int| 0 <= j < i ==> self.final_states@[j] != from,
            decreases self.final_states.len() - i,
        {
            proof {
                reveal(obeys_concrete_eq);
            }
            if self.final_states[i] == from {
                return Err(StateMachineError::TransitionFromFinalState);
            }
            i += 1;
        }
        Ok(())
    }

    /// Stores `target` under `transition` unless the key is already there.
    fn add_impl(
        &mut self,
        transition: Transition<State, ExplicitEvent>,
        target: TransitionAction<State, Data, Effect, Chooser>,
    ) -> (r: Result<(), StateMachineError>)
        requires
            old(self).wf(),
            target.wf(),
            !old(self)@.final_states.contains(transition.from),
        ensures
            final(self).wf(),
            r == old(self)@.verdict(transition),
            final(self)@ == old(self)@.register(transition, target),
    {
        proof {
            lemma_table_keys(self.transitions@, transition);
        }
        match self.position(&transition) {
            Some(_) => Err(StateMachineError::DuplicatedTransition),
            None => {
                proof {
                    lemma_table_push(self.transitions@, transition, target);
                }
                self.transitions.push((transition, target));
                Ok(())
            },
        }
    }

    /// Registers `action` for leaving `from` on `event`. The attempt is
    /// refused, and the definition left as it was, where `from` is a final
    /// state or the key is already registered.
    pub fn add_transition(
        &mut self,
        from: State,
        event: TransitionEvent<ExplicitEvent>,
        action: TransitionAction<State, Data, Effect, Chooser>,
    ) -> (r: Result<(), StateMachineError>)
        requires
            old(self).wf(),
            action.wf(),
        ensures
            final(self).wf(),
            r == old(self)@.verdict(Transition { from, event }),
            final(self)@ == old(self)@.register(Transition { from, event }, action),
    {
        match self.check_final_state(from) {
            Err(e) => Err(e),
            Ok(()) => self.add_impl(Transition::new(from, event), action),
        }
    }

    /// Registers a fixed transition from `from` to `to` on the explicit event
    /// `explicit_event`, with `action` as its callback.
    pub fn add_explicit(
        &mut self,
        from: State,
        explicit_event: ExplicitEvent,
        to: State,
        action: Effect,
    ) -> (r: Result<(), StateMachineError>)
        requires
            old(self).wf(),
        ensures
            final(self).wf(),
            r == old(self)@.verdict(
                Transition { from, event: TransitionEvent::Explicit(explicit_event) },
            ),
            final(self)@ == old(self)@.register(
                Transition { from, event: TransitionEvent::Explicit(explicit_event) },
                TransitionAction::Fixed(FixedTransitionAction::new(action, to)),
            ),
    {
        let fixed = FixedTransitionAction::new(action, to);
        self.add_transition(
            from,
            TransitionEvent::Explicit(explicit_event),
            TransitionAction::Fixed(fixed),
        )
    }

    /// Registers a dynamic transition from `from` on the explicit event `explicit_event`: `action` chooses
    /// the destination among `expected_states`.
    pub fn add_explicit_dynamic(
        &mut self,
        from: State,
        explicit_event: ExplicitEvent,
        expected_states: StateSet<State>,
        action: Chooser,
    ) -> (r: Result<(), StateMachineError>)
        requires
            old(self).wf(),
            expected_states.wf(),
        ensures
            final(self).wf(),
            r == old(self)@.verdict(Transition { from, event: TransitionEvent::Explicit(explicit_event) }),
            final(self)@ == old(self)@.register(
                Transition { from, event: TransitionEvent::Explicit(explicit_event) },
                TransitionAction::Dynamic(DynamicTransitionAction::new(action, expected_states)),
            ),
    {
        let dynamic = DynamicTransitionAction::new(action, expected_states);
        self.add_transition(
            from,
            TransitionEvent::Explicit(explicit_event),
            TransitionAction::Dynamic(dynamic),
        )
    }

    /// Registers a fixed transition from `from` to `to` on the history event `event_type`, with
    /// `action` as its callback.
    pub fn add_history(
        &mut self,
        from: State,
        event_type: EventType,
        to: State,
        action: Effect,
    ) -> (r: Result<(), StateMachineError>)
        requires
            old(self).wf(),
        ensures
            final(self).wf(),
            r == old(self)@.verdict(Transition { from, event: TransitionEvent::History(event_type) }),
            final(self)@ == old(self)@.register(
                Transition { from, event: TransitionEvent::History(event_type) },
                TransitionAction::Fixed(FixedTransitionAction::new(action, to)),
            ),
    {
        let fixed = FixedTransitionAction::new(action, to);
        self.add_transition(from, TransitionEvent::History(event_type), TransitionAction::Fixed(fixed))
    }

    /// Registers a dynamic transition from `from` on the history event `event_type`: `action` chooses
    /// the destination among `expected_states`.
    pub fn add_history_dynamic(
        &mut self,
        from: State,
        event_type: EventType,
        expected_states: StateSet<State>,
        action: Chooser,
    ) -> (r: Result<(), StateMachineError>)
        requires
            old(self).wf(),
            expected_states.wf(),
        ensures
            final(self).wf(),
            r == old(self)@.verdict(Transition { from, event: TransitionEvent::History(event_type) }),
            final(self)@ == old(self)@.register(
                Transition { from, event: TransitionEvent::History(event_type) },
                TransitionAction::Dynamic(DynamicTransitionAction::new(action, expected_states)),
            ),
    {
        let dynamic = DynamicTransitionAction::new(action, expected_states);
        self.add_transition(
            from,
            TransitionEvent::History(event_type),
            TransitionAction::Dynamic(dynamic),
        )
    }

    /// Registers a fixed transition from `from` to `to` on the command `command_type`, with
    /// `action` as its callback.
    pub fn add_command(
        &mut self,
        from: State,
        command_type: CommandType,
        to: State,
        action: Effect,
    ) -> (r: Result<(), StateMachineError>)
        requires
            old(self).wf(),
        ensures
            final(self).wf(),
            r == old(self)@.verdict(Transition { from, event: TransitionEvent::Command(command_type) }),
            final(self)@ == old(self)@.register(
                Transition { from, event: TransitionEvent::Command(command_type) },
                TransitionAction::Fixed(FixedTransitionAction::new(action, to)),
            ),
    {
        let fixed = FixedTransitionAction::new(action, to);
        self.add_transition(from, TransitionEvent::Command(command_type), TransitionAction::Fixed(fixed))
    }

    /// Registers a dynamic transition from `from` on the command `command_type`: `action` chooses
    /// the destination among `expected_states`.
    pub fn add_command_dynamic(
        &mut self,
        from: State,
        command_type: CommandType,
        expected_states: StateSet<State>,
        action: Chooser,
    ) -> (r: Result<(), StateMachineError>)
        requires
            old(self).wf(),
            expected_states.wf(),
        ensures
            final(self).wf(),
            r == old(self)@.verdict(Transition { from, event: TransitionEvent::Command(command_type) }),
            final(self)@ == old(self)@.register(
                Transition { from, event: TransitionEvent::Command(command_type) },
                TransitionAction::Dynamic(DynamicTransitionAction::new(action, expected_states)),
            ),
    {
        let dynamic = DynamicTransitionAction::new(action, expected_states);
        self.add_transition(
            from,
            TransitionEvent::Command(command_type),
            TransitionAction::Dynamic(dynamic),
        )
    }

    /// One step of an entity instance that is in `current`: looks up the
    /// action for `(current, event)` and applies it to `data`. The answer is
    /// the instance's next state.
    pub fn step(&self, current: State, event: TransitionEvent<ExplicitEvent>, data: Data) -> (r:
        Result<State, StateMachineError>)
        requires
            self.wf(),
            self@.lookup(Transition { from: current, event }) matches Ok(action) ==> action.accepts(
                data,
            ),
        ensures
            match self@.lookup(Transition { from: current, event }) {
                Ok(action) => action.may_yield(data, r),
                Err(e) => r == Err::<State, _>(e),
            },
    {
        match self.get_transition_action(Transition::new(current, event)) {
            Ok(action) => action.apply(data),
            Err(e) => Err(e),
        }
    }
}

} // verus!
