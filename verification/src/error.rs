use vstd::prelude::*;

verus! {

/// Why the engine refused a registration, a lookup or the outcome of an action.
///
/// None of these is transient: each one reports a defect in the table or in
/// the events fed to it, so trying again gives the same answer.
#[derive(PartialEq, Eq, Structural, Clone, Copy, Debug, Hash)]
pub enum StateMachineError {
    /// A transition was registered whose origin is a final state.
    TransitionFromFinalState,
    /// A transition was registered under a key that the table already holds.
    DuplicatedTransition,
    /// A dynamic action computed a state outside its declared expected states.
    UnexpectedState,
    /// No transition is registered for the `(state, event)` pair looked up.
    UnknownTransition,
}

impl StateMachineError {
    /// Whether the error reports a defect in the definition itself, as opposed
    /// to an event that the entity was never designed to receive.
    pub open spec fn spec_is_definition_violation(&self) -> bool {
        *self != StateMachineError::UnknownTransition
    }

    /// Whether the error reports a defect in the definition itself, as opposed
    /// to an event that the entity was never designed to receive.
    #[verifier::when_used_as_spec(spec_is_definition_violation)]
    pub fn is_definition_violation(&self) -> (r: bool)
        ensures
            r == self.spec_is_definition_violation(),
    {
        match self {
            StateMachineError::UnknownTransition => false,
            _ => true,
        }
    }
}

} // verus!
