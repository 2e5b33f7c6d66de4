//! A declarative state-machine engine for long-lived, replay-driven entities.
//!
//! A [`StateMachineDefinition`] is a blueprint: a transition table keyed by
//! `(from state, event)` whose entries say where the entity goes next. Every
//! function here carries a contract that Verus proves.

pub mod action;
pub mod definition;
pub mod error;
pub mod laws;
pub mod state_set;
pub mod table;
pub mod transition;

pub use action::{DynamicTransitionAction, FixedTransitionAction, TransitionAction};
pub use definition::{DefinitionModel, StateMachineDefinition};
pub use error::StateMachineError;
pub use state_set::StateSet;
pub use transition::{CommandType, EventType, Transition, TransitionEvent};
