use std::cell::RefCell;
use std::rc::Rc;

use entity_statemachine::{
    CommandType, DynamicTransitionAction, EventType, FixedTransitionAction, StateMachineDefinition,
    StateMachineError, StateSet, Transition, TransitionAction, TransitionEvent,
};

#[derive(PartialEq, Eq, Clone, Copy, Debug, Hash)]
enum Stage {
    Created,
    Scheduled,
    Completed,
    Failed,
}

#[derive(PartialEq, Eq, Clone, Copy, Debug, Hash)]
enum Trigger {
    Schedule,
    Cancel,
}

const TASK_COMPLETED: EventType = EventType(7);
const TASK_FAILED: EventType = EventType(9);
const SCHEDULE_TASK: CommandType = CommandType(1);

type Effect = fn(u32);
type Chooser = fn(u32) -> Stage;
type Definition = StateMachineDefinition<Stage, Trigger, u32, Effect, Chooser>;

fn ignore(_data: u32) {}

fn to_completed(_data: u32) -> Stage {
    Stage::Completed
}

fn to_failed(_data: u32) -> Stage {
    Stage::Failed
}

fn by_payload(data: u32) -> Stage {
    if data == 0 {
        Stage::Completed
    } else {
        Stage::Failed
    }
}

fn set_of(states: &[Stage]) -> StateSet<Stage> {
    let mut set = StateSet::new();
    for s in states {
        set.insert(*s);
    }
    set
}

fn blueprint() -> Definition {
    StateMachineDefinition::new(
        String::from("activity"),
        Stage::Created,
        vec![Stage::Completed],
        set_of(&[Stage::Scheduled, Stage::Completed]),
    )
}

fn destination(
    def: &Definition,
    from: Stage,
    event: TransitionEvent<Trigger>,
    data: u32,
) -> Result<Stage, StateMachineError> {
    def.get_transition_action(Transition::new(from, event))?.apply(data)
}

#[test]
fn accessors_report_what_was_given() {
    let def = blueprint();
    assert_eq!(def.name(), "activity");
    assert_eq!(*def.initial_state(), Stage::Created);
    let valid = def.valid_event_types();
    assert_eq!(valid.len(), 2);
    assert!(valid.contains(&Stage::Scheduled));
    assert!(valid.contains(&Stage::Completed));
    assert!(!valid.contains(&Stage::Created));
}

#[test]
fn fresh_definition_knows_no_transition() {
    let def = blueprint();
    let key = Transition::new(Stage::Created, TransitionEvent::Explicit(Trigger::Schedule));
    assert!(matches!(
        def.get_transition_action(key),
        Err(StateMachineError::UnknownTransition)
    ));
}

#[test]
fn registered_transition_is_found_with_its_action() {
    let mut def = blueprint();
    assert_eq!(
        def.add_explicit(Stage::Created, Trigger::Schedule, Stage::Scheduled, ignore),
        Ok(())
    );
    let key = Transition::new(Stage::Created, TransitionEvent::Explicit(Trigger::Schedule));
    match def.get_transition_action(key) {
        Ok(TransitionAction::Fixed(action)) => {
            assert_eq!(action.state, Stage::Scheduled);
            assert_eq!(action.apply(5), Stage::Scheduled);
        }
        _ => panic!("a fixed action was registered"),
    }
}

#[test]
fn registration_leaves_other_keys_alone() {
    let mut def = blueprint();
    def.add_explicit(Stage::Created, Trigger::Schedule, Stage::Scheduled, ignore).unwrap();
    def.add_explicit(Stage::Scheduled, Trigger::Cancel, Stage::Failed, ignore).unwrap();
    assert_eq!(
        destination(&def, Stage::Created, TransitionEvent::Explicit(Trigger::Schedule), 0),
        Ok(Stage::Scheduled)
    );
    assert_eq!(
        destination(&def, Stage::Scheduled, TransitionEvent::Explicit(Trigger::Cancel), 0),
        Ok(Stage::Failed)
    );
    assert_eq!(
        destination(&def, Stage::Created, TransitionEvent::Explicit(Trigger::Cancel), 0),
        Err(StateMachineError::UnknownTransition)
    );
    assert_eq!(
        destination(&def, Stage::Scheduled, TransitionEvent::Explicit(Trigger::Schedule), 0),
        Err(StateMachineError::UnknownTransition)
    );
}

#[test]
fn second_registration_of_a_key_is_refused() {
    let mut def = blueprint();
    assert_eq!(
        def.add_explicit(Stage::Created, Trigger::Schedule, Stage::Scheduled, ignore),
        Ok(())
    );
    assert_eq!(
        def.add_explicit(Stage::Created, Trigger::Schedule, Stage::Failed, ignore),
        Err(StateMachineError::DuplicatedTransition)
    );
    assert_eq!(
        def.add_explicit_dynamic(
            Stage::Created,
            Trigger::Schedule,
            set_of(&[Stage::Failed]),
            to_failed
        ),
        Err(StateMachineError::DuplicatedTransition)
    );
    assert_eq!(
        destination(&def, Stage::Created, TransitionEvent::Explicit(Trigger::Schedule), 0),
        Ok(Stage::Scheduled)
    );
}

#[test]
fn duplicate_is_refused_after_other_registrations() {
    let mut def = blueprint();
    def.add_history(Stage::Scheduled, TASK_FAILED, Stage::Failed, ignore).unwrap();
    def.add_command(Stage::Created, SCHEDULE_TASK, Stage::Scheduled, ignore).unwrap();
    def.add_explicit(Stage::Scheduled, Trigger::Cancel, Stage::Failed, ignore).unwrap();
    assert_eq!(
        def.add_history(Stage::Scheduled, TASK_FAILED, Stage::Completed, ignore),
        Err(StateMachineError::DuplicatedTransition)
    );
    assert_eq!(
        destination(&def, Stage::Scheduled, TransitionEvent::History(TASK_FAILED), 0),
        Ok(Stage::Failed)
    );
}

#[test]
fn transition_from_final_state_is_refused() {
    let mut def = blueprint();
    assert_eq!(
        def.add_explicit(Stage::Completed, Trigger::Schedule, Stage::Scheduled, ignore),
        Err(StateMachineError::TransitionFromFinalState)
    );
    assert_eq!(
        def.add_history(Stage::Completed, TASK_COMPLETED, Stage::Failed, ignore),
        Err(StateMachineError::TransitionFromFinalState)
    );
    assert_eq!(
        def.add_command_dynamic(
            Stage::Completed,
            SCHEDULE_TASK,
            set_of(&[Stage::Failed]),
            to_failed
        ),
        Err(StateMachineError::TransitionFromFinalState)
    );
    assert_eq!(
        destination(&def, Stage::Completed, TransitionEvent::Explicit(Trigger::Schedule), 0),
        Err(StateMachineError::UnknownTransition)
    );
    assert_eq!(
        destination(&def, Stage::Completed, TransitionEvent::History(TASK_COMPLETED), 0),
        Err(StateMachineError::UnknownTransition)
    );
    assert_eq!(
        destination(&def, Stage::Completed, TransitionEvent::Command(SCHEDULE_TASK), 0),
        Err(StateMachineError::UnknownTransition)
    );
}

#[test]
fn final_state_is_reported_before_duplicate() {
    let mut def: Definition = StateMachineDefinition::new(
        String::from("twice"),
        Stage::Created,
        vec![Stage::Failed, Stage::Completed],
        StateSet::new(),
    );
    assert_eq!(
        def.add_explicit(Stage::Failed, Trigger::Cancel, Stage::Created, ignore),
        Err(StateMachineError::TransitionFromFinalState)
    );
    assert_eq!(
        def.add_explicit(Stage::Failed, Trigger::Cancel, Stage::Created, ignore),
        Err(StateMachineError::TransitionFromFinalState)
    );
}

#[test]
fn the_three_origins_are_different_keys() {
    let mut def: StateMachineDefinition<Stage, i32, u32, Effect, Chooser> =
        StateMachineDefinition::new(
            String::from("origins"),
            Stage::Created,
            Vec::new(),
            StateSet::new(),
        );
    assert_eq!(def.add_explicit(Stage::Created, 1, Stage::Scheduled, ignore), Ok(()));
    assert_eq!(def.add_history(Stage::Created, EventType(1), Stage::Completed, ignore), Ok(()));
    assert_eq!(def.add_command(Stage::Created, CommandType(1), Stage::Failed, ignore), Ok(()));
    assert_eq!(def.step(Stage::Created, TransitionEvent::Explicit(1), 0), Ok(Stage::Scheduled));
    assert_eq!(
        def.step(Stage::Created, TransitionEvent::History(EventType(1)), 0),
        Ok(Stage::Completed)
    );
    assert_eq!(
        def.step(Stage::Created, TransitionEvent::Command(CommandType(1)), 0),
        Ok(Stage::Failed)
    );
    assert_eq!(
        def.step(Stage::Created, TransitionEvent::History(EventType(2)), 0),
        Err(StateMachineError::UnknownTransition)
    );
}

#[test]
fn add_transition_registers_either_shape() {
    let mut def = blueprint();
    let fixed: TransitionAction<Stage, u32, Effect, Chooser> =
        TransitionAction::Fixed(FixedTransitionAction::new(ignore, Stage::Scheduled));
    let dynamic: TransitionAction<Stage, u32, Effect, Chooser> = TransitionAction::Dynamic(
        DynamicTransitionAction::new(by_payload, set_of(&[Stage::Completed, Stage::Failed])),
    );
    assert_eq!(
        def.add_transition(Stage::Created, TransitionEvent::Command(SCHEDULE_TASK), fixed),
        Ok(())
    );
    assert_eq!(
        def.add_transition(Stage::Scheduled, TransitionEvent::History(TASK_COMPLETED), dynamic),
        Ok(())
    );
    assert_eq!(
        def.step(Stage::Created, TransitionEvent::Command(SCHEDULE_TASK), 3),
        Ok(Stage::Scheduled)
    );
    assert_eq!(
        def.step(Stage::Scheduled, TransitionEvent::History(TASK_COMPLETED), 0),
        Ok(Stage::Completed)
    );
    assert_eq!(
        def.step(Stage::Scheduled, TransitionEvent::History(TASK_COMPLETED), 4),
        Ok(Stage::Failed)
    );
}

#[test]
fn dynamic_transition_outside_expected_states_fails() {
    let mut def = blueprint();
    def.add_history_dynamic(
        Stage::Scheduled,
        TASK_COMPLETED,
        set_of(&[Stage::Completed]),
        to_failed,
    )
    .unwrap();
    assert_eq!(
        def.step(Stage::Scheduled, TransitionEvent::History(TASK_COMPLETED), 1),
        Err(StateMachineError::UnexpectedState)
    );
}

#[test]
fn end_to_end_scenario() {
    let mut def: Definition = StateMachineDefinition::new(
        String::from("task"),
        Stage::Created,
        vec![Stage::Completed],
        set_of(&[Stage::Created, Stage::Scheduled, Stage::Completed]),
    );
    assert_eq!(
        def.add_explicit(Stage::Created, Trigger::Schedule, Stage::Scheduled, ignore),
        Ok(())
    );
    assert_eq!(
        def.add_history_dynamic(
            Stage::Scheduled,
            TASK_COMPLETED,
            set_of(&[Stage::Completed]),
            to_completed
        ),
        Ok(())
    );

    let mut current = *def.initial_state();
    assert_eq!(current, Stage::Created);
    current = def.step(current, TransitionEvent::Explicit(Trigger::Schedule), 10).unwrap();
    assert_eq!(current, Stage::Scheduled);
    current = def.step(current, TransitionEvent::History(TASK_COMPLETED), 11).unwrap();
    assert_eq!(current, Stage::Completed);

    assert_eq!(
        def.add_explicit(Stage::Completed, Trigger::Schedule, Stage::Created, ignore),
        Err(StateMachineError::TransitionFromFinalState)
    );
    assert_eq!(
        def.add_explicit(Stage::Completed, Trigger::Cancel, Stage::Failed, ignore),
        Err(StateMachineError::TransitionFromFinalState)
    );
    assert_eq!(
        def.add_history(Stage::Completed, TASK_FAILED, Stage::Failed, ignore),
        Err(StateMachineError::TransitionFromFinalState)
    );
    assert_eq!(
        def.step(current, TransitionEvent::History(TASK_COMPLETED), 12),
        Err(StateMachineError::UnknownTransition)
    );
}

#[test]
fn replay_of_the_same_events_gives_the_same_states() {
    let mut def = blueprint();
    def.add_explicit(Stage::Created, Trigger::Schedule, Stage::Scheduled, ignore).unwrap();
    def.add_history_dynamic(
        Stage::Scheduled,
        TASK_COMPLETED,
        set_of(&[Stage::Completed, Stage::Failed]),
        by_payload,
    )
    .unwrap();
    let events = [
        (TransitionEvent::Explicit(Trigger::Schedule), 3),
        (TransitionEvent::History(TASK_COMPLETED), 0),
    ];
    let mut runs: Vec<Vec<Stage>> = Vec::new();
    for _ in 0..2 {
        let mut current = *def.initial_state();
        let mut seen = vec![current];
        for (event, data) in events {
            current = def.step(current, event, data).unwrap();
            seen.push(current);
        }
        runs.push(seen);
    }
    assert_eq!(runs[0], vec![Stage::Created, Stage::Scheduled, Stage::Completed]);
    assert_eq!(runs[0], runs[1]);
}

#[test]
fn callbacks_may_capture_their_context() {
    let log: Rc<RefCell<Vec<u32>>> = Rc::new(RefCell::new(Vec::new()));
    let sink = Rc::clone(&log);
    let mut def: StateMachineDefinition<
        Stage,
        Trigger,
        u32,
        Box<dyn Fn(u32)>,
        Box<dyn Fn(u32) -> Stage>,
    > = StateMachineDefinition::new(
        String::from("captured"),
        Stage::Created,
        vec![Stage::Completed],
        StateSet::new(),
    );
    def.add_explicit(
        Stage::Created,
        Trigger::Schedule,
        Stage::Scheduled,
        Box::new(move |data| sink.borrow_mut().push(data)),
    )
    .unwrap();
    assert_eq!(
        def.step(Stage::Created, TransitionEvent::Explicit(Trigger::Schedule), 41),
        Ok(Stage::Scheduled)
    );
    assert_eq!(
        def.step(Stage::Created, TransitionEvent::Explicit(Trigger::Schedule), 42),
        Ok(Stage::Scheduled)
    );
    assert_eq!(*log.borrow(), vec![41, 42]);
}
