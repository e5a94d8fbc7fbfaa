use dataman::controller::input::{Event, InputMode, StateMachine};

#[test]
fn test_state_machine() {
    let mut state_machine = StateMachine::new();
    assert_eq!(state_machine.get_state(), InputMode::Normal);

    state_machine.transition(Event::StartEditing).unwrap();
    assert_eq!(state_machine.get_state(), InputMode::Editing);

    state_machine.transition(Event::AbortEditing).unwrap();
    assert_eq!(state_machine.get_state(), InputMode::Abort);

    // should error
    let result = state_machine.transition(Event::FinishEditing);
    assert!(result.is_err());
    assert_eq!(state_machine.get_state(), InputMode::Abort);

    state_machine.transition(Event::Reset).unwrap();
    assert_eq!(state_machine.get_state(), InputMode::Normal);

    state_machine.transition(Event::StartEditing).unwrap();
    assert_eq!(state_machine.get_state(), InputMode::Editing);

    state_machine.transition(Event::UseExternalEditor).unwrap();
    assert_eq!(state_machine.get_state(), InputMode::ExternalEditor);

    let result = state_machine.transition(Event::AbortEditing);
    assert!(result.is_err());
    assert_eq!(state_machine.get_state(), InputMode::ExternalEditor);

    state_machine.transition(Event::ExitExternalEditor).unwrap();
    assert_eq!(state_machine.get_state(), InputMode::Editing);

    state_machine.transition(Event::FinishEditing).unwrap();
    assert_eq!(state_machine.get_state(), InputMode::Finish);
}

#[test]
fn normal_mode_only_accepts_start_editing() {
    let events = [
        Event::AbortEditing,
        Event::FinishEditing,
        Event::UseExternalEditor,
        Event::ExitExternalEditor,
        Event::Reset,
    ];
    for event in events {
        let mut machine = StateMachine::new();
        assert_eq!(machine.transition(event), Err("Invalid state change"));
        assert_eq!(machine.get_state(), InputMode::Normal);
    }
}

#[test]
fn external_editor_round_trip_returns_to_editing() {
    let mut machine = StateMachine::new();
    machine.transition(Event::StartEditing).unwrap();
    machine.transition(Event::UseExternalEditor).unwrap();
    machine.transition(Event::ExitExternalEditor).unwrap();
    assert_eq!(machine.get_state(), InputMode::Editing);
}

#[test]
fn finished_edit_resets_to_normal() {
    let mut machine = StateMachine::new();
    machine.transition(Event::StartEditing).unwrap();
    machine.transition(Event::FinishEditing).unwrap();
    assert!(machine.transition(Event::StartEditing).is_err());
    machine.transition(Event::Reset).unwrap();
    assert_eq!(machine.get_state(), InputMode::Normal);
}
