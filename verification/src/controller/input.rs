use vstd::prelude::*;

verus! {

/// The mode of the input line.
#[derive(Debug, Clone, Copy, PartialEq, Eq, Structural)]
pub enum InputMode {
    Normal,
    Editing,
    Abort,
    Finish,
    ExternalEditor,
}

/// What happens to the input line.
#[derive(Debug, Clone, Copy, PartialEq, Eq, Structural)]
pub enum Event {
    StartEditing,
    AbortEditing,
    FinishEditing,
    UseExternalEditor,
    ExitExternalEditor,
    Reset,
}

/// The state that `event` leads to from `state`, or `None` where the change is not allowed.
pub open spec fn next_mode(state: InputMode, event: Event) -> Option<InputMode> {
    match (state, event) {
        (InputMode::Normal, Event::StartEditing) => Some(InputMode::Editing),
        (InputMode::Editing, Event::AbortEditing) => Some(InputMode::Abort),
        (InputMode::Editing, Event::FinishEditing) => Some(InputMode::Finish),
        (InputMode::Editing, Event::UseExternalEditor) => Some(InputMode::ExternalEditor),
        (InputMode::ExternalEditor, Event::ExitExternalEditor) => Some(InputMode::Editing),
        (InputMode::Abort, Event::Reset) => Some(InputMode::Normal),
        (InputMode::Finish, Event::Reset) => Some(InputMode::Normal),
        _ => None,
    }
}

/// The state machine of the input line.
#[derive(Debug)]
pub struct StateMachine {
    state: InputMode,
}

impl StateMachine {
    /// The current mode, as a spec value.
    pub closed spec fn mode(&self) -> InputMode {
        self.state
    }

    pub fn new() -> (m: Self)
        ensures
            m.mode() == InputMode::Normal,
    {
        StateMachine { state: InputMode::Normal }
    }

    /// Moves to the state that `event` leads to. A change that is not allowed is
    /// refused with an error and leaves the state as it was.
    pub fn transition(&mut self, event: Event) -> (r: Result<(), &str>)
        ensures
            match next_mode(old(self).mode(), event) {
                Some(next) => r is Ok && final(self).mode() == next,
                None => (r matches Err(m) && m@ == "Invalid state change"@) && final(self).mode()
                    == old(self).mode(),
            },
    {
        let next = match (self.state, event) {
            (InputMode::Normal, Event::StartEditing) => InputMode::Editing,
            (InputMode::Editing, Event::AbortEditing) => InputMode::Abort,
            (InputMode::Editing, Event::FinishEditing) => InputMode::Finish,
            (InputMode::Editing, Event::UseExternalEditor) => InputMode::ExternalEditor,
            (InputMode::ExternalEditor, Event::ExitExternalEditor) => InputMode::Editing,
            (InputMode::Abort, Event::Reset) => InputMode::Normal,
            (InputMode::Finish, Event::Reset) => InputMode::Normal,
            _ => return Err("Invalid state change"),
        };
        self.state = next;
        Ok(())
    }

    pub fn get_state(&self) -> (m: InputMode)
        ensures
            m == self.mode(),
    {
        self.state
    }
}

/// Nothing but `StartEditing` leaves `Normal`.
pub proof fn lemma_normal_only_starts_editing(event: Event)
    ensures
        next_mode(InputMode::Normal, event) is Some <==> event == Event::StartEditing,
{
}

/// From any mode: going out to the external editor and coming back returns to that
/// mode, and an edit that is aborted or finished is reset to `Normal`.
pub proof fn lemma_editing_cycle(state: InputMode)
    ensures
        next_mode(state, Event::UseExternalEditor) matches Some(s) ==> next_mode(
            s,
            Event::ExitExternalEditor,
        ) == Some(state),
        next_mode(state, Event::AbortEditing) matches Some(s) ==> next_mode(s, Event::Reset) == Some(
            InputMode::Normal,
        ),
        next_mode(state, Event::FinishEditing) matches Some(s) ==> next_mode(s, Event::Reset) == Some(
            InputMode::Normal,
        ),
{
}

} // verus!
