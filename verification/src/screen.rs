//! The screens of the host, which follow one another in a fixed line, and
//! what the host is to do when it enters one.

use vstd::prelude::*;

verus! {

/// The full-screen states of the host, in the order in which they are shown.
#[derive(Debug, Clone, Copy, PartialEq, Eq, Hash, Structural)]
pub enum AppState {
    /// The title screen, on which the sequence runs.
    Title,
    MainMenu,
    Game,
    Pause,
    /// The last screen; entering it ends the program.
    End,
}

/// What the host does on entering a screen.
#[derive(Debug, Clone, Copy, PartialEq, Eq, Structural)]
pub enum EntryAction {
    /// Run the title sequence, and move on when it reports its end.
    RunSequence,
    /// Move on to the given screen at once.
    SwitchTo(AppState),
    /// Leave the program.
    Exit,
}

impl AppState {
    /// The screen that follows this one; the last has none.
    pub open spec fn following(self) -> Option<AppState> {
        match self {
            AppState::Title => Some(AppState::MainMenu),
            AppState::MainMenu => Some(AppState::Game),
            AppState::Game => Some(AppState::Pause),
            AppState::Pause => Some(AppState::End),
            AppState::End => None,
        }
    }

    /// What entering this screen asks of the host.
    pub open spec fn entry(self) -> EntryAction {
        match self {
            AppState::Title => EntryAction::RunSequence,
            AppState::End => EntryAction::Exit,
            _ => EntryAction::SwitchTo(self.following().unwrap()),
        }
    }

    /// The screen that follows this one, or `None` after the last.
    pub fn successor(self) -> (next: Option<AppState>)
        ensures
            next == self.following(),
            next.is_none() <==> self == AppState::End,
    {
        match self {
            AppState::Title => Some(AppState::MainMenu),
            AppState::MainMenu => Some(AppState::Game),
            AppState::Game => Some(AppState::Pause),
            AppState::Pause => Some(AppState::End),
            AppState::End => None,
        }
    }

    /// What the host does on entering this screen: the title screen runs the
    /// sequence, the last screen ends the program, and every screen between
    /// them hands over to the one that follows it.
    pub fn on_enter(self) -> (action: EntryAction)
        ensures
            action == self.entry(),
    {
        match self {
            AppState::Title => EntryAction::RunSequence,
            AppState::MainMenu => EntryAction::SwitchTo(AppState::Game),
            AppState::Game => EntryAction::SwitchTo(AppState::Pause),
            AppState::Pause => EntryAction::SwitchTo(AppState::End),
            AppState::End => EntryAction::Exit,
        }
    }

    /// The screen to switch to when the title sequence reports its end.
    pub fn after_sequence() -> (next: AppState)
        ensures
            Some(next) == AppState::Title.following(),
    {
        AppState::MainMenu
    }
}

impl Default for AppState {
    /// The host starts on the title screen.
    fn default() -> (state: AppState)
        ensures
            state == AppState::Title,
    {
        AppState::Title
    }
}

} // verus!
