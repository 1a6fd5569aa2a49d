use intro_sequencer::screen::{AppState, EntryAction};

#[test]
fn the_host_starts_on_the_title_screen() {
    assert_eq!(AppState::default(), AppState::Title);
}

#[test]
fn screens_follow_one_another() {
    assert_eq!(AppState::Title.successor(), Some(AppState::MainMenu));
    assert_eq!(AppState::MainMenu.successor(), Some(AppState::Game));
    assert_eq!(AppState::Game.successor(), Some(AppState::Pause));
    assert_eq!(AppState::Pause.successor(), Some(AppState::End));
    assert_eq!(AppState::End.successor(), None);
}

#[test]
fn what_entering_a_screen_asks_for() {
    assert_eq!(AppState::Title.on_enter(), EntryAction::RunSequence);
    assert_eq!(AppState::MainMenu.on_enter(), EntryAction::SwitchTo(AppState::Game));
    assert_eq!(AppState::Game.on_enter(), EntryAction::SwitchTo(AppState::Pause));
    assert_eq!(AppState::Pause.on_enter(), EntryAction::SwitchTo(AppState::End));
    assert_eq!(AppState::End.on_enter(), EntryAction::Exit);
}

#[test]
fn the_menu_follows_the_title_sequence() {
    assert_eq!(AppState::after_sequence(), AppState::MainMenu);
    assert_eq!(Some(AppState::after_sequence()), AppState::Title.successor());
}

#[test]
fn the_line_of_screens_ends_after_four_steps() {
    let mut state = AppState::default();
    let mut steps = 0;
    while let Some(next) = state.successor() {
        state = next;
        steps += 1;
    }
    assert_eq!(state, AppState::End);
    assert_eq!(steps, 4);
}
