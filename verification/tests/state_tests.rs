use code_termination::menu::ButtonInteraction;
use code_termination::state::{
    back_to_title, boss_transition_done, pointer_button, toggle_settings_menu, AppState,
    DeathScreenButtonAction, HackerMode, LevelState, MenuSelection, ModeSelectButtonAction,
    PendingGameLoad, PointerLook, SettingsButtonAction, TitleButtonAction, TutorialState,
};

#[test]
fn defaults() {
    assert_eq!(AppState::default(), AppState::TitleScreen);
    assert!(TutorialState::default().visible);
    assert!(!PendingGameLoad::default().should_load);
    assert_eq!(LevelState::default().current_level, 1);
    assert!(!HackerMode::default().active);
    assert_eq!(MenuSelection::default().selected_index, 0);
}

#[test]
fn escape_toggles_pause() {
    assert_eq!(toggle_settings_menu(AppState::Game, true), Some(AppState::Settings));
    assert_eq!(toggle_settings_menu(AppState::Settings, true), Some(AppState::Game));
    assert_eq!(toggle_settings_menu(AppState::TitleScreen, true), None);
    assert_eq!(toggle_settings_menu(AppState::Game, false), None);
}

#[test]
fn title_buttons() {
    let play = TitleButtonAction::Play.outcome();
    assert_eq!(play.next_state, Some(AppState::Game));
    assert_eq!(play.should_load, Some(true));
    let new = TitleButtonAction::NewGame.outcome();
    assert_eq!(new.next_state, Some(AppState::Game));
    assert_eq!(new.should_load, Some(false));
    assert_eq!(TitleButtonAction::Achievements.outcome().next_state, Some(AppState::Achievements));
    let quit = TitleButtonAction::Quit.outcome();
    assert!(quit.quit);
    assert_eq!(quit.next_state, None);
    assert_eq!(TitleButtonAction::Play.rank(), 0);
    assert_eq!(TitleButtonAction::Quit.rank(), 3);
}

#[test]
fn death_buttons() {
    let r = DeathScreenButtonAction::Respawn.outcome();
    assert_eq!(r.next_state, Some(AppState::Game));
    assert_eq!(r.should_load, Some(true));
    assert_eq!(DeathScreenButtonAction::Title.outcome().next_state, Some(AppState::TitleScreen));
    assert_eq!(DeathScreenButtonAction::Title.rank(), 1);
}

#[test]
fn mode_buttons() {
    let n = ModeSelectButtonAction::Normal.outcome();
    assert_eq!(n.hacker_mode, Some(false));
    assert!(n.fresh_save);
    assert_eq!(n.should_load, Some(false));
    assert_eq!(n.next_state, Some(AppState::Game));
    let h = ModeSelectButtonAction::Hacker.outcome();
    assert_eq!(h.hacker_mode, Some(true));
    assert!(h.fresh_save);
    let b = ModeSelectButtonAction::Back.outcome();
    assert_eq!(b.next_state, Some(AppState::TitleScreen));
    assert!(!b.fresh_save);
}

#[test]
fn settings_buttons() {
    assert_eq!(SettingsButtonAction::Resume.outcome().next_state, Some(AppState::Game));
    assert_eq!(SettingsButtonAction::Title.outcome().next_state, Some(AppState::TitleScreen));
    let t = SettingsButtonAction::TutorialDone.outcome();
    assert!(t.hide_tutorial);
    assert_eq!(t.next_state, Some(AppState::Game));
    assert_eq!(SettingsButtonAction::TutorialDone.rank(), 1);
    assert_eq!(SettingsButtonAction::Title.rank(), 2);
}

#[test]
fn pointer_buttons() {
    assert_eq!(pointer_button(ButtonInteraction::Pressed), (PointerLook::Pressed, true));
    assert_eq!(pointer_button(ButtonInteraction::Hovered), (PointerLook::Hovered, false));
    assert_eq!(pointer_button(ButtonInteraction::Idle), (PointerLook::Normal, false));
    assert_eq!(back_to_title(true), Some(AppState::TitleScreen));
    assert_eq!(back_to_title(false), None);
}

#[test]
fn boss_warning_ends_in_game() {
    let c = boss_transition_done(true).unwrap();
    assert_eq!(c.next_state, Some(AppState::Game));
    assert_eq!(c.should_load, Some(true));
    assert!(boss_transition_done(false).is_none());
}
