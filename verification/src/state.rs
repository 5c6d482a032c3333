use vstd::prelude::*;
use crate::menu::ButtonInteraction;

verus! {

/// The screens of the game.
#[derive(Clone, Copy, PartialEq, Eq, Debug, Structural)]
pub enum AppState {
    TitleScreen,
    ModeSelect,
    Game,
    BossTransition,
    Settings,
    Achievements,
    DeathScreen,
    DemoComplete,
}

impl Default for AppState {
    fn default() -> (res: AppState)
        ensures
            res == AppState::TitleScreen,
    {
        AppState::TitleScreen
    }
}

/// Whether the tutorial panel is shown.
#[derive(Clone, Copy, PartialEq, Eq, Debug, Structural)]
pub struct TutorialState {
    pub visible: bool,
}

impl Default for TutorialState {
    fn default() -> (res: TutorialState)
        ensures
            res.visible,
    {
        TutorialState { visible: true }
    }
}

/// Whether entering the game continues the saved game.
#[derive(Clone, Copy, PartialEq, Eq, Debug, Structural)]
pub struct PendingGameLoad {
    pub should_load: bool,
}

impl Default for PendingGameLoad {
    fn default() -> (res: PendingGameLoad)
        ensures
            !res.should_load,
    {
        PendingGameLoad { should_load: false }
    }
}

/// The level being played.
#[derive(Clone, Copy, PartialEq, Eq, Debug, Structural)]
pub struct LevelState {
    pub current_level: u32,
}

impl Default for LevelState {
    fn default() -> (res: LevelState)
        ensures
            res.current_level == 1,
    {
        LevelState { current_level: 1 }
    }
}

/// Whether the harder mode was chosen.
#[derive(Clone, Copy, PartialEq, Eq, Debug, Structural)]
pub struct HackerMode {
    pub active: bool,
}

impl Default for HackerMode {
    fn default() -> (res: HackerMode)
        ensures
            !res.active,
    {
        HackerMode { active: false }
    }
}

/// The selected button of the menu on screen.
#[derive(Clone, Copy, PartialEq, Eq, Debug, Structural)]
pub struct MenuSelection {
    pub selected_index: usize,
}

impl Default for MenuSelection {
    fn default() -> (res: MenuSelection)
        ensures
            res.selected_index == 0,
    {
        MenuSelection { selected_index: 0 }
    }
}

/// Escape (or the gamepad's start button) opens the pause menu during the game and
/// closes it again; elsewhere it does nothing. Returns the screen to switch to.
pub fn toggle_settings_menu(current: AppState, toggle: bool) -> (res: Option<AppState>)
    ensures
        res == if toggle && current == AppState::Game {
            Some(AppState::Settings)
        } else if toggle && current == AppState::Settings {
            Some(AppState::Game)
        } else {
            None
        },
{
    if toggle {
        match current {
            AppState::Game => Some(AppState::Settings),
            AppState::Settings => Some(AppState::Game),
            _ => None,
        }
    } else {
        None
    }
}

/// What activating a menu button does.
#[derive(Clone, Copy, PartialEq, Eq, Debug, Structural)]
pub struct ScreenChange {
    /// The screen to switch to.
    pub next_state: Option<AppState>,
    /// The new value of the "continue the saved game" flag.
    pub should_load: Option<bool>,
    /// The new value of the hacker mode flag.
    pub hacker_mode: Option<bool>,
    /// Write the save of a new game: at the start, full RAM, tutorial shown, level 1,
    /// in the mode given by `hacker_mode`.
    pub fresh_save: bool,
    /// Hide the tutorial for good.
    pub hide_tutorial: bool,
    /// Leave the game.
    pub quit: bool,
}

pub open spec fn go_to(s: AppState) -> ScreenChange {
    ScreenChange {
        next_state: Some(s),
        should_load: None,
        hacker_mode: None,
        fresh_save: false,
        hide_tutorial: false,
        quit: false,
    }
}

fn change_to(s: AppState) -> (res: ScreenChange)
    ensures
        res == go_to(s),
{
    ScreenChange {
        next_state: Some(s),
        should_load: None,
        hacker_mode: None,
        fresh_save: false,
        hide_tutorial: false,
        quit: false,
    }
}

/// The buttons of the title screen.
#[derive(Clone, Copy, PartialEq, Eq, Debug, Structural)]
pub enum TitleButtonAction {
    Play,
    NewGame,
    Achievements,
    Quit,
}

impl TitleButtonAction {
    /// The position of the button on screen, top first.
    pub fn rank(&self) -> (res: u32)
        ensures
            res == match *self {
                TitleButtonAction::Play => 0u32,
                TitleButtonAction::NewGame => 1,
                TitleButtonAction::Achievements => 2,
                TitleButtonAction::Quit => 3,
            },
    {
        match self {
            TitleButtonAction::Play => 0,
            TitleButtonAction::NewGame => 1,
            TitleButtonAction::Achievements => 2,
            TitleButtonAction::Quit => 3,
        }
    }

    /// Play continues the saved game, New Game starts over, Achievements opens the
    /// list, Quit leaves.
    pub fn outcome(&self) -> (res: ScreenChange)
        ensures
            res == match *self {
                TitleButtonAction::Play => ScreenChange {
                    should_load: Some(true),
                    ..go_to(AppState::Game)
                },
                TitleButtonAction::NewGame => ScreenChange {
                    should_load: Some(false),
                    ..go_to(AppState::Game)
                },
                TitleButtonAction::Achievements => go_to(AppState::Achievements),
                TitleButtonAction::Quit => ScreenChange {
                    next_state: None,
                    quit: true,
                    ..go_to(AppState::TitleScreen)
                },
            },
    {
        match self {
            TitleButtonAction::Play => ScreenChange {
                should_load: Some(true),
                ..change_to(AppState::Game)
            },
            TitleButtonAction::NewGame => ScreenChange {
                should_load: Some(false),
                ..change_to(AppState::Game)
            },
            TitleButtonAction::Achievements => change_to(AppState::Achievements),
            TitleButtonAction::Quit => ScreenChange {
                next_state: None,
                quit: true,
                ..change_to(AppState::TitleScreen)
            },
        }
    }
}

/// The buttons of the crash screen.
#[derive(Clone, Copy, PartialEq, Eq, Debug, Structural)]
pub enum DeathScreenButtonAction {
    Respawn,
    Title,
}

impl DeathScreenButtonAction {
    /// The position of the button on screen, top first.
    pub fn rank(&self) -> (res: u32)
        ensures
            res == match *self {
                DeathScreenButtonAction::Respawn => 0u32,
                DeathScreenButtonAction::Title => 1,
            },
    {
        match self {
            DeathScreenButtonAction::Respawn => 0,
            DeathScreenButtonAction::Title => 1,
        }
    }

    /// Respawn continues from the save; Title goes back to the title screen.
    pub fn outcome(&self) -> (res: ScreenChange)
        ensures
            res == match *self {
                DeathScreenButtonAction::Respawn => ScreenChange {
                    should_load: Some(true),
                    ..go_to(AppState::Game)
                },
                DeathScreenButtonAction::Title => go_to(AppState::TitleScreen),
            },
    {
        match self {
            DeathScreenButtonAction::Respawn => ScreenChange {
                should_load: Some(true),
                ..change_to(AppState::Game)
            },
            DeathScreenButtonAction::Title => change_to(AppState::TitleScreen),
        }
    }
}

/// The buttons of the mode selection screen.
#[derive(Clone, Copy, PartialEq, Eq, Debug, Structural)]
pub enum ModeSelectButtonAction {
    Normal,
    Hacker,
    Back,
}

impl ModeSelectButtonAction {
    /// The position of the button on screen, top first.
    pub fn rank(&self) -> (res: u32)
        ensures
            res == match *self {
                ModeSelectButtonAction::Normal => 0u32,
                ModeSelectButtonAction::Hacker => 1,
                ModeSelectButtonAction::Back => 2,
            },
    {
        match self {
            ModeSelectButtonAction::Normal => 0,
            ModeSelectButtonAction::Hacker => 1,
            ModeSelectButtonAction::Back => 2,
        }
    }

    /// Either mode starts a new game in that mode and saves it; Back returns to the
    /// title screen.
    pub fn outcome(&self) -> (res: ScreenChange)
        ensures
            res == match *self {
                ModeSelectButtonAction::Normal => ScreenChange {
                    should_load: Some(false),
                    hacker_mode: Some(false),
                    fresh_save: true,
                    ..go_to(AppState::Game)
                },
                ModeSelectButtonAction::Hacker => ScreenChange {
                    should_load: Some(false),
                    hacker_mode: Some(true),
                    fresh_save: true,
                    ..go_to(AppState::Game)
                },
                ModeSelectButtonAction::Back => go_to(AppState::TitleScreen),
            },
    {
        match self {
            ModeSelectButtonAction::Normal => ScreenChange {
                should_load: Some(false),
                hacker_mode: Some(false),
                fresh_save: true,
                ..change_to(AppState::Game)
            },
            ModeSelectButtonAction::Hacker => ScreenChange {
                should_load: Some(false),
                hacker_mode: Some(true),
                fresh_save: true,
                ..change_to(AppState::Game)
            },
            ModeSelectButtonAction::Back => change_to(AppState::TitleScreen),
        }
    }
}

/// The buttons of the pause menu.
#[derive(Clone, Copy, PartialEq, Eq, Debug, Structural)]
pub enum SettingsButtonAction {
    Resume,
    Title,
    TutorialDone,
}

impl SettingsButtonAction {
    /// The position of the button on screen, top first.
    pub fn rank(&self) -> (res: u32)
        ensures
            res == match *self {
                SettingsButtonAction::Resume => 0u32,
                SettingsButtonAction::TutorialDone => 1,
                SettingsButtonAction::Title => 2,
            },
    {
        match self {
            SettingsButtonAction::Resume => 0,
            SettingsButtonAction::TutorialDone => 1,
            SettingsButtonAction::Title => 2,
        }
    }

    /// Resume returns to the game, Title to the title screen; Tutorial Done hides the
    /// tutorial and returns to the game.
    pub fn outcome(&self) -> (res: ScreenChange)
        ensures
            res == match *self {
                SettingsButtonAction::Resume => go_to(AppState::Game),
                SettingsButtonAction::Title => go_to(AppState::TitleScreen),
                SettingsButtonAction::TutorialDone => ScreenChange {
                    hide_tutorial: true,
                    ..go_to(AppState::Game)
                },
            },
    {
        match self {
            SettingsButtonAction::Resume => change_to(AppState::Game),
            SettingsButtonAction::Title => change_to(AppState::TitleScreen),
            SettingsButtonAction::TutorialDone => ScreenChange {
                hide_tutorial: true,
                ..change_to(AppState::Game)
            },
        }
    }
}

/// How a button that only reacts to the pointer is drawn.
#[derive(Clone, Copy, PartialEq, Eq, Debug, Structural)]
pub enum PointerLook {
    Hovered,
    Pressed,
    Normal,
}

/// A button of the achievements or final screen: its look, and whether it acts.
pub fn pointer_button(interaction: ButtonInteraction) -> (res: (PointerLook, bool))
    ensures
        res == match interaction {
            ButtonInteraction::Hovered => (PointerLook::Hovered, false),
            ButtonInteraction::Pressed => (PointerLook::Pressed, true),
            ButtonInteraction::Idle => (PointerLook::Normal, false),
        },
{
    match interaction {
        ButtonInteraction::Hovered => (PointerLook::Hovered, false),
        ButtonInteraction::Pressed => (PointerLook::Pressed, true),
        ButtonInteraction::Idle => (PointerLook::Normal, false),
    }
}

/// The achievements screen and the final screen both lead back to the title screen
/// when asked to.
pub fn back_to_title(requested: bool) -> (res: Option<AppState>)
    ensures
        res == if requested {
            Some(AppState::TitleScreen)
        } else {
            None
        },
{
    if requested {
        Some(AppState::TitleScreen)
    } else {
        None
    }
}

/// What ends the warning screen before the boss level: the game resumes from the save
/// (which already holds level 4).
pub fn boss_transition_done(time_up: bool) -> (res: Option<ScreenChange>)
    ensures
        res == if time_up {
            Some(ScreenChange { should_load: Some(true), ..go_to(AppState::Game) })
        } else {
            None
        },
{
    if time_up {
        Some(ScreenChange { should_load: Some(true), ..change_to(AppState::Game) })
    } else {
        None
    }
}

} // verus!
