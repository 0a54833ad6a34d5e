use vstd::prelude::*;

use crate::screens::{screen_layout, ScreenTag, Widget};
use crate::settings::{DisplayQuality, Volume};
use crate::timer::{SplashTimer, SPLASH_NANOS};
use crate::ui::MenuButtonAction;

verus! {

/// The top-level mode of the application.
#[derive(Clone, Copy, Debug, PartialEq, Eq, Hash, Structural)]
pub enum GameState {
    Splash,
    Menu,
    Game,
    Paused,
}

/// The menu screen shown while the mode is `Menu`; `Disabled` otherwise.
#[derive(Clone, Copy, Debug, PartialEq, Eq, Hash, Structural)]
pub enum MenuState {
    Main,
    Settings,
    SettingsDisplay,
    SettingsSound,
    Disabled,
}

/// The navigation state: mode, menu screen, settings, splash countdown, and
/// whether the process was asked to exit.
#[derive(Clone, Copy, Debug, PartialEq, Eq, Structural)]
pub struct Navigation {
    pub mode: GameState,
    pub menu: MenuState,
    pub quality: DisplayQuality,
    pub volume: Volume,
    pub timer: SplashTimer,
    pub exit_requested: bool,
}

/// The screen shown in a mode and menu state, if any.
pub open spec fn screen_of(mode: GameState, menu: MenuState) -> Option<ScreenTag> {
    match mode {
        GameState::Splash => Some(ScreenTag::Splash),
        GameState::Menu => match menu {
            MenuState::Main => Some(ScreenTag::MainMenu),
            MenuState::Settings => Some(ScreenTag::SettingsMenu),
            MenuState::SettingsDisplay => Some(ScreenTag::DisplaySettings),
            MenuState::SettingsSound => Some(ScreenTag::SoundSettings),
            MenuState::Disabled => None,
        },
        GameState::Game => Some(ScreenTag::Game),
        GameState::Paused => None,
    }
}

impl Navigation {
    /// The menu state is active exactly while the mode is `Menu`, the volume
    /// is a valid level, and the splash countdown has not run out while the
    /// splash is still shown.
    pub open spec fn wf(self) -> bool {
        &&& (self.mode == GameState::Menu) == (self.menu != MenuState::Disabled)
        &&& self.volume.wf()
        &&& self.timer.wf()
        &&& self.timer.duration == SPLASH_NANOS
        &&& self.mode == GameState::Splash ==> !self.timer.is_finished()
    }

    pub open spec fn screen(self) -> Option<ScreenTag> {
        screen_of(self.mode, self.menu)
    }

    /// The entities that are alive in this state, in spawn order.
    pub open spec fn layout(self) -> Seq<crate::screens::Entity> {
        match self.screen() {
            Some(tag) => screen_layout(tag, self.quality, self.volume.0),
            None => Seq::empty(),
        }
    }

    /// The state a process starts in: the splash screen with a fresh
    /// countdown, default settings.
    pub open spec fn initial() -> Navigation {
        Navigation {
            mode: GameState::Splash,
            menu: MenuState::Disabled,
            quality: DisplayQuality::Medium,
            volume: Volume(7),
            timer: SplashTimer { duration: SPLASH_NANOS, elapsed: 0 },
            exit_requested: false,
        }
    }

    /// The state after a frame that lasted `delta` nanoseconds: only the
    /// splash counts down, and it gives way to the main menu when done.
    pub open spec fn after_tick(self, delta: u64) -> Navigation {
        if self.mode == GameState::Splash {
            let t = self.timer.after_tick(delta);
            if t.is_finished() {
                Navigation { mode: GameState::Menu, menu: MenuState::Main, timer: t, ..self }
            } else {
                Navigation { timer: t, ..self }
            }
        } else {
            self
        }
    }

    /// The state after a menu button with action `a` is clicked.
    pub open spec fn after_action(self, a: MenuButtonAction) -> Navigation {
        match a {
            MenuButtonAction::Play => Navigation {
                mode: GameState::Game,
                menu: MenuState::Disabled,
                ..self
            },
            MenuButtonAction::Settings => Navigation { menu: MenuState::Settings, ..self },
            MenuButtonAction::SettingsDisplay => Navigation {
                menu: MenuState::SettingsDisplay,
                ..self
            },
            MenuButtonAction::SettingsSound => Navigation {
                menu: MenuState::SettingsSound,
                ..self
            },
            MenuButtonAction::BackToMainMenu => Navigation { menu: MenuState::Main, ..self },
            MenuButtonAction::BackToSettings => Navigation { menu: MenuState::Settings, ..self },
            MenuButtonAction::Quit => Navigation { exit_requested: true, ..self },
        }
    }

    /// The state after a click on an entity showing `w`.
    pub open spec fn after_click(self, w: Widget) -> Navigation {
        match w {
            Widget::ActionButton(a) => self.after_action(a),
            Widget::QualityButton(q) => Navigation { quality: q, ..self },
            Widget::VolumeButton(v) => Navigation { volume: Volume(v), ..self },
            _ => self,
        }
    }

    pub fn screen_tag(&self) -> (r: Option<ScreenTag>)
        ensures
            r == self.screen(),
    {
        match self.mode {
            GameState::Splash => Some(ScreenTag::Splash),
            GameState::Menu => match self.menu {
                MenuState::Main => Some(ScreenTag::MainMenu),
                MenuState::Settings => Some(ScreenTag::SettingsMenu),
                MenuState::SettingsDisplay => Some(ScreenTag::DisplaySettings),
                MenuState::SettingsSound => Some(ScreenTag::SoundSettings),
                MenuState::Disabled => None,
            },
            GameState::Game => Some(ScreenTag::Game),
            GameState::Paused => None,
        }
    }
}

} // verus!
