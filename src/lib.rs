//! Screen navigation for a small 3D game client: a splash screen that counts
//! down, a main menu with nested settings screens, and the game itself.
//!
//! The engine that draws and runs the game stays outside this library. Here
//! live the rules: which mode and menu screen are active, how a click or a
//! frame tick moves between them, which widgets each screen spawns, and how
//! the settings are chosen. Every entity spawned for a screen carries that
//! screen's tag and is despawned when the screen is left.

mod laws;
mod screens;
mod settings;
mod states;
mod timer;
mod ui;
mod world;

pub use laws::{
    lemma_no_leaked_entities, lemma_one_screen_alive, lemma_play_enters_game,
    lemma_quality_choice_marks_one, lemma_reselect_is_noop, lemma_splash_countdown,
    lemma_splash_left_once, lemma_total_grows, lemma_volume_choice_marks_one, run_ticks, total,
};
pub use screens::{
    despawn_screen, display_settings_menu_setup, game_setup, main_menu_setup, quality_slot,
    settings_menu_setup, sound_setting_menu_setup, spawn_screen, splash_setup, volume_slot, Entity,
    ScreenTag, Widget,
};
pub use settings::{default_quality, default_volume, DisplayQuality, Volume, VOLUME_LEVELS};
pub use states::{GameState, MenuState, Navigation};
pub use timer::{SplashTimer, SPLASH_NANOS};
pub use ui::{button_color, ButtonColor, Interaction, MenuButtonAction};
pub use world::World;
