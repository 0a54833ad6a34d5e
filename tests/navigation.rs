use velour::{
    button_color, despawn_screen, spawn_screen, ButtonColor, DisplayQuality, Entity, GameState,
    Interaction, MenuButtonAction, MenuState, ScreenTag, SplashTimer, Volume, Widget, World,
    SPLASH_NANOS,
};

fn click(w: &mut World, widget: Widget) {
    let i = w.find_widget(widget).expect("widget on screen");
    w.activate(i);
}

fn selected_widgets(w: &World) -> Vec<Widget> {
    w.entities.iter().filter(|e| e.selected).map(|e| e.widget).collect()
}

fn all_tagged(w: &World, tag: ScreenTag) -> bool {
    w.entities.iter().all(|e| e.tag == tag)
}

fn none_tagged(w: &World, tag: ScreenTag) -> bool {
    w.entities.iter().all(|e| e.tag != tag)
}

fn in_main_menu() -> World {
    let mut w = World::new();
    w.countdown(SPLASH_NANOS);
    w
}

#[test]
fn timer_saturates_at_duration() {
    let mut t = SplashTimer::new(100);
    assert!(!t.finished());
    t.tick(40);
    assert_eq!(t.elapsed, 40);
    assert!(!t.finished());
    t.tick(u64::MAX);
    assert_eq!(t.elapsed, 100);
    assert!(t.finished());
    t.tick(5);
    assert_eq!(t.elapsed, 100);
}

#[test]
fn button_colors_follow_table() {
    assert_eq!(button_color(Interaction::Clicked, false), ButtonColor::Pressed);
    assert_eq!(button_color(Interaction::Clicked, true), ButtonColor::Pressed);
    assert_eq!(button_color(Interaction::Idle, true), ButtonColor::Pressed);
    assert_eq!(button_color(Interaction::Hovered, true), ButtonColor::HoveredPressed);
    assert_eq!(button_color(Interaction::Hovered, false), ButtonColor::Hovered);
    assert_eq!(button_color(Interaction::Idle, false), ButtonColor::Normal);
}

#[test]
fn start_shows_splash_with_defaults() {
    let w = World::new();
    assert_eq!(w.nav.mode, GameState::Splash);
    assert_eq!(w.nav.menu, MenuState::Disabled);
    assert_eq!(w.nav.quality, DisplayQuality::Medium);
    assert_eq!(w.nav.volume, Volume(7));
    assert!(!w.nav.exit_requested);
    assert_eq!(w.entities.len(), 1);
    assert_eq!(w.entities[0].widget, Widget::Logo);
    assert!(all_tagged(&w, ScreenTag::Splash));
}

#[test]
fn splash_waits_for_a_full_second() {
    let mut w = World::new();
    w.countdown(SPLASH_NANOS - 1);
    assert_eq!(w.nav.mode, GameState::Splash);
    assert_eq!(w.nav.timer.elapsed, SPLASH_NANOS - 1);
    w.countdown(1);
    assert_eq!(w.nav.mode, GameState::Menu);
    assert_eq!(w.nav.menu, MenuState::Main);
    assert!(none_tagged(&w, ScreenTag::Splash));
    assert!(all_tagged(&w, ScreenTag::MainMenu));
}

#[test]
fn splash_accumulates_frame_times() {
    let mut w = World::new();
    for _ in 0..3 {
        w.countdown(300_000_000);
        assert_eq!(w.nav.mode, GameState::Splash);
    }
    w.countdown(100_000_000);
    assert_eq!(w.nav.mode, GameState::Menu);
}

#[test]
fn splash_is_left_only_once() {
    let mut w = in_main_menu();
    let before: Vec<Entity> = w.entities.clone();
    w.countdown(SPLASH_NANOS);
    w.countdown(5 * SPLASH_NANOS);
    assert_eq!(w.nav.mode, GameState::Menu);
    assert_eq!(w.nav.menu, MenuState::Main);
    assert_eq!(w.entities, before);
}

#[test]
fn splash_ignores_clicks() {
    let mut w = World::new();
    w.activate(0);
    w.activate(7);
    assert_eq!(w.nav.mode, GameState::Splash);
    assert_eq!(w.entities.len(), 1);
}

#[test]
fn main_menu_layout() {
    let w = in_main_menu();
    let widgets: Vec<Widget> = w.entities.iter().map(|e| e.widget).collect();
    assert_eq!(
        widgets,
        vec![
            Widget::Panel,
            Widget::Title,
            Widget::ActionButton(MenuButtonAction::Play),
            Widget::ActionButton(MenuButtonAction::Settings),
            Widget::ActionButton(MenuButtonAction::Quit),
        ]
    );
}

#[test]
fn navigation_scenario() {
    let mut w = World::new();
    w.countdown(1_000_000_000);
    assert_eq!(w.nav.mode, GameState::Menu);
    assert_eq!(w.nav.menu, MenuState::Main);

    click(&mut w, Widget::ActionButton(MenuButtonAction::Settings));
    assert_eq!(w.nav.menu, MenuState::Settings);

    click(&mut w, Widget::ActionButton(MenuButtonAction::SettingsDisplay));
    assert_eq!(w.nav.menu, MenuState::SettingsDisplay);

    click(&mut w, Widget::QualityButton(DisplayQuality::High));
    assert_eq!(w.nav.quality, DisplayQuality::High);
    assert_eq!(selected_widgets(&w), vec![Widget::QualityButton(DisplayQuality::High)]);

    click(&mut w, Widget::ActionButton(MenuButtonAction::BackToSettings));
    assert_eq!(w.nav.menu, MenuState::Settings);

    assert_eq!(w.find_widget(Widget::ActionButton(MenuButtonAction::Play)), None);
    assert_eq!(w.nav.mode, GameState::Menu);
    assert_eq!(w.nav.menu, MenuState::Settings);
}

#[test]
fn play_enters_game_and_parks_menu() {
    let mut w = in_main_menu();
    click(&mut w, Widget::ActionButton(MenuButtonAction::Play));
    assert_eq!(w.nav.mode, GameState::Game);
    assert_eq!(w.nav.menu, MenuState::Disabled);
    let widgets: Vec<Widget> = w.entities.iter().map(|e| e.widget).collect();
    assert_eq!(widgets, vec![Widget::Ground, Widget::Light]);
    assert!(none_tagged(&w, ScreenTag::MainMenu));
    assert!(all_tagged(&w, ScreenTag::Game));
}

#[test]
fn quit_requests_exit() {
    let mut w = in_main_menu();
    click(&mut w, Widget::ActionButton(MenuButtonAction::Quit));
    assert!(w.nav.exit_requested);
    assert_eq!(w.nav.mode, GameState::Menu);
    assert_eq!(w.nav.menu, MenuState::Main);
}

#[test]
fn back_to_main_menu_from_settings() {
    let mut w = in_main_menu();
    click(&mut w, Widget::ActionButton(MenuButtonAction::Settings));
    assert!(all_tagged(&w, ScreenTag::SettingsMenu));
    click(&mut w, Widget::ActionButton(MenuButtonAction::BackToMainMenu));
    assert_eq!(w.nav.menu, MenuState::Main);
    assert!(none_tagged(&w, ScreenTag::SettingsMenu));
    assert!(all_tagged(&w, ScreenTag::MainMenu));
}

#[test]
fn display_screen_marks_current_quality() {
    let mut w = in_main_menu();
    click(&mut w, Widget::ActionButton(MenuButtonAction::Settings));
    click(&mut w, Widget::ActionButton(MenuButtonAction::SettingsDisplay));
    assert_eq!(w.entities.len(), 5);
    assert_eq!(selected_widgets(&w), vec![Widget::QualityButton(DisplayQuality::Medium)]);
}

#[test]
fn reselecting_quality_changes_nothing() {
    let mut w = in_main_menu();
    click(&mut w, Widget::ActionButton(MenuButtonAction::Settings));
    click(&mut w, Widget::ActionButton(MenuButtonAction::SettingsDisplay));
    let before: Vec<Entity> = w.entities.clone();
    let nav = w.nav;
    click(&mut w, Widget::QualityButton(DisplayQuality::Medium));
    assert_eq!(w.entities, before);
    assert_eq!(w.nav, nav);
}

#[test]
fn quality_choice_survives_navigation() {
    let mut w = in_main_menu();
    click(&mut w, Widget::ActionButton(MenuButtonAction::Settings));
    click(&mut w, Widget::ActionButton(MenuButtonAction::SettingsDisplay));
    click(&mut w, Widget::QualityButton(DisplayQuality::Low));
    click(&mut w, Widget::ActionButton(MenuButtonAction::BackToSettings));
    click(&mut w, Widget::ActionButton(MenuButtonAction::SettingsDisplay));
    assert_eq!(w.nav.quality, DisplayQuality::Low);
    assert_eq!(selected_widgets(&w), vec![Widget::QualityButton(DisplayQuality::Low)]);
}

#[test]
fn sound_screen_selects_volume() {
    let mut w = in_main_menu();
    click(&mut w, Widget::ActionButton(MenuButtonAction::Settings));
    click(&mut w, Widget::ActionButton(MenuButtonAction::SettingsSound));
    assert_eq!(w.nav.menu, MenuState::SettingsSound);
    assert_eq!(w.entities.len(), 12);
    assert_eq!(selected_widgets(&w), vec![Widget::VolumeButton(7)]);

    click(&mut w, Widget::VolumeButton(0));
    assert_eq!(w.nav.volume, Volume(0));
    assert_eq!(selected_widgets(&w), vec![Widget::VolumeButton(0)]);

    let before: Vec<Entity> = w.entities.clone();
    click(&mut w, Widget::VolumeButton(0));
    assert_eq!(w.entities, before);
    assert_eq!(w.nav.volume, Volume(0));

    click(&mut w, Widget::VolumeButton(9));
    assert_eq!(w.nav.volume, Volume(9));
    assert_eq!(selected_widgets(&w), vec![Widget::VolumeButton(9)]);

    click(&mut w, Widget::ActionButton(MenuButtonAction::BackToSettings));
    assert_eq!(w.nav.menu, MenuState::Settings);
    assert!(none_tagged(&w, ScreenTag::SoundSettings));
}

#[test]
fn clicks_off_buttons_change_nothing() {
    let mut w = in_main_menu();
    let before: Vec<Entity> = w.entities.clone();
    let nav = w.nav;
    w.activate(0);
    w.activate(1);
    w.activate(99);
    assert_eq!(w.entities, before);
    assert_eq!(w.nav, nav);
}

#[test]
fn despawn_keeps_other_tags_in_order() {
    let e = |tag: ScreenTag, widget: Widget| Entity { tag, widget, selected: false };
    let mut entities = vec![
        e(ScreenTag::Splash, Widget::Logo),
        e(ScreenTag::Game, Widget::Ground),
        e(ScreenTag::Splash, Widget::Title),
        e(ScreenTag::Game, Widget::Light),
    ];
    despawn_screen(&mut entities, ScreenTag::Splash);
    assert_eq!(entities, vec![e(ScreenTag::Game, Widget::Ground), e(ScreenTag::Game, Widget::Light)]);
    despawn_screen(&mut entities, ScreenTag::Game);
    assert!(entities.is_empty());
}

#[test]
fn spawn_sound_screen_layout() {
    let mut entities: Vec<Entity> = Vec::new();
    spawn_screen(&mut entities, ScreenTag::SoundSettings, DisplayQuality::High, Volume(3));
    assert_eq!(entities.len(), 12);
    assert_eq!(entities[0].widget, Widget::Panel);
    for level in 0..10u32 {
        let e = entities[1 + level as usize];
        assert_eq!(e.widget, Widget::VolumeButton(level));
        assert_eq!(e.selected, level == 3);
        assert_eq!(e.tag, ScreenTag::SoundSettings);
    }
    assert_eq!(entities[11].widget, Widget::ActionButton(MenuButtonAction::BackToSettings));
}

#[test]
fn setup_routines_append_their_screens() {
    let mut entities: Vec<Entity> = Vec::new();
    velour::main_menu_setup(&mut entities);
    assert_eq!(entities.len(), 5);
    velour::game_setup(&mut entities);
    assert_eq!(entities.len(), 7);
    assert_eq!(entities[5].widget, Widget::Ground);
    assert_eq!(entities[6].widget, Widget::Light);
    despawn_screen(&mut entities, ScreenTag::MainMenu);
    assert_eq!(entities.len(), 2);
}

#[test]
fn display_setup_marks_given_quality() {
    let mut entities: Vec<Entity> = Vec::new();
    velour::display_settings_menu_setup(&mut entities, DisplayQuality::Low);
    let marked: Vec<Widget> = entities.iter().filter(|e| e.selected).map(|e| e.widget).collect();
    assert_eq!(marked, vec![Widget::QualityButton(DisplayQuality::Low)]);
    assert_eq!(entities[velour::quality_slot(DisplayQuality::Low)].widget, Widget::QualityButton(DisplayQuality::Low));
    assert_eq!(entities[velour::quality_slot(DisplayQuality::High)].widget, Widget::QualityButton(DisplayQuality::High));
}
