use vstd::prelude::*;

use crate::settings::{DisplayQuality, Volume, VOLUME_LEVELS};
use crate::ui::MenuButtonAction;

verus! {

/// The marker that ties a spawned entity to the screen that owns it.
#[derive(Clone, Copy, Debug, PartialEq, Eq, Structural)]
pub enum ScreenTag {
    Splash,
    MainMenu,
    SettingsMenu,
    DisplaySettings,
    SoundSettings,
    Game,
}

/// What an entity shows.
#[derive(Clone, Copy, Debug, PartialEq, Eq, Structural)]
pub enum Widget {
    /// The container node of a menu screen.
    Panel,
    /// The splash image.
    Logo,
    /// The game's title on the main menu.
    Title,
    /// A button that dispatches a menu action.
    ActionButton(MenuButtonAction),
    /// A button that chooses a display quality.
    QualityButton(DisplayQuality),
    /// A button that chooses a volume level.
    VolumeButton(u32),
    /// The ground plane of the game world.
    Ground,
    /// The light of the game world.
    Light,
}

/// A spawned entity: its screen, what it shows, and whether it carries the
/// selection marker.
#[derive(Clone, Copy, Debug, PartialEq, Eq, Structural)]
pub struct Entity {
    pub tag: ScreenTag,
    pub widget: Widget,
    pub selected: bool,
}

pub open spec fn plain(tag: ScreenTag, widget: Widget) -> Entity {
    Entity { tag, widget, selected: false }
}

/// The volume buttons, one per level, with the marker on level `v`.
pub open spec fn volume_row(v: u32) -> Seq<Entity> {
    Seq::new(
        VOLUME_LEVELS as nat,
        |i: int|
            Entity {
                tag: ScreenTag::SoundSettings,
                widget: Widget::VolumeButton(i as u32),
                selected: v == i,
            },
    )
}

pub open spec fn splash_layout() -> Seq<Entity> {
    seq![plain(ScreenTag::Splash, Widget::Logo)]
}

pub open spec fn main_menu_layout() -> Seq<Entity> {
    let tag = ScreenTag::MainMenu;
    seq![
        plain(tag, Widget::Panel),
        plain(tag, Widget::Title),
        plain(tag, Widget::ActionButton(MenuButtonAction::Play)),
        plain(tag, Widget::ActionButton(MenuButtonAction::Settings)),
        plain(tag, Widget::ActionButton(MenuButtonAction::Quit)),
    ]
}

pub open spec fn settings_menu_layout() -> Seq<Entity> {
    let tag = ScreenTag::SettingsMenu;
    seq![
        plain(tag, Widget::Panel),
        plain(tag, Widget::ActionButton(MenuButtonAction::SettingsDisplay)),
        plain(tag, Widget::ActionButton(MenuButtonAction::SettingsSound)),
        plain(tag, Widget::ActionButton(MenuButtonAction::BackToMainMenu)),
    ]
}

/// The quality buttons, one per quality, with the marker on `q`.
pub open spec fn display_settings_layout(q: DisplayQuality) -> Seq<Entity> {
    let tag = ScreenTag::DisplaySettings;
    seq![
        plain(tag, Widget::Panel),
        Entity {
            tag,
            widget: Widget::QualityButton(DisplayQuality::Low),
            selected: q == DisplayQuality::Low,
        },
        Entity {
            tag,
            widget: Widget::QualityButton(DisplayQuality::Medium),
            selected: q == DisplayQuality::Medium,
        },
        Entity {
            tag,
            widget: Widget::QualityButton(DisplayQuality::High),
            selected: q == DisplayQuality::High,
        },
        plain(tag, Widget::ActionButton(MenuButtonAction::BackToSettings)),
    ]
}

pub open spec fn sound_settings_layout(v: u32) -> Seq<Entity> {
    let tag = ScreenTag::SoundSettings;
    seq![plain(tag, Widget::Panel)] + volume_row(v) + seq![
        plain(tag, Widget::ActionButton(MenuButtonAction::BackToSettings)),
    ]
}

pub open spec fn game_layout() -> Seq<Entity> {
    seq![plain(ScreenTag::Game, Widget::Ground), plain(ScreenTag::Game, Widget::Light)]
}

/// The entities a screen spawns on entry, in spawn order, given the current
/// settings.
pub open spec fn screen_layout(tag: ScreenTag, q: DisplayQuality, v: u32) -> Seq<Entity> {
    match tag {
        ScreenTag::Splash => splash_layout(),
        ScreenTag::MainMenu => main_menu_layout(),
        ScreenTag::SettingsMenu => settings_menu_layout(),
        ScreenTag::DisplaySettings => display_settings_layout(q),
        ScreenTag::SoundSettings => sound_settings_layout(v),
        ScreenTag::Game => game_layout(),
    }
}

/// The entities of `s` whose tag is not `tag`, in their order.
pub open spec fn without_tag(s: Seq<Entity>, tag: ScreenTag) -> Seq<Entity>
    decreases s.len(),
{
    if s.len() == 0 {
        s
    } else {
        let rest = without_tag(s.drop_last(), tag);
        if s.last().tag == tag {
            rest
        } else {
            rest.push(s.last())
        }
    }
}

/// Position of the button for quality `q` on the display settings screen.
pub open spec fn quality_slot_of(q: DisplayQuality) -> int {
    match q {
        DisplayQuality::Low => 1,
        DisplayQuality::Medium => 2,
        DisplayQuality::High => 3,
    }
}

/// Position of the button for volume level `v` on the sound settings screen.
pub open spec fn volume_slot_of(v: u32) -> int {
    1 + v
}

pub fn quality_slot(q: DisplayQuality) -> (r: usize)
    ensures
        r == quality_slot_of(q),
{
    match q {
        DisplayQuality::Low => 1,
        DisplayQuality::Medium => 2,
        DisplayQuality::High => 3,
    }
}

pub fn volume_slot(v: u32) -> (r: usize)
    requires
        v < VOLUME_LEVELS,
    ensures
        r == volume_slot_of(v),
{
    1 + v as usize
}

/// Despawns every entity tagged `tag`, keeping the others in order.
pub fn despawn_screen(entities: &mut Vec<Entity>, tag: ScreenTag)
    ensures
        final(entities)@ == without_tag(old(entities)@, tag),
{
    let ghost start = entities@;
    let mut kept: Vec<Entity> = Vec::new();
    let mut i: usize = 0;
    while i < entities.len()
        invariant
            entities@ == start,
            i <= start.len(),
            kept@ == without_tag(start.take(i as int), tag),
        decreases start.len() - i,
    {
        let e = entities[i];
        assert(start.take(i as int + 1).drop_last() == start.take(i as int));
        if e.tag != tag {
            kept.push(e);
        }
        i = i + 1;
    }
    assert(start.take(start.len() as int) == start);
    *entities = kept;
}

/// Spawns the splash image.
pub fn splash_setup(entities: &mut Vec<Entity>)
    ensures
        final(entities)@ == old(entities)@ + splash_layout(),
{
    let tag = ScreenTag::Splash;
    entities.push(Entity { tag, widget: Widget::Logo, selected: false });
    assert(entities@ =~= old(entities)@ + splash_layout());
}

/// Spawns the main menu: its panel, the title, and the Play, Settings and
/// Quit buttons.
pub fn main_menu_setup(entities: &mut Vec<Entity>)
    ensures
        final(entities)@ == old(entities)@ + main_menu_layout(),
{
    let tag = ScreenTag::MainMenu;
    entities.push(Entity { tag, widget: Widget::Panel, selected: false });
    entities.push(Entity { tag, widget: Widget::Title, selected: false });
    entities.push(
        Entity { tag, widget: Widget::ActionButton(MenuButtonAction::Play), selected: false },
    );
    entities.push(
        Entity { tag, widget: Widget::ActionButton(MenuButtonAction::Settings), selected: false },
    );
    entities.push(
        Entity { tag, widget: Widget::ActionButton(MenuButtonAction::Quit), selected: false },
    );
    assert(entities@ =~= old(entities)@ + main_menu_layout());
}

/// Spawns the settings menu: its panel and the Display, Sound and Back
/// buttons.
pub fn settings_menu_setup(entities: &mut Vec<Entity>)
    ensures
        final(entities)@ == old(entities)@ + settings_menu_layout(),
{
    let tag = ScreenTag::SettingsMenu;
    entities.push(Entity { tag, widget: Widget::Panel, selected: false });
    entities.push(
        Entity {
            tag,
            widget: Widget::ActionButton(MenuButtonAction::SettingsDisplay),
            selected: false,
        },
    );
    entities.push(
        Entity { tag, widget: Widget::ActionButton(MenuButtonAction::SettingsSound), selected: false },
    );
    entities.push(
        Entity {
            tag,
            widget: Widget::ActionButton(MenuButtonAction::BackToMainMenu),
            selected: false,
        },
    );
    assert(entities@ =~= old(entities)@ + settings_menu_layout());
}

/// Spawns the display settings: one button per quality, the one for the
/// current quality `q` marked, and a Back button.
pub fn display_settings_menu_setup(entities: &mut Vec<Entity>, q: DisplayQuality)
    ensures
        final(entities)@ == old(entities)@ + display_settings_layout(q),
{
    let tag = ScreenTag::DisplaySettings;
    entities.push(Entity { tag, widget: Widget::Panel, selected: false });
    entities.push(
        Entity {
            tag,
            widget: Widget::QualityButton(DisplayQuality::Low),
            selected: q == DisplayQuality::Low,
        },
    );
    entities.push(
        Entity {
            tag,
            widget: Widget::QualityButton(DisplayQuality::Medium),
            selected: q == DisplayQuality::Medium,
        },
    );
    entities.push(
        Entity {
            tag,
            widget: Widget::QualityButton(DisplayQuality::High),
            selected: q == DisplayQuality::High,
        },
    );
    entities.push(
        Entity { tag, widget: Widget::ActionButton(MenuButtonAction::BackToSettings), selected: false },
    );
    assert(entities@ =~= old(entities)@ + display_settings_layout(q));
}

/// Spawns the sound settings: one button per volume level, the one for the
/// current volume `v` marked, and a Back button.
pub fn sound_setting_menu_setup(entities: &mut Vec<Entity>, v: Volume)
    ensures
        final(entities)@ == old(entities)@ + sound_settings_layout(v.0),
{
    let ghost start = entities@;
    let tag = ScreenTag::SoundSettings;
    entities.push(Entity { tag, widget: Widget::Panel, selected: false });
    let mut level: u32 = 0;
    while level < VOLUME_LEVELS
        invariant
            level <= VOLUME_LEVELS,
            tag == ScreenTag::SoundSettings,
            entities@ == start + seq![plain(tag, Widget::Panel)] + volume_row(v.0).take(
                level as int,
            ),
        decreases VOLUME_LEVELS - level,
    {
        entities.push(Entity { tag, widget: Widget::VolumeButton(level), selected: v.0 == level });
        assert(volume_row(v.0).take(level as int + 1) =~= volume_row(v.0).take(level as int).push(
            volume_row(v.0)[level as int],
        ));
        level = level + 1;
    }
    assert(volume_row(v.0).take(VOLUME_LEVELS as int) =~= volume_row(v.0));
    entities.push(
        Entity { tag, widget: Widget::ActionButton(MenuButtonAction::BackToSettings), selected: false },
    );
    assert(entities@ =~= start + sound_settings_layout(v.0));
}

/// Spawns the game world: a ground plane and a light.
pub fn game_setup(entities: &mut Vec<Entity>)
    ensures
        final(entities)@ == old(entities)@ + game_layout(),
{
    let tag = ScreenTag::Game;
    entities.push(Entity { tag, widget: Widget::Ground, selected: false });
    entities.push(Entity { tag, widget: Widget::Light, selected: false });
    assert(entities@ =~= old(entities)@ + game_layout());
}

/// Sets up screen `tag`. The previous screen must have been torn down first:
/// nothing may be alive when a screen is set up.
pub fn spawn_screen(entities: &mut Vec<Entity>, tag: ScreenTag, q: DisplayQuality, v: Volume)
    requires
        old(entities)@.len() == 0,
    ensures
        final(entities)@ == screen_layout(tag, q, v.0),
{
    match tag {
        ScreenTag::Splash => splash_setup(entities),
        ScreenTag::MainMenu => main_menu_setup(entities),
        ScreenTag::SettingsMenu => settings_menu_setup(entities),
        ScreenTag::DisplaySettings => display_settings_menu_setup(entities, q),
        ScreenTag::SoundSettings => sound_setting_menu_setup(entities, v),
        ScreenTag::Game => game_setup(entities),
    }
    assert(entities@ =~= screen_layout(tag, q, v.0));
}

/// Every entity a screen spawns carries that screen's tag.
pub proof fn lemma_layout_tagged(tag: ScreenTag, q: DisplayQuality, v: u32)
    ensures
        forall|i: int|
            0 <= i < screen_layout(tag, q, v).len() ==> (#[trigger] screen_layout(tag, q, v)[i]).tag
                == tag,
{
    if tag == ScreenTag::SoundSettings {
        let s = screen_layout(tag, q, v);
        assert forall|i: int| 0 <= i < s.len() implies (#[trigger] s[i]).tag == tag by {
            if 1 <= i < 1 + VOLUME_LEVELS {
                assert(s[i] == volume_row(v)[i - 1]);
            }
        }
    }
}

/// Removing a tag that every entity carries leaves nothing.
pub proof fn lemma_without_common_tag(s: Seq<Entity>, tag: ScreenTag)
    requires
        forall|i: int| 0 <= i < s.len() ==> (#[trigger] s[i]).tag == tag,
    ensures
        without_tag(s, tag).len() == 0,
    decreases s.len(),
{
    if s.len() > 0 {
        let d = s.drop_last();
        assert forall|i: int| 0 <= i < d.len() implies (#[trigger] d[i]).tag == tag by {
            assert(d[i] == s[i]);
        }
        lemma_without_common_tag(d, tag);
    }
}

} // verus!
