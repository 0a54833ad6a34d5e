use vstd::prelude::*;

use crate::screens::{
    despawn_screen, lemma_layout_tagged, lemma_without_common_tag, quality_slot, spawn_screen,
    volume_row, volume_slot, Entity, ScreenTag, Widget,
};
use crate::settings::{default_quality, default_volume, DisplayQuality, Volume, VOLUME_LEVELS};
use crate::states::{GameState, MenuState, Navigation};
use crate::timer::{SplashTimer, SPLASH_NANOS};
use crate::ui::MenuButtonAction;

verus! {

/// The navigation state together with the entities alive on screen.
pub struct World {
    pub nav: Navigation,
    pub entities: Vec<Entity>,
}

impl World {
    /// The state is coherent and exactly the active screen's entities are
    /// alive, each carrying that screen's tag.
    pub open spec fn wf(&self) -> bool {
        &&& self.nav.wf()
        &&& self.entities@ == self.nav.layout()
    }

    /// A process at start: the splash screen is shown and counting down.
    pub fn new() -> (r: World)
        ensures
            r.wf(),
            r.nav == Navigation::initial(),
    {
        let nav = Navigation {
            mode: GameState::Splash,
            menu: MenuState::Disabled,
            quality: default_quality(),
            volume: default_volume(),
            timer: SplashTimer::new(SPLASH_NANOS),
            exit_requested: false,
        };
        let mut entities: Vec<Entity> = Vec::new();
        spawn_screen(&mut entities, ScreenTag::Splash, nav.quality, nav.volume);
        World { nav, entities }
    }

    /// Tears down the current screen and sets up the one of `next`.
    fn switch_screen(&mut self, next: Navigation)
        requires
            old(self).wf(),
            next.wf(),
            next.screen() != old(self).nav.screen(),
        ensures
            final(self).wf(),
            final(self).nav == next,
    {
        if let Some(tag) = self.nav.screen_tag() {
            proof {
                lemma_layout_tagged(tag, self.nav.quality, self.nav.volume.0);
                lemma_without_common_tag(self.entities@, tag);
            }
            despawn_screen(&mut self.entities, tag);
        }
        assert(self.entities@ =~= Seq::<Entity>::empty());
        self.nav = next;
        if let Some(tag) = next.screen_tag() {
            spawn_screen(&mut self.entities, tag, next.quality, next.volume);
        }
    }

    /// Advances the frame clock by `delta` nanoseconds. While the splash is
    /// shown its countdown runs, and when it finishes the main menu opens.
    pub fn countdown(&mut self, delta: u64)
        requires
            old(self).wf(),
        ensures
            final(self).wf(),
            final(self).nav == old(self).nav.after_tick(delta),
    {
        if self.nav.mode == GameState::Splash {
            let mut t = self.nav.timer;
            t.tick(delta);
            if t.finished() {
                let next = Navigation {
                    mode: GameState::Menu,
                    menu: MenuState::Main,
                    quality: self.nav.quality,
                    volume: self.nav.volume,
                    timer: t,
                    exit_requested: self.nav.exit_requested,
                };
                self.switch_screen(next);
            } else {
                self.nav.timer = t;
            }
        }
    }

    /// Carries out the action of a menu button shown on the current screen.
    fn menu_action(&mut self, a: MenuButtonAction, Ghost(i): Ghost<int>)
        requires
            old(self).wf(),
            0 <= i < old(self).entities@.len(),
            old(self).entities@[i].widget == Widget::ActionButton(a),
        ensures
            final(self).wf(),
            final(self).nav == old(self).nav.after_action(a),
    {
        let ghost s = self.entities@;
        proof {
            if self.nav.screen() == Some(ScreenTag::SoundSettings) && 1 <= i < 1 + VOLUME_LEVELS {
                assert(s[i] == volume_row(self.nav.volume.0)[i - 1]);
            }
        }
        let nav = self.nav;
        match a {
            MenuButtonAction::Play => {
                self.switch_screen(
                    Navigation { mode: GameState::Game, menu: MenuState::Disabled, ..nav },
                );
            },
            MenuButtonAction::Settings => {
                self.switch_screen(Navigation { menu: MenuState::Settings, ..nav });
            },
            MenuButtonAction::SettingsDisplay => {
                self.switch_screen(Navigation { menu: MenuState::SettingsDisplay, ..nav });
            },
            MenuButtonAction::SettingsSound => {
                self.switch_screen(Navigation { menu: MenuState::SettingsSound, ..nav });
            },
            MenuButtonAction::BackToMainMenu => {
                self.switch_screen(Navigation { menu: MenuState::Main, ..nav });
            },
            MenuButtonAction::BackToSettings => {
                self.switch_screen(Navigation { menu: MenuState::Settings, ..nav });
            },
            MenuButtonAction::Quit => {
                self.nav.exit_requested = true;
            },
        }
    }

    /// Chooses display quality `q`, moving the selection marker to its button.
    fn select_quality(&mut self, q: DisplayQuality)
        requires
            old(self).wf(),
            old(self).nav.screen() == Some(ScreenTag::DisplaySettings),
        ensures
            final(self).wf(),
            final(self).nav == (Navigation { quality: q, ..old(self).nav }),
            q == old(self).nav.quality ==> final(self).entities@ == old(self).entities@,
    {
        if q != self.nav.quality {
            let from = quality_slot(self.nav.quality);
            let to = quality_slot(q);
            let e = self.entities[from];
            self.entities.set(from, Entity { tag: e.tag, widget: e.widget, selected: false });
            let e = self.entities[to];
            self.entities.set(to, Entity { tag: e.tag, widget: e.widget, selected: true });
            self.nav.quality = q;
            assert(self.entities@ =~= self.nav.layout());
        }
    }

    /// Chooses volume level `v`, moving the selection marker to its button.
    fn select_volume(&mut self, v: u32)
        requires
            old(self).wf(),
            old(self).nav.screen() == Some(ScreenTag::SoundSettings),
            v < VOLUME_LEVELS,
        ensures
            final(self).wf(),
            final(self).nav == (Navigation { volume: Volume(v), ..old(self).nav }),
            v == old(self).nav.volume.0 ==> final(self).entities@ == old(self).entities@,
    {
        if v != self.nav.volume.0 {
            let ghost before = self.entities@;
            let from = volume_slot(self.nav.volume.0);
            let to = volume_slot(v);
            let e = self.entities[from];
            self.entities.set(from, Entity { tag: e.tag, widget: e.widget, selected: false });
            let e = self.entities[to];
            self.entities.set(to, Entity { tag: e.tag, widget: e.widget, selected: true });
            self.nav.volume = Volume(v);
            let ghost after = self.nav.layout();
            assert forall|k: int| 0 <= k < after.len() implies self.entities@[k] == after[k] by {
                if 1 <= k < 1 + VOLUME_LEVELS {
                    assert(after[k] == volume_row(v)[k - 1]);
                    assert(before[k] == volume_row(old(self).nav.volume.0)[k - 1]);
                }
            }
            assert(self.entities@ =~= after);
        }
    }

    /// Handles a click on the entity at position `index` of the current
    /// screen. A click outside the screen, or on an entity that is not a
    /// button, changes nothing.
    pub fn activate(&mut self, index: usize)
        requires
            old(self).wf(),
        ensures
            final(self).wf(),
            final(self).nav == if index < old(self).entities@.len() {
                old(self).nav.after_click(old(self).entities@[index as int].widget)
            } else {
                old(self).nav
            },
            index < old(self).entities@.len() && old(self).entities@[index as int].selected
                ==> final(self).entities@ == old(self).entities@,
    {
        if index < self.entities.len() {
            let ghost s = self.entities@;
            proof {
                lemma_layout_tagged(self.nav.screen().unwrap(), self.nav.quality, self.nav.volume.0);
                if self.nav.screen() == Some(ScreenTag::SoundSettings) && 1 <= index < 1
                    + VOLUME_LEVELS {
                    assert(s[index as int] == volume_row(self.nav.volume.0)[index - 1]);
                }
            }
            match self.entities[index].widget {
                Widget::ActionButton(a) => self.menu_action(a, Ghost(index as int)),
                Widget::QualityButton(q) => self.select_quality(q),
                Widget::VolumeButton(v) => self.select_volume(v),
                _ => {},
            }
        }
    }

    /// The position of the first entity on screen that shows `w`, if any.
    pub fn find_widget(&self, w: Widget) -> (r: Option<usize>)
        ensures
            match r {
                Some(i) => i < self.entities@.len() && self.entities@[i as int].widget == w
                    && forall|j: int| 0 <= j < i ==> (#[trigger] self.entities@[j]).widget != w,
                None => forall|j: int|
                    0 <= j < self.entities@.len() ==> (#[trigger] self.entities@[j]).widget != w,
            },
    {
        let mut i: usize = 0;
        while i < self.entities.len()
            invariant
                i <= self.entities@.len(),
                forall|j: int| 0 <= j < i ==> (#[trigger] self.entities@[j]).widget != w,
            decreases self.entities@.len() - i,
        {
            if self.entities[i].widget == w {
                return Some(i);
            }
            i = i + 1;
        }
        None
    }
}

} // verus!
