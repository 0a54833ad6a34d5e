//! Properties of the navigation model that hold across calls.

use vstd::prelude::*;

use crate::screens::{volume_row, ScreenTag, Widget};
use crate::settings::{DisplayQuality, VOLUME_LEVELS};
use crate::states::{GameState, MenuState, Navigation};
use crate::timer::SPLASH_NANOS;
use crate::ui::MenuButtonAction;
use crate::world::World;

verus! {

/// The sum of the frame durations in `deltas`.
pub open spec fn total(deltas: Seq<u64>) -> nat
    decreases deltas.len(),
{
    if deltas.len() == 0 {
        0
    } else {
        total(deltas.drop_last()) + deltas.last() as nat
    }
}

/// The state after frames lasting `deltas`, one after another, from `nav`.
pub open spec fn run_ticks(nav: Navigation, deltas: Seq<u64>) -> Navigation
    decreases deltas.len(),
{
    if deltas.len() == 0 {
        nav
    } else {
        run_ticks(nav, deltas.drop_last()).after_tick(deltas.last())
    }
}

/// In a coherent world every live entity carries the tag of the active
/// screen, so after a mode or menu screen is left none of its entities
/// remain.
pub proof fn lemma_no_leaked_entities(w: World, tag: ScreenTag)
    requires
        w.wf(),
        w.nav.screen() != Some(tag),
    ensures
        forall|i: int| 0 <= i < w.entities@.len() ==> (#[trigger] w.entities@[i]).tag != tag,
{
    if let Some(t) = w.nav.screen() {
        crate::screens::lemma_layout_tagged(t, w.nav.quality, w.nav.volume.0);
    }
}

/// In a coherent world only one screen is alive: every entity carries the
/// tag of the screen that the mode and menu state select.
pub proof fn lemma_one_screen_alive(w: World)
    requires
        w.wf(),
    ensures
        forall|i: int|
            0 <= i < w.entities@.len() ==> Some((#[trigger] w.entities@[i]).tag) == w.nav.screen(),
{
    if let Some(t) = w.nav.screen() {
        crate::screens::lemma_layout_tagged(t, w.nav.quality, w.nav.volume.0);
    }
}

/// From start, the splash is left for the main menu exactly when the frame
/// times add up to the splash duration; until then the countdown has counted
/// exactly that sum.
pub proof fn lemma_splash_countdown(deltas: Seq<u64>)
    ensures
        total(deltas) >= SPLASH_NANOS ==> run_ticks(Navigation::initial(), deltas).mode
            == GameState::Menu && run_ticks(Navigation::initial(), deltas).menu == MenuState::Main,
        total(deltas) < SPLASH_NANOS ==> run_ticks(Navigation::initial(), deltas).mode
            == GameState::Splash && run_ticks(Navigation::initial(), deltas).timer.elapsed == total(
            deltas,
        ),
        run_ticks(Navigation::initial(), deltas).wf(),
    decreases deltas.len(),
{
    if deltas.len() > 0 {
        lemma_splash_countdown(deltas.drop_last());
    }
}

/// The sum of a prefix is at most the sum of a longer prefix.
pub proof fn lemma_total_grows(deltas: Seq<u64>, j: int, k: int)
    requires
        0 <= j <= k <= deltas.len(),
    ensures
        total(deltas.take(j)) <= total(deltas.take(k)),
    decreases k - j,
{
    if j < k {
        lemma_total_grows(deltas, j, k - 1);
        assert(deltas.take(k).drop_last() == deltas.take(k - 1));
    }
}

/// The splash is left once: once a prefix of the frames has left it, every
/// longer prefix has too.
pub proof fn lemma_splash_left_once(deltas: Seq<u64>, j: int, k: int)
    requires
        0 <= j <= k <= deltas.len(),
        run_ticks(Navigation::initial(), deltas.take(j)).mode != GameState::Splash,
    ensures
        run_ticks(Navigation::initial(), deltas.take(k)).mode == GameState::Menu,
{
    lemma_splash_countdown(deltas.take(j));
    lemma_splash_countdown(deltas.take(k));
    lemma_total_grows(deltas, j, k);
}

/// Clicking "Play" on the main menu enters the game and parks the menu in
/// one step; no coherent state has the game with an active menu screen.
pub proof fn lemma_play_enters_game(nav: Navigation)
    requires
        nav.wf(),
        nav.mode == GameState::Menu,
    ensures
        nav.after_action(MenuButtonAction::Play).mode == GameState::Game,
        nav.after_action(MenuButtonAction::Play).menu == MenuState::Disabled,
        nav.after_action(MenuButtonAction::Play).wf(),
        forall|n: Navigation| #[trigger] n.wf() && n.mode == GameState::Game ==> n.menu
            == MenuState::Disabled,
{
}

/// Choosing a display quality other than the current one sets the setting
/// and leaves exactly one button marked: the one for the new quality.
pub proof fn lemma_quality_choice_marks_one(nav: Navigation, q: DisplayQuality)
    requires
        nav.wf(),
        nav.screen() == Some(ScreenTag::DisplaySettings),
        q != nav.quality,
    ensures
        ({
            let next = nav.after_click(Widget::QualityButton(q));
            let s = next.layout();
            &&& next.quality == q
            &&& next.screen() == nav.screen()
            &&& exists|i: int| 0 <= i < s.len() && (#[trigger] s[i]).selected
            &&& forall|i: int|
                0 <= i < s.len() && (#[trigger] s[i]).selected ==> s[i].widget
                    == Widget::QualityButton(q)
            &&& forall|i: int, j: int|
                0 <= i < s.len() && 0 <= j < s.len() && (#[trigger] s[i]).selected
                    && (#[trigger] s[j]).selected ==> i == j
        }),
{
    let s = nav.after_click(Widget::QualityButton(q)).layout();
    assert(s[crate::screens::quality_slot_of(q)].selected);
}

/// Choosing a volume level other than the current one sets the setting and
/// leaves exactly one button marked: the one for the new level.
pub proof fn lemma_volume_choice_marks_one(nav: Navigation, v: u32)
    requires
        nav.wf(),
        nav.screen() == Some(ScreenTag::SoundSettings),
        v < VOLUME_LEVELS,
        v != nav.volume.0,
    ensures
        ({
            let next = nav.after_click(Widget::VolumeButton(v));
            let s = next.layout();
            &&& next.volume.0 == v
            &&& next.screen() == nav.screen()
            &&& exists|i: int| 0 <= i < s.len() && (#[trigger] s[i]).selected
            &&& forall|i: int|
                0 <= i < s.len() && (#[trigger] s[i]).selected ==> s[i].widget
                    == Widget::VolumeButton(v)
            &&& forall|i: int, j: int|
                0 <= i < s.len() && 0 <= j < s.len() && (#[trigger] s[i]).selected
                    && (#[trigger] s[j]).selected ==> i == j
        }),
{
    let next = nav.after_click(Widget::VolumeButton(v));
    let s = next.layout();
    assert forall|i: int| 0 <= i < s.len() && (#[trigger] s[i]).selected implies s[i].widget
        == Widget::VolumeButton(v) && i == 1 + v by {
        if 1 <= i < 1 + VOLUME_LEVELS {
            assert(s[i] == volume_row(v)[i - 1]);
        }
    }
    assert(s[1 + v] == volume_row(v)[v as int]);
}

/// Clicking the button that already carries the selection marker changes
/// nothing.
pub proof fn lemma_reselect_is_noop(nav: Navigation, i: int)
    requires
        nav.wf(),
        0 <= i < nav.layout().len(),
        nav.layout()[i].selected,
    ensures
        nav.after_click(nav.layout()[i].widget) == nav,
{
    let s = nav.layout();
    if nav.screen() == Some(ScreenTag::SoundSettings) && 1 <= i < 1 + VOLUME_LEVELS {
        assert(s[i] == volume_row(nav.volume.0)[i - 1]);
    }
}

} // verus!
