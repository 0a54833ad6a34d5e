use vstd::prelude::*;

verus! {

/// What a menu button does when it is clicked.
#[derive(Clone, Copy, Debug, PartialEq, Eq, Structural)]
pub enum MenuButtonAction {
    Play,
    Settings,
    SettingsDisplay,
    SettingsSound,
    BackToMainMenu,
    BackToSettings,
    Quit,
}

/// The pointer's relation to a button during one frame.
#[derive(Clone, Copy, Debug, PartialEq, Eq, Structural)]
pub enum Interaction {
    Clicked,
    Hovered,
    Idle,
}

/// The colour a button is drawn with.
#[derive(Clone, Copy, Debug, PartialEq, Eq, Structural)]
pub enum ButtonColor {
    Normal,
    Hovered,
    HoveredPressed,
    Pressed,
}

/// The colour of a button in the given interaction, selected or not.
pub open spec fn color_of(interaction: Interaction, selected: bool) -> ButtonColor {
    match interaction {
        Interaction::Clicked => ButtonColor::Pressed,
        Interaction::Hovered => if selected {
            ButtonColor::HoveredPressed
        } else {
            ButtonColor::Hovered
        },
        Interaction::Idle => if selected {
            ButtonColor::Pressed
        } else {
            ButtonColor::Normal
        },
    }
}

/// Picks the colour of a button from its interaction and selection.
pub fn button_color(interaction: Interaction, selected: bool) -> (r: ButtonColor)
    ensures
        r == color_of(interaction, selected),
{
    match interaction {
        Interaction::Clicked => ButtonColor::Pressed,
        Interaction::Hovered => {
            if selected {
                ButtonColor::HoveredPressed
            } else {
                ButtonColor::Hovered
            }
        },
        Interaction::Idle => {
            if selected {
                ButtonColor::Pressed
            } else {
                ButtonColor::Normal
            }
        },
    }
}

} // verus!
