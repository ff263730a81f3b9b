//! Decisions of the menu's buttons: how a button looks, and what pressing it
//! asks of the scene lifecycle.
use vstd::prelude::*;
use crate::scene::SceneEvent;

verus! {

/// Pointer interaction with a button.
#[derive(Clone, Copy, Debug, PartialEq, Eq, Structural)]
pub enum Interaction {
    Pressed,
    Hovered,
    Idle,
}

/// The background a button is drawn with.
#[derive(Clone, Copy, Debug, PartialEq, Eq, Structural)]
pub enum ButtonLook {
    Normal,
    Hovered,
    HoveredSelected,
    Pressed,
}

/// The actions offered by the menu.
#[derive(Clone, Copy, Debug, PartialEq, Eq, Structural)]
pub enum MenuButtonAction {
    Play,
    Quit,
}

pub open spec fn look_for(interaction: Interaction, selected: bool) -> ButtonLook {
    match interaction {
        Interaction::Pressed => ButtonLook::Pressed,
        Interaction::Hovered => if selected {
            ButtonLook::HoveredSelected
        } else {
            ButtonLook::Hovered
        },
        Interaction::Idle => if selected {
            ButtonLook::Pressed
        } else {
            ButtonLook::Normal
        },
    }
}

/// A pressed button, and a selected one at rest, look pressed; hovering shows
/// whether the button is selected; an idle unselected button looks normal.
pub fn button_look(interaction: Interaction, selected: bool) -> (r: ButtonLook)
    ensures
        r == look_for(interaction, selected),
{
    match interaction {
        Interaction::Pressed => ButtonLook::Pressed,
        Interaction::Hovered => if selected {
            ButtonLook::HoveredSelected
        } else {
            ButtonLook::Hovered
        },
        Interaction::Idle => if selected {
            ButtonLook::Pressed
        } else {
            ButtonLook::Normal
        },
    }
}

/// The lifecycle event a button raises: its action's event when pressed,
/// none otherwise.
pub fn menu_action(interaction: Interaction, action: MenuButtonAction) -> (r: Option<SceneEvent>)
    ensures
        interaction != Interaction::Pressed ==> r is None,
        interaction == Interaction::Pressed && action == MenuButtonAction::Play ==> r == Some(
            SceneEvent::Play,
        ),
        interaction == Interaction::Pressed && action == MenuButtonAction::Quit ==> r == Some(
            SceneEvent::Quit,
        ),
{
    match interaction {
        Interaction::Pressed => match action {
            MenuButtonAction::Play => Some(SceneEvent::Play),
            MenuButtonAction::Quit => Some(SceneEvent::Quit),
        },
        _ => None,
    }
}

} // verus!
