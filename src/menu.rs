use vstd::prelude::*;
use crate::audio::SoundEffectType;
use crate::progression::GameState;

verus! {

/// What the pointer does to a menu button.
#[derive(Clone, Copy, Debug, PartialEq, Eq, Structural)]
pub enum Interaction {
    Pressed,
    Hovered,
    Idle,
}

/// Which of its three colour pairs a button shows.
#[derive(Clone, Copy, Debug, PartialEq, Eq, Structural)]
pub enum ButtonLook {
    Default,
    Hover,
    Active,
}

/// How a menu reacts to a change of a button's interaction.
#[derive(Clone, Copy, Debug, PartialEq, Eq, Structural)]
pub struct MenuResponse {
    pub look: ButtonLook,
    pub sound: Option<SoundEffectType>,
    pub next_state: Option<GameState>,
}

/// A press starts play with the enter sound; hovering plays the hover sound;
/// otherwise the button rests.
pub open spec fn menu_response_spec(interaction: Interaction) -> MenuResponse {
    match interaction {
        Interaction::Pressed => MenuResponse {
            look: ButtonLook::Active,
            sound: Some(SoundEffectType::UIEnter),
            next_state: Some(GameState::Playing),
        },
        Interaction::Hovered => MenuResponse {
            look: ButtonLook::Hover,
            sound: Some(SoundEffectType::UIHover),
            next_state: None,
        },
        Interaction::Idle => MenuResponse { look: ButtonLook::Default, sound: None, next_state: None },
    }
}

/// The reaction of the main menu and the upgrade menu to a button.
pub fn update_menu(interaction: Interaction) -> (r: MenuResponse)
    ensures
        r == menu_response_spec(interaction),
{
    match interaction {
        Interaction::Pressed => MenuResponse {
            look: ButtonLook::Active,
            sound: Some(SoundEffectType::UIEnter),
            next_state: Some(GameState::Playing),
        },
        Interaction::Hovered => MenuResponse {
            look: ButtonLook::Hover,
            sound: Some(SoundEffectType::UIHover),
            next_state: None,
        },
        Interaction::Idle => MenuResponse { look: ButtonLook::Default, sound: None, next_state: None },
    }
}

} // verus!
