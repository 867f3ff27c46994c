//! The screen that tells the player why they died.

use crate::input::Key;
use crate::screen::StackCommand;
use vstd::prelude::*;

verus! {

/// What the death screen asks of the player.
pub const DEATH_SCREEN_HINT: &'static str = "Press ESC to exit the game!";

/// The resource whose depletion ended the game.
#[derive(Copy, Clone, Debug, PartialEq, Eq, Structural)]
pub enum DeathReason {
    Oxygen,
    Energy,
    Both,
}

impl DeathReason {
    /// The reason's name as it is shown to the player.
    pub open spec fn name(self) -> Seq<char> {
        match self {
            DeathReason::Oxygen => "Oxygen"@,
            DeathReason::Energy => "Energy"@,
            DeathReason::Both => "Both"@,
        }
    }

    /// Renders the reason as text.
    pub fn to_string(&self) -> (text: String)
        ensures
            text@ == self.name(),
    {
        match self {
            DeathReason::Oxygen => "Oxygen".to_owned(),
            DeathReason::Energy => "Energy".to_owned(),
            DeathReason::Both => "Both".to_owned(),
        }
    }

    /// The message with which the death screen opens.
    pub open spec fn message(self) -> Seq<char> {
        match self {
            DeathReason::Oxygen => "You ran out of oxygen!"@,
            DeathReason::Energy => "You ran out of energy!"@,
            DeathReason::Both => "You ran out of oxygen and energy!"@,
        }
    }
}

/// The texts of the death screen.
#[derive(Clone, Debug, PartialEq, Eq)]
pub struct DeathScreen {
    pub death_reason: DeathReason,
    pub death_message: String,
    pub additional_text: String,
}

impl DeathScreen {
    /// The death screen for a player who died of `death_reason`.
    pub fn new(death_reason: DeathReason) -> (screen: DeathScreen)
        ensures
            screen.death_reason == death_reason,
            screen.death_message@ == death_reason.message(),
            screen.additional_text@ == DEATH_SCREEN_HINT@,
    {
        let death_message = match death_reason {
            DeathReason::Oxygen => "You ran out of oxygen!",
            DeathReason::Energy => "You ran out of energy!",
            DeathReason::Both => "You ran out of oxygen and energy!",
        };
        DeathScreen {
            death_reason,
            death_message: death_message.to_owned(),
            additional_text: DEATH_SCREEN_HINT.to_owned(),
        }
    }

    /// What the screen asks of the host, given the keys that are held
    /// down, in the order in which the host found them: the first key alone
    /// decides. Escape closes the screen; anything else, or no key, leaves
    /// it open.
    pub fn update<S>(&self, keys: &[Key]) -> (command: StackCommand<S>)
        ensures
            keys@.len() > 0 && keys@[0] == Key::Escape ==> command is Pop,
            !(keys@.len() > 0 && keys@[0] == Key::Escape) ==> command is Nothing,
    {
        if keys.len() > 0 {
            match keys[0] {
                Key::Escape => StackCommand::Pop,
                _ => StackCommand::Nothing,
            }
        } else {
            StackCommand::Nothing
        }
    }
}

} // verus!
