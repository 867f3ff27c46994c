//! How the keys move the player.

use crate::gamestate::{GameState, GameStateView};
use crate::input::Key;
use vstd::prelude::*;

verus! {

/// How far one key press carries the player.
pub const MOVEMENT_SPEED: usize = 10;

/// What the host has to do after a key was handled.
#[derive(Copy, Clone, Debug, PartialEq, Eq, Structural)]
pub enum KeyAction {
    /// Save the game and close its screen.
    Leave,
    /// The player walked, or was kept from it.
    Walk,
    /// Report what the player can reach from here.
    Interact,
    /// The key means nothing.
    Ignore,
}

/// `a - b`, or 0 where that would be negative.
pub open spec fn minus_saturating(a: usize, b: usize) -> usize {
    if a >= b {
        (a - b) as usize
    } else {
        0
    }
}

/// `a + b`, or the largest `usize` where that would be more.
pub open spec fn plus_saturating(a: usize, b: usize) -> usize {
    if a + b <= usize::MAX {
        (a + b) as usize
    } else {
        usize::MAX
    }
}

/// Where a key would carry a player who stands at `position`: W up, A
/// left, S down, D right, by [`MOVEMENT_SPEED`] and no further than the
/// edge of the map. Any other key leaves the player in place.
pub open spec fn target(position: (usize, usize), key: Key) -> (usize, usize) {
    match key {
        Key::W => (position.0, minus_saturating(position.1, MOVEMENT_SPEED)),
        Key::A => (minus_saturating(position.0, MOVEMENT_SPEED), position.1),
        Key::S => (position.0, plus_saturating(position.1, MOVEMENT_SPEED)),
        Key::D => (plus_saturating(position.0, MOVEMENT_SPEED), position.1),
        _ => position,
    }
}

/// What a key calls for besides the move.
pub open spec fn key_action(key: Key) -> KeyAction {
    match key {
        Key::Escape => KeyAction::Leave,
        Key::W | Key::A | Key::S | Key::D => KeyAction::Walk,
        Key::E => KeyAction::Interact,
        Key::Other => KeyAction::Ignore,
    }
}

impl GameState {
    /// Where `key` would carry the player. The host asks the map whether
    /// that place is free before it calls [`GameState::move_player`].
    pub fn move_target(&self, key: Key) -> (place: (usize, usize))
        ensures
            place == target(self@.position, key),
    {
        let position = self.player.position;
        match key {
            Key::W => (position.0, position.1.saturating_sub(MOVEMENT_SPEED)),
            Key::A => (position.0.saturating_sub(MOVEMENT_SPEED), position.1),
            Key::S => (position.0, position.1.saturating_add(MOVEMENT_SPEED)),
            Key::D => (position.0.saturating_add(MOVEMENT_SPEED), position.1),
            _ => position,
        }
    }

    /// Handles one key that is held down. The player moves to where the
    /// key carries them unless that place is `blocked`; nothing else in the
    /// game changes. The result says what is left for the host to do.
    pub fn move_player(&mut self, key: Key, blocked: bool) -> (action: KeyAction)
        ensures
            action == key_action(key),
            final(self)@ == (GameStateView {
                position: if blocked {
                    old(self)@.position
                } else {
                    target(old(self)@.position, key)
                },
                ..old(self)@
            }),
    {
        let place = self.move_target(key);
        if !blocked {
            self.player.position = place;
        }
        match key {
            Key::Escape => KeyAction::Leave,
            Key::W | Key::A | Key::S | Key::D => KeyAction::Walk,
            Key::E => KeyAction::Interact,
            Key::Other => KeyAction::Ignore,
        }
    }
}

} // verus!
