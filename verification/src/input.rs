//! What the player does at the keyboard, as the simulation reads it.

use vstd::prelude::*;

verus! {

/// A key that is held down. Keys that mean nothing to the game are all
/// `Other`.
#[derive(Copy, Clone, Debug, PartialEq, Eq, Structural)]
pub enum Key {
    Escape,
    W,
    A,
    S,
    D,
    E,
    Other,
}

} // verus!
