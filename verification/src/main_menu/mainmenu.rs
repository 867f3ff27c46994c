//! The main menu: leave, start a new game, or take up the saved one.
//!
//! The host does what cannot be decided here. It asks [`next_step`] what a
//! button calls for, deletes or loads the saved game as told, and then
//! builds the command for the screen stack with [`new_game_command`] or
//! [`resume_command`].

use crate::screen::{Popup, PopupKind, PopupView, StackCommand};
use vstd::prelude::*;

verus! {

/// What the player is told when the saved game cannot be taken up.
pub const RESUME_ERROR_STRING: &'static str = "There is no saved game to resume.";

/// What every button of the menu does.
#[derive(Copy, Clone, Debug, PartialEq, Eq, Structural)]
pub enum Message {
    Exit,
    NewGame,
    Resume,
}

/// What the host has to do next for the menu.
#[derive(Copy, Clone, Debug, PartialEq, Eq, Structural)]
pub enum MenuStep {
    /// No button was used: nothing.
    Wait,
    /// End the program.
    Quit,
    /// Delete the saved games, then open the introduction.
    DeleteSaves,
    /// Load the saved game, then open it if that worked.
    LoadGame,
}

/// The step that a button of the menu calls for.
pub open spec fn step_for(message: Option<Message>) -> MenuStep {
    match message {
        None => MenuStep::Wait,
        Some(Message::Exit) => MenuStep::Quit,
        Some(Message::NewGame) => MenuStep::DeleteSaves,
        Some(Message::Resume) => MenuStep::LoadGame,
    }
}

/// What the host has to do for the message that the buttons sent, if any.
pub fn next_step(message: Option<Message>) -> (step: MenuStep)
    ensures
        step == step_for(message),
{
    match message {
        None => MenuStep::Wait,
        Some(Message::Exit) => MenuStep::Quit,
        Some(Message::NewGame) => MenuStep::DeleteSaves,
        Some(Message::Resume) => MenuStep::LoadGame,
    }
}

/// The command that opens a new game: it puts the introduction on top.
pub fn new_game_command<S>(introduction: S) -> (command: StackCommand<S>)
    ensures
        command == StackCommand::Push(introduction),
{
    StackCommand::Push(introduction)
}

/// The command that follows an attempt to load the saved game: it opens
/// the game where there is one, and else warns the player with
/// [`RESUME_ERROR_STRING`].
pub fn resume_command<S>(loaded: Option<S>) -> (command: StackCommand<S>)
    ensures
        match loaded {
            Some(game) => command == StackCommand::Push(game),
            None => command matches StackCommand::Popup(popup) && popup@ == PopupView::standard(
                PopupKind::Warning,
                RESUME_ERROR_STRING@,
            ),
        },
{
    match loaded {
        Some(game) => StackCommand::Push(game),
        None => StackCommand::Popup(Popup::warning(RESUME_ERROR_STRING.to_owned())),
    }
}

} // verus!
