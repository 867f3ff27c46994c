//! The first main menu: one click anywhere starts the game.

use crate::screen::StackCommand;
use vstd::prelude::*;

verus! {

/// What a button of the menu stands for.
#[derive(Copy, Clone, Debug, PartialEq, Eq, Structural)]
pub enum Message {
    Exit,
    NewGame,
    Start,
}

/// What the menu asks of the host: on a click, to open the game that was
/// loaded, or `fresh` where none could be loaded; else nothing.
pub fn update<S>(clicked: bool, loaded: Option<S>, fresh: S) -> (command: StackCommand<S>)
    ensures
        clicked ==> command == StackCommand::Push(
            match loaded {
                Some(game) => game,
                None => fresh,
            },
        ),
        !clicked ==> command is Nothing,
{
    if clicked {
        match loaded {
            Some(game) => StackCommand::Push(game),
            None => StackCommand::Push(fresh),
        }
    } else {
        StackCommand::Nothing
    }
}

} // verus!
