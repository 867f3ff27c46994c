//! The main menu with its buttons.

pub mod mainmenu;
