//! Simulation core of a survival game: depleting life-support resources,
//! timed events that perturb them, and the stack of screens the game is
//! shown through.

pub mod constants;
pub mod deathscreen;
pub mod event;
pub mod gamestate;
pub mod input;
pub mod item;
pub mod machine;
pub mod main_menu;
pub mod mainmenu;
pub mod movement;
pub mod random;
pub mod resources;
pub mod screen;
pub mod texts;
