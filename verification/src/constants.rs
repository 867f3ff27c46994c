//! Fixed numbers of the simulation.

use vstd::prelude::*;

verus! {

/// Simulation ticks per second. Durations given in seconds are stored in
/// ticks: seconds times this.
pub const DESIRED_FPS: u32 = 60;

/// An event's remaining duration is brought up to date once in this many
/// ticks, and is shortened by as many.
pub const EVENT_AGING_TICKS: usize = 20;

/// A new event may arise once in this many ticks.
pub const EVENT_SPAWN_TICKS: usize = 1000;

/// The number of outcomes of the draw that decides which event arises.
pub const EVENT_DRAWS: usize = 50;

} // verus!
