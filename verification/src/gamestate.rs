//! The running game: the player, the machines and the events in force.

use crate::event::{Event, EventView};
use crate::machine::{machine_views, Machine, MachineView};
use crate::resources::Resources;
use vstd::prelude::*;

verus! {

/// The player, as far as the simulation moves them.
#[derive(Debug, PartialEq, Eq)]
pub struct Player {
    /// Where the player stands.
    pub position: (usize, usize),
    /// The net change of the player's resources per step: what the events
    /// in force have taken is subtracted here.
    pub resources_change: Resources<i16>,
}

/// A running game.
#[derive(Debug, PartialEq, Eq)]
pub struct GameState {
    pub player: Player,
    /// The events in force, in the order in which they arose.
    pub events: Vec<Event>,
    pub machines: Vec<Machine>,
}

/// A running game as contracts see it.
pub struct GameStateView {
    pub position: (usize, usize),
    pub resources_change: Resources<i16>,
    pub events: Seq<EventView>,
    pub machines: Seq<MachineView>,
}

/// The views of a list of events, in order.
pub open spec fn event_views(events: Seq<Event>) -> Seq<EventView> {
    Seq::new(events.len(), |i: int| events[i]@)
}

impl View for GameState {
    type V = GameStateView;

    open spec fn view(&self) -> GameStateView {
        GameStateView {
            position: self.player.position,
            resources_change: self.player.resources_change,
            events: event_views(self.events@),
            machines: machine_views(self.machines@),
        }
    }
}

impl GameState {
    /// A game at its start: the player at the origin, resources steady, no
    /// event in force, and the given machines.
    pub fn new(machines: Vec<Machine>) -> (game: GameState)
        ensures
            game@ == (GameStateView {
                position: (0, 0),
                resources_change: Resources { oxygen: 0, energy: 0, life: 0 },
                events: Seq::empty(),
                machines: machine_views(machines@),
            }),
    {
        let game = GameState {
            player: Player {
                position: (0, 0),
                resources_change: Resources { oxygen: 0, energy: 0, life: 0 },
            },
            events: Vec::new(),
            machines,
        };
        assert(event_views(game.events@) =~= Seq::<EventView>::empty());
        game
    }
}

} // verus!
