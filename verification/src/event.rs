//! Timed events that perturb the player's resources or the machines.
//!
//! An event arises from a random draw, is applied to the running game at
//! once, and then stays in force until its duration has run out. While the
//! game runs, [`Event::update_events`] is called once per tick.

use crate::constants::{DESIRED_FPS, EVENT_AGING_TICKS, EVENT_DRAWS, EVENT_SPAWN_TICKS};
use crate::gamestate::{event_views, GameState, GameStateView};
use crate::machine::{machines_with_state, set_state, State};
use crate::random::{draw_below, new_rng};
use crate::resources::Resources;
use crate::screen::{option_popup_view, Popup, PopupKind, PopupView, POPUP_SECONDS};
use crate::texts::{
    mars_fact, mars_fact_text, nasa_message, nasa_message_text, same_text, COMET_IMPACT,
    COMET_IMPACT_INFO, COMET_IMPACT_WARNING, ERROR_TEXT, HOLE, MARS, MARS_FACTS,
    MARS_INFORMATION, MARS_INFORMATION_INFO, NASA, NASA_INFORMATION, NASA_INFORMATION_INFO,
    NASA_MESSAGES, POWER_GENERATOR, POWER_OUTAGE, POWER_OUTAGE_INFO, POWER_OUTAGE_WARNING,
    SANDSTORM, SANDSTORM_INFO, SANDSTORM_WARNING, WARNING,
};
use vstd::prelude::*;
use vstd::std_specs::ops::{AddSpec, SubSpec};

verus! {

/// Seconds for which an event that arose from a draw stays in force.
pub const EVENT_SECONDS: i32 = 10;

/// What a comet impact takes.
pub open spec fn comet_impact_cost() -> Resources<i16> {
    Resources { oxygen: 10, energy: 0, life: 0 }
}

/// What a power outage takes.
pub open spec fn power_outage_cost() -> Resources<i16> {
    Resources { oxygen: 0, energy: 10, life: 0 }
}

/// What a sandstorm takes.
pub open spec fn sandstorm_cost() -> Resources<i16> {
    Resources { oxygen: 5, energy: 5, life: 0 }
}

/// What an event takes that only informs.
pub open spec fn no_cost() -> Resources<i16> {
    Resources { oxygen: 0, energy: 0, life: 0 }
}

/// Something that befalls the base for a while.
#[derive(Clone, Debug, PartialEq, Eq)]
pub struct Event {
    /// The name, by which the event's effect is chosen.
    pub name: String,
    pub info_text: String,
    /// What the event takes from the player's resources while it lasts;
    /// `None` for an event that only informs.
    pub resources: Option<Resources<i16>>,
    /// Ticks that the event still has to run.
    pub duration: i32,
    pub popup_type: String,
    pub popup_message: String,
}

/// An event as contracts see it.
pub struct EventView {
    pub name: Seq<char>,
    pub info_text: Seq<char>,
    pub resources: Option<Resources<i16>>,
    pub duration: int,
    pub popup_type: Seq<char>,
    pub popup_message: Seq<char>,
}

impl View for Event {
    type V = EventView;

    open spec fn view(&self) -> EventView {
        EventView {
            name: self.name@,
            info_text: self.info_text@,
            resources: self.resources,
            duration: self.duration as int,
            popup_type: self.popup_type@,
            popup_message: self.popup_message@,
        }
    }
}

/// The view of an event that may be absent.
pub open spec fn option_event_view(event: Option<Event>) -> Option<EventView> {
    match event {
        Some(event) => Some(event@),
        None => None,
    }
}

/// The popup that announces a message of the given type: a warning, a
/// message from mission control or a fact about the planet. Any other type
/// gives an error popup, which does not show the message.
pub open spec fn popup_for(popup_type: Seq<char>, popup_message: Seq<char>) -> PopupView {
    if popup_type == WARNING@ {
        PopupView::standard(PopupKind::Warning, popup_message)
    } else if popup_type == NASA@ {
        PopupView::standard(PopupKind::Nasa, popup_message)
    } else if popup_type == MARS@ {
        PopupView::standard(PopupKind::Mars, popup_message)
    } else {
        PopupView::standard(PopupKind::Error, ERROR_TEXT@)
    }
}

impl EventView {
    /// Whether the event still runs: it does while ticks are left.
    pub open spec fn is_active(self) -> bool {
        self.duration > 0
    }

    /// The event with `ticks` fewer ticks to run.
    pub open spec fn shortened(self, ticks: int) -> EventView {
        EventView { duration: self.duration - ticks, ..self }
    }

    /// Whether the event acts on a machine, and leaves the resources alone.
    pub open spec fn strikes_machine(self) -> bool {
        self.name == COMET_IMPACT@ || self.name == POWER_OUTAGE@
    }

    /// The popup that announces the event.
    pub open spec fn popup(self) -> PopupView {
        popup_for(self.popup_type, self.popup_message)
    }

    /// The popup that goes with applying the event (`restore` false) or
    /// with taking its effect back (`restore` true). Only taking back what
    /// an event took from the resources is silent.
    pub open spec fn action_popup(self, restore: bool) -> Option<PopupView> {
        if self.strikes_machine() || !restore {
            Some(self.popup())
        } else {
            None
        }
    }

    /// Whether the event can act on the game: where it changes the
    /// resources, no component may leave the range of `i16`.
    pub open spec fn can_act(self, restore: bool, game: GameStateView) -> bool {
        if self.strikes_machine() {
            true
        } else {
            match self.resources {
                Some(delta) => if restore {
                    game.resources_change.add_req(delta)
                } else {
                    game.resources_change.sub_req(delta)
                },
                None => true,
            }
        }
    }

    /// The game after the event has acted on it.
    ///
    /// A comet impact leaves the hole idle and a power outage breaks the
    /// generator, whatever `restore` says. Any other event takes its delta
    /// from the net change of the resources, or gives it back on `restore`.
    pub open spec fn acted(self, restore: bool, game: GameStateView) -> GameStateView {
        if self.name == COMET_IMPACT@ {
            GameStateView {
                machines: machines_with_state(game.machines, HOLE@, State::Idle),
                ..game
            }
        } else if self.name == POWER_OUTAGE@ {
            GameStateView {
                machines: machines_with_state(game.machines, POWER_GENERATOR@, State::Broken),
                ..game
            }
        } else {
            match self.resources {
                Some(delta) => GameStateView {
                    resources_change: if restore {
                        game.resources_change.add_spec(delta)
                    } else {
                        game.resources_change.sub_spec(delta)
                    },
                    ..game
                },
                None => game,
            }
        }
    }
}

/// The number of texts among which a second draw picks, for the events that
/// have several; 1 for all others.
pub open spec fn picks(draw: int) -> int {
    if draw == 11 {
        NASA_MESSAGES as int
    } else if draw == 44 {
        MARS_FACTS as int
    } else {
        1
    }
}

/// An event that arises from a draw, with its fixed duration.
pub open spec fn arising(
    name: Seq<char>,
    info_text: Seq<char>,
    popup_message: Seq<char>,
    popup_type: Seq<char>,
    resources: Resources<i16>,
) -> EventView {
    EventView {
        name,
        info_text,
        resources: Some(resources),
        duration: EVENT_SECONDS * DESIRED_FPS,
        popup_type,
        popup_message,
    }
}

/// The event that a draw gives rise to. Five draws do: 0 a comet impact, 11
/// a message from mission control, 22 a sandstorm, 33 a power outage, 44 a
/// fact about the planet. `pick` chooses the text where there are several.
/// Every other draw gives no event.
pub open spec fn generated(draw: int, pick: int) -> Option<EventView> {
    if draw == 0 {
        Some(
            arising(
                COMET_IMPACT@,
                COMET_IMPACT_INFO@,
                COMET_IMPACT_WARNING@,
                WARNING@,
                comet_impact_cost(),
            ),
        )
    } else if draw == 11 {
        Some(
            arising(
                NASA_INFORMATION@,
                NASA_INFORMATION_INFO@,
                nasa_message_text(pick),
                NASA@,
                no_cost(),
            ),
        )
    } else if draw == 22 {
        Some(arising(SANDSTORM@, SANDSTORM_INFO@, SANDSTORM_WARNING@, WARNING@, sandstorm_cost()))
    } else if draw == 33 {
        Some(
            arising(
                POWER_OUTAGE@,
                POWER_OUTAGE_INFO@,
                POWER_OUTAGE_WARNING@,
                WARNING@,
                power_outage_cost(),
            ),
        )
    } else if draw == 44 {
        Some(
            arising(
                MARS_INFORMATION@,
                MARS_INFORMATION_INFO@,
                mars_fact_text(pick),
                MARS@,
                no_cost(),
            ),
        )
    } else {
        None
    }
}

/// The events that are left of `events` after their durations were brought
/// up to date: each is shortened by [`EVENT_AGING_TICKS`], and those that
/// no longer run are dropped. The order stays.
pub open spec fn aged(events: Seq<EventView>) -> Seq<EventView> {
    events.map_values(|event: EventView| event.shortened(EVENT_AGING_TICKS as int)).filter(
        |event: EventView| event.is_active(),
    )
}

impl GameStateView {
    /// The game after the tick numbered `tick`, in which `arisen` arose.
    ///
    /// On every tick that [`EVENT_AGING_TICKS`] divides, the events are
    /// aged. On every tick that [`EVENT_SPAWN_TICKS`] divides, the event
    /// that arose, if any, is applied and joins the events in force as the
    /// last of them. An event that has run out leaves without its effect
    /// being taken back.
    pub open spec fn stepped(self, tick: int, arisen: Option<EventView>) -> GameStateView {
        let kept = GameStateView { events: kept_events(self.events, tick), ..self };
        if tick % (EVENT_SPAWN_TICKS as int) == 0 && arisen is Some {
            let event = arisen->0;
            let struck = event.acted(false, kept);
            GameStateView { events: struck.events.push(event), ..struck }
        } else {
            kept
        }
    }

    /// Whether the event that arose can be applied on this tick.
    pub open spec fn can_step(self, tick: int, arisen: Option<EventView>) -> bool {
        tick % (EVENT_SPAWN_TICKS as int) == 0 && arisen is Some ==> (arisen->0).can_act(
            false,
            self,
        )
    }

    /// The popup that the tick numbered `tick` calls for.
    pub open spec fn step_popup(tick: int, arisen: Option<EventView>) -> Option<PopupView> {
        if tick % (EVENT_SPAWN_TICKS as int) == 0 && arisen is Some {
            (arisen->0).action_popup(false)
        } else {
            None
        }
    }
}

/// Ageing a list with one more event at its end.
pub proof fn lemma_aged_push(events: Seq<EventView>, event: EventView)
    ensures
        aged(events.push(event)) == if event.duration > EVENT_AGING_TICKS {
            aged(events).push(event.shortened(EVENT_AGING_TICKS as int))
        } else {
            aged(events)
        },
{
    let shorten = |event: EventView| event.shortened(EVENT_AGING_TICKS as int);
    let shortened = events.push(event).map_values(shorten);
    assert(shortened.drop_last() =~= events.map_values(shorten));
    reveal(Seq::filter);
}

/// The events that are in force once the tick numbered `tick` has aged
/// them: on a tick that [`EVENT_AGING_TICKS`] divides they are aged, on
/// every other tick they are as they were.
pub open spec fn kept_events(events: Seq<EventView>, tick: int) -> Seq<EventView> {
    if tick % (EVENT_AGING_TICKS as int) == 0 {
        aged(events)
    } else {
        events
    }
}

/// Whether `event` is one of `events` after an ageing pass: that one had
/// more than [`EVENT_AGING_TICKS`] ticks left, `event` has as many fewer,
/// and its name, texts, resources and popup are the same.
pub open spec fn aged_from(event: EventView, events: Seq<EventView>) -> bool {
    exists|j: int|
        0 <= j < events.len() && events[j].duration > EVENT_AGING_TICKS && event
            == (#[trigger] events[j]).shortened(EVENT_AGING_TICKS as int)
}

/// Whether an event has more than `ticks` ticks left.
pub open spec fn outlasts(ticks: int) -> spec_fn(EventView) -> bool {
    |event: EventView| event.duration > ticks
}

/// An event with `ticks` fewer ticks to run.
pub open spec fn shorten_by(ticks: int) -> spec_fn(EventView) -> EventView {
    |event: EventView| event.shortened(ticks)
}

/// Those of `events` that have more than `ticks` ticks left, in their
/// order, each with `ticks` fewer.
pub open spec fn aged_by(events: Seq<EventView>, ticks: int) -> Seq<EventView> {
    events.filter(outlasts(ticks)).map_values(shorten_by(ticks))
}

/// The events after their durations were brought up to date `passes` times.
pub open spec fn aged_times(events: Seq<EventView>, passes: nat) -> Seq<EventView>
    decreases passes,
{
    if passes == 0 {
        events
    } else {
        aged(aged_times(events, (passes - 1) as nat))
    }
}

proof fn lemma_aged_by_push(events: Seq<EventView>, event: EventView, ticks: int)
    ensures
        aged_by(events.push(event), ticks) == if event.duration > ticks {
            aged_by(events, ticks).push(event.shortened(ticks))
        } else {
            aged_by(events, ticks)
        },
{
    reveal(Seq::filter);
    assert(events.push(event).drop_last() =~= events);
    if event.duration > ticks {
        assert(events.filter(outlasts(ticks)).push(event).map_values(shorten_by(ticks))
            =~= aged_by(events, ticks).push(event.shortened(ticks)));
    }
}

proof fn lemma_aged_by_twice(events: Seq<EventView>, first: int, second: int)
    requires
        first >= 0,
        second >= 0,
    ensures
        aged_by(aged_by(events, first), second) == aged_by(events, first + second),
    decreases events.len(),
{
    if events.len() == 0 {
        reveal(Seq::filter);
        assert(aged_by(events, first) =~= events);
        assert(aged_by(events, second) =~= events);
        assert(aged_by(events, first + second) =~= events);
    } else {
        let front = events.drop_last();
        let event = events.last();
        assert(events =~= front.push(event));
        lemma_aged_by_twice(front, first, second);
        lemma_aged_by_push(front, event, first);
        lemma_aged_by_push(front, event, first + second);
        if event.duration > first {
            lemma_aged_by_push(aged_by(front, first), event.shortened(first), second);
            assert(event.shortened(first).shortened(second) == event.shortened(first + second));
        }
    }
}

/// One ageing pass keeps exactly the events that had more than
/// [`EVENT_AGING_TICKS`] ticks left, in their order, and takes as many
/// ticks from each. So every event that is left still runs, is one of the
/// old events with strictly fewer ticks left, and is otherwise unchanged.
pub proof fn lemma_aged_keeps_the_running(events: Seq<EventView>)
    ensures
        aged(events) == aged_by(events, EVENT_AGING_TICKS as int),
        aged(events).len() <= events.len(),
        forall|i: int| 0 <= i < aged(events).len() ==> (#[trigger] aged(events)[i]).is_active(),
        forall|i: int|
            0 <= i < aged(events).len() ==> aged_from(#[trigger] aged(events)[i], events),
    decreases events.len(),
{
    if events.len() == 0 {
        reveal(Seq::filter);
        assert(aged(events) =~= events);
        assert(aged_by(events, EVENT_AGING_TICKS as int) =~= events);
    } else {
        let front = events.drop_last();
        let event = events.last();
        assert(events =~= front.push(event));
        lemma_aged_keeps_the_running(front);
        lemma_aged_push(front, event);
        lemma_aged_by_push(front, event, EVENT_AGING_TICKS as int);
        assert forall|i: int| 0 <= i < aged(events).len() implies aged_from(
            #[trigger] aged(events)[i],
            events,
        ) by {
            if i < aged(front).len() {
                assert(aged_from(aged(front)[i], front));
                let j = choose|j: int|
                    0 <= j < front.len() && front[j].duration > EVENT_AGING_TICKS && aged(
                        front,
                    )[i] == (#[trigger] front[j]).shortened(EVENT_AGING_TICKS as int);
                assert(events[j] == front[j]);
            } else {
                assert(events[events.len() - 1] == event);
            }
        }
    }
}

/// What a tick does to the events that were in force, whatever arises in
/// it: they come first among the events afterwards, in their order, and at
/// most one event follows them. On a tick that [`EVENT_AGING_TICKS`]
/// divides, each of them is one of the old events with
/// [`EVENT_AGING_TICKS`] ticks fewer, which is strictly less than it had,
/// still runs, and is otherwise unchanged; the old events that had no more
/// than that many ticks left are gone. On any other tick they are as they
/// were.
pub proof fn lemma_step_ages_the_events(
    game: GameStateView,
    tick: int,
    arisen: Option<EventView>,
)
    ensures
        kept_events(game.events, tick).len() <= game.stepped(tick, arisen).events.len()
            <= kept_events(game.events, tick).len() + 1,
        game.stepped(tick, arisen).events.take(kept_events(game.events, tick).len() as int)
            == kept_events(game.events, tick),
        tick % (EVENT_AGING_TICKS as int) == 0 ==> kept_events(game.events, tick) == aged_by(
            game.events,
            EVENT_AGING_TICKS as int,
        ),
        tick % (EVENT_AGING_TICKS as int) == 0 ==> forall|i: int|
            0 <= i < kept_events(game.events, tick).len() ==> {
                &&& (#[trigger] game.stepped(tick, arisen).events[i]).is_active()
                &&& aged_from(game.stepped(tick, arisen).events[i], game.events)
            },
        tick % (EVENT_AGING_TICKS as int) != 0 ==> kept_events(game.events, tick) == game.events,
{
    let kept = kept_events(game.events, tick);
    let after = game.stepped(tick, arisen).events;
    lemma_aged_keeps_the_running(game.events);
    assert(after.take(kept.len() as int) =~= kept);
}

/// Events run down and then leave: after `passes` ageing passes, one or
/// more, exactly those events are left that had more than `passes` times
/// [`EVENT_AGING_TICKS`] ticks to run, in their order, each with that many
/// ticks fewer. An event's remaining duration thus falls by
/// [`EVENT_AGING_TICKS`] with every pass, and the pass that brings it to
/// zero or below removes the event.
pub proof fn lemma_events_run_down(events: Seq<EventView>, passes: nat)
    requires
        passes >= 1,
    ensures
        aged_times(events, passes) == aged_by(events, passes * EVENT_AGING_TICKS),
        forall|i: int|
            0 <= i < aged_times(events, passes).len() ==> (#[trigger] aged_times(
                events,
                passes,
            )[i]).is_active(),
    decreases passes,
{
    let before = aged_times(events, (passes - 1) as nat);
    lemma_aged_keeps_the_running(before);
    if passes == 1 {
        assert(before == events);
    } else {
        lemma_events_run_down(events, (passes - 1) as nat);
        lemma_aged_by_twice(events, (passes - 1) * EVENT_AGING_TICKS, EVENT_AGING_TICKS as int);
    }
}

/// Applying an event and then taking its effect back leaves the net change
/// of the player's resources as it was: what was subtracted is added
/// again. For an event that does not strike a machine the whole game is as
/// it was. The event must be one that can be applied to the game.
pub proof fn lemma_action_round_trip(event: EventView, game: GameStateView)
    requires
        event.can_act(false, game),
    ensures
        event.can_act(true, event.acted(false, game)),
        event.acted(true, event.acted(false, game)).resources_change == game.resources_change,
        !event.strikes_machine() ==> event.acted(true, event.acted(false, game)) == game,
{
}

impl Event {
    /// An event called `event[0]` and described by `event[1]`, which takes
    /// `resources` and lasts `duration` seconds.
    pub fn new(
        event: [&str; 2],
        popup_message: &str,
        popup_type: &str,
        resources: Resources<i16>,
        duration: i32,
    ) -> (created: Event)
        requires
            i32::MIN <= duration * DESIRED_FPS <= i32::MAX,
        ensures
            created@ == (EventView {
                name: event[0]@,
                info_text: event[1]@,
                resources: Some(resources),
                duration: duration * DESIRED_FPS,
                popup_type: popup_type@,
                popup_message: popup_message@,
            }),
    {
        Event {
            name: event[0].to_owned(),
            info_text: event[1].to_owned(),
            resources: Some(resources),
            duration: duration * (DESIRED_FPS as i32),
            popup_type: popup_type.to_owned(),
            popup_message: popup_message.to_owned(),
        }
    }

    /// The event that a draw gives rise to, if it gives rise to one. `pick`
    /// is read only for the two draws whose event has several texts, and
    /// must there be the number of one of them.
    pub fn for_draw(draw: usize, pick: usize) -> (event: Option<Event>)
        requires
            draw == 11 ==> pick < NASA_MESSAGES,
            draw == 44 ==> pick < MARS_FACTS,
        ensures
            option_event_view(event) == generated(draw as int, pick as int),
    {
        let quiet = Resources { oxygen: 0, energy: 0, life: 0 };
        if draw == 0 {
            Some(
                Event::new(
                    [COMET_IMPACT, COMET_IMPACT_INFO],
                    COMET_IMPACT_WARNING,
                    WARNING,
                    Resources { oxygen: 10, energy: 0, life: 0 },
                    EVENT_SECONDS,
                ),
            )
        } else if draw == 11 {
            Some(
                Event::new(
                    [NASA_INFORMATION, NASA_INFORMATION_INFO],
                    nasa_message(pick),
                    NASA,
                    quiet,
                    EVENT_SECONDS,
                ),
            )
        } else if draw == 22 {
            Some(
                Event::new(
                    [SANDSTORM, SANDSTORM_INFO],
                    SANDSTORM_WARNING,
                    WARNING,
                    Resources { oxygen: 5, energy: 5, life: 0 },
                    EVENT_SECONDS,
                ),
            )
        } else if draw == 33 {
            Some(
                Event::new(
                    [POWER_OUTAGE, POWER_OUTAGE_INFO],
                    POWER_OUTAGE_WARNING,
                    WARNING,
                    Resources { oxygen: 0, energy: 10, life: 0 },
                    EVENT_SECONDS,
                ),
            )
        } else if draw == 44 {
            Some(
                Event::new(
                    [MARS_INFORMATION, MARS_INFORMATION_INFO],
                    mars_fact(pick),
                    MARS,
                    quiet,
                    EVENT_SECONDS,
                ),
            )
        } else {
            None
        }
    }

    /// Draws at random whether an event arises, and which: one draw among
    /// [`EVENT_DRAWS`], and a second one for the text where the event has
    /// several. The result is the event of [`generated`] for those draws.
    pub fn event_generator() -> (event: Option<Event>)
        ensures
            exists|draw: int, pick: int|
                0 <= draw < EVENT_DRAWS && 0 <= pick < picks(draw) && #[trigger] generated(
                    draw,
                    pick,
                ) == option_event_view(event),
    {
        let rng = new_rng();
        let draw = draw_below(&rng, EVENT_DRAWS);
        let pick = if draw == 11 {
            draw_below(&rng, NASA_MESSAGES)
        } else if draw == 44 {
            draw_below(&rng, MARS_FACTS)
        } else {
            0
        };
        let event = Event::for_draw(draw, pick);
        assert(generated(draw as int, pick as int) == option_event_view(event));
        event
    }

    /// The popup that announces a message of the given type. The caller
    /// sends it to the host of the screen stack.
    pub fn send_popup(popup_message: &str, popup_type: &str) -> (popup: Popup)
        ensures
            popup@ == popup_for(popup_type@, popup_message@),
    {
        if same_text(popup_type, WARNING) {
            Popup::warning(popup_message.to_owned())
        } else if same_text(popup_type, NASA) {
            Popup::nasa(popup_message.to_owned())
        } else if same_text(popup_type, MARS) {
            Popup::mars(popup_message.to_owned())
        } else {
            Popup::new(PopupKind::Error, ERROR_TEXT.to_owned(), POPUP_SECONDS)
        }
    }

    /// Whether the event still runs.
    pub fn is_active(&self) -> (active: bool)
        ensures
            active == self@.is_active(),
    {
        self.duration > 0
    }

    /// Whether the event can act on the game: whether [`Event::action`]
    /// may be called with these arguments.
    pub fn can_act(&self, restore: bool, gamestate: &GameState) -> (fits: bool)
        ensures
            fits == self@.can_act(restore, gamestate@),
    {
        if same_text(self.name.as_str(), COMET_IMPACT) || same_text(
            self.name.as_str(),
            POWER_OUTAGE,
        ) {
            true
        } else {
            match self.resources {
                Some(resources) => if restore {
                    gamestate.player.resources_change.can_add(resources)
                } else {
                    gamestate.player.resources_change.can_sub(resources)
                },
                None => true,
            }
        }
    }

    /// Applies the event to the game, or with `restore` takes its effect
    /// back, and returns the popup to send, if the action calls for one.
    pub fn action(&self, restore: bool, gamestate: &mut GameState) -> (popup: Option<Popup>)
        requires
            self@.can_act(restore, old(gamestate)@),
        ensures
            final(gamestate)@ == self@.acted(restore, old(gamestate)@),
            option_popup_view(popup) == self@.action_popup(restore),
    {
        if same_text(self.name.as_str(), COMET_IMPACT) {
            set_state(&mut gamestate.machines, HOLE, State::Idle);
            Some(Event::send_popup(self.popup_message.as_str(), self.popup_type.as_str()))
        } else if same_text(self.name.as_str(), POWER_OUTAGE) {
            set_state(&mut gamestate.machines, POWER_GENERATOR, State::Broken);
            Some(Event::send_popup(self.popup_message.as_str(), self.popup_type.as_str()))
        } else {
            if let Some(resources) = self.resources {
                if restore {
                    gamestate.player.resources_change = gamestate.player.resources_change
                        + resources;
                } else {
                    gamestate.player.resources_change = gamestate.player.resources_change
                        - resources;
                }
            }
            if restore {
                None
            } else {
                Some(Event::send_popup(self.popup_message.as_str(), self.popup_type.as_str()))
            }
        }
    }

    /// The event's name.
    pub fn get_name(&self) -> (name: String)
        ensures
            name@ == self@.name,
    {
        self.name.clone()
    }

    /// Advances the events of the game by the tick numbered `tick`, in
    /// which `arisen` arose, and returns the popup to send, if any.
    pub fn step_events(tick: usize, arisen: Option<Event>, gamestate: &mut GameState) -> (popup:
        Option<Popup>)
        requires
            old(gamestate)@.can_step(tick as int, option_event_view(arisen)),
        ensures
            final(gamestate)@ == old(gamestate)@.stepped(tick as int, option_event_view(arisen)),
            option_popup_view(popup) == GameStateView::step_popup(
                tick as int,
                option_event_view(arisen),
            ),
    {
        if tick % EVENT_AGING_TICKS == 0 {
            let mut running: Vec<Event> = Vec::new();
            std::mem::swap(&mut gamestate.events, &mut running);
            let ghost all = event_views(running@);
            assert(event_views(gamestate.events@) =~= aged(all.take(0))) by {
                reveal(Seq::filter);
            }
            for event in iter: running
                invariant
                    event_views(iter.seq()) == all,
                    event_views(gamestate.events@) == aged(all.take(iter.index())),
                    gamestate.player == old(gamestate).player,
                    gamestate.machines == old(gamestate).machines,
            {
                proof {
                    lemma_aged_push(all.take(iter.index()), event@);
                    assert(all.take(iter.index() + 1) =~= all.take(iter.index()).push(event@));
                }
                let ghost before = gamestate.events@;
                if event.duration > EVENT_AGING_TICKS as i32 {
                    let mut event = event;
                    event.duration = event.duration - EVENT_AGING_TICKS as i32;
                    gamestate.events.push(event);
                    assert(event_views(gamestate.events@) =~= event_views(before).push(event@));
                }
            }
            assert(all.take(all.len() as int) =~= all);
        }
        if tick % EVENT_SPAWN_TICKS == 0 {
            match arisen {
                Some(event) => {
                    let ghost before = gamestate.events@;
                    let popup = event.action(false, gamestate);
                    gamestate.events.push(event);
                    assert(event_views(gamestate.events@) =~= event_views(before).push(event@));
                    popup
                },
                None => None,
            }
        } else {
            None
        }
    }

    /// Whether the game can take whatever event may arise on the tick
    /// numbered `tick`: whether [`Event::update_events`] may be called with
    /// these arguments. Of the events that a draw can give, the sandstorm
    /// takes most from the resources.
    pub fn can_update_events(tick: usize, gamestate: &GameState) -> (fits: bool)
        ensures
            fits == (tick % EVENT_SPAWN_TICKS == 0 ==> gamestate@.resources_change.sub_req(
                sandstorm_cost(),
            )),
    {
        tick % EVENT_SPAWN_TICKS != 0 || gamestate.player.resources_change.can_sub(
            Resources { oxygen: 5, energy: 5, life: 0 },
        )
    }

    /// Advances the events of the game by the tick numbered `tick`, and
    /// returns the popup to send, if any. On a tick that
    /// [`EVENT_SPAWN_TICKS`] divides, a random draw decides whether an event
    /// arises; the game then is as [`GameStateView::stepped`] says for
    /// one of the events that a draw can give.
    pub fn update_events(tick: usize, gamestate: &mut GameState) -> (popup: Option<Popup>)
        requires
            tick % EVENT_SPAWN_TICKS == 0 ==> old(gamestate)@.resources_change.sub_req(
                sandstorm_cost(),
            ),
        ensures
            tick % EVENT_SPAWN_TICKS != 0 ==> final(gamestate)@ == old(gamestate)@.stepped(
                tick as int,
                None,
            ) && popup is None,
            tick % EVENT_SPAWN_TICKS == 0 ==> exists|draw: int, pick: int|
                0 <= draw < EVENT_DRAWS && 0 <= pick < picks(draw) && final(gamestate)@ == old(
                    gamestate,
                )@.stepped(tick as int, #[trigger] generated(draw, pick)) && option_popup_view(
                    popup,
                ) == GameStateView::step_popup(tick as int, generated(draw, pick)),
            final(gamestate)@.position == old(gamestate)@.position,
            final(gamestate)@.events.len() >= kept_events(old(gamestate)@.events, tick as int).len(),
            final(gamestate)@.events.take(
                kept_events(old(gamestate)@.events, tick as int).len() as int,
            ) == kept_events(old(gamestate)@.events, tick as int),
            tick % EVENT_AGING_TICKS == 0 ==> forall|i: int|
                0 <= i < aged(old(gamestate)@.events).len() ==> {
                    &&& (#[trigger] final(gamestate)@.events[i]).is_active()
                    &&& aged_from(final(gamestate)@.events[i], old(gamestate)@.events)
                },
    {
        let arisen = if tick % EVENT_SPAWN_TICKS == 0 {
            Event::event_generator()
        } else {
            None
        };
        proof {
            lemma_step_ages_the_events(old(gamestate)@, tick as int, option_event_view(arisen));
        }
        Event::step_events(tick, arisen, gamestate)
    }
}

} // verus!
