use game_core::constants::DESIRED_FPS;
use game_core::event::Event;
use game_core::gamestate::GameState;
use game_core::machine::{set_state, Machine, State};
use game_core::resources::Resources;
use game_core::screen::{Popup, PopupKind};

fn machines() -> Vec<Machine> {
    vec![
        Machine::new("oxygen plant", State::Running),
        Machine::new("hole", State::Running),
        Machine::new("Stromgenerator", State::Running),
    ]
}

fn zero() -> Resources<i16> {
    Resources { oxygen: 0, energy: 0, life: 0 }
}

fn event_lasting(name: &str, ticks: i32) -> Event {
    Event {
        name: name.to_string(),
        info_text: String::new(),
        resources: Some(Resources { oxygen: 1, energy: 2, life: 3 }),
        duration: ticks,
        popup_type: "warning".to_string(),
        popup_message: "look out".to_string(),
    }
}

#[test]
fn ticks_per_second() {
    assert_eq!(DESIRED_FPS, 60);
}

#[test]
fn new_event_stores_its_duration_in_ticks() {
    let delta = Resources { oxygen: 1, energy: 2, life: 3 };
    let e = Event::new(["storm", "a storm"], "take cover", "warning", delta, 10);
    assert_eq!(e.name, "storm");
    assert_eq!(e.info_text, "a storm");
    assert_eq!(e.popup_message, "take cover");
    assert_eq!(e.popup_type, "warning");
    assert_eq!(e.resources, Some(delta));
    assert_eq!(e.duration, 600);
    assert_eq!(e.get_name(), "storm");
    let e = Event::new(["a", "b"], "c", "d", delta, -3);
    assert_eq!(e.duration, -180);
    let e = Event::new(["a", "b"], "c", "d", delta, 0);
    assert_eq!(e.duration, 0);
}

#[test]
fn event_is_active_while_ticks_are_left() {
    assert!(event_lasting("e", 600).is_active());
    assert!(event_lasting("e", 1).is_active());
}

#[test]
fn event_with_no_ticks_left_is_inactive() {
    assert!(!event_lasting("e", 0).is_active());
    assert!(!event_lasting("e", -1).is_active());
    assert!(!event_lasting("e", -20).is_active());
    assert!(!event_lasting("e", i32::MIN).is_active());
}

#[test]
fn popup_kinds_follow_the_type() {
    assert_eq!(
        Event::send_popup("m", "warning"),
        Popup { kind: PopupKind::Warning, text: "m".to_string(), duration: 10 }
    );
    assert_eq!(
        Event::send_popup("m", "nasa"),
        Popup { kind: PopupKind::Nasa, text: "m".to_string(), duration: 10 }
    );
    assert_eq!(
        Event::send_popup("m", "mars"),
        Popup { kind: PopupKind::Mars, text: "m".to_string(), duration: 10 }
    );
}

#[test]
fn popup_of_unknown_type_is_an_error() {
    for t in ["", "Warning", "info", "warning "] {
        assert_eq!(
            Event::send_popup("m", t),
            Popup { kind: PopupKind::Error, text: "Error".to_string(), duration: 10 }
        );
    }
}

#[test]
fn draw_zero_gives_a_comet_impact() {
    let e = Event::for_draw(0, 0).unwrap();
    assert_eq!(e.name, "comet impact");
    assert_eq!(e.duration, 10 * DESIRED_FPS as i32);
    assert_eq!(e.resources, Some(Resources { oxygen: 10, energy: 0, life: 0 }));
    assert_eq!(e.popup_type, "warning");
    let mut game = GameState::new(machines());
    let popup = e.action(false, &mut game).unwrap();
    assert_eq!(popup.kind, PopupKind::Warning);
    assert_eq!(popup.text, e.popup_message);
    assert_eq!(game.machines[1].state, State::Idle);
    assert_eq!(game.machines[0].state, State::Running);
    assert_eq!(game.machines[2].state, State::Running);
    assert_eq!(game.player.resources_change, zero());
}

#[test]
fn draw_eleven_gives_an_informational_event_without_cost() {
    for pick in 0..4 {
        let e = Event::for_draw(11, pick).unwrap();
        assert_eq!(e.name, "information from NASA");
        assert_eq!(e.resources, Some(zero()));
        assert_eq!(e.popup_type, "nasa");
        assert_eq!(e.duration, 600);
        let mut game = GameState::new(machines());
        let popup = e.action(false, &mut game).unwrap();
        assert_eq!(popup.kind, PopupKind::Nasa);
        assert_eq!(game.player.resources_change, zero());
        assert_eq!(game.machines, machines());
    }
    let texts: Vec<String> = (0..4).map(|p| Event::for_draw(11, p).unwrap().popup_message).collect();
    for i in 0..4 {
        for j in 0..i {
            assert_ne!(texts[i], texts[j]);
        }
    }
}

#[test]
fn draw_forty_four_gives_a_fact_about_the_planet() {
    let texts: Vec<String> = (0..5).map(|p| Event::for_draw(44, p).unwrap().popup_message).collect();
    for i in 0..5 {
        for j in 0..i {
            assert_ne!(texts[i], texts[j]);
        }
    }
    let e = Event::for_draw(44, 2).unwrap();
    assert_eq!(e.name, "information about Mars");
    assert_eq!(e.popup_type, "mars");
    assert_eq!(e.resources, Some(zero()));
    assert_eq!(e.duration, 600);
}

#[test]
fn draw_twenty_two_gives_a_sandstorm() {
    let e = Event::for_draw(22, 0).unwrap();
    assert_eq!(e.name, "sandstorm");
    assert_eq!(e.resources, Some(Resources { oxygen: 5, energy: 5, life: 0 }));
    assert_eq!(e.duration, 600);
    assert_eq!(e.popup_type, "warning");
}

#[test]
fn draw_thirty_three_gives_a_power_outage() {
    let e = Event::for_draw(33, 0).unwrap();
    assert_eq!(e.name, "power outage");
    assert_eq!(e.resources, Some(Resources { oxygen: 0, energy: 10, life: 0 }));
    assert_eq!(e.duration, 600);
    let mut game = GameState::new(machines());
    let popup = e.action(false, &mut game).unwrap();
    assert_eq!(popup.kind, PopupKind::Warning);
    assert_eq!(game.machines[2].state, State::Broken);
    assert_eq!(game.machines[1].state, State::Running);
    assert_eq!(game.player.resources_change, zero());
}

#[test]
fn all_other_draws_give_no_event() {
    for draw in 0..50usize {
        let event = Event::for_draw(draw, 0);
        assert_eq!(event.is_some(), [0, 11, 22, 33, 44].contains(&draw), "draw {}", draw);
    }
    assert!(Event::for_draw(50, 0).is_none());
    assert!(Event::for_draw(usize::MAX, 0).is_none());
}

#[test]
fn same_draw_same_event() {
    for draw in [0usize, 11, 22, 33, 44] {
        assert_eq!(Event::for_draw(draw, 0), Event::for_draw(draw, 0));
    }
}

#[test]
fn generator_gives_nothing_or_one_of_the_five() {
    let names = ["comet impact", "information from NASA", "sandstorm", "power outage", "information about Mars"];
    let mut seen = 0;
    for _ in 0..20000 {
        if let Some(e) = Event::event_generator() {
            seen += 1;
            assert!(names.contains(&e.name.as_str()));
            assert_eq!(e.duration, 600);
            let again = (0..5).any(|pick| {
                [0usize, 11, 22, 33, 44].iter().any(|&d| {
                    (pick == 0 || (d == 11 && pick < 4) || d == 44) && Event::for_draw(d, pick).as_ref() == Some(&e)
                })
            });
            assert!(again);
        }
    }
    assert!(seen > 0);
    assert!(seen < 20000);
}

#[test]
fn sandstorm_takes_and_restore_gives_back() {
    let e = Event::for_draw(22, 0).unwrap();
    let mut game = GameState::new(machines());
    game.player.resources_change = Resources { oxygen: 3, energy: -4, life: 9 };
    let popup = e.action(false, &mut game);
    assert_eq!(popup.unwrap().kind, PopupKind::Warning);
    assert_eq!(game.player.resources_change, Resources { oxygen: -2, energy: -9, life: 9 });
    let popup = e.action(true, &mut game);
    assert_eq!(popup, None);
    assert_eq!(game.player.resources_change, Resources { oxygen: 3, energy: -4, life: 9 });
    assert_eq!(game.machines, machines());
}

#[test]
fn round_trip_at_the_edge_of_the_range() {
    let mut e = event_lasting("drain", 100);
    e.resources = Some(Resources { oxygen: 1, energy: -1, life: 0 });
    let mut game = GameState::new(Vec::new());
    game.player.resources_change = Resources { oxygen: i16::MIN + 1, energy: i16::MAX - 1, life: 0 };
    e.action(false, &mut game);
    assert_eq!(game.player.resources_change, Resources { oxygen: i16::MIN, energy: i16::MAX, life: 0 });
    e.action(true, &mut game);
    assert_eq!(game.player.resources_change, Resources { oxygen: i16::MIN + 1, energy: i16::MAX - 1, life: 0 });
}

#[test]
fn event_without_resources_changes_nothing() {
    let mut e = event_lasting("note", 100);
    e.resources = None;
    let mut game = GameState::new(machines());
    assert!(e.action(false, &mut game).is_some());
    assert_eq!(game.player.resources_change, zero());
    assert!(e.action(true, &mut game).is_none());
    assert_eq!(game.player.resources_change, zero());
    assert_eq!(game.machines, machines());
}

#[test]
fn machine_events_ignore_restore_and_their_delta() {
    let e = Event::for_draw(0, 0).unwrap();
    let mut game = GameState::new(machines());
    let popup = e.action(true, &mut game);
    assert!(popup.is_some());
    assert_eq!(game.machines[1].state, State::Idle);
    assert_eq!(game.player.resources_change, zero());
}

#[test]
fn comet_without_a_hole_changes_no_machine() {
    let e = Event::for_draw(0, 0).unwrap();
    let only = vec![Machine::new("Loch", State::Running), Machine::new("Hole", State::Broken)];
    let mut game = GameState::new(only.clone());
    assert!(e.action(false, &mut game).is_some());
    assert_eq!(game.machines, only);
}

#[test]
fn set_state_reaches_every_machine_of_the_name() {
    let mut ms = vec![
        Machine::new("pump", State::Running),
        Machine::new("hole", State::Broken),
        Machine::new("pump", State::Idle),
    ];
    set_state(&mut ms, "pump", State::Broken);
    assert_eq!(ms[0], Machine::new("pump", State::Broken));
    assert_eq!(ms[1], Machine::new("hole", State::Broken));
    assert_eq!(ms[2], Machine::new("pump", State::Broken));
    set_state(&mut ms, "nothing", State::Running);
    assert_eq!(ms[0].state, State::Broken);
    set_state(&mut ms, "hole", State::Running);
    assert_eq!(ms[1].state, State::Running);
    let mut none: Vec<Machine> = Vec::new();
    set_state(&mut none, "hole", State::Idle);
    assert!(none.is_empty());
}

#[test]
fn machine_changes_its_state() {
    let mut m = Machine::new("pump", State::Running);
    m.change_state_to(&State::Idle);
    assert_eq!(m, Machine { name: "pump".to_string(), state: State::Idle });
}

#[test]
fn game_starts_quiet() {
    let game = GameState::new(machines());
    assert!(game.events.is_empty());
    assert_eq!(game.player.resources_change, zero());
    assert_eq!(game.player.position, (0, 0));
    assert_eq!(game.machines, machines());
}

#[test]
fn scenario_comet_at_tick_thousand() {
    let mut game = GameState::new(machines());
    assert!(game.events.is_empty());
    assert_eq!(game.player.resources_change, zero());
    for tick in 1..1000usize {
        assert_eq!(Event::step_events(tick, None, &mut game), None);
        assert!(game.events.is_empty());
    }
    let popup = Event::step_events(1000, Event::for_draw(0, 0), &mut game);
    assert_eq!(popup.unwrap().kind, PopupKind::Warning);
    assert_eq!(game.events.len(), 1);
    assert_eq!(game.events[0].name, "comet impact");
    assert_eq!(game.events[0].duration, 10 * DESIRED_FPS as i32);
    assert_eq!(game.machines[1].state, State::Idle);
    assert_eq!(game.player.resources_change, zero());
    for tick in 1001..1020usize {
        assert_eq!(Event::step_events(tick, None, &mut game), None);
        assert_eq!(game.events[0].duration, 600);
    }
    assert_eq!(Event::step_events(1020, None, &mut game), None);
    assert_eq!(game.events.len(), 1);
    assert_eq!(game.events[0].duration, 10 * DESIRED_FPS as i32 - 20);
}

#[test]
fn events_run_down_and_leave() {
    let mut game = GameState::new(Vec::new());
    game.events.push(event_lasting("short", 40));
    game.events.push(event_lasting("gone", 0));
    game.events.push(event_lasting("long", 45));
    game.events.push(event_lasting("edge", 20));
    game.events.push(event_lasting("late", -5));
    Event::step_events(3, None, &mut game);
    assert_eq!(game.events.len(), 5);
    Event::step_events(20, None, &mut game);
    let left: Vec<(String, i32)> = game.events.iter().map(|e| (e.name.clone(), e.duration)).collect();
    assert_eq!(left, vec![("short".to_string(), 20), ("long".to_string(), 25)]);
    Event::step_events(40, None, &mut game);
    let left: Vec<(String, i32)> = game.events.iter().map(|e| (e.name.clone(), e.duration)).collect();
    assert_eq!(left, vec![("long".to_string(), 5)]);
    Event::step_events(60, None, &mut game);
    assert!(game.events.is_empty());
}

#[test]
fn ageing_strictly_shortens_until_the_event_is_gone() {
    let mut game = GameState::new(Vec::new());
    game.events.push(event_lasting("e", 600));
    let mut last = 600;
    let mut passes = 0;
    let mut tick = 0usize;
    while !game.events.is_empty() {
        tick += 20;
        Event::step_events(tick, None, &mut game);
        passes += 1;
        if let Some(e) = game.events.first() {
            assert_eq!(e.duration, last - 20);
            assert!(e.is_active());
            last = e.duration;
        }
    }
    assert_eq!(passes, 30);
    assert_eq!(last, 20);
}

#[test]
fn ageing_leaves_very_negative_durations_out() {
    let mut game = GameState::new(Vec::new());
    game.events.push(event_lasting("old", i32::MIN));
    game.events.push(event_lasting("new", i32::MAX));
    Event::step_events(0, None, &mut game);
    assert_eq!(game.events.len(), 1);
    assert_eq!(game.events[0].duration, i32::MAX - 20);
}

#[test]
fn expiry_does_not_take_the_effect_back() {
    let mut game = GameState::new(machines());
    Event::step_events(1000, Event::for_draw(22, 0), &mut game);
    assert_eq!(game.player.resources_change, Resources { oxygen: -5, energy: -5, life: 0 });
    for pass in 1..=30usize {
        Event::step_events(1000 + 20 * pass, None, &mut game);
    }
    assert!(game.events.is_empty());
    assert_eq!(game.player.resources_change, Resources { oxygen: -5, energy: -5, life: 0 });
}

#[test]
fn event_that_arises_off_the_spawn_tick_is_dropped() {
    let mut game = GameState::new(machines());
    let popup = Event::step_events(999, Event::for_draw(0, 0), &mut game);
    assert_eq!(popup, None);
    assert!(game.events.is_empty());
    assert_eq!(game.machines, machines());
}

#[test]
fn new_event_joins_after_those_in_force() {
    let mut game = GameState::new(machines());
    game.events.push(event_lasting("first", 100));
    Event::step_events(2000, Event::for_draw(33, 0), &mut game);
    assert_eq!(game.events.len(), 2);
    assert_eq!(game.events[0].name, "first");
    assert_eq!(game.events[0].duration, 80);
    assert_eq!(game.events[1].name, "power outage");
    assert_eq!(game.events[1].duration, 600);
    assert_eq!(game.machines[2].state, State::Broken);
}

#[test]
fn update_events_off_the_spawn_tick_only_ages() {
    let mut game = GameState::new(machines());
    game.events.push(event_lasting("e", 50));
    assert_eq!(Event::update_events(7, &mut game), None);
    assert_eq!(game.events[0].duration, 50);
    assert_eq!(Event::update_events(40, &mut game), None);
    assert_eq!(game.events[0].duration, 30);
    assert_eq!(game.machines, machines());
    assert_eq!(game.player.resources_change, zero());
}

#[test]
fn update_events_on_the_spawn_tick_follows_some_draw() {
    let mut arisen = 0;
    for round in 0..5000 {
        let mut game = GameState::new(machines());
        let popup = Event::update_events(1000, &mut game);
        assert!(game.events.len() <= 1);
        assert_eq!(popup.is_some(), game.events.len() == 1);
        if let Some(e) = game.events.first() {
            arisen += 1;
            let mut expected = GameState::new(machines());
            let again = e.action(false, &mut expected);
            assert_eq!(again, popup, "round {}", round);
            assert_eq!(expected.machines, game.machines);
            assert_eq!(expected.player, game.player);
            assert_eq!(e.duration, 600);
        } else {
            assert_eq!(game.machines, machines());
            assert_eq!(game.player.resources_change, zero());
        }
    }
    assert!(arisen > 0);
}

#[test]
fn can_act_tells_when_the_resources_would_leave_their_range() {
    let sandstorm = Event::for_draw(22, 0).unwrap();
    let mut game = GameState::new(machines());
    assert!(sandstorm.can_act(false, &game));
    assert!(sandstorm.can_act(true, &game));
    game.player.resources_change = Resources { oxygen: i16::MIN + 5, energy: i16::MIN + 5, life: i16::MIN };
    assert!(sandstorm.can_act(false, &game));
    game.player.resources_change = Resources { oxygen: i16::MIN + 4, energy: 0, life: 0 };
    assert!(!sandstorm.can_act(false, &game));
    assert!(sandstorm.can_act(true, &game));
    game.player.resources_change = Resources { oxygen: 0, energy: i16::MAX - 4, life: 0 };
    assert!(sandstorm.can_act(false, &game));
    assert!(!sandstorm.can_act(true, &game));
    game.player.resources_change = Resources { oxygen: i16::MIN, energy: i16::MIN, life: i16::MIN };
    assert!(Event::for_draw(0, 0).unwrap().can_act(false, &game));
    assert!(Event::for_draw(33, 0).unwrap().can_act(true, &game));
    assert!(Event::for_draw(11, 0).unwrap().can_act(false, &game));
    let mut silent = event_lasting("note", 10);
    silent.resources = None;
    assert!(silent.can_act(false, &game));
    assert!(!event_lasting("drain", 10).can_act(false, &game));
}

#[test]
fn can_update_events_asks_for_room_on_spawn_ticks_only() {
    let mut game = GameState::new(machines());
    assert!(Event::can_update_events(0, &game));
    assert!(Event::can_update_events(1000, &game));
    game.player.resources_change = Resources { oxygen: i16::MIN + 4, energy: 0, life: 0 };
    assert!(!Event::can_update_events(0, &game));
    assert!(!Event::can_update_events(3000, &game));
    assert!(Event::can_update_events(1, &game));
    assert!(Event::can_update_events(2980, &game));
    game.player.resources_change = Resources { oxygen: 0, energy: i16::MIN, life: 0 };
    assert!(!Event::can_update_events(1000, &game));
    game.player.resources_change = Resources { oxygen: i16::MIN + 5, energy: i16::MIN + 5, life: i16::MIN };
    assert!(Event::can_update_events(1000, &game));
}

#[test]
fn pick_is_read_only_where_an_event_has_several_texts() {
    for pick in [0usize, 1, 4, 5, 1000, usize::MAX] {
        assert_eq!(Event::for_draw(0, pick), Event::for_draw(0, 0));
        assert_eq!(Event::for_draw(22, pick), Event::for_draw(22, 0));
        assert_eq!(Event::for_draw(33, pick), Event::for_draw(33, 0));
        assert_eq!(Event::for_draw(7, pick), None);
        assert_eq!(Event::for_draw(49, pick), None);
    }
    assert_ne!(Event::for_draw(11, 3), Event::for_draw(11, 0));
    assert_ne!(Event::for_draw(44, 4), Event::for_draw(44, 0));
}

#[test]
fn ageing_changes_nothing_but_the_duration() {
    let mut game = GameState::new(machines());
    let sandstorm = Event::for_draw(22, 0).unwrap();
    let note = Event::new(["note", "a note"], "read me", "nasa", zero(), 1);
    game.events.push(sandstorm.clone());
    game.events.push(event_lasting("over", 20));
    game.events.push(note.clone());
    assert_eq!(Event::update_events(20, &mut game), None);
    assert_eq!(game.events.len(), 2);
    let mut aged_sandstorm = sandstorm;
    aged_sandstorm.duration -= 20;
    let mut aged_note = note;
    aged_note.duration -= 20;
    assert_eq!(game.events, vec![aged_sandstorm, aged_note]);
    assert_eq!(game.events[1].duration, 40);
    assert_eq!(game.player.position, (0, 0));
}
