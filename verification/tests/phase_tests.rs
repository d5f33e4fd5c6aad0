//! Phase machine behaviour: the turn cycle, cutscene suspend/resume, the
//! passive step reducer and the chance sources.
use lifesim_core::cards::{
    ActivityCard, AdversaryCard, AdversaryCardType, AdversaryEffects, CardAvailability,
    CardConditions, CardCosts, CardType, EnvironmentalChange, ResourceEffects, ResourceType,
};
use lifesim_core::chance::{choose_adversary_index, random_percent};
use lifesim_core::events::{GamePhase, GameStep, InEvent, OutEvent};
use lifesim_core::phase::{GameCore, GamePhaseState};
use lifesim_core::state::GameState;

fn fresh_core() -> GameCore {
    GameCore::new(GameState::default(), GamePhaseState::default())
}

fn simple_card(id: u32) -> ActivityCard {
    ActivityCard {
        id,
        name: String::from("walk"),
        description: String::new(),
        category: String::new(),
        conditions: CardConditions {
            min_sleep: None,
            min_health: None,
            min_mental: None,
            min_food: None,
            max_sleep: None,
            max_health: None,
            max_mental: None,
            max_food: None,
            required_mood: None,
            forbidden_mood: None,
            time_of_day: None,
            day_range: None,
            required_objects: None,
            crisis_level: None,
        },
        costs: CardCosts {
            sleep_cost: 0,
            health_cost: 0,
            mental_cost: 0,
            food_cost: 0,
            time_cost_minutes: 0,
            additional_costs: Vec::new(),
        },
        effects: ResourceEffects { sleep: 0, health: 0, mental: 0, food: 0 },
        status_effects: Vec::new(),
        card_type: CardType::BasicNeed,
        availability: CardAvailability::Always,
        flavor_text: String::new(),
        one_time_use: false,
        cooldown: None,
    }
}

fn adversary_card(id: u32) -> AdversaryCard {
    AdversaryCard {
        id,
        title: String::from("bad dream"),
        card_type: AdversaryCardType::Crisis,
        effects: AdversaryEffects {
            player_sleep_change: 0,
            player_health_change: 0,
            player_mental_change: 0,
            player_food_change: 0,
            status_effects: Vec::new(),
            environmental_changes: Vec::new(),
        },
    }
}

#[test]
fn full_cycle_returns_to_card_draw_with_next_turn() {
    let mut core = fresh_core();
    assert_eq!(core.phase.current_phase, GamePhase::CardDraw);
    assert_eq!(core.phase.turn_number, 1);

    core.handle_card_drawn(5);
    assert_eq!(core.phase.current_phase, GamePhase::CardSelection);

    // A roll of 99 keeps the 60% cutscene gate shut for a basic card.
    let events = core.handle_card_selected(simple_card(1), 99);
    assert_eq!(core.phase.current_phase, GamePhase::CharacterAction);
    assert!(matches!(events[0], OutEvent::CardSelectionSuccess { card_id: 1 }));
    assert!(core.phase.pending_post_action_cutscene.is_none());

    core.handle_action_completed(simple_card(1));
    assert_eq!(core.phase.current_phase, GamePhase::AdversaryCardDraw);

    core.handle_adversary_card_drawn(2);
    assert_eq!(core.phase.current_phase, GamePhase::AdversaryCardSelection);

    core.handle_adversary_card_selected(adversary_card(7));
    assert_eq!(core.phase.current_phase, GamePhase::AdversaryCardSelection);

    let events = core.handle_adversary_action_completed(7);
    assert!(matches!(events[0], OutEvent::PhaseChanged { new_phase: GamePhase::TurnOver }));
    assert_eq!(core.phase.current_phase, GamePhase::CardDraw);
    assert_eq!(core.phase.turn_number, 2);
    assert!(!core.phase.cutscene_active);
    assert!(core.phase.selected_card_id.is_none());
}

#[test]
fn turn_over_applies_the_passive_decay() {
    let mut core = fresh_core();
    core.phase.current_phase = GamePhase::AdversaryCardSelection;
    core.handle_adversary_action_completed(1);
    // One decayed hour: 70-5, 80-2.5, 60-4, 50-6 points, clock at 11:00.
    assert_eq!(core.state.sleep, 650);
    assert_eq!(core.state.health, 775);
    assert_eq!(core.state.mental_health, 560);
    assert_eq!(core.state.food, 440);
    assert_eq!(core.state.second_of_day, 39600);
}

#[test]
fn events_outside_their_phase_are_dropped() {
    let mut core = fresh_core();
    // Selection while still drawing: ignored.
    let events = core.handle_card_selected(simple_card(1), 0);
    assert!(events.is_empty());
    assert_eq!(core.phase.current_phase, GamePhase::CardDraw);
    assert!(core.state.action_history.is_empty());
    // Adversary events during the player's phases: ignored.
    let events = core.handle_adversary_card_selected(adversary_card(2));
    assert!(events.is_empty());
    // Draw count during a cutscene: ignored.
    core.phase.cutscene_active = true;
    let events = core.handle_card_drawn(4);
    assert!(events.is_empty());
    assert_eq!(core.phase.current_phase, GamePhase::CardDraw);
}

#[test]
fn unplayable_selection_reports_and_stays_put() {
    let mut core = fresh_core();
    core.handle_card_drawn(5);
    let mut card = simple_card(3);
    card.conditions.min_health = Some(900);
    let before = core.state.clone();
    let events = core.handle_card_selected(card, 0);
    assert_eq!(events.len(), 1);
    match &events[0] {
        OutEvent::CardSelectionError { card_id, blocks } => {
            assert_eq!(*card_id, 3);
            assert_eq!(blocks.len(), 1);
            assert_eq!(blocks[0].message(), "Need at least 90 Health");
        },
        other => panic!("unexpected event {:?}", other),
    }
    assert_eq!(core.phase.current_phase, GamePhase::CardSelection);
    assert_eq!(core.state, before);
}

#[test]
fn crisis_and_combo_cards_always_queue_their_cutscene() {
    let mut core = fresh_core();
    core.handle_card_drawn(5);
    let mut card = simple_card(4);
    card.card_type = CardType::Crisis;
    core.handle_card_selected(card, 99);
    assert!(core.phase.pending_post_action_cutscene.is_some());
    assert!(core.state.shown_cutscenes.contains(&4));
    // The queued cutscene starts when the action completes.
    let events = core.handle_action_completed(simple_card(4));
    assert!(core.phase.cutscene_active);
    assert!(matches!(events.last().unwrap(), OutEvent::CutsceneStart { .. }));
    assert_eq!(core.phase.current_phase, GamePhase::CharacterAction);
}

#[test]
fn shown_cutscenes_do_not_repeat() {
    let mut core = fresh_core();
    core.state.shown_cutscenes.push(6);
    core.handle_card_drawn(5);
    let mut card = simple_card(6);
    card.card_type = CardType::Crisis;
    core.handle_card_selected(card, 0);
    assert!(core.phase.pending_post_action_cutscene.is_none());
}

#[test]
fn low_roll_queues_cutscene_for_ordinary_cards() {
    let mut core = fresh_core();
    core.handle_card_drawn(5);
    core.handle_card_selected(simple_card(8), 59);
    assert!(core.phase.pending_post_action_cutscene.is_some());
}

#[test]
fn cutscene_ending_in_character_action_resumes_at_adversary_draw() {
    let mut core = fresh_core();
    core.phase.current_phase = GamePhase::CharacterAction;
    core.phase.cutscene_active = true;
    core.phase.previous_phase = Some(GamePhase::CharacterAction);
    let events = core.handle_cutscene_ended();
    assert_eq!(core.phase.current_phase, GamePhase::AdversaryCardDraw);
    assert!(!core.phase.cutscene_active);
    assert!(core.phase.previous_phase.is_none());
    assert!(matches!(
        events[0],
        OutEvent::PhaseChanged { new_phase: GamePhase::AdversaryCardDraw }
    ));
}

#[test]
fn cutscene_ending_in_adversary_selection_resumes_at_turn_over() {
    let mut core = fresh_core();
    core.phase.current_phase = GamePhase::AdversaryCardSelection;
    core.phase.cutscene_active = true;
    let events = core.handle_cutscene_ended();
    // The resume target is turn-over, never back to the held phase; the
    // turn-over processing then runs as usual.
    assert!(matches!(events[0], OutEvent::PhaseChanged { new_phase: GamePhase::TurnOver }));
    assert_eq!(core.phase.turn_number, 2);
    assert!(!core.phase.cutscene_active);
}

#[test]
fn cutscene_end_without_cutscene_is_ignored() {
    let mut core = fresh_core();
    let events = core.handle_cutscene_ended();
    assert!(events.is_empty());
    assert_eq!(core.phase.current_phase, GamePhase::CardDraw);
}

#[test]
fn step_advances_clock_and_rolls_the_day() {
    let mut core = fresh_core();
    let step = GameStep {
        delta_seconds: 50400,
        sleep_change: -100,
        health_change: 0,
        mental_change: 0,
        food_change: 0,
    };
    let events = core.handle(InEvent::Step(step));
    // 10:00 plus 14 hours wraps to midnight of day two.
    assert_eq!(core.state.second_of_day, 0);
    assert_eq!(core.state.current_day, 2);
    assert!(events
        .iter()
        .any(|e| matches!(e, OutEvent::DayChanged { old_day: 1, new_day: 2 })));
    assert!(events.iter().any(|e| matches!(
        e,
        OutEvent::ResourceChanged { resource: ResourceType::Sleep, old_tenths: 700, new_tenths: 600 }
    )));
    // The day change settles the daily bookkeeping: a stable day one.
    assert_eq!(core.state.consecutive_stable_days, 1);
    assert!(core.state.daily_used_cards.is_empty());
}

#[test]
fn step_reports_crisis_changes() {
    let mut core = fresh_core();
    let step = GameStep {
        delta_seconds: 0,
        sleep_change: -650,
        health_change: 0,
        mental_change: 0,
        food_change: 0,
    };
    let events = core.handle_step(&step);
    assert_eq!(core.state.sleep, 50);
    assert!(events.iter().any(|e| matches!(
        e,
        OutEvent::CrisisLevelChanged { new_level, .. }
            if *new_level == lifesim_core::cards::CrisisLevel::Severe
    )));
}

#[test]
fn adversary_card_shifts_resources_and_environment() {
    let mut core = fresh_core();
    core.phase.current_phase = GamePhase::AdversaryCardSelection;
    let mut card = adversary_card(9);
    card.effects.player_sleep_change = -200;
    card.effects.environmental_changes = vec![
        EnvironmentalChange::RemoveObject(String::from("tv")),
        EnvironmentalChange::AddObject(String::from("piano")),
        EnvironmentalChange::LockResource(ResourceType::Mental, 3),
    ];
    core.handle_adversary_card_selected(card);
    assert_eq!(core.state.sleep, 500);
    assert!(!core.state.available_objects.contains(&String::from("tv")));
    assert!(core.state.available_objects.contains(&String::from("piano")));
    assert_eq!(core.state.locked_mental, 3);
}

#[test]
fn phase_names_and_cutscene_flag() {
    let mut phase = GamePhaseState::default();
    assert_eq!(phase.get_phase_name(), "Card Draw");
    phase.current_phase = GamePhase::AdversaryCardSelection;
    assert_eq!(phase.get_phase_name(), "Adversary Card Selection");
    assert!(!phase.is_cutscene_active());
    phase.cutscene_active = true;
    assert!(phase.is_cutscene_active());
}

#[test]
fn chance_sources_stay_in_range() {
    for _ in 0..200 {
        assert!(random_percent() < 100);
    }
    assert_eq!(choose_adversary_index(0), None);
    for _ in 0..50 {
        let i = choose_adversary_index(3).unwrap();
        assert!(i < 3);
    }
}

#[test]
fn dispatcher_matches_the_direct_handlers() {
    let mut a = fresh_core();
    let mut b = fresh_core();
    a.handle(InEvent::CardDrawn { count: 5 });
    b.handle_card_drawn(5);
    assert_eq!(a, b);
    a.handle(InEvent::AdversaryCardDrawn { count: 2 });
    b.handle_adversary_card_drawn(2);
    assert_eq!(a, b);
    a.handle(InEvent::CutsceneEnded);
    b.handle_cutscene_ended();
    assert_eq!(a, b);
}
