//! Card eligibility and effect resolution behaviour.
use lifesim_core::cards::{
    ActivityCard, AdditionalCost, CardAvailability, CardConditions, CardCosts, CardType,
    CrisisLevel, Mood, ResourceEffects, ResourceType, StatusEffect, StatusEffectApplication,
    TimeOfDay,
};
use lifesim_core::engine::PlayBlock;
use lifesim_core::state::GameState;

fn no_conditions() -> CardConditions {
    CardConditions {
        min_sleep: None,
        min_health: None,
        min_mental: None,
        min_food: None,
        max_sleep: None,
        max_health: None,
        max_mental: None,
        max_food: None,
        required_mood: None,
        forbidden_mood: None,
        time_of_day: None,
        day_range: None,
        required_objects: None,
        crisis_level: None,
    }
}

fn no_costs() -> CardCosts {
    CardCosts {
        sleep_cost: 0,
        health_cost: 0,
        mental_cost: 0,
        food_cost: 0,
        time_cost_minutes: 0,
        additional_costs: Vec::new(),
    }
}

fn blank_card(id: u32) -> ActivityCard {
    ActivityCard {
        id,
        name: String::from("test card"),
        description: String::new(),
        category: String::new(),
        conditions: no_conditions(),
        costs: no_costs(),
        effects: ResourceEffects { sleep: 0, health: 0, mental: 0, food: 0 },
        status_effects: Vec::new(),
        card_type: CardType::BasicNeed,
        availability: CardAvailability::Always,
        flavor_text: String::new(),
        one_time_use: false,
        cooldown: None,
    }
}

#[test]
fn playable_card_has_no_blocks() {
    let st = GameState::default();
    let card = blank_card(1);
    let (ok, blocks) = st.can_play_card(&card);
    assert!(ok);
    assert!(blocks.is_empty());
}

#[test]
fn min_health_blocks_with_message() {
    // Health is 80 points; the card wants at least 90.
    let st = GameState::default();
    let mut card = blank_card(2);
    card.conditions.min_health = Some(900);
    let (ok, blocks) = st.can_play_card(&card);
    assert!(!ok);
    assert_eq!(blocks, vec![PlayBlock::MinHealth(900)]);
    assert_eq!(blocks[0].message(), "Need at least 90 Health");
}

#[test]
fn every_threshold_condition_blocks() {
    let st = GameState::default();
    let mut card = blank_card(3);
    card.conditions.min_sleep = Some(800);
    card.conditions.max_health = Some(700);
    card.conditions.min_mental = Some(700);
    card.conditions.max_food = Some(400);
    let (ok, blocks) = st.can_play_card(&card);
    assert!(!ok);
    assert_eq!(
        blocks,
        vec![
            PlayBlock::MinSleep { need: 800, have: 700 },
            PlayBlock::MaxHealth(700),
            PlayBlock::MinMental(700),
            PlayBlock::MaxFood(400),
        ]
    );
    assert_eq!(blocks[0].message(), "Need at least 80 Sleep (have 70)");
}

#[test]
fn mood_time_day_object_and_crisis_conditions() {
    let mut st = GameState::default();
    st.current_day = 3;
    let mut card = blank_card(4);
    card.conditions.required_mood = Some(Mood::Content);
    card.conditions.forbidden_mood = Some(Mood::Neutral);
    card.conditions.time_of_day = Some(vec![TimeOfDay::Night, TimeOfDay::LateNight]);
    card.conditions.day_range = Some((5, 9));
    card.conditions.required_objects = Some(vec![String::from("bed"), String::from("piano")]);
    card.conditions.crisis_level = Some(CrisisLevel::Severe);
    let (ok, blocks) = st.can_play_card(&card);
    assert!(!ok);
    assert_eq!(
        blocks,
        vec![
            PlayBlock::RequiredMood(Mood::Content),
            PlayBlock::ForbiddenMood(Mood::Neutral),
            PlayBlock::WrongTimeOfDay,
            PlayBlock::WrongDayRange(5, 9),
            PlayBlock::MissingObject(String::from("piano")),
            PlayBlock::WrongCrisisLevel(CrisisLevel::Severe),
        ]
    );
    assert_eq!(blocks[4].message(), "Need piano");
    assert_eq!(blocks[5].message(), "Need Severe crisis level");
}

#[test]
fn unaffordable_costs_block() {
    let st = GameState::default();
    let mut card = blank_card(5);
    card.costs.sleep_cost = 900;
    card.costs.food_cost = 600;
    assert!(!st.can_afford_costs(&card));
    let (ok, blocks) = st.can_play_card(&card);
    assert!(!ok);
    assert_eq!(
        blocks,
        vec![PlayBlock::NotEnoughSleep(900), PlayBlock::NotEnoughFood(600)]
    );
    assert_eq!(blocks[1].message(), "Not enough Food (60 needed)");
}

#[test]
fn scenario_costs_and_effects_apply_with_unit_multiplier() {
    // Sleep 70, health 80, mental 60, food 50; costs 10 sleep, effects
    // +20 mental, multiplier one: ends 60/80/80/50 with no crisis.
    let mut st = GameState::default();
    let mut card = blank_card(6);
    card.costs.sleep_cost = 100;
    card.effects.mental = 200;
    st.apply_card_effects(&card);
    assert_eq!(st.sleep, 600);
    assert_eq!(st.health, 800);
    assert_eq!(st.mental_health, 800);
    assert_eq!(st.food, 500);
    assert_eq!(st.crisis_level, CrisisLevel::NoCrisis);
}

#[test]
fn effects_scale_with_the_multiplier() {
    let mut st = GameState::default();
    st.add_status_effect(StatusEffect::Motivated(0), 3, String::from("coffee"));
    let mut card = blank_card(7);
    card.effects.mental = 200;
    card.effects.food = -100;
    st.apply_card_effects(&card);
    // Multiplier 1.5: +30 points of mental, -15 of food.
    assert_eq!(st.mental_health, 900);
    assert_eq!(st.food, 350);
}

#[test]
fn costs_floor_at_zero_and_effects_clamp() {
    let mut st = GameState::default();
    st.sleep = 50;
    let mut card = blank_card(8);
    card.costs.sleep_cost = 200;
    card.effects.health = 5000;
    st.apply_card_effects(&card);
    assert_eq!(st.sleep, 0);
    assert_eq!(st.health, 1000);
}

#[test]
fn apply_adds_status_effects_and_history() {
    let mut st = GameState::default();
    let mut card = blank_card(9);
    card.status_effects.push(StatusEffectApplication {
        effect: StatusEffect::Focused(0),
        duration: 3,
        intensity_tenths: 10,
    });
    card.costs.sleep_cost = 100;
    let events = st.apply_card_effects(&card);
    assert_eq!(events.len(), 1);
    assert_eq!(events[0].effect, StatusEffect::Focused(0));
    assert_eq!(events[0].duration, 3);
    assert_eq!(events[0].source, "test card");
    assert_eq!(st.status_effects.len(), 1);
    assert_eq!(st.status_effects[0].source, "test card");
    assert_eq!(st.action_history.len(), 1);
    let action = &st.action_history[0];
    assert_eq!(action.turn, 1);
    assert_eq!(action.resources_before.sleep, 700);
    assert_eq!(action.resources_after.sleep, 600);
    assert_eq!(action.timestamp_second, 36000);
}

#[test]
fn turn_number_is_history_length_plus_one() {
    let mut st = GameState::default();
    assert_eq!(st.turn_number(), 1);
    let card = blank_card(10);
    st.apply_card_effects(&card);
    assert_eq!(st.turn_number(), st.action_history.len() as u32 + 1);
    assert_eq!(st.turn_number(), 2);
    st.apply_card_effects(&card);
    assert_eq!(st.turn_number(), 3);
}

#[test]
fn additional_costs_are_processed_in_order() {
    let mut st = GameState::default();
    let mut card = blank_card(11);
    card.costs.additional_costs = vec![
        AdditionalCost::AddNegativeCard,
        AdditionalCost::AddNegativeCard,
        AdditionalCost::LockResource(ResourceType::Mental, 2),
        AdditionalCost::ConsumeAll(ResourceType::Sleep),
    ];
    st.apply_card_effects(&card);
    assert_eq!(st.negative_card_count, 2);
    assert_eq!(st.locked_mental, 2);
    assert_eq!(st.sleep, 0);
}

#[test]
fn cooldown_gates_until_enough_turns_pass() {
    let mut st = GameState::default();
    let mut card = blank_card(12);
    card.cooldown = Some(3);
    let (ok, _) = st.can_play_card(&card);
    assert!(ok);
    st.apply_card_effects(&card);
    // Played on turn 1; turns 2 and 3 are gated, turn 4 is open again.
    for expected_remaining in [2u32, 1u32] {
        let (ok, blocks) = st.can_play_card(&card);
        assert!(!ok);
        assert_eq!(blocks, vec![PlayBlock::OnCooldown(expected_remaining)]);
        // Advance one turn by resolving another card.
        let filler = blank_card(99);
        st.apply_card_effects(&filler);
    }
    let (ok, blocks) = st.can_play_card(&card);
    assert!(ok);
    assert!(blocks.is_empty());
}

#[test]
fn cooldown_message_names_remaining_turns() {
    let mut st = GameState::default();
    let mut card = blank_card(13);
    card.cooldown = Some(5);
    st.apply_card_effects(&card);
    let (_, blocks) = st.can_play_card(&card);
    assert_eq!(blocks[0].message(), "On cooldown for 4 more turns");
}

#[test]
fn one_time_card_plays_at_most_once() {
    let mut st = GameState::default();
    let mut card = blank_card(14);
    card.one_time_use = true;
    let (ok, _) = st.can_play_card(&card);
    assert!(ok);
    st.apply_card_effects(&card);
    let (ok, blocks) = st.can_play_card(&card);
    assert!(!ok);
    assert_eq!(blocks, vec![PlayBlock::OneTimeUsed]);
    // It stays used for the rest of the game, across later turns.
    st.apply_card_effects(&blank_card(99));
    let (ok, _) = st.can_play_card(&card);
    assert!(!ok);
}

#[test]
fn daily_card_resets_on_the_day_change() {
    let mut st = GameState::default();
    let mut card = blank_card(15);
    card.availability = CardAvailability::DailyReset;
    st.apply_card_effects(&card);
    let (ok, blocks) = st.can_play_card(&card);
    assert!(!ok);
    assert_eq!(blocks, vec![PlayBlock::DailyUsed]);
    st.current_day = 2;
    st.handle_daily_reset();
    let (ok, blocks) = st.can_play_card(&card);
    assert!(ok);
    assert!(blocks.is_empty());
}

#[test]
fn daily_reset_tracks_stable_days() {
    let mut st = GameState::default();
    st.current_day = 2;
    st.handle_daily_reset();
    assert_eq!(st.consecutive_stable_days, 1);
    st.current_day = 3;
    st.sleep = 400;
    st.handle_daily_reset();
    assert_eq!(st.consecutive_stable_days, 0);
}

#[test]
fn filter_cards_keeps_only_playable_ones() {
    let st = GameState::default();
    let playable = blank_card(20);
    let mut gated = blank_card(21);
    gated.conditions.min_health = Some(990);
    let kept = st.filter_cards(vec![gated, playable]);
    assert_eq!(kept.len(), 1);
    assert_eq!(kept[0].id, 20);
}
