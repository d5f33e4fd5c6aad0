//! Ledger, mood, crisis, end-game, status-effect and rendering behaviour.
use lifesim_core::cards::{CrisisLevel, Mood, ResourceType, StatusEffect, TimeOfDay};
use lifesim_core::crisis::{EndGameResult, FailureReason, SuccessReason};
use lifesim_core::state::{ActiveStatusEffect, GameState};
use lifesim_core::text::{decimal_string, tenths_string, two_digit_string};

fn effect(kind: StatusEffect, duration: u32) -> ActiveStatusEffect {
    ActiveStatusEffect {
        effect: kind,
        remaining_duration: duration,
        intensity_tenths: 10,
        source: String::from("test"),
    }
}

#[test]
fn apply_delta_clamps_high() {
    let mut st = GameState::default();
    let changed = st.apply_delta(ResourceType::Sleep, 50000);
    assert!(changed);
    assert_eq!(st.sleep, 1000);
}

#[test]
fn apply_delta_clamps_low() {
    let mut st = GameState::default();
    let changed = st.apply_delta(ResourceType::Food, -50000);
    assert!(changed);
    assert_eq!(st.food, 0);
}

#[test]
fn apply_delta_no_change_reported() {
    let mut st = GameState::default();
    let changed = st.apply_delta(ResourceType::Health, 0);
    assert!(!changed);
    assert_eq!(st.health, 800);
}

#[test]
fn apply_delta_sequence_stays_in_range() {
    let mut st = GameState::default();
    let deltas: [i32; 7] = [900, 900, -5000, 70, -30, 2000, -1];
    for d in deltas {
        st.apply_delta(ResourceType::Mental, d);
        assert!(st.mental_health <= 1000);
    }
    assert_eq!(st.mental_health, 999);
}

#[test]
fn mood_rules_first_match_wins() {
    let mut st = GameState::default();
    st.mental_health = 100;
    st.sleep = 100;
    assert_eq!(st.calculate_mood(), Mood::Depressed);
    st.mental_health = 500;
    assert_eq!(st.calculate_mood(), Mood::Tired);
    st.sleep = 300;
    st.mental_health = 300;
    assert_eq!(st.calculate_mood(), Mood::Anxious);
    st.sleep = 900;
    st.health = 900;
    st.mental_health = 900;
    st.food = 900;
    assert_eq!(st.calculate_mood(), Mood::Content);
    st.sleep = 250;
    st.mental_health = 950;
    st.health = 500;
    st.food = 500;
    assert_eq!(st.calculate_mood(), Mood::Manic);
    st.sleep = 600;
    st.mental_health = 600;
    assert_eq!(st.calculate_mood(), Mood::Neutral);
}

#[test]
fn mood_is_pure_in_the_resources() {
    let mut a = GameState::default();
    let mut b = GameState::default();
    b.current_day = 20;
    b.consecutive_stable_days = 5;
    b.status_effects.push(effect(StatusEffect::Motivated(0), 3));
    b.current_mood = Mood::Manic;
    a.sleep = 420;
    b.sleep = 420;
    assert_eq!(a.calculate_mood(), b.calculate_mood());
}

#[test]
fn crisis_all_low_is_critical() {
    let mut st = GameState::default();
    st.sleep = 80;
    st.health = 80;
    st.mental_health = 80;
    st.food = 80;
    assert_eq!(st.calculate_crisis_level(), CrisisLevel::Critical);
}

#[test]
fn crisis_tiers() {
    let mut st = GameState::default();
    st.sleep = 500;
    st.health = 500;
    st.mental_health = 500;
    st.food = 500;
    assert_eq!(st.calculate_crisis_level(), CrisisLevel::NoCrisis);
    st.sleep = 200;
    assert_eq!(st.calculate_crisis_level(), CrisisLevel::Mild);
    st.sleep = 120;
    assert_eq!(st.calculate_crisis_level(), CrisisLevel::Moderate);
    st.sleep = 50;
    assert_eq!(st.calculate_crisis_level(), CrisisLevel::Severe);
    st.health = 90;
    assert_eq!(st.calculate_crisis_level(), CrisisLevel::Critical);
}

#[test]
fn crisis_lowering_a_resource_raises_it() {
    let mut st = GameState::default();
    st.sleep = 500;
    st.health = 500;
    st.mental_health = 500;
    st.food = 500;
    assert_eq!(st.calculate_crisis_level(), CrisisLevel::NoCrisis);
    st.sleep = 50;
    assert_eq!(st.calculate_crisis_level(), CrisisLevel::Severe);
}

#[test]
fn crisis_rules_rank_down_on_second_resource_under_fifteen() {
    // The one documented exception to monotonicity: a second resource in
    // the 10-15 band with none under 10 grades as no crisis.
    let mut st = GameState::default();
    st.sleep = 140;
    st.health = 300;
    st.mental_health = 300;
    st.food = 300;
    assert_eq!(st.calculate_crisis_level(), CrisisLevel::Moderate);
    st.health = 140;
    assert_eq!(st.calculate_crisis_level(), CrisisLevel::NoCrisis);
}

#[test]
fn end_game_failure_rules() {
    let mut st = GameState::default();
    st.sleep = 40;
    st.health = 40;
    st.mental_health = 40;
    st.food = 40;
    assert_eq!(
        st.check_end_game_conditions(),
        Some(EndGameResult::Failure(FailureReason::CompleteBreakdown))
    );

    let mut st = GameState::default();
    st.health = 0;
    assert_eq!(
        st.check_end_game_conditions(),
        Some(EndGameResult::Failure(FailureReason::HealthCrisis))
    );

    let mut st = GameState::default();
    st.mental_health = 0;
    st.status_effects.push(effect(StatusEffect::Depressed(0), 6));
    assert_eq!(
        st.check_end_game_conditions(),
        Some(EndGameResult::Failure(FailureReason::MentalCollapse))
    );

    let mut st = GameState::default();
    st.mental_health = 0;
    st.status_effects.push(effect(StatusEffect::Depressed(0), 5));
    // A short depression is no spiral; one negative effect is no cascade.
    assert_eq!(st.check_end_game_conditions(), None);

    let mut st = GameState::default();
    st.current_day = 30;
    st.sleep = 40;
    st.health = 40;
    st.mental_health = 40;
    st.food = 40;
    st.crisis_level = st.calculate_crisis_level();
    // All four under five points trips the breakdown before the time limit.
    assert_eq!(
        st.check_end_game_conditions(),
        Some(EndGameResult::Failure(FailureReason::CompleteBreakdown))
    );

    let mut st = GameState::default();
    st.current_day = 30;
    st.sleep = 80;
    st.health = 200;
    st.mental_health = 80;
    st.food = 200;
    st.crisis_level = st.calculate_crisis_level();
    assert_eq!(
        st.check_end_game_conditions(),
        Some(EndGameResult::Failure(FailureReason::TimeLimit))
    );

    let mut st = GameState::default();
    st.status_effects.push(effect(StatusEffect::Depressed(0), 2));
    st.status_effects.push(effect(StatusEffect::Anxious(0), 2));
    st.status_effects.push(effect(StatusEffect::Overwhelmed(0), 2));
    assert_eq!(
        st.check_end_game_conditions(),
        Some(EndGameResult::Failure(FailureReason::CascadeFailure))
    );
}

#[test]
fn end_game_success_rules() {
    let mut st = GameState::default();
    st.current_day = 10;
    st.consecutive_stable_days = 7;
    assert_eq!(
        st.check_end_game_conditions(),
        Some(EndGameResult::Success(SuccessReason::Stability))
    );

    let mut st = GameState::default();
    st.sleep = 800;
    st.health = 800;
    st.mental_health = 800;
    st.food = 800;
    assert_eq!(
        st.check_end_game_conditions(),
        Some(EndGameResult::Success(SuccessReason::Recovery))
    );

    let mut st = GameState::default();
    st.current_day = 30;
    assert_eq!(
        st.check_end_game_conditions(),
        Some(EndGameResult::Success(SuccessReason::Resilience))
    );

    let st = GameState::default();
    assert_eq!(st.check_end_game_conditions(), None);
}

#[test]
fn multiplier_sums_contributions() {
    let mut st = GameState::default();
    assert_eq!(st.calculate_effect_multiplier(), 100);
    st.status_effects.push(effect(StatusEffect::Motivated(0), 3));
    assert_eq!(st.calculate_effect_multiplier(), 150);
    st.status_effects.push(effect(StatusEffect::Focused(0), 3));
    assert_eq!(st.calculate_effect_multiplier(), 180);
    st.status_effects.push(effect(StatusEffect::Depressed(0), 3));
    assert_eq!(st.calculate_effect_multiplier(), 150);
    st.status_effects.push(effect(StatusEffect::Overwhelmed(0), 3));
    assert_eq!(st.calculate_effect_multiplier(), 130);
    st.status_effects.push(effect(StatusEffect::Hungry(0), 3));
    assert_eq!(st.calculate_effect_multiplier(), 130);
}

#[test]
fn multiplier_floors_at_a_tenth() {
    let mut st = GameState::default();
    for _ in 0..4 {
        st.status_effects.push(effect(StatusEffect::Depressed(0), 3));
    }
    assert_eq!(st.calculate_effect_multiplier(), 10);
}

#[test]
fn tick_decrements_and_expires_in_order() {
    let mut st = GameState::default();
    st.status_effects.push(effect(StatusEffect::Motivated(0), 1));
    st.status_effects.push(effect(StatusEffect::Focused(0), 2));
    st.status_effects.push(effect(StatusEffect::Sick(0), 1));
    st.locked_mental = 2;
    let expired = st.tick_status_effects();
    assert_eq!(expired, vec![StatusEffect::Motivated(0), StatusEffect::Sick(0)]);
    assert_eq!(st.status_effects.len(), 1);
    assert_eq!(st.status_effects[0].effect, StatusEffect::Focused(0));
    assert_eq!(st.status_effects[0].remaining_duration, 1);
    assert_eq!(st.locked_mental, 1);
    let expired = st.tick_status_effects();
    assert_eq!(expired, vec![StatusEffect::Focused(0)]);
    assert!(st.status_effects.is_empty());
    assert_eq!(st.locked_mental, 0);
}

#[test]
fn tick_expires_zero_duration_effects() {
    let mut st = GameState::default();
    st.status_effects.push(effect(StatusEffect::Hungry(0), 0));
    let expired = st.tick_status_effects();
    assert_eq!(expired, vec![StatusEffect::Hungry(0)]);
    assert!(st.status_effects.is_empty());
}

#[test]
fn add_status_effect_appends_with_unit_weight() {
    let mut st = GameState::default();
    st.add_status_effect(StatusEffect::Insomnia(0), 4, String::from("late night"));
    assert_eq!(st.status_effects.len(), 1);
    assert_eq!(st.status_effects[0].remaining_duration, 4);
    assert_eq!(st.status_effects[0].intensity_tenths, 10);
    assert_eq!(st.status_effects[0].source, "late night");
}

#[test]
fn time_of_day_boundaries() {
    assert_eq!(GameState::calculate_time_of_day(0), TimeOfDay::LateNight);
    assert_eq!(GameState::calculate_time_of_day(17999), TimeOfDay::LateNight);
    assert_eq!(GameState::calculate_time_of_day(18000), TimeOfDay::EarlyMorning);
    assert_eq!(GameState::calculate_time_of_day(32400), TimeOfDay::Morning);
    assert_eq!(GameState::calculate_time_of_day(43200), TimeOfDay::Afternoon);
    assert_eq!(GameState::calculate_time_of_day(61200), TimeOfDay::Evening);
    assert_eq!(GameState::calculate_time_of_day(72000), TimeOfDay::Night);
    assert_eq!(GameState::calculate_time_of_day(86399), TimeOfDay::Night);
}

#[test]
fn default_state_matches_opening_values() {
    let st = GameState::default();
    assert_eq!(st.second_of_day, 36000);
    assert_eq!(st.current_day, 1);
    assert_eq!(st.sleep, 700);
    assert_eq!(st.health, 800);
    assert_eq!(st.mental_health, 600);
    assert_eq!(st.food, 500);
    assert_eq!(st.current_mood, Mood::Neutral);
    assert_eq!(st.time_of_day, TimeOfDay::Morning);
    assert_eq!(st.available_objects.len(), 9);
    assert_eq!(st.available_objects[0], "bed");
    assert_eq!(st.available_objects[8], "window");
    assert_eq!(st.turn_number(), 1);
}

#[test]
fn rendering_numbers_and_labels() {
    assert_eq!(decimal_string(0), "0");
    assert_eq!(decimal_string(7), "7");
    assert_eq!(decimal_string(907), "907");
    assert_eq!(two_digit_string(3), "03");
    assert_eq!(two_digit_string(42), "42");
    assert_eq!(tenths_string(900), "90");
    assert_eq!(tenths_string(905), "90.5");
    assert_eq!(tenths_string(25), "2.5");
    let st = GameState::default();
    assert_eq!(st.get_time_string(), "10:00");
    assert_eq!(st.get_day_string(), "Day 1");
    let mut st = GameState::default();
    st.second_of_day = 79500;
    assert_eq!(st.get_time_string(), "22:05");
}
