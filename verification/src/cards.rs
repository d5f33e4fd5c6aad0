//! Reference data for activity and adversary cards.
//!
//! Cards are immutable records loaded from external asset data; the engine
//! only reads them. All resource thresholds, costs and effect deltas are in
//! tenths of a resource point.
use vstd::prelude::*;

verus! {

/// One of the four clamped player resources.
#[derive(Debug, Clone, Copy, PartialEq, Eq, Structural)]
pub enum ResourceType {
    Sleep,
    Health,
    Mental,
    Food,
}

/// Derived mood, recomputed from the four resources and never set directly.
#[derive(Debug, Clone, Copy, PartialEq, Eq, Structural)]
pub enum Mood {
    Depressed,
    Anxious,
    Tired,
    Neutral,
    Content,
    Manic,
}

/// Segment of the day, derived from the clock.
#[derive(Debug, Clone, Copy, PartialEq, Eq, Structural)]
pub enum TimeOfDay {
    /// 5:00 to 9:00.
    EarlyMorning,
    /// 9:00 to 12:00.
    Morning,
    /// 12:00 to 17:00.
    Afternoon,
    /// 17:00 to 20:00.
    Evening,
    /// 20:00 to 24:00.
    Night,
    /// 0:00 to 5:00.
    LateNight,
}

/// Severity tier derived from how many resources sit under fixed thresholds.
#[derive(Debug, Clone, Copy, PartialEq, Eq, Structural)]
pub enum CrisisLevel {
    NoCrisis,
    Mild,
    Moderate,
    Severe,
    Critical,
}

/// A timed modifier kind; the payload mirrors the external card data.
#[derive(Debug, Clone, PartialEq, Eq)]
pub enum StatusEffect {
    Insomnia(u32),
    Sick(u32),
    Motivated(u32),
    Overwhelmed(u32),
    Addicted(String, u32),
    Exhausted(u32),
    Anxious(u32),
    Depressed(u32),
    Manic(u32),
    Stable(u32),
    Focused(u32),
    Hungry(u32),
}

/// Broad category of an activity card.
#[derive(Debug, Clone, Copy, PartialEq, Eq, Structural)]
pub enum CardType {
    BasicNeed,
    Entertainment,
    Social,
    Crisis,
    TimeSpecific,
    Delusion,
    LLMGenerated,
    ThoughtCard,
    MemoryCard,
    ImpulseCard,
    ComboCard,
}

/// Availability policy of an activity card.
#[derive(Debug, Clone, Copy, PartialEq, Eq, Structural)]
pub enum CardAvailability {
    Always,
    ConditionalOnly,
    CrisisOnly,
    LLMOnly,
    OneTime,
    DailyReset,
}

/// A free-form extra cost, decoded from its string tag at data-load time.
#[derive(Debug, Clone, PartialEq, Eq, Structural)]
pub enum AdditionalCost {
    /// Adds one negative card to the running count.
    AddNegativeCard,
    /// Locks a resource for the given number of turns.
    LockResource(ResourceType, u32),
    /// Zeroes the given resource outright.
    ConsumeAll(ResourceType),
}

/// Optional eligibility conditions of a card; every present condition must
/// hold for the card to be playable. Thresholds are in tenths of a point.
#[derive(Debug, Clone, PartialEq)]
pub struct CardConditions {
    pub min_sleep: Option<u32>,
    pub min_health: Option<u32>,
    pub min_mental: Option<u32>,
    pub min_food: Option<u32>,
    pub max_sleep: Option<u32>,
    pub max_health: Option<u32>,
    pub max_mental: Option<u32>,
    pub max_food: Option<u32>,
    pub required_mood: Option<Mood>,
    pub forbidden_mood: Option<Mood>,
    pub time_of_day: Option<Vec<TimeOfDay>>,
    pub day_range: Option<(u32, u32)>,
    pub required_objects: Option<Vec<String>>,
    pub crisis_level: Option<CrisisLevel>,
}

/// Per-resource costs (tenths of a point), the time the activity takes, and
/// decoded extra costs.
#[derive(Debug, Clone, PartialEq)]
pub struct CardCosts {
    pub sleep_cost: u32,
    pub health_cost: u32,
    pub mental_cost: u32,
    pub food_cost: u32,
    /// How long the activity takes on the game clock, in minutes.
    pub time_cost_minutes: u32,
    pub additional_costs: Vec<AdditionalCost>,
}

/// Signed per-resource effect deltas, in tenths of a point; scaled by the
/// status-effect multiplier when the card resolves.
#[derive(Debug, Clone, Copy, PartialEq, Eq, Structural)]
pub struct ResourceEffects {
    pub sleep: i32,
    pub health: i32,
    pub mental: i32,
    pub food: i32,
}

/// A status effect a card applies when played, with its duration in turns.
#[derive(Debug, Clone, PartialEq)]
pub struct StatusEffectApplication {
    pub effect: StatusEffect,
    pub duration: u32,
    pub intensity_tenths: u32,
}

/// An immutable activity card: eligibility conditions, costs, effects and
/// bookkeeping policies.
#[derive(Debug, Clone, PartialEq)]
pub struct ActivityCard {
    pub id: u32,
    pub name: String,
    pub description: String,
    pub category: String,
    pub conditions: CardConditions,
    pub costs: CardCosts,
    pub effects: ResourceEffects,
    pub status_effects: Vec<StatusEffectApplication>,
    pub card_type: CardType,
    pub availability: CardAvailability,
    pub flavor_text: String,
    pub one_time_use: bool,
    /// Minimum number of turns between two plays of this card, if any.
    pub cooldown: Option<u32>,
}

/// Category of an adversary card.
#[derive(Debug, Clone, Copy, PartialEq, Eq, Structural)]
pub enum AdversaryCardType {
    Crisis,
    Environmental,
    Social,
    Random,
    Consequence,
}

/// A change to the game environment carried by an adversary card.
#[derive(Debug, Clone, PartialEq)]
pub enum EnvironmentalChange {
    RemoveObject(String),
    AddObject(String),
    LockResource(ResourceType, u32),
}

/// What an adversary card does to the player when it resolves.
#[derive(Debug, Clone, PartialEq)]
pub struct AdversaryEffects {
    pub player_sleep_change: i32,
    pub player_health_change: i32,
    pub player_mental_change: i32,
    pub player_food_change: i32,
    pub status_effects: Vec<StatusEffectApplication>,
    pub environmental_changes: Vec<EnvironmentalChange>,
}

/// An immutable adversary card.
#[derive(Debug, Clone, PartialEq)]
pub struct AdversaryCard {
    pub id: u32,
    pub title: String,
    pub card_type: AdversaryCardType,
    pub effects: AdversaryEffects,
}

} // verus!
