//! The events through which the core talks to its surroundings, and the
//! phase vocabulary they share.
use vstd::prelude::*;

use crate::cards::{ActivityCard, AdversaryCard, CrisisLevel, Mood, ResourceType, StatusEffect, TimeOfDay};
use crate::crisis::EndGameResult;
use crate::engine::{PlayBlock, StatusEffectApplied};

verus! {

/// One stage of the turn cycle.
#[derive(Debug, Clone, Copy, PartialEq, Eq, Structural)]
pub enum GamePhase {
    CardDraw,
    CardSelection,
    CharacterAction,
    AdversaryCardDraw,
    AdversaryCardSelection,
    TurnOver,
}

/// Why a cutscene was started.
#[derive(Debug, Clone, Copy, PartialEq, Eq, Structural)]
pub enum CutsceneTrigger {
    CardEffect,
    MoodChange,
    TimeOfDay,
    ResourceThreshold,
    TurnEnd,
    AdversaryAction,
}

/// Which cutscene to play.
#[derive(Debug, Clone, Copy, PartialEq, Eq, Structural)]
pub enum CutsceneId {
    /// The cutscene attached to an activity card.
    Card(u32),
    /// The cutscene attached to an adversary card.
    Adversary(u32),
    CriticalHealth,
    MentalBreakdown,
    TurnMilestone,
    LateNightReflection,
    DepressionCutscene,
    ManicEpisode,
}

/// A cutscene queued to start after the current action finishes.
#[derive(Debug, Clone, Copy, PartialEq, Eq, Structural)]
pub struct PendingCutscene {
    pub cutscene: CutsceneId,
    pub card_id: Option<u32>,
    pub trigger_reason: CutsceneTrigger,
}

/// A passive step of game time and resource drift.
#[derive(Debug, Clone, Copy, PartialEq, Eq, Structural)]
pub struct GameStep {
    /// Unscaled wall time to advance, in seconds; the clock speed scales it.
    pub delta_seconds: u32,
    /// Signed drift of each resource, in tenths of a point.
    pub sleep_change: i32,
    pub health_change: i32,
    pub mental_change: i32,
    pub food_change: i32,
}

/// An event the core consumes.
#[derive(Debug, Clone, PartialEq)]
pub enum InEvent {
    /// Passive time and resource drift.
    Step(GameStep),
    /// A draw finished with this many cards.
    CardDrawn { count: u32 },
    /// The player picked a card.
    CardSelected(ActivityCard),
    /// The movement or interaction for the played card finished.
    ActionCompleted(ActivityCard),
    /// The adversary's draw finished with this many cards.
    AdversaryCardDrawn { count: u32 },
    /// The adversary picked a card.
    AdversaryCardSelected(AdversaryCard),
    /// The adversary's action finished.
    AdversaryActionCompleted { card_id: u32 },
    /// The running cutscene reported completion.
    CutsceneEnded,
}

/// An event the core produces for the surrounding engine.
#[derive(Debug, Clone, PartialEq)]
pub enum OutEvent {
    PhaseChanged { new_phase: GamePhase },
    ResourceChanged { resource: ResourceType, old_tenths: u32, new_tenths: u32 },
    MoodChanged { old_mood: Mood, new_mood: Mood },
    TimeChanged {
        old_second: u32,
        new_second: u32,
        old_time_of_day: TimeOfDay,
        new_time_of_day: TimeOfDay,
    },
    DayChanged { old_day: u32, new_day: u32 },
    CrisisLevelChanged { old_level: CrisisLevel, new_level: CrisisLevel },
    StatusEffectApplied(StatusEffectApplied),
    StatusEffectExpired { effect: StatusEffect },
    CardSelectionError { card_id: u32, blocks: Vec<PlayBlock> },
    CardSelectionSuccess { card_id: u32 },
    CutsceneStart { cutscene: CutsceneId, card_id: Option<u32>, reason: CutsceneTrigger },
    AdversaryActionCompleted { card_id: u32 },
    EndGame { result: EndGameResult },
}

/// A conditional single event: the event alone when the condition holds,
/// else nothing.
pub open spec fn spec_ev(cond: bool, e: OutEvent) -> Seq<OutEvent> {
    if cond {
        seq![e]
    } else {
        Seq::empty()
    }
}

} // verus!
