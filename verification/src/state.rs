//! The game state singleton: clock, resource ledger, derived mood and
//! time-of-day, status effects and per-card bookkeeping.
use vstd::prelude::*;
use vstd::string::StringExecFns;

use crate::cards::{CrisisLevel, Mood, ResourceType, StatusEffect, TimeOfDay};
use crate::RESOURCE_MAX_TENTHS;
use crate::spec_clamp_add;
use crate::clamp_add;

verus! {

/// Seconds in one day on the game clock.
pub const SECONDS_PER_DAY: u32 = 86400;

/// A status effect currently active on the player.
#[derive(Debug, Clone, PartialEq)]
pub struct ActiveStatusEffect {
    pub effect: StatusEffect,
    /// Turns left; decremented once per turn-over tick, removed at zero.
    pub remaining_duration: u32,
    /// Weight of the effect in the multiplier, in tenths (10 is weight one).
    pub intensity_tenths: u32,
    /// Label of whatever applied the effect, usually a card name.
    pub source: String,
}

/// The four resource values at one instant, in tenths.
#[derive(Debug, Clone, Copy, PartialEq, Eq, Structural)]
pub struct ResourceSnapshot {
    pub sleep: u32,
    pub health: u32,
    pub mental: u32,
    pub food: u32,
}

/// A snapshot of one played card, appended to the action history.
#[derive(Debug, Clone, PartialEq)]
pub struct PlayerAction {
    pub turn: u32,
    /// The resources before the card resolved.
    pub resources_before: ResourceSnapshot,
    /// The resources after the card resolved.
    pub resources_after: ResourceSnapshot,
    /// Game-clock second of day at which the card resolved.
    pub timestamp_second: u32,
}

/// The whole mutable game state outside the phase machine.
///
/// All resource values are in tenths of a point and stay in `[0, 1000]`;
/// the clock is a second-of-day below `86400` plus a day counter.
#[derive(Debug, Clone, PartialEq)]
pub struct GameState {
    /// Second of the current day, in `[0, 86400)`.
    pub second_of_day: u32,
    /// Day counter, starting at 1.
    pub current_day: u32,
    /// Clock speed in tenths: 10 means one real second is one game second.
    pub time_speed_tenths: u32,
    pub sleep: u32,
    pub health: u32,
    pub mental_health: u32,
    pub food: u32,
    /// Derived from the four resources; never set directly.
    pub current_mood: Mood,
    /// Derived from the clock; never set directly.
    pub time_of_day: TimeOfDay,
    pub status_effects: Vec<ActiveStatusEffect>,
    /// Remaining locked turns per resource; zero means unlocked.
    pub locked_sleep: u32,
    pub locked_health: u32,
    pub locked_mental: u32,
    pub locked_food: u32,
    /// Per-card turn number of the last play, for cooldown gating. The first
    /// pair with a given card id is the one that counts.
    pub card_cooldowns: Vec<(u32, u32)>,
    pub used_one_time_cards: Vec<u32>,
    /// Cards played today under a daily-reset policy; cleared on day change.
    pub daily_used_cards: Vec<u32>,
    /// Derived severity tier; recomputed whenever a resource changes.
    pub crisis_level: CrisisLevel,
    /// Days in a row on which all resources were at least 50 points with no
    /// crisis, evaluated at each day change.
    pub consecutive_stable_days: u32,
    /// Append-only history of played cards; the turn number is its length
    /// plus one.
    pub action_history: Vec<PlayerAction>,
    /// Names of objects the player can currently interact with.
    pub available_objects: Vec<String>,
    pub negative_card_count: u32,
    /// Ids of cards whose cutscene has already been shown.
    pub shown_cutscenes: Vec<u32>,
}

impl GameState {
    /// Well-formedness: clamped resources, a valid clock, bounded effect
    /// weights, and cooldown records no later than the current turn.
    pub open spec fn wf(self) -> bool {
        &&& self.sleep <= RESOURCE_MAX_TENTHS
        &&& self.health <= RESOURCE_MAX_TENTHS
        &&& self.mental_health <= RESOURCE_MAX_TENTHS
        &&& self.food <= RESOURCE_MAX_TENTHS
        &&& self.second_of_day < SECONDS_PER_DAY
        &&& 1 <= self.current_day
        &&& self.consecutive_stable_days < self.current_day
        &&& self.action_history@.len() + 1 < u32::MAX
        &&& forall|i: int|
            0 <= i < self.status_effects@.len() ==> (#[trigger] self.status_effects@[i]).intensity_tenths <= 1000
        &&& forall|i: int|
            0 <= i < self.card_cooldowns@.len() ==> 1 <= (#[trigger] self.card_cooldowns@[i]).1 <= self.spec_turn_number()
    }

    /// The current turn number: one more than the number of played cards.
    pub open spec fn spec_turn_number(self) -> int {
        self.action_history@.len() + 1int
    }

    /// The value of one resource, in tenths.
    pub open spec fn spec_resource(self, resource: ResourceType) -> u32 {
        match resource {
            ResourceType::Sleep => self.sleep,
            ResourceType::Health => self.health,
            ResourceType::Mental => self.mental_health,
            ResourceType::Food => self.food,
        }
    }

    /// The same state with one resource replaced.
    pub open spec fn spec_with_resource(self, resource: ResourceType, v: u32) -> GameState {
        match resource {
            ResourceType::Sleep => GameState { sleep: v, ..self },
            ResourceType::Health => GameState { health: v, ..self },
            ResourceType::Mental => GameState { mental_health: v, ..self },
            ResourceType::Food => GameState { food: v, ..self },
        }
    }

    /// The mood the rules derive from four resource values (in tenths);
    /// the first matching rule wins.
    pub open spec fn spec_mood_of(sleep: int, health: int, mental: int, food: int) -> Mood {
        if mental < 200 {
            Mood::Depressed
        } else if sleep < 200 {
            Mood::Tired
        } else if mental < 400 && sleep < 400 {
            Mood::Anxious
        } else if sleep + health + mental + food > 3200 {
            Mood::Content
        } else if mental > 900 && sleep < 300 {
            Mood::Manic
        } else {
            Mood::Neutral
        }
    }

    /// The mood derived from this state's resources.
    pub open spec fn spec_mood_now(self) -> Mood {
        Self::spec_mood_of(self.sleep as int, self.health as int, self.mental_health as int, self.food as int)
    }

    /// The time-of-day segment for a second of the day.
    pub open spec fn spec_time_of_day_of(second: int) -> TimeOfDay {
        if 18000 <= second < 32400 {
            TimeOfDay::EarlyMorning
        } else if 32400 <= second < 43200 {
            TimeOfDay::Morning
        } else if 43200 <= second < 61200 {
            TimeOfDay::Afternoon
        } else if 61200 <= second < 72000 {
            TimeOfDay::Evening
        } else if second >= 72000 {
            TimeOfDay::Night
        } else {
            TimeOfDay::LateNight
        }
    }

    /// Current turn number; the action history defines it.
    pub fn turn_number(&self) -> (turn: u32)
        requires
            self.wf(),
        ensures
            turn == self.spec_turn_number(),
    {
        self.action_history.len() as u32 + 1
    }

    /// Read one resource value, in tenths.
    pub fn get_resource_value(&self, resource: ResourceType) -> (v: u32)
        ensures
            v == self.spec_resource(resource),
    {
        match resource {
            ResourceType::Sleep => self.sleep,
            ResourceType::Health => self.health,
            ResourceType::Mental => self.mental_health,
            ResourceType::Food => self.food,
        }
    }

    /// Add a signed delta (in tenths) to one resource, clamping into
    /// `[0, 1000]`; reports whether the value actually changed.
    pub fn apply_delta(&mut self, resource: ResourceType, amount_tenths: i32) -> (changed: bool)
        requires
            old(self).wf(),
        ensures
            *final(self) == old(self).spec_with_resource(
                resource,
                spec_clamp_add(old(self).spec_resource(resource) as int, amount_tenths as int) as u32,
            ),
            changed == (final(self).spec_resource(resource) != old(self).spec_resource(resource)),
            final(self).wf(),
    {
        let old_v = self.get_resource_value(resource);
        let new_v = clamp_add(old_v, amount_tenths);
        match resource {
            ResourceType::Sleep => { self.sleep = new_v; },
            ResourceType::Health => { self.health = new_v; },
            ResourceType::Mental => { self.mental_health = new_v; },
            ResourceType::Food => { self.food = new_v; },
        }
        new_v != old_v
    }

    /// The time-of-day segment of a clock second.
    pub fn calculate_time_of_day(second_of_day: u32) -> (t: TimeOfDay)
        ensures
            t == Self::spec_time_of_day_of(second_of_day as int),
    {
        if 18000 <= second_of_day && second_of_day < 32400 {
            TimeOfDay::EarlyMorning
        } else if 32400 <= second_of_day && second_of_day < 43200 {
            TimeOfDay::Morning
        } else if 43200 <= second_of_day && second_of_day < 61200 {
            TimeOfDay::Afternoon
        } else if 61200 <= second_of_day && second_of_day < 72000 {
            TimeOfDay::Evening
        } else if second_of_day >= 72000 {
            TimeOfDay::Night
        } else {
            TimeOfDay::LateNight
        }
    }

    /// The mood derived from the current resources; a pure function of the
    /// four resource values alone.
    pub fn calculate_mood(&self) -> (mood: Mood)
        ensures
            mood == self.spec_mood_now(),
    {
        let avg_x4: u64 = self.sleep as u64 + self.health as u64 + self.mental_health as u64
            + self.food as u64;
        if self.mental_health < 200 {
            Mood::Depressed
        } else if self.sleep < 200 {
            Mood::Tired
        } else if self.mental_health < 400 && self.sleep < 400 {
            Mood::Anxious
        } else if avg_x4 > 3200 {
            Mood::Content
        } else if self.mental_health > 900 && self.sleep < 300 {
            Mood::Manic
        } else {
            Mood::Neutral
        }
    }

    /// Recompute the stored mood from the resources; reports whether it
    /// changed.
    pub fn recompute_mood(&mut self) -> (changed: bool)
        ensures
            *final(self) == (GameState { current_mood: old(self).spec_mood_now(), ..*old(self) }),
            changed == (old(self).current_mood != final(self).current_mood),
    {
        let new_mood = self.calculate_mood();
        let changed = new_mood != self.current_mood;
        self.current_mood = new_mood;
        changed
    }

    /// Append a status effect; it always enters with weight one (10 tenths).
    pub fn add_status_effect(&mut self, effect: StatusEffect, duration: u32, source: String)
        requires
            old(self).wf(),
        ensures
            *final(self) == (GameState {
                status_effects: final(self).status_effects,
                ..*old(self)
            }),
            final(self).status_effects@ == old(self).status_effects@.push(ActiveStatusEffect {
                effect: effect,
                remaining_duration: duration,
                intensity_tenths: 10,
                source: source,
            }),
            final(self).wf(),
    {
        self.status_effects.push(ActiveStatusEffect {
            effect,
            remaining_duration: duration,
            intensity_tenths: 10,
            source,
        });
    }
}

impl Default for GameState {
    /// The opening state: ten in the morning of day one at normal speed,
    /// the four resources at 70, 80, 60 and 50 points, a neutral mood, no
    /// effects or bookkeeping yet, and the nine household objects at hand.
    fn default() -> (d: Self)
        ensures
            d.second_of_day == 36000,
            d.current_day == 1,
            d.time_speed_tenths == 10,
            d.sleep == 700,
            d.health == 800,
            d.mental_health == 600,
            d.food == 500,
            d.current_mood == Mood::Neutral,
            d.time_of_day == TimeOfDay::Morning,
            d.status_effects@ == Seq::<ActiveStatusEffect>::empty(),
            d.locked_sleep == 0 && d.locked_health == 0 && d.locked_mental == 0 && d.locked_food
                == 0,
            d.card_cooldowns@ == Seq::<(u32, u32)>::empty(),
            d.used_one_time_cards@ == Seq::<u32>::empty(),
            d.daily_used_cards@ == Seq::<u32>::empty(),
            d.crisis_level == CrisisLevel::NoCrisis,
            d.consecutive_stable_days == 0,
            d.action_history@ == Seq::<PlayerAction>::empty(),
            d.available_objects@.len() == 9,
            d.available_objects@[0]@ == "bed"@,
            d.available_objects@[1]@ == "kitchen"@,
            d.available_objects@[2]@ == "bathroom"@,
            d.available_objects@[3]@ == "tv"@,
            d.available_objects@[4]@ == "computer"@,
            d.available_objects@[5]@ == "phone"@,
            d.available_objects@[6]@ == "fridge"@,
            d.available_objects@[7]@ == "gameconsole"@,
            d.available_objects@[8]@ == "window"@,
            d.negative_card_count == 0,
            d.shown_cutscenes@ == Seq::<u32>::empty(),
            d.wf(),
    {
        let mut objects: Vec<String> = Vec::new();
        objects.push(String::from_str("bed"));
        objects.push(String::from_str("kitchen"));
        objects.push(String::from_str("bathroom"));
        objects.push(String::from_str("tv"));
        objects.push(String::from_str("computer"));
        objects.push(String::from_str("phone"));
        objects.push(String::from_str("fridge"));
        objects.push(String::from_str("gameconsole"));
        objects.push(String::from_str("window"));
        GameState {
            second_of_day: 36000,
            current_day: 1,
            time_speed_tenths: 10,
            sleep: 700,
            health: 800,
            mental_health: 600,
            food: 500,
            current_mood: Mood::Neutral,
            time_of_day: TimeOfDay::Morning,
            status_effects: Vec::new(),
            locked_sleep: 0,
            locked_health: 0,
            locked_mental: 0,
            locked_food: 0,
            card_cooldowns: Vec::new(),
            used_one_time_cards: Vec::new(),
            daily_used_cards: Vec::new(),
            crisis_level: CrisisLevel::NoCrisis,
            consecutive_stable_days: 0,
            action_history: Vec::new(),
            available_objects: objects,
            negative_card_count: 0,
            shown_cutscenes: Vec::new(),
        }
    }
}

/// Folding a sequence of deltas over a resource value, clamping after each
/// step, as repeated `apply_delta` calls do.
pub open spec fn spec_fold_deltas(v: int, deltas: Seq<int>) -> int
    decreases deltas.len(),
{
    if deltas.len() == 0 {
        v
    } else {
        spec_clamp_add(spec_fold_deltas(v, deltas.drop_last()), deltas.last())
    }
}

/// Resource clamping: any sequence of clamped delta applications keeps a
/// resource value within `[0, 1000]` tenths.
pub proof fn lemma_resource_clamping(v: int, deltas: Seq<int>)
    requires
        0 <= v <= RESOURCE_MAX_TENTHS,
    ensures
        0 <= spec_fold_deltas(v, deltas) <= RESOURCE_MAX_TENTHS,
    decreases deltas.len(),
{
    if deltas.len() > 0 {
        lemma_resource_clamping(v, deltas.drop_last());
    }
}

/// Mood determinism: the derived mood depends on the four resource values
/// alone, never on call history or any other part of the state.
pub proof fn lemma_mood_deterministic(a: GameState, b: GameState)
    requires
        a.sleep == b.sleep,
        a.health == b.health,
        a.mental_health == b.mental_health,
        a.food == b.food,
    ensures
        a.spec_mood_now() == b.spec_mood_now(),
{
}

} // verus!
